//! Validation of argument types against a signature.
//!
//! The general promotion of heterogeneous argument types to a common type is
//! the business of an external coercion step and happens before this layer
//! is consulted. What is decided here is whether a tuple of already-coerced
//! types satisfies a signature: the empty call is admitted exactly for
//! signatures with a zero-argument alternative, and a non-empty tuple must
//! match one of the signature's shapes as it stands.

use vstd::prelude::*;
use crate::data_type::DataType;
use crate::errors::PlanError;
use crate::functions::BuiltinScalarFunction;
use crate::signature::{BaseShape, BaseSignature, Signature, TypeSignature, shape_supports_zero,
    spec_signature, spec_supports_zero_argument};

verus! {

/// All types in the tuple are the same.
pub open spec fn all_equal(ts: Seq<DataType>) -> bool {
    forall|i: int| 0 <= i < ts.len() ==> #[trigger] ts[i] == ts[0]
}

/// Whether one shape accepts the given tuple of coerced types.
pub open spec fn shape_accepts(b: BaseShape, ts: Seq<DataType>) -> bool {
    match b {
        BaseShape::Exact(e) => ts == e,
        BaseShape::Uniform(n, allowed) => if n == 0 {
            ts.len() == 0
        } else {
            ts.len() == n && all_equal(ts) && allowed.contains(ts[0])
        },
        BaseShape::Variadic(allowed) => ts.len() >= 1 && all_equal(ts) && allowed.contains(ts[0]),
        BaseShape::VariadicEqual => ts.len() >= 1 && all_equal(ts),
        BaseShape::VariadicAny => ts.len() >= 1,
        BaseShape::ArrayAndIndex => ts.len() == 2 && ts[0].spec_is_list_kind() && ts[1]
            == DataType::Int64,
        BaseShape::ArrayAndElement => ts.len() == 2 && ts[0].spec_is_list_kind() && ts[1]
            == ts[0].spec_list_element(),
        BaseShape::ArrayAndElementAndOptionalIndex => (ts.len() == 2 || (ts.len() == 3 && ts[2]
            == DataType::Int64)) && ts[0].spec_is_list_kind() && ts[1]
            == ts[0].spec_list_element(),
        BaseShape::Any(n) => ts.len() == n,
        BaseShape::ZeroArgs => ts.len() == 0,
    }
}

/// Whether some alternative of a signature accepts the tuple.
pub open spec fn sig_accepts(alts: Seq<BaseShape>, ts: Seq<DataType>) -> bool {
    exists|i: int| 0 <= i < alts.len() && shape_accepts(#[trigger] alts[i], ts)
}

/// The outcome of validating a tuple of coerced types against an identity's
/// signature: the tuple unchanged, or a signature mismatch.
pub open spec fn spec_validate(f: BuiltinScalarFunction, ts: Seq<DataType>) -> Result<
    Seq<DataType>,
    PlanError,
> {
    if ts.len() == 0 {
        if spec_supports_zero_argument(spec_signature(f)) {
            Ok(ts)
        } else {
            Err(PlanError::SignatureMismatch { fun: f })
        }
    } else if sig_accepts(spec_signature(f), ts) {
        Ok(ts)
    } else {
        Err(PlanError::SignatureMismatch { fun: f })
    }
}

/// An empty call is accepted by a signature's shapes exactly when one of
/// them supports zero arguments: the special admission of niladic calls
/// agrees with plain shape acceptance.
pub proof fn lemma_empty_acceptance(alts: Seq<BaseShape>)
    ensures
        sig_accepts(alts, Seq::<DataType>::empty()) == spec_supports_zero_argument(alts),
{
    assert forall|b: BaseShape| shape_accepts(b, Seq::<DataType>::empty()) == shape_supports_zero(
        b,
    ) by {
        match b {
            BaseShape::Exact(e) => {
                if e.len() == 0 {
                    assert(Seq::<DataType>::empty() =~= e);
                }
            },
            _ => {},
        }
    }
}

/// A function with a zero-argument alternative validates the empty call; a
/// function without one rejects it.
pub proof fn lemma_zero_argument_admission(f: BuiltinScalarFunction)
    ensures
        spec_validate(f, Seq::<DataType>::empty()) is Ok <==> spec_supports_zero_argument(
            spec_signature(f),
        ),
{
}

fn types_equal(a: &Vec<DataType>, b: &Vec<DataType>) -> (r: bool)
    ensures
        r == (a@ == b@),
{
    if a.len() != b.len() {
        return false;
    }
    let mut i: usize = 0;
    while i < a.len()
        invariant
            i <= a@.len(),
            a@.len() == b@.len(),
            forall|j: int| 0 <= j < i ==> a@[j] == b@[j],
        decreases a@.len() - i,
    {
        if !a[i].same_as(&b[i]) {
            return false;
        }
        i = i + 1;
    }
    proof {
        assert(a@ =~= b@);
    }
    true
}

fn check_all_equal(ts: &Vec<DataType>) -> (r: bool)
    ensures
        r == all_equal(ts@),
{
    let mut i: usize = 0;
    while i < ts.len()
        invariant
            i <= ts@.len(),
            forall|j: int| 0 <= j < i ==> #[trigger] ts@[j] == ts@[0],
        decreases ts@.len() - i,
    {
        if !ts[i].same_as(&ts[0]) {
            return false;
        }
        i = i + 1;
    }
    true
}

fn type_list_contains(allowed: &Vec<DataType>, t: &DataType) -> (r: bool)
    ensures
        r == allowed@.contains(*t),
{
    let mut i: usize = 0;
    while i < allowed.len()
        invariant
            i <= allowed@.len(),
            forall|j: int| 0 <= j < i ==> allowed@[j] != *t,
        decreases allowed@.len() - i,
    {
        if allowed[i].same_as(t) {
            return true;
        }
        i = i + 1;
    }
    false
}

fn is_list_kind(t: &DataType) -> (r: bool)
    ensures
        r == t.spec_is_list_kind(),
{
    match t {
        DataType::List(_) => true,
        DataType::LargeList(_) => true,
        DataType::FixedSizeList(_, _) => true,
        _ => false,
    }
}

fn element_matches(t: &DataType, e: &DataType) -> (r: bool)
    requires
        t.spec_is_list_kind(),
    ensures
        r == (*e == t.spec_list_element()),
{
    match t {
        DataType::List(inner) => e.same_as(inner),
        DataType::LargeList(inner) => e.same_as(inner),
        DataType::FixedSizeList(inner, _) => e.same_as(inner),
        _ => false,
    }
}

fn base_accepts(b: &BaseSignature, ts: &Vec<DataType>) -> (r: bool)
    ensures
        r == shape_accepts(b@, ts@),
{
    match b {
        BaseSignature::Exact(e) => types_equal(ts, e),
        BaseSignature::Uniform(n, allowed) => {
            if *n == 0 {
                ts.len() == 0
            } else {
                ts.len() == *n && check_all_equal(ts) && type_list_contains(allowed, &ts[0])
            }
        },
        BaseSignature::Variadic(allowed) => {
            ts.len() >= 1 && check_all_equal(ts) && type_list_contains(allowed, &ts[0])
        },
        BaseSignature::VariadicEqual => ts.len() >= 1 && check_all_equal(ts),
        BaseSignature::VariadicAny => ts.len() >= 1,
        BaseSignature::ArrayAndIndex => {
            ts.len() == 2 && is_list_kind(&ts[0]) && ts[1].same_as(&DataType::Int64)
        },
        BaseSignature::ArrayAndElement => {
            ts.len() == 2 && is_list_kind(&ts[0]) && element_matches(&ts[0], &ts[1])
        },
        BaseSignature::ArrayAndElementAndOptionalIndex => {
            (ts.len() == 2 || (ts.len() == 3 && ts[2].same_as(&DataType::Int64))) && is_list_kind(
                &ts[0],
            ) && element_matches(&ts[0], &ts[1])
        },
        BaseSignature::Any(n) => ts.len() == *n,
        BaseSignature::ZeroArgs => ts.len() == 0,
    }
}

fn signature_accepts(sig: &Signature, ts: &Vec<DataType>) -> (r: bool)
    ensures
        r == sig_accepts(sig.type_signature@, ts@),
{
    match &sig.type_signature {
        TypeSignature::Single(b) => {
            let a = base_accepts(b, ts);
            proof {
                assert(sig.type_signature@[0] == b@);
            }
            a
        },
        TypeSignature::OneOf(v) => {
            let mut i: usize = 0;
            let mut found = false;
            while i < v.len()
                invariant
                    i <= v@.len(),
                    sig.type_signature@ == v@.map_values(|b: BaseSignature| b@),
                    found == exists|j: int|
                        0 <= j < i && shape_accepts(#[trigger] sig.type_signature@[j], ts@),
                decreases v@.len() - i,
            {
                if base_accepts(&v[i], ts) {
                    proof {
                        assert(shape_accepts(sig.type_signature@[i as int], ts@));
                    }
                    found = true;
                }
                i = i + 1;
            }
            found
        },
    }
}

fn clone_types(ts: &Vec<DataType>) -> (r: Vec<DataType>)
    ensures
        r@ == ts@,
{
    let mut out: Vec<DataType> = Vec::new();
    let mut i: usize = 0;
    while i < ts.len()
        invariant
            i <= ts@.len(),
            out@.len() == i,
            forall|j: int| 0 <= j < i ==> out@[j] == ts@[j],
        decreases ts@.len() - i,
    {
        out.push(ts[i].clone());
        i = i + 1;
    }
    proof {
        assert(out@ =~= ts@);
    }
    out
}

/// Validates a tuple of coerced argument types against a function's
/// signature, returning the tuple unchanged when it is accepted. The empty
/// tuple is accepted exactly for functions whose signature supports zero
/// arguments.
pub fn validate_arg_types(fun: BuiltinScalarFunction, input_types: &Vec<DataType>) -> (r: Result<
    Vec<DataType>,
    PlanError,
>)
    ensures
        match r {
            Ok(v) => v@ == input_types@ && spec_validate(fun, input_types@) == Ok::<_, PlanError>(
                input_types@,
            ),
            Err(e) => spec_validate(fun, input_types@) == Err::<Seq<DataType>, _>(e),
        },
{
    let sig = fun.signature();
    if input_types.len() == 0 {
        if sig.type_signature.supports_zero_argument() {
            Ok(Vec::new())
        } else {
            Err(PlanError::SignatureMismatch { fun })
        }
    } else if signature_accepts(&sig, input_types) {
        Ok(clone_types(input_types))
    } else {
        Err(PlanError::SignatureMismatch { fun })
    }
}

} // verus!
