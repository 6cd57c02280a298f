//! Output-type inference: from an identity and its coerced input types to
//! the type of the result.

use vstd::prelude::*;
use crate::data_type::DataType;
use crate::errors::PlanError;
use crate::functions::BuiltinScalarFunction;
use crate::type_check::all_equal;

verus! {

/// The output type of a text-producing string function: text width tracks
/// the widest input text representation, binary coerces to text, dictionary
/// input is judged by its value type, null stays null, and any other kind is
/// rejected naming the function and the offending type.
pub open spec fn spec_utf8_to_str(t: DataType, f: BuiltinScalarFunction) -> Result<
    DataType,
    PlanError,
> {
    match t {
        DataType::LargeUtf8 | DataType::LargeBinary => Ok(DataType::LargeUtf8),
        DataType::Utf8 | DataType::Binary => Ok(DataType::Utf8),
        DataType::Null => Ok(DataType::Null),
        DataType::Dictionary(_, v) => match *v {
            DataType::LargeUtf8 | DataType::LargeBinary => Ok(DataType::LargeUtf8),
            DataType::Utf8 | DataType::Binary => Ok(DataType::Utf8),
            DataType::Null => Ok(DataType::Null),
            _ => Err(PlanError::ExpectsStringType { fun: f, actual: *v }),
        },
        _ => Err(PlanError::ExpectsStringType { fun: f, actual: t }),
    }
}

/// The output type of a length- or position-returning string function:
/// 32-bit for regular text width, 64-bit for large text width, following the
/// same input judgement as the text-producing functions.
pub open spec fn spec_utf8_to_int(t: DataType, f: BuiltinScalarFunction) -> Result<
    DataType,
    PlanError,
> {
    match t {
        DataType::LargeUtf8 | DataType::LargeBinary => Ok(DataType::Int64),
        DataType::Utf8 | DataType::Binary => Ok(DataType::Int32),
        DataType::Null => Ok(DataType::Null),
        DataType::Dictionary(_, v) => match *v {
            DataType::LargeUtf8 | DataType::LargeBinary => Ok(DataType::Int64),
            DataType::Utf8 | DataType::Binary => Ok(DataType::Int32),
            DataType::Null => Ok(DataType::Null),
            _ => Err(PlanError::ExpectsStringType { fun: f, actual: *v }),
        },
        _ => Err(PlanError::ExpectsStringType { fun: f, actual: t }),
    }
}

/// How many leading input types each identity's return-type rule reads; a
/// caller must supply at least this many.
pub open spec fn spec_return_type_arity(f: BuiltinScalarFunction) -> nat {
    match f {
        BuiltinScalarFunction::ArrayIntersect
        | BuiltinScalarFunction::ArrayUnion
        | BuiltinScalarFunction::ArrayExcept => 2,
        BuiltinScalarFunction::Ascii
        | BuiltinScalarFunction::Chr
        | BuiltinScalarFunction::Concat
        | BuiltinScalarFunction::ConcatWithSeparator
        | BuiltinScalarFunction::StartsWith
        | BuiltinScalarFunction::EndsWith
        | BuiltinScalarFunction::Pi
        | BuiltinScalarFunction::Random
        | BuiltinScalarFunction::Uuid
        | BuiltinScalarFunction::ToChar
        | BuiltinScalarFunction::MakeDate
        | BuiltinScalarFunction::Iszero
        | BuiltinScalarFunction::Factorial
        | BuiltinScalarFunction::Gcd
        | BuiltinScalarFunction::Lcm
        | BuiltinScalarFunction::ArrayPosition
        | BuiltinScalarFunction::ArrayPositions
        | BuiltinScalarFunction::Coalesce => 0,
        _ => 1,
    }
}

/// The return-type rule of each identity, applied to coerced input types.
pub open spec fn spec_return_type(f: BuiltinScalarFunction, ts: Seq<DataType>) -> Result<
    DataType,
    PlanError,
> {
    match f {
        BuiltinScalarFunction::ArrayElement => match ts[0] {
            DataType::List(e) => Ok(*e),
            DataType::LargeList(e) => Ok(*e),
            DataType::FixedSizeList(e, _) => Ok(*e),
            _ => Err(PlanError::FirstArgumentMustBeList { fun: f }),
        },
        BuiltinScalarFunction::ArrayPopFront
        | BuiltinScalarFunction::ArrayPopBack
        | BuiltinScalarFunction::ArrayRemove
        | BuiltinScalarFunction::ArrayRemoveN
        | BuiltinScalarFunction::ArrayRemoveAll
        | BuiltinScalarFunction::ArrayReplace
        | BuiltinScalarFunction::ArrayReplaceN
        | BuiltinScalarFunction::ArrayReplaceAll
        | BuiltinScalarFunction::ArrayReverse
        | BuiltinScalarFunction::ArraySlice
        | BuiltinScalarFunction::ArrayResize => Ok(ts[0]),
        BuiltinScalarFunction::ArrayPosition => Ok(DataType::UInt64),
        BuiltinScalarFunction::ArrayPositions => Ok(
            DataType::List(Box::new(DataType::UInt64)),
        ),
        BuiltinScalarFunction::ArrayIntersect => if ts[0] == DataType::Null {
            Ok(DataType::Null)
        } else if ts[1] == DataType::Null {
            Ok(DataType::List(Box::new(DataType::Null)))
        } else {
            Ok(ts[0])
        },
        BuiltinScalarFunction::ArrayUnion => if ts[0] == DataType::Null {
            Ok(ts[1])
        } else {
            Ok(ts[0])
        },
        BuiltinScalarFunction::ArrayExcept => Ok(ts[0]),
        BuiltinScalarFunction::Ascii => Ok(DataType::Int32),
        BuiltinScalarFunction::BitLength
        | BuiltinScalarFunction::CharacterLength
        | BuiltinScalarFunction::OctetLength
        | BuiltinScalarFunction::Strpos
        | BuiltinScalarFunction::FindInSet
        | BuiltinScalarFunction::Levenshtein => spec_utf8_to_int(ts[0], f),
        BuiltinScalarFunction::Btrim
        | BuiltinScalarFunction::InitCap
        | BuiltinScalarFunction::Left
        | BuiltinScalarFunction::Lower
        | BuiltinScalarFunction::Lpad
        | BuiltinScalarFunction::Ltrim
        | BuiltinScalarFunction::Repeat
        | BuiltinScalarFunction::Replace
        | BuiltinScalarFunction::Reverse
        | BuiltinScalarFunction::Right
        | BuiltinScalarFunction::Rpad
        | BuiltinScalarFunction::Rtrim
        | BuiltinScalarFunction::SplitPart
        | BuiltinScalarFunction::Substr
        | BuiltinScalarFunction::SubstrIndex
        | BuiltinScalarFunction::Translate
        | BuiltinScalarFunction::Trim
        | BuiltinScalarFunction::Upper
        | BuiltinScalarFunction::OverLay => spec_utf8_to_str(ts[0], f),
        BuiltinScalarFunction::Chr
        | BuiltinScalarFunction::Concat
        | BuiltinScalarFunction::ConcatWithSeparator
        | BuiltinScalarFunction::Uuid
        | BuiltinScalarFunction::ToChar => Ok(DataType::Utf8),
        BuiltinScalarFunction::Coalesce => if ts.len() >= 1 && all_equal(ts) {
            Ok(ts[0])
        } else {
            Err(PlanError::SignatureMismatch { fun: f })
        },
        BuiltinScalarFunction::StartsWith
        | BuiltinScalarFunction::EndsWith
        | BuiltinScalarFunction::Iszero => Ok(DataType::Boolean),
        BuiltinScalarFunction::Pi | BuiltinScalarFunction::Random => Ok(DataType::Float64),
        BuiltinScalarFunction::ToHex => match ts[0] {
            DataType::Int8 | DataType::Int16 | DataType::Int32 | DataType::Int64 => Ok(
                DataType::Utf8,
            ),
            _ => Err(PlanError::ExpectsIntegerType { fun: f }),
        },
        BuiltinScalarFunction::MakeDate => Ok(DataType::Date32),
        BuiltinScalarFunction::Factorial
        | BuiltinScalarFunction::Gcd
        | BuiltinScalarFunction::Lcm => Ok(DataType::Int64),
        BuiltinScalarFunction::Power => match ts[0] {
            DataType::Int64 => Ok(DataType::Int64),
            _ => Ok(DataType::Float64),
        },
        _ => match ts[0] {
            DataType::Float32 => Ok(DataType::Float32),
            _ => Ok(DataType::Float64),
        },
    }
}

/// Identical identity and coerced input types always yield the identical
/// output type: the return-type rule is a pure function of its two inputs.
pub proof fn lemma_return_type_pure(
    f1: BuiltinScalarFunction,
    f2: BuiltinScalarFunction,
    ts1: Seq<DataType>,
    ts2: Seq<DataType>,
)
    requires
        f1 == f2,
        ts1 == ts2,
    ensures
        spec_return_type(f1, ts1) == spec_return_type(f2, ts2),
{
}

fn utf8_to_str_type(arg_type: &DataType, fun: BuiltinScalarFunction) -> (r: Result<
    DataType,
    PlanError,
>)
    ensures
        r == spec_utf8_to_str(*arg_type, fun),
{
    match arg_type {
        DataType::LargeUtf8 | DataType::LargeBinary => Ok(DataType::LargeUtf8),
        DataType::Utf8 | DataType::Binary => Ok(DataType::Utf8),
        DataType::Null => Ok(DataType::Null),
        DataType::Dictionary(_, v) => match &**v {
            DataType::LargeUtf8 | DataType::LargeBinary => Ok(DataType::LargeUtf8),
            DataType::Utf8 | DataType::Binary => Ok(DataType::Utf8),
            DataType::Null => Ok(DataType::Null),
            _ => Err(PlanError::ExpectsStringType { fun, actual: (**v).clone() }),
        },
        _ => Err(PlanError::ExpectsStringType { fun, actual: arg_type.clone() }),
    }
}

fn utf8_to_int_type(arg_type: &DataType, fun: BuiltinScalarFunction) -> (r: Result<
    DataType,
    PlanError,
>)
    ensures
        r == spec_utf8_to_int(*arg_type, fun),
{
    match arg_type {
        DataType::LargeUtf8 | DataType::LargeBinary => Ok(DataType::Int64),
        DataType::Utf8 | DataType::Binary => Ok(DataType::Int32),
        DataType::Null => Ok(DataType::Null),
        DataType::Dictionary(_, v) => match &**v {
            DataType::LargeUtf8 | DataType::LargeBinary => Ok(DataType::Int64),
            DataType::Utf8 | DataType::Binary => Ok(DataType::Int32),
            DataType::Null => Ok(DataType::Null),
            _ => Err(PlanError::ExpectsStringType { fun, actual: (**v).clone() }),
        },
        _ => Err(PlanError::ExpectsStringType { fun, actual: arg_type.clone() }),
    }
}

fn check_all_equal_types(ts: &Vec<DataType>) -> (r: bool)
    ensures
        r == all_equal(ts@),
{
    let mut i: usize = 0;
    while i < ts.len()
        invariant
            i <= ts@.len(),
            forall|j: int| 0 <= j < i ==> #[trigger] ts@[j] == ts@[0],
        decreases ts@.len() - i,
    {
        if !ts[i].same_as(&ts[0]) {
            return false;
        }
        i = i + 1;
    }
    true
}

impl BuiltinScalarFunction {
    /// Returns the output type of this function for the given coerced input
    /// types. Must be invoked only after the inputs have been validated
    /// against the function's signature, which supplies at least the types
    /// the rule reads.
    #[verifier::rlimit(60)]
    #[verifier::spinoff_prover]
    pub fn return_type(self, input_expr_types: &Vec<DataType>) -> (r: Result<DataType, PlanError>)
        requires
            input_expr_types@.len() >= spec_return_type_arity(self),
        ensures
            r == spec_return_type(self, input_expr_types@),
    {
        let ts = input_expr_types;
        match self {
            BuiltinScalarFunction::ArrayElement => match &ts[0] {
                DataType::List(e) => Ok((**e).clone()),
                DataType::LargeList(e) => Ok((**e).clone()),
                DataType::FixedSizeList(e, _) => Ok((**e).clone()),
                _ => Err(PlanError::FirstArgumentMustBeList { fun: self }),
            },
            BuiltinScalarFunction::ArrayPopFront
            | BuiltinScalarFunction::ArrayPopBack
            | BuiltinScalarFunction::ArrayRemove
            | BuiltinScalarFunction::ArrayRemoveN
            | BuiltinScalarFunction::ArrayRemoveAll
            | BuiltinScalarFunction::ArrayReplace
            | BuiltinScalarFunction::ArrayReplaceN
            | BuiltinScalarFunction::ArrayReplaceAll
            | BuiltinScalarFunction::ArrayReverse
            | BuiltinScalarFunction::ArraySlice
            | BuiltinScalarFunction::ArrayResize => Ok(ts[0].clone()),
            BuiltinScalarFunction::ArrayPosition => Ok(DataType::UInt64),
            BuiltinScalarFunction::ArrayPositions => Ok(
                DataType::List(Box::new(DataType::UInt64)),
            ),
            BuiltinScalarFunction::ArrayIntersect => {
                if ts[0].same_as(&DataType::Null) {
                    Ok(DataType::Null)
                } else if ts[1].same_as(&DataType::Null) {
                    Ok(DataType::List(Box::new(DataType::Null)))
                } else {
                    Ok(ts[0].clone())
                }
            },
            BuiltinScalarFunction::ArrayUnion => {
                if ts[0].same_as(&DataType::Null) {
                    Ok(ts[1].clone())
                } else {
                    Ok(ts[0].clone())
                }
            },
            BuiltinScalarFunction::ArrayExcept => Ok(ts[0].clone()),
            BuiltinScalarFunction::Ascii => Ok(DataType::Int32),
            BuiltinScalarFunction::BitLength
            | BuiltinScalarFunction::CharacterLength
            | BuiltinScalarFunction::OctetLength
            | BuiltinScalarFunction::Strpos
            | BuiltinScalarFunction::FindInSet
            | BuiltinScalarFunction::Levenshtein => utf8_to_int_type(&ts[0], self),
            BuiltinScalarFunction::Btrim
            | BuiltinScalarFunction::InitCap
            | BuiltinScalarFunction::Left
            | BuiltinScalarFunction::Lower
            | BuiltinScalarFunction::Lpad
            | BuiltinScalarFunction::Ltrim
            | BuiltinScalarFunction::Repeat
            | BuiltinScalarFunction::Replace
            | BuiltinScalarFunction::Reverse
            | BuiltinScalarFunction::Right
            | BuiltinScalarFunction::Rpad
            | BuiltinScalarFunction::Rtrim
            | BuiltinScalarFunction::SplitPart
            | BuiltinScalarFunction::Substr
            | BuiltinScalarFunction::SubstrIndex
            | BuiltinScalarFunction::Translate
            | BuiltinScalarFunction::Trim
            | BuiltinScalarFunction::Upper
            | BuiltinScalarFunction::OverLay => utf8_to_str_type(&ts[0], self),
            BuiltinScalarFunction::Chr
            | BuiltinScalarFunction::Concat
            | BuiltinScalarFunction::ConcatWithSeparator
            | BuiltinScalarFunction::Uuid
            | BuiltinScalarFunction::ToChar => Ok(DataType::Utf8),
            BuiltinScalarFunction::Coalesce => {
                if ts.len() >= 1 && check_all_equal_types(ts) {
                    Ok(ts[0].clone())
                } else {
                    Err(PlanError::SignatureMismatch { fun: self })
                }
            },
            BuiltinScalarFunction::StartsWith
            | BuiltinScalarFunction::EndsWith
            | BuiltinScalarFunction::Iszero => Ok(DataType::Boolean),
            BuiltinScalarFunction::Pi | BuiltinScalarFunction::Random => Ok(DataType::Float64),
            BuiltinScalarFunction::ToHex => match &ts[0] {
                DataType::Int8 | DataType::Int16 | DataType::Int32 | DataType::Int64 => Ok(
                    DataType::Utf8,
                ),
                _ => Err(PlanError::ExpectsIntegerType { fun: self }),
            },
            BuiltinScalarFunction::MakeDate => Ok(DataType::Date32),
            BuiltinScalarFunction::Factorial
            | BuiltinScalarFunction::Gcd
            | BuiltinScalarFunction::Lcm => Ok(DataType::Int64),
            BuiltinScalarFunction::Power => match &ts[0] {
                DataType::Int64 => Ok(DataType::Int64),
                _ => Ok(DataType::Float64),
            },
            _ => match &ts[0] {
                DataType::Float32 => Ok(DataType::Float32),
                _ => Ok(DataType::Float64),
            },
        }
    }
}

} // verus!
