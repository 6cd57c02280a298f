//! Binding a validated call to an executable node: kernel dispatch and the
//! assembly of the physical expression.

use vstd::prelude::*;
use crate::data_type::DataType;
use crate::errors::{ExecError, PlanError};
use crate::functions::{BuiltinScalarFunction, spec_name};
use crate::return_type::{spec_return_type, spec_return_type_arity};
use crate::signature::{spec_signature, spec_supports_zero_argument};
use crate::sort_properties::{FuncMonotonicity, spec_monotonicity};
use crate::type_check::{spec_validate, validate_arg_types};

verus! {

/// How the concrete kernel for a function is selected at invocation time.
#[derive(Clone, Copy, Debug, PartialEq, Eq, Structural)]
pub enum DispatchRule {
    /// One kernel serves every accepted input type.
    Direct,
    /// The first argument's text representation selects between two kernels
    /// that differ only in offset width.
    ByStringOffsets,
    /// The first argument's integer width selects between two kernels.
    ByIntegerWidth,
}

/// The dispatch entry bound for one function: how its kernel is selected and
/// whether the kernel family needs the optional unicode capability. The
/// entry is the same in every build configuration; a missing capability
/// surfaces only when the kernel is invoked.
#[derive(Clone, Copy, Debug, PartialEq, Eq, Structural)]
pub struct KernelPlan {
    pub fun: BuiltinScalarFunction,
    pub dispatch: DispatchRule,
    pub requires_unicode: bool,
}

/// A concrete kernel choice for one invocation: the function and whether
/// the wide-offset variant serves it.
#[derive(Clone, Copy, Debug, PartialEq, Eq, Structural)]
pub struct SelectedKernel {
    pub fun: BuiltinScalarFunction,
    pub wide: bool,
}

/// The dispatch rule of each identity.
pub open spec fn spec_dispatch_rule(f: BuiltinScalarFunction) -> DispatchRule {
    match f {
        BuiltinScalarFunction::Ascii
        | BuiltinScalarFunction::Btrim
        | BuiltinScalarFunction::CharacterLength
        | BuiltinScalarFunction::InitCap
        | BuiltinScalarFunction::Left
        | BuiltinScalarFunction::Lpad
        | BuiltinScalarFunction::Ltrim
        | BuiltinScalarFunction::Repeat
        | BuiltinScalarFunction::Replace
        | BuiltinScalarFunction::Reverse
        | BuiltinScalarFunction::Right
        | BuiltinScalarFunction::Rpad
        | BuiltinScalarFunction::Rtrim
        | BuiltinScalarFunction::SplitPart
        | BuiltinScalarFunction::StartsWith
        | BuiltinScalarFunction::EndsWith
        | BuiltinScalarFunction::Strpos
        | BuiltinScalarFunction::Substr
        | BuiltinScalarFunction::Translate
        | BuiltinScalarFunction::Trim
        | BuiltinScalarFunction::OverLay
        | BuiltinScalarFunction::Levenshtein
        | BuiltinScalarFunction::SubstrIndex
        | BuiltinScalarFunction::FindInSet => DispatchRule::ByStringOffsets,
        BuiltinScalarFunction::ToHex => DispatchRule::ByIntegerWidth,
        _ => DispatchRule::Direct,
    }
}

/// Which identities belong to the optional unicode kernel family.
pub open spec fn spec_requires_unicode(f: BuiltinScalarFunction) -> bool {
    match f {
        BuiltinScalarFunction::CharacterLength
        | BuiltinScalarFunction::Left
        | BuiltinScalarFunction::Lpad
        | BuiltinScalarFunction::Reverse
        | BuiltinScalarFunction::Right
        | BuiltinScalarFunction::Rpad
        | BuiltinScalarFunction::Strpos
        | BuiltinScalarFunction::Substr
        | BuiltinScalarFunction::Translate
        | BuiltinScalarFunction::SubstrIndex
        | BuiltinScalarFunction::FindInSet => true,
        _ => false,
    }
}

/// Builds the dispatch entry for a function. The entry does not depend on
/// which capabilities this build enables, so the dispatch table keeps one
/// shape across build configurations.
pub fn create_physical_fun(fun: &BuiltinScalarFunction) -> (r: KernelPlan)
    ensures
        r.fun == *fun,
        r.dispatch == spec_dispatch_rule(*fun),
        r.requires_unicode == spec_requires_unicode(*fun),
{
    let dispatch = match fun {
        BuiltinScalarFunction::Ascii
        | BuiltinScalarFunction::Btrim
        | BuiltinScalarFunction::CharacterLength
        | BuiltinScalarFunction::InitCap
        | BuiltinScalarFunction::Left
        | BuiltinScalarFunction::Lpad
        | BuiltinScalarFunction::Ltrim
        | BuiltinScalarFunction::Repeat
        | BuiltinScalarFunction::Replace
        | BuiltinScalarFunction::Reverse
        | BuiltinScalarFunction::Right
        | BuiltinScalarFunction::Rpad
        | BuiltinScalarFunction::Rtrim
        | BuiltinScalarFunction::SplitPart
        | BuiltinScalarFunction::StartsWith
        | BuiltinScalarFunction::EndsWith
        | BuiltinScalarFunction::Strpos
        | BuiltinScalarFunction::Substr
        | BuiltinScalarFunction::Translate
        | BuiltinScalarFunction::Trim
        | BuiltinScalarFunction::OverLay
        | BuiltinScalarFunction::Levenshtein
        | BuiltinScalarFunction::SubstrIndex
        | BuiltinScalarFunction::FindInSet => DispatchRule::ByStringOffsets,
        BuiltinScalarFunction::ToHex => DispatchRule::ByIntegerWidth,
        _ => DispatchRule::Direct,
    };
    let requires_unicode = match fun {
        BuiltinScalarFunction::CharacterLength
        | BuiltinScalarFunction::Left
        | BuiltinScalarFunction::Lpad
        | BuiltinScalarFunction::Reverse
        | BuiltinScalarFunction::Right
        | BuiltinScalarFunction::Rpad
        | BuiltinScalarFunction::Strpos
        | BuiltinScalarFunction::Substr
        | BuiltinScalarFunction::Translate
        | BuiltinScalarFunction::SubstrIndex
        | BuiltinScalarFunction::FindInSet => true,
        _ => false,
    };
    KernelPlan { fun: *fun, dispatch, requires_unicode }
}

/// The kernel serving one invocation, selected by the first argument's
/// concrete type; an unsupported type fails naming the function and type.
pub open spec fn spec_select_kernel(f: BuiltinScalarFunction, first: DataType) -> Result<
    SelectedKernel,
    ExecError,
> {
    match spec_dispatch_rule(f) {
        DispatchRule::Direct => Ok(SelectedKernel { fun: f, wide: false }),
        DispatchRule::ByStringOffsets => match first {
            DataType::Utf8 => Ok(SelectedKernel { fun: f, wide: false }),
            DataType::LargeUtf8 => Ok(SelectedKernel { fun: f, wide: true }),
            _ => Err(ExecError::UnsupportedArgumentType { fun: f, actual: first }),
        },
        DispatchRule::ByIntegerWidth => match first {
            DataType::Int32 => Ok(SelectedKernel { fun: f, wide: false }),
            DataType::Int64 => Ok(SelectedKernel { fun: f, wide: true }),
            _ => Err(ExecError::UnsupportedArgumentType { fun: f, actual: first }),
        },
    }
}

/// Selects the concrete kernel for one invocation from the dispatch entry
/// and the first argument's type.
pub fn select_kernel(plan: &KernelPlan, first_arg_type: &DataType) -> (r: Result<
    SelectedKernel,
    ExecError,
>)
    ensures
        r == spec_select_kernel(plan.fun, *first_arg_type),
{
    let rule = create_physical_fun(&plan.fun).dispatch;
    match rule {
        DispatchRule::Direct => Ok(SelectedKernel { fun: plan.fun, wide: false }),
        DispatchRule::ByStringOffsets => match first_arg_type {
            DataType::Utf8 => Ok(SelectedKernel { fun: plan.fun, wide: false }),
            DataType::LargeUtf8 => Ok(SelectedKernel { fun: plan.fun, wide: true }),
            _ => Err(
                ExecError::UnsupportedArgumentType {
                    fun: plan.fun,
                    actual: first_arg_type.clone(),
                },
            ),
        },
        DispatchRule::ByIntegerWidth => match first_arg_type {
            DataType::Int32 => Ok(SelectedKernel { fun: plan.fun, wide: false }),
            DataType::Int64 => Ok(SelectedKernel { fun: plan.fun, wide: true }),
            _ => Err(
                ExecError::UnsupportedArgumentType {
                    fun: plan.fun,
                    actual: first_arg_type.clone(),
                },
            ),
        },
    }
}

/// Checks at invocation time that the kernel's family is available in this
/// build: a disabled optional capability fails here, never at dispatch.
pub fn check_capability(kernel: &SelectedKernel, unicode_enabled: bool) -> (r: Result<
    (),
    ExecError,
>)
    ensures
        r is Ok <==> (unicode_enabled || !spec_requires_unicode(kernel.fun)),
        r is Err ==> r == Err::<(), _>(ExecError::CapabilityDisabled { fun: kernel.fun }),
{
    if create_physical_fun(&kernel.fun).requires_unicode && !unicode_enabled {
        Err(ExecError::CapabilityDisabled { fun: kernel.fun })
    } else {
        Ok(())
    }
}

/// Returns the monotonicity class of a function.
pub fn get_func_monotonicity(fun: &BuiltinScalarFunction) -> (r: Option<FuncMonotonicity>)
    ensures
        r.deep_view() == spec_monotonicity(*fun),
{
    fun.monotonicity()
}

/// A bound physical expression node: display name, argument types, resolved
/// output type, dispatch entry, monotonicity and zero-argument admission.
#[derive(Debug)]
pub struct ScalarFunctionExpr {
    /// The canonical display name.
    pub name: &'static str,
    /// The bound function identity.
    pub fun: BuiltinScalarFunction,
    /// The validated, coerced argument types, unmodified.
    pub arg_types: Vec<DataType>,
    /// The resolved output type.
    pub return_type: DataType,
    /// The dispatch entry through which kernels are selected per invocation.
    pub kernel: KernelPlan,
    /// The function's monotonicity class.
    pub monotonicity: Option<FuncMonotonicity>,
    /// Whether the function admits a call with no arguments.
    pub supports_zero_argument: bool,
}

/// A tuple accepted by an identity's signature is long enough for its
/// return-type rule.
#[verifier::rlimit(100)]
#[verifier::spinoff_prover]
proof fn lemma_validated_arity(f: BuiltinScalarFunction, ts: Seq<DataType>)
    requires
        spec_validate(f, ts) is Ok,
    ensures
        ts.len() >= spec_return_type_arity(f),
{
    match f {
        BuiltinScalarFunction::Atan => {},
        BuiltinScalarFunction::Atan2 => {},
        BuiltinScalarFunction::Acosh => {},
        BuiltinScalarFunction::Asinh => {},
        BuiltinScalarFunction::Atanh => {},
        BuiltinScalarFunction::Cbrt => {},
        BuiltinScalarFunction::Ceil => {},
        BuiltinScalarFunction::Coalesce => {},
        BuiltinScalarFunction::Cos => {},
        BuiltinScalarFunction::Cosh => {},
        BuiltinScalarFunction::Degrees => {},
        BuiltinScalarFunction::Exp => {},
        BuiltinScalarFunction::Factorial => {},
        BuiltinScalarFunction::Floor => {},
        BuiltinScalarFunction::Gcd => {},
        BuiltinScalarFunction::Lcm => {},
        BuiltinScalarFunction::Iszero => {},
        BuiltinScalarFunction::Ln => {},
        BuiltinScalarFunction::Log => {},
        BuiltinScalarFunction::Log10 => {},
        BuiltinScalarFunction::Log2 => {},
        BuiltinScalarFunction::Nanvl => {},
        BuiltinScalarFunction::Pi => {},
        BuiltinScalarFunction::Power => {},
        BuiltinScalarFunction::Radians => {},
        BuiltinScalarFunction::Round => {},
        BuiltinScalarFunction::Signum => {},
        BuiltinScalarFunction::Sin => {},
        BuiltinScalarFunction::Sinh => {},
        BuiltinScalarFunction::Sqrt => {},
        BuiltinScalarFunction::Trunc => {},
        BuiltinScalarFunction::Cot => {},
        BuiltinScalarFunction::ArrayPopFront => {},
        BuiltinScalarFunction::ArrayPopBack => {},
        BuiltinScalarFunction::ArrayElement => {},
        BuiltinScalarFunction::ArrayPosition => {},
        BuiltinScalarFunction::ArrayPositions => {},
        BuiltinScalarFunction::ArrayRemove => {},
        BuiltinScalarFunction::ArrayRemoveN => {},
        BuiltinScalarFunction::ArrayRemoveAll => {},
        BuiltinScalarFunction::ArrayReplace => {},
        BuiltinScalarFunction::ArrayReplaceN => {},
        BuiltinScalarFunction::ArrayReplaceAll => {},
        BuiltinScalarFunction::ArrayReverse => {},
        BuiltinScalarFunction::ArraySlice => {},
        BuiltinScalarFunction::ArrayIntersect => {},
        BuiltinScalarFunction::ArrayUnion => {},
        BuiltinScalarFunction::ArrayExcept => {},
        BuiltinScalarFunction::ArrayResize => {},
        BuiltinScalarFunction::Ascii => {},
        BuiltinScalarFunction::BitLength => {},
        BuiltinScalarFunction::Btrim => {},
        BuiltinScalarFunction::CharacterLength => {},
        BuiltinScalarFunction::Chr => {},
        BuiltinScalarFunction::Concat => {},
        BuiltinScalarFunction::ConcatWithSeparator => {},
        BuiltinScalarFunction::EndsWith => {},
        BuiltinScalarFunction::InitCap => {},
        BuiltinScalarFunction::Left => {},
        BuiltinScalarFunction::Lpad => {},
        BuiltinScalarFunction::Lower => {},
        BuiltinScalarFunction::Ltrim => {},
        BuiltinScalarFunction::OctetLength => {},
        BuiltinScalarFunction::Random => {},
        BuiltinScalarFunction::Repeat => {},
        BuiltinScalarFunction::Replace => {},
        BuiltinScalarFunction::Reverse => {},
        BuiltinScalarFunction::Right => {},
        BuiltinScalarFunction::Rpad => {},
        BuiltinScalarFunction::Rtrim => {},
        BuiltinScalarFunction::SplitPart => {},
        BuiltinScalarFunction::StartsWith => {},
        BuiltinScalarFunction::Strpos => {},
        BuiltinScalarFunction::Substr => {},
        BuiltinScalarFunction::ToHex => {},
        BuiltinScalarFunction::MakeDate => {},
        BuiltinScalarFunction::Translate => {},
        BuiltinScalarFunction::Trim => {},
        BuiltinScalarFunction::Upper => {},
        BuiltinScalarFunction::Uuid => {},
        BuiltinScalarFunction::OverLay => {},
        BuiltinScalarFunction::Levenshtein => {},
        BuiltinScalarFunction::SubstrIndex => {},
        BuiltinScalarFunction::FindInSet => {},
        BuiltinScalarFunction::ToChar => {},
    }
}

/// Builds one executable node for a call whose argument types have already
/// been resolved and coerced: validates them against the signature, infers
/// the output type, binds the dispatch entry, and attaches the monotonicity
/// class and the zero-argument flag. Fails with the validation error or the
/// return-type error; succeeds exactly when both steps do.
pub fn create_physical_expr(fun: &BuiltinScalarFunction, input_types: &Vec<DataType>) -> (r: Result<
    ScalarFunctionExpr,
    PlanError,
>)
    ensures
        match r {
            Ok(e) => spec_validate(*fun, input_types@) == Ok::<_, PlanError>(input_types@)
                && e.fun == *fun && e.name@ == spec_name(*fun) && e.arg_types@ == input_types@
                && spec_return_type(*fun, input_types@) == Ok::<_, PlanError>(e.return_type)
                && e.kernel.fun == *fun && e.kernel.dispatch == spec_dispatch_rule(*fun)
                && e.kernel.requires_unicode == spec_requires_unicode(*fun)
                && e.monotonicity.deep_view() == spec_monotonicity(*fun)
                && e.supports_zero_argument == spec_supports_zero_argument(spec_signature(*fun)),
            Err(pe) => match spec_validate(*fun, input_types@) {
                Err(ve) => pe == ve,
                Ok(_) => match spec_return_type(*fun, input_types@) {
                    Err(re) => pe == re,
                    Ok(_) => false,
                },
            },
        },
{
    let validated = match validate_arg_types(*fun, input_types) {
        Ok(v) => v,
        Err(e) => {
            return Err(e);
        },
    };
    proof {
        lemma_validated_arity(*fun, input_types@);
    }
    let return_type = match fun.return_type(&validated) {
        Ok(t) => t,
        Err(e) => {
            return Err(e);
        },
    };
    let kernel = create_physical_fun(fun);
    let monotonicity = fun.monotonicity();
    let supports_zero_argument = fun.supports_zero_argument();
    Ok(
        ScalarFunctionExpr {
            name: fun.name(),
            fun: *fun,
            arg_types: validated,
            return_type,
            kernel,
            monotonicity,
            supports_zero_argument,
        },
    )
}

} // verus!
