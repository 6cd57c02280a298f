//! The two error taxonomies of the library.
//!
//! Plan errors surface while a call is being resolved and bound, before any
//! batch is evaluated. Execution errors surface while a batch is evaluated
//! and abort that batch.

use vstd::prelude::*;
use crate::data_type::DataType;
use crate::functions::BuiltinScalarFunction;

verus! {

/// An error raised during planning, before execution begins.
#[derive(Debug, Clone, PartialEq)]
pub enum PlanError {
    /// No function answers to the attempted name; the name is kept so that
    /// callers can suggest alternatives.
    UnknownFunction { name: String },
    /// The argument types do not satisfy the function's signature.
    SignatureMismatch { fun: BuiltinScalarFunction },
    /// The function requires a list kind as its first argument.
    FirstArgumentMustBeList { fun: BuiltinScalarFunction },
    /// The function accepts only string-typed input, but was handed another
    /// kind.
    ExpectsStringType { fun: BuiltinScalarFunction, actual: DataType },
    /// The function accepts only integer-typed input.
    ExpectsIntegerType { fun: BuiltinScalarFunction },
}

/// An error raised while a batch is evaluated.
#[derive(Debug, Clone, PartialEq)]
pub enum ExecError {
    /// No kernel serves the concrete type of the first argument.
    UnsupportedArgumentType { fun: BuiltinScalarFunction, actual: DataType },
    /// The kernel family exists in the dispatch table but its optional
    /// capability was not enabled in this build.
    CapabilityDisabled { fun: BuiltinScalarFunction },
    /// A scalar result was requested from a kernel output with no rows.
    EmptyResult,
}

} // verus!
