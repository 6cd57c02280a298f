//! The execution adapter: serving an array-only kernel with mixed scalar and
//! array arguments.
//!
//! A kernel computes over columns of equal length. A call site may hand the
//! adapter a mix of single scalars and columns: the adapter infers the batch
//! length from the first column it sees, expands every scalar to a column as
//! its hint directs, and, when every argument was a scalar, repackages row
//! zero of the kernel's output as a scalar again.

use vstd::prelude::*;
use crate::errors::ExecError;

verus! {

/// Per-argument-position directive for expanding a scalar argument.
#[derive(Clone, Copy, Debug, PartialEq, Eq, Structural)]
pub enum Hint {
    /// Expand the scalar to the inferred batch length.
    Pad,
    /// Hand the scalar over as a column of length one; the kernel broadcasts
    /// it itself.
    AcceptsSingular,
}

/// A runtime value: one scalar, or a fixed-length column of values.
#[derive(Clone, Debug, PartialEq)]
pub enum ColumnarValue<T> {
    Scalar(T),
    Array(Vec<T>),
}

/// Every argument is a scalar.
pub open spec fn all_scalars<T>(args: Seq<ColumnarValue<T>>) -> bool {
    forall|i: int| 0 <= i < args.len() ==> #[trigger] args[i] matches ColumnarValue::Scalar(_)
}

/// The inferred batch length: the length of the first array-shaped argument,
/// or one when every argument is a scalar.
pub open spec fn spec_inferred_length<T>(args: Seq<ColumnarValue<T>>) -> nat
    decreases args.len(),
{
    if args.len() == 0 {
        1
    } else {
        match args[0] {
            ColumnarValue::Array(a) => a@.len(),
            ColumnarValue::Scalar(_) => spec_inferred_length(args.skip(1)),
        }
    }
}

/// The hint at a position; arguments beyond the hint list default to `Pad`.
pub open spec fn spec_hint_at(hints: Seq<Hint>, i: int) -> Hint {
    if 0 <= i < hints.len() {
        hints[i]
    } else {
        Hint::Pad
    }
}

/// The length to which the argument at position `i` is expanded: a column
/// keeps its own length; a scalar expands to one under `AcceptsSingular` and
/// to the inferred batch length under `Pad`.
pub open spec fn spec_expansion_len<T>(
    args: Seq<ColumnarValue<T>>,
    hints: Seq<Hint>,
    i: int,
) -> nat {
    match args[i] {
        ColumnarValue::Array(a) => a@.len(),
        ColumnarValue::Scalar(_) => match spec_hint_at(hints, i) {
            Hint::AcceptsSingular => 1,
            Hint::Pad => spec_inferred_length(args),
        },
    }
}

/// The column handed to the kernel for position `i`: a column unchanged, a
/// scalar replicated to its expansion length.
pub open spec fn spec_expanded_column<T>(
    args: Seq<ColumnarValue<T>>,
    hints: Seq<Hint>,
    i: int,
) -> Seq<T> {
    match args[i] {
        ColumnarValue::Array(a) => a@,
        ColumnarValue::Scalar(x) => Seq::new(spec_expansion_len(args, hints, i), |j: int| x),
    }
}

/// Skipping a prefix of scalars does not change the inferred batch length.
proof fn lemma_inferred_skip_scalars<T>(args: Seq<ColumnarValue<T>>, k: int)
    requires
        0 <= k <= args.len(),
        forall|j: int| 0 <= j < k ==> #[trigger] args[j] matches ColumnarValue::Scalar(_),
    ensures
        spec_inferred_length(args) == spec_inferred_length(args.skip(k)),
    decreases k,
{
    if k == 0 {
        assert(args.skip(0) =~= args);
    } else {
        assert(args[0] matches ColumnarValue::Scalar(_));
        lemma_inferred_skip_scalars(args.skip(1), k - 1);
        assert(args.skip(1).skip(k - 1) =~= args.skip(k));
    }
}

fn inferred_length<T: Copy>(args: &Vec<ColumnarValue<T>>) -> (r: usize)
    ensures
        r as nat == spec_inferred_length(args@),
{
    let mut i: usize = 0;
    while i < args.len()
        invariant
            i <= args@.len(),
            forall|j: int| 0 <= j < i ==> #[trigger] args@[j] matches ColumnarValue::Scalar(_),
        decreases args@.len() - i,
    {
        match &args[i] {
            ColumnarValue::Array(a) => {
                proof {
                    lemma_inferred_skip_scalars(args@, i as int);
                    assert(args@.skip(i as int)[0] == args@[i as int]);
                }
                return a.len();
            },
            ColumnarValue::Scalar(_) => {
                i = i + 1;
            },
        }
    }
    proof {
        lemma_inferred_skip_scalars(args@, args@.len() as int);
        assert(args@.skip(args@.len() as int) =~= Seq::<ColumnarValue<T>>::empty());
    }
    1
}

fn check_all_scalars<T: Copy>(args: &Vec<ColumnarValue<T>>) -> (r: bool)
    ensures
        r == all_scalars(args@),
{
    let mut i: usize = 0;
    while i < args.len()
        invariant
            i <= args@.len(),
            forall|j: int| 0 <= j < i ==> #[trigger] args@[j] matches ColumnarValue::Scalar(_),
        decreases args@.len() - i,
    {
        match &args[i] {
            ColumnarValue::Array(_) => {
                return false;
            },
            ColumnarValue::Scalar(_) => {
                i = i + 1;
            },
        }
    }
    true
}

fn copy_column<T: Copy>(a: &Vec<T>) -> (r: Vec<T>)
    ensures
        r@ == a@,
{
    let mut out: Vec<T> = Vec::new();
    let mut i: usize = 0;
    while i < a.len()
        invariant
            i <= a@.len(),
            out@.len() == i,
            forall|j: int| 0 <= j < i ==> out@[j] == a@[j],
        decreases a@.len() - i,
    {
        out.push(a[i]);
        i = i + 1;
    }
    proof {
        assert(out@ =~= a@);
    }
    out
}

fn replicate<T: Copy>(x: T, n: usize) -> (r: Vec<T>)
    ensures
        r@ == Seq::new(n as nat, |j: int| x),
{
    let mut out: Vec<T> = Vec::new();
    let mut i: usize = 0;
    while i < n
        invariant
            i <= n,
            out@.len() == i,
            forall|j: int| 0 <= j < i ==> out@[j] == x,
        decreases n - i,
    {
        out.push(x);
        i = i + 1;
    }
    proof {
        assert(out@ =~= Seq::new(n as nat, |j: int| x));
    }
    out
}

/// Expands every argument to a column for the kernel: columns pass through
/// unchanged, scalars are replicated as their hints direct. Also reports
/// whether every argument was a scalar, in which case the kernel's output is
/// to be repackaged as a scalar.
pub fn expand_arguments<T: Copy>(args: &Vec<ColumnarValue<T>>, hints: &Vec<Hint>) -> (r: (
    Vec<Vec<T>>,
    bool,
))
    ensures
        r.0@.len() == args@.len(),
        forall|i: int|
            0 <= i < args@.len() ==> #[trigger] r.0@[i]@ == spec_expanded_column(
                args@,
                hints@,
                i,
            ),
        r.1 == all_scalars(args@),
{
    let inferred: usize = inferred_length(args);
    let is_scalar = check_all_scalars(args);
    let mut out: Vec<Vec<T>> = Vec::new();
    let mut i: usize = 0;
    while i < args.len()
        invariant
            i <= args@.len(),
            out@.len() == i,
            inferred as nat == spec_inferred_length(args@),
            forall|j: int|
                0 <= j < i ==> #[trigger] out@[j]@ == spec_expanded_column(args@, hints@, j),
        decreases args@.len() - i,
    {
        let column = match &args[i] {
            ColumnarValue::Array(a) => copy_column(a),
            ColumnarValue::Scalar(x) => {
                let hint = if i < hints.len() {
                    hints[i]
                } else {
                    Hint::Pad
                };
                let n: usize = match hint {
                    Hint::AcceptsSingular => 1,
                    Hint::Pad => inferred,
                };
                replicate(*x, n)
            },
        };
        out.push(column);
        i = i + 1;
    }
    (out, is_scalar)
}

/// Converts every argument to a column with default hints: columns keep
/// their length, scalars pad to the inferred batch length.
pub fn columnar_values_to_array<T: Copy>(args: &Vec<ColumnarValue<T>>) -> (r: Vec<Vec<T>>)
    ensures
        r@.len() == args@.len(),
        forall|i: int|
            0 <= i < args@.len() ==> #[trigger] r@[i]@ == spec_expanded_column(
                args@,
                Seq::<Hint>::empty(),
                i,
            ),
{
    let hints: Vec<Hint> = Vec::new();
    let (columns, _) = expand_arguments(args, &hints);
    columns
}

/// How the kernel's outcome is packaged for the caller, given whether every
/// input was a scalar: kernel errors propagate unchanged; under scalar
/// collapse only row zero is extracted and returned as a scalar; otherwise
/// the output column is returned whole.
pub open spec fn spec_repackage<T>(
    result: Result<Vec<T>, ExecError>,
    scalar_collapse: bool,
) -> Result<ColumnarValue<T>, ExecError> {
    match result {
        Err(e) => Err(e),
        Ok(out) => if scalar_collapse {
            if out@.len() >= 1 {
                Ok(ColumnarValue::Scalar(out@[0]))
            } else {
                Err(ExecError::EmptyResult)
            }
        } else {
            Ok(ColumnarValue::Array(out))
        },
    }
}

/// The adapter's packaging rule in terms of the original arguments rather
/// than the collapse flag.
pub open spec fn spec_adapter_output<T>(
    args: Seq<ColumnarValue<T>>,
    result: Result<Vec<T>, ExecError>,
) -> Result<ColumnarValue<T>, ExecError> {
    spec_repackage(result, all_scalars(args))
}

/// Packages the kernel's outcome for the caller.
pub fn repackage<T: Copy>(result: Result<Vec<T>, ExecError>, scalar_collapse: bool) -> (r: Result<
    ColumnarValue<T>,
    ExecError,
>)
    ensures
        r == spec_repackage(result, scalar_collapse),
{
    match result {
        Err(e) => Err(e),
        Ok(out) => if scalar_collapse {
            if out.len() >= 1 {
                Ok(ColumnarValue::Scalar(out[0]))
            } else {
                Err(ExecError::EmptyResult)
            }
        } else {
            Ok(ColumnarValue::Array(out))
        },
    }
}

/// With all-scalar inputs the adapter's output is repackaged as a scalar:
/// it is never an array, not even one of length one.
pub proof fn lemma_all_scalar_never_array<T>(
    args: Seq<ColumnarValue<T>>,
    result: Result<Vec<T>, ExecError>,
)
    requires
        all_scalars(args),
    ensures
        !(spec_adapter_output(args, result) matches Ok(ColumnarValue::Array(_))),
{
}

/// Kernel errors propagate unchanged through the adapter, whichever way the
/// output would have been packaged.
pub proof fn lemma_kernel_error_propagates<T>(
    args: Seq<ColumnarValue<T>>,
    e: ExecError,
)
    ensures
        spec_adapter_output(args, Err::<Vec<T>, _>(e)) == Err::<ColumnarValue<T>, _>(e),
{
}

} // verus!
