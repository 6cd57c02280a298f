//! Monotonicity classes and the propagation of sort order through a call.
//!
//! The optimizer asks two questions answered here: which functions preserve
//! or reverse the order of an argument, and what order the result of a call
//! carries given the orders of its arguments.

use vstd::prelude::*;
use crate::functions::BuiltinScalarFunction;

verus! {

/// How one expression orders its rows.
#[derive(Clone, Copy, Debug, PartialEq, Eq, Structural)]
pub struct SortOptions {
    /// Descending rather than ascending.
    pub descending: bool,
    /// Nulls sort before all other values rather than after.
    pub nulls_first: bool,
}

impl SortOptions {
    /// The opposite ordering: direction and null placement both flip.
    pub open spec fn spec_reversed(self) -> SortOptions {
        SortOptions { descending: !self.descending, nulls_first: !self.nulls_first }
    }

    /// Returns the opposite ordering.
    pub fn reversed(&self) -> (r: SortOptions)
        ensures
            r == self.spec_reversed(),
    {
        SortOptions { descending: !self.descending, nulls_first: !self.nulls_first }
    }
}

/// The order descriptor attached to an expression.
#[derive(Clone, Copy, Debug, PartialEq, Eq, Structural)]
pub enum SortProperties {
    /// The expression's rows follow the given order.
    Ordered(SortOptions),
    /// The expression is a constant: one value, trivially ordered every way.
    Singleton,
    /// Nothing is known about the expression's order.
    Unordered,
}

/// Per-argument monotonicity of a function: for each position, `Some(true)`
/// when growth of the argument grows the result, `Some(false)` when it
/// shrinks the result, and `None` when nothing is known.
pub type FuncMonotonicity = Vec<Option<bool>>;

/// Per-argument monotonicity of each identity: a fixed allowlist of
/// single-argument order-preserving functions, and the binary logarithm,
/// which grows with its value and shrinks with its base.
pub open spec fn spec_monotonicity(f: BuiltinScalarFunction) -> Option<Seq<Option<bool>>> {
    match f {
        BuiltinScalarFunction::Atan
        | BuiltinScalarFunction::Acosh
        | BuiltinScalarFunction::Asinh
        | BuiltinScalarFunction::Atanh
        | BuiltinScalarFunction::Ceil
        | BuiltinScalarFunction::Degrees
        | BuiltinScalarFunction::Exp
        | BuiltinScalarFunction::Factorial
        | BuiltinScalarFunction::Floor
        | BuiltinScalarFunction::Ln
        | BuiltinScalarFunction::Log10
        | BuiltinScalarFunction::Log2
        | BuiltinScalarFunction::Radians
        | BuiltinScalarFunction::Round
        | BuiltinScalarFunction::Signum
        | BuiltinScalarFunction::Sinh
        | BuiltinScalarFunction::Sqrt
        | BuiltinScalarFunction::Cbrt
        | BuiltinScalarFunction::Trunc
        | BuiltinScalarFunction::Pi => Some(seq![Some(true)]),
        BuiltinScalarFunction::Log => Some(seq![Some(true), Some(false)]),
        _ => None,
    }
}

impl BuiltinScalarFunction {
    /// Returns the monotonicity class of this function.
    pub fn monotonicity(&self) -> (r: Option<FuncMonotonicity>)
        ensures
            r.deep_view() == spec_monotonicity(*self),
    {
        let r: Option<FuncMonotonicity> = match self {
            BuiltinScalarFunction::Atan
            | BuiltinScalarFunction::Acosh
            | BuiltinScalarFunction::Asinh
            | BuiltinScalarFunction::Atanh
            | BuiltinScalarFunction::Ceil
            | BuiltinScalarFunction::Degrees
            | BuiltinScalarFunction::Exp
            | BuiltinScalarFunction::Factorial
            | BuiltinScalarFunction::Floor
            | BuiltinScalarFunction::Ln
            | BuiltinScalarFunction::Log10
            | BuiltinScalarFunction::Log2
            | BuiltinScalarFunction::Radians
            | BuiltinScalarFunction::Round
            | BuiltinScalarFunction::Signum
            | BuiltinScalarFunction::Sinh
            | BuiltinScalarFunction::Sqrt
            | BuiltinScalarFunction::Cbrt
            | BuiltinScalarFunction::Trunc
            | BuiltinScalarFunction::Pi => Some(vec![Some(true)]),
            BuiltinScalarFunction::Log => Some(vec![Some(true), Some(false)]),
            _ => None,
        };
        proof {
            assert(r.deep_view() =~~= spec_monotonicity(*self));
        }
        r
    }
}

/// The contribution of one argument to the result's order: a constant stays
/// a constant; an ordered argument passes its order through an
/// order-preserving position, flipped through an order-reversing one; any
/// other combination destroys order.
pub open spec fn spec_one_dimension(m: Option<bool>, arg: SortProperties) -> SortProperties {
    if arg == SortProperties::Singleton {
        SortProperties::Singleton
    } else {
        match m {
            Option::None => SortProperties::Unordered,
            Option::Some(true) => if arg matches SortProperties::Ordered(_) {
                arg
            } else {
                SortProperties::Unordered
            },
            Option::Some(false) => match arg {
                SortProperties::Ordered(o) => SortProperties::Ordered(o.spec_reversed()),
                _ => SortProperties::Unordered,
            },
        }
    }
}

/// Folds one contribution into the running result: any unordered
/// contribution wins; the first ordered contribution seeds the result; a
/// later contribution whose direction disagrees destroys order; everything
/// else leaves the running result unchanged.
pub open spec fn spec_combine(prev: SortProperties, cur: SortProperties) -> SortProperties {
    match (prev, cur) {
        (_, SortProperties::Unordered) => SortProperties::Unordered,
        (SortProperties::Singleton, SortProperties::Ordered(_)) => cur,
        (SortProperties::Ordered(p), SortProperties::Ordered(c)) => if p.descending != c.descending {
            SortProperties::Unordered
        } else {
            prev
        },
        _ => prev,
    }
}

/// The left-to-right fold over all argument positions, starting at `i` with
/// running result `acc`. Positions beyond either list are ignored.
pub open spec fn spec_out_ordering_from(
    func: Seq<Option<bool>>,
    args: Seq<SortProperties>,
    i: int,
    acc: SortProperties,
) -> SortProperties
    decreases func.len() + args.len() - i,
{
    if i < func.len() && i < args.len() {
        spec_out_ordering_from(func, args, i + 1, spec_combine(acc, spec_one_dimension(func[i], args[i])))
    } else {
        acc
    }
}

/// The order of a call's result, from its monotonicity class and the orders
/// of its arguments.
pub open spec fn spec_out_ordering(
    func: Seq<Option<bool>>,
    args: Seq<SortProperties>,
) -> SortProperties {
    spec_out_ordering_from(func, args, 0, SortProperties::Singleton)
}

/// Decides the contribution of a single argument position, given that
/// position's monotonicity and the argument's own order.
pub fn func_order_in_one_dimension(func_monotonicity: &Option<bool>, arg: &SortProperties) -> (r:
    SortProperties)
    ensures
        r == spec_one_dimension(*func_monotonicity, *arg),
{
    if *arg == SortProperties::Singleton {
        SortProperties::Singleton
    } else {
        match func_monotonicity {
            Option::None => SortProperties::Unordered,
            Option::Some(true) => match arg {
                SortProperties::Ordered(_) => *arg,
                _ => SortProperties::Unordered,
            },
            Option::Some(false) => match arg {
                SortProperties::Ordered(o) => SortProperties::Ordered(o.reversed()),
                _ => SortProperties::Unordered,
            },
        }
    }
}

/// Determines a call's result order from the function's monotonicity class
/// and the per-argument orders, by a left-to-right fold.
pub fn out_ordering(func: &FuncMonotonicity, arg_orderings: &Vec<SortProperties>) -> (r:
    SortProperties)
    ensures
        r == spec_out_ordering(func.deep_view(), arg_orderings@),
{
    let ghost fm = func.deep_view();
    let mut acc = SortProperties::Singleton;
    let mut i: usize = 0;
    let n = if func.len() < arg_orderings.len() {
        func.len()
    } else {
        arg_orderings.len()
    };
    proof {
        assert(fm.len() == func@.len());
    }
    while i < n
        invariant
            fm == func.deep_view(),
            fm.len() == func@.len(),
            n == if fm.len() < arg_orderings@.len() {
                fm.len()
            } else {
                arg_orderings@.len()
            },
            i <= n,
            spec_out_ordering(fm, arg_orderings@) == spec_out_ordering_from(
                fm,
                arg_orderings@,
                i as int,
                acc,
            ),
        decreases n - i,
    {
        proof {
            assert(fm[i as int] == func@[i as int]);
        }
        let c = func_order_in_one_dimension(&func[i], &arg_orderings[i]);
        acc = combine_contribution(acc, c);
        i = i + 1;
    }
    acc
}

/// Folds one contribution into the running result.
fn combine_contribution(prev: SortProperties, cur: SortProperties) -> (r: SortProperties)
    ensures
        r == spec_combine(prev, cur),
{
    match (prev, cur) {
        (_, SortProperties::Unordered) => SortProperties::Unordered,
        (SortProperties::Singleton, SortProperties::Ordered(_)) => cur,
        (SortProperties::Ordered(p), SortProperties::Ordered(c)) => if p.descending != c.descending {
            SortProperties::Unordered
        } else {
            prev
        },
        _ => prev,
    }
}

/// An ordered argument passes unchanged through an order-preserving
/// single-argument function.
pub proof fn lemma_preserving_keeps_order(o: SortOptions)
    ensures
        spec_out_ordering(seq![Some(true)], seq![SortProperties::Ordered(o)])
            == SortProperties::Ordered(o),
{
    reveal_with_fuel(spec_out_ordering_from, 3);
}

/// An ordered argument through a function with unknown monotonicity leaves
/// the result unordered.
pub proof fn lemma_unknown_destroys_order(o: SortOptions)
    ensures
        spec_out_ordering(seq![Option::<bool>::None], seq![SortProperties::Ordered(o)])
            == SortProperties::Unordered,
{
    reveal_with_fuel(spec_out_ordering_from, 3);
}

/// Two arguments ordered the same way, one through an order-preserving
/// position and one through an order-reversing position, disagree in
/// direction and leave the result unordered.
pub proof fn lemma_opposing_positions_destroy_order(o: SortOptions)
    ensures
        spec_out_ordering(
            seq![Some(true), Some(false)],
            seq![SortProperties::Ordered(o), SortProperties::Ordered(o)],
        ) == SortProperties::Unordered,
{
    reveal_with_fuel(spec_out_ordering_from, 4);
}

} // verus!
