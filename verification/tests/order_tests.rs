use scalar_functions::sort_properties::{func_order_in_one_dimension, out_ordering, SortOptions,
    SortProperties};

fn ascending() -> SortProperties {
    SortProperties::Ordered(SortOptions { descending: false, nulls_first: false })
}

fn descending() -> SortProperties {
    SortProperties::Ordered(SortOptions { descending: true, nulls_first: true })
}

// An ascending input through an order-preserving single-argument function
// comes out ascending.
#[test]
fn preserving_function_keeps_ascending_order() {
    assert_eq!(out_ordering(&vec![Some(true)], &vec![ascending()]), ascending());
    assert_eq!(out_ordering(&vec![Some(true)], &vec![descending()]), descending());
}

// An input through a position with unknown monotonicity comes out unordered.
#[test]
fn unknown_monotonicity_destroys_order() {
    assert_eq!(
        out_ordering(&vec![None], &vec![ascending()]),
        SortProperties::Unordered
    );
}

// The binary logarithm grows with its value and shrinks with its base:
// handing it an ascending value and an ascending base leaves the directions
// in disagreement, so the result is unordered.
#[test]
fn opposing_directions_destroy_order() {
    assert_eq!(
        out_ordering(&vec![Some(true), Some(false)], &vec![ascending(), ascending()]),
        SortProperties::Unordered
    );
}

#[test]
fn reversing_position_flips_direction() {
    assert_eq!(
        func_order_in_one_dimension(&Some(false), &ascending()),
        SortProperties::Ordered(SortOptions { descending: true, nulls_first: true })
    );
    assert_eq!(
        func_order_in_one_dimension(&Some(true), &ascending()),
        ascending()
    );
    assert_eq!(
        func_order_in_one_dimension(&None, &SortProperties::Singleton),
        SortProperties::Singleton
    );
    assert_eq!(
        func_order_in_one_dimension(&Some(true), &SortProperties::Unordered),
        SortProperties::Unordered
    );
}

// Constants never affect order: a singleton argument contributes nothing,
// and an all-singleton call stays a singleton.
#[test]
fn singleton_arguments_are_transparent() {
    assert_eq!(
        out_ordering(&vec![Some(true)], &vec![SortProperties::Singleton]),
        SortProperties::Singleton
    );
    assert_eq!(
        out_ordering(
            &vec![Some(true), Some(false)],
            &vec![SortProperties::Singleton, ascending()],
        ),
        descending()
    );
}

// A later contribution that agrees with the running direction leaves the
// result unchanged; one that disagrees forces unordered.
#[test]
fn agreement_keeps_order_disagreement_breaks_it() {
    assert_eq!(
        out_ordering(&vec![Some(true), Some(true)], &vec![ascending(), ascending()]),
        ascending()
    );
    assert_eq!(
        out_ordering(&vec![Some(true), Some(true)], &vec![ascending(), descending()]),
        SortProperties::Unordered
    );
}
