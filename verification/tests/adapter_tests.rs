use scalar_functions::adapter::{columnar_values_to_array, expand_arguments, repackage,
    ColumnarValue, Hint};
use scalar_functions::errors::ExecError;

// The stand-in kernel of the original adapter tests: it maps each argument
// column to that column's length.
fn dummy_function(args: &Vec<Vec<i64>>) -> Vec<u64> {
    args.iter().map(|array| array.len() as u64).collect()
}

fn run_adapter(args: Vec<ColumnarValue<i64>>, hints: Vec<Hint>) -> Result<ColumnarValue<u64>, ExecError> {
    let (columns, scalar_collapse) = expand_arguments(&args, &hints);
    let out = dummy_function(&columns);
    repackage(Ok(out), scalar_collapse)
}

fn unpack_uint64_array(col: Result<ColumnarValue<u64>, ExecError>) -> Vec<u64> {
    match col {
        Ok(ColumnarValue::Array(values)) => values,
        other => panic!("unexpected scalar created by a test function: {other:?}"),
    }
}

fn scalar_arg() -> ColumnarValue<i64> {
    ColumnarValue::Scalar(1)
}

fn array_arg() -> ColumnarValue<i64> {
    ColumnarValue::Array(vec![1, 1, 1, 1, 1])
}

#[test]
fn test_make_scalar_function() {
    let result = unpack_uint64_array(run_adapter(vec![array_arg(), scalar_arg()], vec![]));
    assert_eq!(result, vec![5, 5]);
}

#[test]
fn test_make_scalar_function_with_no_hints() {
    let result = unpack_uint64_array(run_adapter(vec![array_arg(), scalar_arg()], vec![]));
    assert_eq!(result, vec![5, 5]);
}

#[test]
fn test_make_scalar_function_with_hints() {
    let result = unpack_uint64_array(run_adapter(
        vec![array_arg(), scalar_arg()],
        vec![Hint::Pad, Hint::AcceptsSingular],
    ));
    assert_eq!(result, vec![5, 1]);
}

#[test]
fn test_make_scalar_function_with_hints_on_arrays() {
    let result = unpack_uint64_array(run_adapter(
        vec![array_arg(), array_arg()],
        vec![Hint::Pad, Hint::AcceptsSingular],
    ));
    assert_eq!(result, vec![5, 5]);
}

#[test]
fn test_make_scalar_function_with_mixed_hints() {
    let result = unpack_uint64_array(run_adapter(
        vec![array_arg(), scalar_arg(), scalar_arg()],
        vec![Hint::Pad, Hint::AcceptsSingular, Hint::Pad],
    ));
    assert_eq!(result, vec![5, 1, 5]);
}

#[test]
fn test_make_scalar_function_with_more_arguments_than_hints() {
    let result = unpack_uint64_array(run_adapter(
        vec![array_arg(), scalar_arg(), scalar_arg(), array_arg()],
        vec![Hint::Pad, Hint::AcceptsSingular, Hint::Pad],
    ));
    assert_eq!(result, vec![5, 1, 5, 5]);
}

#[test]
fn test_make_scalar_function_with_hints_than_arguments() {
    let result = unpack_uint64_array(run_adapter(
        vec![array_arg(), scalar_arg()],
        vec![
            Hint::Pad,
            Hint::AcceptsSingular,
            Hint::Pad,
            Hint::Pad,
            Hint::AcceptsSingular,
            Hint::Pad,
        ],
    ));
    assert_eq!(result, vec![5, 1]);
}

// With all-scalar inputs the adapter repackages row zero of the kernel's
// output as a scalar, never as a length-one array.
#[test]
fn all_scalar_inputs_collapse_to_a_scalar() {
    let result = run_adapter(vec![scalar_arg(), scalar_arg()], vec![]);
    match result {
        Ok(ColumnarValue::Scalar(v)) => assert_eq!(v, 1),
        other => panic!("expected a scalar, got {other:?}"),
    }
}

#[test]
fn scalar_expansion_replicates_the_value() {
    let args: Vec<ColumnarValue<i64>> = vec![
        ColumnarValue::Array(vec![7, 8, 9]),
        ColumnarValue::Scalar(4),
    ];
    let (columns, scalar_collapse) = expand_arguments(&args, &vec![]);
    assert!(!scalar_collapse);
    assert_eq!(columns, vec![vec![7, 8, 9], vec![4, 4, 4]]);
    let defaulted = columnar_values_to_array(&args);
    assert_eq!(defaulted, vec![vec![7, 8, 9], vec![4, 4, 4]]);
}

#[test]
fn inferred_length_comes_from_the_first_array() {
    let args: Vec<ColumnarValue<i64>> = vec![
        ColumnarValue::Scalar(2),
        ColumnarValue::Array(vec![1, 2]),
    ];
    let (columns, _) = expand_arguments(&args, &vec![]);
    assert_eq!(columns, vec![vec![2, 2], vec![1, 2]]);
}

#[test]
fn kernel_errors_propagate_unchanged() {
    let err: Result<Vec<u64>, ExecError> = Err(ExecError::EmptyResult);
    assert_eq!(repackage(err, false), Err(ExecError::EmptyResult));
    let err2: Result<Vec<u64>, ExecError> = Err(ExecError::EmptyResult);
    assert_eq!(repackage(err2, true), Err(ExecError::EmptyResult));
}

#[test]
fn collapsing_an_empty_output_fails() {
    let empty: Result<Vec<u64>, ExecError> = Ok(vec![]);
    assert_eq!(repackage(empty, true), Err(ExecError::EmptyResult));
    let empty_array: Result<Vec<u64>, ExecError> = Ok(vec![]);
    assert_eq!(
        repackage(empty_array, false),
        Ok(ColumnarValue::Array(vec![]))
    );
}
