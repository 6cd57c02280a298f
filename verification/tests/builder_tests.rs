use scalar_functions::data_type::{DataType, TimeUnit};
use scalar_functions::errors::{ExecError, PlanError};
use scalar_functions::functions::BuiltinScalarFunction;
use scalar_functions::physical_expr::{check_capability, create_physical_expr,
    create_physical_fun, get_func_monotonicity, select_kernel, DispatchRule};
use scalar_functions::type_check::validate_arg_types;

// Functions without a zero-argument alternative must fail with a plan error
// when called with no arguments.
#[test]
fn test_empty_arguments_error() {
    let funs = [BuiltinScalarFunction::Concat, BuiltinScalarFunction::Repeat];
    for fun in funs.iter() {
        match create_physical_expr(fun, &vec![]) {
            Ok(..) => {
                panic!("builtin scalar function {fun:?} does not support empty arguments");
            },
            Err(PlanError::SignatureMismatch { .. }) => {
                // the expected plan error; continue the loop
            },
            Err(..) => {
                panic!("builtin scalar function {fun:?} didn't get the right error with empty arguments");
            },
        }
    }
}

// Niladic functions are admitted with an empty argument list.
#[test]
fn test_empty_arguments() {
    let funs = [
        BuiltinScalarFunction::Pi,
        BuiltinScalarFunction::Random,
        BuiltinScalarFunction::Uuid,
    ];
    for fun in funs.iter() {
        create_physical_expr(fun, &vec![]).unwrap();
    }
}

#[test]
fn built_node_carries_all_metadata() {
    let expr = create_physical_expr(&BuiltinScalarFunction::Sqrt, &vec![DataType::Float64])
        .unwrap();
    assert_eq!(expr.name, "sqrt");
    assert_eq!(expr.fun, BuiltinScalarFunction::Sqrt);
    assert_eq!(expr.arg_types, vec![DataType::Float64]);
    assert_eq!(expr.return_type, DataType::Float64);
    assert_eq!(expr.kernel.dispatch, DispatchRule::Direct);
    assert!(!expr.kernel.requires_unicode);
    assert_eq!(expr.monotonicity, Some(vec![Some(true)]));
    assert!(!expr.supports_zero_argument);

    let pi = create_physical_expr(&BuiltinScalarFunction::Pi, &vec![]).unwrap();
    assert_eq!(pi.name, "pi");
    assert_eq!(pi.return_type, DataType::Float64);
    assert!(pi.supports_zero_argument);
}

#[test]
fn signature_mismatch_fails_the_build() {
    match create_physical_expr(
        &BuiltinScalarFunction::Gcd,
        &vec![DataType::Utf8, DataType::Utf8],
    ) {
        Err(PlanError::SignatureMismatch { fun }) => {
            assert_eq!(fun, BuiltinScalarFunction::Gcd)
        },
        other => panic!("expected a signature mismatch, got {other:?}"),
    }
}

#[test]
fn validation_accepts_coerced_tuples_unchanged() {
    let types = vec![DataType::Int64, DataType::Int64];
    assert_eq!(
        validate_arg_types(BuiltinScalarFunction::Gcd, &types).unwrap(),
        types
    );
    let trim_two = vec![DataType::Utf8, DataType::Utf8];
    assert_eq!(
        validate_arg_types(BuiltinScalarFunction::Btrim, &trim_two).unwrap(),
        trim_two
    );
    assert!(validate_arg_types(BuiltinScalarFunction::Btrim, &vec![DataType::Int64]).is_err());
    let element = vec![DataType::List(Box::new(DataType::Int32)), DataType::Int32];
    assert_eq!(
        validate_arg_types(BuiltinScalarFunction::ArrayPositions, &element).unwrap(),
        element
    );
    assert!(
        validate_arg_types(
            BuiltinScalarFunction::ArrayPositions,
            &vec![DataType::List(Box::new(DataType::Int32)), DataType::Utf8],
        )
        .is_err()
    );
}

#[test]
fn zero_argument_support_follows_the_signature() {
    assert!(BuiltinScalarFunction::Pi.supports_zero_argument());
    assert!(BuiltinScalarFunction::Random.supports_zero_argument());
    assert!(BuiltinScalarFunction::Uuid.supports_zero_argument());
    assert!(!BuiltinScalarFunction::Concat.supports_zero_argument());
    assert!(!BuiltinScalarFunction::Repeat.supports_zero_argument());
    assert!(!BuiltinScalarFunction::Sqrt.supports_zero_argument());
}

#[test]
fn kernel_selection_follows_first_argument_type() {
    let left = create_physical_fun(&BuiltinScalarFunction::Left);
    assert_eq!(left.dispatch, DispatchRule::ByStringOffsets);
    assert!(left.requires_unicode);
    let narrow = select_kernel(&left, &DataType::Utf8).unwrap();
    assert!(!narrow.wide);
    let wide = select_kernel(&left, &DataType::LargeUtf8).unwrap();
    assert!(wide.wide);
    match select_kernel(&left, &DataType::Int32) {
        Err(ExecError::UnsupportedArgumentType { fun, actual }) => {
            assert_eq!(fun, BuiltinScalarFunction::Left);
            assert_eq!(actual, DataType::Int32);
        },
        other => panic!("expected an unsupported-type error, got {other:?}"),
    }

    let to_hex = create_physical_fun(&BuiltinScalarFunction::ToHex);
    assert_eq!(to_hex.dispatch, DispatchRule::ByIntegerWidth);
    assert!(select_kernel(&to_hex, &DataType::Int64).unwrap().wide);
    assert!(!select_kernel(&to_hex, &DataType::Int32).unwrap().wide);

    let lower = create_physical_fun(&BuiltinScalarFunction::Lower);
    assert_eq!(lower.dispatch, DispatchRule::Direct);
    assert!(!lower.requires_unicode);
}

// A disabled optional capability is observable at call time, not at
// dispatch time: the entry is built either way, the invocation check fails.
#[test]
fn disabled_capability_fails_at_invocation() {
    let left = create_physical_fun(&BuiltinScalarFunction::Left);
    let kernel = select_kernel(&left, &DataType::Utf8).unwrap();
    assert_eq!(check_capability(&kernel, true), Ok(()));
    match check_capability(&kernel, false) {
        Err(ExecError::CapabilityDisabled { fun }) => {
            assert_eq!(fun, BuiltinScalarFunction::Left)
        },
        other => panic!("expected a capability error, got {other:?}"),
    }
    let lower = create_physical_fun(&BuiltinScalarFunction::Lower);
    let kernel = select_kernel(&lower, &DataType::Utf8).unwrap();
    assert_eq!(check_capability(&kernel, false), Ok(()));
}

#[test]
fn monotonicity_classes() {
    assert_eq!(
        get_func_monotonicity(&BuiltinScalarFunction::Sqrt),
        Some(vec![Some(true)])
    );
    assert_eq!(
        get_func_monotonicity(&BuiltinScalarFunction::Log),
        Some(vec![Some(true), Some(false)])
    );
    assert_eq!(get_func_monotonicity(&BuiltinScalarFunction::Cos), None);
    assert_eq!(get_func_monotonicity(&BuiltinScalarFunction::Upper), None);
    assert_eq!(
        get_func_monotonicity(&BuiltinScalarFunction::Pi),
        Some(vec![Some(true)])
    );
}

#[test]
fn signature_shapes_accept_and_reject() {
    let list = DataType::List(Box::new(DataType::Int32));
    // one or more arguments of arbitrary types
    assert!(validate_arg_types(BuiltinScalarFunction::ArraySlice, &vec![]).is_err());
    assert!(
        validate_arg_types(
            BuiltinScalarFunction::ArraySlice,
            &vec![list.clone(), DataType::Int64, DataType::Int64],
        )
        .is_ok()
    );
    // one or more text arguments
    assert!(
        validate_arg_types(BuiltinScalarFunction::Concat, &vec![DataType::Utf8, DataType::Utf8, DataType::Utf8])
            .is_ok()
    );
    assert!(validate_arg_types(BuiltinScalarFunction::Concat, &vec![DataType::Utf8, DataType::Int64]).is_err());
    // one or more arguments of one shared type
    assert!(validate_arg_types(BuiltinScalarFunction::Coalesce, &vec![DataType::Date32, DataType::Date32]).is_ok());
    assert!(validate_arg_types(BuiltinScalarFunction::Coalesce, &vec![DataType::Date32, DataType::Int64]).is_err());
    // timestamps with and without a time zone
    assert!(
        validate_arg_types(
            BuiltinScalarFunction::ToChar,
            &vec![DataType::Timestamp(TimeUnit::Second, true), DataType::Utf8],
        )
        .is_ok()
    );
    assert!(
        validate_arg_types(
            BuiltinScalarFunction::ToChar,
            &vec![DataType::Timestamp(TimeUnit::Nanosecond, false), DataType::Utf8],
        )
        .is_ok()
    );
    assert!(validate_arg_types(BuiltinScalarFunction::ToChar, &vec![DataType::Int64, DataType::Utf8]).is_err());
    // a list kind and an index
    assert!(validate_arg_types(BuiltinScalarFunction::ArrayElement, &vec![list.clone(), DataType::Int64]).is_ok());
    assert!(validate_arg_types(BuiltinScalarFunction::ArrayElement, &vec![list, DataType::Int32]).is_err());
    assert!(validate_arg_types(BuiltinScalarFunction::ArrayElement, &vec![DataType::Int64, DataType::Int64]).is_err());
}
