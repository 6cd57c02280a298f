use scalar_functions::data_type::{DataType, TimeUnit};
use scalar_functions::errors::PlanError;
use scalar_functions::functions::BuiltinScalarFunction;

// The output type of coalescing two dates is that same date type.
#[test]
fn test_coalesce_return_types() {
    let coalesce = BuiltinScalarFunction::Coalesce;
    let return_type = coalesce
        .return_type(&vec![DataType::Date32, DataType::Date32])
        .unwrap();
    assert_eq!(return_type, DataType::Date32);
}

#[test]
fn text_width_tracks_widest_input() {
    let lower = BuiltinScalarFunction::Lower;
    assert_eq!(lower.return_type(&vec![DataType::Utf8]).unwrap(), DataType::Utf8);
    assert_eq!(lower.return_type(&vec![DataType::LargeUtf8]).unwrap(), DataType::LargeUtf8);
    assert_eq!(lower.return_type(&vec![DataType::Binary]).unwrap(), DataType::Utf8);
    assert_eq!(lower.return_type(&vec![DataType::LargeBinary]).unwrap(), DataType::LargeUtf8);
    assert_eq!(lower.return_type(&vec![DataType::Null]).unwrap(), DataType::Null);
    let dict = DataType::Dictionary(Box::new(DataType::Int32), Box::new(DataType::LargeUtf8));
    assert_eq!(lower.return_type(&vec![dict]).unwrap(), DataType::LargeUtf8);
}

#[test]
fn length_width_tracks_input_width() {
    let bit_length = BuiltinScalarFunction::BitLength;
    assert_eq!(bit_length.return_type(&vec![DataType::Utf8]).unwrap(), DataType::Int32);
    assert_eq!(bit_length.return_type(&vec![DataType::LargeUtf8]).unwrap(), DataType::Int64);
    let strpos = BuiltinScalarFunction::Strpos;
    assert_eq!(strpos.return_type(&vec![DataType::Utf8, DataType::Utf8]).unwrap(), DataType::Int32);
}

#[test]
fn string_function_rejects_non_string_input() {
    let lower = BuiltinScalarFunction::Lower;
    match lower.return_type(&vec![DataType::Int64]) {
        Err(PlanError::ExpectsStringType { fun, actual }) => {
            assert_eq!(fun, BuiltinScalarFunction::Lower);
            assert_eq!(actual, DataType::Int64);
        },
        other => panic!("expected a string-type error, got {other:?}"),
    }
    let dict = DataType::Dictionary(Box::new(DataType::Int32), Box::new(DataType::Float64));
    match lower.return_type(&vec![dict]) {
        Err(PlanError::ExpectsStringType { actual, .. }) => {
            assert_eq!(actual, DataType::Float64);
        },
        other => panic!("expected a string-type error, got {other:?}"),
    }
}

#[test]
fn to_hex_accepts_only_integers() {
    let to_hex = BuiltinScalarFunction::ToHex;
    assert_eq!(to_hex.return_type(&vec![DataType::Int64]).unwrap(), DataType::Utf8);
    assert_eq!(to_hex.return_type(&vec![DataType::Int8]).unwrap(), DataType::Utf8);
    match to_hex.return_type(&vec![DataType::Utf8]) {
        Err(PlanError::ExpectsIntegerType { fun }) => {
            assert_eq!(fun, BuiltinScalarFunction::ToHex)
        },
        other => panic!("expected an integer-type error, got {other:?}"),
    }
}

#[test]
fn power_keeps_integer_width() {
    let power = BuiltinScalarFunction::Power;
    assert_eq!(
        power.return_type(&vec![DataType::Int64, DataType::Int64]).unwrap(),
        DataType::Int64
    );
    assert_eq!(
        power.return_type(&vec![DataType::Float64, DataType::Float64]).unwrap(),
        DataType::Float64
    );
}

#[test]
fn single_precision_is_never_upgraded() {
    assert_eq!(
        BuiltinScalarFunction::Sqrt.return_type(&vec![DataType::Float32]).unwrap(),
        DataType::Float32
    );
    assert_eq!(
        BuiltinScalarFunction::Sqrt.return_type(&vec![DataType::Float64]).unwrap(),
        DataType::Float64
    );
    assert_eq!(
        BuiltinScalarFunction::Log.return_type(&vec![DataType::Float32]).unwrap(),
        DataType::Float32
    );
    assert_eq!(
        BuiltinScalarFunction::Cos.return_type(&vec![DataType::Float64]).unwrap(),
        DataType::Float64
    );
}

#[test]
fn element_access_returns_element_type() {
    let array_element = BuiltinScalarFunction::ArrayElement;
    let list = DataType::List(Box::new(DataType::Int32));
    assert_eq!(
        array_element.return_type(&vec![list, DataType::Int64]).unwrap(),
        DataType::Int32
    );
    let fixed = DataType::FixedSizeList(Box::new(DataType::Utf8), 4);
    assert_eq!(
        array_element.return_type(&vec![fixed, DataType::Int64]).unwrap(),
        DataType::Utf8
    );
    match array_element.return_type(&vec![DataType::Int64, DataType::Int64]) {
        Err(PlanError::FirstArgumentMustBeList { fun }) => {
            assert_eq!(fun, BuiltinScalarFunction::ArrayElement)
        },
        other => panic!("expected a list-argument error, got {other:?}"),
    }
}

#[test]
fn container_transforms_keep_container_type() {
    let list = DataType::List(Box::new(DataType::Utf8));
    assert_eq!(
        BuiltinScalarFunction::ArrayReverse.return_type(&vec![list.clone()]).unwrap(),
        list
    );
    assert_eq!(
        BuiltinScalarFunction::ArrayPositions
            .return_type(&vec![list.clone(), DataType::Utf8])
            .unwrap(),
        DataType::List(Box::new(DataType::UInt64))
    );
    assert_eq!(
        BuiltinScalarFunction::ArrayPosition
            .return_type(&vec![list, DataType::Utf8])
            .unwrap(),
        DataType::UInt64
    );
}

#[test]
fn set_operations_treat_null_sides() {
    let list = DataType::List(Box::new(DataType::Int64));
    let intersect = BuiltinScalarFunction::ArrayIntersect;
    assert_eq!(
        intersect.return_type(&vec![DataType::Null, DataType::Null]).unwrap(),
        DataType::Null
    );
    assert_eq!(
        intersect.return_type(&vec![DataType::Null, list.clone()]).unwrap(),
        DataType::Null
    );
    assert_eq!(
        intersect.return_type(&vec![list.clone(), DataType::Null]).unwrap(),
        DataType::List(Box::new(DataType::Null))
    );
    assert_eq!(
        intersect.return_type(&vec![list.clone(), list.clone()]).unwrap(),
        list
    );
    let union = BuiltinScalarFunction::ArrayUnion;
    assert_eq!(union.return_type(&vec![DataType::Null, list.clone()]).unwrap(), list);
    assert_eq!(union.return_type(&vec![list.clone(), DataType::Null]).unwrap(), list);
    let except = BuiltinScalarFunction::ArrayExcept;
    assert_eq!(except.return_type(&vec![list.clone(), DataType::Null]).unwrap(), list);
}

#[test]
fn fixed_result_functions() {
    assert_eq!(
        BuiltinScalarFunction::Ascii.return_type(&vec![DataType::Utf8]).unwrap(),
        DataType::Int32
    );
    assert_eq!(BuiltinScalarFunction::Pi.return_type(&vec![]).unwrap(), DataType::Float64);
    assert_eq!(BuiltinScalarFunction::Random.return_type(&vec![]).unwrap(), DataType::Float64);
    assert_eq!(BuiltinScalarFunction::Uuid.return_type(&vec![]).unwrap(), DataType::Utf8);
    assert_eq!(
        BuiltinScalarFunction::MakeDate
            .return_type(&vec![DataType::Int32, DataType::Int32, DataType::Int32])
            .unwrap(),
        DataType::Date32
    );
    assert_eq!(
        BuiltinScalarFunction::ToChar
            .return_type(&vec![DataType::Timestamp(TimeUnit::Second, false), DataType::Utf8])
            .unwrap(),
        DataType::Utf8
    );
    assert_eq!(
        BuiltinScalarFunction::Gcd
            .return_type(&vec![DataType::Int64, DataType::Int64])
            .unwrap(),
        DataType::Int64
    );
    assert_eq!(
        BuiltinScalarFunction::Iszero.return_type(&vec![DataType::Float32]).unwrap(),
        DataType::Boolean
    );
    assert_eq!(
        BuiltinScalarFunction::StartsWith
            .return_type(&vec![DataType::Utf8, DataType::Utf8])
            .unwrap(),
        DataType::Boolean
    );
}

// The return-type rule is pure: calling it twice on the same inputs gives
// the same output.
#[test]
fn return_type_is_pure() {
    let inputs = vec![DataType::LargeUtf8];
    let first = BuiltinScalarFunction::Reverse.return_type(&inputs);
    let second = BuiltinScalarFunction::Reverse.return_type(&inputs);
    assert_eq!(first, second);
}
