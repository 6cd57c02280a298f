use scalar_functions::catalog::{lookup, name_to_function, function_to_name};
use scalar_functions::errors::PlanError;
use scalar_functions::functions::{all_functions, BuiltinScalarFunction};
use scalar_functions::signature::Volatility;

// For each identity in the catalog, converting it to its display name and
// resolving that name back must return the same identity.
#[test]
fn test_display_and_from_str() {
    for func_original in all_functions() {
        let func_name = func_original.name();
        let func_from_str = lookup(func_name).unwrap();
        assert_eq!(func_from_str, func_original);
    }
}

#[test]
fn lookup_resolves_every_alias() {
    for f in all_functions() {
        for alias in f.aliases() {
            assert_eq!(name_to_function(alias), Some(f));
        }
    }
}

#[test]
fn no_two_identities_share_an_alias() {
    let mut seen: Vec<&'static str> = Vec::new();
    for f in all_functions() {
        for alias in f.aliases() {
            assert!(!seen.contains(&alias), "duplicate alias {alias}");
            seen.push(alias);
        }
    }
}

#[test]
fn unknown_name_fails_naming_the_attempt() {
    match lookup("no_such_function") {
        Err(PlanError::UnknownFunction { name }) => assert_eq!(name, "no_such_function"),
        other => panic!("expected an unknown-function error, got {other:?}"),
    }
    assert_eq!(name_to_function(""), None);
    assert_eq!(name_to_function("sqr"), None);
    assert_eq!(name_to_function("sqrtx"), None);
}

#[test]
fn canonical_name_is_first_alias() {
    assert_eq!(BuiltinScalarFunction::Power.name(), "power");
    assert_eq!(BuiltinScalarFunction::Power.aliases(), vec!["power", "pow"]);
    assert_eq!(
        BuiltinScalarFunction::CharacterLength.aliases(),
        vec!["character_length", "char_length", "length"]
    );
    assert_eq!(
        BuiltinScalarFunction::Strpos.aliases(),
        vec!["strpos", "instr", "position"]
    );
    assert_eq!(function_to_name(BuiltinScalarFunction::ConcatWithSeparator), "concat_ws");
    assert_eq!(lookup("pow").unwrap(), BuiltinScalarFunction::Power);
    assert_eq!(lookup("length").unwrap(), BuiltinScalarFunction::CharacterLength);
    assert_eq!(lookup("list_extract").unwrap(), BuiltinScalarFunction::ArrayElement);
}

#[test]
fn catalog_lists_every_identity_once() {
    let all = all_functions();
    assert_eq!(all.len(), 85);
    for (i, a) in all.iter().enumerate() {
        for b in all.iter().skip(i + 1) {
            assert_ne!(a, b);
        }
    }
}

#[test]
fn only_random_value_producers_are_volatile() {
    for f in all_functions() {
        let expected = matches!(
            f,
            BuiltinScalarFunction::Random | BuiltinScalarFunction::Uuid
        );
        assert_eq!(f.volatility() == Volatility::Volatile, expected);
    }
}
