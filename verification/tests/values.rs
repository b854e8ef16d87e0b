use primitive_contract::error::ContractError;
use primitive_contract::state::{parse_error, Addr, Config, Primitive};

#[test]
fn test_parse_error() {
    assert_eq!(
        ContractError::TypeMismatch {
            target_type: "target_type".to_string(),
            msg: "Primitive is not a target_type".to_string()
        },
        parse_error("target_type".to_string())
    );
}

#[test]
fn try_get_uint128() {
    let primitive = Primitive::Uint128(5 as u128);
    assert_eq!(5 as u128, primitive.try_get_uint128().unwrap());

    let primitive = Primitive::Bool(true);
    assert_eq!(
        parse_error("Uint128".to_string()),
        primitive.try_get_uint128().unwrap_err()
    );
}

#[test]
fn try_get_string() {
    let primitive = Primitive::String("String".to_string());
    assert_eq!("String".to_string(), primitive.try_get_string().unwrap());

    let primitive = Primitive::Bool(true);
    assert_eq!(
        parse_error("String".to_string()),
        primitive.try_get_string().unwrap_err()
    );
}

#[test]
fn try_get_bool() {
    let primitive = Primitive::Bool(true);
    assert_eq!(true, primitive.try_get_bool().unwrap());

    let primitive = Primitive::String("String".to_string());
    assert_eq!(
        parse_error("bool".to_string()),
        primitive.try_get_bool().unwrap_err()
    );
}

#[test]
fn try_get_vec() {
    let primitive = Primitive::Vec(vec![Primitive::Bool(true)]);
    assert_eq!(
        vec![Primitive::Bool(true)],
        primitive.try_get_vec().unwrap()
    );

    let primitive = Primitive::String("String".to_string());
    assert_eq!(
        parse_error("Vec".to_string()),
        primitive.try_get_vec().unwrap_err()
    );
}

#[test]
fn is_valid() {
    let valid_primitive = Primitive::Bool(true);
    assert!(!valid_primitive.is_invalid());

    let valid_primitive = Primitive::Uint128(1_u128);
    assert!(!valid_primitive.is_invalid());

    let valid_primitive = Primitive::String("String".to_string());
    assert!(!valid_primitive.is_invalid());

    let valid_primitive = Primitive::Vec(vec![
        Primitive::Bool(true),
        Primitive::Uint128(1_u128),
        Primitive::String("String".to_string()),
    ]);
    assert!(!valid_primitive.is_invalid());

    let invalid_primitive = Primitive::Vec(vec![Primitive::Bool(true), Primitive::Vec(vec![])]);
    assert!(invalid_primitive.is_invalid());
}

#[test]
fn a_list_of_a_list_is_invalid() {
    assert!(Primitive::Vec(vec![Primitive::Vec(vec![])]).is_invalid());
    assert!(!Primitive::Vec(vec![Primitive::Bool(true), Primitive::Uint128(1)]).is_invalid());
}

#[test]
fn an_empty_list_is_valid() {
    assert!(!Primitive::Vec(vec![]).is_invalid());
}

#[test]
fn a_nested_list_is_found_at_any_place() {
    let first = Primitive::Vec(vec![Primitive::Vec(vec![Primitive::Bool(false)]), Primitive::Bool(true)]);
    assert!(first.is_invalid());
    let last = Primitive::Vec(vec![
        Primitive::Uint128(0),
        Primitive::String("a".to_string()),
        Primitive::Vec(vec![Primitive::Vec(vec![])]),
    ]);
    assert!(last.is_invalid());
}

#[test]
fn a_text_is_read_as_text_only() {
    assert_eq!(Ok("x".to_string()), Primitive::String("x".to_string()).try_get_string());
    let error = Primitive::Bool(true).try_get_string().unwrap_err();
    assert_eq!(
        ContractError::TypeMismatch {
            target_type: "String".to_string(),
            msg: "Primitive is not a String".to_string()
        },
        error
    );
}

#[test]
fn each_typed_read_names_what_it_expected() {
    let list = Primitive::Vec(vec![]);
    assert_eq!(
        ContractError::TypeMismatch {
            target_type: "Uint128".to_string(),
            msg: "Primitive is not a Uint128".to_string()
        },
        list.try_get_uint128().unwrap_err()
    );
    assert_eq!(
        ContractError::TypeMismatch {
            target_type: "bool".to_string(),
            msg: "Primitive is not a bool".to_string()
        },
        list.try_get_bool().unwrap_err()
    );
    assert_eq!(
        ContractError::TypeMismatch {
            target_type: "Vec".to_string(),
            msg: "Primitive is not a Vec".to_string()
        },
        Primitive::Uint128(7).try_get_vec().unwrap_err()
    );
}

#[test]
fn typed_reads_give_the_payload() {
    assert_eq!(Ok(u128::MAX), Primitive::Uint128(u128::MAX).try_get_uint128());
    assert_eq!(Ok(false), Primitive::Bool(false).try_get_bool());
    assert_eq!(Ok("".to_string()), Primitive::String("".to_string()).try_get_string());
    let items = vec![
        Primitive::Uint128(3),
        Primitive::String("three".to_string()),
        Primitive::Vec(vec![Primitive::Bool(true)]),
    ];
    let copy = Primitive::Vec(vec![
        Primitive::Uint128(3),
        Primitive::String("three".to_string()),
        Primitive::Vec(vec![Primitive::Bool(true)]),
    ])
    .try_get_vec()
    .unwrap();
    assert_eq!(items, copy);
}

#[test]
fn a_clone_is_equal_to_its_source() {
    let value = Primitive::Vec(vec![
        Primitive::Uint128(42),
        Primitive::String("forty-two".to_string()),
        Primitive::Bool(true),
    ]);
    assert_eq!(value, value.clone());
    let nested = Primitive::Vec(vec![Primitive::Vec(vec![Primitive::Uint128(1)])]);
    assert_eq!(nested, nested.clone());
}

#[test]
fn an_address_keeps_its_text() {
    let address = Addr::unchecked("user1");
    assert_eq!("user1", address.as_str());
    assert_eq!("user1".to_string(), address.to_string());
    assert_eq!(address, address.clone());
    assert_ne!(Addr::unchecked("user1"), Addr::unchecked("user2"));
}

#[test]
fn a_config_clone_keeps_the_owner() {
    let config = Config { owner: Addr::unchecked("creator") };
    assert_eq!(config, config.clone());
}
