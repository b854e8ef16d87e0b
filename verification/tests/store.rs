use primitive_contract::error::ContractError;
use primitive_contract::state::{Addr, Config, Primitive};
use primitive_contract::store::{ConfigStore, State, ValueStore, WritePolicy};

fn text(value: &str) -> Primitive {
    Primitive::String(value.to_string())
}

fn nested() -> Primitive {
    Primitive::Vec(vec![Primitive::Vec(vec![])])
}

#[test]
fn a_new_store_is_empty_and_upserts() {
    let store = ValueStore::new();
    assert_eq!(WritePolicy::Upsert, store.write_policy());
    assert_eq!(Err(ContractError::NotFound), store.get(&Addr::unchecked("a"), "n"));
    let strict = ValueStore::with_policy(WritePolicy::StrictAdd);
    assert_eq!(WritePolicy::StrictAdd, strict.write_policy());
}

#[test]
fn what_was_set_is_read_back() {
    let owner = Addr::unchecked("a");
    let values = vec![
        Primitive::Uint128(9),
        text("nine"),
        Primitive::Bool(true),
        Primitive::Vec(vec![Primitive::Uint128(9), text("nine")]),
        Primitive::Vec(vec![]),
    ];
    let mut store = ValueStore::new();
    for value in values {
        assert_eq!(Ok(()), store.set(&owner, "n", value.clone()));
        assert_eq!(Ok(value), store.get(&owner, "n"));
    }
}

#[test]
fn a_second_set_replaces_the_first() {
    let owner = Addr::unchecked("a");
    let mut store = ValueStore::new();
    assert_eq!(Ok(()), store.set(&owner, "n", text("one")));
    assert_eq!(Ok(()), store.set(&owner, "n", text("two")));
    assert_eq!(Ok(text("two")), store.get(&owner, "n"));
    assert_eq!(Ok(()), store.delete(&owner, "n"));
    assert_eq!(Err(ContractError::NotFound), store.get(&owner, "n"));
}

#[test]
fn an_invalid_value_is_refused_and_nothing_changes() {
    let owner = Addr::unchecked("a");
    let mut store = ValueStore::new();
    assert_eq!(Err(ContractError::InvalidValue), store.set(&owner, "n", nested()));
    assert_eq!(Err(ContractError::NotFound), store.get(&owner, "n"));
    assert_eq!(Ok(()), store.set(&owner, "n", text("kept")));
    assert_eq!(Err(ContractError::InvalidValue), store.set(&owner, "n", nested()));
    assert_eq!(Ok(text("kept")), store.get(&owner, "n"));
}

#[test]
fn delete_then_get_is_not_found() {
    let owner = Addr::unchecked("a");
    let mut store = ValueStore::new();
    assert_eq!(Err(ContractError::NotFound), store.delete(&owner, "n"));
    assert_eq!(Err(ContractError::NotFound), store.get(&owner, "n"));
    assert_eq!(Ok(()), store.set(&owner, "n", text("v")));
    assert_eq!(Ok(()), store.delete(&owner, "n"));
    assert_eq!(Err(ContractError::NotFound), store.get(&owner, "n"));
    assert_eq!(Err(ContractError::NotFound), store.delete(&owner, "n"));
}

#[test]
fn entries_are_kept_apart_by_owner_and_by_name() {
    let first = Addr::unchecked("a");
    let second = Addr::unchecked("b");
    let mut store = ValueStore::new();
    assert_eq!(Ok(()), store.set(&first, "n", text("a-n")));
    assert_eq!(Ok(()), store.set(&first, "m", text("a-m")));
    assert_eq!(Ok(()), store.set(&second, "n", text("b-n")));
    assert_eq!(Ok(text("a-n")), store.get(&first, "n"));
    assert_eq!(Ok(text("a-m")), store.get(&first, "m"));
    assert_eq!(Ok(text("b-n")), store.get(&second, "n"));
    assert_eq!(Err(ContractError::NotFound), store.get(&second, "m"));
    assert_eq!(Ok(()), store.delete(&first, "n"));
    assert_eq!(Err(ContractError::NotFound), store.get(&first, "n"));
    assert_eq!(Ok(text("a-m")), store.get(&first, "m"));
    assert_eq!(Ok(text("b-n")), store.get(&second, "n"));
    assert_eq!(Ok(()), store.set(&first, "m", text("again")));
    assert_eq!(Ok(text("again")), store.get(&first, "m"));
    assert_eq!(Ok(text("b-n")), store.get(&second, "n"));
}

#[test]
fn owner_and_name_are_not_run_together() {
    let mut store = ValueStore::new();
    assert_eq!(Ok(()), store.set(&Addr::unchecked("ab"), "c", text("ab-c")));
    assert_eq!(Err(ContractError::NotFound), store.get(&Addr::unchecked("a"), "bc"));
    assert_eq!(Ok(()), store.set(&Addr::unchecked("a"), "bc", text("a-bc")));
    assert_eq!(Ok(text("ab-c")), store.get(&Addr::unchecked("ab"), "c"));
    assert_eq!(Ok(text("a-bc")), store.get(&Addr::unchecked("a"), "bc"));
}

#[test]
fn strict_add_refuses_a_key_that_is_present() {
    let owner = Addr::unchecked("a");
    let other = Addr::unchecked("b");
    let mut store = ValueStore::with_policy(WritePolicy::StrictAdd);
    assert_eq!(Ok(()), store.set(&owner, "n", text("first")));
    assert_eq!(Err(ContractError::AlreadyExists), store.set(&owner, "n", text("second")));
    assert_eq!(Ok(text("first")), store.get(&owner, "n"));
    assert_eq!(Ok(()), store.set(&owner, "m", text("other name")));
    assert_eq!(Ok(()), store.set(&other, "n", text("other owner")));
    assert_eq!(Ok(()), store.delete(&owner, "n"));
    assert_eq!(Ok(()), store.set(&owner, "n", text("second")));
    assert_eq!(Ok(text("second")), store.get(&owner, "n"));
}

#[test]
fn strict_update_refuses_a_key_that_is_absent() {
    let owner = Addr::unchecked("a");
    let mut store = ValueStore::with_policy(WritePolicy::StrictUpdate);
    assert_eq!(Err(ContractError::NotFound), store.set(&owner, "n", text("first")));
    assert_eq!(Err(ContractError::NotFound), store.get(&owner, "n"));
}

#[test]
fn an_invalid_value_is_refused_before_the_key_is_looked_at() {
    let owner = Addr::unchecked("a");
    let mut add = ValueStore::with_policy(WritePolicy::StrictAdd);
    assert_eq!(Ok(()), add.set(&owner, "n", text("first")));
    assert_eq!(Err(ContractError::InvalidValue), add.set(&owner, "n", nested()));
    let mut update = ValueStore::with_policy(WritePolicy::StrictUpdate);
    assert_eq!(Err(ContractError::InvalidValue), update.set(&owner, "n", nested()));
}

#[test]
fn the_config_record_is_read_after_init() {
    let mut store = ConfigStore::new();
    assert_eq!(Err(ContractError::NotFound), store.get());
    store.init(Addr::unchecked("creator"));
    assert_eq!(Ok(Config { owner: Addr::unchecked("creator") }), store.get());
    assert_eq!(Ok(Config { owner: Addr::unchecked("creator") }), store.get());
}

#[test]
fn a_new_state_holds_nothing() {
    let state = State::new();
    assert_eq!(Err(ContractError::NotFound), state.config.get());
    assert_eq!(WritePolicy::Upsert, state.data.write_policy());
    assert_eq!(Err(ContractError::NotFound), state.data.get(&Addr::unchecked("a"), "a"));
    let strict = State::with_policy(WritePolicy::StrictUpdate);
    assert_eq!(WritePolicy::StrictUpdate, strict.data.write_policy());
    assert_eq!(Err(ContractError::NotFound), strict.config.get());
}
