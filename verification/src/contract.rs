//! The request handlers: initialization, the two commands and the two
//! queries.

use vstd::prelude::*;
use cosmwasm_std::Response;
use crate::error::ContractError;
use crate::msg::ConfigResponse;
use crate::msg::ExecuteMsg;
use crate::msg::GetValueResponse;
use crate::msg::InstantiateMsg;
use crate::msg::MessageInfo;
use crate::msg::QueryMsg;
use crate::msg::QueryResponse;
use crate::response::add_attribute;
use crate::response::new_response;
use crate::response::response_attributes;
use crate::response::response_messages;
use crate::state::Addr;
use crate::state::Primitive;
use crate::state::PrimitiveView;
use crate::store::delete_entries;
use crate::store::delete_result;
use crate::store::get_result;
use crate::store::set_entries;
use crate::store::set_result;
use crate::store::Key;
use crate::store::State;

verus! {

/// The name of an entry: the name that was given, or else the owner's text.
pub open spec fn resolve(name: Option<String>, owner: Seq<char>) -> Seq<char> {
    match name {
        Some(given) => given@,
        None => owner,
    }
}

/// The key that a request of `owner` with `name` speaks of.
pub open spec fn key_for(owner: Seq<char>, name: Option<String>) -> Key {
    (owner, resolve(name, owner))
}

/// The attributes that report an initialization.
pub open spec fn instantiate_attributes(owner: Seq<char>) -> Seq<(Seq<char>, Seq<char>)> {
    seq![("method"@, "instantiate"@), ("owner"@, owner)]
}

/// The attributes that report a stored value.
pub open spec fn set_value_attributes(
    sender: Seq<char>,
    name: Seq<char>,
    value: PrimitiveView,
) -> Seq<(Seq<char>, Seq<char>)> {
    seq![
        ("method"@, "set_value"@),
        ("sender"@, sender),
        ("name"@, name),
        ("value"@, value.rendering()),
    ]
}

/// The attributes that report a deleted entry.
pub open spec fn delete_value_attributes(sender: Seq<char>, name: Seq<char>) -> Seq<
    (Seq<char>, Seq<char>),
> {
    seq![("method"@, "delete_value"@), ("sender"@, sender), ("name"@, name)]
}

/// What `SetValue` does to the state and what it answers.
pub open spec fn set_value_done(
    before: State,
    after: State,
    sender: Seq<char>,
    name: Option<String>,
    value: PrimitiveView,
    res: Result<Response, ContractError>,
) -> bool {
    let key = key_for(sender, name);
    &&& after.data@ == set_entries(before.data.policy(), before.data@, key, value)
    &&& after.data.policy() == before.data.policy()
    &&& after.config@ == before.config@
    &&& match set_result(before.data.policy(), before.data@, key, value) {
        Ok(_) => {
            &&& res is Ok
            &&& response_attributes(res->Ok_0) == set_value_attributes(sender, key.1, value)
            &&& response_messages(res->Ok_0) == 0
        },
        Err(error) => res == Err::<Response, ContractError>(error),
    }
}

/// What `DeleteValue` does to the state and what it answers.
pub open spec fn delete_value_done(
    before: State,
    after: State,
    sender: Seq<char>,
    name: Option<String>,
    res: Result<Response, ContractError>,
) -> bool {
    let key = key_for(sender, name);
    &&& after.data@ == delete_entries(before.data@, key)
    &&& after.data.policy() == before.data.policy()
    &&& after.config@ == before.config@
    &&& match delete_result(before.data@, key) {
        Ok(_) => {
            &&& res is Ok
            &&& response_attributes(res->Ok_0) == delete_value_attributes(sender, key.1)
            &&& response_messages(res->Ok_0) == 0
        },
        Err(error) => res == Err::<Response, ContractError>(error),
    }
}

/// What `Config` answers: the owner on record.
pub open spec fn config_answered(state: State, res: Result<ConfigResponse, ContractError>) -> bool {
    match state.config@ {
        Some(owner) => res is Ok && res->Ok_0.owner@ == owner,
        None => res == Err::<ConfigResponse, ContractError>(ContractError::NotFound),
    }
}

/// What `GetValue` answers: the resolved name and the value under it.
pub open spec fn value_answered(
    state: State,
    address: Seq<char>,
    name: Option<String>,
    res: Result<GetValueResponse, ContractError>,
) -> bool {
    match get_result(state.data@, key_for(address, name)) {
        Ok(value) => {
            &&& res is Ok
            &&& res->Ok_0.name@ == resolve(name, address)
            &&& res->Ok_0.value@ == value
        },
        Err(error) => res == Err::<GetValueResponse, ContractError>(error),
    }
}

/// What was stored for a sender can be queried under the sender's address
/// and the same name, given or not: the answer holds the resolved name and
/// the value that was stored.
pub proof fn law_set_value_then_get_value(
    before: State,
    after: State,
    sender: Seq<char>,
    name: Option<String>,
    value: PrimitiveView,
    res: Result<Response, ContractError>,
    answer: Result<GetValueResponse, ContractError>,
)
    requires
        set_value_done(before, after, sender, name, value, res),
        res is Ok,
        value_answered(after, sender, name, answer),
    ensures
        answer is Ok,
        answer->Ok_0.name@ == resolve(name, sender),
        answer->Ok_0.value@ == value,
        !value.is_invalid(),
{
}

/// After `DeleteValue`, accepted or refused, a query under the sender's
/// address and the same name answers `NotFound`.
pub proof fn law_delete_value_then_get_value(
    before: State,
    after: State,
    sender: Seq<char>,
    name: Option<String>,
    res: Result<Response, ContractError>,
    answer: Result<GetValueResponse, ContractError>,
)
    requires
        delete_value_done(before, after, sender, name, res),
        value_answered(after, sender, name, answer),
    ensures
        answer == Err::<GetValueResponse, ContractError>(ContractError::NotFound),
        res is Err <==> !before.data@.dom().contains(key_for(sender, name)),
{
}

/// No command changes what `Config` answers, whoever sends it and whether
/// it is accepted or refused.
pub proof fn law_commands_keep_the_config(
    before: State,
    after: State,
    sender: Seq<char>,
    name: Option<String>,
    value: PrimitiveView,
    res: Result<Response, ContractError>,
    answer: Result<ConfigResponse, ContractError>,
)
    requires
        set_value_done(before, after, sender, name, value, res) || delete_value_done(
            before,
            after,
            sender,
            name,
            res,
        ),
    ensures
        config_answered(after, answer) == config_answered(before, answer),
{
}

/// Records the sender as the owner. The record is written once, so the
/// state must not hold one yet.
pub fn instantiate(state: &mut State, info: MessageInfo, _msg: InstantiateMsg) -> (res: Result<
    Response,
    ContractError,
>)
    requires
        old(state).config@ is None,
    ensures
        res is Ok,
        response_attributes(res->Ok_0) == instantiate_attributes(info.sender@),
        response_messages(res->Ok_0) == 0,
        final(state).config@ == Some(info.sender@),
        final(state).data@ == old(state).data@,
        final(state).data.policy() == old(state).data.policy(),
{
    proof {
        reveal_strlit("method");
        reveal_strlit("owner");
    }
    let response = new_response();
    let response = add_attribute(response, "method", "instantiate");
    let response = add_attribute(response, "owner", info.sender.as_str());
    state.config.init(info.sender);
    Ok(response)
}

/// Carries out a command for its sender.
pub fn execute(state: &mut State, info: MessageInfo, msg: ExecuteMsg) -> (res: Result<
    Response,
    ContractError,
>)
    ensures
        match msg {
            ExecuteMsg::SetValue { name, value } => set_value_done(
                *old(state),
                *final(state),
                info.sender@,
                name,
                value@,
                res,
            ),
            ExecuteMsg::DeleteValue { name } => delete_value_done(
                *old(state),
                *final(state),
                info.sender@,
                name,
                res,
            ),
        },
{
    match msg {
        ExecuteMsg::SetValue { name, value } => execute_set_value(state, info, name, value),
        ExecuteMsg::DeleteValue { name } => execute_delete_value(state, info, name),
    }
}

/// Stores `value` for the sender under the resolved name.
pub fn execute_set_value(
    state: &mut State,
    info: MessageInfo,
    name: Option<String>,
    value: Primitive,
) -> (res: Result<Response, ContractError>)
    ensures
        set_value_done(*old(state), *final(state), info.sender@, name, value@, res),
{
    let resolved = get_name(name, &info.sender);
    let rendering = value.render();
    match state.data.set(&info.sender, resolved.as_str(), value) {
        Ok(()) => {
            proof {
                reveal_strlit("method");
                reveal_strlit("sender");
                reveal_strlit("name");
                reveal_strlit("value");
            }
            let response = new_response();
            let response = add_attribute(response, "method", "set_value");
            let response = add_attribute(response, "sender", info.sender.as_str());
            let response = add_attribute(response, "name", resolved.as_str());
            let response = add_attribute(response, "value", rendering.as_str());
            assert(response_attributes(response) =~= set_value_attributes(
                info.sender@,
                resolved@,
                value@,
            ));
            Ok(response)
        },
        Err(error) => Err(error),
    }
}

/// Deletes the sender's entry under the resolved name.
pub fn execute_delete_value(state: &mut State, info: MessageInfo, name: Option<String>) -> (res:
    Result<Response, ContractError>)
    ensures
        delete_value_done(*old(state), *final(state), info.sender@, name, res),
{
    let resolved = get_name(name, &info.sender);
    match state.data.delete(&info.sender, resolved.as_str()) {
        Ok(()) => {
            proof {
                reveal_strlit("method");
                reveal_strlit("sender");
                reveal_strlit("name");
            }
            let response = new_response();
            let response = add_attribute(response, "method", "delete_value");
            let response = add_attribute(response, "sender", info.sender.as_str());
            let response = add_attribute(response, "name", resolved.as_str());
            assert(response_attributes(response) =~= delete_value_attributes(
                info.sender@,
                resolved@,
            ));
            Ok(response)
        },
        Err(error) => Err(error),
    }
}

/// Answers a query.
pub fn query(state: &State, msg: QueryMsg) -> (res: Result<QueryResponse, ContractError>)
    ensures
        match msg {
            QueryMsg::Config {  } => match res {
                Ok(QueryResponse::Config(answer)) => config_answered(
                    *state,
                    Ok::<ConfigResponse, ContractError>(answer),
                ),
                Ok(_) => false,
                Err(error) => config_answered(*state, Err::<ConfigResponse, ContractError>(error)),
            },
            QueryMsg::GetValue { address, name } => match res {
                Ok(QueryResponse::Value(answer)) => value_answered(
                    *state,
                    address@,
                    name,
                    Ok::<GetValueResponse, ContractError>(answer),
                ),
                Ok(_) => false,
                Err(error) => value_answered(
                    *state,
                    address@,
                    name,
                    Err::<GetValueResponse, ContractError>(error),
                ),
            },
        },
{
    match msg {
        QueryMsg::Config {  } => match query_config(state) {
            Ok(answer) => Ok(QueryResponse::Config(answer)),
            Err(error) => Err(error),
        },
        QueryMsg::GetValue { address, name } => match query_value(state, address, name) {
            Ok(answer) => Ok(QueryResponse::Value(answer)),
            Err(error) => Err(error),
        },
    }
}

/// The value of `address` under the resolved name. The name is resolved
/// against `address`, whoever asks.
pub fn query_value(state: &State, address: Addr, name: Option<String>) -> (res: Result<
    GetValueResponse,
    ContractError,
>)
    ensures
        value_answered(*state, address@, name, res),
{
    let resolved = get_name(name, &address);
    match state.data.get(&address, resolved.as_str()) {
        Ok(value) => Ok(GetValueResponse { name: resolved, value }),
        Err(error) => Err(error),
    }
}

/// The owner on record.
pub fn query_config(state: &State) -> (res: Result<ConfigResponse, ContractError>)
    ensures
        config_answered(*state, res),
{
    match state.config.get() {
        Ok(config) => Ok(ConfigResponse { owner: config.owner }),
        Err(error) => Err(error),
    }
}

/// The name of an entry: `name` as it was given, or else the text of
/// `address`.
pub fn get_name(name: Option<String>, address: &Addr) -> (resolved: String)
    ensures
        resolved@ == resolve(name, address@),
        name is None ==> resolved@ == address@,
        name is Some ==> resolved@ == name->Some_0@,
{
    match name {
        Some(n) => n,
        None => address.to_string(),
    }
}

} // verus!
