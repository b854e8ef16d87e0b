//! The response of a request handler: `cosmwasm_std::Response`, filled
//! through trusted contracts.

use vstd::prelude::*;
use cosmwasm_std::Response;

verus! {

/// `cosmwasm_std::Response`, opaque to the verifier.
#[verifier::external_type_specification]
#[verifier::external_body]
#[verifier::reject_recursive_types(T)]
pub struct ExResponse<T>(cosmwasm_std::Response<T>);

/// `cosmwasm_std::Empty`, the placeholder for a response's custom message.
#[verifier::external_type_specification]
#[verifier::external_body]
pub struct ExEmpty(cosmwasm_std::Empty);

/// The attributes of a response, as pairs of key and value, in the order
/// in which they were added.
pub uninterp spec fn response_attributes(response: Response) -> Seq<(Seq<char>, Seq<char>)>;

/// The number of messages that a response asks to dispatch.
pub uninterp spec fn response_messages(response: Response) -> nat;

/// `Response::new`: a response without attributes and without messages.
#[verifier::external_body]
pub(crate) fn new_response() -> (response: Response)
    ensures
        response_attributes(response) == Seq::<(Seq<char>, Seq<char>)>::empty(),
        response_messages(response) == 0,
{
    Response::new()
}

/// `Response::add_attribute`: appends the pair of `key` and `value` to the
/// attributes and leaves the messages as they are. A key that starts with
/// an underscore is reserved, and the call panics on it in a debug build.
#[verifier::external_body]
pub(crate) fn add_attribute(response: Response, key: &str, value: &str) -> (extended: Response)
    requires
        key@.len() > 0 ==> key@[0] != '_',
    ensures
        response_attributes(extended) == response_attributes(response).push((key@, value@)),
        response_messages(extended) == response_messages(response),
{
    response.add_attribute(key, value)
}

} // verus!
