//! The requests that the handlers take and the answers that queries give.

use vstd::prelude::*;
use crate::state::Addr;
use crate::state::Primitive;

verus! {

/// Who sent a request.
#[derive(Debug, PartialEq)]
pub struct MessageInfo {
    pub sender: Addr,
}

impl Clone for MessageInfo {
    fn clone(&self) -> (copy: MessageInfo)
        ensures
            copy.sender@ == self.sender@,
    {
        MessageInfo { sender: self.sender.clone() }
    }
}

/// Initialization takes no payload.
#[derive(Debug, PartialEq)]
pub struct InstantiateMsg {}

impl Clone for InstantiateMsg {
    fn clone(&self) -> (copy: InstantiateMsg) {
        InstantiateMsg {  }
    }
}

/// The commands, which change what is stored.
#[derive(Debug, PartialEq)]
pub enum ExecuteMsg {
    /// Stores a value. Without a name, the sender's own text is the name:
    /// each sender has one entry at hand without inventing a name for it.
    SetValue { name: Option<String>, value: Primitive },
    /// Deletes an entry. Without a name, the sender's own text is the name.
    DeleteValue { name: Option<String> },
}

/// The queries, which only read.
#[derive(Debug, PartialEq)]
pub enum QueryMsg {
    Config {},
    /// Reads an entry of `address`. Without a name, the text of `address`
    /// is the name.
    GetValue { address: Addr, name: Option<String> },
}

/// The answer to `QueryMsg::GetValue`.
#[derive(Debug, PartialEq)]
pub struct GetValueResponse {
    pub name: String,
    pub value: Primitive,
}

/// The answer to `QueryMsg::Config`.
#[derive(Debug, PartialEq)]
pub struct ConfigResponse {
    pub owner: Addr,
}

/// The answer to a query, by the kind of the query.
#[derive(Debug, PartialEq)]
pub enum QueryResponse {
    Config(ConfigResponse),
    Value(GetValueResponse),
}

} // verus!
