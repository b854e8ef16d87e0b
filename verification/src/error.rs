//! The errors that the store and its request handlers report.

use vstd::prelude::*;

verus! {

/// Why a request, or a typed read of a value, was refused.
#[derive(Debug, PartialEq, Eq)]
pub enum ContractError {
    /// No entry, or no configuration record, is stored under the key.
    NotFound,
    /// An entry is already stored under the key and the store only adds.
    AlreadyExists,
    /// A typed read met another variant than the one it asked for.
    TypeMismatch { target_type: String, msg: String },
    /// A list that holds a list.
    InvalidValue,
    /// Reserved: ownership is part of the key, so no request is refused by it.
    Unauthorized,
}

/// The message of a type mismatch that expected `target`.
pub open spec fn mismatch_message(target: Seq<char>) -> Seq<char> {
    "Primitive is not a "@ + target
}

impl ContractError {
    /// `self` is the type mismatch that names `target` as the expected type.
    pub open spec fn is_type_mismatch(self, target: Seq<char>) -> bool {
        match self {
            ContractError::TypeMismatch { target_type, msg } => {
                target_type@ == target && msg@ == mismatch_message(target)
            },
            _ => false,
        }
    }
}

} // verus!
