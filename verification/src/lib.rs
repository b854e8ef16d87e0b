//! A namespaced, typed key-value store: each owner keeps named values of a
//! few primitive shapes, beside one configuration record written at
//! initialization.

pub mod contract;
pub mod error;
pub mod msg;
pub mod render;
pub mod response;
pub mod state;
pub mod store;
