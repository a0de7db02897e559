//! An on-ledger registry of user profiles and short-lived sessions.
//!
//! Every address may register one profile and receives a numeric id. A
//! registered address may then open, refresh and close sessions, each
//! filed under a key derived from the address, its id and a seed that the
//! caller picks. All state lives in a key-value store that the host hands
//! in for the length of one call.
//!
//! - `store` is the host's store and what is taken for granted of it;
//!   `record` holds the shapes in which values are stored.
//! - `state` holds the ids, the sessions and the question of who may act
//!   as the owner; `execute`, `query` and `contract` put them together
//!   into the calls that the host makes.
//! - `laws`, `consistency` and `order` state what holds of every store and
//!   of every call.
//!
//! The contracts speak of a store through its view, the records that it
//! holds, and of a call through the store before it and the store after
//! it. A call that is turned down leaves the store as it was.

pub mod consistency;
pub mod contract;
pub mod digest;
pub mod error;
pub mod execute;
pub mod laws;
pub mod models;
pub mod msg;
pub mod order;
pub mod query;
pub mod record;
pub mod state;
pub mod store;
pub mod text;
