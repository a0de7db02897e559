//! What the host calls: one function for each kind of call.

use crate::error::{ContractError, ErrorKind};
use crate::execute;
use crate::execute::register::{id_text, registered};
use crate::execute::session::end::session_ended;
use crate::execute::session::refresh::session_refreshed;
use crate::execute::session::start::session_started;
use crate::models::{text, BlockInfo};
use crate::msg::{
    reported, ExecuteMsg, InstantiateMsg, MigrateMsg, QueryMsg, QueryResponse, Response,
    SessionMsg,
};
use crate::query;
use crate::query::select::{field_names, select_answer};
use crate::query::session::session_answer;
use crate::state;
use crate::state::{initialized, outcome};
use crate::store::{contract_version_save, Slot, Store, StoreState};
use vstd::prelude::*;

verus! {

pub const CONTRACT_NAME: &'static str = "crates.io:cw-user";

pub const CONTRACT_VERSION: &'static str = "0.1.0";

/// What `execute` leaves in the store, and what it reports.
pub open spec fn executed(s: StoreState, block: BlockInfo, sender: Seq<char>, msg: ExecuteMsg) -> (
    StoreState,
    Result<Seq<(Seq<char>, Seq<char>)>, ErrorKind>,
) {
    match msg {
        ExecuteMsg::Register { profile } => {
            let done = registered(s, block, sender, profile);
            (done.0, reported("register"@, "user_id"@, id_text(done.1)))
        },
        ExecuteMsg::Session(SessionMsg::Start { seed }) => {
            let done = session_started(s, block, sender, seed@);
            (done.0, reported("session_start"@, "session_key"@, done.1))
        },
        ExecuteMsg::Session(SessionMsg::End { seed }) => {
            let done = session_ended(s, sender, seed@);
            (done.0, reported("session_end"@, "session_key"@, done.1))
        },
        ExecuteMsg::Session(SessionMsg::Refresh { old_seed, new_seed }) => {
            let done = session_refreshed(s, block, sender, old_seed@, new_seed@);
            (done.0, reported("session_refresh"@, "session_key"@, done.1))
        },
    }
}

/// Whether `r` answers a query.
pub open spec fn query_answer(s: StoreState, block: BlockInfo, msg: QueryMsg, r: Result<
    QueryResponse,
    ContractError,
>) -> bool {
    match msg {
        QueryMsg::Session { address, seed } => match r {
            Ok(QueryResponse::Session(found)) => session_answer(
                s,
                block.time,
                address@,
                seed@,
                Ok(found),
            ),
            Ok(_) => false,
            Err(e) => session_answer(s, block.time, address@, seed@, Err(e)),
        },
        QueryMsg::Select { fields, wallet } => match r {
            Ok(QueryResponse::Select(response)) => select_answer(
                s,
                field_names(fields),
                text(wallet),
                Ok(response),
            ),
            Ok(_) => false,
            Err(e) => select_answer(s, field_names(fields), text(wallet), Err(e)),
        },
    }
}

/// The store after `instantiate`: the contract's name and version are
/// noted, and the registry is initialized.
pub open spec fn instantiated(s: StoreState, msg: InstantiateMsg, sender: Seq<char>) -> StoreState {
    StoreState {
        contract_info: Some(Slot::Value((CONTRACT_NAME@, CONTRACT_VERSION@))),
        ..initialized(s, msg, sender)
    }
}

/// Sets the registry up: notes the contract's name and version, puts the
/// counters at zero and files the owner.
pub fn instantiate(store: &mut Store, sender: &String, msg: InstantiateMsg) -> (r: Result<
    Response,
    ContractError,
>)
    ensures
        r matches Ok(response) && response@ == seq![("action"@, "instantiate"@)],
        final(store)@ == instantiated(old(store)@, msg, sender@),
{
    if let Err(e) = contract_version_save(store, CONTRACT_NAME, CONTRACT_VERSION) {
        return Err(ContractError::Std(e));
    }
    state::initialize(store, sender, msg)?;
    Ok(Response::of_action_alone("instantiate"))
}

/// Does what a message asks for.
pub fn execute(store: &mut Store, block: &BlockInfo, sender: &String, msg: ExecuteMsg) -> (r:
    Result<Response, ContractError>)
    ensures
        (final(store)@, outcome(r)) == executed(old(store)@, *block, sender@, msg),
{
    match msg {
        ExecuteMsg::Register { profile } => execute::register(store, block, sender, profile),
        ExecuteMsg::Session(msg) => match msg {
            SessionMsg::Start { seed } => execute::session::start(store, block, sender, seed),
            SessionMsg::End { seed } => execute::session::end(store, sender, seed),
            SessionMsg::Refresh { old_seed, new_seed } => execute::session::refresh(
                store,
                block,
                sender,
                old_seed,
                new_seed,
            ),
        },
    }
}

/// Answers a query.
pub fn query(store: &Store, block: &BlockInfo, msg: QueryMsg) -> (r: Result<
    QueryResponse,
    ContractError,
>)
    ensures
        query_answer(store@, *block, msg, r),
{
    match msg {
        QueryMsg::Session { address, seed } => {
            match query::session(store, block, address, seed) {
                Ok(found) => Ok(QueryResponse::Session(found)),
                Err(e) => Err(e),
            }
        },
        QueryMsg::Select { fields, wallet } => {
            match query::select(store, fields, wallet) {
                Ok(response) => Ok(QueryResponse::Select(response)),
                Err(e) => Err(e),
            }
        },
    }
}

/// Moves the registry to a new version of the contract. There is nothing
/// to move.
pub fn migrate(msg: MigrateMsg) -> (r: Result<Response, ContractError>)
    ensures
        r matches Ok(response) && response@ == Seq::<(Seq<char>, Seq<char>)>::empty(),
{
    Ok(Response::empty())
}

} // verus!
