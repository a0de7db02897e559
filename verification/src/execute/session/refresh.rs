use crate::error::{ContractError, ErrorKind};
use crate::models::BlockInfo;
use crate::msg::{reported, Response};
use crate::state::{
    build_session_key, load_user_id, outcome, refresh_session, refreshed, session_key, user_id_of,
};
use crate::store::{Store, StoreState};
use vstd::prelude::*;

verus! {

/// What `refresh` leaves in the store, and the key it reports: the
/// session under the key of the old seed gives way to one under the key
/// of the new seed.
pub open spec fn session_refreshed(
    s: StoreState,
    block: BlockInfo,
    sender: Seq<char>,
    old_seed: Seq<char>,
    new_seed: Seq<char>,
) -> (StoreState, Result<Seq<char>, ErrorKind>) {
    match user_id_of(s, sender) {
        Err(kind) => (s, Err(kind)),
        Ok(id) => {
            let old_key = session_key(sender, id, old_seed);
            let new_key = session_key(sender, id, new_seed);
            match refreshed(s, block, sender, id, old_key, new_key) {
                (after, Ok(_)) => (after, Ok(new_key)),
                (after, Err(kind)) => (after, Err(kind)),
            }
        },
    }
}

/// Moves the session of the sender from one seed to another and reports
/// the new key.
pub fn refresh(
    store: &mut Store,
    block: &BlockInfo,
    sender: &String,
    old_seed: String,
    new_seed: String,
) -> (r: Result<Response, ContractError>)
    ensures
        final(store)@ == session_refreshed(old(store)@, *block, sender@, old_seed@, new_seed@).0,
        outcome(r) == reported(
            "session_refresh"@,
            "session_key"@,
            session_refreshed(old(store)@, *block, sender@, old_seed@, new_seed@).1,
        ),
{
    let user_id = load_user_id(store, sender)?;
    let old_key = build_session_key(sender, user_id, &old_seed);
    let new_key = build_session_key(sender, user_id, &new_seed);
    refresh_session(store, block, sender, user_id, &old_key, &new_key)?;
    Ok(Response::of_action("session_refresh", "session_key", new_key))
}

} // verus!
