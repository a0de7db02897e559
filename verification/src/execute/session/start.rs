use crate::error::{ContractError, ErrorKind};
use crate::models::BlockInfo;
use crate::msg::{reported, Response};
use crate::state::{
    build_session_key, init_session, load_user_id, outcome, session_key, started, user_id_of,
};
use crate::store::{Store, StoreState};
use vstd::prelude::*;

verus! {

/// What `start` leaves in the store, and the key it reports: the session
/// starts under the key of the sender, its id and the seed.
pub open spec fn session_started(
    s: StoreState,
    block: BlockInfo,
    sender: Seq<char>,
    seed: Seq<char>,
) -> (StoreState, Result<Seq<char>, ErrorKind>) {
    match user_id_of(s, sender) {
        Err(kind) => (s, Err(kind)),
        Ok(id) => {
            let key = session_key(sender, id, seed);
            match started(s, block, sender, id, key) {
                (after, Ok(_)) => (after, Ok(key)),
                (after, Err(kind)) => (after, Err(kind)),
            }
        },
    }
}

/// Starts a session of the sender under a seed and reports its key.
pub fn start(store: &mut Store, block: &BlockInfo, sender: &String, seed: String) -> (r: Result<
    Response,
    ContractError,
>)
    ensures
        final(store)@ == session_started(old(store)@, *block, sender@, seed@).0,
        outcome(r) == reported(
            "session_start"@,
            "session_key"@,
            session_started(old(store)@, *block, sender@, seed@).1,
        ),
{
    let user_id = load_user_id(store, sender)?;
    let key = build_session_key(sender, user_id, &seed);
    init_session(store, block, sender, user_id, &key)?;
    Ok(Response::of_action("session_start", "session_key", key))
}

} // verus!
