use crate::error::{ContractError, ErrorKind};
use crate::msg::{reported, Response};
use crate::state::{
    build_session_key, end_session, ended, load_user_id, outcome, session_key, user_id_of,
};
use crate::store::{Store, StoreState};
use vstd::prelude::*;

verus! {

/// What `end` leaves in the store, and the key it reports: nothing lies
/// under the key of the sender, its id and the seed any more.
pub open spec fn session_ended(s: StoreState, sender: Seq<char>, seed: Seq<char>) -> (
    StoreState,
    Result<Seq<char>, ErrorKind>,
) {
    match user_id_of(s, sender) {
        Err(kind) => (s, Err(kind)),
        Ok(id) => {
            let key = session_key(sender, id, seed);
            (ended(s, key), Ok(key))
        },
    }
}

/// Ends the session of the sender under a seed, if there is one, and
/// reports its key.
pub fn end(store: &mut Store, sender: &String, seed: String) -> (r: Result<Response, ContractError>)
    ensures
        final(store)@ == session_ended(old(store)@, sender@, seed@).0,
        outcome(r) == reported(
            "session_end"@,
            "session_key"@,
            session_ended(old(store)@, sender@, seed@).1,
        ),
{
    let user_id = load_user_id(store, sender)?;
    let key = build_session_key(sender, user_id, &seed);
    end_session(store, &key)?;
    Ok(Response::of_action("session_end", "session_key", key))
}

} // verus!
