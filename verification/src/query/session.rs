use crate::error::ContractError;
use crate::models::{BlockInfo, Timestamp, UserSession, UserSessionView};
use crate::state::{
    build_session_key, load_user_id, require_valid_session, session_key, user_id_of, valid_session,
};
use crate::store::{Store, StoreState};
use vstd::prelude::*;

verus! {

/// The view of a session that may be missing.
pub open spec fn session_view(session: Option<UserSession>) -> Option<UserSessionView> {
    match session {
        Some(s) => Some(s@),
        None => None,
    }
}

/// Whether `r` answers the query for the session of an address under a
/// seed: an address that is not filed is an error; a session that is
/// missing, cannot be read or has run out is `None`, and no error.
pub open spec fn session_answer(
    s: StoreState,
    now: Timestamp,
    address: Seq<char>,
    seed: Seq<char>,
    r: Result<Option<UserSession>, ContractError>,
) -> bool {
    match user_id_of(s, address) {
        Err(kind) => r matches Err(e) && e.kind() == kind,
        Ok(id) => r matches Ok(found) && session_view(found) == (match valid_session(
            s,
            now,
            id,
            session_key(address, id, seed),
        ) {
            Ok(session) => Some(session),
            Err(_) => None,
        }),
    }
}

/// The valid session of an address under a seed, if there is one.
pub fn session(store: &Store, block: &BlockInfo, address: String, seed: String) -> (r: Result<
    Option<UserSession>,
    ContractError,
>)
    ensures
        session_answer(store@, block.time, address@, seed@, r),
{
    let user_id = load_user_id(store, &address)?;
    let key = build_session_key(&address, user_id, &seed);
    match require_valid_session(store, block, user_id, &key) {
        Ok(session) => Ok(Some(session)),
        Err(_) => Ok(None),
    }
}

} // verus!
