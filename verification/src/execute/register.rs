use crate::error::{ContractError, ErrorKind};
use crate::models::{BlockInfo, UserProfile};
use crate::msg::{reported, Response};
use crate::state::{allocated, init_user, init_user_id, outcome, with_user};
use crate::store::{Store, StoreState};
use crate::text::{decimal, u64_to_text};
use vstd::prelude::*;

verus! {

/// What `register` leaves in the store, and the id it gives: the sender
/// gets the next id, and the records of a new user are written under it.
/// Where no id can be given, nothing more is done.
pub open spec fn registered(
    s: StoreState,
    block: BlockInfo,
    sender: Seq<char>,
    profile: UserProfile,
) -> (StoreState, Result<u64, ErrorKind>) {
    match allocated(s, sender) {
        (after, Ok(id)) => (with_user(after, id, profile, block.time), Ok(id)),
        failed => failed,
    }
}

/// The decimal text of an id that was given.
pub open spec fn id_text(id: Result<u64, ErrorKind>) -> Result<Seq<char>, ErrorKind> {
    match id {
        Ok(n) => Ok(decimal(n as nat)),
        Err(kind) => Err(kind),
    }
}

/// Registers the sender with a profile and reports the new id.
pub fn register(store: &mut Store, block: &BlockInfo, sender: &String, profile: UserProfile) -> (r:
    Result<Response, ContractError>)
    ensures
        final(store)@ == registered(old(store)@, *block, sender@, profile).0,
        outcome(r) == reported(
            "register"@,
            "user_id"@,
            id_text(registered(old(store)@, *block, sender@, profile).1),
        ),
{
    let user_id = init_user_id(store, sender)?;
    init_user(store, user_id, &profile, block)?;
    Ok(Response::of_action("register", "user_id", u64_to_text(user_id)))
}

} // verus!
