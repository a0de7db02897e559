use crate::error::{ContractError, ErrorKind};
use crate::models::User;
use crate::msg::{UserQueryTarget, UserQueryTargetView};
use crate::state::{is_user, load_user, load_user_id, user_id_of, user_readable};
use crate::store::{Store, StoreState};
use vstd::prelude::*;

verus! {

/// The id that a target names: itself, or the one filed under its address.
pub open spec fn target_id(s: StoreState, target: UserQueryTargetView) -> Result<u64, ErrorKind> {
    match target {
        UserQueryTargetView::Id(id) => Ok(id),
        UserQueryTargetView::Address(addr) => user_id_of(s, addr),
    }
}

/// Whether `r` answers the query for a user: the user of the id that the
/// target names, an error of the store where a record of that user is
/// missing or cannot be read.
pub open spec fn user_answer(s: StoreState, target: UserQueryTargetView, r: Result<
    User,
    ContractError,
>) -> bool {
    match target_id(s, target) {
        Err(kind) => r matches Err(e) && e.kind() == kind,
        Ok(id) => if user_readable(s, id) {
            r matches Ok(user) && is_user(s, id, user@)
        } else {
            r matches Err(e) && e.kind() == ErrorKind::Std
        },
    }
}

/// All that is known of the user that a target names.
pub fn user(store: &Store, target: UserQueryTarget) -> (r: Result<User, ContractError>)
    ensures
        user_answer(store@, target@, r),
{
    match target {
        UserQueryTarget::Id(id) => load_user(store, id),
        UserQueryTarget::Address(addr) => {
            let id = load_user_id(store, &addr)?;
            load_user(store, id)
        },
    }
}

} // verus!
