use crate::error::{ContractError, ErrorKind};
use crate::models::{text, ContractMetadata, Owner, OwnerView, User};
use crate::msg::SelectResponse;
use crate::record::owner_from_record;
use crate::state::{is_user, load_user, user_readable};
use crate::store::{address_id_may_load, owner_may_load, user_count_load, Slot, Store, StoreState};
use vstd::prelude::*;

verus! {

/// The texts of a list that may be missing.
pub open spec fn field_names(fields: Option<Vec<String>>) -> Option<Seq<Seq<char>>> {
    match fields {
        Some(v) => Some(v@.map_values(|f: String| f@)),
        None => None,
    }
}

/// Whether a field is asked for: every field where no list is given, and
/// else the fields of the list.
pub open spec fn selects(fields: Option<Seq<Seq<char>>>, name: Seq<char>) -> bool {
    match fields {
        Some(names) => names.contains(name),
        None => true,
    }
}

/// The view of an owner that may be missing.
pub open spec fn owner_view(owner: Option<Owner>) -> Option<OwnerView> {
    match owner {
        Some(o) => Some(o@),
        None => None,
    }
}

/// The owner that a selection holds.
pub open spec fn selected_owner(s: StoreState, fields: Option<Seq<Seq<char>>>) -> Result<
    Option<OwnerView>,
    ErrorKind,
> {
    if !selects(fields, "owner"@) {
        Ok(None)
    } else {
        match s.owner {
            None => Ok(None),
            Some(Slot::Value(owner)) => Ok(Some(owner)),
            Some(Slot::Unreadable) => Err(ErrorKind::Std),
        }
    }
}

/// The figures that a selection holds.
pub open spec fn selected_metadata(s: StoreState, fields: Option<Seq<Seq<char>>>) -> Result<
    Option<ContractMetadata>,
    ErrorKind,
> {
    if !selects(fields, "metadata"@) {
        Ok(None)
    } else {
        match s.user_count {
            Some(Slot::Value(n_users)) => Ok(Some(ContractMetadata { n_users })),
            _ => Err(ErrorKind::Std),
        }
    }
}

/// The id of the user that a selection holds: that of the wallet, where
/// one is given and filed and every record of its user reads back.
pub open spec fn selected_user_id(
    s: StoreState,
    fields: Option<Seq<Seq<char>>>,
    wallet: Option<Seq<char>>,
) -> Result<Option<u64>, ErrorKind> {
    if !selects(fields, "user"@) {
        Ok(None)
    } else {
        match wallet {
            None => Ok(None),
            Some(addr) => match s.address_to_id.get(addr) {
                None => Ok(None),
                Some(Slot::Unreadable) => Err(ErrorKind::Std),
                Some(Slot::Value(id)) => if user_readable(s, id) {
                    Ok(Some(id))
                } else {
                    Ok(None)
                },
            },
        }
    }
}

/// Whether `user` is the user of a selection.
pub open spec fn is_selected_user(s: StoreState, id: Option<u64>, user: Option<User>) -> bool {
    match id {
        Some(id) => user matches Some(u) && is_user(s, id, u@),
        None => user is None,
    }
}

/// Whether `r` answers a selection of fields: each field that is asked
/// for is worked out by itself, the others are left out, and the first
/// record that cannot be read makes the whole an error of the store.
pub open spec fn select_answer(
    s: StoreState,
    fields: Option<Seq<Seq<char>>>,
    wallet: Option<Seq<char>>,
    r: Result<SelectResponse, ContractError>,
) -> bool {
    match (
        selected_owner(s, fields),
        selected_metadata(s, fields),
        selected_user_id(s, fields, wallet),
    ) {
        (Ok(owner), Ok(metadata), Ok(id)) => r matches Ok(response) && owner_view(response.owner)
            == owner && response.metadata == metadata && is_selected_user(s, id, response.user),
        _ => r matches Err(e) && e.kind() == ErrorKind::Std,
    }
}

/// Whether a field is asked for.
pub fn is_selected(fields: &Option<Vec<String>>, name: &str) -> (r: bool)
    ensures
        r == selects(field_names(*fields), name@),
{
    match fields {
        None => true,
        Some(names) => {
            let wanted = name.to_owned();
            let ghost texts = names@.map_values(|f: String| f@);
            let mut i: usize = 0;
            while i < names.len()
                invariant
                    i <= names.len(),
                    wanted@ == name@,
                    texts == names@.map_values(|f: String| f@),
                    field_names(*fields) == Some(texts),
                    forall|j: int| 0 <= j < i ==> #[trigger] texts[j] != name@,
                decreases names.len() - i,
            {
                if names[i] == wanted {
                    assert(texts[i as int] == name@);
                    assert(texts.contains(name@));
                    return true;
                }
                i += 1;
            }
            false
        },
    }
}

/// The fields of the registry that are asked for.
pub fn select(
    store: &Store,
    maybe_fields: Option<Vec<String>>,
    maybe_account: Option<String>,
) -> (r: Result<SelectResponse, ContractError>)
    ensures
        select_answer(store@, field_names(maybe_fields), text(maybe_account), r),
{
    let owner = if is_selected(&maybe_fields, "owner") {
        match owner_may_load(store) {
            Err(e) => {
                return Err(ContractError::Std(e));
            },
            Ok(Some(r)) => Some(owner_from_record(r)),
            Ok(None) => None,
        }
    } else {
        None
    };
    let metadata = if is_selected(&maybe_fields, "metadata") {
        match user_count_load(store) {
            Err(e) => {
                return Err(ContractError::Std(e));
            },
            Ok(n_users) => Some(ContractMetadata { n_users }),
        }
    } else {
        None
    };
    let user = if is_selected(&maybe_fields, "user") {
        match &maybe_account {
            None => None,
            Some(wallet) => match address_id_may_load(store, wallet) {
                Err(e) => {
                    return Err(ContractError::Std(e));
                },
                Ok(None) => None,
                Ok(Some(id)) => match load_user(store, id) {
                    Ok(user) => Some(user),
                    Err(_) => None,
                },
            },
        }
    } else {
        None
    };
    Ok(SelectResponse { owner, metadata, user })
}

} // verus!
