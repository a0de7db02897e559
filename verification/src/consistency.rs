//! The shape in which the calls keep the store, and what follows from it.

use crate::contract::executed;
use crate::error::{ContractError, ErrorKind};
use crate::execute::register::registered;
use crate::models::{BlockInfo, User, UserProfile, UserSessionView};
use crate::msg::{ExecuteMsg, InstantiateMsg, SessionMsg, UserQueryTargetView};
use crate::query::user::user_answer;
use crate::state::{
    ended, initialized, is_user, refreshed, session_key, started, user_id_of, user_readable,
};
use crate::store::{Slot, StoreState};
use vstd::prelude::*;
use vstd::utf8::{
    decode_utf8, encode_utf8, encode_utf8_decode_utf8, encode_utf8_valid_utf8, valid_utf8,
};

verus! {

/// The last id that was given, zero where none was.
pub open spec fn last_id(s: StoreState) -> u64 {
    match s.id_counter {
        Some(Slot::Value(n)) => n,
        _ => 0,
    }
}

/// Whether nothing is filed in any map of the store.
pub open spec fn blank(s: StoreState) -> bool {
    &&& s.profiles == Map::<u64, Slot<crate::models::UserProfileView>>::empty()
    &&& s.metadata == Map::<u64, Slot<crate::models::UserMetadata>>::empty()
    &&& s.session_timeouts == Map::<u64, Slot<u64>>::empty()
    &&& s.sessions == Map::<Seq<char>, Slot<UserSessionView>>::empty()
    &&& s.address_to_id == Map::<Seq<char>, Slot<u64>>::empty()
    &&& s.id_to_address == Map::<(u64, Seq<u8>), Slot<bool>>::empty()
}

/// Whether an address that is filed has an id that was given, and stands
/// in the wallet index under that id.
pub open spec fn address_is_indexed(s: StoreState, addr: Seq<char>) -> bool {
    &&& s.address_to_id[addr] matches Slot::Value(id)
    &&& 1 <= id <= last_id(s)
    &&& s.id_to_address.contains_key((id, encode_utf8(addr)))
}

/// Whether an entry of the wallet index reads back, is filed under the
/// bytes of a text, and that text is filed as an address under the same
/// id.
pub open spec fn entry_is_filed(s: StoreState, id: u64, bytes: Seq<u8>) -> bool {
    &&& s.id_to_address[(id, bytes)] is Value
    &&& valid_utf8(bytes)
    &&& s.address_to_id.contains_key(decode_utf8(bytes))
    &&& s.address_to_id[decode_utf8(bytes)] == Slot::Value(id)
}

/// Whether the records of the user `id` are there exactly where the id
/// was given, and read back.
pub open spec fn records_match_ids(s: StoreState, id: u64) -> bool {
    &&& s.profiles.contains_key(id) <==> 1 <= id <= last_id(s)
    &&& s.metadata.contains_key(id) <==> 1 <= id <= last_id(s)
    &&& s.session_timeouts.contains_key(id) <==> 1 <= id <= last_id(s)
    &&& 1 <= id <= last_id(s) ==> s.profiles[id] is Value && s.metadata[id] is Value
        && s.session_timeouts[id] is Value
}

/// Whether a session reads back and was not refreshed before it was
/// created.
pub open spec fn session_is_sound(s: StoreState, key: Seq<char>) -> bool {
    &&& s.sessions[key] matches Slot::Value(session)
    &&& session.refresh_time.nanos >= session.time.nanos
}

/// The shape in which every call that goes through leaves the store:
/// both counters read back; address and wallet index name each other;
/// the records of a user are there exactly for the ids that were given;
/// and no session was refreshed before it was created.
pub open spec fn consistent(s: StoreState) -> bool {
    &&& s.id_counter matches Some(Slot::Value(_))
    &&& s.user_count matches Some(Slot::Value(_))
    &&& forall|addr: Seq<char>| #[trigger]
        s.address_to_id.contains_key(addr) ==> address_is_indexed(s, addr)
    &&& forall|id: u64, bytes: Seq<u8>| #[trigger]
        s.id_to_address.contains_key((id, bytes)) ==> entry_is_filed(s, id, bytes)
    &&& forall|id: u64| #[trigger] records_match_ids(s, id)
    &&& forall|key: Seq<char>| #[trigger] s.sessions.contains_key(key) ==> session_is_sound(s, key)
}

/// A store in which nothing is filed is consistent once it is initialized.
pub proof fn initialized_is_consistent(s: StoreState, msg: InstantiateMsg, sender: Seq<char>)
    requires
        blank(s),
    ensures
        consistent(initialized(s, msg, sender)),
{
    let after = initialized(s, msg, sender);
    assert forall|id: u64| #[trigger] records_match_ids(after, id) by {}
}

/// The first id that is given is one: zero is where the counter starts,
/// and no address is ever filed under it.
pub proof fn first_id_is_one(
    s: StoreState,
    msg: InstantiateMsg,
    owner: Seq<char>,
    block: BlockInfo,
    sender: Seq<char>,
    profile: UserProfile,
)
    requires
        blank(s),
    ensures
        registered(initialized(s, msg, owner), block, sender, profile).1 == Ok::<u64, ErrorKind>(
            1u64,
        ),
{
    assert(!initialized(s, msg, owner).address_to_id.contains_key(sender));
}

/// A registration that goes through keeps the store consistent. The id
/// it gives is the one after the last, so it is above every id given
/// before, and no id is given twice.
pub proof fn registration_keeps_consistent(
    s: StoreState,
    block: BlockInfo,
    sender: Seq<char>,
    profile: UserProfile,
)
    requires
        consistent(s),
        registered(s, block, sender, profile).1 is Ok,
    ensures
        consistent(registered(s, block, sender, profile).0),
        registered(s, block, sender, profile).1 == Ok::<u64, ErrorKind>((last_id(s) + 1) as u64),
        last_id(registered(s, block, sender, profile).0) == last_id(s) + 1,
        forall|addr: Seq<char>| #[trigger]
            s.address_to_id.contains_key(addr) ==> s.address_to_id[addr] != Slot::Value(
                (last_id(s) + 1) as u64,
            ),
{
    let id = (last_id(s) + 1) as u64;
    let after = registered(s, block, sender, profile).0;
    encode_utf8_decode_utf8(sender);
    encode_utf8_valid_utf8(sender);
    assert forall|addr: Seq<char>| #[trigger]
        after.address_to_id.contains_key(addr) implies address_is_indexed(after, addr) by {
        if addr != sender {
            assert(s.address_to_id.contains_key(addr));
            assert(address_is_indexed(s, addr));
        }
    }
    assert forall|i: u64, bytes: Seq<u8>| #[trigger]
        after.id_to_address.contains_key((i, bytes)) implies entry_is_filed(after, i, bytes) by {
        if (i, bytes) != (id, encode_utf8(sender)) {
            assert(s.id_to_address.contains_key((i, bytes)));
            assert(entry_is_filed(s, i, bytes));
        }
    }
    assert forall|i: u64| #[trigger] records_match_ids(after, i) by {
        assert(records_match_ids(s, i));
    }
    assert forall|key: Seq<char>| #[trigger]
        after.sessions.contains_key(key) implies session_is_sound(after, key) by {
        assert(session_is_sound(s, key));
    }
    assert forall|addr: Seq<char>| #[trigger]
        s.address_to_id.contains_key(addr) implies s.address_to_id[addr] != Slot::Value(id) by {
        assert(address_is_indexed(s, addr));
    }
}

/// On a consistent store a registration goes through for every address
/// that is not filed yet, as long as the counters have room.
pub proof fn registration_is_owed(
    s: StoreState,
    block: BlockInfo,
    sender: Seq<char>,
    profile: UserProfile,
)
    requires
        consistent(s),
        !s.address_to_id.contains_key(sender),
        last_id(s) < u64::MAX,
        s.user_count != Some(Slot::Value(u32::MAX)),
    ensures
        registered(s, block, sender, profile).1 is Ok,
{
}

/// On a consistent store every record of a filed address's user reads
/// back, so that the user can be loaded.
pub proof fn filed_user_is_readable(s: StoreState, addr: Seq<char>)
    requires
        consistent(s),
        s.address_to_id.contains_key(addr),
    ensures
        s.address_to_id[addr] matches Slot::Value(id) && user_readable(s, id),
{
    assert(address_is_indexed(s, addr));
    let id = s.address_to_id[addr]->Value_0;
    assert(records_match_ids(s, id));
    assert forall|bytes: Seq<u8>| #[trigger]
        s.id_to_address.contains_key((id, bytes)) implies valid_utf8(bytes) && s.id_to_address[(
        id,
        bytes,
    )] is Value by {
        assert(entry_is_filed(s, id, bytes));
    }
}

/// On a consistent store the query for the user of a filed address goes
/// through, and answers the user of the id that the address is filed
/// under.
pub proof fn filed_address_has_a_user(s: StoreState, addr: Seq<char>, r: Result<
    User,
    ContractError,
>)
    requires
        consistent(s),
        s.address_to_id.contains_key(addr),
        user_answer(s, UserQueryTargetView::Address(addr), r),
    ensures
        r matches Ok(user) && s.address_to_id[addr] == Slot::Value(user@.id) && is_user(
            s,
            user@.id,
            user@,
        ),
{
    filed_user_is_readable(s, addr);
}

/// Starting, ending and refreshing sessions keep the store consistent.
pub proof fn sessions_keep_consistent(
    s: StoreState,
    block: BlockInfo,
    address: Seq<char>,
    user_id: u64,
    key: Seq<char>,
    new_key: Seq<char>,
)
    requires
        consistent(s),
    ensures
        consistent(started(s, block, address, user_id, key).0),
        consistent(ended(s, key)),
        consistent(refreshed(s, block, address, user_id, key, new_key).0),
{
    let a = started(s, block, address, user_id, key).0;
    let b = ended(s, key);
    let c = refreshed(s, block, address, user_id, key, new_key).0;
    let d = started(b, block, address, user_id, new_key).0;
    assert(c == s || c == d);
    assert forall|t: StoreState| (t == a || t == b || t == d) implies consistent(t) by {
        assert forall|addr: Seq<char>| #[trigger]
            t.address_to_id.contains_key(addr) implies address_is_indexed(t, addr) by {
            assert(address_is_indexed(s, addr));
        }
        assert forall|i: u64, bytes: Seq<u8>| #[trigger]
            t.id_to_address.contains_key((i, bytes)) implies entry_is_filed(t, i, bytes) by {
            assert(entry_is_filed(s, i, bytes));
        }
        assert forall|i: u64| #[trigger] records_match_ids(t, i) by {
            assert(records_match_ids(s, i));
        }
        assert forall|k: Seq<char>| #[trigger] t.sessions.contains_key(k) implies session_is_sound(
            t,
            k,
        ) by {
            if s.sessions.contains_key(k) {
                assert(session_is_sound(s, k));
            }
            if b.sessions.contains_key(k) {
                assert(s.sessions.contains_key(k));
            }
        }
    }
}

/// Whatever a call is asked to do, it keeps a consistent store
/// consistent.
pub proof fn calls_keep_consistent(
    s: StoreState,
    block: BlockInfo,
    sender: Seq<char>,
    msg: ExecuteMsg,
)
    requires
        consistent(s),
    ensures
        consistent(executed(s, block, sender, msg).0),
{
    match msg {
        ExecuteMsg::Register { profile } => {
            if registered(s, block, sender, profile).1 is Ok {
                registration_keeps_consistent(s, block, sender, profile);
            }
        },
        ExecuteMsg::Session(SessionMsg::Start { seed }) => {
            match user_id_of(s, sender) {
                Ok(id) => {
                    let key = session_key(sender, id, seed@);
                    sessions_keep_consistent(s, block, sender, id, key, key);
                },
                Err(_) => {},
            }
        },
        ExecuteMsg::Session(SessionMsg::End { seed }) => {
            match user_id_of(s, sender) {
                Ok(id) => {
                    let key = session_key(sender, id, seed@);
                    sessions_keep_consistent(s, block, sender, id, key, key);
                },
                Err(_) => {},
            }
        },
        ExecuteMsg::Session(SessionMsg::Refresh { old_seed, new_seed }) => {
            match user_id_of(s, sender) {
                Ok(id) => {
                    sessions_keep_consistent(
                        s,
                        block,
                        sender,
                        id,
                        session_key(sender, id, old_seed@),
                        session_key(sender, id, new_seed@),
                    );
                },
                Err(_) => {},
            }
        },
    }
}

} // verus!
