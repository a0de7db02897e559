//! What holds of the registry whatever the store holds, stated over the
//! same functions as the contracts of the calls.

use crate::contract::executed;
use crate::digest::{hex_upper_injective, sha512};
use crate::error::{ContractError, ErrorKind};
use crate::execute::register::registered;
use crate::models::{BlockInfo, Timestamp, User, UserProfile, UserSessionView};
use crate::msg::{ExecuteMsg, UserQueryTargetView};
use crate::query::user::user_answer;
use crate::state::{
    ended, is_user, refreshed, session_key, session_key_preimage, started, started_session,
    user_id_of, valid_session,
};
use crate::store::{wallets_listed, Slot, StoreState};
use vstd::bytes::{lemma_auto_spec_u64_to_from_le_bytes, spec_u64_to_le_bytes};
use vstd::prelude::*;
use vstd::utf8::{encode_utf8, encode_utf8_decode_utf8};

verus! {

/// A call that is turned down leaves every record of the store as it
/// was, whatever it was asked to do.
pub proof fn refusal_changes_nothing(
    s: StoreState,
    block: BlockInfo,
    sender: Seq<char>,
    msg: ExecuteMsg,
)
    requires
        executed(s, block, sender, msg).1 is Err,
    ensures
        executed(s, block, sender, msg).0 == s,
{
}

/// An address registers once. Where a registration has gone through, a
/// second one of the same address is turned down as `UserExists` whatever
/// profile and block it comes with, and it leaves the store as the first
/// one left it: the address keeps its id, and the id its profile.
pub proof fn register_twice_is_refused(
    s: StoreState,
    first_block: BlockInfo,
    second_block: BlockInfo,
    address: Seq<char>,
    first_profile: UserProfile,
    second_profile: UserProfile,
)
    requires
        registered(s, first_block, address, first_profile).1 is Ok,
    ensures
        ({
            let (after, id) = registered(s, first_block, address, first_profile);
            let (again, refusal) = registered(after, second_block, address, second_profile);
            &&& refusal == Err::<u64, ErrorKind>(ErrorKind::UserExists)
            &&& again == after
            &&& user_id_of(again, address) == id
            &&& again.profiles[id->Ok_0] == Slot::Value(first_profile@)
        }),
{
}

/// Two session keys are the same exactly where the digests of what they
/// were derived from are the same.
pub proof fn session_keys_differ_as_digests_do(
    addr1: Seq<char>,
    id1: u64,
    seed1: Seq<char>,
    addr2: Seq<char>,
    id2: u64,
    seed2: Seq<char>,
)
    ensures
        session_key(addr1, id1, seed1) == session_key(addr2, id2, seed2) <==> sha512(
            session_key_preimage(addr1, id1, seed1),
        ) == sha512(session_key_preimage(addr2, id2, seed2)),
{
    if session_key(addr1, id1, seed1) == session_key(addr2, id2, seed2) {
        hex_upper_injective(
            sha512(session_key_preimage(addr1, id1, seed1)),
            sha512(session_key_preimage(addr2, id2, seed2)),
        );
    }
}

/// Changing one of address, user id and seed changes the bytes that are
/// digested: another id does whatever the texts are, and another address
/// or another seed does where the other two stay.
pub proof fn session_key_preimage_tells_inputs_apart(
    addr1: Seq<char>,
    id1: u64,
    seed1: Seq<char>,
    addr2: Seq<char>,
    id2: u64,
    seed2: Seq<char>,
)
    ensures
        id1 != id2 ==> session_key_preimage(addr1, id1, seed1) != session_key_preimage(
            addr2,
            id2,
            seed2,
        ),
        addr1 != addr2 ==> session_key_preimage(addr1, id1, seed1) != session_key_preimage(
            addr2,
            id1,
            seed1,
        ),
        seed1 != seed2 ==> session_key_preimage(addr1, id1, seed1) != session_key_preimage(
            addr1,
            id1,
            seed2,
        ),
{
    lemma_auto_spec_u64_to_from_le_bytes();
    let i1 = spec_u64_to_le_bytes(id1);
    let i2 = spec_u64_to_le_bytes(id2);
    let a1 = encode_utf8(addr1);
    let a2 = encode_utf8(addr2);
    let s1 = encode_utf8(seed1);
    let s2 = encode_utf8(seed2);
    encode_utf8_decode_utf8(addr1);
    encode_utf8_decode_utf8(addr2);
    encode_utf8_decode_utf8(seed1);
    encode_utf8_decode_utf8(seed2);
    if id1 != id2 && i1 + a1 + s1 == i2 + a2 + s2 {
        assert((i1 + a1 + s1).subrange(0, 8) =~= i1);
        assert((i2 + a2 + s2).subrange(0, 8) =~= i2);
    }
    if addr1 != addr2 && i1 + a1 + s1 == i1 + a2 + s1 {
        let n = (i1 + a1 + s1).len();
        assert(a1.len() == a2.len());
        assert((i1 + a1 + s1).subrange(8, 8 + a1.len() as int) =~= a1);
        assert((i1 + a2 + s1).subrange(8, 8 + a2.len() as int) =~= a2);
    }
    if seed1 != seed2 && i1 + a1 + s1 == i1 + a1 + s2 {
        let n = (i1 + a1 + s1).len();
        assert(s1.len() == s2.len());
        assert((i1 + a1 + s1).subrange(8 + a1.len() as int, n as int) =~= s1);
        assert((i1 + a1 + s2).subrange(8 + a1.len() as int, n as int) =~= s2);
    }
}

/// A key holds one session at a time. Where a session has started under
/// a key, another start under that key is turned down as `NotAuthorized`
/// and changes nothing; once the key was ended, a start under it goes
/// through again.
pub proof fn session_key_is_taken_until_ended(
    s: StoreState,
    key: Seq<char>,
    first_block: BlockInfo,
    first_address: Seq<char>,
    first_id: u64,
    second_block: BlockInfo,
    second_address: Seq<char>,
    second_id: u64,
)
    requires
        started(s, first_block, first_address, first_id, key).1 is Ok,
    ensures
        ({
            let after = started(s, first_block, first_address, first_id, key).0;
            &&& started(after, second_block, second_address, second_id, key) == (
                after,
                Err::<UserSessionView, ErrorKind>(ErrorKind::NotAuthorized),
            )
            &&& started(ended(after, key), second_block, second_address, second_id, key).1 == Ok::<
                UserSessionView,
                ErrorKind,
            >(started_session(second_block, second_address, second_id))
        }),
{
}

/// A session lasts up to and including the last second of its timeout.
/// Where it was refreshed in second `T` and its user's timeout is `S`
/// seconds, it is valid in second `T + S` and has run out in second
/// `T + S + 1`.
pub proof fn session_runs_out_after_the_timeout(
    s: StoreState,
    key: Seq<char>,
    user_id: u64,
    session: UserSessionView,
    timeout: u64,
    now: Timestamp,
)
    requires
        s.sessions.contains_key(key),
        s.sessions[key] == Slot::Value(session),
        s.session_timeouts.contains_key(user_id),
        s.session_timeouts[user_id] == Slot::Value(timeout),
    ensures
        now.seconds() == session.refresh_time.seconds() + timeout ==> valid_session(
            s,
            now,
            user_id,
            key,
        ) == Ok::<UserSessionView, ErrorKind>(session),
        now.seconds() == session.refresh_time.seconds() + timeout + 1 ==> valid_session(
            s,
            now,
            user_id,
            key,
        ) == Err::<UserSessionView, ErrorKind>(ErrorKind::SessionExpired),
        valid_session(s, now, user_id, key) is Ok <==> now.seconds()
            <= session.refresh_time.seconds() + timeout,
{
}

/// A refresh moves the session. Where it goes through from one key to
/// another, nothing lies under the old key afterwards, and under the new
/// key lies the session that the call answers, which bears the block of
/// the refresh as its time and height of refresh.
pub proof fn refresh_moves_the_session(
    s: StoreState,
    block: BlockInfo,
    address: Seq<char>,
    user_id: u64,
    old_key: Seq<char>,
    new_key: Seq<char>,
)
    requires
        old_key != new_key,
        refreshed(s, block, address, user_id, old_key, new_key).1 is Ok,
    ensures
        ({
            let (after, session) = refreshed(s, block, address, user_id, old_key, new_key);
            &&& !after.sessions.contains_key(old_key)
            &&& after.sessions.contains_key(new_key)
            &&& after.sessions[new_key] == Slot::Value(session->Ok_0)
            &&& session->Ok_0.refresh_time == block.time
            &&& session->Ok_0.refresh_height == block.height
            &&& forall|key: Seq<char>|
                key != old_key && key != new_key ==> after.sessions.contains_key(key)
                    == s.sessions.contains_key(key) && after.sessions[key] == s.sessions[key]
        }),
{
    let (after, session) = refreshed(s, block, address, user_id, old_key, new_key);
    assert(after.sessions == ended(s, old_key).sessions.insert(
        new_key,
        Slot::Value(session->Ok_0),
    ));
}

/// A refresh within the block in which the session started leaves its
/// time of creation as it was.
pub proof fn refresh_within_the_block_keeps_the_time(
    s: StoreState,
    block: BlockInfo,
    address: Seq<char>,
    user_id: u64,
    old_key: Seq<char>,
    new_key: Seq<char>,
    session: UserSessionView,
)
    requires
        s.sessions.contains_key(old_key),
        s.sessions[old_key] == Slot::Value(session),
        session.time == block.time,
        refreshed(s, block, address, user_id, old_key, new_key).1 is Ok,
    ensures
        refreshed(s, block, address, user_id, old_key, new_key).1->Ok_0.time == session.time,
{
}

/// A refresh onto a key that is taken changes nothing. Where a session
/// lies under another key than the old one, a refresh onto that key is
/// turned down, and every session, the one under the old key too, stays
/// as it was.
pub proof fn refresh_onto_a_taken_key_changes_nothing(
    s: StoreState,
    block: BlockInfo,
    address: Seq<char>,
    user_id: u64,
    old_key: Seq<char>,
    new_key: Seq<char>,
)
    requires
        old_key != new_key,
        s.sessions.contains_key(new_key),
    ensures
        refreshed(s, block, address, user_id, old_key, new_key).0 == s,
        refreshed(s, block, address, user_id, old_key, new_key).1 is Err,
        valid_session(s, block.time, user_id, old_key) is Ok && s.sessions[new_key] is Value
            ==> refreshed(s, block, address, user_id, old_key, new_key).1 == Err::<
            UserSessionView,
            ErrorKind,
        >(ErrorKind::NotAuthorized),
{
}

/// An address that is not filed has no user: the query for it answers
/// `UserNotFound`.
pub proof fn unknown_address_has_no_user(s: StoreState, address: Seq<char>, r: Result<
    User,
    ContractError,
>)
    requires
        !s.address_to_id.contains_key(address),
        user_answer(s, UserQueryTargetView::Address(address), r),
    ensures
        r matches Err(e) && e.kind() == ErrorKind::UserNotFound,
{
}

/// The wallets of a user are the addresses of the wallet index, no more
/// and no fewer: an address is among the wallets that the query answers
/// exactly where the index holds it under the user's id.
pub proof fn wallets_are_those_of_the_index(
    s: StoreState,
    address: Seq<char>,
    id: u64,
    r: Result<User, ContractError>,
    wallet: Seq<char>,
)
    requires
        s.address_to_id.contains_key(address),
        s.address_to_id[address] == Slot::Value(id),
        user_answer(s, UserQueryTargetView::Address(address), r),
        r is Ok,
    ensures
        r->Ok_0@.id == id,
        r->Ok_0@.wallets.contains(wallet) <==> s.id_to_address.contains_key(
            (id, encode_utf8(wallet)),
        ),
        wallets_listed(s, id, r->Ok_0@.wallets),
{
    let wallets = r->Ok_0@.wallets;
    assert(is_user(s, id, r->Ok_0@));
    if s.id_to_address.contains_key((id, encode_utf8(wallet))) {
        let i = choose|i: int| 0 <= i < wallets.len() && encode_utf8(#[trigger] wallets[i])
            == encode_utf8(wallet);
        encode_utf8_decode_utf8(wallets[i]);
        encode_utf8_decode_utf8(wallet);
        assert(wallets[i] == wallet);
    }
    if wallets.contains(wallet) {
        let i = choose|i: int| 0 <= i < wallets.len() && wallets[i] == wallet;
        assert(s.id_to_address.contains_key((id, encode_utf8(wallets[i]))));
    }
}

} // verus!
