use crate::digest::{hex_encode_upper, hex_upper, sha512, sha512_digest};
use crate::error::{add_overflow, ContractError, ErrorKind};
use crate::models::{
    texts, BlockInfo, Owner, OwnerView, Timestamp, User, UserConfig, UserMetadata, UserProfile,
    UserSession, UserSessionView, UserView,
};
use crate::msg::InstantiateMsg;
use crate::record::{
    metadata_from_record, metadata_to_record, owner_from_record, owner_to_record,
    profile_from_record, profile_to_record, session_from_record, session_to_record,
};
use crate::store::{
    address_id_has, address_id_may_load, address_id_save, id_counter_load, id_counter_save,
    metadata_load, metadata_save, owner_load, owner_save, profile_load, profile_save, readable,
    session_may_load, session_remove, session_save, session_timeout_load, session_timeout_save,
    user_count_load, user_count_save, wallet_keys, wallet_save, wallets_listed, wallets_readable,
    Slot, Store, StoreState,
};
use cosmwasm_std::StdError;
use vstd::bytes::{spec_u64_to_le_bytes, u64_to_le_bytes};
use vstd::prelude::*;
use vstd::string::StrSliceExecFns;
use vstd::utf8::encode_utf8;

verus! {

pub const DEFAULT_SESSION_TIMEOUT_SECONDS: u64 = 60 * 60 * 48;

/// What a call returned, with values by their view and errors by their kind.
pub open spec fn outcome<T: View>(r: Result<T, ContractError>) -> Result<T::V, ErrorKind> {
    match r {
        Ok(v) => Ok(v@),
        Err(e) => Err(e.kind()),
    }
}

/// Whether a session that was last refreshed at `refreshed` has run out at
/// `now`: it has once the second of `now` lies more than `timeout` seconds
/// after the second of the refresh.
pub open spec fn expired(now: Timestamp, refreshed: Timestamp, timeout: u64) -> bool {
    now.seconds() > refreshed.seconds() + timeout
}

/// The bytes that a session key is the digest of: the user id in eight
/// bytes, lowest first, then the address, then the seed.
pub open spec fn session_key_preimage(addr: Seq<char>, user_id: u64, seed: Seq<char>) -> Seq<u8> {
    spec_u64_to_le_bytes(user_id) + encode_utf8(addr) + encode_utf8(seed)
}

/// The key under which the session of an address, a user id and a seed is
/// filed: the SHA-512 digest of their bytes in upper-case hexadecimal.
pub open spec fn session_key(addr: Seq<char>, user_id: u64, seed: Seq<char>) -> Seq<char> {
    hex_upper(sha512(session_key_preimage(addr, user_id, seed)))
}

/// The session that starts in `block` for `address` and `user_id`.
pub open spec fn started_session(block: BlockInfo, address: Seq<char>, user_id: u64)
    -> UserSessionView {
    UserSessionView {
        user_id,
        address,
        time: block.time,
        height: block.height,
        refresh_time: block.time,
        refresh_height: block.height,
    }
}

/// What `init_session` leaves in the store, and what it answers: a key
/// under which anything lies is taken.
pub open spec fn started(
    s: StoreState,
    block: BlockInfo,
    address: Seq<char>,
    user_id: u64,
    key: Seq<char>,
) -> (StoreState, Result<UserSessionView, ErrorKind>) {
    match s.sessions.get(key) {
        Some(Slot::Unreadable) => (s, Err(ErrorKind::Std)),
        Some(Slot::Value(_)) => (s, Err(ErrorKind::NotAuthorized)),
        None => {
            let session = started_session(block, address, user_id);
            (
                StoreState { sessions: s.sessions.insert(key, Slot::Value(session)), ..s },
                Ok(session),
            )
        },
    }
}

/// The store without what lay under a session key.
pub open spec fn ended(s: StoreState, key: Seq<char>) -> StoreState {
    StoreState { sessions: s.sessions.remove(key), ..s }
}

/// What `refresh_session` leaves in the store, and what it answers. The
/// session under the old key must be valid, and the new key free unless
/// it is the old one. Then the old session goes and one that starts in
/// `block` is filed under the new key. Otherwise nothing changes.
pub open spec fn refreshed(
    s: StoreState,
    block: BlockInfo,
    address: Seq<char>,
    user_id: u64,
    old_key: Seq<char>,
    new_key: Seq<char>,
) -> (StoreState, Result<UserSessionView, ErrorKind>) {
    match valid_session(s, block.time, user_id, old_key) {
        Err(kind) => (s, Err(kind)),
        Ok(_) => match started(ended(s, old_key), block, address, user_id, new_key) {
            (_, Err(kind)) => (s, Err(kind)),
            done => done,
        },
    }
}

/// What `require_valid_session` answers on a store.
pub open spec fn valid_session(s: StoreState, now: Timestamp, user_id: u64, key: Seq<char>)
    -> Result<UserSessionView, ErrorKind> {
    if !s.sessions.contains_key(key) {
        Err(ErrorKind::SessionNotFound)
    } else {
        match s.sessions[key] {
            Slot::Unreadable => Err(ErrorKind::Std),
            Slot::Value(session) => match s.session_timeouts.get(user_id) {
                Some(Slot::Value(timeout)) => if expired(now, session.refresh_time, timeout) {
                    Err(ErrorKind::SessionExpired)
                } else {
                    Ok(session)
                },
                _ => Err(ErrorKind::Std),
            },
        }
    }
}

/// What is left to do before a caller is let through as the owner.
#[derive(Clone, Debug, PartialEq, Eq)]
pub enum Clearance {
    /// Nothing: the caller is the owner.
    Granted,
    /// The access-control service at `acl` has to say whether `principal`
    /// may do `action`; `conclude_is_allowed` takes its answer.
    Delegated { acl: String, principal: String, action: String },
}

pub enum ClearanceView {
    Granted,
    Delegated { acl: Seq<char>, principal: Seq<char>, action: Seq<char> },
}

impl View for Clearance {
    type V = ClearanceView;

    open spec fn view(&self) -> ClearanceView {
        match *self {
            Clearance::Granted => ClearanceView::Granted,
            Clearance::Delegated { acl, principal, action } => ClearanceView::Delegated {
                acl: acl@,
                principal: principal@,
                action: action@,
            },
        }
    }
}

/// What `require_is_allowed` answers on a store: an owner by address lets
/// itself through and nobody else; an owner by delegation leaves the
/// answer to its access-control service.
pub open spec fn clearance(s: StoreState, principal: Seq<char>, action: Seq<char>) -> Result<
    ClearanceView,
    ErrorKind,
> {
    match s.owner {
        Some(Slot::Value(OwnerView::Address(addr))) => if principal == addr {
            Ok(ClearanceView::Granted)
        } else {
            Err(ErrorKind::NotAuthorized)
        },
        Some(Slot::Value(OwnerView::Acl(acl))) => Ok(
            ClearanceView::Delegated { acl, principal, action },
        ),
        _ => Err(ErrorKind::Std),
    }
}

/// The owner that `initialize` files: the one that the message names, and
/// the sender where it names none.
pub open spec fn first_owner(msg: InstantiateMsg, sender: Seq<char>) -> OwnerView {
    match msg.owner {
        Some(owner) => owner@,
        None => OwnerView::Address(sender),
    }
}

/// The store after `initialize`: both counters at zero, and the owner filed.
pub open spec fn initialized(s: StoreState, msg: InstantiateMsg, sender: Seq<char>) -> StoreState {
    StoreState {
        id_counter: Some(Slot::Value(0u64)),
        user_count: Some(Slot::Value(0u32)),
        owner: Some(Slot::Value(first_owner(msg, sender))),
        ..s
    }
}

/// What `load_user_id` answers on a store.
pub open spec fn user_id_of(s: StoreState, addr: Seq<char>) -> Result<u64, ErrorKind> {
    match s.address_to_id.get(addr) {
        None => Err(ErrorKind::UserNotFound),
        Some(Slot::Unreadable) => Err(ErrorKind::Std),
        Some(Slot::Value(id)) => Ok(id),
    }
}

/// The store after `addr` was given the id `id` as the `count`-th user:
/// the counter stands at the id, the address is filed under it both
/// ways, and the user count stands at `count`.
pub open spec fn filed(s: StoreState, addr: Seq<char>, id: u64, count: u32) -> StoreState {
    StoreState {
        id_counter: Some(Slot::Value(id)),
        address_to_id: s.address_to_id.insert(addr, Slot::Value(id)),
        id_to_address: s.id_to_address.insert((id, encode_utf8(addr)), Slot::Value(true)),
        user_count: Some(Slot::Value(count)),
        ..s
    }
}

/// What `init_user_id` leaves in the store, and what it answers. An
/// address that is filed already is turned down as `UserExists`. A
/// counter or a count that cannot be read, or that has no room left, is
/// an error of the store. Either way nothing is changed. Otherwise the
/// address gets the id after the last one.
pub open spec fn allocated(s: StoreState, addr: Seq<char>) -> (StoreState, Result<u64, ErrorKind>) {
    if s.address_to_id.contains_key(addr) {
        (s, Err(ErrorKind::UserExists))
    } else {
        match (s.id_counter, s.user_count) {
            (Some(Slot::Value(n)), Some(Slot::Value(c))) => if n < u64::MAX && c < u32::MAX {
                (filed(s, addr, (n + 1) as u64, (c + 1) as u32), Ok((n + 1) as u64))
            } else {
                (s, Err(ErrorKind::Std))
            },
            _ => (s, Err(ErrorKind::Std)),
        }
    }
}

/// The store after the records of a new user were written.
pub open spec fn with_user(s: StoreState, id: u64, profile: UserProfile, now: Timestamp)
    -> StoreState {
    StoreState {
        profiles: s.profiles.insert(id, Slot::Value(profile@)),
        session_timeouts: s.session_timeouts.insert(
            id,
            Slot::Value(DEFAULT_SESSION_TIMEOUT_SECONDS),
        ),
        metadata: s.metadata.insert(
            id,
            Slot::Value(UserMetadata { created_at: now, updated_at: now }),
        ),
        ..s
    }
}

/// Whether every record of the user `id` is there and reads back.
pub open spec fn user_readable(s: StoreState, id: u64) -> bool {
    &&& readable(s.metadata, id)
    &&& readable(s.profiles, id)
    &&& wallets_readable(s, id)
    &&& readable(s.session_timeouts, id)
}

/// Whether `user` is what the store holds of the user `id`.
pub open spec fn is_user(s: StoreState, id: u64, user: UserView) -> bool {
    &&& user.id == id
    &&& s.metadata[id] == Slot::Value(user.metadata)
    &&& s.profiles[id] == Slot::Value(user.profile)
    &&& wallets_listed(s, id, user.wallets)
    &&& s.session_timeouts[id] == Slot::Value(user.config.session_timeout_seconds)
}

/// Builds the bytes that a session key is the digest of.
pub fn build_session_key_preimage(addr: &String, user_id: u64, seed: &String) -> (bytes: Vec<u8>)
    ensures
        bytes@ == session_key_preimage(addr@, user_id, seed@),
{
    let mut bytes = u64_to_le_bytes(user_id);
    let mut addr_bytes = addr.as_str().as_bytes_vec();
    let mut seed_bytes = seed.as_str().as_bytes_vec();
    bytes.append(&mut addr_bytes);
    bytes.append(&mut seed_bytes);
    bytes
}

/// Writes a digest down as a session key.
pub fn session_key_of_digest(digest: &Vec<u8>) -> (key: String)
    ensures
        key@ == hex_upper(digest@),
        key@.len() == 2 * digest@.len(),
{
    hex_encode_upper(digest.as_slice())
}

/// Derives the key under which a session is filed. The same address, user
/// id and seed always give the same key.
pub fn build_session_key(addr: &String, user_id: u64, seed: &String) -> (key: String)
    ensures
        key@ == session_key(addr@, user_id, seed@),
        key@.len() == 128,
{
    let bytes = build_session_key_preimage(addr, user_id, seed);
    let digest = sha512_digest(bytes.as_slice());
    session_key_of_digest(&digest)
}

/// Decides whether a session has run out at `now`, and hands it back if not.
pub fn check_session(session: UserSession, timeout: u64, now: Timestamp) -> (r: Result<
    UserSession,
    ContractError,
>)
    ensures
        expired(now, session.refresh_time, timeout) ==> r matches Err(
            ContractError::SessionExpired,
        ),
        !expired(now, session.refresh_time, timeout) ==> r == Ok::<UserSession, ContractError>(
            session,
        ),
{
    let gone = match session.refresh_time.seconds().checked_add(timeout) {
        Some(expires_at) => now.seconds() > expires_at,
        None => false,
    };
    if gone {
        Err(ContractError::SessionExpired)
    } else {
        Ok(session)
    }
}

/// Looks up the session under `key` and checks that it has not run out.
/// Nothing is changed: a session that has run out stays where it is.
pub fn require_valid_session(store: &Store, block: &BlockInfo, user_id: u64, key: &String) -> (r:
    Result<UserSession, ContractError>)
    ensures
        outcome(r) == valid_session(store@, block.time, user_id, key@),
{
    match session_may_load(store, key) {
        Err(e) => Err(ContractError::Std(e)),
        Ok(None) => Err(ContractError::SessionNotFound),
        Ok(Some(record)) => {
            let session = session_from_record(record);
            match session_timeout_load(store, user_id) {
                Err(e) => Err(ContractError::Std(e)),
                Ok(timeout) => check_session(session, timeout, block.time),
            }
        },
    }
}

/// The session that starts in `block`.
pub fn new_session(block: &BlockInfo, address: &String, user_id: u64) -> (session: UserSession)
    ensures
        session@ == started_session(*block, address@, user_id),
{
    UserSession {
        user_id,
        address: address.clone(),
        time: block.time,
        height: block.height,
        refresh_time: block.time,
        refresh_height: block.height,
    }
}

/// Starts a session under `key`. A key under which anything lies is
/// taken, and the call is turned down without a change.
pub fn init_session(
    store: &mut Store,
    block: &BlockInfo,
    address: &String,
    user_id: u64,
    key: &String,
) -> (r: Result<UserSession, ContractError>)
    ensures
        (final(store)@, outcome(r)) == started(old(store)@, *block, address@, user_id, key@),
{
    match session_may_load(store, key) {
        Err(e) => Err(ContractError::Std(e)),
        Ok(Some(_)) => Err(ContractError::NotAuthorized),
        Ok(None) => {
            let session = new_session(block, address, user_id);
            let record = session_to_record(&session);
            match session_save(store, key, &record) {
                Err(e) => Err(ContractError::Std(e)),
                Ok(_) => Ok(session),
            }
        },
    }
}

/// Removes whatever lies under `key`. It succeeds where nothing does.
pub fn end_session(store: &mut Store, key: &String) -> (r: Result<(), ContractError>)
    ensures
        r is Ok,
        final(store)@ == ended(old(store)@, key@),
{
    session_remove(store, key);
    Ok(())
}

/// Replaces the session under `old_key` by one that starts in `block`
/// under `new_key`. The old session must be valid, and the new key free
/// unless it is the old one; where either fails nothing is changed.
pub fn refresh_session(
    store: &mut Store,
    block: &BlockInfo,
    address: &String,
    user_id: u64,
    old_key: &String,
    new_key: &String,
) -> (r: Result<UserSession, ContractError>)
    ensures
        (final(store)@, outcome(r)) == refreshed(
            old(store)@,
            *block,
            address@,
            user_id,
            old_key@,
            new_key@,
        ),
{
    if let Err(e) = require_valid_session(store, block, user_id, old_key) {
        return Err(e);
    }
    if *new_key != *old_key {
        match session_may_load(store, new_key) {
            Err(e) => {
                return Err(ContractError::Std(e));
            },
            Ok(Some(_)) => {
                return Err(ContractError::NotAuthorized);
            },
            Ok(None) => {},
        }
    }
    let _ = end_session(store, old_key);
    init_session(store, block, address, user_id, new_key)
}

/// Files the counters at zero and the owner.
pub fn initialize(store: &mut Store, sender: &String, msg: InstantiateMsg) -> (r: Result<
    (),
    ContractError,
>)
    ensures
        r is Ok,
        final(store)@ == initialized(old(store)@, msg, sender@),
{
    if let Err(e) = id_counter_save(store, &0) {
        return Err(ContractError::Std(e));
    }
    if let Err(e) = user_count_save(store, &0) {
        return Err(ContractError::Std(e));
    }
    let owner = match msg.owner {
        Some(owner) => owner,
        None => Owner::Address(sender.clone()),
    };
    match owner_save(store, &owner_to_record(&owner)) {
        Err(e) => Err(ContractError::Std(e)),
        Ok(_) => Ok(()),
    }
}

/// Decides whether `principal` may act as the owner, as far as the store
/// can tell.
pub fn require_is_allowed(store: &Store, principal: &String, action: &String) -> (r: Result<
    Clearance,
    ContractError,
>)
    ensures
        outcome(r) == clearance(store@, principal@, action@),
{
    let owner = match owner_load(store) {
        Err(e) => {
            return Err(ContractError::Std(e));
        },
        Ok(r) => owner_from_record(r),
    };
    match owner {
        Owner::Address(addr) => {
            if *principal == addr {
                Ok(Clearance::Granted)
            } else {
                Err(ContractError::NotAuthorized)
            }
        },
        Owner::Acl(acl) => Ok(
            Clearance::Delegated { acl, principal: principal.clone(), action: action.clone() },
        ),
    }
}

/// The verdict that follows from what the access-control service said:
/// yes lets the caller through, no does not, and an error of the service
/// is the caller's error.
pub fn conclude_is_allowed(answer: Result<bool, StdError>) -> (r: Result<(), ContractError>)
    ensures
        match answer {
            Ok(true) => r is Ok,
            Ok(false) => r matches Err(ContractError::NotAuthorized),
            Err(e) => r matches Err(ContractError::Std(f)) && f == e,
        },
{
    match answer {
        Ok(true) => Ok(()),
        Ok(false) => Err(ContractError::NotAuthorized),
        Err(e) => Err(ContractError::Std(e)),
    }
}

/// The id under which an address is filed.
pub fn load_user_id(store: &Store, addr: &String) -> (r: Result<u64, ContractError>)
    ensures
        outcome(r) == user_id_of(store@, addr@),
{
    match address_id_may_load(store, addr) {
        Err(e) => Err(ContractError::Std(e)),
        Ok(Some(id)) => Ok(id),
        Ok(None) => Err(ContractError::UserNotFound),
    }
}

/// Whether anything is filed under an address.
pub fn exists_wallet(store: &Store, addr: &String) -> (r: bool)
    ensures
        r == store@.address_to_id.contains_key(addr@),
{
    address_id_has(store, addr)
}

/// Gives an address that is not filed yet the next id, files it both ways
/// and raises the user count. Where it turns the address down, nothing
/// is changed.
pub fn init_user_id(store: &mut Store, addr: &String) -> (r: Result<u64, ContractError>)
    ensures
        (final(store)@, outcome(r)) == allocated(old(store)@, addr@),
{
    if address_id_has(store, addr) {
        return Err(ContractError::UserExists);
    }
    let last = match id_counter_load(store) {
        Err(e) => {
            return Err(ContractError::Std(e));
        },
        Ok(n) => n,
    };
    let count = match user_count_load(store) {
        Err(e) => {
            return Err(ContractError::Std(e));
        },
        Ok(c) => c,
    };
    if last == u64::MAX {
        return Err(ContractError::Std(add_overflow(last, 1)));
    }
    if count == u32::MAX {
        return Err(ContractError::Std(add_overflow(u32::MAX as u64, 1)));
    }
    let id: u64 = last + 1;
    let raised: u32 = count + 1;
    if let Err(e) = id_counter_save(store, &id) {
        return Err(ContractError::Std(e));
    }
    if let Err(e) = address_id_save(store, addr, &id) {
        return Err(ContractError::Std(e));
    }
    if let Err(e) = wallet_save(store, id, addr) {
        return Err(ContractError::Std(e));
    }
    match user_count_save(store, &raised) {
        Err(e) => Err(ContractError::Std(e)),
        Ok(_) => Ok(id),
    }
}

/// Writes the records of a new user: the profile as it is, the default
/// session timeout, and the block's time as the time of creation and of
/// the last update.
pub fn init_user(store: &mut Store, id: u64, profile: &UserProfile, block: &BlockInfo) -> (r:
    Result<(), ContractError>)
    ensures
        r is Ok,
        final(store)@ == with_user(old(store)@, id, *profile, block.time),
{
    if let Err(e) = profile_save(store, id, &profile_to_record(profile)) {
        return Err(ContractError::Std(e));
    }
    if let Err(e) = session_timeout_save(store, id, &DEFAULT_SESSION_TIMEOUT_SECONDS) {
        return Err(ContractError::Std(e));
    }
    let metadata = UserMetadata { created_at: block.time, updated_at: block.time };
    match metadata_save(store, id, &metadata_to_record(&metadata)) {
        Err(e) => Err(ContractError::Std(e)),
        Ok(_) => Ok(()),
    }
}

/// The addresses that are filed under an id, in the order of the store's
/// keys.
pub fn load_wallets(store: &Store, id: u64) -> (r: Result<Vec<String>, ContractError>)
    ensures
        match r {
            Ok(v) => wallets_readable(store@, id) && wallets_listed(store@, id, texts(v@)),
            Err(e) => e.kind() == ErrorKind::Std && !wallets_readable(store@, id),
        },
{
    match wallet_keys(store, id) {
        Err(e) => Err(ContractError::Std(e)),
        Ok(v) => Ok(v),
    }
}

/// Puts together all that the store holds of a user.
pub fn load_user(store: &Store, id: u64) -> (r: Result<User, ContractError>)
    ensures
        match r {
            Ok(user) => user_readable(store@, id) && is_user(store@, id, user@),
            Err(e) => e.kind() == ErrorKind::Std && !user_readable(store@, id),
        },
{
    let metadata = match metadata_load(store, id) {
        Err(e) => {
            return Err(ContractError::Std(e));
        },
        Ok(r) => metadata_from_record(r),
    };
    let profile = match profile_load(store, id) {
        Err(e) => {
            return Err(ContractError::Std(e));
        },
        Ok(r) => profile_from_record(r),
    };
    let wallets = load_wallets(store, id)?;
    let session_timeout_seconds = match session_timeout_load(store, id) {
        Err(e) => {
            return Err(ContractError::Std(e));
        },
        Ok(t) => t,
    };
    Ok(User { id, metadata, profile, wallets, config: UserConfig { session_timeout_seconds } })
}

} // verus!
