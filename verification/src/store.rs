//! The key-value store of the host, and what this crate takes for
//! granted of it.
//!
//! The store is a `cosmwasm_std::Storage`, read and written through the
//! maps and items of `cw_storage_plus`. Nothing in this file is proved.
//! Each function here makes one call into those crates, and its contract
//! says what the call does to the records of the store. Three things are
//! taken for granted throughout:
//!
//! - every map and item has a namespace of its own, so that a write to
//!   one leaves the others as they were;
//! - a value that was written reads back as the same value;
//! - the values that are written are made of integers, booleans, texts,
//!   options, tuples, lists and `Result`, which the serializer writes
//!   down without failing.

use crate::models::{OwnerView, UserMetadata, UserProfileView, UserSessionView, texts};
use crate::record::{
    metadata_of, owner_of, profile_of, session_of, MetadataRecord, OwnerRecord, ProfileRecord,
    SessionRecord,
};
use cosmwasm_std::StdError;
use vstd::prelude::*;
use vstd::utf8::{encode_utf8, valid_utf8};

verus! {

pub const OWNER: &'static str = "owner";

pub const USER_PROFILES: &'static str = "profiles";

pub const USER_METADATA: &'static str = "metadata";

pub const USER_SESSION_TIMEOUTS: &'static str = "session_timeouts";

pub const USER_SESSIONS: &'static str = "sessions";

pub const ADDRESS_TO_ID: &'static str = "address_to_id";

pub const ID_2_ADDRESS: &'static str = "id_2_addr";

pub const ID_COUNTER: &'static str = "id_counter";

pub const USER_COUNT: &'static str = "user_count";

/// What lies under one key of the store: a record that reads back as a
/// value, or bytes that do not.
pub enum Slot<T> {
    Value(T),
    Unreadable,
}

/// The records of the store, region by region. A key that a map does not
/// hold has nothing stored under it.
pub struct StoreState {
    /// The name and the version of the contract that keeps the store.
    pub contract_info: Option<Slot<(Seq<char>, Seq<char>)>>,
    pub owner: Option<Slot<OwnerView>>,
    pub id_counter: Option<Slot<u64>>,
    pub user_count: Option<Slot<u32>>,
    pub profiles: Map<u64, Slot<UserProfileView>>,
    pub metadata: Map<u64, Slot<UserMetadata>>,
    pub session_timeouts: Map<u64, Slot<u64>>,
    pub sessions: Map<Seq<char>, Slot<UserSessionView>>,
    pub address_to_id: Map<Seq<char>, Slot<u64>>,
    /// The wallet index, keyed by id and by the bytes of the address, in
    /// whose order the store walks them. It holds the entries whose bytes
    /// do not begin with the byte 255. No text begins with that byte, and
    /// what else may lie in the store is neither read nor written.
    pub id_to_address: Map<(u64, Seq<u8>), Slot<bool>>,
}

/// Whether a record lies under `k` and reads back as a value.
pub open spec fn readable<K, V>(m: Map<K, Slot<V>>, k: K) -> bool {
    m.contains_key(k) && m[k] is Value
}

/// Whether a record lies under `k` whose bytes do not read back.
pub open spec fn unreadable<K, V>(m: Map<K, Slot<V>>, k: K) -> bool {
    m.contains_key(k) && m[k] is Unreadable
}

/// The order in which the store walks its keys: byte by byte, and a key
/// before every longer key that starts with it.
pub open spec fn bytes_lt(a: Seq<u8>, b: Seq<u8>) -> bool {
    exists|k: int|
        0 <= k <= a.len() && k < b.len() && #[trigger] a.subrange(0, k) == b.subrange(0, k) && (k
            == a.len() || a[k] < b[k])
}

/// Whether every entry that the wallet index holds for `id` is filed
/// under a text and reads back.
pub open spec fn wallets_readable(s: StoreState, id: u64) -> bool {
    forall|b: Seq<u8>| #[trigger]
        s.id_to_address.contains_key((id, b)) ==> valid_utf8(b) && s.id_to_address[(id, b)] is Value
}

/// Whether `wallets` names each address that the wallet index holds for
/// `id` once, in the order of the store's keys.
pub open spec fn wallets_listed(s: StoreState, id: u64, wallets: Seq<Seq<char>>) -> bool {
    &&& forall|i: int|
        0 <= i < wallets.len() ==> s.id_to_address.contains_key(
            (id, encode_utf8(#[trigger] wallets[i])),
        )
    &&& forall|b: Seq<u8>| #[trigger]
        s.id_to_address.contains_key((id, b)) ==> exists|i: int|
            0 <= i < wallets.len() && encode_utf8(#[trigger] wallets[i]) == b
    &&& forall|i: int, j: int|
        0 <= i < j < wallets.len() ==> bytes_lt(
            encode_utf8(#[trigger] wallets[i]),
            encode_utf8(#[trigger] wallets[j]),
        )
}

/// The host's key-value store, for the length of one call.
#[verifier::external_body]
pub struct Store<'a> {
    inner: &'a mut dyn cosmwasm_std::Storage,
}

/// The records that a store holds.
pub uninterp spec fn store_state(store: Store) -> StoreState;

impl<'a> View for Store<'a> {
    type V = StoreState;

    open spec fn view(&self) -> StoreState {
        store_state(*self)
    }
}

impl<'a> Store<'a> {
    /// Wraps a `cosmwasm_std::Storage`. Nothing is claimed of what it holds.
    #[verifier::external_body]
    pub fn new<S: cosmwasm_std::Storage>(inner: &'a mut S) -> (store: Store<'a>) {
        Store { inner }
    }
}

/// `cw2::set_contract_version`: the record of the contract holds the
/// name and the version afterwards, and nothing else has changed. It
/// fails only where the two texts cannot be written down, and texts
/// always can.
#[verifier::external_body]
pub(crate) fn contract_version_save(store: &mut Store, name: &str, version: &str) -> (r: Result<
    (),
    StdError,
>)
    ensures
        r is Ok,
        store_state(*final(store)) == (StoreState {
            contract_info: Some(Slot::Value((name@, version@))),
            ..store_state(*old(store))
        }),
{
    cw2::set_contract_version(store.inner, name, version)
}

/// `cw_storage_plus::Item::load` on the owner: the value where the record reads
/// back, an error where it is missing or does not.
#[verifier::external_body]
pub(crate) fn owner_load(store: &Store) -> (r: Result<OwnerRecord, StdError>)
    ensures
        match r {
            Ok(v) => store_state(*store).owner == Some(Slot::Value(owner_of(v))),
            Err(_) => !(store_state(*store).owner matches Some(Slot::Value(_))),
        },
{
    cw_storage_plus::Item::<OwnerRecord>::new(OWNER).load(store.inner)
}

/// `cw_storage_plus::Item::may_load` on the owner: the value where the
/// record reads back, `None` where there is none, an error where it does
/// not read back.
#[verifier::external_body]
pub(crate) fn owner_may_load(store: &Store) -> (r: Result<Option<OwnerRecord>, StdError>)
    ensures
        match r {
            Ok(Some(v)) => store_state(*store).owner == Some(Slot::Value(owner_of(v))),
            Ok(None) => store_state(*store).owner is None,
            Err(_) => store_state(*store).owner == Some(Slot::<OwnerView>::Unreadable),
        },
{
    cw_storage_plus::Item::<OwnerRecord>::new(OWNER).may_load(store.inner)
}

/// `cw_storage_plus::Item::save` on the owner: the record holds the value
/// afterwards and nothing else has changed. It fails only where the value
/// cannot be written down, and a value of this shape always can.
#[verifier::external_body]
pub(crate) fn owner_save(store: &mut Store, v: &OwnerRecord) -> (r: Result<(), StdError>)
    ensures
        r is Ok,
        store_state(*final(store)) == (StoreState {
            owner: Some(Slot::Value(owner_of(*v))),
            ..store_state(*old(store))
        }),
{
    cw_storage_plus::Item::<OwnerRecord>::new(OWNER).save(store.inner, v)
}

/// `cw_storage_plus::Item::load` on the id counter: the value where the record
/// reads back, an error where it is missing or does not.
#[verifier::external_body]
pub(crate) fn id_counter_load(store: &Store) -> (r: Result<u64, StdError>)
    ensures
        match r {
            Ok(v) => store_state(*store).id_counter == Some(Slot::Value(v)),
            Err(_) => !(store_state(*store).id_counter matches Some(Slot::Value(_))),
        },
{
    cw_storage_plus::Item::<u64>::new(ID_COUNTER).load(store.inner)
}

/// `cw_storage_plus::Item::save` on the id counter: the record holds the value
/// afterwards and nothing else has changed. It fails only where the value
/// cannot be written down, and a value of this shape always can.
#[verifier::external_body]
pub(crate) fn id_counter_save(store: &mut Store, v: &u64) -> (r: Result<(), StdError>)
    ensures
        r is Ok,
        store_state(*final(store)) == (StoreState {
            id_counter: Some(Slot::Value(*v)),
            ..store_state(*old(store))
        }),
{
    cw_storage_plus::Item::<u64>::new(ID_COUNTER).save(store.inner, v)
}

/// `cw_storage_plus::Item::load` on the user count: the value where the record
/// reads back, an error where it is missing or does not.
#[verifier::external_body]
pub(crate) fn user_count_load(store: &Store) -> (r: Result<u32, StdError>)
    ensures
        match r {
            Ok(v) => store_state(*store).user_count == Some(Slot::Value(v)),
            Err(_) => !(store_state(*store).user_count matches Some(Slot::Value(_))),
        },
{
    cw_storage_plus::Item::<u32>::new(USER_COUNT).load(store.inner)
}

/// `cw_storage_plus::Item::save` on the user count: the record holds the value
/// afterwards and nothing else has changed. It fails only where the value
/// cannot be written down, and a value of this shape always can.
#[verifier::external_body]
pub(crate) fn user_count_save(store: &mut Store, v: &u32) -> (r: Result<(), StdError>)
    ensures
        r is Ok,
        store_state(*final(store)) == (StoreState {
            user_count: Some(Slot::Value(*v)),
            ..store_state(*old(store))
        }),
{
    cw_storage_plus::Item::<u32>::new(USER_COUNT).save(store.inner, v)
}

/// `cw_storage_plus::Map::load` on the profiles: the value where a record lies
/// under the id and reads back, an error where none does.
#[verifier::external_body]
pub(crate) fn profile_load(store: &Store, id: u64) -> (r: Result<ProfileRecord, StdError>)
    ensures
        match r {
            Ok(v) => store_state(*store).profiles.get(id) == Some(Slot::Value(profile_of(v))),
            Err(_) => !readable(store_state(*store).profiles, id),
        },
{
    cw_storage_plus::Map::<u64, ProfileRecord>::new(USER_PROFILES).load(store.inner, id)
}

/// `cw_storage_plus::Map::save` on the profiles: the record under the id holds
/// the value afterwards and nothing else has changed. It fails only where the
/// value cannot be written down, and a value of this shape always can.
#[verifier::external_body]
pub(crate) fn profile_save(store: &mut Store, id: u64, v: &ProfileRecord) -> (r: Result<
    (),
    StdError,
>)
    ensures
        r is Ok,
        store_state(*final(store)) == (StoreState {
            profiles: store_state(*old(store)).profiles.insert(
                id,
                Slot::Value(profile_of(*v)),
            ),
            ..store_state(*old(store))
        }),
{
    cw_storage_plus::Map::<u64, ProfileRecord>::new(USER_PROFILES).save(store.inner, id, v)
}

/// `cw_storage_plus::Map::load` on the metadata: the value where a record lies
/// under the id and reads back, an error where none does.
#[verifier::external_body]
pub(crate) fn metadata_load(store: &Store, id: u64) -> (r: Result<MetadataRecord, StdError>)
    ensures
        match r {
            Ok(v) => store_state(*store).metadata.get(id) == Some(Slot::Value(metadata_of(v))),
            Err(_) => !readable(store_state(*store).metadata, id),
        },
{
    cw_storage_plus::Map::<u64, MetadataRecord>::new(USER_METADATA).load(store.inner, id)
}

/// `cw_storage_plus::Map::save` on the metadata: the record under the id holds
/// the value afterwards and nothing else has changed. It fails only where the
/// value cannot be written down, and a value of this shape always can.
#[verifier::external_body]
pub(crate) fn metadata_save(store: &mut Store, id: u64, v: &MetadataRecord) -> (r: Result<
    (),
    StdError,
>)
    ensures
        r is Ok,
        store_state(*final(store)) == (StoreState {
            metadata: store_state(*old(store)).metadata.insert(
                id,
                Slot::Value(metadata_of(*v)),
            ),
            ..store_state(*old(store))
        }),
{
    cw_storage_plus::Map::<u64, MetadataRecord>::new(USER_METADATA).save(store.inner, id, v)
}

/// `cw_storage_plus::Map::load` on the session timeouts: the value where a
/// record lies under the id and reads back, an error where none does.
#[verifier::external_body]
pub(crate) fn session_timeout_load(store: &Store, id: u64) -> (r: Result<u64, StdError>)
    ensures
        match r {
            Ok(v) => store_state(*store).session_timeouts.get(id) == Some(Slot::Value(v)),
            Err(_) => !readable(store_state(*store).session_timeouts, id),
        },
{
    cw_storage_plus::Map::<u64, u64>::new(USER_SESSION_TIMEOUTS).load(store.inner, id)
}

/// `cw_storage_plus::Map::save` on the session timeouts: the record under the
/// id holds the value afterwards and nothing else has changed. It fails only
/// where the value cannot be written down, and a value of this shape always
/// can.
#[verifier::external_body]
pub(crate) fn session_timeout_save(store: &mut Store, id: u64, v: &u64) -> (r: Result<(), StdError>)
    ensures
        r is Ok,
        store_state(*final(store)) == (StoreState {
            session_timeouts: store_state(*old(store)).session_timeouts.insert(
                id,
                Slot::Value(*v),
            ),
            ..store_state(*old(store))
        }),
{
    cw_storage_plus::Map::<u64, u64>::new(USER_SESSION_TIMEOUTS).save(store.inner, id, v)
}

/// `cw_storage_plus::Map::may_load` on the sessions: the value where a record
/// lies under the key and reads back, `None` where nothing lies there, an error
/// where the record does not read back.
#[verifier::external_body]
pub(crate) fn session_may_load(store: &Store, key: &String) -> (r: Result<
    Option<SessionRecord>,
    StdError,
>)
    ensures
        match r {
            Ok(Some(v)) => store_state(*store).sessions.get(key@) == Some(
                Slot::Value(session_of(v)),
            ),
            Ok(None) => !store_state(*store).sessions.contains_key(key@),
            Err(_) => unreadable(store_state(*store).sessions, key@),
        },
{
    cw_storage_plus::Map::<String, SessionRecord>::new(USER_SESSIONS).may_load(
        store.inner,
        key.clone(),
    )
}

/// `cw_storage_plus::Map::save` on the sessions: the record under the key holds
/// the value afterwards and nothing else has changed. It fails only where the
/// value cannot be written down, and a value of this shape always can.
#[verifier::external_body]
pub(crate) fn session_save(store: &mut Store, key: &String, v: &SessionRecord) -> (r: Result<
    (),
    StdError,
>)
    ensures
        r is Ok,
        store_state(*final(store)) == (StoreState {
            sessions: store_state(*old(store)).sessions.insert(
                key@,
                Slot::Value(session_of(*v)),
            ),
            ..store_state(*old(store))
        }),
{
    cw_storage_plus::Map::<String, SessionRecord>::new(USER_SESSIONS).save(
        store.inner,
        key.clone(),
        v,
    )
}

/// `cw_storage_plus::Map::remove` on the sessions: nothing lies under the
/// key afterwards, and nothing else has changed.
#[verifier::external_body]
pub(crate) fn session_remove(store: &mut Store, key: &String)
    ensures
        store_state(*final(store)) == (StoreState {
            sessions: store_state(*old(store)).sessions.remove(key@),
            ..store_state(*old(store))
        }),
{
    cw_storage_plus::Map::<String, SessionRecord>::new(USER_SESSIONS).remove(
        store.inner,
        key.clone(),
    )
}

/// `cw_storage_plus::Map::has` on the ids by address: whether anything
/// lies under the address, readable or not.
#[verifier::external_body]
pub(crate) fn address_id_has(store: &Store, addr: &String) -> (r: bool)
    ensures
        r == store_state(*store).address_to_id.contains_key(addr@),
{
    cw_storage_plus::Map::<String, u64>::new(ADDRESS_TO_ID).has(store.inner, addr.clone())
}

/// `cw_storage_plus::Map::may_load` on the ids by address: the value where a
/// record lies under the address and reads back, `None` where nothing lies
/// there, an error where the record does not read back.
#[verifier::external_body]
pub(crate) fn address_id_may_load(store: &Store, addr: &String) -> (r: Result<
    Option<u64>,
    StdError,
>)
    ensures
        match r {
            Ok(Some(v)) => store_state(*store).address_to_id.get(addr@) == Some(Slot::Value(v)),
            Ok(None) => !store_state(*store).address_to_id.contains_key(addr@),
            Err(_) => unreadable(store_state(*store).address_to_id, addr@),
        },
{
    cw_storage_plus::Map::<String, u64>::new(ADDRESS_TO_ID).may_load(store.inner, addr.clone())
}

/// `cw_storage_plus::Map::save` on the ids by address: the record under the
/// address holds the value afterwards and nothing else has changed. It fails
/// only where the value cannot be written down, and a value of this shape
/// always can.
#[verifier::external_body]
pub(crate) fn address_id_save(store: &mut Store, addr: &String, v: &u64) -> (r: Result<
    (),
    StdError,
>)
    ensures
        r is Ok,
        store_state(*final(store)) == (StoreState {
            address_to_id: store_state(*old(store)).address_to_id.insert(
                addr@,
                Slot::Value(*v),
            ),
            ..store_state(*old(store))
        }),
{
    cw_storage_plus::Map::<String, u64>::new(ADDRESS_TO_ID).save(store.inner, addr.clone(), v)
}

/// `cw_storage_plus::Map::save` on the wallet index: an entry lies under
/// the id and the bytes of the address afterwards, and nothing else has
/// changed. It fails only where the value cannot be written down, and
/// `true` always can.
#[verifier::external_body]
pub(crate) fn wallet_save(store: &mut Store, id: u64, addr: &String) -> (r: Result<(), StdError>)
    ensures
        r is Ok,
        store_state(*final(store)) == (StoreState {
            id_to_address: store_state(*old(store)).id_to_address.insert(
                (id, encode_utf8(addr@)),
                Slot::Value(true),
            ),
            ..store_state(*old(store))
        }),
{
    cw_storage_plus::Map::<(u64, String), bool>::new(ID_2_ADDRESS).save(
        store.inner,
        (id, addr.clone()),
        &true,
    )
}

/// `cw_storage_plus::Prefix::keys` on the wallet index of one id, in
/// ascending order, up to the entries whose bytes begin with the byte
/// 255: the addresses filed under the id, each once, in the order of
/// the store's keys, where every such entry reads back; an error where
/// one does not. The bound keeps the walk to the keys that hold the id in
/// full.
#[verifier::external_body]
pub(crate) fn wallet_keys(store: &Store, id: u64) -> (r: Result<Vec<String>, StdError>)
    ensures
        match r {
            Ok(v) => wallets_readable(store_state(*store), id) && wallets_listed(
                store_state(*store),
                id,
                texts(v@),
            ),
            Err(_) => !wallets_readable(store_state(*store), id),
        },
{
    cw_storage_plus::Map::<(u64, String), bool>::new(ID_2_ADDRESS).prefix(id).keys(
        store.inner,
        None,
        Some(cw_storage_plus::Bound::ExclusiveRaw(vec![255])),
        cosmwasm_std::Order::Ascending,
    ).collect()
}

} // verus!
