use cosmwasm_std::testing::MockStorage;
use cosmwasm_std::Storage;
use cw_user::error::{ContractError, ErrorKind};
use cw_user::models::{BlockInfo, Timestamp, UserSession};
use cw_user::state::{
    check_session, end_session, init_session, new_session, refresh_session,
    require_valid_session, DEFAULT_SESSION_TIMEOUT_SECONDS,
};
use cw_user::store::Store;

fn block(seconds: u64, height: u64) -> BlockInfo {
    BlockInfo { height, time: Timestamp::from_seconds(seconds) }
}

fn at_nanos(nanos: u64, height: u64) -> BlockInfo {
    BlockInfo { height, time: Timestamp { nanos } }
}

fn set_timeout(storage: &mut MockStorage, user_id: u64, seconds: u64) {
    cw_storage_plus::Map::<u64, u64>::new("session_timeouts")
        .save(storage, user_id, &seconds)
        .unwrap();
}

fn kind<T: std::fmt::Debug>(r: Result<T, ContractError>) -> ErrorKind {
    r.unwrap_err().kind()
}

#[test]
fn timestamp_counts_whole_seconds() {
    assert_eq!(Timestamp { nanos: 1_999_999_999 }.seconds(), 1);
    assert_eq!(Timestamp { nanos: 2_000_000_000 }.seconds(), 2);
    assert_eq!(Timestamp { nanos: 0 }.seconds(), 0);
    assert_eq!(Timestamp::from_seconds(7).nanos, 7_000_000_000);
    assert_eq!(Timestamp { nanos: u64::MAX }.seconds(), 18_446_744_073);
}

#[test]
fn default_timeout_is_two_days() {
    assert_eq!(DEFAULT_SESSION_TIMEOUT_SECONDS, 60 * 60 * 48);
}

#[test]
fn new_session_bears_the_block_twice() {
    let session = new_session(&at_nanos(5_000_000_123, 42), &"alice".to_string(), 9);
    assert_eq!(
        session,
        UserSession {
            user_id: 9,
            address: "alice".to_string(),
            time: Timestamp { nanos: 5_000_000_123 },
            height: 42,
            refresh_time: Timestamp { nanos: 5_000_000_123 },
            refresh_height: 42,
        }
    );
}

#[test]
fn start_files_a_session_that_validates() {
    let mut storage = MockStorage::new();
    set_timeout(&mut storage, 1, 100);
    let mut store = Store::new(&mut storage);
    let key = "KEY".to_string();
    let started = init_session(&mut store, &block(1000, 7), &"alice".to_string(), 1, &key).unwrap();
    assert_eq!(started, new_session(&block(1000, 7), &"alice".to_string(), 1));
    let found = require_valid_session(&store, &block(1050, 8), 1, &key).unwrap();
    assert_eq!(found, started);
}

#[test]
fn start_twice_under_one_key_is_not_authorized() {
    let mut storage = MockStorage::new();
    set_timeout(&mut storage, 1, 100);
    let mut store = Store::new(&mut storage);
    let key = "KEY".to_string();
    let first = init_session(&mut store, &block(1000, 7), &"alice".to_string(), 1, &key).unwrap();
    let second = init_session(&mut store, &block(2000, 9), &"bob".to_string(), 2, &key);
    assert_eq!(kind(second), ErrorKind::NotAuthorized);
    assert_eq!(require_valid_session(&store, &block(1001, 8), 1, &key).unwrap(), first);
}

#[test]
fn start_after_end_succeeds_again() {
    let mut storage = MockStorage::new();
    set_timeout(&mut storage, 1, 100);
    let mut store = Store::new(&mut storage);
    let key = "KEY".to_string();
    init_session(&mut store, &block(1000, 7), &"alice".to_string(), 1, &key).unwrap();
    end_session(&mut store, &key).unwrap();
    assert_eq!(
        kind(require_valid_session(&store, &block(1001, 8), 1, &key)),
        ErrorKind::SessionNotFound
    );
    let again = init_session(&mut store, &block(3000, 9), &"alice".to_string(), 1, &key).unwrap();
    assert_eq!(again.time, Timestamp::from_seconds(3000));
    assert_eq!(again.height, 9);
}

#[test]
fn end_without_a_session_succeeds() {
    let mut storage = MockStorage::new();
    let mut store = Store::new(&mut storage);
    assert!(end_session(&mut store, &"NONE".to_string()).is_ok());
    assert!(end_session(&mut store, &"NONE".to_string()).is_ok());
}

#[test]
fn validate_without_a_session_is_session_not_found() {
    let mut storage = MockStorage::new();
    set_timeout(&mut storage, 1, 100);
    let store = Store::new(&mut storage);
    assert_eq!(
        kind(require_valid_session(&store, &block(1, 1), 1, &"KEY".to_string())),
        ErrorKind::SessionNotFound
    );
}

#[test]
fn validate_is_inclusive_at_the_boundary() {
    let mut storage = MockStorage::new();
    set_timeout(&mut storage, 1, 100);
    let mut store = Store::new(&mut storage);
    let key = "KEY".to_string();
    let started = init_session(&mut store, &block(1000, 7), &"alice".to_string(), 1, &key).unwrap();
    assert_eq!(require_valid_session(&store, &block(1100, 8), 1, &key).unwrap(), started);
    assert_eq!(
        require_valid_session(&store, &at_nanos(1_100_999_999_999, 8), 1, &key).unwrap(),
        started
    );
    assert_eq!(
        kind(require_valid_session(&store, &block(1101, 8), 1, &key)),
        ErrorKind::SessionExpired
    );
}

#[test]
fn validate_changes_nothing() {
    let mut storage = MockStorage::new();
    set_timeout(&mut storage, 1, 100);
    let mut store = Store::new(&mut storage);
    let key = "KEY".to_string();
    let started = init_session(&mut store, &block(1000, 7), &"alice".to_string(), 1, &key).unwrap();
    assert_eq!(
        kind(require_valid_session(&store, &block(5000, 8), 1, &key)),
        ErrorKind::SessionExpired
    );
    // The session that has run out still lies there and still holds the key.
    assert_eq!(require_valid_session(&store, &block(1001, 8), 1, &key).unwrap(), started);
    assert_eq!(
        kind(init_session(&mut store, &block(5000, 8), &"alice".to_string(), 1, &key)),
        ErrorKind::NotAuthorized
    );
}

#[test]
fn validate_without_a_timeout_is_a_store_error() {
    let mut storage = MockStorage::new();
    let mut store = Store::new(&mut storage);
    let key = "KEY".to_string();
    init_session(&mut store, &block(1000, 7), &"alice".to_string(), 1, &key).unwrap();
    assert_eq!(kind(require_valid_session(&store, &block(1001, 8), 1, &key)), ErrorKind::Std);
}

#[test]
fn validate_uses_the_timeout_of_the_user() {
    let mut storage = MockStorage::new();
    set_timeout(&mut storage, 1, 10);
    set_timeout(&mut storage, 2, 1000);
    let mut store = Store::new(&mut storage);
    let key = "KEY".to_string();
    init_session(&mut store, &block(1000, 7), &"alice".to_string(), 1, &key).unwrap();
    assert_eq!(
        kind(require_valid_session(&store, &block(1500, 8), 1, &key)),
        ErrorKind::SessionExpired
    );
    assert!(require_valid_session(&store, &block(1500, 8), 2, &key).is_ok());
}

#[test]
fn unreadable_session_is_a_store_error_and_holds_the_key() {
    let mut storage = MockStorage::new();
    set_timeout(&mut storage, 1, 100);
    let raw_key = cw_storage_plus::Map::<String, u64>::new("sessions").key("KEY".to_string());
    storage.set(&raw_key, b"not a session");
    let mut store = Store::new(&mut storage);
    let key = "KEY".to_string();
    assert_eq!(kind(require_valid_session(&store, &block(1, 1), 1, &key)), ErrorKind::Std);
    assert_eq!(
        kind(init_session(&mut store, &block(1, 1), &"alice".to_string(), 1, &key)),
        ErrorKind::Std
    );
    end_session(&mut store, &key).unwrap();
    assert!(init_session(&mut store, &block(1, 1), &"alice".to_string(), 1, &key).is_ok());
}

#[test]
fn check_session_at_and_after_the_last_second() {
    let session = new_session(&block(1000, 7), &"alice".to_string(), 1);
    assert_eq!(
        check_session(session.clone(), 100, Timestamp::from_seconds(1100)).unwrap(),
        session
    );
    assert_eq!(
        kind(check_session(session.clone(), 100, Timestamp::from_seconds(1101))),
        ErrorKind::SessionExpired
    );
    assert_eq!(check_session(session.clone(), 0, Timestamp::from_seconds(1000)).unwrap(), session);
    assert_eq!(
        kind(check_session(session, 0, Timestamp::from_seconds(1001))),
        ErrorKind::SessionExpired
    );
}

#[test]
fn check_session_with_a_timeout_beyond_all_time_never_runs_out() {
    let session = new_session(&block(1000, 7), &"alice".to_string(), 1);
    let latest = Timestamp { nanos: u64::MAX };
    assert_eq!(check_session(session.clone(), u64::MAX, latest).unwrap(), session);
}

#[test]
fn refresh_moves_the_session_to_the_new_key() {
    let mut storage = MockStorage::new();
    set_timeout(&mut storage, 1, 100);
    let mut store = Store::new(&mut storage);
    let (old_key, new_key) = ("OLD".to_string(), "NEW".to_string());
    init_session(&mut store, &block(1000, 7), &"alice".to_string(), 1, &old_key).unwrap();
    let refreshed =
        refresh_session(&mut store, &block(1050, 9), &"alice".to_string(), 1, &old_key, &new_key)
            .unwrap();
    assert_eq!(refreshed.refresh_time, Timestamp::from_seconds(1050));
    assert_eq!(refreshed.refresh_height, 9);
    assert_eq!(refreshed, new_session(&block(1050, 9), &"alice".to_string(), 1));
    assert_eq!(
        kind(require_valid_session(&store, &block(1051, 9), 1, &old_key)),
        ErrorKind::SessionNotFound
    );
    assert_eq!(require_valid_session(&store, &block(1051, 9), 1, &new_key).unwrap(), refreshed);
}

#[test]
fn refresh_within_the_block_of_the_start_keeps_the_time() {
    let mut storage = MockStorage::new();
    set_timeout(&mut storage, 1, 100);
    let mut store = Store::new(&mut storage);
    let (old_key, new_key) = ("OLD".to_string(), "NEW".to_string());
    let started =
        init_session(&mut store, &block(1000, 7), &"alice".to_string(), 1, &old_key).unwrap();
    let refreshed =
        refresh_session(&mut store, &block(1000, 7), &"alice".to_string(), 1, &old_key, &new_key)
            .unwrap();
    assert_eq!(refreshed.time, started.time);
}

#[test]
fn refresh_onto_a_taken_key_changes_nothing() {
    let mut storage = MockStorage::new();
    set_timeout(&mut storage, 1, 100);
    let mut store = Store::new(&mut storage);
    let (old_key, new_key) = ("OLD".to_string(), "NEW".to_string());
    let old = init_session(&mut store, &block(1000, 7), &"alice".to_string(), 1, &old_key).unwrap();
    let taken =
        init_session(&mut store, &block(1010, 8), &"alice".to_string(), 1, &new_key).unwrap();
    let alice = "alice".to_string();
    let r = refresh_session(&mut store, &block(1050, 9), &alice, 1, &old_key, &new_key);
    assert_eq!(kind(r), ErrorKind::NotAuthorized);
    assert_eq!(require_valid_session(&store, &block(1051, 9), 1, &old_key).unwrap(), old);
    assert_eq!(require_valid_session(&store, &block(1051, 9), 1, &new_key).unwrap(), taken);
}

#[test]
fn refresh_of_a_missing_session_is_session_not_found() {
    let mut storage = MockStorage::new();
    set_timeout(&mut storage, 1, 100);
    let mut store = Store::new(&mut storage);
    let (old_key, new_key) = ("OLD".to_string(), "NEW".to_string());
    let alice = "alice".to_string();
    let r = refresh_session(&mut store, &block(1050, 9), &alice, 1, &old_key, &new_key);
    assert_eq!(kind(r), ErrorKind::SessionNotFound);
    assert_eq!(
        kind(require_valid_session(&store, &block(1051, 9), 1, &new_key)),
        ErrorKind::SessionNotFound
    );
}

#[test]
fn refresh_of_a_session_that_has_run_out_is_session_expired() {
    let mut storage = MockStorage::new();
    set_timeout(&mut storage, 1, 100);
    let mut store = Store::new(&mut storage);
    let (old_key, new_key) = ("OLD".to_string(), "NEW".to_string());
    let old = init_session(&mut store, &block(1000, 7), &"alice".to_string(), 1, &old_key).unwrap();
    let alice = "alice".to_string();
    let r = refresh_session(&mut store, &block(1101, 9), &alice, 1, &old_key, &new_key);
    assert_eq!(kind(r), ErrorKind::SessionExpired);
    assert_eq!(require_valid_session(&store, &block(1100, 9), 1, &old_key).unwrap(), old);
    assert_eq!(
        kind(require_valid_session(&store, &block(1100, 9), 1, &new_key)),
        ErrorKind::SessionNotFound
    );
}

#[test]
fn refresh_onto_the_same_key_starts_it_anew() {
    let mut storage = MockStorage::new();
    set_timeout(&mut storage, 1, 100);
    let mut store = Store::new(&mut storage);
    let key = "KEY".to_string();
    init_session(&mut store, &block(1000, 7), &"alice".to_string(), 1, &key).unwrap();
    let refreshed =
        refresh_session(&mut store, &block(1050, 9), &"alice".to_string(), 1, &key, &key).unwrap();
    assert_eq!(refreshed, new_session(&block(1050, 9), &"alice".to_string(), 1));
    assert_eq!(require_valid_session(&store, &block(1150, 9), 1, &key).unwrap(), refreshed);
}

#[test]
fn sessions_under_other_keys_stay_as_they_are() {
    let mut storage = MockStorage::new();
    set_timeout(&mut storage, 1, 100);
    let mut store = Store::new(&mut storage);
    let (a, b, c) = ("A".to_string(), "B".to_string(), "C".to_string());
    let first = init_session(&mut store, &block(1000, 7), &"alice".to_string(), 1, &a).unwrap();
    init_session(&mut store, &block(1001, 7), &"alice".to_string(), 1, &b).unwrap();
    refresh_session(&mut store, &block(1002, 8), &"alice".to_string(), 1, &b, &c).unwrap();
    end_session(&mut store, &c).unwrap();
    assert_eq!(require_valid_session(&store, &block(1003, 8), 1, &a).unwrap(), first);
}

#[test]
fn session_with_an_address_of_many_tongues_reads_back() {
    let mut storage = MockStorage::new();
    set_timeout(&mut storage, 1, 100);
    let mut store = Store::new(&mut storage);
    let key = "K \"quoted\" \\ \n é € 😀".to_string();
    let address = "addr \"q\" \\ \t\u{1} ü 漢 😀".to_string();
    let started = init_session(&mut store, &at_nanos(u64::MAX, u64::MAX), &address, u64::MAX, &key)
        .unwrap();
    let found = require_valid_session(&store, &at_nanos(u64::MAX, 0), u64::MAX, &key);
    assert_eq!(kind(found), ErrorKind::Std);
    set_timeout_in(&mut store, u64::MAX);
    let found = require_valid_session(&store, &at_nanos(u64::MAX, 0), u64::MAX, &key).unwrap();
    assert_eq!(found, started);
    assert_eq!(found.address, address);
}

fn set_timeout_in(store: &mut Store, user_id: u64) {
    // The timeout of a user is written with the rest of its records.
    let profile = cw_user::models::UserProfile {
        username: None,
        description: None,
        location: None,
        image_url: None,
        cover_image_url: None,
        title: None,
        first_name: None,
        last_name: None,
        email: None,
        phone: None,
        website: None,
        color: None,
        socials: None,
    };
    cw_user::state::init_user(store, user_id, &profile, &at_nanos(0, 0)).unwrap();
}

#[test]
fn texts_of_every_character_read_back() {
    let mut storage = MockStorage::new();
    let mut store = Store::new(&mut storage);
    let mut code: u32 = 0;
    let mut n: u64 = 0;
    while code <= 0x10ffff {
        let mut text = String::new();
        let chunk_end = code + 0x800;
        while code < chunk_end && code <= 0x10ffff {
            if let Some(c) = char::from_u32(code) {
                text.push(c);
            }
            code += 1;
        }
        n += 1;
        let key = format!("key {} {}", n, text);
        let started = init_session(&mut store, &block(1, 1), &text, n, &key).unwrap();
        assert_eq!(started.address, text);
        set_timeout_in(&mut store, n);
        let found = require_valid_session(&store, &block(1, 1), n, &key).unwrap();
        assert_eq!(found.address, text);
        assert_eq!(found, started);
    }
    assert_eq!(n, 0x110000 / 0x800);
}
