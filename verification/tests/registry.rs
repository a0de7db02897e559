use cosmwasm_std::testing::MockStorage;
use cosmwasm_std::Storage;
use cw_user::error::{ContractError, ErrorKind};
use cw_user::models::{
    BlockInfo, SocialMediaId, Timestamp, User, UserConfig, UserLocation, UserMetadata, UserProfile,
};
use cw_user::msg::InstantiateMsg;
use cw_user::state::{
    exists_wallet, init_user, init_user_id, initialize, load_user, load_user_id, load_wallets,
    DEFAULT_SESSION_TIMEOUT_SECONDS,
};
use cw_user::store::Store;

fn block(seconds: u64, height: u64) -> BlockInfo {
    BlockInfo { height, time: Timestamp::from_seconds(seconds) }
}

fn kind<T: std::fmt::Debug>(r: Result<T, ContractError>) -> ErrorKind {
    r.unwrap_err().kind()
}

fn bare_profile() -> UserProfile {
    UserProfile {
        username: None,
        description: None,
        location: None,
        image_url: None,
        cover_image_url: None,
        title: None,
        first_name: None,
        last_name: None,
        email: None,
        phone: None,
        website: None,
        color: None,
        socials: None,
    }
}

fn full_profile() -> UserProfile {
    UserProfile {
        username: Some("alice".to_string()),
        description: Some("likes \"quotes\" and \\ slashes\nand lines".to_string()),
        location: Some(UserLocation {
            address_line_1: Some("1 Main St".to_string()),
            address_line_2: None,
            postal_code: Some("12345".to_string()),
            country: Some("Österreich".to_string()),
            region: None,
            city: Some("東京".to_string()),
        }),
        image_url: Some("https://example.com/a.png".to_string()),
        cover_image_url: None,
        title: Some(String::new()),
        first_name: Some("Alice".to_string()),
        last_name: Some("A".to_string()),
        email: Some("alice@example.com".to_string()),
        phone: Some("+1 555 0100".to_string()),
        website: None,
        color: Some("#ff00ff".to_string()),
        socials: Some(vec![
            SocialMediaId::Linkedin("li".to_string()),
            SocialMediaId::Twitter("tw".to_string()),
            SocialMediaId::Instagram("ig".to_string()),
            SocialMediaId::Telegram("tg".to_string()),
            SocialMediaId::Discord("dc".to_string()),
            SocialMediaId::Facebook("fb".to_string()),
            SocialMediaId::Tiktok("tt".to_string()),
            SocialMediaId::Twitter("tw2".to_string()),
        ]),
    }
}

fn instantiated(storage: &mut MockStorage) -> Store<'_> {
    let mut store = Store::new(storage);
    initialize(&mut store, &"owner".to_string(), InstantiateMsg { owner: None }).unwrap();
    store
}

#[test]
fn first_id_is_one_and_ids_rise_by_one() {
    let mut storage = MockStorage::new();
    let mut store = instantiated(&mut storage);
    assert_eq!(init_user_id(&mut store, &"alice".to_string()).unwrap(), 1);
    assert_eq!(init_user_id(&mut store, &"bob".to_string()).unwrap(), 2);
    assert_eq!(init_user_id(&mut store, &"carol".to_string()).unwrap(), 3);
    assert_eq!(load_user_id(&store, &"alice".to_string()).unwrap(), 1);
    assert_eq!(load_user_id(&store, &"bob".to_string()).unwrap(), 2);
    assert_eq!(load_user_id(&store, &"carol".to_string()).unwrap(), 3);
}

#[test]
fn allocate_twice_is_user_exists_and_changes_nothing() {
    let mut storage = MockStorage::new();
    let mut store = instantiated(&mut storage);
    assert_eq!(init_user_id(&mut store, &"alice".to_string()).unwrap(), 1);
    assert_eq!(kind(init_user_id(&mut store, &"alice".to_string())), ErrorKind::UserExists);
    assert_eq!(load_user_id(&store, &"alice".to_string()).unwrap(), 1);
    // The refusal did not use up an id.
    assert_eq!(init_user_id(&mut store, &"bob".to_string()).unwrap(), 2);
    assert_eq!(load_wallets(&store, 1).unwrap(), vec!["alice".to_string()]);
}

#[test]
fn unknown_address_is_user_not_found() {
    let mut storage = MockStorage::new();
    let store = instantiated(&mut storage);
    assert_eq!(kind(load_user_id(&store, &"nobody".to_string())), ErrorKind::UserNotFound);
    assert!(!exists_wallet(&store, &"nobody".to_string()));
}

#[test]
fn exists_wallet_after_allocation() {
    let mut storage = MockStorage::new();
    let mut store = instantiated(&mut storage);
    assert!(!exists_wallet(&store, &"alice".to_string()));
    init_user_id(&mut store, &"alice".to_string()).unwrap();
    assert!(exists_wallet(&store, &"alice".to_string()));
    assert!(!exists_wallet(&store, &"alic".to_string()));
    assert!(!exists_wallet(&store, &"alicea".to_string()));
}

#[test]
fn allocate_without_counters_is_a_store_error_and_changes_nothing() {
    let mut storage = MockStorage::new();
    let mut store = Store::new(&mut storage);
    assert_eq!(kind(init_user_id(&mut store, &"alice".to_string())), ErrorKind::Std);
    assert!(!exists_wallet(&store, &"alice".to_string()));
    assert_eq!(load_wallets(&store, 1).unwrap(), Vec::<String>::new());
}

#[test]
fn allocate_at_the_last_id_is_a_store_error_and_changes_nothing() {
    let mut storage = MockStorage::new();
    cw_storage_plus::Item::<u64>::new("id_counter").save(&mut storage, &u64::MAX).unwrap();
    cw_storage_plus::Item::<u32>::new("user_count").save(&mut storage, &0).unwrap();
    let mut store = Store::new(&mut storage);
    assert_eq!(kind(init_user_id(&mut store, &"alice".to_string())), ErrorKind::Std);
    assert!(!exists_wallet(&store, &"alice".to_string()));
}

#[test]
fn allocate_just_below_the_last_id_gives_the_last_id() {
    let mut storage = MockStorage::new();
    cw_storage_plus::Item::<u64>::new("id_counter").save(&mut storage, &(u64::MAX - 1)).unwrap();
    cw_storage_plus::Item::<u32>::new("user_count").save(&mut storage, &0).unwrap();
    let mut store = Store::new(&mut storage);
    assert_eq!(init_user_id(&mut store, &"alice".to_string()).unwrap(), u64::MAX);
    assert_eq!(load_wallets(&store, u64::MAX).unwrap(), vec!["alice".to_string()]);
    assert_eq!(load_wallets(&store, u64::MAX - 1).unwrap(), Vec::<String>::new());
}

#[test]
fn allocate_with_a_full_user_count_is_a_store_error_and_changes_nothing() {
    let mut storage = MockStorage::new();
    cw_storage_plus::Item::<u64>::new("id_counter").save(&mut storage, &4).unwrap();
    cw_storage_plus::Item::<u32>::new("user_count").save(&mut storage, &u32::MAX).unwrap();
    {
        let mut store = Store::new(&mut storage);
        assert_eq!(kind(init_user_id(&mut store, &"alice".to_string())), ErrorKind::Std);
        assert_eq!(kind(load_user_id(&store, &"alice".to_string())), ErrorKind::UserNotFound);
        assert_eq!(load_wallets(&store, 5).unwrap(), Vec::<String>::new());
    }
    assert_eq!(cw_storage_plus::Item::<u64>::new("id_counter").load(&storage).unwrap(), 4);
}

#[test]
fn allocate_without_a_user_count_is_a_store_error_and_changes_nothing() {
    let mut storage = MockStorage::new();
    cw_storage_plus::Item::<u64>::new("id_counter").save(&mut storage, &4).unwrap();
    {
        let mut store = Store::new(&mut storage);
        assert_eq!(kind(init_user_id(&mut store, &"alice".to_string())), ErrorKind::Std);
        assert!(!exists_wallet(&store, &"alice".to_string()));
    }
    assert_eq!(cw_storage_plus::Item::<u64>::new("id_counter").load(&storage).unwrap(), 4);
}

#[test]
fn unreadable_id_is_a_store_error_but_counts_as_filed() {
    let mut storage = MockStorage::new();
    let raw_key =
        cw_storage_plus::Map::<String, u64>::new("address_to_id").key("alice".to_string());
    storage.set(&raw_key, b"{not a number}");
    let mut store = instantiated(&mut storage);
    assert_eq!(kind(load_user_id(&store, &"alice".to_string())), ErrorKind::Std);
    assert!(exists_wallet(&store, &"alice".to_string()));
    assert_eq!(kind(init_user_id(&mut store, &"alice".to_string())), ErrorKind::UserExists);
}

#[test]
fn init_user_writes_profile_metadata_and_default_timeout() {
    let mut storage = MockStorage::new();
    let mut store = instantiated(&mut storage);
    let id = init_user_id(&mut store, &"alice".to_string()).unwrap();
    init_user(&mut store, id, &full_profile(), &block(777, 5)).unwrap();
    let user = load_user(&store, id).unwrap();
    assert_eq!(
        user,
        User {
            id: 1,
            metadata: UserMetadata {
                created_at: Timestamp::from_seconds(777),
                updated_at: Timestamp::from_seconds(777),
            },
            profile: full_profile(),
            wallets: vec!["alice".to_string()],
            config: UserConfig { session_timeout_seconds: 172800 },
        }
    );
    assert_eq!(user.config.session_timeout_seconds, DEFAULT_SESSION_TIMEOUT_SECONDS);
}

#[test]
fn bare_profile_keeps_every_field_missing() {
    let mut storage = MockStorage::new();
    let mut store = instantiated(&mut storage);
    let id = init_user_id(&mut store, &"alice".to_string()).unwrap();
    init_user(&mut store, id, &bare_profile(), &block(1, 1)).unwrap();
    assert_eq!(load_user(&store, id).unwrap().profile, bare_profile());
}

#[test]
fn empty_and_missing_are_told_apart() {
    let mut storage = MockStorage::new();
    let mut store = instantiated(&mut storage);
    let id = init_user_id(&mut store, &"alice".to_string()).unwrap();
    let mut profile = bare_profile();
    profile.username = Some(String::new());
    profile.socials = Some(vec![]);
    profile.location = Some(UserLocation {
        address_line_1: None,
        address_line_2: None,
        postal_code: None,
        country: None,
        region: None,
        city: None,
    });
    init_user(&mut store, id, &profile, &block(1, 1)).unwrap();
    let read = load_user(&store, id).unwrap().profile;
    assert_eq!(read, profile);
    assert_ne!(read, bare_profile());
}

#[test]
fn profiles_of_two_users_do_not_mix() {
    let mut storage = MockStorage::new();
    let mut store = instantiated(&mut storage);
    let a = init_user_id(&mut store, &"alice".to_string()).unwrap();
    init_user(&mut store, a, &full_profile(), &block(10, 1)).unwrap();
    let b = init_user_id(&mut store, &"bob".to_string()).unwrap();
    init_user(&mut store, b, &bare_profile(), &block(20, 2)).unwrap();
    let alice = load_user(&store, a).unwrap();
    let bob = load_user(&store, b).unwrap();
    assert_eq!(alice.profile, full_profile());
    assert_eq!(alice.wallets, vec!["alice".to_string()]);
    assert_eq!(alice.metadata.created_at, Timestamp::from_seconds(10));
    assert_eq!(bob.profile, bare_profile());
    assert_eq!(bob.wallets, vec!["bob".to_string()]);
    assert_eq!(bob.metadata.created_at, Timestamp::from_seconds(20));
}

#[test]
fn load_user_without_records_is_a_store_error() {
    let mut storage = MockStorage::new();
    let mut store = instantiated(&mut storage);
    assert_eq!(kind(load_user(&store, 1)), ErrorKind::Std);
    let id = init_user_id(&mut store, &"alice".to_string()).unwrap();
    // The id is given, but no record was written under it yet.
    assert_eq!(kind(load_user(&store, id)), ErrorKind::Std);
}

#[test]
fn load_user_with_an_unreadable_profile_is_a_store_error() {
    let mut storage = MockStorage::new();
    let raw_key = cw_storage_plus::Map::<u64, u64>::new("profiles").key(1);
    {
        let mut store = instantiated(&mut storage);
        let id = init_user_id(&mut store, &"alice".to_string()).unwrap();
        init_user(&mut store, id, &full_profile(), &block(1, 1)).unwrap();
        assert!(load_user(&store, id).is_ok());
    }
    storage.set(&raw_key, b"[1,2,3]");
    let store = Store::new(&mut storage);
    assert_eq!(kind(load_user(&store, 1)), ErrorKind::Std);
}

#[test]
fn wallets_come_in_ascending_order_of_their_bytes() {
    let mut storage = MockStorage::new();
    let index = cw_storage_plus::Map::<(u64, String), bool>::new("id_2_addr");
    for addr in ["b", "a", "ab", "", "B", "é", "z", "aa"] {
        index.save(&mut storage, (7, addr.to_string()), &true).unwrap();
    }
    index.save(&mut storage, (6, "other".to_string()), &true).unwrap();
    index.save(&mut storage, (8, "another".to_string()), &true).unwrap();
    let store = Store::new(&mut storage);
    assert_eq!(
        load_wallets(&store, 7).unwrap(),
        vec!["", "B", "a", "aa", "ab", "b", "z", "é"]
            .into_iter()
            .map(String::from)
            .collect::<Vec<String>>()
    );
    assert_eq!(load_wallets(&store, 6).unwrap(), vec!["other".to_string()]);
    assert_eq!(load_wallets(&store, 9).unwrap(), Vec::<String>::new());
}

#[test]
fn wallets_of_the_last_id_and_of_ids_that_end_in_255() {
    let mut storage = MockStorage::new();
    let index = cw_storage_plus::Map::<(u64, String), bool>::new("id_2_addr");
    index.save(&mut storage, (255, "x".to_string()), &true).unwrap();
    index.save(&mut storage, (256, "y".to_string()), &true).unwrap();
    index.save(&mut storage, (u64::MAX, "last".to_string()), &true).unwrap();
    let store = Store::new(&mut storage);
    assert_eq!(load_wallets(&store, 255).unwrap(), vec!["x".to_string()]);
    assert_eq!(load_wallets(&store, 256).unwrap(), vec!["y".to_string()]);
    assert_eq!(load_wallets(&store, u64::MAX).unwrap(), vec!["last".to_string()]);
}

#[test]
fn wallets_with_an_entry_that_is_no_text_are_a_store_error() {
    let mut storage = MockStorage::new();
    let index = cw_storage_plus::Map::<(u64, String), bool>::new("id_2_addr");
    index.save(&mut storage, (7, "a".to_string()), &true).unwrap();
    let mut raw_key = index.key((7, String::new())).to_vec();
    raw_key.extend_from_slice(&[b'b', 0xff]);
    storage.set(&raw_key, b"true");
    let store = Store::new(&mut storage);
    assert_eq!(kind(load_wallets(&store, 7)), ErrorKind::Std);
}

#[test]
fn wallets_pass_over_keys_that_no_address_has() {
    let mut storage = MockStorage::new();
    let index = cw_storage_plus::Map::<(u64, String), bool>::new("id_2_addr");
    index.save(&mut storage, (255, "x".to_string()), &true).unwrap();
    index.save(&mut storage, (255, "\u{10ffff}".to_string()), &true).unwrap();
    let full = index.key((255, String::new())).to_vec();
    // A key that holds seven bytes where an id has eight.
    let mut short = full[..full.len() - 8].to_vec();
    short.extend_from_slice(&[0, 0, 0, 0, 0, 0, 1]);
    storage.set(&short, b"true");
    // A key whose address would begin with a byte that no text begins with.
    let mut beyond = full.clone();
    beyond.extend_from_slice(&[0xff, b'a']);
    storage.set(&beyond, b"true");
    let store = Store::new(&mut storage);
    assert_eq!(
        load_wallets(&store, 255).unwrap(),
        vec!["x".to_string(), "\u{10ffff}".to_string()]
    );
}

#[test]
fn wallets_with_an_unreadable_entry_are_a_store_error() {
    let mut storage = MockStorage::new();
    let index = cw_storage_plus::Map::<(u64, String), bool>::new("id_2_addr");
    index.save(&mut storage, (7, "a".to_string()), &true).unwrap();
    storage.set(&index.key((7, "b".to_string())), b"maybe");
    let store = Store::new(&mut storage);
    assert_eq!(kind(load_wallets(&store, 7)), ErrorKind::Std);
}

#[test]
fn initialize_puts_the_counters_at_zero() {
    let mut storage = MockStorage::new();
    {
        let mut store = Store::new(&mut storage);
        initialize(&mut store, &"owner".to_string(), InstantiateMsg { owner: None }).unwrap();
    }
    assert_eq!(cw_storage_plus::Item::<u64>::new("id_counter").load(&storage).unwrap(), 0);
    assert_eq!(cw_storage_plus::Item::<u32>::new("user_count").load(&storage).unwrap(), 0);
}

#[test]
fn user_count_rises_with_each_allocation() {
    let mut storage = MockStorage::new();
    {
        let mut store = instantiated(&mut storage);
        init_user_id(&mut store, &"alice".to_string()).unwrap();
        init_user_id(&mut store, &"bob".to_string()).unwrap();
        let _ = init_user_id(&mut store, &"bob".to_string());
    }
    assert_eq!(cw_storage_plus::Item::<u32>::new("user_count").load(&storage).unwrap(), 2);
    assert_eq!(cw_storage_plus::Item::<u64>::new("id_counter").load(&storage).unwrap(), 2);
}
