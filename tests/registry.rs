use rgb_common::storage::{promote, InMemoryStorage, RGBStorage, StorageError};
use rgb_common::types::{ContractId, RgbInfo};

fn info(channel_id: &str, local: u64, remote: u64) -> RgbInfo {
    RgbInfo {
        channel_id: channel_id.to_owned(),
        contract_id: ContractId { bytes: [7u8; 32] },
        local_rgb_amount: local,
        remote_rgb_amount: remote,
    }
}

#[test]
fn db_keys_follow_the_layout() {
    let store = InMemoryStorage::new();
    assert_eq!(store.derive_channel_db_key("abc", true), "pending/channel/abc");
    assert_eq!(store.derive_channel_db_key("abc", false), "confirmed/channel/abc");
    assert_eq!(store.derive_channel_db_key("", false), "confirmed/channel/");
}

#[test]
fn read_of_missing_channel_is_not_found() {
    let store = InMemoryStorage::new();
    assert!(matches!(store.get_rgb_channel_info("c1"), Err(StorageError::NotFound)));
    assert!(matches!(store.get_rgb_channel_info_pending("c1"), Err(StorageError::NotFound)));
    assert!(!store.is_channel_rgb("c1", true));
    assert!(!store.is_channel_rgb("c1", false));
}

#[test]
fn write_is_last_write_wins_per_partition() {
    let mut store = InMemoryStorage::new();
    store.write_rgb_info("c1", true, &info("c1", 10, 0));
    store.write_rgb_info("c1", true, &info("c1", 20, 5));
    let got = store.get_rgb_channel_info_pending("c1").unwrap();
    assert_eq!(got.local_rgb_amount, 20);
    assert_eq!(got.remote_rgb_amount, 5);
    assert!(store.is_channel_rgb("c1", true));
    assert!(!store.is_channel_rgb("c1", false));
    assert!(matches!(store.get_rgb_channel_info("c1"), Err(StorageError::NotFound)));
}

#[test]
fn channels_are_independent() {
    let mut store = InMemoryStorage::new();
    store.write_rgb_info("c1", false, &info("c1", 1, 2));
    store.write_rgb_info("c2", false, &info("c2", 3, 4));
    store.remove_rgb_info("c1", false);
    assert!(!store.is_channel_rgb("c1", false));
    assert_eq!(store.get_rgb_channel_info("c2").unwrap().local_rgb_amount, 3);
}

#[test]
fn promote_moves_pending_to_confirmed() {
    let mut store = InMemoryStorage::new();
    store.write_rgb_info("tmp", true, &info("tmp", 20000, 0));
    let promoted = promote(&mut store, "tmp", &"final".to_owned()).unwrap();
    assert_eq!(promoted.channel_id, "final");
    assert!(!store.is_channel_rgb("tmp", true));
    assert!(store.is_channel_rgb("final", false));
    assert!(!store.is_channel_rgb("final", true));
    let confirmed = store.get_rgb_channel_info("final").unwrap();
    assert_eq!(confirmed.channel_id, "final");
    assert_eq!(confirmed.local_rgb_amount, 20000);
    assert_eq!(confirmed.remote_rgb_amount, 0);
}

#[test]
fn promote_under_same_id_leaves_one_partition() {
    let mut store = InMemoryStorage::new();
    store.write_rgb_info("c9", true, &info("c9", 5, 5));
    promote(&mut store, "c9", &"c9".to_owned()).unwrap();
    assert!(store.is_channel_rgb("c9", false));
    assert!(!store.is_channel_rgb("c9", true));
}

#[test]
fn promote_without_pending_fails_and_writes_nothing() {
    let mut store = InMemoryStorage::new();
    assert!(matches!(promote(&mut store, "none", &"final".to_owned()), Err(StorageError::NotFound)));
    assert!(!store.is_channel_rgb("final", false));
}

#[test]
fn watched_assets_are_a_set_in_insertion_order() {
    let mut store = InMemoryStorage::new();
    assert!(store.get_assets_list().is_empty());
    store.listen_for_asset("rgb:a");
    store.listen_for_asset("rgb:b");
    store.listen_for_asset("rgb:a");
    assert_eq!(store.get_assets_list(), vec!["rgb:a".to_owned(), "rgb:b".to_owned()]);
}

#[test]
fn promote_retires_a_stale_pending_entry_under_the_final_id() {
    let mut store = InMemoryStorage::new();
    store.write_rgb_info("tmp", true, &info("tmp", 20000, 0));
    store.write_rgb_info("final", true, &info("final", 1, 1));
    promote(&mut store, "tmp", &"final".to_owned()).unwrap();
    assert!(store.is_channel_rgb("final", false));
    assert!(!store.is_channel_rgb("final", true));
    assert!(!store.is_channel_rgb("tmp", true));
    assert_eq!(store.get_rgb_channel_info("final").unwrap().local_rgb_amount, 20000);
}
