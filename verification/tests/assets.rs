use rr_launcher::assets::AssetStore;
use rr_launcher::game::{asset_key, AssetRole, Game};

fn full_store() -> AssetStore {
    let mut store = AssetStore::new();
    for game in Game::all() {
        assert!(store.insert(asset_key(game, AssetRole::Background), vec![game.index() as u8]));
        assert!(store.insert(asset_key(game, AssetRole::Icon), vec![game.index() as u8, 1]));
    }
    store
}

#[test]
fn empty_store_holds_nothing() {
    let store = AssetStore::new();
    assert!(!store.contains("icon.png"));
    assert_eq!(store.get("icon.png"), None);
    assert_eq!(store.first_missing(), Some((Game::WutheringWaves, AssetRole::Background)));
}

#[test]
fn inserted_bytes_are_found_under_their_key_only() {
    let mut store = AssetStore::new();
    assert!(store.insert("a", vec![1, 2, 3]));
    assert!(store.insert("b", vec![]));
    assert_eq!(store.get("a"), Some(&vec![1, 2, 3]));
    assert_eq!(store.get("b"), Some(&vec![]));
    assert_eq!(store.get("c"), None);
    assert_eq!(store.get("A"), None);
    assert!(store.contains("a"));
    assert!(!store.contains(""));
}

#[test]
fn taken_key_keeps_its_bytes() {
    let mut store = AssetStore::new();
    assert!(store.insert("a", vec![1]));
    assert!(!store.insert("a", vec![2]));
    assert_eq!(store.get("a"), Some(&vec![1]));
}

#[test]
fn complete_store_lacks_nothing() {
    let store = full_store();
    assert_eq!(store.first_missing(), None);
    assert_eq!(store.get("honkaistarrail-icon.png"), Some(&vec![2, 1]));
}

#[test]
fn first_missing_asset_is_reported_in_row_order() {
    let mut store = AssetStore::new();
    for game in Game::all() {
        store.insert(asset_key(game, AssetRole::Background), vec![0]);
    }
    assert_eq!(store.first_missing(), Some((Game::WutheringWaves, AssetRole::Icon)));
    store.insert(asset_key(Game::WutheringWaves, AssetRole::Icon), vec![0]);
    store.insert(asset_key(Game::GenshinImpact, AssetRole::Icon), vec![0]);
    assert_eq!(store.first_missing(), Some((Game::ZenlessZoneZero, AssetRole::Icon)));
    store.insert(asset_key(Game::ZenlessZoneZero, AssetRole::Icon), vec![0]);
    assert_eq!(store.first_missing(), Some((Game::HonkaiStarRail, AssetRole::Icon)));
}
