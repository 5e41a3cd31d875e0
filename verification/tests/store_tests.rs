use player_store::error::StoreError;
use player_store::memory::MemoryStore;
use player_store::player::Player;
use player_store::store::{get_or_insert_player, PlayerStore};

fn player(id: i64, name: &str) -> Player {
    Player { id, name: name.to_string() }
}

#[test]
fn round_trip_returns_the_inserted_record() {
    let mut store = MemoryStore::new();
    let original = player(42, "Ada");
    store.insert_player(&original).expect("fresh insert must succeed");
    let found = store.get_player(42).expect("in-memory lookup cannot fail");
    assert_eq!(found, Some(original));
}

#[test]
fn absent_id_gives_none_and_no_error() {
    let store = MemoryStore::new();
    let found = store.get_player(9999).expect("absence is not an error");
    assert_eq!(found, None);
}

#[test]
fn duplicate_insert_is_rejected_and_nothing_is_overwritten() {
    let mut store = MemoryStore::new();
    store.insert_player(&player(7, "Grace")).expect("fresh insert must succeed");
    let second = store.insert_player(&player(7, "Linus"));
    assert_eq!(second, Err(StoreError::UniqueViolation));
    let found = store.get_player(7).expect("in-memory lookup cannot fail");
    assert_eq!(found, Some(player(7, "Grace")));
}

#[test]
fn get_or_insert_fresh_id_inserts_and_returns_the_candidate() {
    let mut store = MemoryStore::new();
    let returned = get_or_insert_player(player(42, "Ada"), &mut store)
        .expect("fresh id must succeed in memory");
    assert_eq!(returned, player(42, "Ada"));
    let found = store.get_player(42).expect("in-memory lookup cannot fail");
    assert_eq!(found, Some(player(42, "Ada")));
}

#[test]
fn get_or_insert_existing_id_returns_the_stored_record() {
    let mut store = MemoryStore::new();
    store.insert_player(&player(7, "Grace")).expect("fresh insert must succeed");
    let returned = get_or_insert_player(player(7, "Linus"), &mut store)
        .expect("existing id must succeed in memory");
    assert_eq!(returned, player(7, "Grace"));
    let found = store.get_player(7).expect("in-memory lookup cannot fail");
    assert_eq!(found, Some(player(7, "Grace")));
}

#[test]
fn racing_inserts_fail_on_the_second_not_silently() {
    // Two callers race on the same unused id: both look it up, both see
    // absence, then both try to insert. Exactly one insert succeeds; the
    // other must surface the constraint error rather than overwrite.
    let mut store = MemoryStore::new();
    let first_lookup = store.get_player(3).expect("lookup cannot fail");
    let second_lookup = store.get_player(3).expect("lookup cannot fail");
    assert_eq!(first_lookup, None);
    assert_eq!(second_lookup, None);
    let first_insert = store.insert_player(&player(3, "Alan"));
    let second_insert = store.insert_player(&player(3, "Edsger"));
    assert_eq!(first_insert, Ok(()));
    assert_eq!(second_insert, Err(StoreError::UniqueViolation));
    let found = store.get_player(3).expect("lookup cannot fail");
    assert_eq!(found, Some(player(3, "Alan")));
}

#[test]
fn default_player_is_id_zero_with_empty_name() {
    let p = Player::default();
    assert_eq!(p, player(0, ""));
}

#[test]
fn player_equality_compares_both_fields() {
    assert_eq!(player(1, "Ada"), player(1, "Ada"));
    assert_ne!(player(1, "Ada"), player(2, "Ada"));
    assert_ne!(player(1, "Ada"), player(1, "Grace"));
}

#[test]
fn cloned_player_equals_the_original() {
    let p = player(5, "Barbara");
    assert_eq!(p.clone(), p);
}

#[test]
fn error_variants_are_distinct() {
    assert_ne!(StoreError::Connectivity, StoreError::UniqueViolation);
    assert_ne!(StoreError::UniqueViolation, StoreError::RowDecode);
    assert_ne!(StoreError::Connectivity, StoreError::RowDecode);
}

#[test]
fn many_records_each_keep_their_own_name() {
    let mut store = MemoryStore::new();
    for id in 0..20i64 {
        let name = format!("player-{}", id);
        store.insert_player(&Player { id, name }).expect("fresh insert must succeed");
    }
    for id in 0..20i64 {
        let expected = format!("player-{}", id);
        let found = store.get_player(id).expect("lookup cannot fail");
        assert_eq!(found, Some(Player { id, name: expected }));
    }
    assert_eq!(store.get_player(20).expect("lookup cannot fail"), None);
}
