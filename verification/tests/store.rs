use rhino_config::feature::{MarkerKey, Variant};
use rhino_config::store::{MarkerStore, StoreFault};

fn all_keys() -> Vec<MarkerKey> {
    let mut keys = vec![
        MarkerKey::Mainline,
        MarkerKey::Pacstall,
        MarkerKey::Snapdpurge,
        MarkerKey::Liquorix,
        MarkerKey::Libre,
    ];
    for rank in 0..6 {
        keys.push(MarkerKey::Xanmod(Variant::of_rank(rank)));
    }
    keys
}

#[test]
fn new_store_holds_no_marker() {
    let store = MarkerStore::new();
    for key in all_keys() {
        assert!(!store.is_present(key));
    }
}

#[test]
fn create_then_remove_round_trips_for_every_key() {
    for key in all_keys() {
        let mut store = MarkerStore::new();
        assert_eq!(store.create(key), Ok(()));
        assert!(store.is_present(key));
        assert_eq!(store.remove(key), Ok(()));
        assert!(!store.is_present(key));
    }
}

#[test]
fn create_touches_no_other_marker() {
    for key in all_keys() {
        let mut store = MarkerStore::new();
        store.create(key).unwrap();
        for other in all_keys() {
            assert_eq!(store.is_present(other), other == key);
        }
    }
}

#[test]
fn creating_a_present_marker_keeps_it() {
    let mut store = MarkerStore::new();
    store.create(MarkerKey::Pacstall).unwrap();
    assert_eq!(store.create(MarkerKey::Pacstall), Ok(()));
    assert!(store.is_present(MarkerKey::Pacstall));
}

#[test]
fn removing_an_absent_marker_is_not_found() {
    let mut store = MarkerStore::new();
    store.create(MarkerKey::Libre).unwrap();
    assert_eq!(store.remove(MarkerKey::Liquorix), Err(StoreFault::NotFound));
    assert!(store.is_present(MarkerKey::Libre));
    assert!(!store.is_present(MarkerKey::Liquorix));
}
