use testrepository_repository::error::Error;
use testrepository_repository::memory::{Memory, MemoryStore};
use testrepository_repository::repository::Repository;

#[test]
fn initialized_name_opens_and_is_empty() {
    let mut store = MemoryStore::default();
    store.initialize("a");
    let repo = Memory::new("a", &store).unwrap();
    assert_eq!(repo.path(), "a");
    assert_eq!(repo.count(&store).unwrap(), 0);
    assert_eq!(repo.latest_id(&store).unwrap(), None);
}

#[test]
fn uninitialized_name_is_refused() {
    let mut store = MemoryStore::default();
    let e = Memory::new("a", &store).unwrap_err();
    assert!(matches!(e, Error::NameNotInitialized { ref name } if name == "a"));
    assert_eq!(e.message(), "Repository not found at a");
    store.initialize("a");
    assert!(Memory::new("a", &store).is_ok());
    assert!(Memory::new("A", &store).is_err());
    assert!(Memory::new("", &store).is_err());
    assert!(Memory::new("ab", &store).is_err());
    // Opening creates nothing.
    assert!(Memory::new("ab", &store).is_err());
}

#[test]
fn handles_on_one_name_share_a_run_list() {
    let mut store = MemoryStore::default();
    store.initialize("a");
    let first = Memory::new("a", &store).unwrap();
    store.initialize("b");
    let second = Memory::new("a", &store).unwrap();
    let other = Memory::new("b", &store).unwrap();
    assert_eq!(format!("{:?}", first), format!("{:?}", second));
    assert_ne!(format!("{:?}", first), format!("{:?}", other));
    assert_eq!(first.count(&store).unwrap(), second.count(&store).unwrap());
    assert_eq!(other.count(&store).unwrap(), 0);
}

#[test]
fn initializing_again_binds_a_new_run_list() {
    let mut store = MemoryStore::default();
    store.initialize("a");
    let old = Memory::new("a", &store).unwrap();
    store.initialize("a");
    let new = Memory::new("a", &store).unwrap();
    assert_ne!(format!("{:?}", old), format!("{:?}", new));
    assert_eq!(old.count(&store).unwrap(), 0);
    assert_eq!(new.count(&store).unwrap(), 0);
}

#[test]
fn a_handle_counts_in_its_own_store_only() {
    let mut store = MemoryStore::default();
    store.initialize("a");
    store.initialize("b");
    let repo = Memory::new("b", &store).unwrap();
    let stranger = MemoryStore::default();
    let e = repo.count(&stranger).unwrap_err();
    assert!(matches!(e, Error::NameNotInitialized { ref name } if name == "b"));
    assert!(repo.latest_id(&stranger).is_err());
}

#[test]
fn a_store_that_knew_other_names_refuses_the_handle() {
    let mut store = MemoryStore::default();
    store.initialize("x");
    let repo = Memory::new("x", &store).unwrap();
    let mut stranger = MemoryStore::default();
    stranger.initialize("y");
    let e = repo.count(&stranger).unwrap_err();
    assert!(matches!(e, Error::NameNotInitialized { ref name } if name == "x"));
    assert!(repo.latest_id(&stranger).is_err());
    // A store that made its run list for the same name in the same place
    // cannot be told from the handle's own.
    let mut twin = MemoryStore::default();
    twin.initialize("x");
    assert_eq!(repo.count(&twin).unwrap(), 0);
}

#[test]
fn the_empty_name_is_a_name() {
    let mut store = MemoryStore::default();
    store.initialize("");
    assert!(Memory::new("", &store).is_ok());
}
