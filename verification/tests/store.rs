use image_store::ObjectStore;

#[test]
fn new_store_is_empty() {
    let store = ObjectStore::new();
    assert!(!store.contains(&String::from("anything")));
    assert!(store.get(&String::from("anything")).is_none());
}

#[test]
fn put_then_get_returns_the_blob() {
    let mut store = ObjectStore::new();
    store.put(String::from("alpha"), vec![1, 2, 3]);
    assert!(store.contains(&String::from("alpha")));
    assert_eq!(store.get(&String::from("alpha")), Some(&vec![1, 2, 3]));
}

#[test]
fn put_overwrites_in_full() {
    let mut store = ObjectStore::new();
    store.put(String::from("alpha"), vec![1, 2, 3]);
    store.put(String::from("alpha"), vec![9]);
    assert_eq!(store.get(&String::from("alpha")), Some(&vec![9]));
}

#[test]
fn delete_removes_only_its_key() {
    let mut store = ObjectStore::new();
    store.put(String::from("alpha"), vec![1]);
    store.put(String::from("beta"), vec![2]);
    store.delete(&String::from("alpha"));
    assert!(!store.contains(&String::from("alpha")));
    assert_eq!(store.get(&String::from("beta")), Some(&vec![2]));
}

#[test]
fn delete_of_missing_key_leaves_store_as_is() {
    let mut store = ObjectStore::new();
    store.put(String::from("alpha"), vec![1]);
    store.delete(&String::from("missing"));
    assert_eq!(store.get(&String::from("alpha")), Some(&vec![1]));
}

#[test]
fn keys_are_independent() {
    let mut store = ObjectStore::new();
    store.put(String::from("a"), vec![1]);
    store.put(String::from("b"), vec![2]);
    assert_eq!(store.get(&String::from("a")), Some(&vec![1]));
    assert_eq!(store.get(&String::from("b")), Some(&vec![2]));
}
