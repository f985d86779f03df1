use slotbook::keys::key_string;
use slotbook::slot::{Slot, SlotField};
use slotbook::store::{CommitError, SlotStore};

fn draft(title: &str, username: &str) -> Slot {
    let mut d = Slot::default();
    d.set_field(SlotField::Title, String::from(title));
    d.set_field(SlotField::Username, String::from(username));
    d
}

#[test]
fn key_string_single_digits() {
    assert_eq!(key_string(0), "0");
    assert_eq!(key_string(7), "7");
    assert_eq!(key_string(9), "9");
}

#[test]
fn key_string_multi_digits() {
    assert_eq!(key_string(10), "10");
    assert_eq!(key_string(42), "42");
    assert_eq!(key_string(100), "100");
    assert_eq!(key_string(987654), "987654");
}

#[test]
fn default_slot_is_empty() {
    let d = Slot::default();
    assert_eq!(d.id, None);
    assert_eq!(d.title, "");
    assert_eq!(d.username, "");
    assert_eq!(d.email, "");
    assert_eq!(d.password, "");
    assert_eq!(d.description, "");
}

#[test]
fn set_field_replaces_only_that_field() {
    let mut d = draft("a", "b");
    d.set_field(SlotField::Email, String::from("a@b"));
    assert_eq!(d.title, "a");
    assert_eq!(d.username, "b");
    assert_eq!(d.email, "a@b");
    assert_eq!(d.password, "");
    d.set_field(SlotField::Password, String::from("pw"));
    d.set_field(SlotField::Description, String::from("note"));
    assert_eq!(d.password, "pw");
    assert_eq!(d.description, "note");
    assert_eq!(d.email, "a@b");
}

#[test]
fn insert_mints_keys_from_count() {
    let mut store = SlotStore::new();
    assert_eq!(store.len(), 0);
    let k0 = store.insert_new(&draft("first", "u0"));
    let k1 = store.insert_new(&draft("second", "u1"));
    assert_eq!(k0, "0");
    assert_eq!(k1, "1");
    assert_eq!(store.len(), 2);
    assert_eq!(store.get_at(0).id, Some(0));
    assert_eq!(store.get_at(1).id, Some(1));
    assert_eq!(store.get_at(0).title, "first");
    assert_eq!(store.get_at(1).title, "second");
}

#[test]
fn eleventh_insert_gets_a_two_digit_key() {
    let mut store = SlotStore::new();
    for i in 0..10 {
        store.insert_new(&draft(&format!("t{}", i), "u"));
    }
    let k = store.insert_new(&draft("eleventh", "u"));
    assert_eq!(k, "10");
    assert_eq!(store.find_key("10"), Some(10));
}

#[test]
fn find_key_hits_and_misses() {
    let mut store = SlotStore::new();
    store.insert_new(&draft("only", "u"));
    assert_eq!(store.find_key("0"), Some(0));
    assert_eq!(store.find_key("1"), None);
    assert_eq!(store.find_key(""), None);
    assert_eq!(store.find_key("00"), None);
    assert_eq!(store.find_key("x"), None);
}

#[test]
fn list_pairs_keys_with_slots_in_order() {
    let mut store = SlotStore::new();
    store.insert_new(&draft("a", "ua"));
    store.insert_new(&draft("b", "ub"));
    let entries = store.list();
    assert_eq!(entries.len(), 2);
    assert_eq!(entries[0].0, "0");
    assert_eq!(entries[0].1.title, "a");
    assert_eq!(entries[1].0, "1");
    assert_eq!(entries[1].1.title, "b");
}

#[test]
fn list_of_empty_store_is_empty() {
    let store = SlotStore::new();
    assert_eq!(store.list().len(), 0);
}

#[test]
fn update_overwrites_fields_in_place() {
    let mut store = SlotStore::new();
    store.insert_new(&draft("old", "u"));
    store.insert_new(&draft("other", "v"));
    let mut d = draft("new title", "w");
    d.set_field(SlotField::Password, String::from("secret"));
    assert_eq!(store.update_existing(0, &d), Ok(()));
    assert_eq!(store.get_at(0).id, Some(0));
    assert_eq!(store.get_at(0).title, "new title");
    assert_eq!(store.get_at(0).username, "w");
    assert_eq!(store.get_at(0).password, "secret");
    assert_eq!(store.get_at(1).title, "other");
    assert_eq!(store.len(), 2);
}

#[test]
fn update_with_absent_id_is_refused() {
    let mut store = SlotStore::new();
    store.insert_new(&draft("only", "u"));
    assert_eq!(store.update_existing(1, &draft("x", "y")), Err(CommitError::DanglingId));
    assert_eq!(store.len(), 1);
    assert_eq!(store.get_at(0).title, "only");
}
