use binrs::paste::Paste;
use binrs::store::{text_content, PasteStore, StorageError};

fn paste(id: &str, meta: &str, content: &[u8]) -> Paste {
    Paste { id: id.to_string(), meta: meta.to_string(), content: content.to_vec() }
}

#[test]
fn round_trip_returns_stored_content_and_meta() {
    let mut store = PasteStore::new();
    store.create(paste("abc1234", "javascript", b"console.log('hi')")).unwrap();
    let got = store.retrieve("abc1234").unwrap();
    assert_eq!(got.id, "abc1234");
    assert_eq!(got.meta, "javascript");
    assert_eq!(got.content, b"console.log('hi')".to_vec());
}

#[test]
fn round_trip_empty_content() {
    let mut store = PasteStore::new();
    store.create(paste("abc1234", "plaintext", b"")).unwrap();
    let got = store.retrieve("abc1234").unwrap();
    assert_eq!(got.content, Vec::<u8>::new());
    assert_eq!(got.meta, "plaintext");
}

#[test]
fn retrieve_absent_id_is_not_found() {
    let store = PasteStore::new();
    let err = store.retrieve("doesnotexist").unwrap_err();
    assert_eq!(err, StorageError::NotFound);
}

#[test]
fn not_found_is_non_fatal_for_later_requests() {
    let mut store = PasteStore::new();
    assert_eq!(store.retrieve("zzzzzzz").unwrap_err(), StorageError::NotFound);
    store.create(paste("after12", "text", b"still works")).unwrap();
    assert_eq!(store.retrieve("after12").unwrap().content, b"still works".to_vec());
    assert_eq!(store.retrieve("zzzzzzz").unwrap_err(), StorageError::NotFound);
}

#[test]
fn distinct_ids_are_independent() {
    let mut store = PasteStore::new();
    store.create(paste("id_aaaa", "text", b"A")).unwrap();
    store.create(paste("id_bbbb", "text", b"B")).unwrap();
    assert_eq!(store.retrieve("id_aaaa").unwrap().content, b"A".to_vec());
    assert_eq!(store.retrieve("id_bbbb").unwrap().content, b"B".to_vec());
    assert_eq!(store.len(), 2);
}

#[test]
fn create_under_other_id_leaves_record_untouched() {
    let mut store = PasteStore::new();
    store.create(paste("first00", "rust", b"fn main() {}")).unwrap();
    let before = store.retrieve("first00").unwrap();
    store.create(paste("second0", "text", b"other")).unwrap();
    let after = store.retrieve("first00").unwrap();
    assert_eq!(before.content, after.content);
    assert_eq!(before.meta, after.meta);
}

#[test]
fn repeated_retrieve_is_byte_identical() {
    let mut store = PasteStore::new();
    store.create(paste("same000", "text", b"\x00\xffbytes\x01")).unwrap();
    let first = store.retrieve("same000").unwrap();
    let second = store.retrieve("same000").unwrap();
    assert_eq!(first.content, second.content);
    assert_eq!(first.meta, second.meta);
}

#[test]
fn create_on_colliding_id_is_last_write_wins() {
    let mut store = PasteStore::new();
    store.create(paste("clash00", "text", b"old")).unwrap();
    store.create(paste("clash00", "rust", b"new")).unwrap();
    let got = store.retrieve("clash00").unwrap();
    assert_eq!(got.content, b"new".to_vec());
    assert_eq!(got.meta, "rust");
    assert_eq!(store.len(), 1);
}

#[test]
fn text_coercion_keeps_utf8_content() {
    assert_eq!(text_content(b"console.log('hi')".to_vec()).unwrap(), "console.log('hi')");
    assert_eq!(text_content(Vec::new()).unwrap(), "");
}

#[test]
fn non_utf8_content_is_a_serialization_error() {
    let err = text_content(vec![0xff, 0xfe, 0x01]).unwrap_err();
    assert_eq!(err, StorageError::SerializationError);
}

#[test]
fn contains_tracks_creation() {
    let mut store = PasteStore::new();
    assert!(!store.contains("abc1234"));
    store.create(paste("abc1234", "text", b"x")).unwrap();
    assert!(store.contains("abc1234"));
    assert!(!store.contains("abc123"));
}
