use binrs::id::PasteId;
use binrs::ingest::{creation_receipt, run_ingestion};
use binrs::layout::{content_path, metadata_path, paste_key};
use binrs::retrieval::{retrieve_response, ContentMode, RetrieveResponse};
use binrs::store::PasteStore;

fn create(store: &mut PasteStore, content: &[u8], meta: Option<&str>) -> (String, usize) {
    let chunks: Vec<Vec<u8>> = vec![content.to_vec()];
    run_ingestion(store, PasteId::new(7), meta.map(str::to_string), &chunks, true).unwrap()
}

#[test]
fn create_then_plain_retrieve_round_trips() {
    let mut store = PasteStore::new();
    let (id, written) = create(&mut store, b"console.log('hi')", Some("javascript"));
    assert_eq!(id.len(), 7);
    assert!(id
        .chars()
        .all(|c| c.is_ascii_alphanumeric() || c == '_' || c == '-'));
    assert_eq!(creation_receipt(&id, written), format!("{} 17", id));
    match retrieve_response(&store, &id, ContentMode::Raw) {
        RetrieveResponse::RawContent(bytes) => assert_eq!(bytes, b"console.log('hi')".to_vec()),
        _ => panic!("expected the exact body back"),
    }
}

#[test]
fn create_without_meta_succeeds_with_default_sentinel() {
    let mut store = PasteStore::new();
    let (id, written) = create(&mut store, b"", None);
    assert_eq!(written, 0);
    match retrieve_response(&store, &id, ContentMode::Document) {
        RetrieveResponse::Document(p) => {
            assert_eq!(p.content, Vec::<u8>::new());
            assert_eq!(p.meta, "plaintext");
        }
        _ => panic!("expected the document view"),
    }
}

#[test]
fn never_created_id_is_not_found_and_service_stays_healthy() {
    let mut store = PasteStore::new();
    assert!(matches!(
        retrieve_response(&store, "zzzzzzz", ContentMode::Raw),
        RetrieveResponse::NotFound
    ));
    let (id, _) = create(&mut store, b"alive", None);
    match retrieve_response(&store, &id, ContentMode::Raw) {
        RetrieveResponse::RawContent(bytes) => assert_eq!(bytes, b"alive".to_vec()),
        _ => panic!("expected content after the miss"),
    }
}

#[test]
fn two_creations_get_distinct_ids_and_own_content() {
    let mut store = PasteStore::new();
    let (id_a, _) = create(&mut store, b"A", None);
    let (id_b, _) = create(&mut store, b"B", None);
    assert_ne!(id_a, id_b);
    match retrieve_response(&store, &id_a, ContentMode::Raw) {
        RetrieveResponse::RawContent(bytes) => assert_eq!(bytes, b"A".to_vec()),
        _ => panic!("expected content under the first id"),
    }
    match retrieve_response(&store, &id_b, ContentMode::Raw) {
        RetrieveResponse::RawContent(bytes) => assert_eq!(bytes, b"B".to_vec()),
        _ => panic!("expected content under the second id"),
    }
}

#[test]
fn persisted_layout_names_are_exact() {
    assert_eq!(paste_key("abc1234"), "paste:abc1234");
    assert_eq!(content_path("abc1234"), "pastes/abc1234");
    assert_eq!(metadata_path("abc1234"), "pastes/metadata/abc1234");
}
