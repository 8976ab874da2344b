use binrs::id::PasteId;
use binrs::ingest::{creation_receipt, run_ingestion, usize_to_decimal, Ingestion};
use binrs::store::PasteStore;

#[test]
fn pipeline_persists_all_chunks_in_order() {
    let mut store = PasteStore::new();
    let chunks: Vec<Vec<u8>> = vec![b"console.".to_vec(), b"log".to_vec(), b"('hi')".to_vec()];
    let receipt = run_ingestion(
        &mut store,
        PasteId::new(7),
        Some("javascript".to_string()),
        &chunks,
        true,
    )
    .unwrap();
    let (id, written) = receipt;
    assert_eq!(written, 17);
    let got = store.retrieve(&id).unwrap();
    assert_eq!(got.content, b"console.log('hi')".to_vec());
    assert_eq!(got.meta, "javascript");
}

#[test]
fn pipeline_without_language_header_uses_default_meta() {
    let mut store = PasteStore::new();
    let chunks: Vec<Vec<u8>> = vec![b"hello".to_vec()];
    let (id, _) = run_ingestion(&mut store, PasteId::new(7), None, &chunks, true).unwrap();
    assert_eq!(store.retrieve(&id).unwrap().meta, "plaintext");
}

#[test]
fn empty_body_creates_empty_paste() {
    let mut store = PasteStore::new();
    let chunks: Vec<Vec<u8>> = Vec::new();
    let (id, written) = run_ingestion(&mut store, PasteId::new(7), None, &chunks, true).unwrap();
    assert_eq!(written, 0);
    let got = store.retrieve(&id).unwrap();
    assert_eq!(got.content, Vec::<u8>::new());
    assert_eq!(got.meta, "plaintext");
}

#[test]
fn truncated_stream_leaves_no_artifact() {
    let mut store = PasteStore::new();
    let id = PasteId::new(7);
    let handle = id.as_str().to_string();
    let chunks: Vec<Vec<u8>> = vec![b"first ".to_vec(), b"half".to_vec()];
    let outcome = run_ingestion(&mut store, id, Some("text".to_string()), &chunks, false);
    assert!(outcome.is_none());
    assert!(!store.contains(&handle));
    assert_eq!(store.len(), 0);
}

#[test]
fn truncation_then_retry_stores_only_the_complete_body() {
    let mut store = PasteStore::new();
    let partial: Vec<Vec<u8>> = vec![b"12345".to_vec()];
    assert!(run_ingestion(&mut store, PasteId::new(7), None, &partial, false).is_none());
    let full: Vec<Vec<u8>> = vec![b"12345".to_vec(), b"6789".to_vec()];
    let (id, written) = run_ingestion(&mut store, PasteId::new(7), None, &full, true).unwrap();
    assert_eq!(written, 9);
    assert_eq!(store.len(), 1);
    assert_eq!(store.retrieve(&id).unwrap().content, b"123456789".to_vec());
}

#[test]
fn manual_pipeline_buffers_without_touching_store() {
    let mut ingestion = Ingestion::begin(PasteId::new(7), Some("rust".to_string()));
    ingestion.push_chunk(b"fn main() ");
    ingestion.push_chunk(b"{}");
    assert_eq!(ingestion.bytes_buffered(), 12);
    let mut store = PasteStore::new();
    let (id, written) = ingestion.commit(&mut store);
    assert_eq!(written, 12);
    assert_eq!(store.retrieve(&id).unwrap().content, b"fn main() {}".to_vec());
    assert_eq!(store.retrieve(&id).unwrap().meta, "rust");
}

#[test]
fn decimal_rendering_is_exact() {
    assert_eq!(usize_to_decimal(0), "0");
    assert_eq!(usize_to_decimal(7), "7");
    assert_eq!(usize_to_decimal(10), "10");
    assert_eq!(usize_to_decimal(99), "99");
    assert_eq!(usize_to_decimal(12345), "12345");
}

#[test]
fn receipt_carries_id_and_true_byte_count() {
    assert_eq!(creation_receipt("abc1234", 0), "abc1234 0");
    assert_eq!(creation_receipt("abc1234", 17), "abc1234 17");
}
