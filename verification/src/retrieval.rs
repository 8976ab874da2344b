//! The retrieval path: looks a paste up by id and negotiates between the
//! raw-content answer and the structured document view.
//!
//! Policy, made explicit: an absent id is answered with a not-found outcome
//! — a client error, never a server fault and never a panic — and the meta
//! endpoint answers an absent metadata record with the fallback sentinel
//! instead of failing. Content is returned byte for byte as stored; no
//! transformation occurs here.

use crate::paste::{fallback_meta, Paste};
use crate::store::PasteStore;
use vstd::prelude::*;

verus! {

/// The content negotiation hint a caller sends along with a retrieval.
#[derive(Clone, Copy, Debug, PartialEq, Eq, Structural)]
pub enum ContentMode {
    /// The caller wants the raw content bytes, verbatim.
    Raw,
    /// The caller wants the structured `{id, content, meta}` document.
    Document,
}

/// What the retrieval path answers.
pub enum RetrieveResponse {
    /// Success in raw mode: the stored content, byte for byte.
    RawContent(Vec<u8>),
    /// Success in document mode: the full paste record.
    Document(Paste),
    /// No paste under that id: a client error, not a fault.
    NotFound,
}

/// Looks the id up and answers according to the negotiation hint: the exact
/// stored bytes in raw mode, the full record in document mode, and the
/// not-found outcome — never a panic — when the id is absent.
pub fn retrieve_response(store: &PasteStore, id: &str, mode: ContentMode) -> (r: RetrieveResponse)
    requires
        store.wf(),
    ensures
        store.contents().dom().contains(id@) ==> match mode {
            ContentMode::Raw => r matches RetrieveResponse::RawContent(c) && c@
                == store.contents()[id@].content,
            ContentMode::Document => r matches RetrieveResponse::Document(p) && p.id@ == id@ && p@
                == store.contents()[id@],
        },
        !store.contents().dom().contains(id@) ==> r is NotFound,
{
    match store.retrieve(id) {
        Ok(p) => match mode {
            ContentMode::Raw => RetrieveResponse::RawContent(p.content),
            ContentMode::Document => RetrieveResponse::Document(p),
        },
        Err(_) => RetrieveResponse::NotFound,
    }
}

/// The meta lookup of the retrieval path: the stored tag when the paste
/// exists, the fallback sentinel when it does not — this endpoint answers
/// either way.
pub fn retrieve_meta(store: &PasteStore, id: &str) -> (r: String)
    requires
        store.wf(),
    ensures
        store.contents().dom().contains(id@) ==> r@ == store.contents()[id@].meta,
        !store.contents().dom().contains(id@) ==> r@ == fallback_meta(),
{
    match store.retrieve(id) {
        Ok(p) => p.meta,
        Err(_) => "text".to_owned(),
    }
}

} // verus!
