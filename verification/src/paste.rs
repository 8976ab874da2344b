//! The paste data model: the immutable `(id, content, meta)` record the
//! service stores and serves, and the rules for the `meta` tag.
//!
//! `meta` names the content's language or format. A creation request may
//! omit it; the documented default sentinel is `"plaintext"`. The retrieval
//! side of the service answers a missing metadata record with the fallback
//! sentinel `"text"` instead of failing.

use vstd::prelude::*;

verus! {

/// The view of a paste: its content bytes and its meta tag, as the
/// mathematical values the contracts speak of.
pub ghost struct PasteView {
    pub content: Seq<u8>,
    pub meta: Seq<char>,
}

/// The sole persistent entity: an immutable record with a public handle
/// (`id`), opaque content bytes, and a language tag (`meta`).
#[derive(Debug)]
pub struct Paste {
    pub id: String,
    pub meta: String,
    pub content: Vec<u8>,
}

impl View for Paste {
    type V = PasteView;

    open spec fn view(&self) -> PasteView {
        PasteView { content: self.content@, meta: self.meta@ }
    }
}

/// Copies a byte buffer; the copy holds exactly the same bytes.
fn clone_bytes(v: &Vec<u8>) -> (r: Vec<u8>)
    ensures
        r@ == v@,
{
    let r = v.clone();
    proof {
        assert(r@ =~= v@);
    }
    r
}

impl Clone for Paste {
    /// A clone is the same record: same id, same content bytes, same meta.
    fn clone(&self) -> (r: Self)
        ensures
            r.id@ == self.id@,
            r@ == self@,
    {
        Paste { id: self.id.clone(), meta: self.meta.clone(), content: clone_bytes(&self.content) }
    }
}

/// The text a client submits through the editor form.
pub struct Input {
    pub input: String,
}

/// The meta tag a creation request gets when it names none.
pub open spec fn default_meta() -> Seq<char> {
    "plaintext"@
}

/// The meta tag the retrieval path reports when no metadata record exists
/// for a paste.
pub open spec fn fallback_meta() -> Seq<char> {
    "text"@
}

/// The meta tag a creation request ends up with: the tag it names, or the
/// default sentinel when it names none.
pub open spec fn resolved_meta(hint: Option<String>) -> Seq<char> {
    match hint {
        Some(m) => m@,
        None => default_meta(),
    }
}

/// Applies the default sentinel: a request that carries a language tag keeps
/// it, one that carries none gets `"plaintext"`.
pub fn resolve_meta(hint: Option<String>) -> (r: String)
    ensures
        r@ == resolved_meta(hint),
{
    match hint {
        Some(m) => m,
        None => "plaintext".to_owned(),
    }
}

} // verus!
