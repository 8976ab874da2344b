//! The persisted layout: where a backend stores a paste.
//!
//! Filesystem: `pastes/<id>` holds the content, `pastes/metadata/<id>` the
//! meta string. Key-value: a hash at key `paste:<id>` with fields `content`
//! and `meta`. The adapters perform the stores; the names are built here.

use vstd::prelude::*;

verus! {

use vstd::string::StringExecFns;

/// The key-value key of a paste: `paste:<id>`.
pub fn paste_key(id: &str) -> (r: String)
    ensures
        r@ == "paste:"@ + id@,
{
    let mut r = "paste:".to_owned();
    r.append(id);
    r
}

/// The content file of a paste: `pastes/<id>`.
pub fn content_path(id: &str) -> (r: String)
    ensures
        r@ == "pastes/"@ + id@,
{
    let mut r = "pastes/".to_owned();
    r.append(id);
    r
}

/// The metadata file of a paste: `pastes/metadata/<id>`.
pub fn metadata_path(id: &str) -> (r: String)
    ensures
        r@ == "pastes/metadata/"@ + id@,
{
    let mut r = "pastes/metadata/".to_owned();
    r.append(id);
    r
}

} // verus!
