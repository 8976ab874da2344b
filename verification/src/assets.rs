//! Static asset requests and the page data of the document view.
//!
//! The surrounding HTTP layer serves embedded assets and renders HTML; what
//! belongs to the library is the logic: normalizing a request path to an
//! asset name — leading slashes go, and a request under the static
//! namespace loses every `static/` segment — and naming the content type of
//! an asset path.

use vstd::prelude::*;

verus! {

use vstd::string::{StrSliceExecFns, StringExecFns};

/// The static namespace prefix of asset request paths.
pub open spec fn static_seg() -> Seq<char> {
    "static/"@
}

/// A path with its leading slashes removed.
pub open spec fn strip_slashes(s: Seq<char>) -> Seq<char>
    decreases s.len(),
{
    if s.len() > 0 && s[0] == '/' {
        strip_slashes(s.drop_first())
    } else {
        s
    }
}

/// A path with every occurrence of `static/` removed, scanning left to
/// right.
pub open spec fn remove_static(s: Seq<char>) -> Seq<char>
    decreases s.len(),
{
    if s.len() >= 7 && s.take(7) == static_seg() {
        remove_static(s.skip(7))
    } else if s.len() == 0 {
        s
    } else {
        seq![s[0]] + remove_static(s.drop_first())
    }
}

/// The asset name of a request path: leading slashes are dropped, and when
/// the rest starts in the static namespace, every `static/` occurrence is
/// removed.
pub open spec fn normalized_asset_path(s: Seq<char>) -> Seq<char> {
    let t = strip_slashes(s);
    if t.len() >= 7 && t.take(7) == static_seg() {
        remove_static(t)
    } else {
        t
    }
}

/// Whether `static/` stands in `s` at character position `i`.
fn has_static_at(s: &str, i: usize, len: usize) -> (r: bool)
    requires
        len == s@.len(),
        i <= len,
    ensures
        r == (i + 7 <= s@.len() && s@.subrange(i as int, i as int + 7) == static_seg()),
{
    if len - i < 7 {
        return false;
    }
    let r = s.get_char(i) == 's' && s.get_char(i + 1) == 't' && s.get_char(i + 2) == 'a'
        && s.get_char(i + 3) == 't' && s.get_char(i + 4) == 'i' && s.get_char(i + 5) == 'c'
        && s.get_char(i + 6) == '/';
    proof {
        reveal_strlit("static/");
        let sub = s@.subrange(i as int, i as int + 7);
        if r {
            assert(sub =~= static_seg());
        } else {
            if sub == static_seg() {
                assert(s@[i as int + 0] == static_seg()[0]);
                assert(s@[i as int + 1] == static_seg()[1]);
                assert(s@[i as int + 2] == static_seg()[2]);
                assert(s@[i as int + 3] == static_seg()[3]);
                assert(s@[i as int + 4] == static_seg()[4]);
                assert(s@[i as int + 5] == static_seg()[5]);
                assert(s@[i as int + 6] == static_seg()[6]);
            }
        }
    }
    r
}

/// Normalizes a request path to the asset name it addresses.
pub fn normalize_asset_path(path: &str) -> (r: String)
    ensures
        r@ == normalized_asset_path(path@),
{
    let n = path.unicode_len();
    let mut start: usize = 0;
    proof {
        assert(path@.skip(0) =~= path@);
    }
    while start < n && path.get_char(start) == '/'
        invariant
            n == path@.len(),
            start <= n,
            strip_slashes(path@) == strip_slashes(path@.skip(start as int)),
        decreases n - start,
    {
        proof {
            assert(path@.skip(start as int)[0] == path@[start as int]);
            assert(path@.skip(start as int).drop_first() =~= path@.skip(start as int + 1));
        }
        start += 1;
    }
    proof {
        if start < n {
            assert(path@.skip(start as int)[0] == path@[start as int]);
        } else {
            assert(path@.skip(start as int) =~= Seq::<char>::empty());
        }
        assert(strip_slashes(path@) == path@.skip(start as int));
    }
    let stripped = path.substring_char(start, n);
    proof {
        assert(stripped@ =~= path@.skip(start as int));
    }
    let m = n - start;
    if !has_static_at(stripped, 0, m) {
        proof {
            if m >= 7 {
                assert(stripped@.subrange(0, 7) =~= stripped@.take(7));
            }
        }
        return stripped.to_owned();
    }
    proof {
        assert(stripped@.subrange(0, 7) =~= stripped@.take(7));
    }
    let mut out = String::new();
    let mut i: usize = 0;
    proof {
        assert(stripped@.skip(0) =~= stripped@);
        assert(out@ + remove_static(stripped@) =~= remove_static(stripped@));
    }
    while i < m
        invariant
            m == stripped@.len(),
            i <= m,
            remove_static(stripped@) == out@ + remove_static(stripped@.skip(i as int)),
        decreases m - i,
    {
        if has_static_at(stripped, i, m) {
            proof {
                let rest = stripped@.skip(i as int);
                assert(rest.take(7) =~= stripped@.subrange(i as int, i as int + 7));
                assert(rest.skip(7) =~= stripped@.skip(i as int + 7));
            }
            i += 7;
        } else {
            let one = stripped.substring_char(i, i + 1);
            out.append(one);
            proof {
                let rest = stripped@.skip(i as int);
                if i + 7 <= m {
                    assert(rest.take(7) =~= stripped@.subrange(i as int, i as int + 7));
                }
                assert(!(rest.len() >= 7 && rest.take(7) == static_seg()));
                assert(rest[0] == stripped@[i as int]);
                assert(rest.drop_first() =~= stripped@.skip(i as int + 1));
                assert(one@ =~= seq![stripped@[i as int]]);
            }
            i += 1;
        }
    }
    proof {
        assert(stripped@.skip(m as int) =~= Seq::<char>::empty());
        assert(out@ =~= out@ + remove_static(stripped@.skip(m as int)));
    }
    out
}

/// The content type guessed for an asset path. The guess is a fixed table
/// lookup on the path's extension: a pure function of the path.
pub uninterp spec fn mime_for_path(path: Seq<char>) -> Seq<char>;

/// Relies on `mime_guess::from_path` followed by `first_or_octet_stream`:
/// the guess comes from a static extension table, so it depends on the path
/// alone, and the fallback is `application/octet-stream` when no extension
/// matches.
#[verifier::external_body]
fn guess_mime(path: &str) -> (r: String)
    ensures
        r@ == mime_for_path(path@),
{
    let mime = mime_guess::from_path(path).first_or_octet_stream();
    String::from(mime.as_ref())
}

/// A static asset request, carrying the name of the asset to serve.
pub struct StaticFile<T>(pub T);

impl StaticFile<String> {
    /// The asset addressed by a raw request path.
    pub fn from_request_path(path: &str) -> (r: StaticFile<String>)
        ensures
            r.0@ == normalized_asset_path(path@),
    {
        StaticFile(normalize_asset_path(path))
    }

    /// The content type header value for this asset.
    pub fn content_type(&self) -> (r: String)
        ensures
            r@ == mime_for_path(self.0@),
    {
        guess_mime(self.0.as_str())
    }
}

/// The data of the index page: the language the editor highlights.
pub struct Index {
    pub language: String,
}

/// A page wrapper handed to the HTML rendering of the surrounding layer.
pub struct HtmlTemplate<T>(pub T);

} // verus!
