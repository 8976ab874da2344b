//! The ingestion pipeline: turns a metadata hint and a chunked byte stream
//! into one persisted paste, atomically.
//!
//! The inbound body arrives as a finite sequence of byte chunks of unknown
//! total length. The pipeline accumulates the chunks into one buffer and
//! touches the store only in `commit`, in a single atomic step: an ingestion
//! that is dropped before `commit` — because a chunk read failed or the
//! client disconnected mid-upload — leaves no retrievable artifact.
//!
//! On success the pipeline reports the new id and the byte count actually
//! written; the count in the receipt is the true total, a deliberate policy.

use crate::id::PasteId;
use crate::paste::{resolve_meta, resolved_meta, Paste, PasteView};
use crate::store::PasteStore;
use vstd::prelude::*;

verus! {

use vstd::string::StringExecFns;

/// The bytes of a whole body: all chunks of the stream, in order.
pub open spec fn concat_chunks(cs: Seq<Vec<u8>>) -> Seq<u8>
    decreases cs.len(),
{
    if cs.len() == 0 {
        Seq::empty()
    } else {
        concat_chunks(cs.drop_last()) + cs.last()@
    }
}

/// Appending one more chunk extends the concatenation by that chunk.
proof fn lemma_concat_chunks_step(cs: Seq<Vec<u8>>, i: int)
    requires
        0 <= i < cs.len(),
    ensures
        concat_chunks(cs.take(i + 1)) == concat_chunks(cs.take(i)) + cs[i]@,
{
    assert(cs.take(i + 1).drop_last() =~= cs.take(i));
    assert(cs.take(i + 1).last() == cs[i]);
}

/// The view of an ingestion in flight: the id and meta it was opened with
/// and the bytes buffered so far.
pub ghost struct IngestionView {
    pub id: Seq<char>,
    pub meta: Seq<char>,
    pub buffered: Seq<u8>,
}

/// One ingestion in flight. It owns the id and the resolved meta tag from
/// the start and buffers chunks until `commit`; the store is never touched
/// earlier, so abandoning an ingestion leaves no artifact.
pub struct Ingestion {
    id: String,
    meta: String,
    buffer: Vec<u8>,
}

impl View for Ingestion {
    type V = IngestionView;

    closed spec fn view(&self) -> IngestionView {
        IngestionView { id: self.id@, meta: self.meta@, buffered: self.buffer@ }
    }
}

impl Ingestion {
    /// Opens an ingestion for a fresh id. The meta hint is resolved at once:
    /// a request that names no language gets the default sentinel.
    pub fn begin(id: PasteId, meta_hint: Option<String>) -> (s: Ingestion)
        ensures
            s@.id == id.0@,
            s@.meta == resolved_meta(meta_hint),
            s@.buffered == Seq::<u8>::empty(),
    {
        Ingestion { id: id.into_string(), meta: resolve_meta(meta_hint), buffer: Vec::new() }
    }

    /// Consumes one chunk of the inbound stream: the buffer grows by exactly
    /// these bytes, nothing else changes.
    pub fn push_chunk(&mut self, chunk: &[u8])
        ensures
            final(self)@.id == old(self)@.id,
            final(self)@.meta == old(self)@.meta,
            final(self)@.buffered == old(self)@.buffered + chunk@,
    {
        self.buffer.extend_from_slice(chunk);
        proof {
            assert(self.buffer@ =~= old(self).buffer@ + chunk@);
        }
    }

    /// How many bytes have been buffered so far.
    pub fn bytes_buffered(&self) -> (r: usize)
        ensures
            r == self@.buffered.len(),
    {
        self.buffer.len()
    }

    /// Closes the ingestion and hands the assembled record to a persistence
    /// adapter: the id, the resolved meta, and every buffered byte in order.
    /// The adapter must persist it in one atomic step.
    pub fn into_paste(self) -> (p: Paste)
        ensures
            p.id@ == self@.id,
            p.meta@ == self@.meta,
            p.content@ == self@.buffered,
    {
        let Ingestion { id, meta, buffer } = self;
        Paste { id, meta, content: buffer }
    }

    /// Commits the ingestion: one atomic store write binds the id to the
    /// full buffered content and the resolved meta. Returns the id and the
    /// count of bytes written.
    pub fn commit(self, store: &mut PasteStore) -> (r: (String, usize))
        requires
            old(store).wf(),
        ensures
            final(store).wf(),
            final(store).contents() == old(store).contents().insert(
                self@.id,
                PasteView { content: self@.buffered, meta: self@.meta },
            ),
            r.0@ == self@.id,
            r.1 == self@.buffered.len(),
    {
        let Ingestion { id, meta, buffer } = self;
        let bytes_written = buffer.len();
        let handle = id.clone();
        let paste = Paste { id, meta, content: buffer };
        let _ = store.create(paste);
        (handle, bytes_written)
    }
}

/// The decimal digit characters of a number, most significant first.
pub open spec fn decimal_digits(n: nat) -> Seq<char>
    decreases n,
{
    if n < 10 {
        seq![digit_char(n)]
    } else {
        decimal_digits(n / 10).push(digit_char(n % 10))
    }
}

/// The character of one decimal digit.
pub open spec fn digit_char(d: nat) -> char {
    if d == 0 {
        '0'
    } else if d == 1 {
        '1'
    } else if d == 2 {
        '2'
    } else if d == 3 {
        '3'
    } else if d == 4 {
        '4'
    } else if d == 5 {
        '5'
    } else if d == 6 {
        '6'
    } else if d == 7 {
        '7'
    } else if d == 8 {
        '8'
    } else {
        '9'
    }
}

/// The one-character string of a decimal digit.
fn digit_literal(d: usize) -> (r: &'static str)
    requires
        d < 10,
    ensures
        r@ == seq![digit_char(d as nat)],
{
    if d == 0 {
        proof {
            reveal_strlit("0");
            assert("0"@ =~= seq!['0']);
        }
        "0"
    } else if d == 1 {
        proof {
            reveal_strlit("1");
            assert("1"@ =~= seq!['1']);
        }
        "1"
    } else if d == 2 {
        proof {
            reveal_strlit("2");
            assert("2"@ =~= seq!['2']);
        }
        "2"
    } else if d == 3 {
        proof {
            reveal_strlit("3");
            assert("3"@ =~= seq!['3']);
        }
        "3"
    } else if d == 4 {
        proof {
            reveal_strlit("4");
            assert("4"@ =~= seq!['4']);
        }
        "4"
    } else if d == 5 {
        proof {
            reveal_strlit("5");
            assert("5"@ =~= seq!['5']);
        }
        "5"
    } else if d == 6 {
        proof {
            reveal_strlit("6");
            assert("6"@ =~= seq!['6']);
        }
        "6"
    } else if d == 7 {
        proof {
            reveal_strlit("7");
            assert("7"@ =~= seq!['7']);
        }
        "7"
    } else if d == 8 {
        proof {
            reveal_strlit("8");
            assert("8"@ =~= seq!['8']);
        }
        "8"
    } else {
        proof {
            reveal_strlit("9");
            assert("9"@ =~= seq!['9']);
        }
        "9"
    }
}

/// Renders a number in decimal.
pub fn usize_to_decimal(n: usize) -> (r: String)
    ensures
        r@ == decimal_digits(n as nat),
    decreases n,
{
    if n < 10 {
        digit_literal(n).to_owned()
    } else {
        let mut r = usize_to_decimal(n / 10);
        r.append(digit_literal(n % 10));
        proof {
            assert(r@ =~= decimal_digits((n / 10) as nat) + seq![digit_char((n % 10) as nat)]);
            assert(decimal_digits(n as nat) =~= decimal_digits((n / 10) as nat).push(
                digit_char((n % 10) as nat),
            ));
            assert(r@ =~= decimal_digits(n as nat));
        }
        r
    }
}

/// The body of a successful creation response: the id, one space, and the
/// count of bytes written. The count reported is the true total — an
/// explicit policy choice, the count is never a placeholder.
pub fn creation_receipt(id: &str, bytes_written: usize) -> (r: String)
    ensures
        r@ == id@ + seq![' '] + decimal_digits(bytes_written as nat),
{
    let mut r = id.to_owned();
    proof {
        reveal_strlit(" ");
        assert(" "@ =~= seq![' ']);
    }
    r.append(" ");
    let digits = usize_to_decimal(bytes_written);
    r.append(digits.as_str());
    proof {
        assert(r@ =~= id@ + seq![' '] + decimal_digits(bytes_written as nat));
    }
    r
}

/// Drives one whole ingestion, given the events of the inbound stream: the
/// chunks that arrived and whether the stream ended cleanly. A complete
/// stream yields exactly one new paste holding every byte of the body in
/// order; a truncated one leaves the store exactly as it was — never a
/// partial artifact.
pub fn run_ingestion(
    store: &mut PasteStore,
    id: PasteId,
    meta_hint: Option<String>,
    chunks: &Vec<Vec<u8>>,
    complete: bool,
) -> (r: Option<(String, usize)>)
    requires
        old(store).wf(),
    ensures
        final(store).wf(),
        complete ==> match r {
            Some(receipt) => receipt.0@ == id.0@ && receipt.1 == concat_chunks(chunks@).len()
                && final(store).contents() == old(store).contents().insert(
                id.0@,
                PasteView { content: concat_chunks(chunks@), meta: resolved_meta(meta_hint) },
            ),
            None => false,
        },
        !complete ==> r is None && *final(store) == *old(store),
{
    let ghost gid: Seq<char> = id.0@;
    let ghost gmeta: Seq<char> = resolved_meta(meta_hint);
    let mut ingestion = Ingestion::begin(id, meta_hint);
    let mut i: usize = 0;
    while i < chunks.len()
        invariant
            i <= chunks.len(),
            ingestion@.id == gid,
            ingestion@.meta == gmeta,
            ingestion@.buffered == concat_chunks(chunks@.take(i as int)),
        decreases chunks@.len() - i,
    {
        ingestion.push_chunk(chunks[i].as_slice());
        proof {
            lemma_concat_chunks_step(chunks@, i as int);
        }
        i += 1;
    }
    proof {
        assert(chunks@.take(chunks@.len() as int) =~= chunks@);
    }
    if complete {
        Some(ingestion.commit(store))
    } else {
        None
    }
}

} // verus!
