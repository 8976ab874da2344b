//! The storage capability: `create` and `retrieve` over a store of pastes,
//! with the error taxonomy the backends surface.
//!
//! `PasteStore` is the verified reference backend: it realises the exact
//! create/retrieve contract that every persistence adapter of the service
//! must meet, over a store held in memory. Its contents are modelled as a
//! map from id to paste record; `create` is atomic — the store either holds
//! the whole new record or is unchanged, a reader can never observe a
//! half-written paste.
//!
//! Collision policy, made explicit: the identifier generator does not
//! prevent collisions, and this store resolves one by last-write-wins —
//! creating under an existing id replaces the earlier record.

use crate::paste::{Paste, PasteView};
use vstd::prelude::*;

verus! {

use vstd::pervasive::VecAdditionalExecFns;

/// The errors the storage layer surfaces.
#[derive(Clone, Copy, Debug, PartialEq, Eq, Structural)]
pub enum StorageError {
    /// The id is absent at retrieval.
    NotFound,
    /// A disk, socket or database transport error.
    IoFailure,
    /// No backend connection became available within the timeout.
    PoolExhausted,
    /// The content cannot be coerced to the backend's storage representation.
    SerializationError,
    /// A required input is missing from the request.
    MalformedRequest,
}

/// Relies on `String::from_utf8`: it succeeds exactly on valid UTF-8 input,
/// and the string it returns decodes those very bytes.
#[verifier::external_body]
fn bytes_to_string(bytes: Vec<u8>) -> (r: Option<String>)
    ensures
        match r {
            Some(s) => vstd::utf8::valid_utf8(bytes@) && s@ == vstd::utf8::decode_utf8(bytes@),
            None => !vstd::utf8::valid_utf8(bytes@),
        },
{
    String::from_utf8(bytes).ok()
}

/// Coerces paste content to the text representation that the text-column
/// and key-value backends store. Succeeds if and only if the content is
/// valid UTF-8; anything else cannot be stored there and is a
/// `SerializationError`.
pub fn text_content(content: Vec<u8>) -> (r: Result<String, StorageError>)
    ensures
        match r {
            Ok(s) => vstd::utf8::valid_utf8(content@) && s@ == vstd::utf8::decode_utf8(content@),
            Err(e) => e == StorageError::SerializationError && !vstd::utf8::valid_utf8(content@),
        },
{
    match bytes_to_string(content) {
        Some(s) => Ok(s),
        None => Err(StorageError::SerializationError),
    }
}

/// Holds when no two entries of the sequence share an id.
pub open spec fn unique_ids(s: Seq<Paste>) -> bool {
    forall|i: int, j: int| 0 <= i < j < s.len() ==> s[i].id@ != s[j].id@
}

/// The in-memory paste store: the verified reference implementation of the
/// storage capability.
pub struct PasteStore {
    entries: Vec<Paste>,
}

impl PasteStore {
    /// Well-formed: no two stored pastes share an id.
    pub closed spec fn wf(&self) -> bool {
        unique_ids(self.entries@)
    }

    spec fn has_id(s: Seq<Paste>, k: Seq<char>) -> bool {
        exists|i: int| 0 <= i < s.len() && s[i].id@ == k
    }

    spec fn idx_of(s: Seq<Paste>, k: Seq<char>) -> int {
        choose|i: int| 0 <= i < s.len() && s[i].id@ == k
    }

    /// The mathematical content of the store: a finite map from id to the
    /// record stored under it.
    pub closed spec fn contents(&self) -> Map<Seq<char>, PasteView> {
        Map::new(
            |k: Seq<char>| Self::has_id(self.entries@, k),
            |k: Seq<char>| self.entries@[Self::idx_of(self.entries@, k)]@,
        )
    }

    /// With unique ids, any entry holding the key is the entry the model
    /// reads: its index is `idx_of` and its record is `contents()[k]`.
    proof fn lemma_entry_is_the_one(s: Seq<Paste>, k: Seq<char>, i: int)
        requires
            unique_ids(s),
            0 <= i < s.len(),
            s[i].id@ == k,
        ensures
            Self::has_id(s, k),
            Self::idx_of(s, k) == i,
    {
        assert(Self::has_id(s, k));
        let j = Self::idx_of(s, k);
        if j != i {
            if j < i {
                assert(s[j].id@ != s[i].id@);
            } else {
                assert(s[i].id@ != s[j].id@);
            }
        }
    }

    /// An empty store.
    pub fn new() -> (r: PasteStore)
        ensures
            r.wf(),
            r.contents() == Map::<Seq<char>, PasteView>::empty(),
    {
        let r = PasteStore { entries: Vec::new() };
        proof {
            assert(r.contents() =~= Map::<Seq<char>, PasteView>::empty());
        }
        r
    }

    /// The index of the entry stored under `id`, if any.
    fn find(&self, id: &String) -> (r: Option<usize>)
        ensures
            match r {
                Some(i) => i < self.entries@.len() && self.entries@[i as int].id@ == id@,
                None => !Self::has_id(self.entries@, id@),
            },
    {
        let mut i: usize = 0;
        while i < self.entries.len()
            invariant
                i <= self.entries@.len(),
                forall|j: int| 0 <= j < i ==> self.entries@[j].id@ != id@,
            decreases self.entries@.len() - i,
        {
            if self.entries[i].id == *id {
                return Some(i);
            }
            i += 1;
        }
        None
    }

    /// Persists a paste in one atomic step: afterwards the store holds
    /// exactly the old records plus the new one, keyed by its id. Under an
    /// id already present the new record replaces the old (last write wins).
    /// The in-memory store owes success on every input.
    pub fn create(&mut self, paste: Paste) -> (r: Result<(), StorageError>)
        requires
            old(self).wf(),
        ensures
            final(self).wf(),
            r == Ok::<(), StorageError>(()),
            final(self).contents() == old(self).contents().insert(paste.id@, paste@),
    {
        let ghost pre = self.entries@;
        let ghost key = paste.id@;
        let ghost record = paste@;
        match self.find(&paste.id) {
            Some(i) => {
                self.entries.set(i, paste);
                proof {
                    let post = self.entries@;
                    assert(post == pre.update(i as int, paste));
                    assert forall|a: int, b: int| 0 <= a < b < post.len() implies post[a].id@
                        != post[b].id@ by {
                        assert(pre[a].id@ != pre[b].id@);
                        assert(post[a].id@ == pre[a].id@);
                        assert(post[b].id@ == pre[b].id@);
                    }
                    Self::lemma_create_view(pre, post, i as int, key, record);
                }
            },
            None => {
                let ghost n = pre.len() as int;
                self.entries.push(paste);
                proof {
                    let post = self.entries@;
                    assert forall|a: int, b: int| 0 <= a < b < post.len() implies post[a].id@
                        != post[b].id@ by {
                        if b < n {
                            assert(pre[a].id@ != pre[b].id@);
                        } else {
                            assert(post[b].id@ == key);
                            assert(!Self::has_id(pre, key));
                            assert(post[a] == pre[a]);
                        }
                    }
                    Self::lemma_create_view(pre, post, n, key, record);
                }
            },
        }
        Ok(())
    }

    /// After replacing or appending the entry for `key` at index `i`, the
    /// contents map is the old map with `key` bound to the new record.
    proof fn lemma_create_view(pre: Seq<Paste>, post: Seq<Paste>, i: int, key: Seq<char>, record: PasteView)
        requires
            unique_ids(pre),
            unique_ids(post),
            0 <= i < post.len(),
            i <= pre.len(),
            post[i].id@ == key,
            post[i]@ == record,
            pre.len() <= post.len(),
            i < pre.len() ==> post.len() == pre.len() && pre[i].id@ == key,
            i == pre.len() ==> post.len() == pre.len() + 1,
            forall|j: int| 0 <= j < pre.len() && j != i ==> post[j] == pre[j],
        ensures
            Map::new(
                |k: Seq<char>| Self::has_id(post, k),
                |k: Seq<char>| post[Self::idx_of(post, k)]@,
            ) == Map::new(
                |k: Seq<char>| Self::has_id(pre, k),
                |k: Seq<char>| pre[Self::idx_of(pre, k)]@,
            ).insert(key, record),
    {
        let m_post = Map::new(
            |k: Seq<char>| Self::has_id(post, k),
            |k: Seq<char>| post[Self::idx_of(post, k)]@,
        );
        let m_pre = Map::new(
            |k: Seq<char>| Self::has_id(pre, k),
            |k: Seq<char>| pre[Self::idx_of(pre, k)]@,
        );
        assert forall|k: Seq<char>| m_post.dom().contains(k) <==> m_pre.insert(
            key,
            record,
        ).dom().contains(k) by {
            if k == key {
                Self::lemma_entry_is_the_one(post, k, i);
            } else {
                if Self::has_id(post, k) {
                    let j = Self::idx_of(post, k);
                    assert(post[j].id@ == k);
                    assert(j != i);
                    assert(pre[j] == post[j]);
                    assert(Self::has_id(pre, k));
                }
                if Self::has_id(pre, k) {
                    let j = Self::idx_of(pre, k);
                    assert(pre[j].id@ == k);
                    assert(j != i);
                    assert(post[j] == pre[j]);
                    assert(Self::has_id(post, k));
                }
            }
        }
        assert forall|k: Seq<char>| #[trigger] m_post.dom().contains(k) implies m_post[k]
            == m_pre.insert(key, record)[k] by {
            if k == key {
                Self::lemma_entry_is_the_one(post, k, i);
                assert(m_post[k] == record);
            } else {
                let j = Self::idx_of(post, k);
                assert(post[j].id@ == k);
                assert(j != i);
                assert(pre[j] == post[j]);
                Self::lemma_entry_is_the_one(pre, k, j);
                Self::lemma_entry_is_the_one(post, k, j);
            }
        }
        assert(m_post =~= m_pre.insert(key, record));
    }

    /// Looks a paste up by id. Returns the full record exactly as stored
    /// when the id is present; returns `NotFound`, and no other error, if
    /// and only if the id is absent. Never panics on an absent key.
    pub fn retrieve(&self, id: &str) -> (r: Result<Paste, StorageError>)
        requires
            self.wf(),
        ensures
            match r {
                Ok(p) => self.contents().dom().contains(id@) && p.id@ == id@ && p@
                    == self.contents()[id@],
                Err(e) => e == StorageError::NotFound && !self.contents().dom().contains(id@),
            },
    {
        let key = id.to_owned();
        match self.find(&key) {
            Some(i) => {
                proof {
                    Self::lemma_entry_is_the_one(self.entries@, id@, i as int);
                }
                Ok(self.entries[i].clone())
            },
            None => Err(StorageError::NotFound),
        }
    }

    /// Whether the store holds a paste under `id`.
    pub fn contains(&self, id: &str) -> (r: bool)
        ensures
            r == self.contents().dom().contains(id@),
    {
        let key = id.to_owned();
        self.find(&key).is_some()
    }

    /// How many pastes the store holds.
    pub fn len(&self) -> (r: usize)
        requires
            self.wf(),
        ensures
            r == self.contents().dom().len(),
    {
        proof {
            Self::lemma_count(self.entries@);
        }
        self.entries.len()
    }

    /// With unique ids, the domain of the contents map has exactly one key
    /// per entry.
    proof fn lemma_count(s: Seq<Paste>)
        requires
            unique_ids(s),
        ensures
            Map::new(
                |k: Seq<char>| Self::has_id(s, k),
                |k: Seq<char>| s[Self::idx_of(s, k)]@,
            ).dom().finite(),
            Map::new(
                |k: Seq<char>| Self::has_id(s, k),
                |k: Seq<char>| s[Self::idx_of(s, k)]@,
            ).dom().len() == s.len(),
        decreases s.len(),
    {
        let dom = Map::new(
            |k: Seq<char>| Self::has_id(s, k),
            |k: Seq<char>| s[Self::idx_of(s, k)]@,
        ).dom();
        if s.len() == 0 {
            assert(dom =~= Set::<Seq<char>>::empty());
        } else {
            let prefix = s.drop_last();
            let last = s.last();
            Self::lemma_count(prefix);
            let dom_prefix = Map::new(
                |k: Seq<char>| Self::has_id(prefix, k),
                |k: Seq<char>| prefix[Self::idx_of(prefix, k)]@,
            ).dom();
            assert forall|k: Seq<char>| #[trigger] dom.contains(k) <==> dom_prefix.contains(k)
                || k == last.id@ by {
                if Self::has_id(s, k) {
                    let j = Self::idx_of(s, k);
                    assert(s[j].id@ == k);
                    if j < prefix.len() {
                        assert(prefix[j] == s[j]);
                        assert(Self::has_id(prefix, k));
                    }
                }
                if Self::has_id(prefix, k) {
                    let j = Self::idx_of(prefix, k);
                    assert(s[j] == prefix[j]);
                    assert(Self::has_id(s, k));
                }
                if k == last.id@ {
                    assert(s[s.len() - 1].id@ == k);
                    assert(Self::has_id(s, k));
                }
            }
            assert(!dom_prefix.contains(last.id@)) by {
                if Self::has_id(prefix, last.id@) {
                    let j = Self::idx_of(prefix, last.id@);
                    assert(s[j] == prefix[j]);
                    assert(s[j].id@ == s[s.len() - 1].id@);
                }
            }
            assert(dom =~= dom_prefix.insert(last.id@));
        }
    }
}

/// Round-trip law: creating a paste and then retrieving its id yields
/// exactly the content and the meta that were stored. Stated over the store
/// contents that the contracts of `create` and `retrieve` speak of: after
/// `create` binds `id` to the record, `retrieve` reads that very record.
pub proof fn lemma_round_trip(
    c: Map<Seq<char>, PasteView>,
    id: Seq<char>,
    content: Seq<u8>,
    meta: Seq<char>,
)
    ensures
        c.insert(id, PasteView { content, meta }).dom().contains(id),
        c.insert(id, PasteView { content, meta })[id].content == content,
        c.insert(id, PasteView { content, meta })[id].meta == meta,
{
}

/// Independence and immutability law: a creation under one id neither adds,
/// removes nor alters the record stored under any other id — concurrent
/// creations with distinct ids are independent, and a paste, once created,
/// is never changed by later creations under other ids.
pub proof fn lemma_create_preserves_others(
    c: Map<Seq<char>, PasteView>,
    id: Seq<char>,
    record: PasteView,
    other: Seq<char>,
)
    requires
        other != id,
    ensures
        c.insert(id, record).dom().contains(other) == c.dom().contains(other),
        c.dom().contains(other) ==> c.insert(id, record)[other] == c[other],
{
}

/// Interleaving law: two creations under distinct ids reach the same store
/// contents in either order, so concurrent creations with distinct ids are
/// independent of how their backend writes interleave.
pub proof fn lemma_creates_commute(
    c: Map<Seq<char>, PasteView>,
    first_id: Seq<char>,
    first: PasteView,
    second_id: Seq<char>,
    second: PasteView,
)
    requires
        first_id != second_id,
    ensures
        c.insert(first_id, first).insert(second_id, second) == c.insert(second_id, second).insert(
            first_id,
            first,
        ),
{
    assert(c.insert(first_id, first).insert(second_id, second) =~= c.insert(
        second_id,
        second,
    ).insert(first_id, first));
}

/// Immutability law: any two retrievals of the same id against the same
/// store contents answer byte-identical content and the same meta —
/// `retrieve` borrows the store, pins its result to `contents()[id]`, and
/// no operation rebinds an id except a creation under that very id.
pub proof fn lemma_retrieve_repeatable(
    c: Map<Seq<char>, PasteView>,
    id: Seq<char>,
    first: PasteView,
    second: PasteView,
)
    requires
        c.dom().contains(id),
        first == c[id],
        second == c[id],
    ensures
        first.content == second.content,
        first.meta == second.meta,
{
}

} // verus!
