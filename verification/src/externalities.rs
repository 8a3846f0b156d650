//! The host capability interface and a verified in-memory backend.

use vstd::prelude::*;
use vstd::slice::slice_to_vec;

verus! {

/// Placeholder error type of the host capability's read operation.
///
/// The error carries no information: callers of the storage accessors cannot
/// distinguish a failed read from an absent key, and every failure degrades to
/// a default value.
#[derive(Clone, Copy, Debug, PartialEq, Eq, Structural)]
pub struct NoError;

/// The stored bytes for key `k` in model `m`, or the empty sequence when the
/// key is absent.  All storage reads degrade to this value.
pub open spec fn stored_or_empty(m: Map<Seq<u8>, Seq<u8>>, k: Seq<u8>) -> Seq<u8> {
    if m.contains_key(k) {
        m[k]
    } else {
        Seq::<u8>::empty()
    }
}

/// Law: within one active scope, a write followed by a read of the same key
/// yields exactly the written bytes, and reads of every other key are
/// unaffected by the write.
///
/// `set_storage` turns the store `m` into `m.insert(k, v)`; `storage` then
/// returns `stored_or_empty` of that store, which this lemma pins down.
pub proof fn lemma_set_then_get(m: Map<Seq<u8>, Seq<u8>>, k: Seq<u8>, v: Seq<u8>)
    ensures
        stored_or_empty(m.insert(k, v), k) == v,
        forall|k2: Seq<u8>| k2 != k ==> #[trigger] stored_or_empty(m.insert(k, v), k2)
            == stored_or_empty(m, k2),
{
}

/// The host capability consumed from the surrounding execution environment:
/// key/value storage reads and writes, and chain metadata.
///
/// An implementation is modelled by a map from keys to stored byte strings
/// (`storage_model`), a chain identifier (`id_model`), and a flag saying
/// whether its reads are guaranteed to succeed (`reads_ok`).  Implementations
/// outside this crate are not verified; within this crate,
/// [`MemoryExternalities`] is proved to meet these contracts.
pub trait Externalities: Sized {
    /// The key/value store behind this capability.
    spec fn storage_model(&self) -> Map<Seq<u8>, Seq<u8>>;

    /// The chain identifier reported by this capability.
    spec fn id_model(&self) -> u64;

    /// Whether reads from this capability always succeed.
    spec fn reads_ok(&self) -> bool;

    /// Read the stored value for `key`; an absent key reads as empty bytes.
    fn storage(&self, key: &[u8]) -> (r: Result<Vec<u8>, NoError>)
        ensures
            r matches Ok(v) ==> v@ == stored_or_empty(self.storage_model(), key@),
            self.reads_ok() ==> r is Ok,
    ;

    /// Write `value` under `key`.
    fn set_storage(&mut self, key: Vec<u8>, value: Vec<u8>)
        ensures
            final(self).storage_model() == old(self).storage_model().insert(key@, value@),
            final(self).id_model() == old(self).id_model(),
            final(self).reads_ok() == old(self).reads_ok(),
    ;

    /// The chain identifier.
    fn chain_id(&self) -> (r: u64)
        ensures
            r == self.id_model(),
    ;
}

/// The map described by a journal of writes: later entries shadow earlier
/// ones with the same key.
spec fn journal_model(s: Seq<(Vec<u8>, Vec<u8>)>) -> Map<Seq<u8>, Seq<u8>>
    decreases s.len(),
{
    if s.len() == 0 {
        Map::<Seq<u8>, Seq<u8>>::empty()
    } else {
        journal_model(s.drop_last()).insert(s.last().0@, s.last().1@)
    }
}

/// Entries at indices `i..` of `s` never mention key `k`.
spec fn key_absent_from(s: Seq<(Vec<u8>, Vec<u8>)>, k: Seq<u8>, i: int) -> bool {
    forall|j: int| i <= j < s.len() ==> #[trigger] s[j].0@ != k
}

/// If no entry at index `i` or later mentions `k`, the journal's value for
/// `k` is decided by the first `i` entries alone.
proof fn lemma_journal_lookup(s: Seq<(Vec<u8>, Vec<u8>)>, k: Seq<u8>, i: int)
    requires
        0 <= i <= s.len(),
        key_absent_from(s, k, i),
    ensures
        journal_model(s).contains_key(k) <==> journal_model(s.take(i)).contains_key(k),
        journal_model(s).contains_key(k) ==> journal_model(s)[k] == journal_model(s.take(i))[k],
    decreases s.len() - i,
{
    if i == s.len() {
        assert(s.take(i) =~= s);
    } else {
        lemma_journal_lookup(s, k, i + 1);
        assert(s.take(i + 1).drop_last() =~= s.take(i));
        assert(s.take(i + 1).last() == s[i]);
    }
}

/// A verified in-memory host capability: a journal of writes over which
/// lookups resolve to the most recent entry for a key.
pub struct MemoryExternalities {
    entries: Vec<(Vec<u8>, Vec<u8>)>,
    id: u64,
}

impl MemoryExternalities {
    /// An empty store reporting `chain_id` as its chain identifier.
    pub fn new(chain_id: u64) -> (r: Self)
        ensures
            r.storage_model() == Map::<Seq<u8>, Seq<u8>>::empty(),
            r.id_model() == chain_id,
            r.reads_ok(),
    {
        MemoryExternalities { entries: Vec::new(), id: chain_id }
    }
}

/// Byte-exact slice equality.
fn bytes_equal(a: &[u8], b: &[u8]) -> (r: bool)
    ensures
        r == (a@ == b@),
{
    if a.len() != b.len() {
        proof {
            assert(a@ != b@) by {
                assert(a@.len() != b@.len());
            }
        }
        return false;
    }
    let n: usize = a.len();
    let mut i: usize = 0;
    while i < n
        invariant
            n == a@.len() == b@.len(),
            0 <= i <= n,
            forall|j: int| 0 <= j < i ==> a@[j] == b@[j],
        decreases n - i,
    {
        if a[i] != b[i] {
            return false;
        }
        i += 1;
    }
    proof {
        assert(a@ =~= b@);
    }
    true
}

impl Externalities for MemoryExternalities {
    closed spec fn storage_model(&self) -> Map<Seq<u8>, Seq<u8>> {
        journal_model(self.entries@)
    }

    closed spec fn id_model(&self) -> u64 {
        self.id
    }

    open spec fn reads_ok(&self) -> bool {
        true
    }

    fn storage(&self, key: &[u8]) -> (r: Result<Vec<u8>, NoError>) {
        let ghost s = self.entries@;
        let mut i: usize = self.entries.len();
        while i > 0
            invariant
                s == self.entries@,
                0 <= i <= s.len(),
                key_absent_from(s, key@, i as int),
            decreases i,
        {
            i -= 1;
            let entry = &self.entries[i];
            if bytes_equal(entry.0.as_slice(), key) {
                proof {
                    lemma_journal_lookup(s, key@, i + 1);
                    assert(s.take(i + 1).drop_last() =~= s.take(i as int));
                    assert(s.take(i + 1).last() == s[i as int]);
                }
                let copy = slice_to_vec(entry.1.as_slice());
                return Ok(copy);
            }
        }
        proof {
            lemma_journal_lookup(s, key@, 0);
            assert(s.take(0) =~= Seq::<(Vec<u8>, Vec<u8>)>::empty());
        }
        Ok(Vec::new())
    }

    fn set_storage(&mut self, key: Vec<u8>, value: Vec<u8>) {
        let ghost s = self.entries@;
        let ghost k = key@;
        let ghost v = value@;
        self.entries.push((key, value));
        proof {
            assert(self.entries@.drop_last() =~= s);
        }
    }

    fn chain_id(&self) -> (r: u64) {
        self.id
    }
}

} // verus!
