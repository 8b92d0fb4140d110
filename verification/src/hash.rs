//! Hashes and signatures, held as plain bytes.

use vstd::prelude::*;

verus! {

/// A 39-byte hash: a 3-byte type prefix, a 32-byte digest and a 4-byte
/// location (entry hashes, action hashes and agent keys alike).
#[derive(Clone, Copy, Debug)]
pub struct AnyHash {
    pub bytes: [u8; 39],
}

/// A 64-byte signature.
#[derive(Clone, Copy, Debug)]
pub struct Signature {
    pub bytes: [u8; 64],
}

impl View for AnyHash {
    type V = Seq<u8>;

    open spec fn view(&self) -> Seq<u8> {
        self.bytes@
    }
}

impl View for Signature {
    type V = Seq<u8>;

    open spec fn view(&self) -> Seq<u8> {
        self.bytes@
    }
}

/// The views of a sequence of hashes.
pub open spec fn hash_views(s: Seq<AnyHash>) -> Seq<Seq<u8>> {
    s.map_values(|h: AnyHash| h@)
}

impl AnyHash {
    /// Byte-wise equality of two hashes.
    pub fn same_as(&self, other: &AnyHash) -> (r: bool)
        ensures
            r == (self@ == other@),
    {
        let mut i: usize = 0;
        while i < 39
            invariant
                0 <= i <= 39,
                self@.len() == 39,
                other@.len() == 39,
                forall|j: int| 0 <= j < i ==> self@[j] == other@[j],
            decreases 39 - i,
        {
            if self.bytes[i] != other.bytes[i] {
                return false;
            }
            i = i + 1;
        }
        assert(self@ =~= other@);
        true
    }
}

impl Signature {
    /// Byte-wise equality of two signatures.
    pub fn same_as(&self, other: &Signature) -> (r: bool)
        ensures
            r == (self@ == other@),
    {
        let mut i: usize = 0;
        while i < 64
            invariant
                0 <= i <= 64,
                self@.len() == 64,
                other@.len() == 64,
                forall|j: int| 0 <= j < i ==> self@[j] == other@[j],
            decreases 64 - i,
        {
            if self.bytes[i] != other.bytes[i] {
                return false;
            }
            i = i + 1;
        }
        assert(self@ =~= other@);
        true
    }
}

/// Whether `hs` holds a hash equal to `h`.
pub fn contains_hash(hs: &Vec<AnyHash>, h: &AnyHash) -> (r: bool)
    ensures
        r == hash_views(hs@).contains(h@),
{
    let mut i: usize = 0;
    while i < hs.len()
        invariant
            0 <= i <= hs.len(),
            forall|j: int| 0 <= j < i ==> hs@[j]@ != h@,
        decreases hs.len() - i,
    {
        if hs[i].same_as(h) {
            assert(hash_views(hs@)[i as int] == h@);
            return true;
        }
        i = i + 1;
    }
    assert forall|j: int| 0 <= j < hash_views(hs@).len() implies hash_views(hs@)[j] != h@ by {
        assert(hash_views(hs@)[j] == hs@[j]@);
    }
    false
}

/// A hash is in a list one element longer when it is that element or was already in the list.
pub proof fn lemma_hash_views_push(hs: Seq<AnyHash>, c: AnyHash, h: Seq<u8>)
    ensures
        hash_views(hs.push(c)).contains(h) <==> (hash_views(hs).contains(h) || h == c@),
{
    let t = hash_views(hs.push(c));
    assert(t =~= hash_views(hs).push(c@));
    if hash_views(hs).contains(h) {
        let i = choose|i: int| 0 <= i < hash_views(hs).len() && hash_views(hs)[i] == h;
        assert(t[i] == h);
    }
    if h == c@ {
        assert(t[hs.len() as int] == h);
    }
    if t.contains(h) {
        let i = choose|i: int| 0 <= i < t.len() && t[i] == h;
        if i < hs.len() {
            assert(hash_views(hs)[i] == h);
        }
    }
}

} // verus!
