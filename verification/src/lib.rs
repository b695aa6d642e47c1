//! Double-hashing index generation for probabilistic set structures.
//!
//! Two 64-bit accumulators — a multiply-then-mix and a mix-then-multiply
//! variant of a multiplicative byte-wise hash — digest the canonical bytes of
//! a value once each. An index sequence then combines the two digests
//! linearly, modulo a caller-supplied bound, so that any number of array
//! indexes in `[0, bound)` can be drawn from just two full hash passes.

use vstd::prelude::*;

verus! {

/// Seed value each accumulator starts from: the 64-bit offset basis.
pub const OFFSET_BASIS: u64 = 0xcbf2_9ce4_8422_2325;

/// The 64-bit prime multiplier shared by both accumulator variants.
pub const PRIME: u64 = 0x100_0000_01b3;

/// One step of the multiply-then-mix variant: the state is multiplied by
/// [`PRIME`], wrapping modulo 2^64, then xored with the incoming byte.
pub open spec fn fnv_step(h: u64, b: u8) -> u64 {
    h.wrapping_mul(PRIME) ^ (b as u64)
}

/// One step of the mix-then-multiply variant: the state is xored with the
/// incoming byte, then multiplied by [`PRIME`], wrapping modulo 2^64.
pub open spec fn fnva_step(h: u64, b: u8) -> u64 {
    (h ^ (b as u64)).wrapping_mul(PRIME)
}

/// Digest of `bytes` under the multiply-then-mix variant, folded in input
/// order starting from the state `h`.
pub open spec fn fnv_digest(h: u64, bytes: Seq<u8>) -> u64
    decreases bytes.len(),
{
    if bytes.len() == 0 {
        h
    } else {
        fnv_step(fnv_digest(h, bytes.drop_last()), bytes.last())
    }
}

/// Digest of `bytes` under the mix-then-multiply variant, folded in input
/// order starting from the state `h`.
pub open spec fn fnva_digest(h: u64, bytes: Seq<u8>) -> u64
    decreases bytes.len(),
{
    if bytes.len() == 0 {
        h
    } else {
        fnva_step(fnva_digest(h, bytes.drop_last()), bytes.last())
    }
}

/// Accumulator for the multiply-then-mix hash variant.
pub struct FnvHasher {
    state: u64,
}

impl FnvHasher {
    /// The accumulator's current 64-bit state.
    pub closed spec fn digest(self) -> u64 {
        self.state
    }

    /// A fresh accumulator, seeded with [`OFFSET_BASIS`].
    pub fn new() -> (r: Self)
        ensures
            r.digest() == OFFSET_BASIS,
    {
        FnvHasher { state: OFFSET_BASIS }
    }

    /// Folds every byte of `bytes`, in order, into the accumulator:
    /// multiply by [`PRIME`] modulo 2^64, then xor with the byte.
    pub fn write(&mut self, bytes: &[u8])
        ensures
            final(self).digest() == fnv_digest(old(self).digest(), bytes@),
    {
        let mut hash = self.state;
        let mut k: usize = 0;
        while k < bytes.len()
            invariant
                k <= bytes@.len(),
                hash == fnv_digest(old(self).digest(), bytes@.subrange(0, k as int)),
            decreases bytes@.len() - k,
        {
            hash = hash.wrapping_mul(PRIME);
            hash = hash ^ (bytes[k] as u64);
            proof {
                assert(bytes@.subrange(0, k + 1).drop_last() =~= bytes@.subrange(0, k as int));
                assert(bytes@.subrange(0, k + 1).last() == bytes@[k as int]);
            }
            k = k + 1;
        }
        proof {
            assert(bytes@.subrange(0, bytes@.len() as int) =~= bytes@);
        }
        self.state = hash;
    }

    /// The finishing step: hands back the current state unchanged.
    pub fn finish(&self) -> (r: u64)
        ensures
            r == self.digest(),
    {
        self.state
    }
}

/// Accumulator for the mix-then-multiply hash variant.
pub struct FnvaHasher {
    state: u64,
}

impl FnvaHasher {
    /// The accumulator's current 64-bit state.
    pub closed spec fn digest(self) -> u64 {
        self.state
    }

    /// A fresh accumulator, seeded with [`OFFSET_BASIS`].
    pub fn new() -> (r: Self)
        ensures
            r.digest() == OFFSET_BASIS,
    {
        FnvaHasher { state: OFFSET_BASIS }
    }

    /// Folds every byte of `bytes`, in order, into the accumulator:
    /// xor with the byte, then multiply by [`PRIME`] modulo 2^64.
    pub fn write(&mut self, bytes: &[u8])
        ensures
            final(self).digest() == fnva_digest(old(self).digest(), bytes@),
    {
        let mut hash = self.state;
        let mut k: usize = 0;
        while k < bytes.len()
            invariant
                k <= bytes@.len(),
                hash == fnva_digest(old(self).digest(), bytes@.subrange(0, k as int)),
            decreases bytes@.len() - k,
        {
            hash = hash ^ (bytes[k] as u64);
            hash = hash.wrapping_mul(PRIME);
            proof {
                assert(bytes@.subrange(0, k + 1).drop_last() =~= bytes@.subrange(0, k as int));
                assert(bytes@.subrange(0, k + 1).last() == bytes@[k as int]);
            }
            k = k + 1;
        }
        proof {
            assert(bytes@.subrange(0, bytes@.len() as int) =~= bytes@);
        }
        self.state = hash;
    }

    /// The finishing step: hands back the current state unchanged.
    pub fn finish(&self) -> (r: u64)
        ensures
            r == self.digest(),
    {
        self.state
    }
}

/// The index drawn at step `i` of the sequence with digests `h1`, `h2` and
/// the exclusive upper bound `bound`: the linear combination
/// `h1 + i * h2`, wrapping modulo 2^64, reduced modulo the bound.
pub open spec fn nth_index(h1: u64, h2: u64, bound: u64, i: u64) -> int
    recommends
        bound > 0,
{
    h1.wrapping_add(i.wrapping_mul(h2)) as int % bound as int
}

/// Lazy, infinite sequence of array indexes in `[0, bound())`, derived from
/// two digests by double hashing. Pulling an index only advances the private
/// step counter and performs one arithmetic step; it never re-hashes.
pub struct Index {
    h1: u64,
    h2: u64,
    max: u64,
    i: u64,
}

impl Index {
    /// The first digest, fixed at construction.
    pub closed spec fn digest1(self) -> u64 {
        self.h1
    }

    /// The second digest, fixed at construction.
    pub closed spec fn digest2(self) -> u64 {
        self.h2
    }

    /// The exclusive upper bound for every produced index.
    pub closed spec fn bound(self) -> u64 {
        self.max
    }

    /// How many indexes have been pulled so far, modulo 2^64.
    pub closed spec fn step(self) -> u64 {
        self.i
    }

    /// The bound is positive, so reduction modulo the bound is defined, and
    /// small enough that every produced index fits in a `usize`.
    pub open spec fn wf(self) -> bool {
        0 < self.bound() <= usize::MAX as u64
    }

    /// A fresh sequence over the given digests, bounded by `max`, with no
    /// index pulled yet.
    pub fn new(h1: u64, h2: u64, max: usize) -> (r: Index)
        requires
            max > 0,
        ensures
            r.wf(),
            r.digest1() == h1,
            r.digest2() == h2,
            r.bound() == max as u64,
            r.step() == 0,
    {
        Index { h1, h2, max: max as u64, i: 0 }
    }

    /// Pulls the next index: advances the step counter by one (wrapping
    /// modulo 2^64) and returns the index for the new step. Never fails;
    /// the sequence is infinite and the caller bounds consumption.
    pub fn next(&mut self) -> (r: usize)
        requires
            old(self).wf(),
        ensures
            final(self).wf(),
            final(self).digest1() == old(self).digest1(),
            final(self).digest2() == old(self).digest2(),
            final(self).bound() == old(self).bound(),
            final(self).step() == old(self).step().wrapping_add(1),
            r as int == nth_index(
                old(self).digest1(),
                old(self).digest2(),
                old(self).bound(),
                final(self).step(),
            ),
            (r as u64) < old(self).bound(),
    {
        self.i = self.i.wrapping_add(1);
        let combined = self.h1.wrapping_add(self.i.wrapping_mul(self.h2));
        (combined % self.max) as usize
    }
}

/// A value with a canonical, deterministic byte serialization. Hashing a
/// value means hashing these bytes, so two values with the same canonical
/// bytes always draw the same indexes.
pub trait Hashable {
    /// The canonical byte serialization, as a mathematical sequence.
    spec fn canon(&self) -> Seq<u8>;

    /// Produces the canonical bytes. Must be a pure function of the value's
    /// content: calling it twice on equal values gives equal bytes.
    fn canonical_bytes(&self) -> (r: Vec<u8>)
        ensures
            r@ == self.canon(),
    ;
}

impl Hashable for Vec<u8> {
    /// A byte vector serializes as itself.
    open spec fn canon(&self) -> Seq<u8> {
        self@
    }

    fn canonical_bytes(&self) -> (r: Vec<u8>) {
        let mut r: Vec<u8> = Vec::new();
        let mut k: usize = 0;
        while k < self.len()
            invariant
                k <= self@.len(),
                r@ =~= self@.subrange(0, k as int),
            decreases self@.len() - k,
        {
            r.push(self[k]);
            k = k + 1;
        }
        proof {
            assert(self@.subrange(0, self@.len() as int) =~= self@);
        }
        r
    }
}

/// Holds of a freshly built index sequence for the canonical bytes `bytes`
/// and the bound `bound`: its digests are the two variants' digests of those
/// bytes from the shared seed, and no index has been pulled yet.
pub open spec fn fresh_for(r: Index, bytes: Seq<u8>, bound: u64) -> bool {
    &&& r.digest1() == fnv_digest(OFFSET_BASIS, bytes)
    &&& r.digest2() == fnva_digest(OFFSET_BASIS, bytes)
    &&& r.bound() == bound
    &&& r.step() == 0
}

/// Returns the index sequence for the given element with the exclusive
/// upper bound `max`. The element's canonical bytes run once through each
/// of the two accumulators; every later index is one arithmetic step on the
/// two digests, with no re-hashing.
///
/// `max` must be positive: a bound of zero has no index below it.
pub fn indexes<E: Hashable>(e: &E, max: usize) -> (r: Index)
    requires
        max > 0,
    ensures
        r.wf(),
        fresh_for(r, e.canon(), max as u64),
{
    let bytes = e.canonical_bytes();
    let mut h1 = FnvHasher::new();
    h1.write(bytes.as_slice());
    let mut h2 = FnvaHasher::new();
    h2.write(bytes.as_slice());
    Index::new(h1.finish(), h2.finish(), max)
}

/// Recomputes the index for step `i` from the digests and the bound alone,
/// without any sequence state: the restartable form of [`Index::next`].
pub fn index_at(h1: u64, h2: u64, max: usize, i: u64) -> (r: usize)
    requires
        max > 0,
    ensures
        r as int == nth_index(h1, h2, max as u64, i),
        r < max,
{
    let combined = h1.wrapping_add(i.wrapping_mul(h2));
    (combined % (max as u64)) as usize
}

/// Determinism: two index sequences independently constructed from the same
/// canonical bytes and the same bound draw the identical index at every
/// step, so their ordered index streams agree at any length.
pub proof fn lemma_determinism(r1: Index, r2: Index, bytes: Seq<u8>, bound: u64)
    requires
        fresh_for(r1, bytes, bound),
        fresh_for(r2, bytes, bound),
    ensures
        forall|i: u64|
            #[trigger] nth_index(r1.digest1(), r1.digest2(), r1.bound(), i) == nth_index(
                r2.digest1(),
                r2.digest2(),
                r2.bound(),
                i,
            ),
{
}

/// Chunking invariance for the multiply-then-mix variant: digesting a
/// concatenation equals digesting the first run and folding the second into
/// the resulting state. So splitting one logical byte sequence over several
/// writes, at any boundaries, leaves the digest unchanged.
pub proof fn lemma_fnv_digest_concat(h: u64, a: Seq<u8>, b: Seq<u8>)
    ensures
        fnv_digest(h, a + b) == fnv_digest(fnv_digest(h, a), b),
    decreases b.len(),
{
    if b.len() == 0 {
        assert(a + b =~= a);
    } else {
        lemma_fnv_digest_concat(h, a, b.drop_last());
        assert((a + b).drop_last() =~= a + b.drop_last());
    }
}

/// Chunking invariance for the mix-then-multiply variant, as in
/// [`lemma_fnv_digest_concat`].
pub proof fn lemma_fnva_digest_concat(h: u64, a: Seq<u8>, b: Seq<u8>)
    ensures
        fnva_digest(h, a + b) == fnva_digest(fnva_digest(h, a), b),
    decreases b.len(),
{
    if b.len() == 0 {
        assert(a + b =~= a);
    } else {
        lemma_fnva_digest_concat(h, a, b.drop_last());
        assert((a + b).drop_last() =~= a + b.drop_last());
    }
}

/// Empty input: digesting a zero-length byte sequence leaves the state
/// unchanged, so a fresh accumulator of either variant finishes to the seed
/// itself.
pub proof fn lemma_empty_digest(h: u64)
    ensures
        fnv_digest(h, Seq::<u8>::empty()) == h,
        fnva_digest(h, Seq::<u8>::empty()) == h,
{
}

} // verus!
