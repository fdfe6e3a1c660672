//! Discrete parts of the Theory of Functional Connections solver: the order of
//! the Chebyshev basis, the fingerprint of a coefficient vector, and the
//! bookkeeping that decides when the cached end-point values of the free
//! function must be recomputed.
use vstd::prelude::*;

verus! {

/// A Chebyshev basis of the given order (`order + 1` polynomials).
pub struct ChebyshevBasis {
    pub order: usize,
}

impl ChebyshevBasis {
    pub fn new(order: usize) -> (b: Self)
        ensures
            b.order == order,
    {
        ChebyshevBasis { order }
    }
}

/// 2^64.
pub open spec fn two_to_64() -> nat {
    0x1_0000_0000_0000_0000
}

/// The fingerprint of a sequence of coefficient bit patterns: a polynomial
/// hash with multiplier 31, taken modulo 2^64, starting from 0.
pub open spec fn bits_hash(bits: Seq<u64>) -> u64
    decreases bits.len(),
{
    if bits.len() == 0 {
        0
    } else {
        ((bits_hash(bits.drop_last()) as nat * 31 + bits.last() as nat) % two_to_64()) as u64
    }
}

/// One step of the fingerprint in wrapping arithmetic.
fn hash_step(h: u64, b: u64) -> (r: u64)
    ensures
        r as nat == (h as nat * 31 + b as nat) % two_to_64(),
{
    let m = h.wrapping_mul(31);
    let r = m.wrapping_add(b);
    proof {
        let p = h as nat * 31;
        let n = two_to_64() as int;
        assert(m as nat == p % two_to_64());
        vstd::arithmetic::div_mod::lemma_add_mod_noop(p as int, b as int, n);
        vstd::arithmetic::div_mod::lemma_small_mod(b as nat, two_to_64());
        vstd::arithmetic::div_mod::lemma_mod_twice(m as int + b as int, n);
    }
    r
}

/// The fingerprint of the bit patterns of a coefficient vector.  The cache
/// uses it to reject a different vector quickly; equal fingerprints are
/// confirmed by comparing the bit patterns, since distinct vectors can share
/// one.
pub fn coefficients_hash(bits: &Vec<u64>) -> (h: u64)
    ensures
        h == bits_hash(bits@),
{
    let mut h: u64 = 0;
    let mut i: usize = 0;
    while i < bits.len()
        invariant
            i <= bits@.len(),
            h == bits_hash(bits@.subrange(0, i as int)),
        decreases bits.len() - i,
    {
        assert(bits@.subrange(0, i as int + 1).drop_last() =~= bits@.subrange(0, i as int));
        h = hash_step(h, bits[i]);
        i = i + 1;
    }
    assert(bits@.subrange(0, bits@.len() as int) =~= bits@);
    h
}

/// Which coefficient vector the cached end-point values belong to: the bit
/// patterns of its coefficients, their fingerprint, and whether the cache
/// holds values.
#[derive(Debug)]
pub struct CacheTag {
    hash: u64,
    bits: Vec<u64>,
    filled: bool,
}

impl View for CacheTag {
    type V = (Seq<u64>, bool);

    closed spec fn view(&self) -> (Seq<u64>, bool) {
        (self.bits@, self.filled)
    }
}

/// The cache holds the values for exactly this coefficient vector.
pub open spec fn fresh_for(tag: (Seq<u64>, bool), bits: Seq<u64>) -> bool {
    tag.1 && tag.0 == bits
}

/// Whether two bit-pattern vectors are equal, element by element.
fn same_bits(a: &Vec<u64>, b: &Vec<u64>) -> (r: bool)
    ensures
        r == (a@ == b@),
{
    if a.len() != b.len() {
        return false;
    }
    let mut i: usize = 0;
    while i < a.len()
        invariant
            a@.len() == b@.len(),
            i <= a@.len(),
            forall|k: int| 0 <= k < i ==> a@[k] == b@[k],
        decreases a.len() - i,
    {
        if a[i] != b[i] {
            return false;
        }
        i = i + 1;
    }
    assert(a@ =~= b@);
    true
}

/// A copy of a bit-pattern vector.
fn copy_bits(a: &Vec<u64>) -> (r: Vec<u64>)
    ensures
        r@ == a@,
{
    let mut r: Vec<u64> = Vec::new();
    let mut i: usize = 0;
    while i < a.len()
        invariant
            i <= a@.len(),
            r@ == a@.subrange(0, i as int),
        decreases a.len() - i,
    {
        r.push(a[i]);
        i = i + 1;
    }
    assert(a@.subrange(0, a@.len() as int) =~= a@);
    r
}

impl CacheTag {
    #[verifier::type_invariant]
    spec fn fingerprint_matches(self) -> bool {
        self.hash == bits_hash(self.bits@)
    }

    /// An empty cache.
    pub fn new() -> (t: Self)
        ensures
            t@ == (Seq::<u64>::empty(), false),
    {
        let t = CacheTag { hash: 0, bits: Vec::new(), filled: false };
        assert(t.bits@ =~= Seq::<u64>::empty());
        t
    }

    /// The cached values can be reused for these coefficients: the cache is
    /// filled and was filled for exactly the same bit patterns.  Vectors
    /// with a different fingerprint are rejected without comparing them.
    pub fn is_fresh(&self, bits: &Vec<u64>) -> (b: bool)
        ensures
            b == fresh_for(self@, bits@),
    {
        proof {
            use_type_invariant(self);
        }
        if !self.filled {
            return false;
        }
        if coefficients_hash(bits) != self.hash {
            return false;
        }
        same_bits(&self.bits, bits)
    }

    /// Records that the cache now holds the values for these coefficients.
    pub fn record(&mut self, bits: &Vec<u64>)
        ensures
            final(self)@ == (bits@, true),
    {
        let hash = coefficients_hash(bits);
        *self = CacheTag { hash, bits: copy_bits(bits), filled: true };
    }

    /// Empties the cache.
    pub fn invalidate(&mut self)
        ensures
            final(self)@ == (old(self)@.0, false),
    {
        proof {
            use_type_invariant(&*self);
        }
        let bits = copy_bits(&self.bits);
        *self = CacheTag { hash: self.hash, bits, filled: false };
    }
}

/// The cache serves only the coefficient vector it was recorded for, and
/// nothing after it is invalidated: a fresh cache never changes a result.
pub proof fn lemma_cache_serves_only_recorded(recorded: Seq<u64>, bits: Seq<u64>, kept: Seq<u64>)
    ensures
        fresh_for((recorded, true), recorded),
        fresh_for((recorded, true), bits) ==> bits == recorded,
        !fresh_for((kept, false), bits),
{
}

} // verus!
