//! Fixed-width integer encodings used by the wire format and the block hash.
use vstd::prelude::*;

verus! {

/// 256 to the power `k`.
pub open spec fn pow256(k: nat) -> nat
    decreases k,
{
    if k == 0 {
        1
    } else {
        256 * pow256((k - 1) as nat)
    }
}

/// The `k` low-order bytes of `n`, most significant first.
pub open spec fn be_bytes(n: nat, k: nat) -> Seq<u8>
    decreases k,
{
    if k == 0 {
        Seq::empty()
    } else {
        be_bytes(n / 256, (k - 1) as nat).push((n % 256) as u8)
    }
}

/// The `k` low-order bytes of `n`, least significant first.
pub open spec fn le_bytes(n: nat, k: nat) -> Seq<u8>
    decreases k,
{
    if k == 0 {
        Seq::empty()
    } else {
        seq![(n % 256) as u8] + le_bytes(n / 256, (k - 1) as nat)
    }
}

/// The number that a byte sequence denotes, read most significant byte first.
pub open spec fn be_value(s: Seq<u8>) -> nat
    decreases s.len(),
{
    if s.len() == 0 {
        0
    } else {
        be_value(s.drop_last()) * 256 + s.last() as nat
    }
}

pub proof fn lemma_be_bytes_len(n: nat, k: nat)
    ensures
        be_bytes(n, k).len() == k,
    decreases k,
{
    if k > 0 {
        lemma_be_bytes_len(n / 256, (k - 1) as nat);
    }
}

/// Reading back the big-endian bytes of a number that fits in them gives the number.
pub proof fn lemma_be_round_trip(n: nat, k: nat)
    requires
        n < pow256(k),
    ensures
        be_value(be_bytes(n, k)) == n,
        be_bytes(n, k).len() == k,
    decreases k,
{
    lemma_be_bytes_len(n, k);
    if k > 0 {
        let m = (k - 1) as nat;
        assert(n / 256 < pow256(m)) by (nonlinear_arith)
            requires
                n < 256 * pow256(m),
        ;
        lemma_be_round_trip(n / 256, m);
        let s = be_bytes(n, k);
        assert(s.drop_last() =~= be_bytes(n / 256, m));
        assert(s.last() as nat == n % 256);
        assert(n == (n / 256) * 256 + n % 256) by (nonlinear_arith);
    }
}

pub proof fn lemma_pow256_16()
    ensures
        pow256(16) == 0x1_0000_0000_0000_0000_0000_0000_0000_0000,
        pow256(4) == 0x1_0000_0000,
{
    reveal_with_fuel(pow256, 17);
}

/// A value below 256 to the power of a byte count fits in that many bytes.
pub proof fn lemma_be_value_bound(s: Seq<u8>)
    ensures
        be_value(s) < pow256(s.len()),
    decreases s.len(),
{
    if s.len() > 0 {
        let init = s.drop_last();
        lemma_be_value_bound(init);
        let p = pow256(init.len());
        let v = be_value(init);
        let l = s.last() as nat;
        assert(v * 256 + l < 256 * p) by (nonlinear_arith)
            requires
                v < p,
                l < 256,
        ;
    }
}

pub proof fn lemma_pow256_monotonic(a: nat, b: nat)
    requires
        a <= b,
    ensures
        pow256(a) <= pow256(b),
    decreases b,
{
    if a < b {
        lemma_pow256_monotonic(a, (b - 1) as nat);
    }
}

/// The `k` low-order bytes of `n`, most significant first.
pub(crate) fn be_bytes_of(n: u128, k: usize) -> (r: Vec<u8>)
    ensures
        r@ == be_bytes(n as nat, k as nat),
    decreases k,
{
    if k == 0 {
        Vec::new()
    } else {
        let mut r = be_bytes_of(n / 256, k - 1);
        r.push((n % 256) as u8);
        r
    }
}

/// The `k` low-order bytes of `n`, least significant first.
pub(crate) fn le_bytes_of(n: u128, k: usize) -> (r: Vec<u8>)
    ensures
        r@ == le_bytes(n as nat, k as nat),
    decreases k,
{
    if k == 0 {
        Vec::new()
    } else {
        let mut r = le_bytes_of(n / 256, k - 1);
        r.insert(0, (n % 256) as u8);
        assert(r@ =~= seq![(n % 256) as u8] + le_bytes((n / 256) as nat, (k - 1) as nat));
        r
    }
}

/// The number that the first `len` bytes of `b` denote, most significant first.
pub(crate) fn be_value_of(b: &[u8], len: usize) -> (r: u128)
    requires
        len <= b@.len(),
        len <= 16,
    ensures
        r as nat == be_value(b@.subrange(0, len as int)),
    decreases len,
{
    if len == 0 {
        0
    } else {
        let v = be_value_of(b, len - 1);
        proof {
            let s = b@.subrange(0, len as int);
            assert(s.drop_last() =~= b@.subrange(0, len - 1));
            lemma_be_value_bound(b@.subrange(0, len - 1));
            lemma_pow256_monotonic((len - 1) as nat, 15);
            reveal_with_fuel(pow256, 17);
            assert(v * 256 + 255 <= u128::MAX) by (nonlinear_arith)
                requires
                    v < 0x1_0000_0000_0000_0000_0000_0000_0000_00,
            ;
        }
        v * 256 + b[len - 1] as u128
    }
}

} // verus!
