//! Big-endian fixed-width integers and byte-sequence helpers.

use vstd::prelude::*;

verus! {

/// `256` raised to the power `n`.
pub open spec fn pow256(n: nat) -> nat
    decreases n,
{
    if n == 0 {
        1
    } else {
        256 * pow256((n - 1) as nat)
    }
}

/// The `n`-byte big-endian encoding of `v` (keeping the low `n` bytes).
pub open spec fn be_bytes(v: nat, n: nat) -> Seq<u8>
    decreases n,
{
    if n == 0 {
        Seq::empty()
    } else {
        be_bytes(v / 256, (n - 1) as nat).push((v % 256) as u8)
    }
}

/// The unsigned value of a big-endian byte sequence.
pub open spec fn be_value(s: Seq<u8>) -> nat
    decreases s.len(),
{
    if s.len() == 0 {
        0
    } else {
        be_value(s.drop_last()) * 256 + s.last() as nat
    }
}

pub proof fn lemma_pow256_positive(n: nat)
    ensures
        pow256(n) >= 1,
    decreases n,
{
    if n > 0 {
        lemma_pow256_positive((n - 1) as nat);
    }
}

pub proof fn lemma_pow256_monotonic(a: nat, b: nat)
    requires
        a <= b,
    ensures
        pow256(a) <= pow256(b),
    decreases b,
{
    if a < b {
        lemma_pow256_monotonic(a, (b - 1) as nat);
        lemma_pow256_positive((b - 1) as nat);
    }
}

pub proof fn lemma_pow256_values()
    ensures
        pow256(1) == 0x100,
        pow256(2) == 0x1_0000,
        pow256(4) == 0x1_0000_0000,
        pow256(8) == 0x1_0000_0000_0000_0000,
{
    reveal_with_fuel(pow256, 9);
}

pub proof fn lemma_be_bytes_len(v: nat, n: nat)
    ensures
        be_bytes(v, n).len() == n,
    decreases n,
{
    if n > 0 {
        lemma_be_bytes_len(v / 256, (n - 1) as nat);
    }
}

pub proof fn lemma_be_value_bound(s: Seq<u8>)
    ensures
        be_value(s) < pow256(s.len()),
    decreases s.len(),
{
    if s.len() > 0 {
        lemma_be_value_bound(s.drop_last());
        let p = pow256((s.len() - 1) as nat);
        let v = be_value(s.drop_last());
        assert(v * 256 + s.last() < 256 * p) by (nonlinear_arith)
            requires
                v < p,
                s.last() < 256,
        ;
    }
}

/// Decoding an encoding of a value that fits gives the value back.
pub proof fn lemma_be_value_of_bytes(v: nat, n: nat)
    requires
        v < pow256(n),
    ensures
        be_value(be_bytes(v, n)) == v,
    decreases n,
{
    if n > 0 {
        let p = pow256((n - 1) as nat);
        assert(v / 256 < p) by (nonlinear_arith)
            requires
                v < 256 * p,
        ;
        lemma_be_value_of_bytes(v / 256, (n - 1) as nat);
        let s = be_bytes(v, n);
        assert(s.drop_last() =~= be_bytes(v / 256, (n - 1) as nat));
        assert(v == (v / 256) * 256 + v % 256) by (nonlinear_arith);
    }
}

/// Encoding the value of a byte sequence gives the sequence back.
pub proof fn lemma_be_bytes_of_value(s: Seq<u8>)
    ensures
        be_bytes(be_value(s), s.len()) =~= s,
    decreases s.len(),
{
    if s.len() > 0 {
        let v = be_value(s);
        let w = be_value(s.drop_last());
        assert(v / 256 == w && v % 256 == s.last() as nat) by (nonlinear_arith)
            requires
                v == w * 256 + s.last(),
                s.last() < 256,
        ;
        lemma_be_bytes_of_value(s.drop_last());
        lemma_be_bytes_len(v / 256, (s.len() - 1) as nat);
        assert(be_bytes(v, s.len()) =~= s.drop_last().push(s.last()));
    }
}

/// Appends the `n`-byte big-endian encoding of `v`.
pub fn push_be(out: &mut Vec<u8>, v: u64, n: usize)
    requires
        n <= 8,
    ensures
        final(out)@ == old(out)@ + be_bytes(v as nat, n as nat),
    decreases n,
{
    if n == 0 {
        assert(old(out)@ + be_bytes(v as nat, 0) =~= old(out)@);
    } else {
        push_be(out, v / 256, n - 1);
        out.push((v % 256) as u8);
        assert(be_bytes(v as nat, n as nat) == be_bytes((v / 256) as nat, (n - 1) as nat).push(
            (v % 256) as u8,
        ));
        assert(final(out)@ =~= old(out)@ + be_bytes(v as nat, n as nat));
    }
}

/// Reads `n` big-endian bytes of `s` starting at `start`.
pub fn read_be(s: &[u8], start: usize, n: usize) -> (value: u64)
    requires
        n <= 8,
        start + n <= s@.len(),
    ensures
        value as nat == be_value(s@.subrange(start as int, start + n)),
{
    let mut value: u64 = 0;
    let mut i: usize = 0;
    let len = s.len();
    while i < n
        invariant
            n <= 8,
            len == s@.len(),
            start + n <= len,
            i <= n,
            value as nat == be_value(s@.subrange(start as int, start + i)),
        decreases n - i,
    {
        let ghost prefix = s@.subrange(start as int, start + i);
        let ghost next = s@.subrange(start as int, start + i + 1);
        proof {
            assert(next.drop_last() =~= prefix);
            lemma_be_value_bound(prefix);
            lemma_pow256_monotonic(i as nat, 7);
            lemma_pow256_values();
            reveal_with_fuel(pow256, 8);
            assert(pow256(7) == 0x100_0000_0000_0000);
            assert(value * 256 + 255 <= u64::MAX);
        }
        let index: usize = start + i;
        let byte: u8 = s[index];
        value = value * 256 + byte as u64;
        i = i + 1;
    }
    value
}

/// Appends all of `src` to `out`.
pub fn append_bytes(out: &mut Vec<u8>, src: &[u8])
    ensures
        final(out)@ == old(out)@ + src@,
{
    let mut i: usize = 0;
    while i < src.len()
        invariant
            i <= src@.len(),
            out@ == old(out)@ + src@.subrange(0, i as int),
        decreases src@.len() - i,
    {
        out.push(src[i]);
        i = i + 1;
        assert(out@ =~= old(out)@ + src@.subrange(0, i as int));
    }
    assert(src@.subrange(0, src@.len() as int) =~= src@);
}

/// Whether two byte slices hold the same bytes.
pub fn bytes_equal(a: &[u8], b: &[u8]) -> (equal: bool)
    ensures
        equal == (a@ == b@),
{
    if a.len() != b.len() {
        return false;
    }
    let mut i: usize = 0;
    while i < a.len()
        invariant
            a@.len() == b@.len(),
            i <= a@.len(),
            forall|j: int| 0 <= j < i ==> a@[j] == b@[j],
        decreases a@.len() - i,
    {
        if a[i] != b[i] {
            return false;
        }
        i = i + 1;
    }
    assert(a@ =~= b@);
    true
}

} // verus!
