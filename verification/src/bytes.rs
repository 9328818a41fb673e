//! Little-endian encoding of 64-bit integers, the base of the wire format.

use vstd::prelude::*;

verus! {

/// The eight-byte little-endian encoding of `v`.
pub open spec fn enc_u64(v: u64) -> Seq<u8> {
    seq![
        (v & 0xff) as u8,
        ((v >> 8) & 0xff) as u8,
        ((v >> 16) & 0xff) as u8,
        ((v >> 24) & 0xff) as u8,
        ((v >> 32) & 0xff) as u8,
        ((v >> 40) & 0xff) as u8,
        ((v >> 48) & 0xff) as u8,
        ((v >> 56) & 0xff) as u8,
    ]
}

/// The integer encoded by an eight-byte little-endian sequence.
pub open spec fn dec_u64(s: Seq<u8>) -> u64
    recommends
        s.len() == 8,
{
    (s[0] as u64)
        | ((s[1] as u64) << 8)
        | ((s[2] as u64) << 16)
        | ((s[3] as u64) << 24)
        | ((s[4] as u64) << 32)
        | ((s[5] as u64) << 40)
        | ((s[6] as u64) << 48)
        | ((s[7] as u64) << 56)
}

/// Decoding inverts encoding: every integer survives a round trip.
pub proof fn lemma_dec_enc(v: u64)
    ensures
        dec_u64(enc_u64(v)) == v,
{
    assert((((v & 0xff) as u8) as u64)
        | (((((v >> 8) & 0xff) as u8) as u64) << 8)
        | (((((v >> 16) & 0xff) as u8) as u64) << 16)
        | (((((v >> 24) & 0xff) as u8) as u64) << 24)
        | (((((v >> 32) & 0xff) as u8) as u64) << 32)
        | (((((v >> 40) & 0xff) as u8) as u64) << 40)
        | (((((v >> 48) & 0xff) as u8) as u64) << 48)
        | (((((v >> 56) & 0xff) as u8) as u64) << 56) == v) by (bit_vector);
}

/// Produces the little-endian bytes of `v`.
pub fn u64_to_le_bytes(v: u64) -> (r: Vec<u8>)
    ensures
        r@ == enc_u64(v),
{
    let mut r: Vec<u8> = Vec::new();
    r.push((v & 0xff) as u8);
    r.push(((v >> 8) & 0xff) as u8);
    r.push(((v >> 16) & 0xff) as u8);
    r.push(((v >> 24) & 0xff) as u8);
    r.push(((v >> 32) & 0xff) as u8);
    r.push(((v >> 40) & 0xff) as u8);
    r.push(((v >> 48) & 0xff) as u8);
    r.push(((v >> 56) & 0xff) as u8);
    assert(r@ =~= enc_u64(v));
    r
}

/// Reads the integer stored little-endian at offset `off` of `s`.
pub fn u64_from_le_bytes(s: &Vec<u8>, off: usize) -> (r: u64)
    requires
        off + 8 <= s.len(),
    ensures
        r == dec_u64(s@.subrange(off as int, off as int + 8)),
{
    let r = (s[off] as u64)
        | ((s[off + 1] as u64) << 8)
        | ((s[off + 2] as u64) << 16)
        | ((s[off + 3] as u64) << 24)
        | ((s[off + 4] as u64) << 32)
        | ((s[off + 5] as u64) << 40)
        | ((s[off + 6] as u64) << 48)
        | ((s[off + 7] as u64) << 56);
    assert(forall|i: int| 0 <= i < 8 ==> #[trigger] s@.subrange(off as int, off as int + 8)[i] == s@[off + i]);
    r
}

/// Appends the little-endian bytes of `v` to `out`.
pub fn push_u64(out: &mut Vec<u8>, v: u64)
    ensures
        final(out)@ == old(out)@ + enc_u64(v),
{
    let mut b = u64_to_le_bytes(v);
    out.append(&mut b);
}

/// Appends a copy of `b` to `out`.
pub fn push_bytes(out: &mut Vec<u8>, b: &Vec<u8>)
    ensures
        final(out)@ == old(out)@ + b@,
{
    let mut i: usize = 0;
    while i < b.len()
        invariant
            i <= b.len(),
            out@ == old(out)@ + b@.take(i as int),
        decreases b.len() - i,
    {
        out.push(b[i]);
        assert(old(out)@ + b@.take(i as int) + seq![b@[i as int]] =~= old(out)@ + b@.take(i as int + 1));
        i = i + 1;
    }
    assert(b@.take(b.len() as int) =~= b@);
}

/// Copies a byte vector.
pub fn copy_bytes(v: &Vec<u8>) -> (r: Vec<u8>)
    ensures
        r@ == v@,
{
    let mut r: Vec<u8> = Vec::new();
    push_bytes(&mut r, v);
    assert(r@ =~= v@);
    r
}

/// Copies a vector of integers.
pub fn copy_u64s(v: &Vec<u64>) -> (r: Vec<u64>)
    ensures
        r@ == v@,
{
    let mut r: Vec<u64> = Vec::new();
    let mut i: usize = 0;
    while i < v.len()
        invariant
            i <= v@.len(),
            r@ == v@.take(i as int),
        decreases v@.len() - i,
    {
        r.push(v[i]);
        assert(v@.take(i as int).push(v@[i as int]) =~= v@.take(i as int + 1));
        i = i + 1;
    }
    assert(v@.take(v@.len() as int) =~= v@);
    r
}

/// Compares two byte vectors for equality of contents.
pub fn bytes_eq(a: &Vec<u8>, b: &Vec<u8>) -> (r: bool)
    ensures
        r <==> a@ == b@,
{
    if a.len() != b.len() {
        assert(a@ != b@);
        return false;
    }
    let mut i: usize = 0;
    while i < a.len()
        invariant
            i <= a.len(),
            a@.len() == b@.len(),
            forall|j: int| 0 <= j < i ==> a@[j] == b@[j],
        decreases a.len() - i,
    {
        if a[i] != b[i] {
            return false;
        }
        i = i + 1;
    }
    assert(a@ =~= b@);
    true
}

/// Appends `count` copies of `b` to `out`.
pub fn push_repeat(out: &mut Vec<u8>, b: u8, count: usize)
    ensures
        final(out)@ == old(out)@ + Seq::new(count as nat, |i: int| b),
{
    let mut i: usize = 0;
    while i < count
        invariant
            i <= count,
            out@ == old(out)@ + Seq::new(i as nat, |j: int| b),
        decreases count - i,
    {
        out.push(b);
        assert(old(out)@ + Seq::new(i as nat, |j: int| b) + seq![b]
            =~= old(out)@ + Seq::new(i as nat + 1, |j: int| b));
        i = i + 1;
    }
}

} // verus!
