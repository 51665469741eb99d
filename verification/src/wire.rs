//! Little-endian field access on byte buffers, through `byteorder`.

use byteorder::{ByteOrder, LittleEndian};
use vstd::prelude::*;
use vstd::bytes::{
    spec_u16_from_le_bytes, spec_u16_to_le_bytes, spec_u32_from_le_bytes, spec_u32_to_le_bytes,
    spec_u64_from_le_bytes, spec_u64_to_le_bytes,
};

verus! {

/// The buffer `old` with the bytes `part` written at offset `off`.
pub open spec fn spliced(old: Seq<u8>, off: int, part: Seq<u8>) -> Seq<u8> {
    old.take(off) + part + old.skip(off + part.len())
}

/// `LittleEndian::write_u16` applied to `buf[off..]`: byteorder copies
/// `n.to_le_bytes()` into the first two bytes of the slice it is given.
#[verifier::external_body]
pub(crate) fn put_u16_le(buf: &mut [u8], off: usize, n: u16)
    requires
        off + 2 <= old(buf)@.len(),
    ensures
        final(buf)@ == spliced(old(buf)@, off as int, spec_u16_to_le_bytes(n)),
{
    LittleEndian::write_u16(&mut buf[off..], n)
}

/// `LittleEndian::write_u32` applied to `buf[off..]`: byteorder copies
/// `n.to_le_bytes()` into the first four bytes of the slice it is given.
#[verifier::external_body]
pub(crate) fn put_u32_le(buf: &mut [u8], off: usize, n: u32)
    requires
        off + 4 <= old(buf)@.len(),
    ensures
        final(buf)@ == spliced(old(buf)@, off as int, spec_u32_to_le_bytes(n)),
{
    LittleEndian::write_u32(&mut buf[off..], n)
}

/// `LittleEndian::write_u64` applied to `buf[off..]`: byteorder copies
/// `n.to_le_bytes()` into the first eight bytes of the slice it is given.
#[verifier::external_body]
pub(crate) fn put_u64_le(buf: &mut [u8], off: usize, n: u64)
    requires
        off + 8 <= old(buf)@.len(),
    ensures
        final(buf)@ == spliced(old(buf)@, off as int, spec_u64_to_le_bytes(n)),
{
    LittleEndian::write_u64(&mut buf[off..], n)
}

/// `LittleEndian::read_u16` applied to `buf[off..]`: byteorder reads the first
/// two bytes of the slice as a little-endian integer.
#[verifier::external_body]
pub(crate) fn get_u16_le(buf: &[u8], off: usize) -> (n: u16)
    requires
        off + 2 <= buf@.len(),
    ensures
        n == spec_u16_from_le_bytes(buf@.subrange(off as int, off + 2)),
{
    LittleEndian::read_u16(&buf[off..])
}

/// `LittleEndian::read_u32` applied to `buf[off..]`: byteorder reads the first
/// four bytes of the slice as a little-endian integer.
#[verifier::external_body]
pub(crate) fn get_u32_le(buf: &[u8], off: usize) -> (n: u32)
    requires
        off + 4 <= buf@.len(),
    ensures
        n == spec_u32_from_le_bytes(buf@.subrange(off as int, off + 4)),
{
    LittleEndian::read_u32(&buf[off..])
}

/// `LittleEndian::read_u64` applied to `buf[off..]`: byteorder reads the first
/// eight bytes of the slice as a little-endian integer.
#[verifier::external_body]
pub(crate) fn get_u64_le(buf: &[u8], off: usize) -> (n: u64)
    requires
        off + 8 <= buf@.len(),
    ensures
        n == spec_u64_from_le_bytes(buf@.subrange(off as int, off + 8)),
{
    LittleEndian::read_u64(&buf[off..])
}

/// Writes one byte at `off`.
pub(crate) fn put_u8(buf: &mut [u8], off: usize, b: u8)
    requires
        off < old(buf)@.len(),
    ensures
        final(buf)@ == spliced(old(buf)@, off as int, seq![b]),
{
    buf[off] = b;
    assert(buf@ =~= spliced(old(buf)@, off as int, seq![b]));
}

/// Appends one byte to a frame being written at the start of `buf`.
pub(crate) fn append_u8(buf: &mut [u8], off: usize, b: u8, Ghost(orig): Ghost<Seq<u8>>, Ghost(prefix): Ghost<Seq<u8>>)
    requires
        old(buf)@ == spliced(orig, 0, prefix),
        off == prefix.len(),
        off + 1 <= orig.len(),
    ensures
        final(buf)@ == spliced(orig, 0, prefix + seq![b]),
{
    put_u8(buf, off, b);
    proof { lemma_splice_adjacent(orig, 0, prefix, seq![b]); }
}

/// Appends a little-endian `u16` to a frame being written at the start of `buf`.
pub(crate) fn append_u16(buf: &mut [u8], off: usize, n: u16, Ghost(orig): Ghost<Seq<u8>>, Ghost(prefix): Ghost<Seq<u8>>)
    requires
        old(buf)@ == spliced(orig, 0, prefix),
        off == prefix.len(),
        off + 2 <= orig.len(),
    ensures
        final(buf)@ == spliced(orig, 0, prefix + spec_u16_to_le_bytes(n)),
{
    proof { lemma_le_facts(); }
    put_u16_le(buf, off, n);
    proof { lemma_splice_adjacent(orig, 0, prefix, spec_u16_to_le_bytes(n)); }
}

/// Appends a little-endian `u32` to a frame being written at the start of `buf`.
pub(crate) fn append_u32(buf: &mut [u8], off: usize, n: u32, Ghost(orig): Ghost<Seq<u8>>, Ghost(prefix): Ghost<Seq<u8>>)
    requires
        old(buf)@ == spliced(orig, 0, prefix),
        off == prefix.len(),
        off + 4 <= orig.len(),
    ensures
        final(buf)@ == spliced(orig, 0, prefix + spec_u32_to_le_bytes(n)),
{
    proof { lemma_le_facts(); }
    put_u32_le(buf, off, n);
    proof { lemma_splice_adjacent(orig, 0, prefix, spec_u32_to_le_bytes(n)); }
}

/// Appends a little-endian `u64` to a frame being written at the start of `buf`.
pub(crate) fn append_u64(buf: &mut [u8], off: usize, n: u64, Ghost(orig): Ghost<Seq<u8>>, Ghost(prefix): Ghost<Seq<u8>>)
    requires
        old(buf)@ == spliced(orig, 0, prefix),
        off == prefix.len(),
        off + 8 <= orig.len(),
    ensures
        final(buf)@ == spliced(orig, 0, prefix + spec_u64_to_le_bytes(n)),
{
    proof { lemma_le_facts(); }
    put_u64_le(buf, off, n);
    proof { lemma_splice_adjacent(orig, 0, prefix, spec_u64_to_le_bytes(n)); }
}

/// Appends a run of bytes to a frame being written at the start of `buf`.
pub(crate) fn append_bytes(buf: &mut [u8], off: usize, src: &[u8], Ghost(orig): Ghost<Seq<u8>>, Ghost(prefix): Ghost<Seq<u8>>)
    requires
        old(buf)@ == spliced(orig, 0, prefix),
        off == prefix.len(),
        off + src@.len() <= orig.len(),
    ensures
        final(buf)@ == spliced(orig, 0, prefix + src@),
{
    let n = buf.len();
    assert(n == orig.len());
    let mut i: usize = 0;
    while i < src.len()
        invariant
            0 <= i <= src@.len(),
            orig.len() <= usize::MAX,
            off == prefix.len(),
            off + src@.len() <= orig.len(),
            buf@ == spliced(orig, 0, prefix + src@.take(i as int)),
        decreases src@.len() - i,
    {
        append_u8(buf, off + i, src[i], Ghost(orig), Ghost(prefix + src@.take(i as int)));
        assert(prefix + src@.take(i as int) + seq![src@[i as int]] =~= prefix + src@.take(i + 1));
        i += 1;
    }
    assert(src@.take(src@.len() as int) =~= src@);
}

/// Whether two MAC addresses are the same.
pub fn mac_equal(a: &[u8; 6], b: &[u8; 6]) -> (r: bool)
    ensures
        r == (*a == *b),
{
    broadcast use vstd::array::group_array_axioms;
    let mut i: usize = 0;
    while i < 6
        invariant
            i <= 6,
            a@.len() == 6,
            b@.len() == 6,
            forall|j: int| 0 <= j < i ==> a@[j] == b@[j],
        decreases 6 - i,
    {
        if a[i] != b[i] {
            return false;
        }
        i += 1;
    }
    assert(*a =~= *b);
    true
}

/// Splicing the empty sequence changes nothing.
pub proof fn lemma_splice_empty(b: Seq<u8>)
    ensures
        spliced(b, 0, Seq::<u8>::empty()) == b,
{
    assert(spliced(b, 0, Seq::<u8>::empty()) =~= b);
}

/// Writing `p1` at `o` and then `p2` right after it writes `p1 + p2` at `o`.
pub proof fn lemma_splice_adjacent(b: Seq<u8>, o: int, p1: Seq<u8>, p2: Seq<u8>)
    requires
        0 <= o,
        o + p1.len() + p2.len() <= b.len(),
    ensures
        spliced(spliced(b, o, p1), o + p1.len(), p2) == spliced(b, o, p1 + p2),
        spliced(b, o, p1).len() == b.len(),
{
    assert(spliced(spliced(b, o, p1), o + p1.len(), p2) =~= spliced(b, o, p1 + p2));
}

/// Facts about the little-endian byte images that the wire formats use.
pub proof fn lemma_le_facts()
    ensures
        forall|x: u16| #![trigger spec_u16_to_le_bytes(x)]
            spec_u16_to_le_bytes(x).len() == 2 && spec_u16_from_le_bytes(spec_u16_to_le_bytes(x)) == x,
        forall|x: u32| #![trigger spec_u32_to_le_bytes(x)]
            spec_u32_to_le_bytes(x).len() == 4 && spec_u32_from_le_bytes(spec_u32_to_le_bytes(x)) == x,
        forall|x: u64| #![trigger spec_u64_to_le_bytes(x)]
            spec_u64_to_le_bytes(x).len() == 8 && spec_u64_from_le_bytes(spec_u64_to_le_bytes(x)) == x,
{
    vstd::bytes::lemma_auto_spec_u16_to_from_le_bytes();
    vstd::bytes::lemma_auto_spec_u32_to_from_le_bytes();
    vstd::bytes::lemma_auto_spec_u64_to_from_le_bytes();
}

} // verus!
