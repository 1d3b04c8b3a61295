//! Big-endian encoding and decoding of the fixed-width integer fields used
//! by the source log format and the output capture container.

use vstd::prelude::*;

verus! {

/// The value of four big-endian bytes.
pub open spec fn be32(s: Seq<u8>) -> nat
    recommends
        s.len() == 4,
{
    (s[0] as nat) * 0x1000000 + (s[1] as nat) * 0x10000 + (s[2] as nat) * 0x100 + (s[3] as nat)
}

/// The value of eight big-endian bytes.
pub open spec fn be64(s: Seq<u8>) -> nat
    recommends
        s.len() == 8,
{
    be32(s.take(4)) * 0x100000000 + be32(s.skip(4))
}

/// The value of eight big-endian bytes read as a two's-complement signed
/// 64-bit integer.
pub open spec fn be64_signed(s: Seq<u8>) -> int
    recommends
        s.len() == 8,
{
    if be64(s) >= 0x8000000000000000 {
        be64(s) - 0x10000000000000000
    } else {
        be64(s) as int
    }
}

/// The four big-endian bytes of a 32-bit value.
pub open spec fn be32_bytes(x: u32) -> Seq<u8> {
    seq![
        (x / 0x1000000) as u8,
        ((x / 0x10000) % 0x100) as u8,
        ((x / 0x100) % 0x100) as u8,
        (x % 0x100) as u8,
    ]
}

/// The two big-endian bytes of a 16-bit value.
pub open spec fn be16_bytes(x: u16) -> Seq<u8> {
    seq![(x / 0x100) as u8, (x % 0x100) as u8]
}

/// Reads a big-endian 32-bit field at `off`.
pub fn read_be32(b: &[u8], off: usize) -> (r: u32)
    requires
        off + 4 <= b@.len(),
    ensures
        r == be32(b@.subrange(off as int, off + 4)),
{
    let r = (b[off] as u32) * 0x1000000 + (b[off + 1] as u32) * 0x10000 + (b[off + 2] as u32)
        * 0x100 + (b[off + 3] as u32);
    proof {
        let s = b@.subrange(off as int, off + 4);
        assert(s[0] == b@[off as int]);
        assert(s[1] == b@[off + 1]);
        assert(s[2] == b@[off + 2]);
        assert(s[3] == b@[off + 3]);
    }
    r
}

/// Reads a big-endian 64-bit field at `off`.
pub fn read_be64(b: &[u8], off: usize) -> (r: u64)
    requires
        off + 8 <= b@.len(),
    ensures
        r == be64(b@.subrange(off as int, off + 8)),
{
    // Pins the slice length to a usize, so the offsets below cannot
    // overflow.
    let len = b.len();
    let hi = read_be32(b, off);
    let lo = read_be32(b, off + 4);
    let r = (hi as u64) * 0x100000000 + (lo as u64);
    proof {
        let s = b@.subrange(off as int, off + 8);
        assert(s.take(4) =~= b@.subrange(off as int, off + 4));
        assert(s.skip(4) =~= b@.subrange(off + 4, off + 8));
    }
    r
}

/// Reads a big-endian 64-bit field at `off` as a signed value.
pub fn read_be64_signed(b: &[u8], off: usize) -> (r: i64)
    requires
        off + 8 <= b@.len(),
    ensures
        r as int == be64_signed(b@.subrange(off as int, off + 8)),
{
    let n = read_be64(b, off);
    if n >= 0x8000000000000000 {
        -1i64 - ((u64::MAX - n) as i64)
    } else {
        n as i64
    }
}

/// Appends the big-endian bytes of a 32-bit value.
pub fn push_be32(v: &mut Vec<u8>, x: u32)
    ensures
        final(v)@ == old(v)@ + be32_bytes(x),
{
    let ghost v0 = v@;
    v.push((x / 0x1000000) as u8);
    v.push(((x / 0x10000) % 0x100) as u8);
    v.push(((x / 0x100) % 0x100) as u8);
    v.push((x % 0x100) as u8);
    proof {
        assert(v@ =~= v0 + be32_bytes(x));
    }
}

/// Appends the big-endian bytes of a 16-bit value.
pub fn push_be16(v: &mut Vec<u8>, x: u16)
    ensures
        final(v)@ == old(v)@ + be16_bytes(x),
{
    let ghost v0 = v@;
    v.push((x / 0x100) as u8);
    v.push((x % 0x100) as u8);
    proof {
        assert(v@ =~= v0 + be16_bytes(x));
    }
}


/// Appends all bytes of a slice.
pub fn push_bytes(v: &mut Vec<u8>, b: &[u8])
    ensures
        final(v)@ == old(v)@ + b@,
{
    let mut i: usize = 0;
    while i < b.len()
        invariant
            i <= b@.len(),
            v@ == old(v)@ + b@.take(i as int),
        decreases b@.len() - i,
    {
        v.push(b[i]);
        proof {
            assert(old(v)@ + b@.take(i as int) + seq![b@[i as int]] =~= old(v)@ + b@.take(
                i + 1,
            ));
        }
        i = i + 1;
    }
    proof {
        assert(b@.take(b@.len() as int) =~= b@);
    }
}

} // verus!
