//! Canonical serial encoding used by the block signing encoding.
//!
//! Integers are encoded little endian; byte strings carry a compact-size
//! length prefix followed by the raw bytes.  Each executable encoder appends
//! to an output vector and is proved to append exactly the bytes its
//! specification function describes.

use vstd::prelude::*;

verus! {

/// Little-endian encoding of a 16-bit integer.
pub open spec fn u16_le(n: u16) -> Seq<u8> {
    seq![(n % 256) as u8, ((n / 256) % 256) as u8]
}

/// Little-endian encoding of a 32-bit integer.
pub open spec fn u32_le(n: u32) -> Seq<u8> {
    seq![
        (n % 256) as u8,
        ((n / 0x100) % 256) as u8,
        ((n / 0x10000) % 256) as u8,
        ((n / 0x1000000) % 256) as u8,
    ]
}

/// Little-endian encoding of a 64-bit integer.
pub open spec fn u64_le(n: u64) -> Seq<u8> {
    seq![
        (n % 256) as u8,
        ((n / 0x100) % 256) as u8,
        ((n / 0x10000) % 256) as u8,
        ((n / 0x1000000) % 256) as u8,
        ((n / 0x100000000) % 256) as u8,
        ((n / 0x10000000000) % 256) as u8,
        ((n / 0x1000000000000) % 256) as u8,
        ((n / 0x100000000000000) % 256) as u8,
    ]
}

/// Compact-size encoding of a length: one byte for small values, otherwise a
/// marker byte followed by the little-endian integer of the smallest width
/// that holds the value.
pub open spec fn compact_size(n: u64) -> Seq<u8> {
    if n < 0xFD {
        seq![n as u8]
    } else if n <= 0xFFFF {
        seq![0xFDu8] + u16_le(n as u16)
    } else if n <= 0xFFFFFFFF {
        seq![0xFEu8] + u32_le(n as u32)
    } else {
        seq![0xFFu8] + u64_le(n)
    }
}

/// Encoding of a byte string: its length as a compact size, then its bytes.
pub open spec fn bytes_enc(b: Seq<u8>) -> Seq<u8> {
    compact_size(b.len() as u64) + b
}

/// Appends the little-endian encoding of `n` to `out`.
pub fn encode_u64(out: &mut Vec<u8>, n: u64)
    ensures
        final(out)@ == old(out)@ + u64_le(n),
{
    out.push((n % 256) as u8);
    out.push(((n / 0x100) % 256) as u8);
    out.push(((n / 0x10000) % 256) as u8);
    out.push(((n / 0x1000000) % 256) as u8);
    out.push(((n / 0x100000000) % 256) as u8);
    out.push(((n / 0x10000000000) % 256) as u8);
    out.push(((n / 0x1000000000000) % 256) as u8);
    out.push(((n / 0x100000000000000) % 256) as u8);
    proof {
        assert(out@ =~= old(out)@ + u64_le(n));
    }
}

/// Appends the compact-size encoding of `n` to `out`.
pub fn encode_compact_size(out: &mut Vec<u8>, n: u64)
    ensures
        final(out)@ == old(out)@ + compact_size(n),
{
    if n < 0xFD {
        out.push(n as u8);
        proof {
            assert(out@ =~= old(out)@ + compact_size(n));
        }
    } else if n <= 0xFFFF {
        out.push(0xFD);
        out.push((n % 256) as u8);
        out.push(((n / 256) % 256) as u8);
        proof {
            assert((n as u16) % 256 == n % 256);
            assert(((n as u16) / 256) % 256 == (n / 256) % 256);
            assert(out@ =~= old(out)@ + compact_size(n));
        }
    } else if n <= 0xFFFFFFFF {
        out.push(0xFE);
        out.push((n % 256) as u8);
        out.push(((n / 0x100) % 256) as u8);
        out.push(((n / 0x10000) % 256) as u8);
        out.push(((n / 0x1000000) % 256) as u8);
        proof {
            assert((n as u32) % 256 == n % 256);
            assert(((n as u32) / 0x100) % 256 == (n / 0x100) % 256);
            assert(((n as u32) / 0x10000) % 256 == (n / 0x10000) % 256);
            assert(((n as u32) / 0x1000000) % 256 == (n / 0x1000000) % 256);
            assert(out@ =~= old(out)@ + compact_size(n));
        }
    } else {
        out.push(0xFF);
        encode_u64(out, n);
        proof {
            assert(out@ =~= old(out)@ + compact_size(n));
        }
    }
}

/// Appends the length-prefixed encoding of the byte string `b` to `out`.
pub fn encode_bytes(out: &mut Vec<u8>, b: &[u8])
    ensures
        final(out)@ == old(out)@ + bytes_enc(b@),
{
    encode_compact_size(out, b.len() as u64);
    let mut i: usize = 0;
    while i < b.len()
        invariant
            i <= b@.len(),
            out@ == old(out)@ + compact_size(b@.len() as u64) + b@.take(i as int),
        decreases b@.len() - i,
    {
        out.push(b[i]);
        proof {
            assert(b@.take(i as int).push(b@[i as int]) =~= b@.take(i + 1 as int));
            assert((old(out)@ + compact_size(b@.len() as u64) + b@.take(i as int)).push(b@[i as int])
                =~= old(out)@ + compact_size(b@.len() as u64) + b@.take(i + 1 as int));
        }
        i = i + 1;
    }
    proof {
        assert(b@.take(b@.len() as int) =~= b@);
        assert(out@ =~= old(out)@ + bytes_enc(b@));
    }
}

} // verus!
