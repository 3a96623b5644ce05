//! Byte-level primitives of the wire format: base-128 varints and big-endian
//! 32-bit words, each with a specification function, an executable mirror and
//! a round-trip lemma.

use vstd::prelude::*;

verus! {

use vstd::arithmetic::div_mod::lemma_fundamental_div_mod;
use vstd::arithmetic::power2::{lemma2_to64, lemma_pow2_adds, lemma_pow2_strictly_increases, pow2};

/// The varint encoding of `x`: little-endian groups of seven bits, the high
/// bit of a byte set exactly on the non-final bytes.
pub open spec fn spec_varint(x: nat) -> Seq<u8>
    decreases x,
{
    if x < 128 {
        seq![x as u8]
    } else {
        seq![(x % 128 + 128) as u8] + spec_varint(x / 128)
    }
}

/// Reads one varint from the front of `s`: the value and the remainder.
/// A value that does not fit in 64 bits is refused.
pub open spec fn spec_take_varint(s: Seq<u8>) -> Option<(u64, Seq<u8>)>
    decreases s.len(),
{
    if s.len() == 0 {
        None
    } else if s[0] < 128 {
        Some((s[0] as u64, s.skip(1)))
    } else {
        match spec_take_varint(s.skip(1)) {
            Some(r) => {
                if (s[0] - 128) + 128 * (r.0 as nat) <= u64::MAX {
                    Some((((s[0] - 128) + 128 * (r.0 as nat)) as u64, r.1))
                } else {
                    None
                }
            },
            None => None,
        }
    }
}

pub proof fn lemma_take_varint(x: u64, rest: Seq<u8>)
    ensures
        spec_take_varint(spec_varint(x as nat) + rest) == Some((x, rest)),
    decreases x,
{
    if x < 128 {
        assert((spec_varint(x as nat) + rest).skip(1) =~= rest);
    } else {
        lemma_take_varint(x / 128, rest);
        let s = spec_varint(x as nat) + rest;
        assert(s.skip(1) =~= spec_varint((x / 128) as nat) + rest);
        lemma_fundamental_div_mod(x as int, 128);
    }
}

pub proof fn lemma_varint_len(x: nat)
    ensures
        1 <= spec_varint(x).len(),
{
}

proof fn lemma_varint_len_pow(x: nat, k: nat)
    requires
        x < vstd::arithmetic::power2::pow2(7 * k),
    ensures
        spec_varint(x).len() <= k + 1,
    decreases k,
{
    if x < 128 {
    } else {
        lemma2_to64();
        if k == 0 {
            assert(false);
        }
        let k1 = (k - 1) as nat;
        lemma_pow2_adds(7 * k1, 7);
        assert(pow2(7) == 128);
        assert(x < pow2(7 * k1) * 128);
        lemma_fundamental_div_mod(x as int, 128);
        assert(x / 128 < pow2(7 * k1)) by (nonlinear_arith)
            requires
                x < pow2(7 * k1) * 128,
                x == 128 * (x / 128) + x % 128,
                0 <= x % 128 < 128,
        {}
        lemma_varint_len_pow(x / 128, k1);
    }
}

/// A value that fits in 64 bits encodes in at most eleven bytes.
pub proof fn lemma_varint_len_le(x: nat)
    requires
        x <= u64::MAX,
    ensures
        spec_varint(x).len() <= 11,
{
    lemma2_to64();
    lemma_pow2_strictly_increases(64, 70);
    lemma_varint_len_pow(x, 10);
}

/// Appends the varint encoding of `x` to `out`.
pub fn write_varint(out: &mut Vec<u8>, x: u64)
    ensures
        final(out)@ == old(out)@ + spec_varint(x as nat),
{
    let mut v: u64 = x;
    while v >= 128
        invariant
            out@ + spec_varint(v as nat) == old(out)@ + spec_varint(x as nat),
        decreases v,
    {
        let ghost pre = out@;
        let b: u8 = ((v % 128) + 128) as u8;
        out.push(b);
        proof {
            assert(spec_varint(v as nat) == seq![b] + spec_varint((v / 128) as nat));
            assert(out@ + spec_varint((v / 128) as nat) =~= pre + spec_varint(v as nat));
        }
        v = v / 128;
    }
    let ghost pre = out@;
    out.push(v as u8);
    proof {
        assert(spec_varint(v as nat) =~= seq![v as u8]);
        assert(out@ =~= pre + spec_varint(v as nat));
        assert(out@ =~= old(out)@ + spec_varint(x as nat));
    }
}

/// Reads one varint at `pos`; `None` when the bytes run out or the value
/// does not fit in 64 bits. On success returns the value and the position
/// just past it.
pub fn read_varint(buf: &[u8], pos: usize) -> (r: Option<(u64, usize)>)
    requires
        pos <= buf@.len(),
    ensures
        match spec_take_varint(buf@.skip(pos as int)) {
            Option::None => r is None,
            Option::Some(vr) => {
                match r {
                    Option::Some(p) => {
                        &&& p.0 == vr.0
                        &&& pos < p.1 <= buf@.len()
                        &&& buf@.skip(p.1 as int) == vr.1
                    },
                    Option::None => false,
                }
            },
        },
    decreases buf@.len() - pos,
{
    if pos == buf.len() {
        return None;
    }
    let b = buf[pos];
    if b < 128 {
        proof {
            assert(buf@.skip(pos as int).skip(1) =~= buf@.skip(pos as int + 1));
        }
        Some((b as u64, pos + 1))
    } else {
        proof {
            assert(buf@.skip(pos as int).skip(1) =~= buf@.skip(pos as int + 1));
        }
        match read_varint(buf, pos + 1) {
            None => None,
            Some((v, p2)) => {
                let d: u64 = (b - 128) as u64;
                if v > (u64::MAX - d) / 128 {
                    proof {
                        assert(d + 128 * (v as nat) > u64::MAX) by (nonlinear_arith)
                            requires
                                v > (u64::MAX - d) / 128,
                                d < 128,
                                u64::MAX - d <= 128 * ((u64::MAX - d) / 128) + 127,
                        {}
                    }
                    None
                } else {
                    proof {
                        assert(d + 128 * (v as nat) <= u64::MAX) by (nonlinear_arith)
                            requires
                                d < 128,
                                v <= (u64::MAX - d) / 128,
                                128 * ((u64::MAX - d) / 128) <= u64::MAX - d,
                        {}
                    }
                    Some((d + 128 * v, p2))
                }
            },
        }
    }
}

/// The four big-endian bytes of `x`.
pub open spec fn spec_u32_be(x: u32) -> Seq<u8> {
    seq![
        ((x >> 24) & 0xff) as u8,
        ((x >> 16) & 0xff) as u8,
        ((x >> 8) & 0xff) as u8,
        (x & 0xff) as u8,
    ]
}

/// The u32 read big-endian from four bytes.
pub open spec fn spec_u32_from_be(s: Seq<u8>) -> u32
    recommends
        s.len() == 4,
{
    (((s[0] as u32) << 24) | ((s[1] as u32) << 16) | ((s[2] as u32) << 8) | (s[3] as u32)) as u32
}

pub proof fn lemma_u32_be_roundtrip(x: u32)
    ensures
        spec_u32_be(x).len() == 4,
        spec_u32_from_be(spec_u32_be(x)) == x,
{
    let b0 = ((x >> 24) & 0xff) as u8;
    let b1 = ((x >> 16) & 0xff) as u8;
    let b2 = ((x >> 8) & 0xff) as u8;
    let b3 = (x & 0xff) as u8;
    let s = spec_u32_be(x);
    assert(s[0] == b0 && s[1] == b1 && s[2] == b2 && s[3] == b3);
    assert((((b0 as u32) << 24) | ((b1 as u32) << 16) | ((b2 as u32) << 8) | (b3 as u32)) == x)
        by (bit_vector)
        requires
            b0 == ((x >> 24) & 0xff) as u8,
            b1 == ((x >> 16) & 0xff) as u8,
            b2 == ((x >> 8) & 0xff) as u8,
            b3 == (x & 0xff) as u8,
    {}
}

/// Appends the four big-endian bytes of `x` to `out`.
pub fn write_u32_be(out: &mut Vec<u8>, x: u32)
    ensures
        final(out)@ == old(out)@ + spec_u32_be(x),
{
    let ghost pre = out@;
    out.push(((x >> 24) & 0xff) as u8);
    out.push(((x >> 16) & 0xff) as u8);
    out.push(((x >> 8) & 0xff) as u8);
    out.push((x & 0xff) as u8);
    proof {
        assert(out@ =~= pre + spec_u32_be(x));
    }
}

/// Reads a big-endian u32 at `pos`.
pub fn read_u32_be(buf: &[u8], pos: usize) -> (r: u32)
    requires
        pos + 4 <= buf@.len(),
    ensures
        r == spec_u32_from_be(buf@.subrange(pos as int, pos as int + 4)),
{
    let b0 = buf[pos];
    let b1 = buf[pos + 1];
    let b2 = buf[pos + 2];
    let b3 = buf[pos + 3];
    proof {
        let s = buf@.subrange(pos as int, pos as int + 4);
        assert(s[0] == b0 && s[1] == b1 && s[2] == b2 && s[3] == b3);
        assert((((b0 as u32) << 24) | ((b1 as u32) << 16) | ((b2 as u32) << 8) | (b3 as u32))
            <= u32::MAX) by (bit_vector);
    }
    ((b0 as u32) << 24) | ((b1 as u32) << 16) | ((b2 as u32) << 8) | (b3 as u32)
}

/// True when the two byte slices hold the same bytes.
pub fn bytes_eq(a: &[u8], b: &[u8]) -> (r: bool)
    ensures
        r == (a@ == b@),
{
    if a.len() != b.len() {
        proof {
            assert(a@ != b@);
        }
        return false;
    }
    let mut i: usize = 0;
    while i < a.len()
        invariant
            i <= a@.len(),
            a@.len() == b@.len(),
            forall|j: int| 0 <= j < i ==> a@[j] == b@[j],
        decreases a@.len() - i,
    {
        if a[i] != b[i] {
            proof {
                assert(a@ != b@);
            }
            return false;
        }
        i = i + 1;
    }
    proof {
        assert(a@ =~= b@);
    }
    true
}

/// Appends all of `data` to `out`.
pub fn write_bytes(out: &mut Vec<u8>, data: &[u8])
    ensures
        final(out)@ == old(out)@ + data@,
{
    out.extend_from_slice(data);
}

} // verus!
