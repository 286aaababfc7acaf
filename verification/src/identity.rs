//! 32-byte account addresses, stored as four 64-bit words.

use vstd::prelude::*;

verus! {

/// A 32-byte address (a public key or a program-derived address), stored as
/// four little-endian 64-bit words: `w0` holds bytes 0..8 of the address,
/// `w1` bytes 8..16, and so on.
#[derive(Clone, Copy, PartialEq, Eq, Structural, Debug)]
pub struct Identity {
    pub w0: u64,
    pub w1: u64,
    pub w2: u64,
    pub w3: u64,
}

/// The eight little-endian bytes of a 64-bit word.
pub open spec fn u64_le_bytes(x: u64) -> Seq<u8> {
    seq![
        (x & 0xff) as u8,
        ((x >> 8) & 0xff) as u8,
        ((x >> 16) & 0xff) as u8,
        ((x >> 24) & 0xff) as u8,
        ((x >> 32) & 0xff) as u8,
        ((x >> 40) & 0xff) as u8,
        ((x >> 48) & 0xff) as u8,
        ((x >> 56) & 0xff) as u8,
    ]
}

/// The 32-byte serialized form of an identity.
pub open spec fn id_bytes(id: Identity) -> Seq<u8> {
    u64_le_bytes(id.w0) + u64_le_bytes(id.w1) + u64_le_bytes(id.w2) + u64_le_bytes(id.w3)
}

/// The word read back from eight little-endian bytes.
pub open spec fn u64_of_le_bytes(b0: u8, b1: u8, b2: u8, b3: u8, b4: u8, b5: u8, b6: u8, b7: u8) -> u64 {
    (b0 as u64)
        | ((b1 as u64) << 8)
        | ((b2 as u64) << 16)
        | ((b3 as u64) << 24)
        | ((b4 as u64) << 32)
        | ((b5 as u64) << 40)
        | ((b6 as u64) << 48)
        | ((b7 as u64) << 56)
}

/// The identity read back from a 32-byte sequence.
pub open spec fn spec_id_from_bytes(b: Seq<u8>) -> Identity {
    Identity {
        w0: u64_of_le_bytes(b[0], b[1], b[2], b[3], b[4], b[5], b[6], b[7]),
        w1: u64_of_le_bytes(b[8], b[9], b[10], b[11], b[12], b[13], b[14], b[15]),
        w2: u64_of_le_bytes(b[16], b[17], b[18], b[19], b[20], b[21], b[22], b[23]),
        w3: u64_of_le_bytes(b[24], b[25], b[26], b[27], b[28], b[29], b[30], b[31]),
    }
}

/// Reading a word from eight bytes and serializing it again yields the same
/// eight bytes.
proof fn lemma_u64_le_round_trip(b0: u8, b1: u8, b2: u8, b3: u8, b4: u8, b5: u8, b6: u8, b7: u8)
    ensures
        u64_le_bytes(u64_of_le_bytes(b0, b1, b2, b3, b4, b5, b6, b7))
            =~= seq![b0, b1, b2, b3, b4, b5, b6, b7],
{
    let w = u64_of_le_bytes(b0, b1, b2, b3, b4, b5, b6, b7);
    assert({
        let x = (b0 as u64)
            | ((b1 as u64) << 8)
            | ((b2 as u64) << 16)
            | ((b3 as u64) << 24)
            | ((b4 as u64) << 32)
            | ((b5 as u64) << 40)
            | ((b6 as u64) << 48)
            | ((b7 as u64) << 56);
        (x & 0xff) as u8 == b0
            && ((x >> 8) & 0xff) as u8 == b1
            && ((x >> 16) & 0xff) as u8 == b2
            && ((x >> 24) & 0xff) as u8 == b3
            && ((x >> 32) & 0xff) as u8 == b4
            && ((x >> 40) & 0xff) as u8 == b5
            && ((x >> 48) & 0xff) as u8 == b6
            && ((x >> 56) & 0xff) as u8 == b7
    }) by (bit_vector);
}

/// Serializing a word and reading it back yields the same word.
pub proof fn lemma_u64_of_le_round_trip(x: u64)
    ensures
        u64_of_le_bytes(
            u64_le_bytes(x)[0], u64_le_bytes(x)[1], u64_le_bytes(x)[2], u64_le_bytes(x)[3],
            u64_le_bytes(x)[4], u64_le_bytes(x)[5], u64_le_bytes(x)[6], u64_le_bytes(x)[7],
        ) == x,
{
    assert(((x & 0xff) as u8 as u64)
        | ((((x >> 8) & 0xff) as u8 as u64) << 8)
        | ((((x >> 16) & 0xff) as u8 as u64) << 16)
        | ((((x >> 24) & 0xff) as u8 as u64) << 24)
        | ((((x >> 32) & 0xff) as u8 as u64) << 32)
        | ((((x >> 40) & 0xff) as u8 as u64) << 40)
        | ((((x >> 48) & 0xff) as u8 as u64) << 48)
        | ((((x >> 56) & 0xff) as u8 as u64) << 56) == x) by (bit_vector);
}

/// Serializing an identity and reading it back yields the same identity.
pub proof fn lemma_id_round_trip(id: Identity)
    ensures
        spec_id_from_bytes(id_bytes(id)) == id,
{
    lemma_u64_of_le_round_trip(id.w0);
    lemma_u64_of_le_round_trip(id.w1);
    lemma_u64_of_le_round_trip(id.w2);
    lemma_u64_of_le_round_trip(id.w3);
}

impl Identity {
    /// Serialize to the 32-byte little-endian form.
    pub fn to_bytes(&self) -> (r: Vec<u8>)
        ensures
            r@ == id_bytes(*self),
            r@.len() == 32,
    {
        let mut out: Vec<u8> = Vec::new();
        push_u64_le(&mut out, self.w0);
        push_u64_le(&mut out, self.w1);
        push_u64_le(&mut out, self.w2);
        push_u64_le(&mut out, self.w3);
        assert(out@ =~= id_bytes(*self));
        out
    }

    /// Read an identity back from its 32-byte form; `None` unless the input
    /// holds exactly 32 bytes.
    pub fn from_bytes(v: &[u8]) -> (r: Option<Identity>)
        ensures
            v@.len() == 32 ==> r == Some(spec_id_from_bytes(v@)) && id_bytes(spec_id_from_bytes(v@)) == v@,
            v@.len() != 32 ==> r is None,
    {
        if v.len() != 32 {
            return None;
        }
        let w0 = read_u64_le(v, 0);
        let w1 = read_u64_le(v, 8);
        let w2 = read_u64_le(v, 16);
        let w3 = read_u64_le(v, 24);
        let id = Identity { w0, w1, w2, w3 };
        proof {
            assert(id == spec_id_from_bytes(v@));
            lemma_u64_le_round_trip(v@[0], v@[1], v@[2], v@[3], v@[4], v@[5], v@[6], v@[7]);
            lemma_u64_le_round_trip(v@[8], v@[9], v@[10], v@[11], v@[12], v@[13], v@[14], v@[15]);
            lemma_u64_le_round_trip(v@[16], v@[17], v@[18], v@[19], v@[20], v@[21], v@[22], v@[23]);
            lemma_u64_le_round_trip(v@[24], v@[25], v@[26], v@[27], v@[28], v@[29], v@[30], v@[31]);
            assert(id_bytes(id) =~= v@);
        }
        Some(id)
    }
}

/// Append the eight little-endian bytes of `x`.
pub fn push_u64_le(out: &mut Vec<u8>, x: u64)
    ensures
        final(out)@ == old(out)@ + u64_le_bytes(x),
{
    out.push((x & 0xff) as u8);
    out.push(((x >> 8) & 0xff) as u8);
    out.push(((x >> 16) & 0xff) as u8);
    out.push(((x >> 24) & 0xff) as u8);
    out.push(((x >> 32) & 0xff) as u8);
    out.push(((x >> 40) & 0xff) as u8);
    out.push(((x >> 48) & 0xff) as u8);
    out.push(((x >> 56) & 0xff) as u8);
    assert(out@ =~= old(out)@ + u64_le_bytes(x));
}

/// Read an identity from 32 bytes starting at `off`.
pub fn read_identity(v: &[u8], off: usize) -> (r: Identity)
    requires
        off + 32 <= v@.len(),
    ensures
        r == spec_id_from_bytes(v@.subrange(off as int, off + 32)),
        id_bytes(r) == v@.subrange(off as int, off + 32),
{
    let n = v.len();
    assert(off + 32 <= n);
    let w0 = read_u64_le(v, off);
    let w1 = read_u64_le(v, off + 8);
    let w2 = read_u64_le(v, off + 16);
    let w3 = read_u64_le(v, off + 24);
    let id = Identity { w0, w1, w2, w3 };
    proof {
        let b = v@.subrange(off as int, off + 32);
        assert(id == spec_id_from_bytes(b));
        lemma_u64_le_round_trip(b[0], b[1], b[2], b[3], b[4], b[5], b[6], b[7]);
        lemma_u64_le_round_trip(b[8], b[9], b[10], b[11], b[12], b[13], b[14], b[15]);
        lemma_u64_le_round_trip(b[16], b[17], b[18], b[19], b[20], b[21], b[22], b[23]);
        lemma_u64_le_round_trip(b[24], b[25], b[26], b[27], b[28], b[29], b[30], b[31]);
        assert(id_bytes(id) =~= b);
    }
    id
}

/// Read a word from eight little-endian bytes starting at `off`.
pub fn read_u64_le(v: &[u8], off: usize) -> (r: u64)
    requires
        off + 8 <= v@.len(),
    ensures
        r == u64_of_le_bytes(
            v@[off as int], v@[off + 1], v@[off + 2], v@[off + 3],
            v@[off + 4], v@[off + 5], v@[off + 6], v@[off + 7],
        ),
{
    let b0 = v[off];
    let b1 = v[off + 1];
    let b2 = v[off + 2];
    let b3 = v[off + 3];
    let b4 = v[off + 4];
    let b5 = v[off + 5];
    let b6 = v[off + 6];
    let b7 = v[off + 7];
    let r: u64 = (b0 as u64)
        | ((b1 as u64) << 8)
        | ((b2 as u64) << 16)
        | ((b3 as u64) << 24)
        | ((b4 as u64) << 32)
        | ((b5 as u64) << 40)
        | ((b6 as u64) << 48)
        | ((b7 as u64) << 56);
    r
}

} // verus!
