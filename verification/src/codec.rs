//! The persisted byte layout of a swap record.
//!
//! A record is stored as a fixed type tag, the one-byte initialization flag,
//! three 32-byte identities, and two little-endian 64-bit amounts.
//! Serialization and parsing are exact inverses.

use vstd::prelude::*;

use crate::delegate;
use crate::escrow;
use crate::identity::{
    id_bytes, lemma_id_round_trip, lemma_u64_of_le_round_trip, push_u64_le, read_identity,
    read_u64_le, spec_id_from_bytes, u64_le_bytes, u64_of_le_bytes,
};
use crate::request::push_bytes;

verus! {

/// The size of a record after the type tag: flag, three identities, two
/// amounts.
pub const SWAP_INFO_BYTES: usize = 1 + 32 + 32 + 32 + 8 + 8;

/// The type tag of a persisted delegation record.
pub const DELEGATE_RECORD_TAG: u8 = 208;

/// The type tag of a persisted escrow record.
pub const ESCROW_RECORD_TAG: u8 = 209;

/// The serialized form of a delegation record.
pub open spec fn spec_delegate_record_bytes(rec: delegate::SwapInfo) -> Seq<u8> {
    seq![DELEGATE_RECORD_TAG, (if rec.is_initialized { 1u8 } else { 0u8 })]
        + id_bytes(rec.poster) + id_bytes(rec.poster_sell_account)
        + id_bytes(rec.poster_buy_account) + u64_le_bytes(rec.poster_sell_amount)
        + u64_le_bytes(rec.poster_buy_amount)
}

/// The record a byte sequence parses to, if it is a well-formed delegation
/// record.
pub open spec fn spec_parse_delegate_record(b: Seq<u8>) -> Option<delegate::SwapInfo> {
    if b.len() == 114 && b[0] == DELEGATE_RECORD_TAG && (b[1] == 0 || b[1] == 1) {
        Some(delegate::SwapInfo {
            is_initialized: b[1] == 1,
            poster: spec_id_from_bytes(b.subrange(2, 34)),
            poster_sell_account: spec_id_from_bytes(b.subrange(34, 66)),
            poster_buy_account: spec_id_from_bytes(b.subrange(66, 98)),
            poster_sell_amount: u64_of_le_bytes(
                b[98], b[99], b[100], b[101], b[102], b[103], b[104], b[105],
            ),
            poster_buy_amount: u64_of_le_bytes(
                b[106], b[107], b[108], b[109], b[110], b[111], b[112], b[113],
            ),
        })
    } else {
        None
    }
}

/// Serialize a delegation record.
pub fn serialize_delegate_record(rec: &delegate::SwapInfo) -> (r: Vec<u8>)
    ensures
        r@ == spec_delegate_record_bytes(*rec),
        r@.len() == 1 + SWAP_INFO_BYTES,
{
    let mut out: Vec<u8> = Vec::new();
    out.push(DELEGATE_RECORD_TAG);
    out.push(if rec.is_initialized { 1u8 } else { 0u8 });
    let poster = rec.poster.to_bytes();
    push_bytes(&mut out, &poster);
    let sell = rec.poster_sell_account.to_bytes();
    push_bytes(&mut out, &sell);
    let buy = rec.poster_buy_account.to_bytes();
    push_bytes(&mut out, &buy);
    push_u64_le(&mut out, rec.poster_sell_amount);
    push_u64_le(&mut out, rec.poster_buy_amount);
    proof {
        assert(out@ =~= spec_delegate_record_bytes(*rec));
    }
    out
}

/// Parse a delegation record.
pub fn deserialize_delegate_record(v: &[u8]) -> (r: Option<delegate::SwapInfo>)
    ensures
        r == spec_parse_delegate_record(v@),
{
    if v.len() != 114 {
        return None;
    }
    if v[0] != DELEGATE_RECORD_TAG {
        return None;
    }
    let flag = v[1];
    if flag != 0 && flag != 1 {
        return None;
    }
    let poster = read_identity(v, 2);
    let poster_sell_account = read_identity(v, 34);
    let poster_buy_account = read_identity(v, 66);
    let poster_sell_amount = read_u64_le(v, 98);
    let poster_buy_amount = read_u64_le(v, 106);
    Some(delegate::SwapInfo {
        is_initialized: flag == 1,
        poster,
        poster_sell_account,
        poster_buy_account,
        poster_sell_amount,
        poster_buy_amount,
    })
}

/// Serializing a delegation record and parsing the bytes back yields the
/// same record.
pub proof fn lemma_delegate_record_round_trip(rec: delegate::SwapInfo)
    ensures
        spec_parse_delegate_record(spec_delegate_record_bytes(rec)) == Some(rec),
{
    let b = spec_delegate_record_bytes(rec);
    assert(b.len() == 114);
    assert(b.subrange(2, 34) =~= id_bytes(rec.poster));
    assert(b.subrange(34, 66) =~= id_bytes(rec.poster_sell_account));
    assert(b.subrange(66, 98) =~= id_bytes(rec.poster_buy_account));
    lemma_id_round_trip(rec.poster);
    lemma_id_round_trip(rec.poster_sell_account);
    lemma_id_round_trip(rec.poster_buy_account);
    assert(b.subrange(98, 106) =~= u64_le_bytes(rec.poster_sell_amount));
    assert(b.subrange(106, 114) =~= u64_le_bytes(rec.poster_buy_amount));
    lemma_u64_of_le_round_trip(rec.poster_sell_amount);
    lemma_u64_of_le_round_trip(rec.poster_buy_amount);
    assert(b[98] == u64_le_bytes(rec.poster_sell_amount)[0]);
    assert(spec_parse_delegate_record(b) == Some(rec));
}

/// The serialized form of an escrow record.
pub open spec fn spec_escrow_record_bytes(rec: escrow::SwapInfo) -> Seq<u8> {
    seq![ESCROW_RECORD_TAG, (if rec.is_initialized { 1u8 } else { 0u8 })]
        + id_bytes(rec.poster) + id_bytes(rec.escrow_account)
        + id_bytes(rec.poster_buy_account) + u64_le_bytes(rec.poster_sell_amount)
        + u64_le_bytes(rec.poster_buy_amount)
}

/// The record a byte sequence parses to, if it is a well-formed escrow
/// record.
pub open spec fn spec_parse_escrow_record(b: Seq<u8>) -> Option<escrow::SwapInfo> {
    if b.len() == 114 && b[0] == ESCROW_RECORD_TAG && (b[1] == 0 || b[1] == 1) {
        Some(escrow::SwapInfo {
            is_initialized: b[1] == 1,
            poster: spec_id_from_bytes(b.subrange(2, 34)),
            escrow_account: spec_id_from_bytes(b.subrange(34, 66)),
            poster_buy_account: spec_id_from_bytes(b.subrange(66, 98)),
            poster_sell_amount: u64_of_le_bytes(
                b[98], b[99], b[100], b[101], b[102], b[103], b[104], b[105],
            ),
            poster_buy_amount: u64_of_le_bytes(
                b[106], b[107], b[108], b[109], b[110], b[111], b[112], b[113],
            ),
        })
    } else {
        None
    }
}

/// Serialize an escrow record.
pub fn serialize_escrow_record(rec: &escrow::SwapInfo) -> (r: Vec<u8>)
    ensures
        r@ == spec_escrow_record_bytes(*rec),
        r@.len() == 1 + SWAP_INFO_BYTES,
{
    let mut out: Vec<u8> = Vec::new();
    out.push(ESCROW_RECORD_TAG);
    out.push(if rec.is_initialized { 1u8 } else { 0u8 });
    let poster = rec.poster.to_bytes();
    push_bytes(&mut out, &poster);
    let escrow_account = rec.escrow_account.to_bytes();
    push_bytes(&mut out, &escrow_account);
    let buy = rec.poster_buy_account.to_bytes();
    push_bytes(&mut out, &buy);
    push_u64_le(&mut out, rec.poster_sell_amount);
    push_u64_le(&mut out, rec.poster_buy_amount);
    proof {
        assert(out@ =~= spec_escrow_record_bytes(*rec));
    }
    out
}

/// Parse an escrow record.
pub fn deserialize_escrow_record(v: &[u8]) -> (r: Option<escrow::SwapInfo>)
    ensures
        r == spec_parse_escrow_record(v@),
{
    if v.len() != 114 {
        return None;
    }
    if v[0] != ESCROW_RECORD_TAG {
        return None;
    }
    let flag = v[1];
    if flag != 0 && flag != 1 {
        return None;
    }
    let poster = read_identity(v, 2);
    let escrow_account = read_identity(v, 34);
    let poster_buy_account = read_identity(v, 66);
    let poster_sell_amount = read_u64_le(v, 98);
    let poster_buy_amount = read_u64_le(v, 106);
    Some(escrow::SwapInfo {
        is_initialized: flag == 1,
        poster,
        escrow_account,
        poster_buy_account,
        poster_sell_amount,
        poster_buy_amount,
    })
}

/// Serializing an escrow record and parsing the bytes back yields the same
/// record.
pub proof fn lemma_escrow_record_round_trip(rec: escrow::SwapInfo)
    ensures
        spec_parse_escrow_record(spec_escrow_record_bytes(rec)) == Some(rec),
{
    let b = spec_escrow_record_bytes(rec);
    assert(b.len() == 114);
    assert(b.subrange(2, 34) =~= id_bytes(rec.poster));
    assert(b.subrange(34, 66) =~= id_bytes(rec.escrow_account));
    assert(b.subrange(66, 98) =~= id_bytes(rec.poster_buy_account));
    lemma_id_round_trip(rec.poster);
    lemma_id_round_trip(rec.escrow_account);
    lemma_id_round_trip(rec.poster_buy_account);
    assert(b.subrange(98, 106) =~= u64_le_bytes(rec.poster_sell_amount));
    assert(b.subrange(106, 114) =~= u64_le_bytes(rec.poster_buy_amount));
    lemma_u64_of_le_round_trip(rec.poster_sell_amount);
    lemma_u64_of_le_round_trip(rec.poster_buy_amount);
    assert(b[98] == u64_le_bytes(rec.poster_sell_amount)[0]);
    assert(spec_parse_escrow_record(b) == Some(rec));
}

} // verus!
