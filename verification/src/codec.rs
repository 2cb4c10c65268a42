//! The persisted layout of an escrow record.
//!
//! A record is stored as 105 bytes, in order: the authority identity
//! (32 bytes), the control seed (1 byte), the custody account identity
//! (32 bytes), the requested-asset identity (32 bytes), and the requested
//! amount (an 8-byte unsigned integer). All multi-byte integers are
//! little-endian. The layout is a bijection on 105-byte strings: decoding
//! returns exactly the record whose encoding is the input.

use vstd::prelude::*;
use crate::identity::Pubkey;
use crate::escrow::Escrow;

verus! {

/// The serialized length of one record: three 32-byte identities, the
/// one-byte control seed, and the 8-byte requested amount.
pub const ESCROW_RECORD_LEN: usize = 32 + 1 + 32 + 32 + 8;

/// The little-endian bytes of a 64-bit word.
pub open spec fn u64_le_bytes(x: u64) -> Seq<u8> {
    seq![
        (x & 0xff) as u8,
        ((x >> 8) & 0xff) as u8,
        ((x >> 16) & 0xff) as u8,
        ((x >> 24) & 0xff) as u8,
        ((x >> 32) & 0xff) as u8,
        ((x >> 40) & 0xff) as u8,
        ((x >> 48) & 0xff) as u8,
        ((x >> 56) & 0xff) as u8,
    ]
}

/// The 64-bit word whose little-endian bytes are `s` (which must be 8 long).
pub open spec fn u64_of_le(s: Seq<u8>) -> u64
    recommends
        s.len() == 8,
{
    (s[0] as u64) | ((s[1] as u64) << 8) | ((s[2] as u64) << 16) | ((s[3] as u64) << 24) | ((
    s[4] as u64) << 32) | ((s[5] as u64) << 40) | ((s[6] as u64) << 48) | ((s[7] as u64) << 56)
}

/// The 32 bytes of an identity: its four words, little-endian, in order.
pub open spec fn pubkey_bytes(k: Pubkey) -> Seq<u8> {
    u64_le_bytes(k.w0) + u64_le_bytes(k.w1) + u64_le_bytes(k.w2) + u64_le_bytes(k.w3)
}

/// The identity whose 32 bytes are `s`.
pub open spec fn pubkey_of(s: Seq<u8>) -> Pubkey
    recommends
        s.len() == 32,
{
    Pubkey {
        w0: u64_of_le(s.subrange(0, 8)),
        w1: u64_of_le(s.subrange(8, 16)),
        w2: u64_of_le(s.subrange(16, 24)),
        w3: u64_of_le(s.subrange(24, 32)),
    }
}

/// The 105 persisted bytes of a record.
pub open spec fn escrow_bytes(e: Escrow) -> Seq<u8> {
    pubkey_bytes(e.authority) + seq![e.bump] + pubkey_bytes(e.escrowed_x_tokens) + pubkey_bytes(
        e.y_mint,
    ) + u64_le_bytes(e.y_amount)
}

/// The record whose 105 persisted bytes are `s`.
pub open spec fn escrow_of(s: Seq<u8>) -> Escrow
    recommends
        s.len() == ESCROW_RECORD_LEN,
{
    Escrow {
        authority: pubkey_of(s.subrange(0, 32)),
        bump: s[32],
        escrowed_x_tokens: pubkey_of(s.subrange(33, 65)),
        y_mint: pubkey_of(s.subrange(65, 97)),
        y_amount: u64_of_le(s.subrange(97, 105)),
    }
}

/// Reading a word back from its own little-endian bytes yields the word.
pub proof fn lemma_u64_le_decode_encode(x: u64)
    ensures
        u64_of_le(u64_le_bytes(x)) == x,
{
    assert((((x & 0xff) as u8) as u64) | (((((x >> 8) & 0xff) as u8) as u64) << 8) | (((((x >> 16)
        & 0xff) as u8) as u64) << 16) | (((((x >> 24) & 0xff) as u8) as u64) << 24) | (((((x >> 32)
        & 0xff) as u8) as u64) << 32) | (((((x >> 40) & 0xff) as u8) as u64) << 40) | (((((x >> 48)
        & 0xff) as u8) as u64) << 48) | (((((x >> 56) & 0xff) as u8) as u64) << 56) == x)
        by (bit_vector);
}

/// Re-encoding the word read from 8 bytes yields the same 8 bytes.
pub proof fn lemma_u64_le_encode_decode(s: Seq<u8>)
    requires
        s.len() == 8,
    ensures
        u64_le_bytes(u64_of_le(s)) == s,
{
    let x = u64_of_le(s);
    let b0 = s[0];
    let b1 = s[1];
    let b2 = s[2];
    let b3 = s[3];
    let b4 = s[4];
    let b5 = s[5];
    let b6 = s[6];
    let b7 = s[7];
    assert((x & 0xff) as u8 == b0 && ((x >> 8) & 0xff) as u8 == b1 && ((x >> 16) & 0xff) as u8 == b2
        && ((x >> 24) & 0xff) as u8 == b3 && ((x >> 32) & 0xff) as u8 == b4 && ((x >> 40)
        & 0xff) as u8 == b5 && ((x >> 48) & 0xff) as u8 == b6 && ((x >> 56) & 0xff) as u8 == b7)
        by (bit_vector)
        requires
            x == (b0 as u64) | ((b1 as u64) << 8) | ((b2 as u64) << 16) | ((b3 as u64) << 24) | ((
            b4 as u64) << 32) | ((b5 as u64) << 40) | ((b6 as u64) << 48) | ((b7 as u64) << 56),
    ;
    assert(u64_le_bytes(x) =~= s);
}

/// Reading an identity back from its own 32 bytes yields the identity.
pub proof fn lemma_pubkey_decode_encode(k: Pubkey)
    ensures
        pubkey_of(pubkey_bytes(k)) == k,
{
    let s = pubkey_bytes(k);
    assert(s.subrange(0, 8) =~= u64_le_bytes(k.w0));
    assert(s.subrange(8, 16) =~= u64_le_bytes(k.w1));
    assert(s.subrange(16, 24) =~= u64_le_bytes(k.w2));
    assert(s.subrange(24, 32) =~= u64_le_bytes(k.w3));
    lemma_u64_le_decode_encode(k.w0);
    lemma_u64_le_decode_encode(k.w1);
    lemma_u64_le_decode_encode(k.w2);
    lemma_u64_le_decode_encode(k.w3);
}

/// Re-encoding the identity read from 32 bytes yields the same 32 bytes.
pub proof fn lemma_pubkey_encode_decode(s: Seq<u8>)
    requires
        s.len() == 32,
    ensures
        pubkey_bytes(pubkey_of(s)) == s,
{
    lemma_u64_le_encode_decode(s.subrange(0, 8));
    lemma_u64_le_encode_decode(s.subrange(8, 16));
    lemma_u64_le_encode_decode(s.subrange(16, 24));
    lemma_u64_le_encode_decode(s.subrange(24, 32));
    assert(pubkey_bytes(pubkey_of(s)) =~= s);
}

/// Round trip: decoding a record's own persisted bytes yields the record.
pub proof fn lemma_escrow_decode_encode(e: Escrow)
    ensures
        escrow_of(escrow_bytes(e)) == e,
{
    let s = escrow_bytes(e);
    assert(s.subrange(0, 32) =~= pubkey_bytes(e.authority));
    assert(s.subrange(33, 65) =~= pubkey_bytes(e.escrowed_x_tokens));
    assert(s.subrange(65, 97) =~= pubkey_bytes(e.y_mint));
    assert(s.subrange(97, 105) =~= u64_le_bytes(e.y_amount));
    lemma_pubkey_decode_encode(e.authority);
    lemma_pubkey_decode_encode(e.escrowed_x_tokens);
    lemma_pubkey_decode_encode(e.y_mint);
    lemma_u64_le_decode_encode(e.y_amount);
    assert(s[32] == e.bump);
}

/// The layout is total on 105-byte strings: re-encoding the record read from
/// any 105 bytes yields the same bytes.
pub proof fn lemma_escrow_encode_decode(s: Seq<u8>)
    requires
        s.len() == ESCROW_RECORD_LEN,
    ensures
        escrow_bytes(escrow_of(s)) == s,
{
    lemma_pubkey_encode_decode(s.subrange(0, 32));
    lemma_pubkey_encode_decode(s.subrange(33, 65));
    lemma_pubkey_encode_decode(s.subrange(65, 97));
    lemma_u64_le_encode_decode(s.subrange(97, 105));
    assert(escrow_bytes(escrow_of(s)) =~= s);
}

/// No two distinct records share persisted bytes.
pub proof fn lemma_escrow_bytes_injective(a: Escrow, b: Escrow)
    requires
        escrow_bytes(a) == escrow_bytes(b),
    ensures
        a == b,
{
    lemma_escrow_decode_encode(a);
    lemma_escrow_decode_encode(b);
}

/// Appends the little-endian bytes of `x`.
fn write_u64_le(out: &mut Vec<u8>, x: u64)
    ensures
        final(out)@ == old(out)@ + u64_le_bytes(x),
{
    proof {
        assert(x & 0xff < 256 && (x >> 8) & 0xff < 256 && (x >> 16) & 0xff < 256 && (x >> 24) & 0xff
            < 256 && (x >> 32) & 0xff < 256 && (x >> 40) & 0xff < 256 && (x >> 48) & 0xff < 256 && (
        x >> 56) & 0xff < 256) by (bit_vector);
    }
    out.push((x & 0xff) as u8);
    out.push(((x >> 8) & 0xff) as u8);
    out.push(((x >> 16) & 0xff) as u8);
    out.push(((x >> 24) & 0xff) as u8);
    out.push(((x >> 32) & 0xff) as u8);
    out.push(((x >> 40) & 0xff) as u8);
    out.push(((x >> 48) & 0xff) as u8);
    out.push(((x >> 56) & 0xff) as u8);
    proof {
        assert(out@ =~= old(out)@ + u64_le_bytes(x));
    }
}

/// Appends the 32 bytes of an identity.
fn write_pubkey(out: &mut Vec<u8>, k: &Pubkey)
    ensures
        final(out)@ == old(out)@ + pubkey_bytes(*k),
{
    write_u64_le(out, k.w0);
    write_u64_le(out, k.w1);
    write_u64_le(out, k.w2);
    write_u64_le(out, k.w3);
    proof {
        assert(out@ =~= old(out)@ + pubkey_bytes(*k));
    }
}

/// Reads the little-endian word at `offset`.
fn read_u64_le(bytes: &Vec<u8>, offset: usize) -> (x: u64)
    requires
        offset + 8 <= bytes@.len(),
    ensures
        x == u64_of_le(bytes@.subrange(offset as int, offset as int + 8)),
{
    let n = bytes.len();
    proof {
        assert(offset + 8 <= n);
    }
    let x = (bytes[offset] as u64) | ((bytes[offset + 1] as u64) << 8) | ((bytes[offset
        + 2] as u64) << 16) | ((bytes[offset + 3] as u64) << 24) | ((bytes[offset + 4] as u64)
        << 32) | ((bytes[offset + 5] as u64) << 40) | ((bytes[offset + 6] as u64) << 48) | ((
    bytes[offset + 7] as u64) << 56);
    proof {
        let s = bytes@.subrange(offset as int, offset as int + 8);
        assert(s[0] == bytes@[offset as int]);
        assert(x == u64_of_le(s));
    }
    x
}

/// Reads the identity stored at `offset`.
fn read_pubkey(bytes: &Vec<u8>, offset: usize) -> (k: Pubkey)
    requires
        offset + 32 <= bytes@.len(),
    ensures
        k == pubkey_of(bytes@.subrange(offset as int, offset as int + 32)),
{
    let n = bytes.len();
    proof {
        assert(offset + 32 <= n);
    }
    let w0 = read_u64_le(bytes, offset);
    let w1 = read_u64_le(bytes, offset + 8);
    let w2 = read_u64_le(bytes, offset + 16);
    let w3 = read_u64_le(bytes, offset + 24);
    let k = Pubkey { w0, w1, w2, w3 };
    proof {
        let s = bytes@.subrange(offset as int, offset as int + 32);
        assert(s.subrange(0, 8) =~= bytes@.subrange(offset as int, offset as int + 8));
        assert(s.subrange(8, 16) =~= bytes@.subrange(offset as int + 8, offset as int + 16));
        assert(s.subrange(16, 24) =~= bytes@.subrange(offset as int + 16, offset as int + 24));
        assert(s.subrange(24, 32) =~= bytes@.subrange(offset as int + 24, offset as int + 32));
    }
    k
}

/// Serializes a record into its 105 persisted bytes.
pub fn serialize_escrow(e: &Escrow) -> (out: Vec<u8>)
    ensures
        out@ == escrow_bytes(*e),
        out@.len() == ESCROW_RECORD_LEN,
{
    let mut out: Vec<u8> = Vec::new();
    write_pubkey(&mut out, &e.authority);
    out.push(e.bump);
    write_pubkey(&mut out, &e.escrowed_x_tokens);
    write_pubkey(&mut out, &e.y_mint);
    write_u64_le(&mut out, e.y_amount);
    proof {
        assert(out@ =~= escrow_bytes(*e));
    }
    out
}

/// Deserializes a record from its persisted bytes.
///
/// Returns a record exactly when the input is 105 bytes long, and then the
/// record whose encoding is the input: re-serializing it yields the input
/// bytes unchanged.
pub fn deserialize_escrow(bytes: &Vec<u8>) -> (r: Option<Escrow>)
    ensures
        r is Some <==> bytes@.len() == ESCROW_RECORD_LEN,
        r matches Some(e) ==> e == escrow_of(bytes@) && escrow_bytes(e) == bytes@,
{
    if bytes.len() != ESCROW_RECORD_LEN {
        return None;
    }
    let authority = read_pubkey(bytes, 0);
    let bump = bytes[32];
    let escrowed_x_tokens = read_pubkey(bytes, 33);
    let y_mint = read_pubkey(bytes, 65);
    let y_amount = read_u64_le(bytes, 97);
    let e = Escrow { authority, bump, escrowed_x_tokens, y_mint, y_amount };
    proof {
        assert(bytes@.subrange(0, 105) =~= bytes@);
        assert(e == escrow_of(bytes@));
        lemma_escrow_encode_decode(bytes@);
    }
    Some(e)
}

} // verus!
