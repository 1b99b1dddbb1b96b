//! Hashing through the host environment, and the XDR byte layouts of the
//! contract values that get hashed.
use vstd::prelude::*;
use crate::address::{Address, AddressKind};
use soroban_sdk::Env;

verus! {

/// The host environment of a contract call.
#[verifier::external_type_specification]
#[verifier::external_body]
pub struct ExEnv(Env);

/// The SHA-256 digest of a byte string.
pub uninterp spec fn sha256_digest(data: Seq<u8>) -> Seq<u8>;

/// SHA-256 of `data`, computed by the host through soroban-sdk's
/// `Crypto::sha256`. Trusted: the digest is the named `sha256_digest` of the
/// bytes and nothing else (the environment does not affect it).
#[verifier::external_body]
pub(crate) fn sha256(env: &Env, data: &Vec<u8>) -> (h: [u8; 32])
    ensures
        h@ == sha256_digest(data@),
{
    env.crypto().sha256(&soroban_sdk::Bytes::from_slice(env, data.as_slice())).to_array()
}

/// Big-endian bytes of a 32-bit value.
pub open spec fn be_u32(x: u32) -> Seq<u8> {
    seq![
        (x / 0x1000000) as u8,
        ((x / 0x10000) % 0x100) as u8,
        ((x / 0x100) % 0x100) as u8,
        (x % 0x100) as u8,
    ]
}

/// Big-endian bytes of a 64-bit value.
pub open spec fn be_u64(x: u64) -> Seq<u8> {
    be_u32((x / 0x1_0000_0000) as u32) + be_u32((x % 0x1_0000_0000) as u32)
}

/// Appends the big-endian bytes of `x`.
pub(crate) fn push_be_u32(out: &mut Vec<u8>, x: u32)
    ensures
        final(out)@ == old(out)@ + be_u32(x),
{
    out.push((x / 0x1000000) as u8);
    out.push(((x / 0x10000) % 0x100) as u8);
    out.push(((x / 0x100) % 0x100) as u8);
    out.push((x % 0x100) as u8);
    assert(final(out)@ =~= old(out)@ + be_u32(x));
}

/// Appends the big-endian bytes of `x`.
pub(crate) fn push_be_u64(out: &mut Vec<u8>, x: u64)
    ensures
        final(out)@ == old(out)@ + be_u64(x),
{
    push_be_u32(out, (x / 0x1_0000_0000) as u32);
    push_be_u32(out, (x % 0x1_0000_0000) as u32);
    assert(final(out)@ =~= old(out)@ + be_u64(x));
}

/// Appends `bytes`.
fn push_all(out: &mut Vec<u8>, bytes: &Vec<u8>)
    ensures
        final(out)@ == old(out)@ + bytes@,
{
    let ghost start = out@;
    let mut i: usize = 0;
    while i < bytes.len()
        invariant
            i <= bytes@.len(),
            out@ == start + bytes@.take(i as int),
        decreases bytes@.len() - i,
    {
        out.push(bytes[i]);
        i = i + 1;
        assert(out@ =~= start + bytes@.take(i as int));
    }
    assert(bytes@.take(bytes@.len() as int) =~= bytes@);
}

// XDR discriminants of contract values (`ScVal`) and addresses.
pub const SCV_U32: u32 = 3;
pub const SCV_U64: u32 = 5;
pub const SCV_STRING: u32 = 14;
pub const SCV_VEC: u32 = 16;
pub const SCV_ADDRESS: u32 = 18;

/// XDR of an address as a contract value: the address tag, then an account
/// (address type 0, key type 0) or a contract (address type 1), then the key.
pub open spec fn address_xdr(a: Address) -> Seq<u8> {
    be_u32(SCV_ADDRESS) + match a.kind {
        AddressKind::Account => be_u32(0) + be_u32(0),
        AddressKind::Contract => be_u32(1),
    } + be_u64(a.w0) + be_u64(a.w1) + be_u64(a.w2) + be_u64(a.w3)
}

/// Header of a present vector of `n` contract values.
pub open spec fn vec_header_xdr(n: u32) -> Seq<u8> {
    be_u32(SCV_VEC) + be_u32(1) + be_u32(n)
}

/// Zero bytes that pad `len` bytes to a multiple of four.
pub open spec fn xdr_padding(len: nat) -> Seq<u8> {
    Seq::new(((4 - len % 4) % 4) as nat, |i: int| 0u8)
}

/// XDR of the contract value `(timestamp, sequence, contract)`: a vector of
/// a `u64`, a `u32` and an address.
pub open spec fn ledger_tuple_xdr(timestamp: u64, sequence: u32, contract: Address) -> Seq<u8> {
    vec_header_xdr(3) + be_u32(SCV_U64) + be_u64(timestamp) + be_u32(SCV_U32) + be_u32(sequence)
        + address_xdr(contract)
}

/// XDR of the contract value `(creator, description)`: a vector of an
/// address and a string (length, bytes, zero padding).
pub open spec fn creator_description_xdr(creator: Address, description: Seq<u8>) -> Seq<u8> {
    vec_header_xdr(2) + address_xdr(creator) + be_u32(SCV_STRING) + be_u32(description.len() as u32)
        + description + xdr_padding(description.len())
}

fn push_address(out: &mut Vec<u8>, a: &Address)
    ensures
        final(out)@ == old(out)@ + address_xdr(*a),
{
    let ghost start = out@;
    push_be_u32(out, SCV_ADDRESS);
    match a.kind {
        AddressKind::Account => {
            push_be_u32(out, 0);
            push_be_u32(out, 0);
        },
        AddressKind::Contract => {
            push_be_u32(out, 1);
        },
    }
    push_be_u64(out, a.w0);
    push_be_u64(out, a.w1);
    push_be_u64(out, a.w2);
    push_be_u64(out, a.w3);
    assert(out@ =~= start + address_xdr(*a));
}

fn push_vec_header(out: &mut Vec<u8>, n: u32)
    ensures
        final(out)@ == old(out)@ + vec_header_xdr(n),
{
    let ghost start = out@;
    push_be_u32(out, SCV_VEC);
    push_be_u32(out, 1);
    push_be_u32(out, n);
    assert(out@ =~= start + vec_header_xdr(n));
}

/// The bytes of [`ledger_tuple_xdr`].
pub fn encode_ledger_tuple(timestamp: u64, sequence: u32, contract: &Address) -> (b: Vec<u8>)
    ensures
        b@ == ledger_tuple_xdr(timestamp, sequence, *contract),
{
    let mut out: Vec<u8> = Vec::new();
    push_vec_header(&mut out, 3);
    push_be_u32(&mut out, SCV_U64);
    push_be_u64(&mut out, timestamp);
    push_be_u32(&mut out, SCV_U32);
    push_be_u32(&mut out, sequence);
    push_address(&mut out, contract);
    assert(out@ =~= ledger_tuple_xdr(timestamp, sequence, *contract));
    out
}

/// The bytes of [`creator_description_xdr`].
pub fn encode_creator_description(creator: &Address, description: &Vec<u8>) -> (b: Vec<u8>)
    requires
        description@.len() <= u32::MAX,
    ensures
        b@ == creator_description_xdr(*creator, description@),
{
    let mut out: Vec<u8> = Vec::new();
    push_vec_header(&mut out, 2);
    push_address(&mut out, creator);
    push_be_u32(&mut out, SCV_STRING);
    let len = description.len() as u32;
    push_be_u32(&mut out, len);
    push_all(&mut out, description);
    let ghost before_pad = out@;
    let pad: u32 = (4 - len % 4) % 4;
    let mut k: u32 = 0;
    while k < pad
        invariant
            k <= pad,
            pad == (4 - len % 4) % 4,
            out@ == before_pad + Seq::new(k as nat, |i: int| 0u8),
        decreases pad - k,
    {
        out.push(0u8);
        k = k + 1;
        assert(out@ =~= before_pad + Seq::new(k as nat, |i: int| 0u8));
    }
    assert(xdr_padding(description@.len()) =~= Seq::new(pad as nat, |i: int| 0u8));
    assert(out@ =~= creator_description_xdr(*creator, description@));
    out
}

} // verus!
