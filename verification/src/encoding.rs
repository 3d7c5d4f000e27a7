//! The fixed binary layout of the vault record: field order as declared on
//! [`Vault`], each field in its natural fixed width (the record kind as one
//! discriminant byte, keys as 32 raw bytes, integers little-endian, the
//! reserved block as raw bytes), with no length prefixes.  Every encoded
//! record is exactly [`RECORD_LEN`] bytes.
//!
//! Byte offsets: kind 0, base 1, lrt mint 33, supported mint 65, admin 97,
//! delegation admin 129, fee owner 161, mint-burn authority 193 (all-zero
//! meaning absent), capacity 225, vault index 233, lrt supply 241, tokens
//! deposited 249, deposit fee 257, withdrawal fee 259, reserved 261,
//! bump 1285.

use vstd::prelude::*;

use vstd::bytes::{
    spec_u16_to_le_bytes, spec_u16_from_le_bytes, spec_u64_to_le_bytes, spec_u64_from_le_bytes,
    u16_from_le_bytes, u16_to_le_bytes, u64_from_le_bytes, u64_to_le_bytes,
};
use vstd::slice::slice_subrange;

use crate::key::{zero_key_bytes, Key};
use crate::vault::Vault;
use crate::AccountType;

verus! {

broadcast use vstd::array::group_array_axioms;

/// The constant byte length of every encoded vault record.
pub const RECORD_LEN: usize = 1286;

/// The discriminant byte of the configuration record kind.
pub const CONFIG_TAG: u8 = 0;

/// The discriminant byte of the vault record kind.
pub const VAULT_TAG: u8 = 1;

/// The discriminant byte written for a record kind.
pub open spec fn spec_kind_tag(t: AccountType) -> u8 {
    match t {
        AccountType::Config => CONFIG_TAG,
        AccountType::Vault => VAULT_TAG,
    }
}

/// The record kind read back from a discriminant byte, `None` for a byte
/// that names no kind.
pub open spec fn spec_kind_of_tag(b: u8) -> Option<AccountType> {
    if b == CONFIG_TAG {
        Some(AccountType::Config)
    } else if b == VAULT_TAG {
        Some(AccountType::Vault)
    } else {
        None
    }
}

/// The 32 wire bytes of an optional key: the key's bytes, or the all-zero
/// sentinel for an absent one.
pub open spec fn spec_mba_bytes(mba: Option<Key>) -> Seq<u8> {
    match mba {
        Some(k) => k@,
        None => zero_key_bytes(),
    }
}

/// The encoded bytes of a vault record.
pub open spec fn spec_encode(v: Vault) -> Seq<u8> {
    seq![spec_kind_tag(v.account_type)] + v.base@ + v.lrt_mint@ + v.supported_mint@ + v.admin@
        + v.delegation_admin@ + v.fee_owner@ + spec_mba_bytes(v.mint_burn_authority)
        + spec_u64_to_le_bytes(v.capacity) + spec_u64_to_le_bytes(v.vault_index)
        + spec_u64_to_le_bytes(v.lrt_supply) + spec_u64_to_le_bytes(v.tokens_deposited)
        + spec_u16_to_le_bytes(v.deposit_fee_bps) + spec_u16_to_le_bytes(v.withdrawal_fee_bps)
        + v.reserved@ + seq![v.bump]
}

/// Whether a buffer decodes at all: it holds a full record and its first
/// byte names a record kind.
pub open spec fn spec_decodable(s: Seq<u8>) -> bool {
    &&& s.len() >= RECORD_LEN
    &&& spec_kind_of_tag(s[0]) is Some
}

/// The decode relation: `w` is the record read from the front of buffer
/// `s`.  Each field is pinned to its byte range, and the all-zero sentinel
/// at the mint-burn-authority range reads back as `None`, so the record a
/// buffer decodes to is unique.
pub open spec fn decodes_to(s: Seq<u8>, w: Vault) -> bool {
    &&& s.len() >= RECORD_LEN
    &&& spec_kind_of_tag(s[0]) == Some(w.account_type)
    &&& w.base@ == s.subrange(1, 33)
    &&& w.lrt_mint@ == s.subrange(33, 65)
    &&& w.supported_mint@ == s.subrange(65, 97)
    &&& w.admin@ == s.subrange(97, 129)
    &&& w.delegation_admin@ == s.subrange(129, 161)
    &&& w.fee_owner@ == s.subrange(161, 193)
    &&& spec_mba_bytes(w.mint_burn_authority) == s.subrange(193, 225)
    &&& w.wf()
    &&& w.capacity == spec_u64_from_le_bytes(s.subrange(225, 233))
    &&& w.vault_index == spec_u64_from_le_bytes(s.subrange(233, 241))
    &&& w.lrt_supply == spec_u64_from_le_bytes(s.subrange(241, 249))
    &&& w.tokens_deposited == spec_u64_from_le_bytes(s.subrange(249, 257))
    &&& w.deposit_fee_bps == spec_u16_from_le_bytes(s.subrange(257, 259))
    &&& w.withdrawal_fee_bps == spec_u16_from_le_bytes(s.subrange(259, 261))
    &&& w.reserved@ == s.subrange(261, 1285)
    &&& w.bump == s[1285]
}

/// Law: the encoding has the same fixed length for every record.
pub proof fn lemma_encode_len(v: Vault)
    ensures
        spec_encode(v).len() == RECORD_LEN,
{
    vstd::bytes::lemma_auto_spec_u64_to_from_le_bytes();
    vstd::bytes::lemma_auto_spec_u16_to_from_le_bytes();
}

/// Law: every well-formed record's encoding decodes, and it decodes back to
/// that record.
pub proof fn lemma_encode_decodes_to(v: Vault)
    requires
        v.wf(),
    ensures
        spec_decodable(spec_encode(v)),
        decodes_to(spec_encode(v), v),
{
    vstd::bytes::lemma_auto_spec_u64_to_from_le_bytes();
    vstd::bytes::lemma_auto_spec_u16_to_from_le_bytes();
    let s = spec_encode(v);
    assert(s[0] == spec_kind_tag(v.account_type));
    assert(s.subrange(1, 33) =~= v.base@);
    assert(s.subrange(33, 65) =~= v.lrt_mint@);
    assert(s.subrange(65, 97) =~= v.supported_mint@);
    assert(s.subrange(97, 129) =~= v.admin@);
    assert(s.subrange(129, 161) =~= v.delegation_admin@);
    assert(s.subrange(161, 193) =~= v.fee_owner@);
    assert(s.subrange(193, 225) =~= spec_mba_bytes(v.mint_burn_authority));
    assert(s.subrange(225, 233) =~= spec_u64_to_le_bytes(v.capacity));
    assert(s.subrange(233, 241) =~= spec_u64_to_le_bytes(v.vault_index));
    assert(s.subrange(241, 249) =~= spec_u64_to_le_bytes(v.lrt_supply));
    assert(s.subrange(249, 257) =~= spec_u64_to_le_bytes(v.tokens_deposited));
    assert(s.subrange(257, 259) =~= spec_u16_to_le_bytes(v.deposit_fee_bps));
    assert(s.subrange(259, 261) =~= spec_u16_to_le_bytes(v.withdrawal_fee_bps));
    assert(s.subrange(261, 1285) =~= v.reserved@);
    assert(s[1285] == v.bump);
}

/// Law: a buffer decodes to at most one record.
pub proof fn lemma_decodes_to_unique(s: Seq<u8>, w1: Vault, w2: Vault)
    requires
        decodes_to(s, w1),
        decodes_to(s, w2),
    ensures
        w1 == w2,
{
    assert(w1.base.bytes =~= w2.base.bytes);
    assert(w1.lrt_mint.bytes =~= w2.lrt_mint.bytes);
    assert(w1.supported_mint.bytes =~= w2.supported_mint.bytes);
    assert(w1.admin.bytes =~= w2.admin.bytes);
    assert(w1.delegation_admin.bytes =~= w2.delegation_admin.bytes);
    assert(w1.fee_owner.bytes =~= w2.fee_owner.bytes);
    assert(w1.reserved =~= w2.reserved);
    match (w1.mint_burn_authority, w2.mint_burn_authority) {
        (Some(k1), Some(k2)) => {
            assert(k1.bytes =~= k2.bytes);
            assert(w1.mint_burn_authority == w2.mint_burn_authority);
        },
        (Some(k1), None) => {
            assert(k1@ == zero_key_bytes());
            assert(false);
        },
        (None, Some(k2)) => {
            assert(k2@ == zero_key_bytes());
            assert(false);
        },
        (None, None) => {},
    }
    assert(w1 == w2);
}

/// Law: decoding an encoded well-formed record yields exactly that record.
/// Together with `lemma_encode_len` this is the round trip of the fixed
/// layout.
pub proof fn lemma_round_trip(v: Vault, w: Vault)
    requires
        v.wf(),
        decodes_to(spec_encode(v), w),
    ensures
        w == v,
{
    lemma_encode_decodes_to(v);
    lemma_decodes_to_unique(spec_encode(v), v, w);
}

/// Appends a fixed-size byte block.
fn push_bytes<const N: usize>(out: &mut Vec<u8>, a: &[u8; N])
    ensures
        final(out)@ == old(out)@ + a@,
{
    let mut i: usize = 0;
    while i < N
        invariant
            i <= N,
            out@ == old(out)@ + a@.subrange(0, i as int),
        decreases N - i,
    {
        out.push(a[i]);
        proof {
            assert(out@ =~= old(out)@ + a@.subrange(0, i + 1));
        }
        i += 1;
    }
    proof {
        assert(a@.subrange(0, N as int) =~= a@);
    }
}

/// Appends a `u64` in little-endian order.
fn push_u64_le(out: &mut Vec<u8>, x: u64)
    ensures
        final(out)@ == old(out)@ + spec_u64_to_le_bytes(x),
{
    let mut b = u64_to_le_bytes(x);
    out.append(&mut b);
}

/// Appends a `u16` in little-endian order.
fn push_u16_le(out: &mut Vec<u8>, x: u16)
    ensures
        final(out)@ == old(out)@ + spec_u16_to_le_bytes(x),
{
    let mut b = u16_to_le_bytes(x);
    out.append(&mut b);
}

/// Encodes a record into the fixed layout.
pub fn encode_record(v: &Vault) -> (out: Vec<u8>)
    ensures
        out@ == spec_encode(*v),
        out@.len() == RECORD_LEN,
{
    let mut out: Vec<u8> = Vec::new();
    let tag: u8 = match v.account_type {
        AccountType::Config => CONFIG_TAG,
        AccountType::Vault => VAULT_TAG,
    };
    out.push(tag);
    proof {
        assert(out@ =~= seq![spec_kind_tag(v.account_type)]);
    }
    push_bytes(&mut out, &v.base.bytes);
    push_bytes(&mut out, &v.lrt_mint.bytes);
    push_bytes(&mut out, &v.supported_mint.bytes);
    push_bytes(&mut out, &v.admin.bytes);
    push_bytes(&mut out, &v.delegation_admin.bytes);
    push_bytes(&mut out, &v.fee_owner.bytes);
    match &v.mint_burn_authority {
        Some(k) => push_bytes(&mut out, &k.bytes),
        None => {
            let z = Key::zeroed();
            push_bytes(&mut out, &z.bytes);
        },
    }
    push_u64_le(&mut out, v.capacity);
    push_u64_le(&mut out, v.vault_index);
    push_u64_le(&mut out, v.lrt_supply);
    push_u64_le(&mut out, v.tokens_deposited);
    push_u16_le(&mut out, v.deposit_fee_bps);
    push_u16_le(&mut out, v.withdrawal_fee_bps);
    push_bytes(&mut out, &v.reserved);
    out.push(v.bump);
    proof {
        lemma_encode_len(*v);
        assert(out@ =~= spec_encode(*v));
    }
    out
}

/// Reads a fixed-size byte block at `off`.
fn read_bytes<const N: usize>(data: &Vec<u8>, off: usize) -> (out: [u8; N])
    requires
        off + N <= data@.len(),
    ensures
        out@ == data@.subrange(off as int, off + N),
{
    let n = data.len();
    assert(off + N <= n);
    let mut out: [u8; N] = [0u8; N];
    let mut i: usize = 0;
    while i < N
        invariant
            i <= N,
            off + N <= data@.len(),
            data@.len() <= usize::MAX,
            forall|j: int| 0 <= j < i ==> out@[j] == data@[off + j],
        decreases N - i,
    {
        out[i] = data[off + i];
        i += 1;
    }
    proof {
        assert(out@ =~= data@.subrange(off as int, off + N));
    }
    out
}

/// Reads a little-endian `u64` at `off`.
fn read_u64_le(data: &Vec<u8>, off: usize) -> (x: u64)
    requires
        off + 8 <= data@.len(),
    ensures
        x == spec_u64_from_le_bytes(data@.subrange(off as int, off + 8)),
{
    let n = data.len();
    assert(off + 8 <= n);
    u64_from_le_bytes(slice_subrange(data.as_slice(), off, off + 8))
}

/// Reads a little-endian `u16` at `off`.
fn read_u16_le(data: &Vec<u8>, off: usize) -> (x: u16)
    requires
        off + 2 <= data@.len(),
    ensures
        x == spec_u16_from_le_bytes(data@.subrange(off as int, off + 2)),
{
    let n = data.len();
    assert(off + 2 <= n);
    u16_from_le_bytes(slice_subrange(data.as_slice(), off, off + 2))
}

/// Decodes the record at the front of a buffer; `None` when the buffer is
/// too short or its first byte names no record kind.  Trailing bytes past
/// the fixed length are ignored.
pub fn decode_record(data: &Vec<u8>) -> (r: Option<Vault>)
    ensures
        r is Some <==> spec_decodable(data@),
        r matches Some(w) ==> decodes_to(data@, w),
{
    if data.len() < RECORD_LEN {
        return None;
    }
    let tag = data[0];
    let account_type = if tag == CONFIG_TAG {
        AccountType::Config
    } else if tag == VAULT_TAG {
        AccountType::Vault
    } else {
        return None;
    };
    let base = Key::new(read_bytes(data, 1));
    let lrt_mint = Key::new(read_bytes(data, 33));
    let supported_mint = Key::new(read_bytes(data, 65));
    let admin = Key::new(read_bytes(data, 97));
    let delegation_admin = Key::new(read_bytes(data, 129));
    let fee_owner = Key::new(read_bytes(data, 161));
    let mba_key = Key::new(read_bytes(data, 193));
    let mint_burn_authority = if mba_key.is_zeroed() {
        None
    } else {
        Some(mba_key)
    };
    let capacity = read_u64_le(data, 225);
    let vault_index = read_u64_le(data, 233);
    let lrt_supply = read_u64_le(data, 241);
    let tokens_deposited = read_u64_le(data, 249);
    let deposit_fee_bps = read_u16_le(data, 257);
    let withdrawal_fee_bps = read_u16_le(data, 259);
    let reserved: [u8; 1024] = read_bytes(data, 261);
    let bump = data[1285];
    let w = Vault {
        account_type,
        base,
        lrt_mint,
        supported_mint,
        admin,
        delegation_admin,
        fee_owner,
        mint_burn_authority,
        capacity,
        vault_index,
        lrt_supply,
        tokens_deposited,
        deposit_fee_bps,
        withdrawal_fee_bps,
        reserved,
        bump,
    };
    Some(w)
}

} // verus!
