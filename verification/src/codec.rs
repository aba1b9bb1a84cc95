//! Fixed-width binary encoding of quote records, with a proved round trip.
//!
//! A quote is stored as 26 bytes: the identifier (16 bytes, little-endian),
//! the amount (8 bytes, little-endian), one tag byte for the unit and one
//! for the state.

use vstd::prelude::*;
use vstd::arithmetic::div_mod::{lemma_fundamental_div_mod, lemma_multiply_divide_lt};
use crate::types::{CurrencyUnit, QuoteInfo, QuoteState};

verus! {

/// Number of bytes in an encoded quote record.
pub const QUOTE_RECORD_LEN: usize = 26;

/// 256 raised to `n`: the number of values `n` bytes can carry.
pub open spec fn pow256(n: nat) -> nat
    decreases n,
{
    if n == 0 {
        1
    } else {
        256 * pow256((n - 1) as nat)
    }
}

/// The `n` little-endian bytes of `v`.
pub open spec fn le_bytes(v: nat, n: nat) -> Seq<u8>
    decreases n,
{
    if n == 0 {
        Seq::empty()
    } else {
        seq![(v % 256) as u8] + le_bytes(v / 256, (n - 1) as nat)
    }
}

/// The value carried by a little-endian byte sequence.
pub open spec fn le_val(b: Seq<u8>) -> nat
    decreases b.len(),
{
    if b.len() == 0 {
        0
    } else {
        b[0] as nat + 256 * le_val(b.drop_first())
    }
}

pub proof fn lemma_le_bytes_len(v: nat, n: nat)
    ensures
        le_bytes(v, n).len() == n,
    decreases n,
{
    if n > 0 {
        lemma_le_bytes_len(v / 256, (n - 1) as nat);
    }
}

pub proof fn lemma_le_val_bound(b: Seq<u8>)
    ensures
        le_val(b) < pow256(b.len()),
    decreases b.len(),
{
    if b.len() > 0 {
        lemma_le_val_bound(b.drop_first());
    }
}

/// Encoding `v` into `n` bytes and reading the bytes back yields `v`,
/// as long as `v` fits in `n` bytes.
pub proof fn lemma_le_roundtrip(v: nat, n: nat)
    requires
        v < pow256(n),
    ensures
        le_val(le_bytes(v, n)) == v,
    decreases n,
{
    if n > 0 {
        assert(pow256(n) == 256 * pow256((n - 1) as nat));
        lemma_multiply_divide_lt(v as int, 256, pow256((n - 1) as nat) as int);
        lemma_le_roundtrip(v / 256, (n - 1) as nat);
        let s = seq![(v % 256) as u8] + le_bytes(v / 256, (n - 1) as nat);
        lemma_le_bytes_len(v / 256, (n - 1) as nat);
        assert(s.drop_first() =~= le_bytes(v / 256, (n - 1) as nat));
        lemma_fundamental_div_mod(v as int, 256);
    }
}

/// The tag byte of a currency unit.
pub open spec fn unit_tag(u: CurrencyUnit) -> u8 {
    match u {
        CurrencyUnit::Sat => 0,
        CurrencyUnit::Usd => 1,
    }
}

/// The tag byte of a quote state.
pub open spec fn state_tag(s: QuoteState) -> u8 {
    match s {
        QuoteState::Unpaid => 0,
        QuoteState::Paid => 1,
    }
}

/// The 26-byte record of a quote.
pub open spec fn encode_quote_spec(q: QuoteInfo) -> Seq<u8> {
    le_bytes(q.id as nat, 16) + le_bytes(q.amount as nat, 8) + seq![
        unit_tag(q.unit),
        state_tag(q.state),
    ]
}

/// The quote a 26-byte record carries, or `None` where the bytes are not
/// a well-formed record.
pub open spec fn decode_quote_spec(b: Seq<u8>) -> Option<QuoteInfo> {
    if b.len() == 26 && b[24] <= 1 && b[25] <= 1 {
        Some(
            QuoteInfo {
                id: le_val(b.subrange(0, 16)) as u128,
                amount: le_val(b.subrange(16, 24)) as u64,
                unit: if b[24] == 0 {
                    CurrencyUnit::Sat
                } else {
                    CurrencyUnit::Usd
                },
                state: if b[25] == 0 {
                    QuoteState::Unpaid
                } else {
                    QuoteState::Paid
                },
            },
        )
    } else {
        None
    }
}

/// The store key of a quote identifier: its 16 little-endian bytes.
pub open spec fn spec_key(id: u128) -> Seq<u8> {
    le_bytes(id as nat, 16)
}

pub proof fn lemma_pow256_16()
    ensures
        pow256(16) == 0x1_0000_0000_0000_0000_0000_0000_0000_0000,
        pow256(8) == 0x1_0000_0000_0000_0000,
{
    reveal_with_fuel(pow256, 17);
}

/// Decoding an encoded quote yields the quote back: nothing is lost in
/// the record format.
pub proof fn lemma_quote_roundtrip(q: QuoteInfo)
    ensures
        decode_quote_spec(encode_quote_spec(q)) == Some(q),
{
    let e = encode_quote_spec(q);
    lemma_le_bytes_len(q.id as nat, 16);
    lemma_le_bytes_len(q.amount as nat, 8);
    assert(e.len() == 26);
    assert(e.subrange(0, 16) =~= le_bytes(q.id as nat, 16));
    assert(e.subrange(16, 24) =~= le_bytes(q.amount as nat, 8));
    lemma_pow256_16();
    lemma_le_roundtrip(q.id as nat, 16);
    lemma_le_roundtrip(q.amount as nat, 8);
    assert(e[24] == unit_tag(q.unit));
    assert(e[25] == state_tag(q.state));
}

/// Distinct identifiers have distinct store keys.
pub proof fn lemma_key_injective(a: u128, b: u128)
    requires
        spec_key(a) == spec_key(b),
    ensures
        a == b,
{
    lemma_pow256_16();
    lemma_le_roundtrip(a as nat, 16);
    lemma_le_roundtrip(b as nat, 16);
}

/// The `n` little-endian bytes of `v`, as a vector.
fn le_encode(v0: u128, n: usize) -> (r: Vec<u8>)
    ensures
        r@ == le_bytes(v0 as nat, n as nat),
{
    let mut r: Vec<u8> = Vec::new();
    let mut v: u128 = v0;
    let mut i: usize = 0;
    while i < n
        invariant
            i <= n,
            r@.len() == i,
            le_bytes(v0 as nat, n as nat) == r@ + le_bytes(v as nat, (n - i) as nat),
        decreases n - i,
    {
        let b: u8 = (v & 0xff) as u8;
        proof {
            assert(v & 0xff == v % 256) by (bit_vector);
            assert(v >> 8 == v / 256) by (bit_vector);
            assert(le_bytes(v as nat, (n - i) as nat) == seq![(v as nat % 256) as u8]
                + le_bytes(v as nat / 256, (n - i - 1) as nat));
            assert(r@ + le_bytes(v as nat, (n - i) as nat) =~= (r@ + seq![(v as nat % 256) as u8])
                + le_bytes(v as nat / 256, (n - i - 1) as nat));
        }
        r.push(b);
        v = v >> 8;
        i = i + 1;
    }
    proof {
        assert(r@ + le_bytes(v as nat, 0) =~= r@);
    }
    r
}

/// The value of the bytes `b[from..to]`, read little-endian.
fn le_decode(b: &Vec<u8>, from: usize, to: usize) -> (r: u128)
    requires
        from <= to <= b@.len(),
        to - from <= 16,
    ensures
        r as nat == le_val(b@.subrange(from as int, to as int)),
{
    let mut r: u128 = 0;
    let mut i: usize = to;
    while i > from
        invariant
            from <= i <= to <= b@.len(),
            to - from <= 16,
            r as nat == le_val(b@.subrange(i as int, to as int)),
            r < pow256((to - i) as nat),
        decreases i,
    {
        i = i - 1;
        proof {
            let s = b@.subrange(i as int, to as int);
            assert(s.drop_first() =~= b@.subrange(i as int + 1, to as int));
            lemma_pow256_16();
            lemma_pow256_monotone((to - i - 1) as nat, 15);
        }
        r = r * 256 + (b[i] as u128);
    }
    proof {
        assert(b@.subrange(from as int, to as int) == b@.subrange(i as int, to as int));
    }
    r
}

pub proof fn lemma_pow256_monotone(m: nat, n: nat)
    requires
        m <= n,
    ensures
        pow256(m) <= pow256(n),
    decreases n,
{
    if m < n {
        lemma_pow256_monotone(m, (n - 1) as nat);
    }
}

/// Serializes a quote into its 26-byte record.
pub fn encode_quote(q: &QuoteInfo) -> (r: Vec<u8>)
    ensures
        r@ == encode_quote_spec(*q),
{
    let mut r = le_encode(q.id, 16);
    let mut amt = le_encode(q.amount as u128, 8);
    r.append(&mut amt);
    let unit_b: u8 = match q.unit {
        CurrencyUnit::Sat => 0,
        CurrencyUnit::Usd => 1,
    };
    let state_b: u8 = match q.state {
        QuoteState::Unpaid => 0,
        QuoteState::Paid => 1,
    };
    r.push(unit_b);
    r.push(state_b);
    proof {
        assert(r@ =~= encode_quote_spec(*q));
    }
    r
}

/// Deserializes a 26-byte record back into a quote; `None` where the
/// bytes are not a well-formed record.
pub fn decode_quote(b: &Vec<u8>) -> (r: Option<QuoteInfo>)
    ensures
        r == decode_quote_spec(b@),
{
    if b.len() != QUOTE_RECORD_LEN {
        return None;
    }
    let unit_b = b[24];
    let state_b = b[25];
    if unit_b > 1 || state_b > 1 {
        return None;
    }
    let id_val = le_decode(b, 0, 16);
    let amount_val = le_decode(b, 16, 24);
    proof {
        lemma_pow256_16();
        lemma_le_val_bound(b@.subrange(16, 24));
        lemma_le_val_bound(b@.subrange(0, 16));
    }
    Some(
        QuoteInfo {
            id: id_val,
            amount: amount_val as u64,
            unit: if unit_b == 0 {
                CurrencyUnit::Sat
            } else {
                CurrencyUnit::Usd
            },
            state: if state_b == 0 {
                QuoteState::Unpaid
            } else {
                QuoteState::Paid
            },
        },
    )
}

/// The store key of an identifier, as a vector.
pub fn id_key(id: u128) -> (r: Vec<u8>)
    ensures
        r@ == spec_key(id),
{
    le_encode(id, 16)
}

} // verus!
