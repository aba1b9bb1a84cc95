//! Request validation: pure parsers for amounts, currency units and quote
//! identifiers, applied to untrusted input before it reaches the lifecycle
//! manager.

use vstd::prelude::*;
use vstd::string::StrSliceExecFns;
use crate::error::PosError;
use crate::types::CurrencyUnit;

verus! {

/// Whether `c` is a decimal digit.
pub open spec fn is_digit(c: char) -> bool {
    48 <= c as u32 && c as u32 <= 57
}

/// The value of a decimal digit.
pub open spec fn digit_val(c: char) -> nat {
    (c as u32 - 48) as nat
}

/// Whether every character of `s` is a decimal digit.
pub open spec fn all_digits(s: Seq<char>) -> bool {
    forall|i: int| 0 <= i < s.len() ==> is_digit(s[i])
}

/// The number a decimal digit string denotes.
pub open spec fn dec_val(s: Seq<char>) -> nat
    decreases s.len(),
{
    if s.len() == 0 {
        0
    } else {
        dec_val(s.drop_last()) * 10 + digit_val(s.last())
    }
}

/// A valid amount string: nonempty, decimal digits only, denoting a
/// positive number that fits in 64 bits.
pub open spec fn valid_amount(s: Seq<char>) -> bool {
    s.len() > 0 && all_digits(s) && 0 < dec_val(s) <= u64::MAX
}

/// Growing a digit string never shrinks the number it denotes.
proof fn lemma_dec_val_prefix_monotone(s: Seq<char>, i: int, j: int)
    requires
        0 <= i <= j <= s.len(),
    ensures
        dec_val(s.subrange(0, i)) <= dec_val(s.subrange(0, j)),
    decreases j - i,
{
    if i < j {
        lemma_dec_val_prefix_monotone(s, i, j - 1);
        let p = s.subrange(0, j);
        assert(p.drop_last() =~= s.subrange(0, j - 1));
        assert(dec_val(p) == dec_val(p.drop_last()) * 10 + digit_val(p.last()));
        assert(dec_val(p.drop_last()) <= dec_val(p.drop_last()) * 10);
    }
}

/// Parses a positive 64-bit decimal amount. Returns the denoted number
/// exactly when the string is a valid amount, and `InvalidAmount`
/// otherwise: on empty input, a non-digit, overflow, or zero.
pub fn parse_amount(s: &str) -> (r: Result<u64, PosError>)
    ensures
        r matches Ok(v) ==> valid_amount(s@) && v == dec_val(s@),
        valid_amount(s@) ==> r == Ok::<u64, PosError>(dec_val(s@) as u64),
        r matches Err(e) ==> !valid_amount(s@) && (e matches PosError::InvalidAmount(t) && t@ == s@),
{
    let n = s.unicode_len();
    let mut acc: u64 = 0;
    let mut i: usize = 0;
    while i < n
        invariant
            0 <= i <= n,
            n == s@.len(),
            all_digits(s@.subrange(0, i as int)),
            acc == dec_val(s@.subrange(0, i as int)),
        decreases n - i,
    {
        let c = s.get_char(i);
        let cv = c as u32;
        if cv < 48 || cv > 57 {
            proof {
                assert(!is_digit(s@[i as int]));
            }
            return Err(PosError::InvalidAmount(s.to_owned()));
        }
        let d: u64 = (cv - 48) as u64;
        if acc > (u64::MAX - d) / 10 {
            proof {
                let p = s@.subrange(0, i as int + 1);
                assert(p.drop_last() =~= s@.subrange(0, i as int));
                assert(p.last() == s@[i as int]);
                assert(dec_val(p) == acc * 10 + d);
                assert(acc * 10 + d > u64::MAX) by (nonlinear_arith)
                    requires
                        acc > (u64::MAX - d) / 10,
                        d <= u64::MAX,
                ;
                lemma_dec_val_prefix_monotone(s@, i as int + 1, n as int);
                assert(s@.subrange(0, n as int) =~= s@);
            }
            return Err(PosError::InvalidAmount(s.to_owned()));
        }
        proof {
            assert(acc * 10 + d <= u64::MAX) by (nonlinear_arith)
                requires
                    acc <= (u64::MAX - d) / 10,
                    d <= u64::MAX,
            ;
            let p = s@.subrange(0, i as int + 1);
            assert(p.drop_last() =~= s@.subrange(0, i as int));
            assert(p.last() == s@[i as int]);
        }
        acc = acc * 10 + d;
        i = i + 1;
    }
    proof {
        assert(s@.subrange(0, n as int) =~= s@);
    }
    if acc == 0 {
        return Err(PosError::InvalidAmount(s.to_owned()));
    }
    Ok(acc)
}

/// The character sequence naming the base unit.
pub open spec fn sat_name() -> Seq<char> {
    seq!['s', 'a', 't']
}

/// The character sequence naming the fiat-pegged unit.
pub open spec fn usd_name() -> Seq<char> {
    seq!['u', 's', 'd']
}

/// The unit a string names, if it is in the allowed set.
pub open spec fn unit_of_str(s: Seq<char>) -> Option<CurrencyUnit> {
    if s == sat_name() {
        Some(CurrencyUnit::Sat)
    } else if s == usd_name() {
        Some(CurrencyUnit::Usd)
    } else {
        None
    }
}

/// Parses a currency unit. Returns the named unit exactly when the
/// string is in the allowed set, and `UnsupportedCurrencyUnit` otherwise.
pub fn parse_unit(s: &str) -> (r: Result<CurrencyUnit, PosError>)
    ensures
        r matches Ok(u) ==> unit_of_str(s@) == Some(u),
        unit_of_str(s@) matches Some(u) ==> r == Ok::<CurrencyUnit, PosError>(u),
        r matches Err(e) ==> unit_of_str(s@) is None && (e
            matches PosError::UnsupportedCurrencyUnit { given: t, allowed: a } && t@ == s@ && a@
            == seq![CurrencyUnit::Sat, CurrencyUnit::Usd]),
{
    let n = s.unicode_len();
    if n == 3 {
        let c0 = s.get_char(0);
        let c1 = s.get_char(1);
        let c2 = s.get_char(2);
        if c0 == 's' && c1 == 'a' && c2 == 't' {
            proof {
                assert(s@ =~= sat_name());
            }
            return Ok(CurrencyUnit::Sat);
        }
        if c0 == 'u' && c1 == 's' && c2 == 'd' {
            proof {
                assert(s@ =~= usd_name());
            }
            return Ok(CurrencyUnit::Usd);
        }
    }
    proof {
        assert(s@ != sat_name() && s@ != usd_name());
    }
    let allowed = vec![CurrencyUnit::Sat, CurrencyUnit::Usd];
    proof {
        assert(allowed@ =~= seq![CurrencyUnit::Sat, CurrencyUnit::Usd]);
    }
    Err(PosError::UnsupportedCurrencyUnit { given: s.to_owned(), allowed })
}

/// The 128-bit value a UUID string denotes, if it is well formed.
pub uninterp spec fn uuid_value_of(s: Seq<char>) -> Option<u128>;

/// Relies on uuid::Uuid::parse_str: whether a string is a well-formed
/// UUID, and which 128-bit value it denotes, depend on the characters
/// alone.
#[verifier::external_body]
fn uuid_parse(s: &str) -> (r: Option<u128>)
    ensures
        r == uuid_value_of(s@),
{
    match uuid::Uuid::parse_str(s) {
        Ok(u) => Some(u.as_u128()),
        Err(_) => None,
    }
}

/// Parses a quote identifier. Returns its 128-bit value exactly when the
/// string is a well-formed UUID, and `InvalidUuid` otherwise.
pub fn parse_identifier(s: &str) -> (r: Result<u128, PosError>)
    ensures
        uuid_value_of(s@) matches Some(v) ==> r == Ok::<u128, PosError>(v),
        r matches Ok(v) ==> uuid_value_of(s@) == Some(v),
        r matches Err(e) ==> uuid_value_of(s@) is None && (e matches PosError::InvalidUuid(t) && t@
            == s@),
{
    match uuid_parse(s) {
        Some(v) => Ok(v),
        None => Err(PosError::InvalidUuid(s.to_owned())),
    }
}

} // verus!
