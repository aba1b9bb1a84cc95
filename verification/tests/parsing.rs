use cashu_pos::error::PosError;
use cashu_pos::types::CurrencyUnit;
use cashu_pos::validate::{parse_amount, parse_identifier, parse_unit};

#[test]
fn amount_parses_plain_decimal() {
    assert_eq!(parse_amount("100").unwrap(), 100);
    assert_eq!(parse_amount("1").unwrap(), 1);
    assert_eq!(parse_amount("18446744073709551615").unwrap(), u64::MAX);
}

#[test]
fn amount_rejects_zero() {
    let err = parse_amount("0").unwrap_err();
    match err {
        PosError::InvalidAmount(s) => assert_eq!(s, "0"),
        other => panic!("expected InvalidAmount, got {:?}", other),
    }
}

#[test]
fn amount_rejects_empty_and_garbage() {
    assert!(matches!(parse_amount(""), Err(PosError::InvalidAmount(_))));
    assert!(matches!(
        parse_amount("abc"),
        Err(PosError::InvalidAmount(_))
    ));
    assert!(matches!(
        parse_amount("12x"),
        Err(PosError::InvalidAmount(_))
    ));
    assert!(matches!(
        parse_amount("-5"),
        Err(PosError::InvalidAmount(_))
    ));
    assert!(matches!(
        parse_amount("+5"),
        Err(PosError::InvalidAmount(_))
    ));
    assert!(matches!(
        parse_amount(" 5"),
        Err(PosError::InvalidAmount(_))
    ));
}

#[test]
fn amount_rejects_overflow() {
    assert!(matches!(
        parse_amount("18446744073709551616"),
        Err(PosError::InvalidAmount(_))
    ));
    assert!(matches!(
        parse_amount("99999999999999999999999"),
        Err(PosError::InvalidAmount(_))
    ));
}

#[test]
fn unit_parses_allowed_set() {
    assert_eq!(parse_unit("sat").unwrap(), CurrencyUnit::Sat);
    assert_eq!(parse_unit("usd").unwrap(), CurrencyUnit::Usd);
}

#[test]
fn unit_rejects_others() {
    for bad in ["eur", "SAT", "msat", "", "satoshi"] {
        match parse_unit(bad) {
            Err(PosError::UnsupportedCurrencyUnit { given, allowed }) => {
                assert_eq!(given, bad);
                assert_eq!(allowed, vec![CurrencyUnit::Sat, CurrencyUnit::Usd]);
            }
            other => panic!("expected UnsupportedCurrencyUnit for {:?}, got {:?}", bad, other),
        }
    }
}

#[test]
fn identifier_round_trips_through_text() {
    let id: u128 = 0x0123_4567_89ab_cdef_0123_4567_89ab_cdef;
    let text = uuid::Uuid::from_u128(id).to_string();
    assert_eq!(parse_identifier(&text).unwrap(), id);
}

#[test]
fn identifier_rejects_malformed() {
    for bad in ["not-a-uuid", "", "1234", "zzzzzzzz-zzzz-zzzz-zzzz-zzzzzzzzzzzz"] {
        match parse_identifier(bad) {
            Err(PosError::InvalidUuid(s)) => assert_eq!(s, bad),
            other => panic!("expected InvalidUuid for {:?}, got {:?}", bad, other),
        }
    }
}
