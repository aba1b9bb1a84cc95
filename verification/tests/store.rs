use cashu_pos::codec::{decode_quote, encode_quote, id_key};
use cashu_pos::db::Db;
use cashu_pos::error::PosError;
use cashu_pos::types::{CurrencyUnit, QuoteInfo, QuoteState};

fn fresh_db() -> Db {
    let path = format!("/tmp/cashu_pos_store_{}.redb", uuid::Uuid::new_v4().as_simple());
    Db::new(&path).expect("open store")
}

#[test]
fn record_round_trip() {
    let q = QuoteInfo {
        id: 0xfeed_beef_0123_4567_89ab_cdef_0011_2233,
        amount: 123_456_789,
        state: QuoteState::Paid,
        unit: CurrencyUnit::Usd,
    };
    let bytes = encode_quote(&q);
    assert_eq!(bytes.len(), 26);
    assert_eq!(decode_quote(&bytes), Some(q));
}

#[test]
fn record_layout_is_little_endian_with_tag_bytes() {
    let q = QuoteInfo {
        id: 0x0102,
        amount: 3,
        state: QuoteState::Unpaid,
        unit: CurrencyUnit::Sat,
    };
    let bytes = encode_quote(&q);
    let mut expected = vec![0x02u8, 0x01];
    expected.extend(std::iter::repeat(0u8).take(14));
    expected.extend([3u8, 0, 0, 0, 0, 0, 0, 0]);
    expected.extend([0u8, 0u8]);
    assert_eq!(bytes, expected);
}

#[test]
fn malformed_records_do_not_decode() {
    assert_eq!(decode_quote(&vec![]), None);
    assert_eq!(decode_quote(&vec![0u8; 25]), None);
    assert_eq!(decode_quote(&vec![0u8; 27]), None);
    let mut bad_unit = vec![0u8; 26];
    bad_unit[24] = 7;
    assert_eq!(decode_quote(&bad_unit), None);
    let mut bad_state = vec![0u8; 26];
    bad_state[25] = 2;
    assert_eq!(decode_quote(&bad_state), None);
}

#[test]
fn key_is_the_identifier_bytes() {
    let k = id_key(1);
    assert_eq!(k.len(), 16);
    assert_eq!(k[0], 1);
    assert!(k[1..].iter().all(|b| *b == 0));
}

#[test]
fn store_put_then_get() {
    let mut db = fresh_db();
    let q = QuoteInfo {
        id: 7,
        amount: 42,
        state: QuoteState::Unpaid,
        unit: CurrencyUnit::Sat,
    };
    db.add_quote(&q).expect("put");
    assert_eq!(db.get_quote(7).expect("get"), q);
    assert!(matches!(db.get_quote(8), Err(PosError::QuoteNotFound(8))));
}

#[test]
fn store_put_overwrites_same_key() {
    let mut db = fresh_db();
    let q1 = QuoteInfo {
        id: 7,
        amount: 42,
        state: QuoteState::Unpaid,
        unit: CurrencyUnit::Sat,
    };
    let q2 = QuoteInfo {
        id: 7,
        amount: 43,
        state: QuoteState::Unpaid,
        unit: CurrencyUnit::Usd,
    };
    db.add_quote(&q1).expect("put");
    db.add_quote(&q2).expect("put again");
    assert_eq!(db.get_quote(7).expect("get"), q2);
}

#[test]
fn compare_and_set_transitions_once() {
    let mut db = fresh_db();
    let q = QuoteInfo {
        id: 9,
        amount: 10,
        state: QuoteState::Unpaid,
        unit: CurrencyUnit::Sat,
    };
    db.add_quote(&q).expect("put");
    let prev = db
        .update_quote_state(9, QuoteState::Unpaid, QuoteState::Paid)
        .expect("first transition");
    assert_eq!(prev.state, QuoteState::Unpaid);
    assert_eq!(db.get_quote(9).expect("get").state, QuoteState::Paid);
    let err = db
        .update_quote_state(9, QuoteState::Unpaid, QuoteState::Paid)
        .unwrap_err();
    match err {
        PosError::InvalidQuoteState { id, state } => {
            assert_eq!(id, 9);
            assert_eq!(state, QuoteState::Paid);
        }
        other => panic!("expected InvalidQuoteState, got {:?}", other),
    }
    assert_eq!(db.get_quote(9).expect("get").state, QuoteState::Paid);
}

#[test]
fn compare_and_set_missing_quote() {
    let mut db = fresh_db();
    assert!(matches!(
        db.update_quote_state(1, QuoteState::Unpaid, QuoteState::Paid),
        Err(PosError::QuoteNotFound(1))
    ));
}

#[test]
fn store_survives_reopen() {
    let path = format!("/tmp/cashu_pos_reopen_{}.redb", uuid::Uuid::new_v4().as_simple());
    let q = QuoteInfo {
        id: 11,
        amount: 5,
        state: QuoteState::Unpaid,
        unit: CurrencyUnit::Sat,
    };
    {
        let mut db = Db::new(&path).expect("open");
        db.add_quote(&q).expect("put");
    }
    let db = Db::new(&path).expect("reopen is idempotent");
    assert_eq!(db.get_quote(11).expect("get"), q);
}

#[test]
fn status_codes_follow_the_taxonomy() {
    assert_eq!(PosError::InvalidUuid(String::new()).status_code(), 400);
    assert_eq!(PosError::InvalidAmount(String::new()).status_code(), 400);
    assert_eq!(
        PosError::InvalidChannelSize { size: 1, min: 2, max: 3 }.status_code(),
        400
    );
    assert_eq!(PosError::UnsupportedMint(String::new()).status_code(), 400);
    assert_eq!(
        PosError::UnsupportedCurrencyUnit { given: String::new(), allowed: vec![] }.status_code(),
        400
    );
    assert_eq!(
        PosError::InvalidQuoteState { id: 0, state: QuoteState::Paid }.status_code(),
        400
    );
    assert_eq!(
        PosError::InsufficientPayment { expected: 2, received: 1 }.status_code(),
        400
    );
    assert_eq!(PosError::QuoteNotFound(0).status_code(), 404);
    assert_eq!(PosError::DatabaseError(String::new()).status_code(), 500);
    assert_eq!(PosError::DeserializationError.status_code(), 500);
    assert_eq!(PosError::ChannelOpenError(String::new()).status_code(), 500);
    assert_eq!(PosError::WalletError(String::new()).status_code(), 500);
    assert_eq!(
        PosError::ProofVerificationError(String::new()).status_code(),
        500
    );
    assert_eq!(PosError::InternalError(String::new()).status_code(), 500);
}
