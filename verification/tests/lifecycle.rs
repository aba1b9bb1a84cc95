use cashu_pos::db::Db;
use cashu_pos::error::PosError;
use cashu_pos::pos_server::{
    get_channel_quote, get_quote_state, settle_commit, settle_prepare, CashuPosState,
};
use cashu_pos::types::{CashuPosInfo, CurrencyUnit, QuoteState};

const MINT: &str = "https://mint.example.com";

fn fresh_state() -> CashuPosState {
    let path = format!("/tmp/cashu_pos_test_{}.redb", uuid::Uuid::new_v4().as_simple());
    let db = Db::new(&path).expect("open store");
    CashuPosState {
        payment_url: String::from("http://127.0.0.1:3000/payment"),
        db,
        cashu_pos_info: CashuPosInfo {
            accepted_mints: vec![String::from(MINT)],
        },
    }
}

fn id_str(id: u128) -> String {
    uuid::Uuid::from_u128(id).to_string()
}

#[test]
fn created_quote_is_readable_unpaid() {
    let mut state = fresh_state();
    let amount = String::from("250");
    let unit = String::from("usd");
    let resp = get_channel_quote(&mut state, Some(&amount), Some(&unit)).expect("create");
    assert!(resp.payment_request.starts_with("creq"));
    let check = get_quote_state(&state, &id_str(resp.checking_id)).expect("check");
    assert_eq!(check.id, resp.checking_id);
    assert_eq!(check.state, QuoteState::Unpaid);
    let quote = state.db.get_quote(resp.checking_id).expect("get");
    assert_eq!(quote.amount, 250);
    assert_eq!(quote.unit, CurrencyUnit::Usd);
    assert_eq!(quote.state, QuoteState::Unpaid);
}

#[test]
fn create_defaults_to_sat() {
    let mut state = fresh_state();
    let amount = String::from("100");
    let resp = get_channel_quote(&mut state, Some(&amount), None).expect("create");
    let quote = state.db.get_quote(resp.checking_id).expect("get");
    assert_eq!(quote.amount, 100);
    assert_eq!(quote.unit, CurrencyUnit::Sat);
    assert_eq!(quote.state, QuoteState::Unpaid);
}

#[test]
fn unsupported_unit_rejected_nothing_persisted() {
    let mut state = fresh_state();
    let amount = String::from("100");
    let unit = String::from("eur");
    let err = get_channel_quote(&mut state, Some(&amount), Some(&unit)).unwrap_err();
    match err {
        PosError::UnsupportedCurrencyUnit { given, allowed } => {
            assert_eq!(given, "eur");
            assert_eq!(allowed, vec![CurrencyUnit::Sat, CurrencyUnit::Usd]);
        }
        other => panic!("expected UnsupportedCurrencyUnit, got {:?}", other),
    }
}

#[test]
fn missing_amount_rejected() {
    let mut state = fresh_state();
    let err = get_channel_quote(&mut state, None, None).unwrap_err();
    match &err {
        PosError::InvalidAmount(s) => assert_eq!(s, "missing"),
        other => panic!("expected InvalidAmount, got {:?}", other),
    }
    assert_eq!(err.status_code(), 400);
}

#[test]
fn malformed_identifier_is_bad_request_never_not_found() {
    let state = fresh_state();
    let err = get_quote_state(&state, "not-a-uuid").unwrap_err();
    match &err {
        PosError::InvalidUuid(s) => assert_eq!(s, "not-a-uuid"),
        other => panic!("expected InvalidUuid, got {:?}", other),
    }
    assert_eq!(err.status_code(), 400);
}

#[test]
fn unknown_quote_is_not_found() {
    let state = fresh_state();
    let err = get_quote_state(&state, &id_str(42)).unwrap_err();
    assert!(matches!(err, PosError::QuoteNotFound(42)));
    assert_eq!(err.status_code(), 404);
}

#[test]
fn full_payment_scenario() {
    let mut state = fresh_state();
    let amount = String::from("100");
    let resp = get_channel_quote(&mut state, Some(&amount), None).expect("create");
    let id = id_str(resp.checking_id);
    assert_eq!(
        get_quote_state(&state, &id).expect("check").state,
        QuoteState::Unpaid
    );
    let mint = String::from(MINT);
    let plan = settle_prepare(&state, &mint, Some(&id), &vec![60, 40]).expect("prepare");
    assert_eq!(plan.received, 100);
    assert_eq!(plan.quote.amount, 100);
    settle_commit(&mut state, plan.quote_id).expect("commit");
    assert_eq!(
        get_quote_state(&state, &id).expect("check").state,
        QuoteState::Paid
    );
}

#[test]
fn insufficient_payment_rejected_without_state_change() {
    let mut state = fresh_state();
    let amount = String::from("100");
    let resp = get_channel_quote(&mut state, Some(&amount), None).expect("create");
    let id = id_str(resp.checking_id);
    let mint = String::from(MINT);
    let err = settle_prepare(&state, &mint, Some(&id), &vec![99]).unwrap_err();
    match err {
        PosError::InsufficientPayment { expected, received } => {
            assert_eq!(expected, 100);
            assert_eq!(received, 99);
        }
        other => panic!("expected InsufficientPayment, got {:?}", other),
    }
    assert_eq!(
        get_quote_state(&state, &id).expect("check").state,
        QuoteState::Unpaid
    );
}

#[test]
fn second_settlement_is_idempotent() {
    let mut state = fresh_state();
    let amount = String::from("100");
    let resp = get_channel_quote(&mut state, Some(&amount), None).expect("create");
    let id = id_str(resp.checking_id);
    let mint = String::from(MINT);
    let plan = settle_prepare(&state, &mint, Some(&id), &vec![100]).expect("prepare");
    settle_commit(&mut state, plan.quote_id).expect("first commit");
    settle_commit(&mut state, plan.quote_id).expect("second commit succeeds idempotently");
    assert_eq!(
        get_quote_state(&state, &id).expect("check").state,
        QuoteState::Paid
    );
    let err = state
        .db
        .update_quote_state(resp.checking_id, QuoteState::Unpaid, QuoteState::Paid)
        .unwrap_err();
    assert!(matches!(
        err,
        PosError::InvalidQuoteState {
            state: QuoteState::Paid,
            ..
        }
    ));
}

#[test]
fn settled_quote_reports_state_conflict_before_amount() {
    let mut state = fresh_state();
    let amount = String::from("100");
    let resp = get_channel_quote(&mut state, Some(&amount), None).expect("create");
    let id = id_str(resp.checking_id);
    let mint = String::from(MINT);
    let plan = settle_prepare(&state, &mint, Some(&id), &vec![100]).expect("prepare");
    settle_commit(&mut state, plan.quote_id).expect("commit");
    let err = settle_prepare(&state, &mint, Some(&id), &vec![1]).unwrap_err();
    assert!(matches!(
        err,
        PosError::InvalidQuoteState {
            state: QuoteState::Paid,
            ..
        }
    ));
}

#[test]
fn unsupported_mint_rejected() {
    let mut state = fresh_state();
    let amount = String::from("100");
    let resp = get_channel_quote(&mut state, Some(&amount), None).expect("create");
    let id = id_str(resp.checking_id);
    let mint = String::from("https://other.example.com");
    let err = settle_prepare(&state, &mint, Some(&id), &vec![100]).unwrap_err();
    match &err {
        PosError::UnsupportedMint(m) => assert_eq!(m, "https://other.example.com"),
        other => panic!("expected UnsupportedMint, got {:?}", other),
    }
    assert_eq!(err.status_code(), 400);
}

#[test]
fn missing_payment_id_rejected() {
    let state = fresh_state();
    let mint = String::from(MINT);
    let err = settle_prepare(&state, &mint, None, &vec![100]).unwrap_err();
    assert!(matches!(err, PosError::InvalidUuid(_)));
}

#[test]
fn proof_sum_overflow_rejected() {
    let mut state = fresh_state();
    let amount = String::from("100");
    let resp = get_channel_quote(&mut state, Some(&amount), None).expect("create");
    let id = id_str(resp.checking_id);
    let mint = String::from(MINT);
    let err = settle_prepare(&state, &mint, Some(&id), &vec![u64::MAX, 1]).unwrap_err();
    assert!(matches!(err, PosError::InternalError(_)));
    assert_eq!(err.status_code(), 500);
}

#[test]
fn overpayment_is_accepted() {
    let mut state = fresh_state();
    let amount = String::from("100");
    let resp = get_channel_quote(&mut state, Some(&amount), None).expect("create");
    let id = id_str(resp.checking_id);
    let mint = String::from(MINT);
    let plan = settle_prepare(&state, &mint, Some(&id), &vec![150]).expect("prepare");
    assert_eq!(plan.received, 150);
}
