//! The quote lifecycle manager: creates quotes, answers state checks, and
//! settles payments against the durable store.
//!
//! Settlement is split in two: `settle_prepare` validates a submission
//! against the outstanding quote without touching the store, and
//! `settle_commit` performs the one allowed state transition after the
//! external collaborator has redeemed the proofs. The caller runs the
//! redemption between the two.

use vstd::prelude::*;
use core::str::FromStr;
use cashu::{MintUrl, PaymentRequest, Transport, TransportType};
use crate::codec::{decode_quote_spec, encode_quote_spec, spec_key, unit_tag};
use crate::codec::lemma_quote_roundtrip;
use crate::db::Db;
use crate::error::PosError;
use crate::types::{CashuPosInfo, CurrencyUnit, QuoteInfo, QuoteState};
use crate::validate::{
    dec_val, parse_amount, parse_identifier, parse_unit, unit_of_str, uuid_value_of, valid_amount,
};

verus! {

/// Everything a running gateway holds: the callback target for payment
/// requests, the accepted-mint list, and the durable quote store.
pub struct CashuPosState {
    pub payment_url: String,
    pub db: Db,
    pub cashu_pos_info: CashuPosInfo,
}

/// Reply to a quote-creation request: the identifier to poll, and the
/// serialized payment request descriptor handed to the payer.
#[derive(Debug)]
pub struct ChannelQuoteResponse {
    pub checking_id: u128,
    pub payment_request: String,
}

/// Reply to a state check.
#[derive(Debug)]
pub struct QuoteStateResponse {
    pub id: u128,
    pub state: QuoteState,
}

/// What a validated settlement submission carries forward: the parsed
/// quote identifier, the quote it targets, and the summed face value of
/// the submitted proofs.
#[derive(Debug)]
pub struct SettlePlan {
    pub quote_id: u128,
    pub quote: QuoteInfo,
    pub received: u64,
}

/// The character sequences of a sequence of strings.
pub open spec fn mints_view(s: Seq<String>) -> Seq<Seq<char>> {
    s.map_values(|x: String| x@)
}

/// The view of an optional string parameter.
pub open spec fn view_opt(o: Option<&String>) -> Option<Seq<char>> {
    match o {
        Some(s) => Some(s@),
        None => None,
    }
}

/// The amount a creation request denotes: present exactly where the
/// parameter is given and is a valid positive 64-bit decimal.
pub open spec fn create_amount(a: Option<Seq<char>>) -> Option<u64> {
    match a {
        Some(s) => if valid_amount(s) {
            Some(dec_val(s) as u64)
        } else {
            None
        },
        None => None,
    }
}

/// The unit a creation request denotes: the base unit where the
/// parameter is omitted, the named unit where it is in the allowed set.
pub open spec fn create_unit(u: Option<Seq<char>>) -> Option<CurrencyUnit> {
    match u {
        Some(s) => unit_of_str(s),
        None => Some(CurrencyUnit::Sat),
    }
}

/// Whether a mint is on the accepted list.
pub open spec fn mint_accepted(info: CashuPosInfo, m: Seq<char>) -> bool {
    mints_view(info.accepted_mints@).contains(m)
}

/// The sum of the submitted proofs' face values.
pub open spec fn sum_amounts(s: Seq<u64>) -> nat
    decreases s.len(),
{
    if s.len() == 0 {
        0
    } else {
        sum_amounts(s.drop_last()) + s.last() as nat
    }
}

/// The quote with its state replaced.
pub open spec fn with_state(q: QuoteInfo, st: QuoteState) -> QuoteInfo {
    QuoteInfo { id: q.id, amount: q.amount, unit: q.unit, state: st }
}

/// The unpaid quote stored under `id`, if any.
pub open spec fn unpaid_quote_at(m: Map<Seq<u8>, Seq<u8>>, id: u128) -> Option<QuoteInfo> {
    if m.contains_key(spec_key(id)) {
        match decode_quote_spec(m[spec_key(id)]) {
            Some(q) => if q.state == QuoteState::Unpaid {
                Some(q)
            } else {
                None
            },
            None => None,
        }
    } else {
        None
    }
}

/// The store contents after settling the quote `id`: where an unpaid
/// quote stands its record is rewritten with state `Paid`, and nothing
/// else changes; where none stands the contents are untouched.
pub open spec fn mark_paid(m: Map<Seq<u8>, Seq<u8>>, id: u128) -> Map<Seq<u8>, Seq<u8>> {
    match unpaid_quote_at(m, id) {
        Some(q) => m.insert(spec_key(id), encode_quote_spec(with_state(q, QuoteState::Paid))),
        None => m,
    }
}

/// The canonical text of a 128-bit identifier.
pub uninterp spec fn uuid_text_of(id: u128) -> Seq<char>;

/// Relies on uuid's hyphenated formatting: the text of an identifier
/// depends on its 128 bits alone.
#[verifier::external_body]
fn uuid_format(id: u128) -> (r: String)
    ensures
        r@ == uuid_text_of(id),
{
    uuid::Uuid::from_u128(id).to_string()
}

/// The encoded payment request descriptor that a payment identifier
/// text, amount, unit tag, mint list and callback target determine.
pub uninterp spec fn payment_request_of(
    pid: Seq<char>,
    amount: u64,
    unit: u8,
    mints: Seq<Seq<char>>,
    target: Seq<char>,
) -> Seq<char>;

/// Whether a string parses as a well-formed mint URL; this depends on
/// the characters alone.
pub uninterp spec fn mint_url_ok(s: Seq<char>) -> bool;

/// Relies on cashu's TransportBuilder and PaymentRequestBuilder: builds a
/// single-use payment request scoped to the accepted mints, carrying an
/// HTTP-POST callback transport, and serializes it; the encoding depends
/// on the arguments alone. Fails only where a mint entry is not a
/// well-formed mint URL, so it succeeds whenever every mint entry
/// parses: the transport build cannot fail, since its type and target
/// are both set, and serializing the built request cannot fail either.
#[verifier::external_body]
fn build_payment_request(pid: &String, amount: u64, unit: &CurrencyUnit, mints: &Vec<String>, target: &String) -> (r: Result<String, PosError>)
    ensures
        r matches Ok(s) ==> s@ == payment_request_of(pid@, amount, unit_tag(*unit), mints_view(mints@), target@),
        (forall|i: int| 0 <= i < mints@.len() ==> mint_url_ok(mints@[i]@)) ==> r is Ok,
        r matches Err(e) ==> e matches PosError::InternalError(_),
{
    let urls: Result<Vec<MintUrl>, _> = mints.iter().map(|m| MintUrl::from_str(m)).collect();
    let urls = urls.map_err(|e| PosError::InternalError(e.to_string()))?;
    let t = Transport::builder().transport_type(TransportType::HttpPost).target(target.clone()).build();
    let t = t.map_err(|e| PosError::InternalError(e.to_string()))?;
    let u = if matches!(unit, CurrencyUnit::Sat) { cashu::CurrencyUnit::Sat } else { cashu::CurrencyUnit::Usd };
    Ok(PaymentRequest::builder().payment_id(pid.clone()).amount(amount).unit(u).single_use(true).mints(urls).add_transport(t).build().to_string())
}

/// Relies on uuid::Uuid::new_v4: a freshly drawn random identifier;
/// nothing is assumed of its value.
#[verifier::external_body]
fn uuid_generate() -> (r: u128) {
    uuid::Uuid::new_v4().as_u128()
}

/// Whether `m` occurs among `mints`.
fn contains_mint(mints: &Vec<String>, m: &String) -> (r: bool)
    ensures
        r == mints_view(mints@).contains(m@),
{
    let n = mints.len();
    let mut i: usize = 0;
    while i < n
        invariant
            0 <= i <= n,
            n == mints@.len(),
            forall|j: int| 0 <= j < i ==> mints@[j]@ != m@,
        decreases n - i,
    {
        if mints[i].eq(m) {
            proof {
                assert(mints_view(mints@)[i as int] == m@);
            }
            return true;
        }
        i = i + 1;
    }
    proof {
        assert(forall|j: int| 0 <= j < mints@.len() ==> mints_view(mints@)[j] != m@);
    }
    false
}

/// The sum of a prefix never exceeds the sum of the whole sequence.
proof fn lemma_sum_prefix_monotone(s: Seq<u64>, i: int, j: int)
    requires
        0 <= i <= j <= s.len(),
    ensures
        sum_amounts(s.subrange(0, i)) <= sum_amounts(s.subrange(0, j)),
    decreases j - i,
{
    if i < j {
        lemma_sum_prefix_monotone(s, i, j - 1);
        let p = s.subrange(0, j);
        assert(p.drop_last() =~= s.subrange(0, j - 1));
    }
}

/// Sums the submitted proofs' face values, detecting overflow exactly.
pub fn sum_proof_amounts(v: &Vec<u64>) -> (r: Option<u64>)
    ensures
        r matches Some(t) ==> t == sum_amounts(v@) && sum_amounts(v@) <= u64::MAX,
        r is None ==> sum_amounts(v@) > u64::MAX,
{
    let n = v.len();
    let mut acc: u64 = 0;
    let mut i: usize = 0;
    while i < n
        invariant
            0 <= i <= n,
            n == v@.len(),
            acc == sum_amounts(v@.subrange(0, i as int)),
        decreases n - i,
    {
        let x = v[i];
        proof {
            let p = v@.subrange(0, i as int + 1);
            assert(p.drop_last() =~= v@.subrange(0, i as int));
            assert(p.last() == v@[i as int]);
        }
        if acc > u64::MAX - x {
            proof {
                lemma_sum_prefix_monotone(v@, i as int + 1, n as int);
                assert(v@.subrange(0, n as int) =~= v@);
            }
            return None;
        }
        acc = acc + x;
        i = i + 1;
    }
    proof {
        assert(v@.subrange(0, n as int) =~= v@);
    }
    Some(acc)
}

/// Serves a quote-creation request: validates the amount and unit,
/// draws a fresh identifier, builds the payment request descriptor, and
/// persists the new quote as `Unpaid`. On any failure nothing is
/// persisted.
pub fn get_channel_quote(
    state: &mut CashuPosState,
    amount: Option<&String>,
    unit: Option<&String>,
) -> (r: Result<ChannelQuoteResponse, PosError>)
    ensures
        final(state).payment_url@ == old(state).payment_url@,
        final(state).cashu_pos_info.accepted_mints@ == old(state).cashu_pos_info.accepted_mints@,
        r matches Ok(resp) ==> (create_amount(view_opt(amount)) matches Some(av) && (create_unit(
            view_opt(unit),
        ) matches Some(cu) && !old(state).db.stored(resp.checking_id) && final(state).db.quotes()
            == old(state).db.quotes().insert(
            spec_key(resp.checking_id),
            encode_quote_spec(
                QuoteInfo { id: resp.checking_id, amount: av, state: QuoteState::Unpaid, unit: cu },
            ),
        ) && resp.payment_request@ == payment_request_of(
            uuid_text_of(resp.checking_id),
            av,
            unit_tag(cu),
            mints_view(old(state).cashu_pos_info.accepted_mints@),
            old(state).payment_url@,
        ))),
        r matches Err(e) ==> match e {
            PosError::InvalidAmount(t) => create_amount(view_opt(amount)) is None && final(state).db.quotes() == old(state).db.quotes() && match amount {
                None => t@ == "missing"@,
                Some(a) => t@ == a@,
            },
            PosError::UnsupportedCurrencyUnit { given, allowed } => create_amount(view_opt(amount))
                is Some && final(state).db.quotes() == old(state).db.quotes() && (view_opt(unit)
                matches Some(us) && unit_of_str(us) is None && given@ == us && allowed@ == seq![
                CurrencyUnit::Sat,
                CurrencyUnit::Usd,
            ]),
            PosError::DeserializationError => create_amount(view_opt(amount)) is Some
                && create_unit(view_opt(unit)) is Some && final(state).db.quotes() == old(
                state,
            ).db.quotes(),
            PosError::InternalError(_) => create_amount(view_opt(amount)) is Some && create_unit(
                view_opt(unit),
            ) is Some && final(state).db.quotes() == old(state).db.quotes(),
            PosError::DatabaseError(_) => (create_amount(view_opt(amount)) is Some && create_unit(
                view_opt(unit),
            ) is Some) && (final(state).db.quotes() == old(state).db.quotes() || (create_amount(
                view_opt(amount),
            ) matches Some(av) && (create_unit(view_opt(unit)) matches Some(cu) && exists|
                pid: u128,
            |
                final(state).db.quotes() == old(state).db.quotes().insert(
                    spec_key(pid),
                    encode_quote_spec(
                        QuoteInfo { id: pid, amount: av, state: QuoteState::Unpaid, unit: cu },
                    ),
                )))),
            _ => false,
        },
        create_amount(view_opt(amount)) is None ==> (r matches Err(e) && e
            matches PosError::InvalidAmount(_)),
        create_amount(view_opt(amount)) is Some && create_unit(view_opt(unit)) is None ==> (r
            matches Err(e) && e matches PosError::UnsupportedCurrencyUnit { .. }),
{
    let a = match amount {
        Some(a) => a,
        None => {
            return Err(PosError::InvalidAmount("missing".to_owned()));
        },
    };
    let amount_val = match parse_amount(a.as_str()) {
        Ok(v) => v,
        Err(e) => {
            return Err(e);
        },
    };
    let unit_val = match unit {
        Some(u) => match parse_unit(u.as_str()) {
            Ok(v) => v,
            Err(e) => {
                return Err(e);
            },
        },
        None => CurrencyUnit::Sat,
    };
    let payment_id = uuid_generate();
    match state.db.get_quote(payment_id) {
        Ok(_) => {
            return Err(PosError::InternalError("identifier collision".to_owned()));
        },
        Err(PosError::QuoteNotFound(_)) => {},
        Err(e) => {
            return Err(e);
        },
    }
    let pid_text = uuid_format(payment_id);
    let payment_request = match build_payment_request(
        &pid_text,
        amount_val,
        &unit_val,
        &state.cashu_pos_info.accepted_mints,
        &state.payment_url,
    ) {
        Ok(s) => s,
        Err(e) => {
            return Err(e);
        },
    };
    let quote = QuoteInfo {
        id: payment_id,
        amount: amount_val,
        state: QuoteState::Unpaid,
        unit: unit_val,
    };
    match state.db.add_quote(&quote) {
        Ok(_) => {},
        Err(e) => {
            proof {
                if state.db.quotes() != old(state).db.quotes() {
                    assert(state.db.quotes() == old(state).db.quotes().insert(
                        spec_key(payment_id),
                        encode_quote_spec(quote),
                    ));
                    assert(exists|pid: u128|
                        state.db.quotes() == old(state).db.quotes().insert(
                            spec_key(pid),
                            encode_quote_spec(
                                QuoteInfo {
                                    id: pid,
                                    amount: amount_val,
                                    state: QuoteState::Unpaid,
                                    unit: unit_val,
                                },
                            ),
                        ));
                }
            }
            return Err(e);
        },
    }
    Ok(ChannelQuoteResponse { checking_id: payment_id, payment_request })
}

/// Serves a state check: parses the identifier and reads the quote.
/// A malformed identifier is always rejected as `InvalidUuid`, never as
/// anything else.
pub fn get_quote_state(state: &CashuPosState, id: &str) -> (r: Result<QuoteStateResponse, PosError>)
    ensures
        r matches Ok(resp) ==> (uuid_value_of(id@) matches Some(pid) && state.db.stored(pid) && (
        state.db.record_at(pid) matches Some(q) && resp.id == q.id && resp.state == q.state)),
        uuid_value_of(id@) is None ==> (r matches Err(e) && e matches PosError::InvalidUuid(t) && t@
            == id@),
        r matches Err(e) ==> match e {
            PosError::InvalidUuid(t) => uuid_value_of(id@) is None && t@ == id@,
            PosError::QuoteNotFound(i) => uuid_value_of(id@) == Some(i) && !state.db.stored(i),
            PosError::DeserializationError => (uuid_value_of(id@) matches Some(pid) && state.db.stored(
                pid,
            ) && state.db.record_at(pid) is None),
            PosError::DatabaseError(_) => uuid_value_of(id@) is Some,
            _ => false,
        },
{
    let pid = match parse_identifier(id) {
        Ok(v) => v,
        Err(e) => {
            return Err(e);
        },
    };
    let quote = match state.db.get_quote(pid) {
        Ok(q) => q,
        Err(e) => {
            return Err(e);
        },
    };
    Ok(QuoteStateResponse { id: quote.id, state: quote.state })
}

/// Validates a payment submission against the outstanding quote, without
/// touching the store: the mint must be accepted, the identifier well
/// formed, the quote present and still `Unpaid`, and the submitted face
/// values must sum to at least the quote's amount. The state is checked
/// before the amount, so a settled quote is always reported as a state
/// conflict, whatever amount was submitted.
pub fn settle_prepare(
    state: &CashuPosState,
    mint: &String,
    claimed_id: Option<&String>,
    proof_amounts: &Vec<u64>,
) -> (r: Result<SettlePlan, PosError>)
    ensures
        r matches Ok(plan) ==> (mint_accepted(state.cashu_pos_info, mint@) && (view_opt(claimed_id)
            matches Some(ids) && uuid_value_of(ids) == Some(plan.quote_id)) && state.db.stored(
            plan.quote_id,
        ) && state.db.record_at(plan.quote_id) == Some(plan.quote) && plan.quote.state
            == QuoteState::Unpaid && plan.received == sum_amounts(proof_amounts@) && sum_amounts(
            proof_amounts@,
        ) <= u64::MAX && plan.received >= plan.quote.amount),
        r matches Err(e) ==> match e {
            PosError::UnsupportedMint(t) => t@ == mint@ && !mint_accepted(
                state.cashu_pos_info,
                mint@,
            ),
            PosError::InvalidUuid(t) => mint_accepted(state.cashu_pos_info, mint@) && match claimed_id {
                None => t@ == "missing"@,
                Some(s) => uuid_value_of(s@) is None && t@ == s@,
            },
            PosError::QuoteNotFound(i) => (view_opt(claimed_id) matches Some(ids)
                && uuid_value_of(ids) == Some(i)) && !state.db.stored(i),
            PosError::DeserializationError => (view_opt(claimed_id) matches Some(ids)
                && uuid_value_of(ids) matches Some(pid) && state.db.stored(pid)
                && state.db.record_at(pid) is None),
            PosError::InvalidQuoteState { id: i, state: st } => (view_opt(claimed_id)
                matches Some(ids) && uuid_value_of(ids) == Some(i)) && state.db.stored(i) && (
            state.db.record_at(i) matches Some(q) && q.state == st && st != QuoteState::Unpaid),
            PosError::InternalError(_) => sum_amounts(proof_amounts@) > u64::MAX,
            PosError::InsufficientPayment { expected, received } => ((view_opt(claimed_id)
                matches Some(ids) && uuid_value_of(ids) matches Some(pid) && state.db.stored(pid)
                && (state.db.record_at(pid) matches Some(q) && q.state == QuoteState::Unpaid
                && expected == q.amount)) && received == sum_amounts(proof_amounts@) && received
                < expected),
            PosError::DatabaseError(_) => mint_accepted(state.cashu_pos_info, mint@),
            _ => false,
        },
        !mint_accepted(state.cashu_pos_info, mint@) ==> (r matches Err(e) && e
            matches PosError::UnsupportedMint(_)),
        mint_accepted(state.cashu_pos_info, mint@) && (claimed_id is None || (view_opt(claimed_id)
            matches Some(ids) && uuid_value_of(ids) is None)) ==> (r matches Err(e) && e
            matches PosError::InvalidUuid(_)),
{
    if !contains_mint(&state.cashu_pos_info.accepted_mints, mint) {
        return Err(PosError::UnsupportedMint(mint.clone()));
    }
    let ids = match claimed_id {
        Some(s) => s,
        None => {
            return Err(PosError::InvalidUuid("missing".to_owned()));
        },
    };
    let pid = match parse_identifier(ids.as_str()) {
        Ok(v) => v,
        Err(e) => {
            return Err(e);
        },
    };
    let quote = match state.db.get_quote(pid) {
        Ok(q) => q,
        Err(e) => {
            return Err(e);
        },
    };
    if quote.state != QuoteState::Unpaid {
        return Err(PosError::InvalidQuoteState { id: pid, state: quote.state });
    }
    let received = match sum_proof_amounts(proof_amounts) {
        Some(t) => t,
        None => {
            return Err(PosError::InternalError("proof amounts overflow".to_owned()));
        },
    };
    if received < quote.amount {
        return Err(PosError::InsufficientPayment { expected: quote.amount, received });
    }
    Ok(SettlePlan { quote_id: pid, quote: quote, received: received })
}

/// Commits a settlement: the one allowed `Unpaid` to `Paid` transition,
/// through the store's compare-and-set. A quote already `Paid` is
/// treated as settled and reported as success without any further
/// change, so the caller that lost a settlement race does not error.
/// No failure changes the store, except a storage failure in the commit
/// itself, after which the store holds either its old contents or
/// exactly the settled record.
pub fn settle_commit(state: &mut CashuPosState, quote_id: u128) -> (r: Result<(), PosError>)
    ensures
        final(state).payment_url@ == old(state).payment_url@,
        final(state).cashu_pos_info.accepted_mints@ == old(state).cashu_pos_info.accepted_mints@,
        r matches Ok(_) ==> final(state).db.quotes() == mark_paid(
            old(state).db.quotes(),
            quote_id,
        ) && old(state).db.stored(quote_id) && old(state).db.record_at(quote_id) is Some,
        r matches Err(e) ==> match e {
            PosError::QuoteNotFound(i) => i == quote_id && !old(state).db.stored(quote_id) && final(state).db.quotes() == old(state).db.quotes(),
            PosError::DeserializationError => old(state).db.stored(quote_id) && old(
                state,
            ).db.record_at(quote_id) is None && final(state).db.quotes() == old(state).db.quotes(),
            PosError::DatabaseError(_) => final(state).db.quotes() == old(state).db.quotes()
                || final(state).db.quotes() == mark_paid(old(state).db.quotes(), quote_id),
            _ => false,
        },
{
    match state.db.update_quote_state(quote_id, QuoteState::Unpaid, QuoteState::Paid) {
        Ok(_prev) => Ok(()),
        Err(e) => match e {
            PosError::InvalidQuoteState { id: _, state: _ } => Ok(()),
            other => Err(other),
        },
    }
}

/// A quote just created is immediately readable: under its identifier's
/// key the store then holds a record that decodes to the quote itself,
/// with the amount, unit and `Unpaid` state it was created with.
pub proof fn lemma_created_quote_readable(m: Map<Seq<u8>, Seq<u8>>, q: QuoteInfo)
    ensures
        m.insert(spec_key(q.id), encode_quote_spec(q)).contains_key(spec_key(q.id)),
        decode_quote_spec(m.insert(spec_key(q.id), encode_quote_spec(q))[spec_key(q.id)]) == Some(
            q,
        ),
{
    lemma_quote_roundtrip(q);
}

/// Settlement commits at most one transition: marking a quote paid twice
/// leaves the store exactly as marking it once did, so however many
/// settlement attempts are committed in sequence, the store records a
/// single `Unpaid` to `Paid` transition and nothing else.
pub proof fn lemma_mark_paid_idempotent(m: Map<Seq<u8>, Seq<u8>>, id: u128)
    ensures
        mark_paid(mark_paid(m, id), id) == mark_paid(m, id),
{
    let uq = unpaid_quote_at(m, id);
    if uq is Some {
        let q = uq->Some_0;
        lemma_quote_roundtrip(with_state(q, QuoteState::Paid));
    }
}

/// Settling one quote has no observable side effect beyond that quote's
/// own transition: every other key of the store keeps exactly the record
/// it had, present or absent as before. So however many quotes are
/// settled, each settlement touches its own row alone.
pub proof fn lemma_mark_paid_frames_other_keys(m: Map<Seq<u8>, Seq<u8>>, id: u128, k: Seq<u8>)
    requires
        k != spec_key(id),
    ensures
        mark_paid(m, id).contains_key(k) == m.contains_key(k),
        m.contains_key(k) ==> mark_paid(m, id)[k] == m[k],
{
}

} // verus!
