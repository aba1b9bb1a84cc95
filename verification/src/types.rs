//! Core data model: quotes, their lifecycle states, and currency units.

use vstd::prelude::*;

verus! {

/// Lifecycle state of a quote. A quote starts `Unpaid` and transitions
/// exactly once to `Paid`; no further transitions exist.
#[derive(Clone, Copy, Debug, PartialEq, Eq, Structural)]
pub enum QuoteState {
    Unpaid,
    Paid,
}

/// Currency unit of a quote. Exactly two units are supported: the base
/// unit (satoshi) and one fiat-pegged unit (US dollar cents).
#[derive(Clone, Copy, Debug, PartialEq, Eq, Structural)]
pub enum CurrencyUnit {
    Sat,
    Usd,
}

/// A payment obligation: a fixed amount in a fixed unit, identified by a
/// unique 128-bit identifier, tracked through its lifecycle state.
/// The `(id, amount, unit)` triple never changes after creation.
#[derive(Clone, Copy, Debug, PartialEq, Eq, Structural)]
pub struct QuoteInfo {
    pub id: u128,
    pub amount: u64,
    pub state: QuoteState,
    pub unit: CurrencyUnit,
}

/// Body of a quote-creation request.
#[derive(Clone, Copy, Debug)]
pub struct ChannelQuoteRequest {
    pub amount: u64,
}

/// Static gateway configuration: which mints are accepted as payment issuers.
#[derive(Clone, Debug)]
pub struct CashuPosInfo {
    pub accepted_mints: Vec<String>,
}

} // verus!
