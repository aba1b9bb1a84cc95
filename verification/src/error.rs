//! Error taxonomy of the gateway, and its mapping to HTTP status classes.

use vstd::prelude::*;
use crate::types::{CurrencyUnit, QuoteState};

verus! {

/// Everything that can go wrong while serving a gateway request.
#[derive(Clone, Debug)]
pub enum PosError {
    /// A quote identifier that does not parse.
    InvalidUuid(String),
    /// A well-formed identifier with no quote behind it.
    QuoteNotFound(u128),
    /// An amount that does not parse, or is not positive.
    InvalidAmount(String),
    /// A requested channel size outside the allowed range.
    InvalidChannelSize { size: u64, min: u64, max: u64 },
    /// A payment from a mint that is not on the accepted list.
    UnsupportedMint(String),
    /// A currency unit outside the allowed set.
    UnsupportedCurrencyUnit { given: String, allowed: Vec<CurrencyUnit> },
    /// A settlement attempt against a quote that is not `Unpaid`.
    InvalidQuoteState { id: u128, state: QuoteState },
    /// Submitted proofs whose face values sum below the quote's amount.
    InsufficientPayment { expected: u64, received: u64 },
    /// The backing store failed to read or write.
    DatabaseError(String),
    /// A stored record that does not decode as a quote.
    DeserializationError,
    /// A channel could not be opened.
    ChannelOpenError(String),
    /// No wallet is configured for the given mint and unit.
    WalletError(String),
    /// The external collaborator rejected the submitted proofs.
    ProofVerificationError(String),
    /// Anything unexpected.
    InternalError(String),
}

/// The HTTP status class each error maps to: malformed or conflicting
/// input is the caller's fault, an unknown quote is absent, and storage
/// or upstream failures are the server's fault.
pub open spec fn status_code_spec(e: PosError) -> u16 {
    match e {
        PosError::InvalidUuid(_) => 400,
        PosError::InvalidAmount(_) => 400,
        PosError::InvalidChannelSize { .. } => 400,
        PosError::UnsupportedMint(_) => 400,
        PosError::UnsupportedCurrencyUnit { .. } => 400,
        PosError::InvalidQuoteState { .. } => 400,
        PosError::InsufficientPayment { .. } => 400,
        PosError::QuoteNotFound(_) => 404,
        PosError::DatabaseError(_) => 500,
        PosError::DeserializationError => 500,
        PosError::ChannelOpenError(_) => 500,
        PosError::WalletError(_) => 500,
        PosError::ProofVerificationError(_) => 500,
        PosError::InternalError(_) => 500,
    }
}

impl PosError {
    /// The HTTP status code this error is reported with.
    pub fn status_code(&self) -> (c: u16)
        ensures
            c == status_code_spec(*self),
    {
        match self {
            PosError::InvalidUuid(_) => 400,
            PosError::InvalidAmount(_) => 400,
            PosError::InvalidChannelSize { .. } => 400,
            PosError::UnsupportedMint(_) => 400,
            PosError::UnsupportedCurrencyUnit { .. } => 400,
            PosError::InvalidQuoteState { .. } => 400,
            PosError::InsufficientPayment { .. } => 400,
            PosError::QuoteNotFound(_) => 404,
            PosError::DatabaseError(_) => 500,
            PosError::DeserializationError => 500,
            PosError::ChannelOpenError(_) => 500,
            PosError::WalletError(_) => 500,
            PosError::ProofVerificationError(_) => 500,
            PosError::InternalError(_) => 500,
        }
    }
}

} // verus!
