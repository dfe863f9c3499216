//! The errors of the plugin's Nostr operations.
use vstd::prelude::*;
use vstd::string::StringExecFns;

use crate::storage::{storage_error_text, PluginStorageError};

verus! {

/// What can go wrong while the plugin handles Nostr requests and its own records.
#[derive(Clone, Debug, PartialEq)]
pub enum NostrError {
    Generic { err: String },
    Persist { err: String },
    Network { err: String },
    InvalidSignature { err: String },
    PubkeyNotFound { pubkey: String },
    EventNotFound,
    EventExpired,
    InvoiceExpired,
    InvoiceWithoutAmount,
    MaxBudgetExceeded,
}

/// The result of a Nostr operation.
pub type NostrResult<T> = Result<T, NostrError>;

/// The text that describes an error.
pub open spec fn error_text(e: NostrError) -> Seq<char> {
    match e {
        NostrError::Generic { err } => err@,
        NostrError::Persist { err } => "Persistence error: "@ + err@,
        NostrError::Network { err } => "Network error: "@ + err@,
        NostrError::InvalidSignature { err } => "Invalid signature: "@ + err@,
        NostrError::PubkeyNotFound { pubkey } => "Public key not found: "@ + pubkey@,
        NostrError::EventNotFound => "Event not found"@,
        NostrError::EventExpired => "Event expired"@,
        NostrError::InvoiceExpired => "Invoice expired"@,
        NostrError::InvoiceWithoutAmount => "Invoice has no amount"@,
        NostrError::MaxBudgetExceeded => "Maximum budget exceeded"@,
    }
}

/// The error codes of NIP-47 responses that the plugin answers with.
#[derive(PartialEq, Eq, Structural, Clone, Copy, Debug)]
pub enum Nip47ErrorCode {
    NotFound,
    QuotaExceeded,
    PaymentFailed,
}

impl NostrError {
    /// A `Generic` error with the given text.
    pub fn generic(err: String) -> (res: Self)
        ensures
            res == (NostrError::Generic { err }),
    {
        NostrError::Generic { err }
    }

    /// A `Persist` error with the given text.
    pub fn persist(err: String) -> (res: Self)
        ensures
            res == (NostrError::Persist { err }),
    {
        NostrError::Persist { err }
    }

    /// A `Persist` error that carries the text of a storage error.
    pub fn from_storage(err: &PluginStorageError) -> (res: Self)
        ensures
            res matches NostrError::Persist { err: text } && text@ == storage_error_text(*err),
    {
        NostrError::Persist { err: err.message() }
    }

    /// The text that describes this error.
    pub fn message(&self) -> (text: String)
        ensures
            text@ == error_text(*self),
    {
        match self {
            NostrError::Generic { err } => err.clone(),
            NostrError::Persist { err } => String::from_str("Persistence error: ").concat(err.as_str()),
            NostrError::Network { err } => String::from_str("Network error: ").concat(err.as_str()),
            NostrError::InvalidSignature { err } => String::from_str("Invalid signature: ").concat(err.as_str()),
            NostrError::PubkeyNotFound { pubkey } => String::from_str("Public key not found: ").concat(pubkey.as_str()),
            NostrError::EventNotFound => String::from_str("Event not found"),
            NostrError::EventExpired => String::from_str("Event expired"),
            NostrError::InvoiceExpired => String::from_str("Invoice expired"),
            NostrError::InvoiceWithoutAmount => String::from_str("Invoice has no amount"),
            NostrError::MaxBudgetExceeded => String::from_str("Maximum budget exceeded"),
        }
    }

    /// The NIP-47 error code that a response carries for this error: `NotFound` for an unknown
    /// public key or event, `QuotaExceeded` for an exceeded budget, `PaymentFailed` otherwise.
    pub fn nip47_code(&self) -> (code: Nip47ErrorCode)
        ensures
            code == match *self {
                NostrError::PubkeyNotFound { .. } | NostrError::EventNotFound => Nip47ErrorCode::NotFound,
                NostrError::MaxBudgetExceeded => Nip47ErrorCode::QuotaExceeded,
                _ => Nip47ErrorCode::PaymentFailed,
            },
    {
        match self {
            NostrError::PubkeyNotFound { .. } | NostrError::EventNotFound => Nip47ErrorCode::NotFound,
            NostrError::MaxBudgetExceeded => Nip47ErrorCode::QuotaExceeded,
            _ => Nip47ErrorCode::PaymentFailed,
        }
    }
}

} // verus!
