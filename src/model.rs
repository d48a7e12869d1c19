use vstd::prelude::*;

verus! {

/// What a caller asks for: move `amount_lamports` from `payer` to `recipient`.
pub struct PaymentRequest {
    pub amount_lamports: u64,
    pub recipient: String,
    pub payer: String,
}

/// What a caller is told about a submitted payment.
pub struct PaymentResponse {
    pub signature: String,
    pub success: bool,
    pub message: String,
}

/// The durability record of one transaction signature, in its flat external shape.
pub struct TransactionStatus {
    pub signature: String,
    pub confirmed: bool,
    pub finalized: bool,
    pub error: Option<String>,
}

/// Mathematical view of a `TransactionStatus`.
pub struct StatusView {
    pub signature: Seq<char>,
    pub confirmed: bool,
    pub finalized: bool,
    pub error: Option<Seq<char>>,
}

pub open spec fn opt_string_view(s: Option<String>) -> Option<Seq<char>> {
    match s {
        Some(t) => Some(t@),
        None => None,
    }
}

impl View for TransactionStatus {
    type V = StatusView;

    open spec fn view(&self) -> StatusView {
        StatusView {
            signature: self.signature@,
            confirmed: self.confirmed,
            finalized: self.finalized,
            error: opt_string_view(self.error),
        }
    }
}

impl StatusView {
    /// A status never claims finality without confirmation, nor finality of a
    /// transaction that the ledger rejected.
    pub open spec fn consistent(self) -> bool {
        &&& self.finalized ==> self.confirmed
        &&& self.error is Some ==> self.confirmed && !self.finalized
    }
}

/// The tri-state durability of a transaction as the ledger reports it.
pub enum LedgerStatus {
    /// The ledger has not seen the signature.
    Unseen,
    /// Seen, but execution failed with the given details.
    Rejected(String),
    /// Seen and accepted; `true` once it is also finalized.
    Accepted(bool),
}

/// The flat record that a ledger status stands for.
pub open spec fn flat_view(s: LedgerStatus, signature: Seq<char>) -> StatusView {
    match s {
        LedgerStatus::Unseen => StatusView {
            signature,
            confirmed: false,
            finalized: false,
            error: None,
        },
        LedgerStatus::Rejected(e) => StatusView {
            signature,
            confirmed: true,
            finalized: false,
            error: Some(e@),
        },
        LedgerStatus::Accepted(fin) => StatusView {
            signature,
            confirmed: true,
            finalized: fin,
            error: None,
        },
    }
}

impl LedgerStatus {
    /// Flattens into the external record for `signature`.
    pub fn to_status(self, signature: &str) -> (r: TransactionStatus)
        ensures
            r@ == flat_view(self, signature@),
            r@.consistent(),
    {
        let sig = signature.to_owned();
        match self {
            LedgerStatus::Unseen => TransactionStatus {
                signature: sig,
                confirmed: false,
                finalized: false,
                error: None,
            },
            LedgerStatus::Rejected(e) => TransactionStatus {
                signature: sig,
                confirmed: true,
                finalized: false,
                error: Some(e),
            },
            LedgerStatus::Accepted(fin) => TransactionStatus {
                signature: sig,
                confirmed: true,
                finalized: fin,
                error: None,
            },
        }
    }
}

/// Which address of a transfer was malformed.
#[derive(Clone, Copy, Debug, PartialEq, Eq, Structural)]
pub enum AddressField {
    Recipient,
    Payer,
    Account,
}

/// Failures surfaced to callers; none is retried or suppressed.
#[derive(Clone, Copy, Debug, PartialEq, Eq, Structural)]
pub enum PaymentError {
    /// An address string is not a valid account address encoding.
    AddressFormat(AddressField),
    /// A signature string is not a valid signature encoding.
    SignatureFormat,
    /// The ledger could not be reached or did not answer.
    LedgerUnavailable,
    /// The unsigned transaction could not be serialized.
    Encoding,
}

} // verus!
