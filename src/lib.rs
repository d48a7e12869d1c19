//! Payment processing over a Solana-style ledger: unsigned transfer payloads,
//! and the durability status of submitted transactions.
pub mod ledger;
pub mod model;
pub mod status;
pub mod transfer;

pub use status::{ActionView, Commitment, Lookup, ResolveAction, ResolvePhase, StatusResolver};
pub use transfer::{parse_address, TransferPlan};

pub use model::{
    AddressField, LedgerStatus, PaymentError, PaymentRequest, PaymentResponse, StatusView,
    TransactionStatus,
};
