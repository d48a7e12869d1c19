//! Unsigned transfer payloads: addresses are checked before the ledger is asked
//! for a checkpoint, and the payload is encoded once the checkpoint is known.
use crate::ledger::{
    address_decoding, base64_text, decode_address, encode_base64, serialize_unsigned_transfer,
    unsigned_transfer_wire,
};
use crate::model::{AddressField, PaymentError};
use vstd::prelude::*;

verus! {

/// Largest wire length that is encoded as text without overflowing its length.
pub const MAX_WIRE_LEN: usize = usize::MAX / 2;

/// What parsing `text` as the address in `field` gives.
pub open spec fn address_result(text: Seq<char>, field: AddressField) -> Result<Seq<u8>, PaymentError> {
    match address_decoding(text) {
        Some(b) => Ok(b),
        None => Err(PaymentError::AddressFormat(field)),
    }
}

/// Parses an address text into its 32 bytes; a malformed one is reported
/// against `field`.
pub fn parse_address(text: &str, field: AddressField) -> (r: Result<[u8; 32], PaymentError>)
    ensures
        r is Ok <==> address_result(text@, field) is Ok,
        r matches Ok(b) ==> b@ == address_result(text@, field)->Ok_0,
        r matches Err(e) ==> address_result(text@, field) == Err::<Seq<u8>, PaymentError>(e),
{
    match decode_address(text) {
        Ok(b) => Ok(b),
        Err(_) => Err(PaymentError::AddressFormat(field)),
    }
}

/// A transfer whose addresses have been checked, waiting for a ledger checkpoint.
pub struct TransferPlan {
    pub amount_lamports: u64,
    pub payer: [u8; 32],
    pub recipient: [u8; 32],
}

/// The text payload for `plan`'s fields anchored at `checkpoint`, or why there is none.
pub open spec fn payload_result(
    payer: Seq<u8>,
    recipient: Seq<u8>,
    lamports: u64,
    checkpoint: Option<Seq<u8>>,
) -> Result<Seq<char>, PaymentError> {
    match checkpoint {
        None => Err(PaymentError::LedgerUnavailable),
        Some(c) => match unsigned_transfer_wire(payer, recipient, lamports, c) {
            Some(w) => if w.len() <= MAX_WIRE_LEN {
                Ok(base64_text(w))
            } else {
                Err(PaymentError::Encoding)
            },
            None => Err(PaymentError::Encoding),
        },
    }
}

pub open spec fn array_opt_view(c: Option<[u8; 32]>) -> Option<Seq<u8>> {
    match c {
        Some(a) => Some(a@),
        None => None,
    }
}

impl TransferPlan {
    /// Checks both addresses, the recipient first. No ledger query can be made
    /// for a transfer that fails here, since only a plan leads to one.
    pub fn new(amount_lamports: u64, recipient: &str, payer: &str) -> (r: Result<
        TransferPlan,
        PaymentError,
    >)
        ensures
            address_decoding(recipient@) is None ==> r == Err::<TransferPlan, PaymentError>(
                PaymentError::AddressFormat(AddressField::Recipient),
            ),
            address_decoding(recipient@) is Some && address_decoding(payer@) is None ==> r == Err::<
                TransferPlan,
                PaymentError,
            >(PaymentError::AddressFormat(AddressField::Payer)),
            r is Ok <==> address_decoding(recipient@) is Some && address_decoding(payer@) is Some,
            r matches Ok(p) ==> {
                &&& p.amount_lamports == amount_lamports
                &&& p.recipient@ == address_decoding(recipient@)->0
                &&& p.payer@ == address_decoding(payer@)->0
            },
    {
        let recipient = match parse_address(recipient, AddressField::Recipient) {
            Ok(b) => b,
            Err(e) => return Err(e),
        };
        let payer = match parse_address(payer, AddressField::Payer) {
            Ok(b) => b,
            Err(e) => return Err(e),
        };
        Ok(TransferPlan { amount_lamports, payer, recipient })
    }

    /// Encodes the unsigned transaction anchored at the checkpoint that the ledger
    /// gave, as text for signing elsewhere; `None` stands for a ledger that could
    /// not be asked.
    pub fn encode(&self, checkpoint: Option<[u8; 32]>) -> (r: Result<String, PaymentError>)
        ensures
            r is Ok <==> payload_result(
                self.payer@,
                self.recipient@,
                self.amount_lamports,
                array_opt_view(checkpoint),
            ) is Ok,
            r matches Ok(s) ==> s@ == payload_result(
                self.payer@,
                self.recipient@,
                self.amount_lamports,
                array_opt_view(checkpoint),
            )->Ok_0,
            r matches Err(e) ==> payload_result(
                self.payer@,
                self.recipient@,
                self.amount_lamports,
                array_opt_view(checkpoint),
            ) == Err::<Seq<char>, PaymentError>(e),
    {
        let checkpoint = match checkpoint {
            Some(c) => c,
            None => return Err(PaymentError::LedgerUnavailable),
        };
        match serialize_unsigned_transfer(&self.payer, &self.recipient, self.amount_lamports, &checkpoint) {
            Ok(wire) => {
                if wire.len() <= MAX_WIRE_LEN {
                    Ok(encode_base64(&wire))
                } else {
                    Err(PaymentError::Encoding)
                }
            },
            Err(_) => Err(PaymentError::Encoding),
        }
    }
}

} // verus!
