//! The ledger client library's encodings, as this crate relies on them.
use solana_sdk::message::Message;
use solana_sdk::pubkey::{ParsePubkeyError, Pubkey};
use solana_sdk::signature::{ParseSignatureError, Signature};
use solana_sdk::system_instruction;
use solana_sdk::transaction::Transaction;
use std::str::FromStr;
use vstd::prelude::*;

verus! {

#[verifier::external_type_specification]
#[verifier::external_body]
pub struct ExParsePubkeyError(ParsePubkeyError);

#[verifier::external_type_specification]
#[verifier::external_body]
pub struct ExParseSignatureError(ParseSignatureError);

#[verifier::external_type_specification]
#[verifier::external_body]
pub struct ExBincodeErrorKind(bincode::ErrorKind);

/// The 32 bytes that a base58 address text decodes to, if it is a valid address.
pub uninterp spec fn address_decoding(text: Seq<char>) -> Option<Seq<u8>>;

/// The 64 bytes that a base58 signature text decodes to, if it is a valid signature.
pub uninterp spec fn signature_decoding(text: Seq<char>) -> Option<Seq<u8>>;

/// The wire form of the unsigned transaction that moves `lamports` from `payer`
/// to `recipient` with `payer` paying the fee, anchored at `checkpoint`.
pub uninterp spec fn unsigned_transfer_wire(
    payer: Seq<u8>,
    recipient: Seq<u8>,
    lamports: u64,
    checkpoint: Seq<u8>,
) -> Option<Seq<u8>>;

/// Standard base64 text, with padding, of some bytes.
pub uninterp spec fn base64_text(bytes: Seq<u8>) -> Seq<char>;

/// Relies on `<Pubkey as FromStr>::from_str`: base58 text that decodes to
/// exactly 32 bytes; text longer than 44 bytes is refused before decoding, and
/// the empty text decodes to no bytes at all.
#[verifier::external_body]
pub(crate) fn decode_address(text: &str) -> (r: Result<[u8; 32], ParsePubkeyError>)
    ensures
        r is Ok <==> address_decoding(text@) is Some,
        r matches Ok(b) ==> b@ == address_decoding(text@)->0,
        text@.len() > 44 ==> r is Err,
        text@.len() == 0 ==> r is Err,
{
    Pubkey::from_str(text).map(|k| k.to_bytes())
}

/// Relies on `<Signature as FromStr>::from_str`: base58 text that decodes to
/// exactly 64 bytes; text longer than 88 bytes is refused before decoding, and
/// the empty text decodes to no bytes at all.
#[verifier::external_body]
pub(crate) fn decode_signature(text: &str) -> (r: Result<[u8; 64], ParseSignatureError>)
    ensures
        r is Ok <==> signature_decoding(text@) is Some,
        r matches Ok(b) ==> b@ == signature_decoding(text@)->0,
        text@.len() > 88 ==> r is Err,
        text@.len() == 0 ==> r is Err,
{
    Signature::from_str(text).map(|s| <[u8; 64]>::from(s))
}

/// Relies on `bincode::serialize` of the unsigned `Transaction` that
/// `Transaction::new_unsigned` makes from `Message::new_with_blockhash` over the
/// single instruction of `system_instruction::transfer`, with the payer as fee
/// payer: the bytes depend on these four values alone.
#[verifier::external_body]
pub(crate) fn serialize_unsigned_transfer(
    payer: &[u8; 32],
    recipient: &[u8; 32],
    lamports: u64,
    checkpoint: &[u8; 32],
) -> (r: Result<Vec<u8>, Box<bincode::ErrorKind>>)
    ensures
        r is Ok <==> unsigned_transfer_wire(payer@, recipient@, lamports, checkpoint@) is Some,
        r matches Ok(v) ==> v@ == unsigned_transfer_wire(payer@, recipient@, lamports, checkpoint@)->0,
{
    let payer = Pubkey::new_from_array(*payer);
    let recipient = Pubkey::new_from_array(*recipient);
    let instruction = system_instruction::transfer(&payer, &recipient, lamports);
    let blockhash = solana_sdk::hash::Hash::new_from_array(*checkpoint);
    let message = Message::new_with_blockhash(&[instruction], Some(&payer), &blockhash);
    bincode::serialize(&Transaction::new_unsigned(message))
}

/// Relies on `base64::encode` (standard alphabet, padded): four characters for
/// each started group of three bytes. It panics only where that length
/// overflows `usize`.
#[verifier::external_body]
pub(crate) fn encode_base64(bytes: &Vec<u8>) -> (r: String)
    requires
        bytes@.len() <= usize::MAX / 2,
    ensures
        r@ == base64_text(bytes@),
        r@.len() == 4 * ((bytes@.len() + 2) / 3),
{
    #[allow(deprecated)]
    base64::encode(bytes)
}

} // verus!
