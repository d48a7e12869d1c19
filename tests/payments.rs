use solana_payments::{
    parse_address, AddressField, Commitment, LedgerStatus, Lookup, PaymentError, ResolveAction,
    ResolvePhase, StatusResolver, TransactionStatus, TransferPlan,
};

const PAYER: &str = "4vJ9JU1bJJE96FWSJKvHsmmFADCg4gpZQff4P3bkLKi";
const RECIPIENT: &str = "8qbHbw2BbbTHBW1sbeqakYXVKRQM8Ne7pLK7m6CVfeR";
const SIGNATURE: &str =
    "99eUso3aSbE9tqGSTXzo3TLfKb9RkMTURrHKQ1K7Zh3BbeqPevr5E1iCbpTjqHuTFLtfxTTD5ekfVuZFzQyEQf8";
const OTHER_SIGNATURE: &str =
    "1111111111111111111111111111111111111111111111111111111111111111";

fn report(action: ResolveAction) -> TransactionStatus {
    match action {
        ResolveAction::Report(s) => s,
        _ => panic!("expected a report"),
    }
}

fn started(signature: &str) -> StatusResolver {
    let (resolver, action) = StatusResolver::start(signature).unwrap();
    assert!(matches!(action, ResolveAction::Query(Commitment::Confirmed)));
    resolver
}

#[test]
fn address_parses_to_its_bytes() {
    assert_eq!(parse_address(PAYER, AddressField::Payer), Ok([1u8; 32]));
    assert_eq!(parse_address(RECIPIENT, AddressField::Recipient), Ok([2u8; 32]));
    assert_eq!(
        parse_address("11111111111111111111111111111111", AddressField::Account),
        Ok([0u8; 32])
    );
}

#[test]
fn malformed_addresses_are_refused() {
    let too_long = "1".repeat(45);
    for text in ["", "not-an-address", "0OIl0OIl0OIl0OIl0OIl0OIl0OIl0OIl", "1111", too_long.as_str()] {
        assert_eq!(
            parse_address(text, AddressField::Account),
            Err(PaymentError::AddressFormat(AddressField::Account))
        );
    }
}

#[test]
fn malformed_recipient_fails_before_any_query() {
    let r = TransferPlan::new(5, "bad recipient", PAYER);
    assert!(matches!(r, Err(PaymentError::AddressFormat(AddressField::Recipient))));
    let r = TransferPlan::new(5, "bad recipient", "bad payer");
    assert!(matches!(r, Err(PaymentError::AddressFormat(AddressField::Recipient))));
}

#[test]
fn malformed_payer_is_reported() {
    let r = TransferPlan::new(5, RECIPIENT, "bad payer");
    assert!(matches!(r, Err(PaymentError::AddressFormat(AddressField::Payer))));
}

#[test]
fn plan_keeps_amount_and_addresses() {
    let plan = TransferPlan::new(0, RECIPIENT, PAYER).unwrap();
    assert_eq!(plan.amount_lamports, 0);
    assert_eq!(plan.payer, [1u8; 32]);
    assert_eq!(plan.recipient, [2u8; 32]);
    let plan = TransferPlan::new(u64::MAX, RECIPIENT, PAYER).unwrap();
    assert_eq!(plan.amount_lamports, u64::MAX);
}

#[test]
fn payload_without_checkpoint_is_ledger_unavailable() {
    let plan = TransferPlan::new(1_000_000_000, RECIPIENT, PAYER).unwrap();
    assert!(matches!(plan.encode(None), Err(PaymentError::LedgerUnavailable)));
}

#[test]
fn payload_encodes_unsigned_transfer() {
    let plan = TransferPlan::new(1_000_000_000, RECIPIENT, PAYER).unwrap();
    let text = plan.encode(Some([9u8; 32])).unwrap();
    let expected = [
        "AQAAAAAAAAAAAAAAAAAAAAAAAAAAAAAAAAAAAAAAAAAAAAAAAAAAAAAAAAAAAAAAAAAAAAAA",
        "AAAAAAAAAAAAAAABAAEDAQEBAQEBAQEBAQEBAQEBAQEBAQEBAQEBAQEBAQEBAQECAgICAgIC",
        "AgICAgICAgICAgICAgICAgICAgICAgICAgAAAAAAAAAAAAAAAAAAAAAAAAAAAAAAAAAAAAAA",
        "AAAACQkJCQkJCQkJCQkJCQkJCQkJCQkJCQkJCQkJCQkJCQkBAgIAAQwCAAAAAMqaOwAAAAA=",
    ]
    .concat();
    assert_eq!(text.len(), 288);
    assert_eq!(text, expected);
}

#[test]
fn payload_depends_on_amount_and_checkpoint() {
    let plan = TransferPlan::new(1, RECIPIENT, PAYER).unwrap();
    let other = TransferPlan::new(2, RECIPIENT, PAYER).unwrap();
    let a = plan.encode(Some([9u8; 32])).unwrap();
    let b = plan.encode(Some([8u8; 32])).unwrap();
    let c = other.encode(Some([9u8; 32])).unwrap();
    assert_ne!(a, b);
    assert_ne!(a, c);
    assert_eq!(a, plan.encode(Some([9u8; 32])).unwrap());
}

#[test]
fn malformed_signature_is_refused() {
    let too_long = "1".repeat(89);
    for text in ["", "not a signature", PAYER, too_long.as_str()] {
        assert!(matches!(StatusResolver::start(text), Err(PaymentError::SignatureFormat)));
    }
}

#[test]
fn start_decodes_signature() {
    let resolver = started(SIGNATURE);
    assert_eq!(resolver.signature_bytes(), [7u8; 64]);
    assert_eq!(resolver.signature(), SIGNATURE);
    assert_eq!(resolver.phase(), ResolvePhase::AwaitConfirmed);
}

#[test]
fn unseen_signature_is_unconfirmed() {
    let mut resolver = started(SIGNATURE);
    let status = report(resolver.step(Lookup::NotFound));
    assert_eq!(status.signature, SIGNATURE);
    assert!(!status.confirmed);
    assert!(!status.finalized);
    assert_eq!(status.error, None);
    assert_eq!(resolver.phase(), ResolvePhase::Finished);
}

#[test]
fn failed_transaction_reports_error_after_one_query() {
    let mut resolver = started(SIGNATURE);
    let status = report(resolver.step(Lookup::Found(Some("InstructionError".to_string()))));
    assert!(status.confirmed);
    assert!(!status.finalized);
    assert_eq!(status.error, Some("InstructionError".to_string()));
    assert_eq!(resolver.phase(), ResolvePhase::Finished);
}

#[test]
fn finalized_transaction_is_reported_finalized() {
    let mut resolver = started(SIGNATURE);
    assert!(matches!(resolver.step(Lookup::Found(None)), ResolveAction::Query(Commitment::Finalized)));
    assert_eq!(resolver.phase(), ResolvePhase::AwaitFinalized);
    let status = report(resolver.step(Lookup::Found(None)));
    assert_eq!(status.signature, SIGNATURE);
    assert!(status.confirmed);
    assert!(status.finalized);
    assert_eq!(status.error, None);
}

#[test]
fn found_at_finalized_level_counts_even_with_details() {
    let mut resolver = started(SIGNATURE);
    resolver.step(Lookup::Found(None));
    let status = report(resolver.step(Lookup::Found(Some("late".to_string()))));
    assert!(status.confirmed);
    assert!(status.finalized);
    assert_eq!(status.error, None);
}

#[test]
fn confirmed_but_not_finalized() {
    let mut resolver = started(SIGNATURE);
    resolver.step(Lookup::Found(None));
    let status = report(resolver.step(Lookup::NotFound));
    assert!(status.confirmed);
    assert!(!status.finalized);
    assert_eq!(status.error, None);
}

#[test]
fn unavailable_ledger_fails_at_either_level() {
    let mut resolver = started(SIGNATURE);
    assert!(matches!(resolver.step(Lookup::Unavailable), ResolveAction::Fail(PaymentError::LedgerUnavailable)));
    let mut resolver = started(SIGNATURE);
    resolver.step(Lookup::Found(None));
    assert!(matches!(resolver.step(Lookup::Unavailable), ResolveAction::Fail(PaymentError::LedgerUnavailable)));
    assert_eq!(resolver.phase(), ResolvePhase::Finished);
}

#[test]
fn interleaved_resolutions_keep_their_own_results() {
    let mut a = started(SIGNATURE);
    let mut b = started(OTHER_SIGNATURE);
    assert_eq!(b.signature_bytes(), [0u8; 64]);
    a.step(Lookup::Found(None));
    let from_b = report(b.step(Lookup::Found(Some("boom".to_string()))));
    let from_a = report(a.step(Lookup::Found(None)));
    assert_eq!(from_a.signature, SIGNATURE);
    assert!(from_a.finalized);
    assert_eq!(from_a.error, None);
    assert_eq!(from_b.signature, OTHER_SIGNATURE);
    assert!(!from_b.finalized);
    assert_eq!(from_b.error, Some("boom".to_string()));
}

#[test]
fn ledger_status_flattens() {
    let s = LedgerStatus::Unseen.to_status("sig");
    assert_eq!((s.signature.as_str(), s.confirmed, s.finalized, s.error), ("sig", false, false, None));
    let s = LedgerStatus::Rejected("bad".to_string()).to_status("sig");
    assert_eq!((s.confirmed, s.finalized, s.error), (true, false, Some("bad".to_string())));
    let s = LedgerStatus::Accepted(true).to_status("sig");
    assert_eq!((s.confirmed, s.finalized, s.error), (true, true, None));
    let s = LedgerStatus::Accepted(false).to_status("sig");
    assert_eq!((s.confirmed, s.finalized, s.error), (true, false, None));
}
