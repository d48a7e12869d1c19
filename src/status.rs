//! Resolution of a transaction signature into its durability status.
//!
//! The ledger is queried by the caller: `StatusResolver::start` parses the
//! signature and names the first query, and each `step` takes the answer to the
//! last query and names the next query or the final report.
use crate::ledger::{decode_signature, signature_decoding};
use crate::model::{flat_view, LedgerStatus, PaymentError, StatusView, TransactionStatus};
use vstd::prelude::*;

verus! {

/// The durability level at which the ledger is asked about a signature.
#[derive(Clone, Copy, Debug, PartialEq, Eq, Structural)]
pub enum Commitment {
    /// Optimistic acceptance.
    Confirmed,
    /// Irreversible commitment.
    Finalized,
}

/// The ledger's answer to one signature-status query.
pub enum Lookup {
    /// The query could not complete.
    Unavailable,
    /// The ledger has no record of the signature at that level.
    NotFound,
    /// The ledger has a record; `Some(details)` where execution failed.
    Found(Option<String>),
}

/// Where a resolution stands.
#[derive(Clone, Copy, Debug, PartialEq, Eq, Structural)]
pub enum ResolvePhase {
    AwaitConfirmed,
    AwaitFinalized,
    Finished,
}

/// What the caller is to do next.
pub enum ResolveAction {
    /// Ask the ledger about the signature at this level, and hand back the answer.
    Query(Commitment),
    /// The resolution is over with this status.
    Report(TransactionStatus),
    /// The resolution is over with this failure.
    Fail(PaymentError),
}

/// Mathematical view of a `ResolveAction`.
pub enum ActionView {
    Query(Commitment),
    Report(StatusView),
    Fail(PaymentError),
}

impl View for ResolveAction {
    type V = ActionView;

    open spec fn view(&self) -> ActionView {
        match self {
            ResolveAction::Query(c) => ActionView::Query(*c),
            ResolveAction::Report(s) => ActionView::Report(s@),
            ResolveAction::Fail(e) => ActionView::Fail(*e),
        }
    }
}

/// The phase that follows an answer.
pub open spec fn next_phase(phase: ResolvePhase, event: Lookup) -> ResolvePhase {
    match (phase, event) {
        (ResolvePhase::AwaitConfirmed, Lookup::Found(None)) => ResolvePhase::AwaitFinalized,
        _ => ResolvePhase::Finished,
    }
}

/// What an answer leads to, for the signature text `signature`.
pub open spec fn next_action(phase: ResolvePhase, signature: Seq<char>, event: Lookup) -> ActionView {
    match event {
        Lookup::Unavailable => ActionView::Fail(PaymentError::LedgerUnavailable),
        Lookup::NotFound => match phase {
            ResolvePhase::AwaitFinalized => ActionView::Report(
                flat_view(LedgerStatus::Accepted(false), signature),
            ),
            _ => ActionView::Report(flat_view(LedgerStatus::Unseen, signature)),
        },
        Lookup::Found(err) => match phase {
            ResolvePhase::AwaitFinalized => ActionView::Report(
                flat_view(LedgerStatus::Accepted(true), signature),
            ),
            _ => match err {
                Some(e) => ActionView::Report(flat_view(LedgerStatus::Rejected(e), signature)),
                None => ActionView::Query(Commitment::Finalized),
            },
        },
    }
}

/// The resolution of one signature.
pub struct StatusResolver {
    signature: String,
    decoded: [u8; 64],
    phase: ResolvePhase,
}

impl StatusResolver {
    pub closed spec fn signature_view(&self) -> Seq<char> {
        self.signature@
    }

    pub closed spec fn decoded_view(&self) -> Seq<u8> {
        self.decoded@
    }

    pub closed spec fn phase_view(&self) -> ResolvePhase {
        self.phase
    }

    /// Begins resolving `signature`: fails on a malformed signature, and otherwise
    /// asks for the query at the confirmed level.
    pub fn start(signature: &str) -> (r: Result<(StatusResolver, ResolveAction), PaymentError>)
        ensures
            r is Err <==> signature_decoding(signature@) is None,
            r matches Err(e) ==> e == PaymentError::SignatureFormat,
            r matches Ok((res, act)) ==> {
                &&& res.signature_view() == signature@
                &&& res.decoded_view() == signature_decoding(signature@)->0
                &&& res.phase_view() == ResolvePhase::AwaitConfirmed
                &&& act@ == ActionView::Query(Commitment::Confirmed)
            },
    {
        match decode_signature(signature) {
            Ok(decoded) => {
                let res = StatusResolver {
                    signature: signature.to_owned(),
                    decoded,
                    phase: ResolvePhase::AwaitConfirmed,
                };
                Ok((res, ResolveAction::Query(Commitment::Confirmed)))
            },
            Err(_) => Err(PaymentError::SignatureFormat),
        }
    }

    /// The signature's 64 bytes, as the ledger is to be asked about them.
    pub fn signature_bytes(&self) -> (r: [u8; 64])
        ensures
            r@ == self.decoded_view(),
    {
        self.decoded
    }

    /// The signature text being resolved.
    pub fn signature(&self) -> (r: &str)
        ensures
            r@ == self.signature_view(),
    {
        self.signature.as_str()
    }

    pub fn phase(&self) -> (r: ResolvePhase)
        ensures
            r == self.phase_view(),
    {
        self.phase
    }

    /// Takes the ledger's answer to the last query asked for.
    pub fn step(&mut self, event: Lookup) -> (act: ResolveAction)
        requires
            old(self).phase_view() != ResolvePhase::Finished,
        ensures
            final(self).signature_view() == old(self).signature_view(),
            final(self).decoded_view() == old(self).decoded_view(),
            final(self).phase_view() == next_phase(old(self).phase_view(), event),
            act@ == next_action(old(self).phase_view(), old(self).signature_view(), event),
    {
        let phase = self.phase;
        match event {
            Lookup::Unavailable => {
                self.phase = ResolvePhase::Finished;
                ResolveAction::Fail(PaymentError::LedgerUnavailable)
            },
            Lookup::NotFound => {
                self.phase = ResolvePhase::Finished;
                let status = match phase {
                    ResolvePhase::AwaitFinalized => LedgerStatus::Accepted(false),
                    _ => LedgerStatus::Unseen,
                };
                ResolveAction::Report(status.to_status(self.signature.as_str()))
            },
            Lookup::Found(err) => {
                match phase {
                    ResolvePhase::AwaitFinalized => {
                        self.phase = ResolvePhase::Finished;
                        let status = LedgerStatus::Accepted(true);
                        ResolveAction::Report(status.to_status(self.signature.as_str()))
                    },
                    _ => match err {
                        Some(e) => {
                            self.phase = ResolvePhase::Finished;
                            let status = LedgerStatus::Rejected(e);
                            ResolveAction::Report(status.to_status(self.signature.as_str()))
                        },
                        None => {
                            self.phase = ResolvePhase::AwaitFinalized;
                            ResolveAction::Query(Commitment::Finalized)
                        },
                    },
                }
            },
        }
    }
}

/// Every status that a resolution reports is consistent: never finalized without
/// being confirmed, never finalized with an execution error.
pub proof fn lemma_reports_consistent(phase: ResolvePhase, signature: Seq<char>, event: Lookup)
    ensures
        next_action(phase, signature, event) matches ActionView::Report(v) ==> v.consistent(),
{
}

/// A signature that the ledger has never seen is reported unconfirmed, not
/// finalized and without error, after that single query.
pub proof fn lemma_unseen_signature(signature: Seq<char>)
    ensures
        next_action(ResolvePhase::AwaitConfirmed, signature, Lookup::NotFound) == ActionView::Report(
            StatusView { signature, confirmed: false, finalized: false, error: None },
        ),
        next_phase(ResolvePhase::AwaitConfirmed, Lookup::NotFound) == ResolvePhase::Finished,
{
}

/// A signature found with an execution error is reported confirmed, not
/// finalized, with that error; no finalized-level query follows.
pub proof fn lemma_rejected_transaction(signature: Seq<char>, details: String)
    ensures
        next_action(ResolvePhase::AwaitConfirmed, signature, Lookup::Found(Some(details)))
            == ActionView::Report(
            StatusView { signature, confirmed: true, finalized: false, error: Some(details@) },
        ),
        next_phase(ResolvePhase::AwaitConfirmed, Lookup::Found(Some(details)))
            == ResolvePhase::Finished,
{
}

/// A signature found without error leads to a query at the finalized level; if
/// that query finds it too, it is reported confirmed and finalized, without error.
pub proof fn lemma_finalized_transaction(signature: Seq<char>, second: Option<String>)
    ensures
        next_action(ResolvePhase::AwaitConfirmed, signature, Lookup::Found(None))
            == ActionView::Query(Commitment::Finalized),
        next_phase(ResolvePhase::AwaitConfirmed, Lookup::Found(None))
            == ResolvePhase::AwaitFinalized,
        next_action(ResolvePhase::AwaitFinalized, signature, Lookup::Found(second))
            == ActionView::Report(
            StatusView { signature, confirmed: true, finalized: true, error: None },
        ),
        next_phase(ResolvePhase::AwaitFinalized, Lookup::Found(second)) == ResolvePhase::Finished,
{
}

/// A signature found without error but not at the finalized level is reported
/// confirmed, not finalized, without error.
pub proof fn lemma_confirmed_not_finalized(signature: Seq<char>)
    ensures
        next_action(ResolvePhase::AwaitConfirmed, signature, Lookup::Found(None))
            == ActionView::Query(Commitment::Finalized),
        next_action(ResolvePhase::AwaitFinalized, signature, Lookup::NotFound)
            == ActionView::Report(
            StatusView { signature, confirmed: true, finalized: false, error: None },
        ),
        next_phase(ResolvePhase::AwaitFinalized, Lookup::NotFound) == ResolvePhase::Finished,
{
}

/// Two resolutions of distinct signatures, stepped in any interleaving, never
/// exchange results: what each reports depends on its own phase, signature and
/// answer alone, and carries its own signature.
pub proof fn lemma_no_cross_talk(
    a: StatusResolver,
    b: StatusResolver,
    event_a: Lookup,
    event_b: Lookup,
)
    requires
        a.signature_view() != b.signature_view(),
    ensures
        next_action(a.phase_view(), a.signature_view(), event_a) matches ActionView::Report(v)
            ==> v.signature == a.signature_view(),
        next_action(b.phase_view(), b.signature_view(), event_b) matches ActionView::Report(w)
            ==> w.signature == b.signature_view(),
        next_action(a.phase_view(), a.signature_view(), event_a) matches ActionView::Report(v)
            ==> (next_action(b.phase_view(), b.signature_view(), event_b) matches ActionView::Report(w)
            ==> v != w),
{
}

} // verus!
