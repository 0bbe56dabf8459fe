//! The verification dispatcher: the judgement of one piece of evidence.
//!
//! The transport calls the evidence callback during the handshake. The
//! callback runs the dispatcher in two steps, with the call of the policy
//! engine between them: `begin` classifies the evidence and says what to ask
//! the engine, if anything; `conclude` turns what the adapter made of the
//! engine's reply into a verdict. Only an explicit allow accepts.

use crate::evidence::{kind_of_tag, Evidence, EvidenceKind, TAG_CSV, TAG_SGX_ECDSA};
use crate::json::{json_members, member_of, JsonMemberView};
use crate::policy::{
    decide, decision_for, outcome_view, query_for_csv, query_for_sgx, reply_view, AdapterError,
    AdapterErrorView, Decision, Outcome, PolicyQuery, PolicyQueryView, KEY_ALLOW,
};
use vstd::prelude::*;
use vstd::string::StringExecFns;

verus! {

/// What the evidence callback returns to the transport to accept the peer.
pub const SIGNAL_ACCEPT: i32 = 1;

/// What the evidence callback returns to the transport to reject the peer.
pub const SIGNAL_REJECT: i32 = 0;

/// Why evidence was rejected.
#[derive(Clone, Debug, PartialEq, Eq)]
pub enum RejectReason {
    /// The evidence is of a kind that is not known; the tag is the transport's.
    UnsupportedEvidence(u32),
    /// The fields of the evidence could not be read; the tag is the transport's.
    MalformedEvidence(u32),
    /// The adapter has no decision.
    Adapter(AdapterError),
    /// The engine decided against the evidence; the explanation is the engine's.
    Denied(Option<String>),
}

/// A `RejectReason` with its strings as sequences of characters.
pub enum RejectReasonView {
    UnsupportedEvidence(u32),
    MalformedEvidence(u32),
    Adapter(AdapterErrorView),
    Denied(Option<Seq<char>>),
}

impl View for RejectReason {
    type V = RejectReasonView;

    open spec fn view(&self) -> RejectReasonView {
        match *self {
            RejectReason::UnsupportedEvidence(tag) => RejectReasonView::UnsupportedEvidence(tag),
            RejectReason::MalformedEvidence(tag) => RejectReasonView::MalformedEvidence(tag),
            RejectReason::Adapter(error) => RejectReasonView::Adapter(error@),
            RejectReason::Denied(info) => RejectReasonView::Denied(
                match info {
                    Some(s) => Some(s@),
                    None => None,
                },
            ),
        }
    }
}

/// The judgement of one piece of evidence.
#[derive(Clone, Debug, PartialEq, Eq)]
pub enum Verdict {
    Accept,
    Reject(RejectReason),
}

/// A `Verdict` with its strings as sequences of characters.
pub enum VerdictView {
    Accept,
    Reject(RejectReasonView),
}

impl View for Verdict {
    type V = VerdictView;

    open spec fn view(&self) -> VerdictView {
        match *self {
            Verdict::Accept => VerdictView::Accept,
            Verdict::Reject(reason) => VerdictView::Reject(reason@),
        }
    }
}

/// What the dispatcher does first with a piece of evidence.
#[derive(Clone, Debug, PartialEq, Eq)]
pub enum Step {
    /// Ask the policy engine, then conclude from its reply.
    Consult(PolicyQuery),
    /// Reject at once; the engine is not asked.
    Reject(RejectReason),
}

/// A `Step` with its strings as sequences of characters.
pub enum StepView {
    Consult(PolicyQueryView),
    Reject(RejectReasonView),
}

impl View for Step {
    type V = StepView;

    open spec fn view(&self) -> StepView {
        match *self {
            Step::Consult(query) => StepView::Consult(query@),
            Step::Reject(reason) => StepView::Reject(reason@),
        }
    }
}

/// The first step for a piece of evidence: the call of the engine that
/// matches its kind, or a rejection where the evidence cannot be judged.
pub open spec fn first_step(evidence: Evidence) -> StepView {
    match evidence {
        Evidence::SgxEcdsa(ev) => StepView::Consult(query_for_sgx(ev)),
        Evidence::Csv(ev) => StepView::Consult(query_for_csv(ev)),
        Evidence::Malformed(tag) => StepView::Reject(RejectReasonView::MalformedEvidence(tag)),
        Evidence::Unsupported(tag) => StepView::Reject(RejectReasonView::UnsupportedEvidence(tag)),
    }
}

/// The verdict that follows from what the adapter returned.
pub open spec fn verdict_of(outcome: Outcome) -> VerdictView {
    match outcome {
        Ok(decision) => if decision.allow {
            VerdictView::Accept
        } else {
            VerdictView::Reject(RejectReasonView::Denied(decision.parse_info))
        },
        Err(error) => VerdictView::Reject(RejectReasonView::Adapter(error)),
    }
}

/// The signal that tells the transport of a verdict.
pub open spec fn signal_of(verdict: VerdictView) -> i32 {
    match verdict {
        VerdictView::Accept => SIGNAL_ACCEPT,
        VerdictView::Reject(_) => SIGNAL_REJECT,
    }
}

/// The record of a verdict for the operator. A rejection ends with the
/// engine's message or explanation where there is one.
pub open spec fn diagnostic_of(verdict: VerdictView) -> Seq<char> {
    match verdict {
        VerdictView::Accept => "evidence accepted"@,
        VerdictView::Reject(RejectReasonView::UnsupportedEvidence(_)) =>
            "evidence rejected: evidence type not implemented"@,
        VerdictView::Reject(RejectReasonView::MalformedEvidence(_)) =>
            "evidence rejected: evidence could not be read"@,
        VerdictView::Reject(RejectReasonView::Adapter(AdapterErrorView::Engine(message))) =>
            "evidence rejected: policy engine failed: "@ + message,
        VerdictView::Reject(RejectReasonView::Adapter(AdapterErrorView::MalformedResponse)) =>
            "evidence rejected: decision is not JSON"@,
        VerdictView::Reject(RejectReasonView::Adapter(AdapterErrorView::MissingAllow)) =>
            "evidence rejected: decision holds no boolean allow"@,
        VerdictView::Reject(RejectReasonView::Denied(None)) => "evidence rejected: decision is false"@,
        VerdictView::Reject(RejectReasonView::Denied(Some(info))) =>
            "evidence rejected: decision is false; parseInfo: "@ + info,
    }
}

/// Classifies a piece of evidence and says what to do with it: which call of
/// the policy engine to make, or to reject without asking.
pub fn begin(evidence: &Evidence) -> (step: Step)
    ensures
        step@ == first_step(*evidence),
{
    match evidence {
        Evidence::SgxEcdsa(ev) => Step::Consult(PolicyQuery::for_sgx(ev)),
        Evidence::Csv(ev) => Step::Consult(PolicyQuery::for_csv(ev)),
        Evidence::Malformed(tag) => Step::Reject(RejectReason::MalformedEvidence(*tag)),
        Evidence::Unsupported(tag) => Step::Reject(RejectReason::UnsupportedEvidence(*tag)),
    }
}

/// Turns what the adapter returned into a verdict, which accepts on an explicit
/// allow and rejects on everything else.
pub fn conclude(outcome: Result<Decision, AdapterError>) -> (verdict: Verdict)
    ensures
        verdict@ == verdict_of(outcome_view(outcome)),
{
    match outcome {
        Ok(decision) => {
            if decision.allow {
                Verdict::Accept
            } else {
                Verdict::Reject(RejectReason::Denied(decision.parse_info))
            }
        },
        Err(error) => Verdict::Reject(RejectReason::Adapter(error)),
    }
}

/// Judges one piece of evidence, asking the policy engine through `ask`
/// where the kind of the evidence can be judged. Evidence of any other kind
/// is rejected as `begin` says. Otherwise the engine is asked the question
/// that `begin` gives, and the verdict is the one that `conclude` draws from
/// what `decide` makes of its answer.
pub fn judge<F>(evidence: &Evidence, ask: F) -> (verdict: Verdict) where
    F: FnOnce(&PolicyQuery) -> Result<String, String>,

    requires
        forall|query: &PolicyQuery| ask.requires((query,)),
    ensures
        match first_step(*evidence) {
            StepView::Reject(reason) => verdict@ == VerdictView::Reject(reason),
            StepView::Consult(question) => exists|query: &PolicyQuery, reply: Result<String, String>|
                query@ == question && ask.ensures((query,), reply) && verdict@ == verdict_of(
                    decision_for(reply_view(reply)),
                ),
        },
{
    match begin(evidence) {
        Step::Reject(reason) => Verdict::Reject(reason),
        Step::Consult(query) => {
            let reply = ask(&query);
            conclude(decide(reply))
        },
    }
}

impl Verdict {
    /// The signal for the transport: `SIGNAL_ACCEPT` for an acceptance,
    /// `SIGNAL_REJECT` for every rejection.
    pub fn signal(&self) -> (signal: i32)
        ensures
            signal == signal_of(self@),
    {
        match self {
            Verdict::Accept => SIGNAL_ACCEPT,
            Verdict::Reject(_) => SIGNAL_REJECT,
        }
    }

    /// Whether the evidence was accepted.
    pub fn is_accept(&self) -> (r: bool)
        ensures
            r == (self@ is Accept),
    {
        match self {
            Verdict::Accept => true,
            Verdict::Reject(_) => false,
        }
    }

    /// The record of the verdict for the operator.
    pub fn diagnostic(&self) -> (text: String)
        ensures
            text@ == diagnostic_of(self@),
    {
        match self {
            Verdict::Accept => "evidence accepted".to_owned(),
            Verdict::Reject(RejectReason::UnsupportedEvidence(_)) =>
                "evidence rejected: evidence type not implemented".to_owned(),
            Verdict::Reject(RejectReason::MalformedEvidence(_)) =>
                "evidence rejected: evidence could not be read".to_owned(),
            Verdict::Reject(RejectReason::Adapter(AdapterError::Engine(message))) =>
                "evidence rejected: policy engine failed: ".to_owned().concat(message.as_str()),
            Verdict::Reject(RejectReason::Adapter(AdapterError::MalformedResponse)) =>
                "evidence rejected: decision is not JSON".to_owned(),
            Verdict::Reject(RejectReason::Adapter(AdapterError::MissingAllow)) =>
                "evidence rejected: decision holds no boolean allow".to_owned(),
            Verdict::Reject(RejectReason::Denied(None)) =>
                "evidence rejected: decision is false".to_owned(),
            Verdict::Reject(RejectReason::Denied(Some(info))) =>
                "evidence rejected: decision is false; parseInfo: ".to_owned().concat(
                    info.as_str(),
                ),
        }
    }
}

/// Every tag but the two known ones announces evidence of an unknown kind,
/// and such evidence is rejected in the first step: the policy engine is
/// never asked about it.
pub proof fn lemma_unsupported_is_rejected_unasked(tag: u32)
    ensures
        tag != TAG_SGX_ECDSA && tag != TAG_CSV ==> kind_of_tag(tag) == EvidenceKind::Unsupported,
        first_step(Evidence::Unsupported(tag)) == StepView::Reject(
            RejectReasonView::UnsupportedEvidence(tag),
        ),
        !(first_step(Evidence::Unsupported(tag)) is Consult),
{
}

/// The signal is one of two values, and it is the accepting one exactly when
/// the adapter returned a decision that allows.
pub proof fn lemma_accept_only_on_allow(outcome: Outcome)
    ensures
        signal_of(verdict_of(outcome)) == SIGNAL_ACCEPT || signal_of(verdict_of(outcome))
            == SIGNAL_REJECT,
        signal_of(verdict_of(outcome)) == SIGNAL_ACCEPT <==> (outcome is Ok
            && outcome->Ok_0.allow),
{
}

/// Whatever the engine returned, the peer is accepted only if the call
/// succeeded, the reply is JSON, and it holds `true` under `allow`.
pub proof fn lemma_never_accept_by_default(reply: Result<Seq<char>, Seq<char>>)
    ensures
        signal_of(verdict_of(decision_for(reply))) == SIGNAL_ACCEPT <==> {
            &&& reply is Ok
            &&& json_members(reply->Ok_0) is Some
            &&& member_of(json_members(reply->Ok_0)->Some_0, KEY_ALLOW@) == JsonMemberView::Bool(
                true,
            )
        },
{
}

/// Equal evidence gets the same first step: the same policy, the same
/// dataset and the same input document.
pub proof fn lemma_first_step_deterministic(a: Evidence, b: Evidence)
    requires
        a == b,
    ensures
        first_step(a) == first_step(b),
{
}

} // verus!
