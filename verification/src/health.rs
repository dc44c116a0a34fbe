//! Health-probe classification: one HTTP GET to the backend's health
//! endpoint, whose outcome is sorted into exactly one of four results. The
//! request itself is network work done by the embedding application; this
//! module decides, from what was observed, whether the body is read at all
//! and which result comes out.

use vstd::prelude::*;

verus! {

/// The single point-in-time health classification. Transport failure, unhealthy
/// application status, and a malformed success response are deliberately
/// kept apart, never collapsed into one generic failure.
#[derive(Debug, PartialEq, Eq)]
pub enum HealthResult {
    /// Success status and the body was read in full.
    Reachable(String),
    /// A response arrived with a non-success status; the body is never read.
    UnhealthyStatus(u16),
    /// No response at all; carries the underlying transport error
    /// description.
    ConnectionFailed(String),
    /// Success status, but reading the body failed (e.g. truncated stream).
    BodyReadError(String),
}

/// What the embedding application must do next while probing.
#[derive(Debug, PartialEq, Eq)]
pub enum ProbeStep {
    /// A success status arrived: read the response body as text.
    ReadBody,
    /// The probe is over, with its classification.
    Done(HealthResult),
}

/// HTTP success statuses.
pub open spec fn is_success_status(code: u16) -> bool {
    200 <= code < 300
}

/// The ghost mirror of `HealthResult`, over sequences of characters.
pub enum HealthClass {
    Reachable(Seq<char>),
    UnhealthyStatus(u16),
    ConnectionFailed(Seq<char>),
    BodyReadError(Seq<char>),
}

/// Everything one probe can observe: either no response arrived, or a
/// response with a status arrived and reading its body would have gone one
/// way or the other.
pub enum ProbeOutcome {
    NoResponse(Seq<char>),
    Responded(u16, Result<Seq<char>, Seq<char>>),
}

impl HealthResult {
    /// The classification, as a ghost value.
    pub open spec fn model(&self) -> HealthClass {
        match self {
            HealthResult::Reachable(b) => HealthClass::Reachable(b@),
            HealthResult::UnhealthyStatus(c) => HealthClass::UnhealthyStatus(*c),
            HealthResult::ConnectionFailed(e) => HealthClass::ConnectionFailed(e@),
            HealthResult::BodyReadError(e) => HealthClass::BodyReadError(e@),
        }
    }
}

/// The classification policy: which classification each possible probe outcome
/// receives.
pub open spec fn spec_classify(o: ProbeOutcome) -> HealthClass {
    match o {
        ProbeOutcome::NoResponse(e) => HealthClass::ConnectionFailed(e),
        ProbeOutcome::Responded(code, body) => if !is_success_status(code) {
            HealthClass::UnhealthyStatus(code)
        } else {
            match body {
                Ok(b) => HealthClass::Reachable(b),
                Err(e) => HealthClass::BodyReadError(e),
            }
        },
    }
}

/// Decision after the send attempt: no response is a connection failure, a
/// non-success status is unhealthy as it stands — whatever the body would
/// have held — and only a success status has the body read at all.
pub fn on_send_outcome(outcome: Result<u16, String>) -> (s: ProbeStep)
    ensures
        (s is ReadBody <==> (outcome matches Ok(code) && is_success_status(code))),
        outcome matches Err(e) ==> s == ProbeStep::Done(HealthResult::ConnectionFailed(e)),
        (outcome is Ok && !is_success_status(outcome->Ok_0)) ==> s == ProbeStep::Done(
            HealthResult::UnhealthyStatus(outcome->Ok_0),
        ),
        (outcome is Ok && !is_success_status(outcome->Ok_0)) ==> (s matches ProbeStep::Done(h)
            && forall|body: Result<Seq<char>, Seq<char>>|
            h.model() == #[trigger] spec_classify(ProbeOutcome::Responded(outcome->Ok_0, body))),
{
    match outcome {
        Ok(code) => {
            if 200 <= code && code < 300 {
                ProbeStep::ReadBody
            } else {
                ProbeStep::Done(HealthResult::UnhealthyStatus(code))
            }
        },
        Err(e) => ProbeStep::Done(HealthResult::ConnectionFailed(e)),
    }
}

/// Decision after the body read that follows a success status: a body is
/// `Reachable`, a failed read is a `BodyReadError`, distinct from a
/// connection failure.
pub fn on_body_outcome(code: u16, outcome: Result<String, String>) -> (h: HealthResult)
    requires
        is_success_status(code),
    ensures
        h.model() == spec_classify(
            ProbeOutcome::Responded(
                code,
                match outcome {
                    Ok(b) => Ok(b@),
                    Err(e) => Err(e@),
                },
            ),
        ),
        outcome matches Ok(b) ==> h == HealthResult::Reachable(b),
        outcome matches Err(e) ==> h == HealthResult::BodyReadError(e),
{
    match outcome {
        Ok(body) => HealthResult::Reachable(body),
        Err(e) => HealthResult::BodyReadError(e),
    }
}

/// Law: the classification is total and mutually exclusive — every probe
/// outcome receives exactly one of the four classifications, and each one
/// characterizes its outcomes: connection failures and nothing else map to
/// `ConnectionFailed`, non-success statuses and nothing else to
/// `UnhealthyStatus`, success with a readable body and nothing else to
/// `Reachable`, success with a failed read and nothing else to
/// `BodyReadError`.
pub proof fn lemma_classification_total_and_exclusive(o: ProbeOutcome)
    ensures
        (spec_classify(o) is ConnectionFailed <==> o is NoResponse),
        (spec_classify(o) is UnhealthyStatus <==> (o matches ProbeOutcome::Responded(code, _body)
            && !is_success_status(code))),
        (spec_classify(o) is Reachable <==> (o matches ProbeOutcome::Responded(code, body)
            && is_success_status(code) && body is Ok)),
        (spec_classify(o) is BodyReadError <==> (o matches ProbeOutcome::Responded(code, body)
            && is_success_status(code) && body is Err)),
{
}

} // verus!
