//! Metadata lookup: classifying the provider's response and deciding
//! between accepting it, retrying after a sleep, and giving up.
//!
//! One metadata request is issued per attempt. A transport error, a
//! non-success status, or a success whose body parses to zero records
//! all count as one retryable failure. With `max_attempts` as the
//! retry budget, up to `max_attempts + 1` requests are issued in all;
//! exhausting them without a non-empty parse is fatal for the
//! accession.

use vstd::prelude::*;

use crate::record::{parse_records, spec_parse_records, RunRecord};

verus! {

/// The outcome of one metadata request, after parsing.
pub enum ENAServerResponse {
    /// A success status whose body parsed to one or more records.
    Success(Vec<RunRecord>),
    /// The status and text of a failed or empty response.
    Error(u16, String),
}

/// Classifies one metadata response from its HTTP status and body.
///
/// A success status with zero parsed records is reported as an error
/// with status 200: server-side transient emptiness, retryable.
pub fn classify_response(status: u16, body: &str) -> (r: ENAServerResponse)
    ensures
        200 <= status < 300 && spec_parse_records(body@).len() > 0 ==> (r matches
            ENAServerResponse::Success(data) && data@.len() == spec_parse_records(body@).len() && (
        forall|i: int| 0 <= i < data@.len() ==> (#[trigger] data@[i]).view_fields()
            == spec_parse_records(body@)[i]) && (forall|i: int|
            0 <= i < data@.len() ==> (#[trigger] data@[i]).wf())),
        200 <= status < 300 && spec_parse_records(body@).len() == 0 ==> (r matches
            ENAServerResponse::Error(st, _) && st == 200),
        !(200 <= status < 300) ==> (r matches ENAServerResponse::Error(st, msg) && st == status
            && msg@ == body@),
{
    if 200 <= status && status < 300 {
        let records = parse_records(body);
        if records.len() > 0 {
            ENAServerResponse::Success(records)
        } else {
            ENAServerResponse::Error(200u16, String::from_str("empty metadata response"))
        }
    } else {
        ENAServerResponse::Error(status, body.to_owned())
    }
}

/// How the lookup reacts to one classified response.
#[derive(Debug, Clone, Copy, PartialEq, Eq, Structural)]
pub enum FetchDecision {
    /// A non-empty parse: use these records, no further attempts.
    Accept,
    /// A retryable failure with budget left: sleep, then request again.
    RetryAfterSleep,
    /// A retryable failure with the budget exhausted: fatal.
    GiveUp,
}

/// The retry state of one metadata lookup.
#[derive(Debug, Clone, Copy, PartialEq, Eq, Structural)]
pub struct FetchState {
    /// Failed attempts so far.
    pub failures: usize,
    /// The retry budget: after the first request, up to this many more.
    pub max_attempts: usize,
}

/// A fresh lookup that has made no attempts yet.
pub fn fetch_init(max_attempts: usize) -> (s: FetchState)
    ensures
        s.failures == 0,
        s.max_attempts == max_attempts,
{
    FetchState { failures: 0, max_attempts }
}

/// Whether the lookup may still issue a request.
pub fn fetch_pending(s: &FetchState) -> (r: bool)
    ensures
        r == (s.failures <= s.max_attempts),
{
    s.failures <= s.max_attempts
}

/// Advances the lookup on one classified response.
///
/// A successful, non-empty response is accepted at once and costs no
/// budget; any failure counts one attempt, and the decision says
/// whether budget remains.
pub fn fetch_step(s: &mut FetchState, resp: &ENAServerResponse) -> (d: FetchDecision)
    requires
        old(s).failures <= old(s).max_attempts,
        old(s).max_attempts < usize::MAX,
    ensures
        final(s).max_attempts == old(s).max_attempts,
        resp matches ENAServerResponse::Success(_) ==> d == FetchDecision::Accept
            && final(s).failures == old(s).failures,
        resp matches ENAServerResponse::Error(_, _) ==> final(s).failures == old(s).failures + 1,
        (resp matches ENAServerResponse::Error(_, _) && old(s).failures < old(s).max_attempts)
            ==> d == FetchDecision::RetryAfterSleep,
        (resp matches ENAServerResponse::Error(_, _) && old(s).failures == old(s).max_attempts)
            ==> d == FetchDecision::GiveUp,
{
    match resp {
        ENAServerResponse::Success(_) => FetchDecision::Accept,
        ENAServerResponse::Error(_, _) => {
            let exhausted = s.failures == s.max_attempts;
            s.failures += 1;
            if exhausted {
                FetchDecision::GiveUp
            } else {
                FetchDecision::RetryAfterSleep
            }
        },
    }
}

} // verus!
