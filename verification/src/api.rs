//! Requests to the Resend API: endpoint paths, list queries, and the retry
//! policy applied to every request (rate limits and server errors are
//! retried, up to five attempts in all).

use vstd::prelude::*;
use crate::chars::trim_str;
use crate::chars::trim;
use crate::fmt::{concat, concat3, decimal, usize_to_decimal};
use crate::wake::{parse_i64, parsed_i64};

verus! {

/// The base URL of the Resend API.
pub open spec fn api_base() -> Seq<char> {
    "https://api.resend.com"@
}

/// The full URL of an API path.
pub fn api_url(path: &str) -> (url: String)
    ensures
        url@ == api_base() + path@,
{
    concat("https://api.resend.com", path)
}

/// Path of one sent email.
pub fn sent_email_path(id: &str) -> (p: String)
    ensures
        p@ == "/emails/"@ + id@,
{
    concat("/emails/", id)
}

/// Path of one received email.
pub fn received_email_path(id: &str) -> (p: String)
    ensures
        p@ == "/emails/receiving/"@ + id@,
{
    concat("/emails/receiving/", id)
}

/// Path of the attachment list of a received email.
pub fn received_attachments_path(email_id: &str) -> (p: String)
    ensures
        p@ == "/emails/receiving/"@ + email_id@ + "/attachments"@,
{
    concat3("/emails/receiving/", email_id, "/attachments")
}

/// Path of the attachment list of a sent email.
pub fn sent_attachments_path(email_id: &str) -> (p: String)
    ensures
        p@ == "/emails/"@ + email_id@ + "/attachments"@,
{
    concat3("/emails/", email_id, "/attachments")
}

/// Query pairs of a list request: the page size, and where to continue.
pub open spec fn list_query_pairs(limit: nat, after: Option<Seq<char>>) -> Seq<(Seq<char>, Seq<char>)> {
    let first = seq![("limit"@, decimal(limit))];
    match after {
        Some(a) => first.push(("after"@, a)),
        None => first,
    }
}

pub open spec fn pair_views(v: Seq<(String, String)>) -> Seq<(Seq<char>, Seq<char>)> {
    v.map_values(|p: (String, String)| (p.0@, p.1@))
}

/// The query of a page request (`limit`, then `after` when continuing).
pub fn list_page_query(limit: usize, after: Option<&str>) -> (q: Vec<(String, String)>)
    ensures
        pair_views(q@) == list_query_pairs(limit as nat, match after {
            Some(a) => Some(a@),
            None => None,
        }),
{
    let mut q: Vec<(String, String)> = Vec::new();
    q.push((String::from_str("limit"), usize_to_decimal(limit)));
    match after {
        Some(a) => {
            q.push((String::from_str("after"), String::from_str(a)));
        },
        None => {},
    }
    assert(pair_views(q@) =~= list_query_pairs(limit as nat, match after {
        Some(a) => Some(a@),
        None => None,
    }));
    q
}

/// How many times a request is attempted at most.
pub open spec fn max_attempts() -> nat {
    5
}

/// What came of one attempt of a request.
#[derive(Debug, Clone, Copy, PartialEq, Eq)]
pub enum AttemptOutcome {
    /// The request did not get through; `retryable` for timeouts and
    /// connection failures.
    Transport { retryable: bool },
    /// The server answered with this HTTP status.
    Status(u16),
}

/// What to do after an attempt.
#[derive(Debug, Clone, Copy, PartialEq, Eq)]
pub enum RetryStep {
    /// Wait with exponential backoff, then try again.
    Backoff,
    /// Wait as long as the server asks (rate limited), then try again.
    RetryAfter,
    /// Hand the response to the caller.
    Deliver,
    /// Give up with the transport error.
    Fail,
}

/// The retry policy for one attempt: retryable transport errors and server
/// errors (5xx) back off, 429 waits as told, every other answer is
/// delivered, and other transport errors fail.
pub open spec fn retry_policy(outcome: AttemptOutcome) -> RetryStep {
    match outcome {
        AttemptOutcome::Transport { retryable } => if retryable {
            RetryStep::Backoff
        } else {
            RetryStep::Fail
        },
        AttemptOutcome::Status(code) => if code == 429 {
            RetryStep::RetryAfter
        } else if 500 <= code <= 599 {
            RetryStep::Backoff
        } else {
            RetryStep::Deliver
        },
    }
}

/// Decides what follows an attempt.
pub fn retry_step(outcome: AttemptOutcome) -> (s: RetryStep)
    ensures
        s == retry_policy(outcome),
{
    match outcome {
        AttemptOutcome::Transport { retryable } => {
            if retryable {
                RetryStep::Backoff
            } else {
                RetryStep::Fail
            }
        },
        AttemptOutcome::Status(code) => {
            if code == 429 {
                RetryStep::RetryAfter
            } else if 500 <= code && code <= 599 {
                RetryStep::Backoff
            } else {
                RetryStep::Deliver
            }
        },
    }
}

/// Whether attempt number `attempt` (counted from 0) may be made.
pub fn may_attempt(attempt: u32) -> (b: bool)
    ensures
        b == (attempt < max_attempts()),
{
    attempt < 5
}

/// The outcome of a whole request: `Some(i)` when attempt `i` is delivered or
/// fails, `None` when every allowed attempt asked to wait and try again.
pub open spec fn request_settles_at(outcomes: Seq<AttemptOutcome>) -> Option<int>
    decreases outcomes.len(),
{
    if outcomes.len() == 0 {
        None
    } else {
        match request_settles_at(outcomes.drop_last()) {
            Some(i) => Some(i),
            None => {
                let s = retry_policy(outcomes.last());
                if (s == RetryStep::Deliver || s == RetryStep::Fail) && outcomes.len()
                    <= max_attempts() {
                    Some(outcomes.len() - 1)
                } else {
                    None
                }
            },
        }
    }
}

/// A request settles at its first delivered or failed attempt, and never
/// after the fifth attempt.
pub proof fn request_settles_within_attempts(outcomes: Seq<AttemptOutcome>)
    ensures
        request_settles_at(outcomes) matches Some(i) ==> {
            &&& 0 <= i < max_attempts()
            &&& i < outcomes.len()
            &&& (retry_policy(outcomes[i]) == RetryStep::Deliver || retry_policy(outcomes[i])
                == RetryStep::Fail)
            &&& forall|j: int|
                0 <= j < i ==> retry_policy(#[trigger] outcomes[j]) == RetryStep::Backoff
                    || retry_policy(outcomes[j]) == RetryStep::RetryAfter
        },
    decreases outcomes.len(),
{
    if outcomes.len() > 0 {
        let init = outcomes.drop_last();
        request_settles_within_attempts(init);
        match request_settles_at(init) {
            Some(i) => {
                assert(outcomes[i] == init[i]);
                assert forall|j: int| 0 <= j < i implies retry_policy(#[trigger] outcomes[j])
                    == RetryStep::Backoff || retry_policy(outcomes[j]) == RetryStep::RetryAfter by {
                    assert(outcomes[j] == init[j]);
                }
            },
            None => {
                lemma_unsettled_all_wait(init);
                if request_settles_at(outcomes) is Some {
                assert forall|j: int| 0 <= j < outcomes.len() - 1 implies retry_policy(
                    #[trigger] outcomes[j],
                ) == RetryStep::Backoff || retry_policy(outcomes[j]) == RetryStep::RetryAfter by {
                    assert(outcomes[j] == init[j]);
                    if j < max_attempts() {
                        assert(retry_policy(init[j]) == RetryStep::Backoff || retry_policy(init[j])
                            == RetryStep::RetryAfter);
                    }
                }
                }
            },
        }
    }
}

proof fn lemma_unsettled_all_wait(outcomes: Seq<AttemptOutcome>)
    requires
        request_settles_at(outcomes) is None,
    ensures
        forall|j: int|
            0 <= j < outcomes.len() && j < max_attempts() ==> retry_policy(#[trigger] outcomes[j])
                == RetryStep::Backoff || retry_policy(outcomes[j]) == RetryStep::RetryAfter,
    decreases outcomes.len(),
{
    if outcomes.len() > 0 {
        let init = outcomes.drop_last();
        lemma_unsettled_all_wait(init);
        assert forall|j: int|
            0 <= j < outcomes.len() && j < max_attempts() implies retry_policy(
                #[trigger] outcomes[j],
            ) == RetryStep::Backoff || retry_policy(outcomes[j]) == RetryStep::RetryAfter by {
            if j < init.len() {
                assert(outcomes[j] == init[j]);
            }
        }
    }
}

/// The pause before the next attempt after attempt `attempt` (from 0)
/// backed off: half a second, doubled after each attempt.
pub open spec fn backoff_ms(attempt: nat) -> nat
    decreases attempt,
{
    if attempt == 0 {
        500
    } else {
        2 * backoff_ms((attempt - 1) as nat)
    }
}

/// Computes the back-off pause, in milliseconds.
pub fn backoff_millis(attempt: u32) -> (ms: u64)
    requires
        attempt < max_attempts(),
    ensures
        ms == backoff_ms(attempt as nat),
{
    let mut ms: u64 = 500;
    let mut i: u32 = 0;
    while i < attempt
        invariant
            i <= attempt,
            attempt < 5,
            ms == backoff_ms(i as nat),
            i == 0 && ms == 500 || i == 1 && ms == 1000 || i == 2 && ms == 2000 || i == 3 && ms
                == 4000 || i == 4 && ms == 8000,
        decreases attempt - i,
    {
        assert(i < 4);
        ms = ms * 2;
        i += 1;
        assert(ms == backoff_ms(i as nat));
    }
    ms
}

/// The pause the server asks for with `Retry-After` (whole seconds, after
/// trimming), in milliseconds; the back-off pause when the header is absent
/// or not a number of seconds.
pub open spec fn retry_after_ms(header: Option<Seq<char>>, attempt: nat) -> nat {
    match header {
        Some(h) => match parsed_i64(trim(h)) {
            Some(n) => if 0 <= n <= 9223372036854775 {
                (n * 1000) as nat
            } else {
                backoff_ms(attempt)
            },
            None => backoff_ms(attempt),
        },
        None => backoff_ms(attempt),
    }
}

/// Computes the pause after a rate-limited attempt, in milliseconds.
pub fn retry_after_millis(header: Option<&str>, attempt: u32) -> (ms: u64)
    requires
        attempt < max_attempts(),
    ensures
        ms == retry_after_ms(
            match header {
                Some(h) => Some(h@),
                None => None,
            },
            attempt as nat,
        ),
{
    match header {
        Some(h) => {
            let t = trim_str(h);
            match parse_i64(t.as_str()) {
                Some(n) => {
                    if 0 <= n && n <= 9223372036854775 {
                        (n as u64) * 1000
                    } else {
                        backoff_millis(attempt)
                    }
                },
                None => backoff_millis(attempt),
            }
        },
        None => backoff_millis(attempt),
    }
}

} // verus!
