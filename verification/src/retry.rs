//! The decisions of the REST request loop: what a client does after each
//! attempt. Rate limits update the global or the route limiter and retry;
//! "still indexing" answers to a bot's message search are retried until a
//! deadline fixed by the first of them; anything else ends the request.
//!
//! Times are nanoseconds on a monotonic clock chosen by the caller.

use vstd::prelude::*;
use vstd::string::StringExecFns;
use crate::text::{append_str, copy_str};

verus! {

/// How long a message search may keep answering "still indexing".
pub const SEARCH_INDEXING_TIMEOUT_NANOS: u64 = 30_000_000_000;

/// The outcome of one attempt, as far as the loop needs it.
#[derive(Clone, Copy, Debug, PartialEq, Eq, Structural)]
pub enum AttemptOutcome {
    /// A response for the caller, or an error that ends the request.
    Finished,
    /// HTTP 429: wait `retry_after` nanoseconds; `global` says on which limiter.
    RateLimited { retry_after: u64, global: bool },
    /// Message search is still indexing: retry after `retry_after` nanoseconds.
    SearchIndexing { retry_after: u64 },
}

/// What the loop does next.
#[derive(Debug, PartialEq, Eq)]
pub enum RetryAction {
    /// Hand the attempt's result to the caller.
    Return,
    /// Update the global limiter with this delay, then try again.
    UpdateGlobalAndRetry(u64),
    /// Update the route's limiter with this delay, then try again.
    UpdateRouteAndRetry(u64),
    /// Sleep this long, then try again.
    SleepAndRetry(u64),
    /// Stop with this message: indexing outlasted the deadline.
    GiveUp(String),
}

/// The message of a request whose search indexing outlasted the deadline.
pub open spec fn indexing_timeout_message(path: Seq<char>) -> Seq<char> {
    "Message search indexing did not finish within 30 seconds ["@ + path + "]"@
}

/// The deadline after an indexing answer at `now`: the first one fixes it.
pub open spec fn deadline_after(deadline: Option<u64>, now: u64) -> u64 {
    match deadline {
        Some(d) => d,
        None => (now + SEARCH_INDEXING_TIMEOUT_NANOS) as u64,
    }
}

/// The state a request keeps across its attempts.
#[derive(Clone, Copy, Debug, PartialEq, Eq, Structural)]
pub struct RequestRetry {
    pub indexing_deadline: Option<u64>,
}

impl RequestRetry {
    /// The state before the first attempt.
    pub fn new() -> (r: RequestRetry)
        ensures
            r.indexing_deadline is None,
    {
        RequestRetry { indexing_deadline: None }
    }

    /// Decides what follows an attempt that ended at `now` with `outcome`.
    pub fn next_action(&mut self, outcome: AttemptOutcome, now: u64, path: &str) -> (action:
        RetryAction)
        requires
            (outcome is SearchIndexing && old(self).indexing_deadline is None) ==> now
                + SEARCH_INDEXING_TIMEOUT_NANOS <= u64::MAX,
        ensures
            match outcome {
                AttemptOutcome::Finished => action == RetryAction::Return && *final(self) == *old(
                    self,
                ),
                AttemptOutcome::RateLimited { retry_after, global } => *final(self) == *old(self)
                    && if global {
                    action == RetryAction::UpdateGlobalAndRetry(retry_after)
                } else {
                    action == RetryAction::UpdateRouteAndRetry(retry_after)
                },
                AttemptOutcome::SearchIndexing { retry_after } => {
                    let d = deadline_after(old(self).indexing_deadline, now);
                    &&& final(self).indexing_deadline == Some(d)
                    &&& if d >= now && (retry_after as int) < d - now {
                        action == RetryAction::SleepAndRetry(retry_after)
                    } else {
                        action matches RetryAction::GiveUp(m) && m@ == indexing_timeout_message(
                            path@,
                        )
                    }
                },
            },
    {
        match outcome {
            AttemptOutcome::Finished => RetryAction::Return,
            AttemptOutcome::RateLimited { retry_after, global } => {
                if global {
                    RetryAction::UpdateGlobalAndRetry(retry_after)
                } else {
                    RetryAction::UpdateRouteAndRetry(retry_after)
                }
            },
            AttemptOutcome::SearchIndexing { retry_after } => {
                let deadline = match self.indexing_deadline {
                    Some(d) => d,
                    None => now + SEARCH_INDEXING_TIMEOUT_NANOS,
                };
                self.indexing_deadline = Some(deadline);
                if deadline >= now && retry_after < deadline - now {
                    RetryAction::SleepAndRetry(retry_after)
                } else {
                    let mut m = copy_str("Message search indexing did not finish within 30 seconds [");
                    append_str(&mut m, path);
                    append_str(&mut m, "]");
                    RetryAction::GiveUp(m)
                }
            },
        }
    }
}

/// The indexing deadline is fixed by the first indexing answer and never
/// moves, and every sleep it allows ends before it: a request waits for
/// indexing at most the timeout after its first indexing answer.
pub proof fn law_indexing_sleep_ends_before_deadline(
    deadline: Option<u64>,
    now: u64,
    retry_after: u64,
    later: u64,
)
    requires
        deadline is None ==> now + SEARCH_INDEXING_TIMEOUT_NANOS <= u64::MAX,
    ensures
        deadline_after(Some(deadline_after(deadline, now)), later) == deadline_after(deadline, now),
        deadline matches Some(d) ==> deadline_after(deadline, now) == d,
        deadline is None ==> deadline_after(deadline, now) == now + SEARCH_INDEXING_TIMEOUT_NANOS,
        ({
            let d = deadline_after(deadline, now);
            (d >= now && (retry_after as int) < d - now) ==> now + retry_after < d
        }),
{
}

/// The first indexing answer fixes the deadline thirty seconds after it;
/// later answers keep that deadline.
pub proof fn law_indexing_deadline_is_thirty_seconds(now: u64, d: u64, later: u64)
    requires
        now + 30_000_000_000 <= u64::MAX,
    ensures
        deadline_after(None, now) == now + 30_000_000_000,
        deadline_after(Some(d), later) == d,
        indexing_timeout_message("p"@) == "Message search indexing did not finish within 30 seconds ["@
            + "p"@ + "]"@,
{
}

} // verus!
