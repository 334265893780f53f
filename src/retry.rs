//! The retry policy of the fetch client: after each attempt, finish, fail or
//! wait and try again. The requests and the waiting are the caller's.
use vstd::prelude::*;
use crate::error::{DownloadError, NetworkFailure};

verus! {

/// What one attempt came to.
#[derive(Debug, Clone)]
pub enum AttemptOutcome {
    /// A success status, and the whole body was read.
    Completed,
    /// A response whose status is not a success.
    Status(u16),
    /// The request could not be sent or got no response.
    Send { kind: NetworkFailure, detail: String },
    /// The body of a success response could not be read.
    Body { kind: NetworkFailure, detail: String },
}

/// What the caller does next.
#[derive(Debug, Clone)]
pub enum RetryDecision {
    /// The attempt succeeded.
    Done,
    /// Stop with this error.
    Fail(DownloadError),
    /// Wait `delay_ms` milliseconds, then try again; `error` is what this attempt gave.
    Retry { delay_ms: u64, error: DownloadError },
}

/// Up to `max_retries` retries after the first try, the `k`th retry (from 0)
/// waiting `base_delay_ms * 2^k` milliseconds.
#[derive(Debug, Clone, Copy)]
pub struct RetryPolicy {
    pub max_retries: u32,
    pub base_delay_ms: u64,
}

pub open spec fn two_pow(n: nat) -> nat
    decreases n,
{
    if n == 0 {
        1
    } else {
        2 * two_pow((n - 1) as nat)
    }
}

proof fn lemma_two_pow_mono(a: nat, b: nat)
    requires
        a <= b,
    ensures
        1 <= two_pow(a) <= two_pow(b),
    decreases b,
{
    if b > a {
        lemma_two_pow_mono(a, (b - 1) as nat);
    } else if a > 0 {
        lemma_two_pow_mono((a - 1) as nat, (a - 1) as nat);
    }
}

pub open spec fn is_success_status(s: u16) -> bool {
    200 <= s <= 299
}

pub open spec fn is_client_error(s: u16) -> bool {
    400 <= s <= 499
}

/// `e` is the error that attempt outcome `o` gives for `url`.
pub open spec fn attempt_error(e: DownloadError, url: Seq<char>, o: AttemptOutcome) -> bool {
    match o {
        AttemptOutcome::Completed => false,
        AttemptOutcome::Status(s) => if s == 404 {
            e matches DownloadError::FileNotFound(u) && u@ == url
        } else {
            e matches DownloadError::HttpError { status, url: u } && status == s && u@ == url
        },
        AttemptOutcome::Send { kind, detail } => if kind == NetworkFailure::Timeout {
            e matches DownloadError::Timeout(u) && u@ == url
        } else {
            e matches DownloadError::NetworkError { kind: k, detail: d } && k == kind && d@
                == detail@
        },
        AttemptOutcome::Body { kind, detail } => e matches DownloadError::NetworkError {
            kind: k,
            detail: d,
        } && k == kind && d@ == detail@,
    }
}

/// The attempt is over for good, successfully.
pub open spec fn succeeded(o: AttemptOutcome) -> bool {
    o is Completed || (o matches AttemptOutcome::Status(s) && is_success_status(s))
}

/// A client error: retrying will not help.
pub open spec fn permanent(o: AttemptOutcome) -> bool {
    o matches AttemptOutcome::Status(s) && is_client_error(s)
}

impl RetryPolicy {
    pub open spec fn wf(self) -> bool {
        self.max_retries <= 16 && self.base_delay_ms <= 0xffff_ffff
    }

    pub open spec fn delay_spec(self, attempt: nat) -> nat {
        (self.base_delay_ms as nat) * two_pow(attempt)
    }

    /// Three retries, starting at half a second.
    pub fn new() -> (r: RetryPolicy)
        ensures
            r.max_retries == 3,
            r.base_delay_ms == 500,
            r.wf(),
    {
        RetryPolicy { max_retries: 3, base_delay_ms: 500 }
    }

    /// The wait before retry number `attempt` (from 0).
    pub fn calculate_delay(&self, attempt: u32) -> (r: u64)
        requires
            self.wf(),
            attempt < self.max_retries,
        ensures
            r == self.delay_spec(attempt as nat),
    {
        let mut d: u64 = self.base_delay_ms;
        let mut k: u32 = 0;
        assert(two_pow(0) == 1);
        while k < attempt
            invariant
                self.wf(),
                k <= attempt < self.max_retries,
                d == self.base_delay_ms * two_pow(k as nat),
            decreases attempt - k,
        {
            proof {
                lemma_two_pow_mono((k + 1) as nat, 16);
                reveal_with_fuel(two_pow, 17);
                assert(two_pow(16) == 65536);
                let t = two_pow(k as nat);
                assert(self.base_delay_ms * (2 * t) == 2 * (self.base_delay_ms * t)) by (
                nonlinear_arith);
                assert(self.base_delay_ms * (2 * t) <= 0xffff_ffff * 65536) by (nonlinear_arith)
                    requires
                        self.base_delay_ms <= 0xffff_ffff,
                        2 * t <= 65536,
                ;
            }
            d = d * 2;
            k += 1;
        }
        d
    }

    /// The error that an unsuccessful attempt gives for `url`.
    fn error_of(url: &str, outcome: AttemptOutcome) -> (r: DownloadError)
        requires
            !succeeded(outcome),
        ensures
            attempt_error(r, url@, outcome),
    {
        match outcome {
            AttemptOutcome::Completed => DownloadError::Timeout(String::from_str(url)),
            AttemptOutcome::Status(s) => DownloadError::from_status(s, url),
            AttemptOutcome::Send { kind, detail } => {
                if kind == NetworkFailure::Timeout {
                    DownloadError::Timeout(String::from_str(url))
                } else {
                    DownloadError::NetworkError { kind, detail }
                }
            },
            AttemptOutcome::Body { kind, detail } => DownloadError::NetworkError { kind, detail },
        }
    }

    /// What to do after attempt number `attempt` (from 0) on `url` came to
    /// `outcome`: a success finishes; a client error (4xx) fails at once; any
    /// other failure is retried while retries are left, and fails with its
    /// own error once they are not.
    pub fn decide(&self, url: &str, attempt: u32, outcome: AttemptOutcome) -> (r: RetryDecision)
        requires
            self.wf(),
        ensures
            succeeded(outcome) ==> r is Done,
            !succeeded(outcome) && permanent(outcome) ==> (r matches RetryDecision::Fail(e)
                && attempt_error(e, url@, outcome)),
            !succeeded(outcome) && !permanent(outcome) && attempt < self.max_retries ==> (
            r matches RetryDecision::Retry { delay_ms, error } && delay_ms == self.delay_spec(
                attempt as nat,
            ) && attempt_error(error, url@, outcome)),
            !succeeded(outcome) && !permanent(outcome) && attempt >= self.max_retries ==> (
            r matches RetryDecision::Fail(e) && attempt_error(e, url@, outcome)),
    {
        let client_error = match &outcome {
            AttemptOutcome::Completed => {
                return RetryDecision::Done;
            },
            AttemptOutcome::Status(s) => {
                if 200 <= *s && *s <= 299 {
                    return RetryDecision::Done;
                }
                400 <= *s && *s <= 499
            },
            _ => false,
        };
        let error = Self::error_of(url, outcome);
        if client_error {
            RetryDecision::Fail(error)
        } else if attempt < self.max_retries {
            RetryDecision::Retry { delay_ms: self.calculate_delay(attempt), error }
        } else {
            RetryDecision::Fail(error)
        }
    }
}

impl Default for RetryPolicy {
    fn default() -> (r: RetryPolicy)
        ensures
            r.max_retries == 3,
            r.base_delay_ms == 500,
    {
        RetryPolicy::new()
    }
}

} // verus!
