//! Request-line classification: which endpoint a line asks for, and the
//! outcome it gets.

use vstd::prelude::*;
use crate::text::{has_prefix, starts_with};

verus! {

/// The endpoint a request line asks for, by case-sensitive prefix.
#[derive(Clone, Copy, Debug, PartialEq, Eq, Structural)]
pub enum Route {
    /// `GET /healthcheck`, `GET /ok` or `GET /heartbeat`.
    Health,
    /// `GET /failing-deepcheck`: always fails.
    FailingDeepcheck,
    /// `GET /flakey-deepcheck`: fails for part of every clock period.
    FlakeyDeepcheck,
    /// Anything else.
    Unknown,
}

/// What a request is answered with.
#[derive(Clone, Copy, Debug, PartialEq, Eq, Structural)]
pub enum Outcome {
    /// `200` with the configured text.
    Success,
    /// `404 NOT FOUND`.
    NotFound,
    /// `500 INTERNAL SERVER ERROR`.
    InternalError,
}

pub open spec fn is_health_line(line: Seq<char>) -> bool {
    has_prefix(line, "GET /healthcheck"@) || has_prefix(line, "GET /ok"@) || has_prefix(
        line,
        "GET /heartbeat"@,
    )
}

/// The route of a request line; the first matching rule wins.
pub open spec fn route_spec(line: Seq<char>) -> Route {
    if is_health_line(line) {
        Route::Health
    } else if has_prefix(line, "GET /failing-deepcheck"@) {
        Route::FailingDeepcheck
    } else if has_prefix(line, "GET /flakey-deepcheck"@) {
        Route::FlakeyDeepcheck
    } else {
        Route::Unknown
    }
}

/// The flakey endpoint fails when the millisecond clock, modulo 100, is
/// under 20.
pub open spec fn flakey_fails_at(now_millis: int) -> bool {
    now_millis % 100 < 20
}

/// The outcome for a request line at the given millisecond clock value.
pub open spec fn outcome_spec(line: Seq<char>, now_millis: int) -> Outcome {
    match route_spec(line) {
        Route::Health => Outcome::Success,
        Route::FailingDeepcheck => Outcome::InternalError,
        Route::FlakeyDeepcheck => if flakey_fails_at(now_millis) {
            Outcome::InternalError
        } else {
            Outcome::Success
        },
        Route::Unknown => Outcome::NotFound,
    }
}

/// The route that `line` asks for.
pub fn route_of(line: &str) -> (r: Route)
    ensures
        r == route_spec(line@),
{
    if starts_with(line, "GET /healthcheck") || starts_with(line, "GET /ok") || starts_with(
        line,
        "GET /heartbeat",
    ) {
        Route::Health
    } else if starts_with(line, "GET /failing-deepcheck") {
        Route::FailingDeepcheck
    } else if starts_with(line, "GET /flakey-deepcheck") {
        Route::FlakeyDeepcheck
    } else {
        Route::Unknown
    }
}

/// Whether the flakey endpoint fails at clock value `now_millis`
/// (milliseconds since the Unix epoch).
pub fn flakey_fails(now_millis: u128) -> (r: bool)
    ensures
        r == flakey_fails_at(now_millis as int),
{
    now_millis % 100 < 20
}

/// The outcome for `line` at clock value `now_millis`.
pub fn classify(line: &str, now_millis: u128) -> (r: Outcome)
    ensures
        r == outcome_spec(line@, now_millis as int),
{
    match route_of(line) {
        Route::Health => Outcome::Success,
        Route::FailingDeepcheck => Outcome::InternalError,
        Route::FlakeyDeepcheck => if flakey_fails(now_millis) {
            Outcome::InternalError
        } else {
            Outcome::Success
        },
        Route::Unknown => Outcome::NotFound,
    }
}

/// How many of the `n` clock values `start`, `start + 1`, ...,
/// `start + n - 1` make the flakey endpoint fail.
pub open spec fn flakey_failures(start: int, n: nat) -> nat
    decreases n,
{
    if n == 0 {
        0
    } else {
        flakey_failures(start, (n - 1) as nat) + if flakey_fails_at(start + n - 1) {
            1nat
        } else {
            0nat
        }
    }
}

proof fn lemma_failures_split_front(start: int, n: nat)
    requires
        n > 0,
    ensures
        flakey_failures(start, n) == (if flakey_fails_at(start) {
            1nat
        } else {
            0nat
        }) + flakey_failures(start + 1, (n - 1) as nat),
    decreases n,
{
    if n == 1 {
        assert(flakey_failures(start, 0) == 0);
        assert(flakey_failures(start + 1, 0) == 0);
    } else {
        lemma_failures_split_front(start, (n - 1) as nat);
        assert(flakey_failures(start + 1, (n - 1) as nat) == flakey_failures(
            start + 1,
            (n - 2) as nat,
        ) + if flakey_fails_at(start + n - 1) {
            1nat
        } else {
            0nat
        });
    }
}

proof fn lemma_failures_first_period(k: nat)
    requires
        k <= 100,
    ensures
        flakey_failures(0, k) == if k <= 20 {
            k
        } else {
            20
        },
    decreases k,
{
    if k > 0 {
        lemma_failures_first_period((k - 1) as nat);
    }
}

/// The flakey endpoint fails on exactly 20 of any 100 consecutive clock
/// values, so its failure rate over whole periods is exactly one in five.
pub proof fn lemma_flakey_rate(start: nat)
    ensures
        flakey_failures(start as int, 100) == 20,
    decreases start,
{
    if start == 0 {
        lemma_failures_first_period(100);
    } else {
        let s = (start - 1) as int;
        lemma_flakey_rate((start - 1) as nat);
        lemma_failures_split_front(s, 100);
        assert(flakey_failures(s + 1, 100) == flakey_failures(s + 1, 99) + if flakey_fails_at(
            s + 100,
        ) {
            1nat
        } else {
            0nat
        });
        assert((s + 100) % 100 == s % 100);
    }
}

} // verus!
