//! Properties that relate the classification, the configuration and the
//! rendered responses.

use vstd::prelude::*;
use crate::classify::{Outcome, Route, is_health_line, outcome_spec, route_spec};
use crate::config::setting_or;
use crate::response::{Reply, answers, status_text};
use crate::text::{first_line_of, has_prefix};

verus! {

/// Every line that starts with `GET /healthcheck`, `GET /ok` or
/// `GET /heartbeat`, whatever follows, is answered `200` with the configured
/// text, at every clock value.
pub proof fn lemma_health_lines_succeed(line: Seq<char>, now_millis: int, ok_text: Seq<char>)
    requires
        is_health_line(line),
    ensures
        status_text(outcome_spec(line, now_millis), ok_text) == "HTTP/1.1 200 "@ + ok_text
            + "\r\n\r\n"@,
{
}

/// Every line that starts with `GET /failing-deepcheck` is answered `500`, at
/// every clock value.
pub proof fn lemma_failing_deepcheck_always_fails(
    line: Seq<char>,
    now_millis: int,
    ok_text: Seq<char>,
)
    requires
        has_prefix(line, "GET /failing-deepcheck"@),
    ensures
        status_text(outcome_spec(line, now_millis), ok_text)
            == "HTTP/1.1 500 INTERNAL SERVER ERROR\r\n\r\n"@,
{
    reveal_strlit("GET /failing-deepcheck");
    reveal_strlit("GET /healthcheck");
    reveal_strlit("GET /ok");
    reveal_strlit("GET /heartbeat");
    assert(line[5] == "GET /failing-deepcheck"@[5]);
}

/// A line that starts with none of the known prefixes is answered `404`.
pub proof fn lemma_unmatched_lines_not_found(line: Seq<char>, now_millis: int, ok_text: Seq<char>)
    requires
        !is_health_line(line),
        !has_prefix(line, "GET /failing-deepcheck"@),
        !has_prefix(line, "GET /flakey-deepcheck"@),
    ensures
        status_text(outcome_spec(line, now_millis), ok_text) == "HTTP/1.1 404 NOT FOUND\r\n\r\n"@,
{
}

/// The same request to any endpoint but the flakey one gets the same
/// response, whenever it is made.
pub proof fn lemma_repeated_request_same_response(
    text: Seq<char>,
    ok_text: Seq<char>,
    first: Reply,
    first_millis: int,
    second: Reply,
    second_millis: int,
)
    requires
        route_spec(first_line_of(text)) != Route::FlakeyDeepcheck,
        answers(first, text, first_millis, ok_text),
        answers(second, text, second_millis, ok_text),
    ensures
        first.response@ == second.response@,
{
}

/// The success text is the configured one, verbatim, and `OK` when none is
/// configured.
pub proof fn lemma_configured_ok_text(ok_setting: Option<Seq<char>>)
    ensures
        status_text(Outcome::Success, setting_or(ok_setting, "OK"@)) == match ok_setting {
            Some(t) => "HTTP/1.1 200 "@ + t + "\r\n\r\n"@,
            None => "HTTP/1.1 200 OK\r\n\r\n"@,
        },
{
    reveal_strlit("HTTP/1.1 200 ");
    reveal_strlit("OK");
    reveal_strlit("\r\n\r\n");
    reveal_strlit("HTTP/1.1 200 OK\r\n\r\n");
    assert("HTTP/1.1 200 "@ + "OK"@ + "\r\n\r\n"@ =~= "HTTP/1.1 200 OK\r\n\r\n"@);
}

} // verus!
