//! Answering one request: decoding the bytes read, taking the first line,
//! classifying it and rendering the status line, plus the log text that
//! describes what was done.

use vstd::prelude::*;
use crate::classify::{Outcome, Route, classify, outcome_spec, route_of, route_spec};
use crate::text::{first_line, first_line_of};

verus! {

/// How many bytes of a request are read, in a single read.
pub const REQUEST_BUFFER_SIZE: usize = 1024;

/// The text that `String::from_utf8_lossy` makes of the given bytes: valid
/// UTF-8 kept, each invalid sequence replaced by U+FFFD.
pub uninterp spec fn lossy_text(bytes: Seq<u8>) -> Seq<char>;

/// Relies on `String::from_utf8_lossy`: the text depends on the bytes alone,
/// and an empty slice decodes to the empty text.
#[verifier::external_body]
fn decode_lossy(bytes: &[u8]) -> (r: String)
    ensures
        r@ == lossy_text(bytes@),
        bytes@.len() == 0 ==> r@.len() == 0,
{
    String::from_utf8_lossy(bytes).into_owned()
}

/// The full response for an outcome: a status line and an empty line, no
/// headers and no body.
pub open spec fn status_text(outcome: Outcome, ok_text: Seq<char>) -> Seq<char> {
    match outcome {
        Outcome::Success => "HTTP/1.1 200 "@ + ok_text + "\r\n\r\n"@,
        Outcome::NotFound => "HTTP/1.1 404 NOT FOUND\r\n\r\n"@,
        Outcome::InternalError => "HTTP/1.1 500 INTERNAL SERVER ERROR\r\n\r\n"@,
    }
}

/// Renders the response for `outcome`, with `ok_text` embedded verbatim in
/// the success line.
pub fn status_line(outcome: Outcome, ok_text: &str) -> (r: String)
    ensures
        r@ == status_text(outcome, ok_text@),
{
    match outcome {
        Outcome::Success => {
            let mut s = String::from_str("HTTP/1.1 200 ");
            s.append(ok_text);
            s.append("\r\n\r\n");
            s
        },
        Outcome::NotFound => String::from_str("HTTP/1.1 404 NOT FOUND\r\n\r\n"),
        Outcome::InternalError => String::from_str("HTTP/1.1 500 INTERNAL SERVER ERROR\r\n\r\n"),
    }
}

/// What one request was answered with.
pub struct Reply {
    /// The request line that was classified.
    pub line: String,
    pub route: Route,
    pub outcome: Outcome,
    /// The bytes to write back, as text.
    pub response: String,
}

/// `r` answers the decoded request `text` at clock value `now_millis`.
pub open spec fn answers(r: Reply, text: Seq<char>, now_millis: int, ok_text: Seq<char>) -> bool {
    &&& r.line@ == first_line_of(text)
    &&& r.route == route_spec(r.line@)
    &&& r.outcome == outcome_spec(r.line@, now_millis)
    &&& r.response@ == status_text(r.outcome, ok_text)
}

/// Answers an already decoded request `text`: its first line is classified
/// at clock value `now_millis` and the matching response rendered.
pub fn respond_to_text(text: &str, now_millis: u128, ok_text: &str) -> (r: Reply)
    ensures
        answers(r, text@, now_millis as int, ok_text@),
{
    let line = first_line(text);
    let route = route_of(line);
    let outcome = classify(line, now_millis);
    let response = status_line(outcome, ok_text);
    Reply { line: String::from_str(line), route, outcome, response }
}

/// Answers the bytes read from a connection: they are decoded lossily, so
/// invalid UTF-8 never fails a request, and answered as text. An empty read
/// gives the empty line, which is not found.
pub fn handle_request(request: &[u8], now_millis: u128, ok_text: &str) -> (r: Reply)
    ensures
        answers(r, lossy_text(request@), now_millis as int, ok_text@),
        request@.len() == 0 ==> r.line@.len() == 0 && r.outcome == Outcome::NotFound,
{
    let text = decode_lossy(request);
    let r = respond_to_text(text.as_str(), now_millis, ok_text);
    proof {
        if request@.len() == 0 {
            assert(crate::text::is_line_end(text@, 0));
            reveal_strlit("GET /healthcheck");
            reveal_strlit("GET /ok");
            reveal_strlit("GET /heartbeat");
            reveal_strlit("GET /failing-deepcheck");
            reveal_strlit("GET /flakey-deepcheck");
        }
    }
    r
}

/// How the log names what was done with a request.
pub open spec fn log_label(route: Route, outcome: Outcome) -> Seq<char> {
    match route {
        Route::Health => "Health check"@,
        Route::FailingDeepcheck => "Failing deepcheck"@,
        Route::FlakeyDeepcheck => if outcome == Outcome::InternalError {
            "Flakey deepcheck (FAILING)"@
        } else {
            "Flakey deepcheck (OK)"@
        },
        Route::Unknown => "Not found"@,
    }
}

/// The log line for a reply sent to `peer`.
pub open spec fn log_text(peer: Seq<char>, r: Reply) -> Seq<char> {
    log_label(r.route, r.outcome) + " request processed from "@ + peer + ": "@ + r.line@
}

/// The one log line written for each request, naming the peer and what was
/// done.
pub fn log_line(peer: &str, reply: &Reply) -> (r: String)
    ensures
        r@ == log_text(peer@, *reply),
{
    let mut s = match reply.route {
        Route::Health => String::from_str("Health check"),
        Route::FailingDeepcheck => String::from_str("Failing deepcheck"),
        Route::FlakeyDeepcheck => if reply.outcome == Outcome::InternalError {
            String::from_str("Flakey deepcheck (FAILING)")
        } else {
            String::from_str("Flakey deepcheck (OK)")
        },
        Route::Unknown => String::from_str("Not found"),
    };
    s.append(" request processed from ");
    s.append(peer);
    s.append(": ");
    s.append(reply.line.as_str());
    s
}

/// The peer address as logged: `"unknown"` when it could not be had.
pub fn peer_label(peer: Option<String>) -> (r: String)
    ensures
        r@ == match peer {
            Some(p) => p@,
            None => "unknown"@,
        },
{
    match peer {
        Some(p) => p,
        None => String::from_str("unknown"),
    }
}

} // verus!
