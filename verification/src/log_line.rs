//! The lines that a log has of a request through a requester: one when it goes out, and one when it
//! has come to something.

use vstd::prelude::*;

use crate::request;
use crate::request::ChatResponse;
use crate::request::HttpMethod;
use crate::requester::SendError;
use crate::text;
use crate::text::hex_of_four;

verus! {

/// The line of a request that goes out: a tag and the number of the request, its method and a path
/// that may be logged.
pub open spec fn request_text(
    log_tag: Seq<char>,
    request_id: u64,
    method: Seq<char>,
    log_safe_path: Seq<char>,
) -> Seq<char> {
    seq!['['] + log_tag + seq![' '] + text::hex_text_of_four(request_id as nat) + seq![']', ' ']
        + method + seq![' '] + log_safe_path
}

/// The line of a request that got a response.
pub open spec fn answered_text(request_line: Seq<char>, status: Seq<char>) -> Seq<char> {
    request_line + seq![' '] + status
}

/// The line of a request that got none.
pub open spec fn failed_text(request_line: Seq<char>, error: Seq<char>) -> Seq<char> {
    request_line + seq![' ', '-', ' '] + error
}

/// `line` is the line of a request that has come to `result`. `describe` puts an error into words.
pub open spec fn is_result_text<F>(
    request_line: Seq<char>,
    result: Result<ChatResponse, SendError>,
    describe: F,
    line: Seq<char>,
) -> bool where F: FnOnce(&SendError) -> String {
    match result {
        Ok(response) => line == answered_text(
            request_line,
            request::status_text(response.status@),
        ),
        Err(e) => exists|words: String| #[trigger]
            call_ensures(describe, (&e,), words) && line == failed_text(request_line, words@),
    }
}

/// Writes the line of a request that goes out.
pub fn request_line(log_tag: &str, request_id: u64, method: &HttpMethod, log_safe_path: &str) -> (
line: String)
    ensures
        line@ == request_text(log_tag@, request_id, method@, log_safe_path@),
{
    proof {
        reveal_strlit("[");
        reveal_strlit(" ");
        reveal_strlit("] ");
        assert("["@ =~= seq!['['] && " "@ =~= seq![' '] && "] "@ =~= seq![']', ' ']);
    }
    let mut line: String = "[".to_owned();
    line.append(log_tag);
    line.append(" ");
    line.append(hex_of_four(request_id).as_str());
    line.append("] ");
    line.append(method.as_str());
    line.append(" ");
    line.append(log_safe_path);
    line
}

/// Writes the line of a request that got a response with the status `status`.
pub fn answered_line(request_line: &str, status: &str) -> (line: String)
    ensures
        line@ == answered_text(request_line@, status@),
{
    proof {
        reveal_strlit(" ");
        assert(" "@ =~= seq![' ']);
    }
    let mut line: String = request_line.to_owned();
    line.append(" ");
    line.append(status);
    line
}

/// Writes the line of a request that failed with `error`.
pub fn failed_line(request_line: &str, error: &str) -> (line: String)
    ensures
        line@ == failed_text(request_line@, error@),
{
    proof {
        reveal_strlit(" - ");
        assert(" - "@ =~= seq![' ', '-', ' ']);
    }
    let mut line: String = request_line.to_owned();
    line.append(" - ");
    line.append(error);
    line
}

/// Writes the line of a request that has come to `result`. `describe` puts an error into words that
/// may be logged.
pub fn result_line<F>(
    request_line: &str,
    result: &Result<ChatResponse, SendError>,
    describe: F,
) -> (line: String) where F: FnOnce(&SendError) -> String
    requires
        result matches Err(e) ==> call_requires(describe, (e,)),
    ensures
        is_result_text(request_line@, *result, describe, line@),
{
    match result {
        Ok(response) => answered_line(request_line, response.status.describe().as_str()),
        Err(e) => failed_line(request_line, describe(e).as_str()),
    }
}

/// The line of a request reads: a bracket, the tag, a space, the number, a bracket and a space, the
/// method, a space and the path.
pub proof fn law_shape_of_a_request_line(
    log_tag: Seq<char>,
    request_id: u64,
    method: Seq<char>,
    log_safe_path: Seq<char>,
)
    ensures
        ({
            let line = request_text(log_tag, request_id, method, log_safe_path);
            let number = text::hex_text_of_four(request_id as nat);
            let a = 1 + log_tag.len() as int;
            let b = a + 1 + number.len() as int;
            let c = b + 2 + method.len() as int;
            &&& line[0] == '[' && line[a] == ' ' && line[b] == ']' && line[b + 1] == ' ' && line[c]
                == ' '
            &&& line.subrange(1, a) == log_tag
            &&& line.subrange(a + 1, b) == number
            &&& line.subrange(b + 2, c) == method
            &&& line.skip(c + 1) == log_safe_path
        }),
{
    let line = request_text(log_tag, request_id, method, log_safe_path);
    let number = text::hex_text_of_four(request_id as nat);
    let a = 1 + log_tag.len() as int;
    let b = a + 1 + number.len() as int;
    let c = b + 2 + method.len() as int;
    assert(line.subrange(1, a) =~= log_tag);
    assert(line.subrange(a + 1, b) =~= number);
    assert(line.subrange(b + 2, c) =~= method);
    assert(line.skip(c + 1) =~= log_safe_path);
}

/// What a request came to stands behind its own line: the status after a space, or an error after a
/// hyphen between spaces.
pub proof fn law_shape_of_a_result_line<F>(
    request_line: Seq<char>,
    result: Result<ChatResponse, SendError>,
    describe: F,
    line: Seq<char>,
) where F: FnOnce(&SendError) -> String
    requires
        is_result_text(request_line, result, describe, line),
    ensures
        line.len() > request_line.len(),
        line.take(request_line.len() as int) == request_line,
        line[request_line.len() as int] == ' ',
        result matches Ok(response) ==> line.skip(request_line.len() as int + 1)
            == request::status_text(response.status@),
        result matches Err(e) ==> line.len() >= request_line.len() + 3
            && line[request_line.len() as int + 1] == '-' && line[request_line.len() as int + 2]
            == ' ' && exists|words: String| #[trigger]
            call_ensures(describe, (&e,), words) && line.skip(request_line.len() as int + 3)
                == words@,
{
    assert(line.take(request_line.len() as int) =~= request_line);
    match result {
        Ok(response) => {
            assert(line.skip(request_line.len() as int + 1) =~= request::status_text(
                response.status@,
            ));
        },
        Err(e) => {
            let words = choose|words: String| #[trigger]
                call_ensures(describe, (&e,), words) && line == failed_text(request_line, words@);
            assert(line.skip(request_line.len() as int + 3) =~= words@);
        },
    }
}

} // verus!
