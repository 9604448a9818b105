//! HTTP requests: method, path, headers and body, each checked as it comes in.

use std::str::FromStr;

use bytes::Bytes;
use http::header::MaxSizeReached;
use http::method::InvalidMethod;
use http::status::InvalidStatusCode;
use http::uri::InvalidUri;
use http::HeaderMap;
use vstd::prelude::*;

use crate::body;
use crate::body::buffer_copy_of;
use crate::headers;
use crate::headers::header_map_new;
use crate::headers::FieldName;
use crate::headers::FieldValue;

verus! {

/// An error of the `http` crate: text that is not a request method.
#[verifier::external_type_specification]
#[verifier::external_body]
pub struct ExInvalidMethod(InvalidMethod);

/// An error of the `http` crate: a number that is not a status code.
#[verifier::external_type_specification]
#[verifier::external_body]
pub struct ExInvalidStatusCode(InvalidStatusCode);

/// An error of the `http` crate: text that is not a path and query.
#[verifier::external_type_specification]
#[verifier::external_body]
pub struct ExInvalidUri(InvalidUri);

/// Parses a request method, through `http::Method::from_str`. Claimed: exactly the tokens are
/// accepted, and a method is written as it was read.
#[verifier::external_body]
fn parse_method(text: &str) -> (method: Result<String, InvalidMethod>)
    ensures
        method is Ok <==> headers::is_token(text@),
        method matches Ok(m) ==> m@ == text@,
{
    http::Method::from_str(text).map(|method| method.to_string())
}

/// Checks a status code, through `http::StatusCode::from_u16`. Claimed: exactly the numbers from
/// 100 to 999 are accepted, and a status code has the number that it was made from.
#[verifier::external_body]
fn parse_status(number: u16) -> (status: Result<u16, InvalidStatusCode>)
    ensures
        status is Ok <==> is_status(number),
        status matches Ok(s) ==> s == number,
{
    http::StatusCode::from_u16(number).map(|status| status.as_u16())
}

/// How a status is written.
pub uninterp spec fn status_text(number: u16) -> Seq<char>;

/// Writes a status, through the `Display` of `http::StatusCode`. Claimed: what it writes, which is
/// the number and a phrase for it, depends on the number alone.
#[verifier::external_body]
fn write_status(number: u16) -> (text: String)
    requires
        is_status(number),
    ensures
        text@ == status_text(number),
{
    http::StatusCode::from_u16(number).expect("a status").to_string()
}

/// Parses a path and query, through the `TryFrom<String>` of `http::uri::PathAndQuery`, and writes
/// it out again with its `Display`. Claimed: what is accepted, and how it is written, is as
/// [`path_of`] says.
#[verifier::external_body]
fn parse_path(text: String) -> (path: Result<String, InvalidUri>)
    ensures
        match (path, path_of(text@)) {
            (Ok(p), Some(q)) => p@ == q,
            (Err(_), None) => true,
            _ => false,
        },
{
    http::uri::PathAndQuery::try_from(text).map(|path| path.to_string())
}

pub open spec fn is_status(number: u16) -> bool {
    100 <= number <= 999
}

/// The characters that a path can hold before its query.
pub open spec fn is_path_char(c: char) -> bool {
    ||| c == '\u{21}' || c == '\u{22}' || c == '\u{3d}' || c == '\u{7e}'
    ||| '\u{24}' <= c <= '\u{3b}'
    ||| '\u{40}' <= c <= '\u{5f}'
    ||| '\u{61}' <= c <= '\u{7d}'
    ||| c >= '\u{80}'
}

/// The characters that a query can hold.
pub open spec fn is_query_char(c: char) -> bool {
    ||| c == '\u{21}' || c == '\u{3d}'
    ||| '\u{24}' <= c <= '\u{3b}'
    ||| '\u{3f}' <= c <= '\u{7e}'
    ||| c >= '\u{80}'
}

/// `s` before its first `c`, or all of it.
pub open spec fn before_first(s: Seq<char>, c: char) -> Seq<char> {
    match s.index_of_first(c) {
        Some(i) => s.take(i),
        None => s,
    }
}

/// The path and query that `s` writes. A fragment after `#` is left out unread. A path starts with
/// a slash, which is put in front where only a query or nothing is left; the asterisk alone is
/// the other path. `s` has at most 65534 bytes.
pub open spec fn path_of(s: Seq<char>) -> Option<Seq<char>> {
    let kept = before_first(s, '#');
    let path = before_first(kept, '?');
    if s.len() == 0 || vstd::utf8::encode_utf8(s).len() > 65534 {
        None
    } else if s == seq!['*'] {
        Some(s)
    } else if s[0] != '/' && s[0] != '?' && s[0] != '#' {
        None
    } else if (exists|i: int| 0 <= i < path.len() && !is_path_char(#[trigger] path[i])) || (exists|
        i: int,
    | path.len() < i < kept.len() && !is_query_char(#[trigger] kept[i])) {
        None
    } else if kept.len() > 0 && kept[0] == '/' {
        Some(kept)
    } else {
        Some(seq!['/'] + kept)
    }
}

/// The method of a request.
pub struct HttpMethod {
    text: String,
}

/// The path of a request, with its query.
pub struct HttpPath {
    text: String,
}

/// The status of a response, from 100 to 999.
#[derive(Clone, Copy, PartialEq, Eq, Debug, Structural)]
pub struct HttpStatus {
    number: u16,
}

impl View for HttpMethod {
    type V = Seq<char>;

    closed spec fn view(&self) -> Seq<char> {
        self.text@
    }
}

impl View for HttpPath {
    type V = Seq<char>;

    closed spec fn view(&self) -> Seq<char> {
        self.text@
    }
}

impl View for HttpStatus {
    type V = u16;

    closed spec fn view(&self) -> u16 {
        self.number
    }
}

impl HttpMethod {
    #[verifier::type_invariant]
    spec fn well_formed(self) -> bool {
        headers::is_token(self.text@)
    }

    /// A method, if `value` is a token.
    pub fn try_from(value: String) -> (method: Result<HttpMethod, InvalidMethod>)
        ensures
            method is Ok <==> headers::is_token(value@),
            method matches Ok(m) ==> m@ == value@,
    {
        match parse_method(value.as_str()) {
            Ok(text) => Ok(HttpMethod { text }),
            Err(e) => Err(e),
        }
    }

    pub fn as_str(&self) -> (text: &str)
        ensures
            text@ == self@,
    {
        self.text.as_str()
    }

    /// The method as text.
    pub fn into_string(self) -> (text: String)
        ensures
            text@ == self@,
            headers::is_token(text@),
    {
        proof {
            use_type_invariant(&self);
        }
        self.text
    }
}

impl HttpPath {
    /// A path and query, if `value` writes one.
    pub fn try_from(value: String) -> (path: Result<HttpPath, InvalidUri>)
        ensures
            match (path, path_of(value@)) {
                (Ok(p), Some(q)) => p@ == q,
                (Err(_), None) => true,
                _ => false,
            },
    {
        match parse_path(value) {
            Ok(text) => Ok(HttpPath { text }),
            Err(e) => Err(e),
        }
    }

    /// The path and query as text.
    pub fn into_string(self) -> (text: String)
        ensures
            text@ == self@,
    {
        self.text
    }
}

impl HttpStatus {
    #[verifier::type_invariant]
    spec fn well_formed(self) -> bool {
        is_status(self.number)
    }

    /// A status, if `value` can be one.
    pub fn try_from(value: u16) -> (status: Result<HttpStatus, InvalidStatusCode>)
        ensures
            status is Ok <==> is_status(value),
            status is Ok <==> 100 <= value <= 999,
            status matches Ok(s) ==> s@ == value,
    {
        match parse_status(value) {
            Ok(number) => Ok(HttpStatus { number }),
            Err(e) => Err(e),
        }
    }

    /// The number of the status.
    pub fn as_u16(self) -> (number: u16)
        ensures
            number == self@,
            is_status(number),
    {
        proof {
            use_type_invariant(&self);
        }
        self.number
    }

    /// The status in words.
    pub fn describe(self) -> (text: String)
        ensures
            text@ == status_text(self@),
    {
        proof {
            use_type_invariant(&self);
        }
        write_status(self.number)
    }
}

/// A request that an app puts together.
pub struct HttpRequest {
    pub method: HttpMethod,
    pub path: HttpPath,
    pub body: Option<Bytes>,
    pub headers: HeaderMap,
}

impl HttpRequest {
    /// A request without headers. It has a body where `body_as_slice` is there, even an empty one.
    pub fn new(method: HttpMethod, path: String, body_as_slice: Option<&[u8]>) -> (request: Result<
        HttpRequest,
        InvalidUri,
    >)
        ensures
            request is Ok <==> path_of(path@) is Some,
            request matches Ok(r) ==> {
                &&& r.method == method
                &&& Some(r.path@) == path_of(path@)
                &&& headers::header_groups(r.headers).len() == 0
                &&& r.body is Some <==> body_as_slice is Some
                &&& r.body matches Some(b) ==> body::buffer_bytes(b) == body_as_slice->0@
            },
    {
        let body = match body_as_slice {
            Some(bytes) => Some(buffer_copy_of(bytes)),
            None => None,
        };
        match HttpPath::try_from(path) {
            Ok(path) => Ok(HttpRequest { method, path, body, headers: header_map_new() }),
            Err(e) => Err(e),
        }
    }

    /// Adds a header, after those of the same name. With fewer than
    /// [`headers::SURE_HEADER_NAMES`] names there is always room; where there is none, the
    /// request stays as it was.
    pub fn add_header(&mut self, name: FieldName, value: FieldValue) -> (added: Result<
        (),
        MaxSizeReached,
    >)
        ensures
            added is Err <==> headers::refuses_header(old(self).headers),
            headers::header_groups(old(self).headers).len() < headers::SURE_HEADER_NAMES
                ==> added is Ok,
            headers::header_groups(final(self).headers) == if added is Ok {
                headers::append_to(headers::header_groups(old(self).headers), name@, value@)
            } else {
                headers::header_groups(old(self).headers)
            },
            final(self).method == old(self).method,
            final(self).path == old(self).path,
            final(self).body == old(self).body,
    {
        headers::append(&mut self.headers, &name, &value)
    }
}

/// A request on its way out over a connection.
pub struct Request {
    pub method: HttpMethod,
    pub path: HttpPath,
    pub headers: HeaderMap,
    pub body: Option<Bytes>,
}

/// A response to a [`Request`].
pub struct ChatResponse {
    pub status: HttpStatus,
    pub message: Option<String>,
    pub headers: HeaderMap,
    pub body: Option<Bytes>,
}

/// A response together with what its connection says of how it was obtained.
pub struct ResponseAndDebugInfo<D> {
    pub response: ChatResponse,
    pub debug_info: D,
}

/// The status of a response is one of the nine hundred numbers of three digits.
pub proof fn law_statuses(number: u16)
    ensures
        is_status(number) <==> exists|class: int, rest: int|
            1 <= class <= 9 && 0 <= rest <= 99 && number == #[trigger] status_number(class, rest),
{
    if is_status(number) {
        let class = number as int / 100;
        let rest = number as int % 100;
        assert(number == status_number(class, rest));
    }
}

/// The number of three digits whose first is `class`.
pub open spec fn status_number(class: int, rest: int) -> int {
    class * 100 + rest
}

/// A path with an optional query, of letters, digits, hyphens and slashes, is written as it was
/// read; so is one with a query of them. What follows a number sign is dropped.
pub proof fn law_plain_paths(path: Seq<char>, query: Seq<char>, fragment: Seq<char>)
    requires
        is_plain(path),
        is_plain(query),
        is_plain(fragment),
        path.len() + query.len() + fragment.len() < 65000,
    ensures
        path_of(seq!['/'] + path) == Some(seq!['/'] + path),
        path_of(seq!['/'] + path + seq!['?'] + query) == Some(
            seq!['/'] + path + seq!['?'] + query,
        ),
        path_of(seq!['/'] + path + seq!['#'] + fragment) == Some(seq!['/'] + path),
        path_of(seq!['?'] + query) == Some(seq!['/', '?'] + query),
{
    let slash = seq!['/'] + path;
    assert forall|i: int| 0 <= i < slash.len() implies slash[i] != '#' && slash[i] != '?'
        && is_path_char(#[trigger] slash[i]) && '\0' <= slash[i] < '\u{80}' by {
        if i > 0 {
            assert(slash[i] == path[i - 1]);
        }
    }
    slash.index_of_first_ensures('#');
    slash.index_of_first_ensures('?');
    lemma_ascii_len(slash);
    let full = slash + seq!['?'] + query;
    let n = slash.len() as int;
    assert forall|i: int| 0 <= i < full.len() implies #[trigger] full[i] != '#'
        && '\0' <= full[i] < '\u{80}' && (i != n ==> full[i] != '?') && (i > n ==> is_query_char(
        full[i],
    )) by {
        if i < n {
            assert(full[i] == slash[i]);
        } else if i > n {
            assert(full[i] == query[i - n - 1]);
        }
    }
    full.index_of_first_ensures('#');
    full.index_of_first_ensures('?');
    assert(full[n] == '?');
    assert(full.index_of_first('?') == Some(n));
    assert(full.take(n) == slash);
    lemma_ascii_len(full);
    let cut = slash + seq!['#'] + fragment;
    assert forall|i: int| 0 <= i < cut.len() implies '\0' <= #[trigger] cut[i] < '\u{80}' && (i < n
        ==> cut[i] != '#') by {
        if i < n {
            assert(cut[i] == slash[i]);
        } else if i > n {
            assert(cut[i] == fragment[i - n - 1]);
        }
    }
    cut.index_of_first_ensures('#');
    assert(cut[n] == '#');
    assert(cut.index_of_first('#') == Some(n));
    assert(cut.take(n) == slash);
    lemma_ascii_len(cut);
    let only = seq!['?'] + query;
    assert forall|i: int| 0 <= i < only.len() implies #[trigger] only[i] != '#' && '\0' <= only[i]
        < '\u{80}' && (i > 0 ==> is_query_char(only[i])) by {
        if i > 0 {
            assert(only[i] == query[i - 1]);
        }
    }
    only.index_of_first_ensures('#');
    only.index_of_first_ensures('?');
    assert(only[0] == '?');
    assert(only.index_of_first('?') == Some(0int));
    lemma_ascii_len(only);
    assert(seq!['/'] + only == seq!['/', '?'] + query);
}

/// Letters, digits, hyphens and slashes.
pub open spec fn is_plain(s: Seq<char>) -> bool {
    forall|i: int|
        0 <= i < s.len() ==> {
            ||| 'a' <= #[trigger] s[i] <= 'z'
            ||| 'A' <= s[i] <= 'Z'
            ||| '0' <= s[i] <= '9'
            ||| s[i] == '-' || s[i] == '/'
        }
}

proof fn lemma_ascii_len(s: Seq<char>)
    requires
        forall|i: int| 0 <= i < s.len() ==> '\0' <= #[trigger] s[i] < '\u{80}',
    ensures
        vstd::utf8::encode_utf8(s).len() == s.len(),
{
    assert(vstd::utf8::is_ascii_chars(s));
    vstd::utf8::is_ascii_chars_encode_utf8(s);
}

} // verus!
