//! HTTP headers, as a header map of the `http` crate and as `Name: value` lines.

use std::str::FromStr;

use http::header::InvalidHeaderName;
use http::header::InvalidHeaderValue;
use http::header::MaxSizeReached;
use http::header::ToStrError;
use http::HeaderMap;
use vstd::prelude::*;

use crate::text;
use crate::text::split_once;
use crate::text::trim;

verus! {

/// An error of the `http` crate: text that is not a header name.
#[verifier::external_type_specification]
#[verifier::external_body]
pub struct ExInvalidHeaderName(InvalidHeaderName);

/// An error of the `http` crate: text that is not a header value.
#[verifier::external_type_specification]
#[verifier::external_body]
pub struct ExInvalidHeaderValue(InvalidHeaderValue);

/// An error of the `http` crate: a header value that is not visible ASCII.
#[verifier::external_type_specification]
#[verifier::external_body]
pub struct ExToStrError(ToStrError);

/// An error of the `http` crate: a header map that cannot grow.
#[verifier::external_type_specification]
#[verifier::external_body]
pub struct ExMaxSizeReached(MaxSizeReached);

/// The header value of the `http` crate.
#[verifier::external_type_specification]
#[verifier::external_body]
pub struct ExHeaderValue(http::HeaderValue);

/// The header map of the `http` crate.
#[verifier::external_type_specification]
#[verifier::external_body]
#[verifier::reject_recursive_types(T)]
pub struct ExHeaderMap<T>(http::HeaderMap<T>);

/// Header names, each with its values, in the order in which a header map is walked.
pub type Groups = Seq<(Seq<char>, Seq<Seq<u8>>)>;

/// What a header map holds.
pub uninterp spec fn header_groups(map: HeaderMap<http::HeaderValue>) -> Seq<
    (Seq<char>, Seq<Seq<u8>>),
>;

/// Whether a header map refuses one more header.
pub uninterp spec fn refuses_header(map: HeaderMap<http::HeaderValue>) -> bool;

/// A header map refuses to be made for more headers than this.
pub const MAX_HEADER_LINES: usize = 24_576;

/// A header map with fewer names than this takes another one, however its names hash.
pub const SURE_HEADER_NAMES: usize = 6_554;

/// The characters of an HTTP token.
pub open spec fn is_token_char(c: char) -> bool {
    ||| '0' <= c <= '9'
    ||| 'a' <= c <= 'z'
    ||| 'A' <= c <= 'Z'
    ||| c == '!' || c == '#' || c == '$' || c == '%' || c == '&' || c == '\'' || c == '*'
    ||| c == '+' || c == '-' || c == '.' || c == '^' || c == '_' || c == '`' || c == '|' || c == '~'
}

pub open spec fn is_token(s: Seq<char>) -> bool {
    s.len() > 0 && forall|i: int| 0 <= i < s.len() ==> is_token_char(#[trigger] s[i])
}

/// The header name that `s` writes: a token of at most 65535 characters, in lower case.
pub open spec fn header_name_of(s: Seq<char>) -> Option<Seq<char>> {
    if is_token(s) && s.len() <= 65535 {
        Some(s.map_values(|c: char| text::to_lower(c)))
    } else {
        None
    }
}

/// Text that is a header name as it stands: up to 65535 characters, each a quotation mark or one of
/// a token that is not in upper case.
pub open spec fn is_static_name(s: Seq<char>) -> bool {
    &&& 0 < s.len() <= 65535
    &&& forall|i: int|
        0 <= i < s.len() ==> {
            ||| #[trigger] s[i] == '\"'
            ||| is_token_char(s[i]) && !('A' <= s[i] <= 'Z')
        }
}

/// The bytes of a header value: no control characters but the tab.
pub open spec fn is_value_byte(b: u8) -> bool {
    (b >= 32 && b != 127) || b == 9
}

pub open spec fn is_header_value(bytes: Seq<u8>) -> bool {
    forall|i: int| 0 <= i < bytes.len() ==> is_value_byte(#[trigger] bytes[i])
}

/// The header value that `s` writes: its bytes in UTF-8, if none is a control character.
pub open spec fn header_value_of(s: Seq<char>) -> Option<Seq<u8>> {
    let bytes = vstd::utf8::encode_utf8(s);
    if is_header_value(bytes) {
        Some(bytes)
    } else {
        None
    }
}

/// A header value that is text: visible ASCII, spaces and tabs.
pub open spec fn is_visible(bytes: Seq<u8>) -> bool {
    forall|i: int|
        0 <= i < bytes.len() ==> (32 <= #[trigger] bytes[i] < 127 || bytes[i] == 9)
}

/// ASCII bytes as characters.
pub open spec fn ascii_chars(bytes: Seq<u8>) -> Seq<char> {
    bytes.map_values(|b: u8| b as char)
}

pub open spec fn names_of(groups: Groups) -> Seq<Seq<char>> {
    groups.map_values(|g: (Seq<char>, Seq<Seq<u8>>)| g.0)
}

/// `groups` with one more value for `name`: after the other values of that name, or in a new
/// group at the end.
pub open spec fn append_to(groups: Groups, name: Seq<char>, value: Seq<u8>) -> Groups {
    match names_of(groups).index_of_first(name) {
        Some(i) => groups.update(i, (name, groups[i].1.push(value))),
        None => groups.push((name, seq![value])),
    }
}

/// The headers of `groups` one by one.
pub open spec fn flat(groups: Groups) -> Seq<(Seq<char>, Seq<u8>)>
    decreases groups.len(),
{
    if groups.len() == 0 {
        Seq::empty()
    } else {
        let (name, values) = groups.last();
        flat(groups.drop_last()) + values.map_values(|v: Seq<u8>| (name, v))
    }
}

/// Parses a header name, through `http::HeaderName::from_str`. Claimed: a token of at most 65535
/// characters is accepted and comes back in lower case; everything else is refused.
#[verifier::external_body]
fn parse_header_name(text: &str) -> (name: Result<String, InvalidHeaderName>)
    ensures
        match (name, header_name_of(text@)) {
            (Ok(n), Some(m)) => n@ == m,
            (Err(_), None) => true,
            _ => false,
        },
{
    http::HeaderName::from_str(text).map(|name| name.as_str().to_owned())
}

/// Takes a name that is known beforehand, through `http::HeaderName::from_static`. Claimed: the
/// name is that text.
#[verifier::external_body]
pub(crate) fn header_name_from_static(text: &'static str) -> (name: String)
    requires
        is_static_name(text@),
    ensures
        name@ == text@,
{
    http::HeaderName::from_static(text).as_str().to_owned()
}

/// Parses a header value, through `http::HeaderValue::from_str`. Claimed: text whose UTF-8 bytes
/// hold no control character but the tab is accepted, and those bytes are the value; everything
/// else is refused.
#[verifier::external_body]
fn parse_header_value(text: &str) -> (value: Result<Vec<u8>, InvalidHeaderValue>)
    ensures
        match (value, header_value_of(text@)) {
            (Ok(v), Some(w)) => v@ == w,
            (Err(_), None) => true,
            _ => false,
        },
{
    http::HeaderValue::from_str(text).map(|value| value.as_bytes().to_vec())
}

/// Takes bytes as a header value, through `http::HeaderValue::from_bytes`. Claimed: bytes that hold
/// no control character but the tab are accepted, and are the value; everything else is refused.
#[verifier::external_body]
fn header_value_from_bytes(bytes: &[u8]) -> (value: Result<Vec<u8>, InvalidHeaderValue>)
    ensures
        value is Ok <==> is_header_value(bytes@),
        value matches Ok(v) ==> v@ == bytes@,
{
    http::HeaderValue::from_bytes(bytes).map(|value| value.as_bytes().to_vec())
}

/// Reads a header value as text, through `http::HeaderValue::to_str`. Claimed: it succeeds exactly
/// on visible ASCII, spaces and tabs, and gives those bytes as characters.
#[verifier::external_body]
fn header_value_to_str(value: &[u8]) -> (text: Result<String, ToStrError>)
    requires
        is_header_value(value@),
    ensures
        text is Ok <==> is_visible(value@),
        text matches Ok(t) ==> t@ == ascii_chars(value@),
{
    let value = http::HeaderValue::from_bytes(value).expect("no control characters");
    value.to_str().map(|text| text.to_owned())
}

/// An empty header map, through `http::HeaderMap::new`. Claimed: it holds nothing.
#[verifier::external_body]
pub(crate) fn header_map_new() -> (map: HeaderMap)
    ensures
        header_groups(map) == Seq::<(Seq<char>, Seq<Seq<u8>>)>::empty(),
{
    HeaderMap::new()
}

/// An empty header map with room for `capacity` headers, through
/// `http::HeaderMap::try_with_capacity`. Claimed: it can be made for up to [`MAX_HEADER_LINES`]
/// headers and not for more, and holds nothing.
#[verifier::external_body]
fn header_map_with_capacity(capacity: usize) -> (map: Result<HeaderMap, MaxSizeReached>)
    ensures
        map is Ok <==> capacity <= MAX_HEADER_LINES,
        map matches Ok(map) ==> header_groups(map) == Seq::<(Seq<char>, Seq<Seq<u8>>)>::empty(),
{
    HeaderMap::try_with_capacity(capacity)
}

/// Adds a header, through `http::HeaderMap::try_append`. Claimed: whether it fails is a matter of
/// the map alone, and it does not while the map has fewer than [`SURE_HEADER_NAMES`] names; where
/// it succeeds, the value goes after the other values of its name, or in a new group at the end,
/// and the result says whether the name was there; where it fails, the headers stay as they were.
/// Left unsaid: which maps with more names than that refuse, which depends on how the names hash.
#[verifier::external_body]
fn header_map_try_append(map: &mut HeaderMap, name: &str, value: &[u8]) -> (present: Result<
    bool,
    MaxSizeReached,
>)
    requires
        header_name_of(name@) == Some(name@),
        is_header_value(value@),
    ensures
        present is Err <==> refuses_header(*old(map)),
        header_groups(*old(map)).len() < SURE_HEADER_NAMES ==> present is Ok,
        present matches Ok(b) ==> b == names_of(header_groups(*old(map))).contains(name@),
        present is Ok ==> header_groups(*final(map)) == append_to(
            header_groups(*old(map)),
            name@,
            value@,
        ),
        present is Err ==> header_groups(*final(map)) == header_groups(*old(map)),
{
    let name = http::HeaderName::from_str(name).expect("a header name");
    let value = http::HeaderValue::from_bytes(value).expect("no control characters");
    map.try_append(name, value)
}

/// The headers of a map one by one, through `http::HeaderMap::iter`. Claimed: each name comes once
/// for each of its values, the values of a name follow one another in the order in which they
/// were added, and no value holds a control character but the tab.
#[verifier::external_body]
fn header_map_entries(map: &HeaderMap) -> (entries: Vec<(String, Vec<u8>)>)
    ensures
        entries@.map_values(|e: (String, Vec<u8>)| (e.0@, e.1@)) == flat(header_groups(*map)),
        forall|i: int| 0 <= i < entries@.len() ==> is_header_value((#[trigger] entries@[i]).1@),
{
    map.iter().map(|(name, value)| (name.as_str().to_owned(), value.as_bytes().to_vec())).collect()
}

/// A header name, in lower case.
pub struct FieldName {
    text: String,
}

/// A header value.
pub struct FieldValue {
    bytes: Vec<u8>,
}

impl View for FieldName {
    type V = Seq<char>;

    closed spec fn view(&self) -> Seq<char> {
        self.text@
    }
}

impl View for FieldValue {
    type V = Seq<u8>;

    closed spec fn view(&self) -> Seq<u8> {
        self.bytes@
    }
}

impl FieldName {
    #[verifier::type_invariant]
    spec fn well_formed(self) -> bool {
        header_name_of(self.text@) == Some(self.text@)
    }

    /// A header name, if `text` writes one.
    pub fn parse(text: &str) -> (name: Result<FieldName, InvalidHeaderName>)
        ensures
            match (name, header_name_of(text@)) {
                (Ok(n), Some(m)) => n@ == m,
                (Err(_), None) => true,
                _ => false,
            },
    {
        match parse_header_name(text) {
            Ok(lower) => {
                proof {
                    lemma_lower_is_a_name(text@);
                }
                Ok(FieldName { text: lower })
            },
            Err(e) => Err(e),
        }
    }
}

impl FieldValue {
    #[verifier::type_invariant]
    spec fn well_formed(self) -> bool {
        is_header_value(self.bytes@)
    }

    /// A header value, if `text` writes one.
    pub fn parse(text: &str) -> (value: Result<FieldValue, InvalidHeaderValue>)
        ensures
            match (value, header_value_of(text@)) {
                (Ok(v), Some(w)) => v@ == w,
                (Err(_), None) => true,
                _ => false,
            },
    {
        match parse_header_value(text) {
            Ok(bytes) => Ok(FieldValue { bytes }),
            Err(e) => Err(e),
        }
    }

    /// A header value, if `bytes` can be one. They need not be text.
    pub fn from_bytes(bytes: &[u8]) -> (value: Result<FieldValue, InvalidHeaderValue>)
        ensures
            value is Ok <==> is_header_value(bytes@),
            value matches Ok(v) ==> v@ == bytes@,
    {
        match header_value_from_bytes(bytes) {
            Ok(bytes) => Ok(FieldValue { bytes }),
            Err(e) => Err(e),
        }
    }
}

/// Adds a header to a map, after those of the same name. With fewer than [`SURE_HEADER_NAMES`]
/// names there is always room; where the map refuses, its headers stay as they were.
pub fn append(map: &mut HeaderMap, name: &FieldName, value: &FieldValue) -> (added: Result<
    (),
    MaxSizeReached,
>)
    ensures
        added is Err <==> refuses_header(*old(map)),
        header_groups(*old(map)).len() < SURE_HEADER_NAMES ==> added is Ok,
        header_groups(*final(map)) == if added is Ok {
            append_to(header_groups(*old(map)), name@, value@)
        } else {
            header_groups(*old(map))
        },
{
    proof {
        use_type_invariant(name);
        use_type_invariant(value);
    }
    match header_map_try_append(map, name.text.as_str(), value.bytes.as_slice()) {
        Ok(_) => Ok(()),
        Err(e) => Err(e),
    }
}

/// One header as a line of text.
pub open spec fn line_of(name: Seq<char>, value: Seq<u8>) -> Seq<char> {
    name + seq![':', ' '] + ascii_chars(value)
}

/// Headers as lines of text.
pub open spec fn lines_of(entries: Seq<(Seq<char>, Seq<u8>)>) -> Seq<Seq<char>> {
    entries.map_values(|e: (Seq<char>, Seq<u8>)| line_of(e.0, e.1))
}

/// Headers whose values are all text.
pub open spec fn all_visible(entries: Seq<(Seq<char>, Seq<u8>)>) -> bool {
    forall|i: int| 0 <= i < entries.len() ==> is_visible((#[trigger] entries[i]).1)
}

/// The header that a line writes: a name before the first colon and a value after it, with white
/// space around either left out.
pub open spec fn header_of_line(line: Seq<char>) -> Option<(Seq<char>, Seq<u8>)> {
    match text::split_first_of(line, ':') {
        Some((name, value)) => match (
            header_name_of(text::trim_of(name)),
            header_value_of(text::trim_of(value)),
        ) {
            (Some(name), Some(value)) => Some((name, value)),
            _ => None,
        },
        None => None,
    }
}

/// The headers that lines write, if each line writes one.
pub open spec fn groups_of_lines(lines: Seq<Seq<char>>) -> Option<Groups>
    decreases lines.len(),
{
    if lines.len() == 0 {
        Some(Seq::empty())
    } else {
        match (groups_of_lines(lines.drop_last()), header_of_line(lines.last())) {
            (Some(groups), Some((name, value))) => Some(append_to(groups, name, value)),
            _ => None,
        }
    }
}

/// Why lines did not become a header map.
#[derive(Clone, Copy, PartialEq, Eq, Debug, Structural)]
pub enum HeaderLinesError {
    /// A line writes no header.
    Malformed,
    /// A header map cannot hold them all.
    TooMany,
}

/// Lines that write [`SURE_HEADER_NAMES`] names or more.
pub open spec fn have_many_names(lines: Seq<Seq<char>>) -> bool {
    groups_of_lines(lines) matches Some(groups) && groups.len() >= SURE_HEADER_NAMES
}

/// Lines that a header map has room for, however their names hash: up to [`MAX_HEADER_LINES`], and
/// none after [`SURE_HEADER_NAMES`] names.
pub open spec fn have_room(lines: Seq<Seq<char>>) -> bool {
    &&& lines.len() <= MAX_HEADER_LINES
    &&& forall|k: int| 0 <= k < lines.len() ==> !have_many_names(#[trigger] lines.take(k))
}

/// A header map with the headers of the first `k` lines refuses the next one.
pub open spec fn is_refused_after(lines: Seq<Seq<char>>, k: int, map: HeaderMap) -> bool {
    &&& 0 <= k < lines.len()
    &&& groups_of_lines(lines.take(k)) == Some(header_groups(map))
    &&& refuses_header(map)
}

/// The outcome of reading `lines` into a header map: the headers that they write, or that some
/// line writes none. Of more than [`MAX_HEADER_LINES`] it is always that they are too many. Of
/// fewer it is so only where a map refuses one, and never where there is room for all.
pub open spec fn is_outcome_of_lines(
    lines: Seq<Seq<char>>,
    outcome: Result<Groups, HeaderLinesError>,
) -> bool {
    &&& lines.len() > MAX_HEADER_LINES ==> outcome == Err::<Groups, _>(HeaderLinesError::TooMany)
    &&& match outcome {
        Ok(groups) => groups_of_lines(lines) == Some(groups),
        Err(HeaderLinesError::Malformed) => groups_of_lines(lines) is None,
        Err(HeaderLinesError::TooMany) => {
            &&& !have_room(lines)
            &&& lines.len() > MAX_HEADER_LINES || exists|k: int, map: HeaderMap| #[trigger]
                is_refused_after(lines, k, map)
        },
    }
}

pub open spec fn outcome_view(outcome: Result<HeaderMap, HeaderLinesError>) -> Result<
    Groups,
    HeaderLinesError,
> {
    match outcome {
        Ok(map) => Ok(header_groups(map)),
        Err(e) => Err(e),
    }
}

/// The texts of strings.
pub open spec fn texts(strings: Seq<String>) -> Seq<Seq<char>> {
    strings.map_values(|s: String| s@)
}

/// Writes the headers of a map as `Name: value` lines, or gives `None` if the value of one is not
/// text.
pub fn header_lines(map: &HeaderMap) -> (lines: Option<Vec<String>>)
    ensures
        lines is Some <==> all_visible(flat(header_groups(*map))),
        lines matches Some(lines) ==> texts(lines@) == lines_of(flat(header_groups(*map))),
{
    let entries: Vec<(String, Vec<u8>)> = header_map_entries(map);
    let ghost view = flat(header_groups(*map));
    let n: usize = entries.len();
    let mut lines: Vec<String> = Vec::new();
    let mut i: usize = 0;
    while i < n
        invariant
            view == flat(header_groups(*map)),
            i <= n == entries@.len() == view.len(),
            entries@.map_values(|e: (String, Vec<u8>)| (e.0@, e.1@)) == view,
            forall|j: int| 0 <= j < entries@.len() ==> is_header_value((#[trigger] entries@[j]).1@),
            forall|j: int| 0 <= j < i ==> is_visible((#[trigger] view[j]).1),
            lines@.len() == i,
            forall|j: int|
                0 <= j < i ==> (#[trigger] lines@[j])@ == line_of(view[j].0, view[j].1),
        decreases n - i,
    {
        proof {
            let mapped = entries@.map_values(|e: (String, Vec<u8>)| (e.0@, e.1@));
            assert(mapped[i as int] == view[i as int]);
        }
        match header_value_to_str(entries[i].1.as_slice()) {
            Ok(text) => {
                let mut line: String = entries[i].0.clone();
                line.append(": ");
                line.append(text.as_str());
                proof {
                    reveal_strlit(": ");
                    assert(": "@ == seq![':', ' ']);
                }
                lines.push(line);
            },
            Err(_) => {
                assert(!is_visible(view[i as int].1));
                return None;
            },
        }
        i += 1;
    }
    assert(texts(lines@) =~= lines_of(view));
    Some(lines)
}

/// Reads one `Name: value` line.
pub fn parse_header_line(line: &str) -> (header: Option<(FieldName, FieldValue)>)
    ensures
        match (header, header_of_line(line@)) {
            (Some(h), Some(g)) => h.0@ == g.0 && h.1@ == g.1,
            (None, None) => true,
            _ => false,
        },
{
    match split_once(line, ':') {
        Some((name, value)) => match (
            FieldName::parse(trim(name)),
            FieldValue::parse(trim(value)),
        ) {
            (Ok(name), Ok(value)) => Some((name, value)),
            _ => None,
        },
        None => None,
    }
}

proof fn lemma_lower_is_a_name(s: Seq<char>)
    requires
        header_name_of(s) is Some,
    ensures
        header_name_of(header_name_of(s)->0) == header_name_of(s),
{
    let t = header_name_of(s)->0;
    assert forall|i: int| 0 <= i < t.len() implies is_token_char(#[trigger] t[i])
        && text::to_lower(t[i]) == t[i] by {
        assert(is_token_char(s[i]));
        assert(t[i] == text::to_lower(s[i]));
    }
    assert(header_name_of(t)->0 =~= t);
}

proof fn lemma_malformed_prefix(lines: Seq<Seq<char>>, i: int)
    requires
        0 <= i <= lines.len(),
        groups_of_lines(lines.take(i)) is None,
    ensures
        groups_of_lines(lines) is None,
    decreases lines.len(),
{
    if i < lines.len() {
        assert(lines.drop_last().take(i) == lines.take(i));
        lemma_malformed_prefix(lines.drop_last(), i);
    } else {
        assert(lines.take(i) == lines);
    }
}

proof fn lemma_names_of_prefix(lines: Seq<Seq<char>>, k: int)
    requires
        0 <= k <= lines.len(),
        groups_of_lines(lines) is Some,
    ensures
        groups_of_lines(lines.take(k)) is Some,
        groups_of_lines(lines.take(k))->0.len() <= k,
        groups_of_lines(lines.take(k))->0.len() <= groups_of_lines(lines)->0.len(),
    decreases lines.len(),
{
    if lines.len() > 0 {
        let (name, value) = header_of_line(lines.last())->0;
        let before = groups_of_lines(lines.drop_last())->0;
        names_of(before).index_of_first_ensures(name);
        if k < lines.len() {
            lemma_names_of_prefix(lines.drop_last(), k);
            assert(lines.drop_last().take(k) == lines.take(k));
        } else {
            lemma_names_of_prefix(lines.drop_last(), k - 1);
            assert(lines.drop_last().take(k - 1) == lines.drop_last());
            assert(lines.take(k) == lines);
        }
    } else {
        assert(lines.take(k) == lines);
    }
}

/// A header map has room for the headers of up to [`SURE_HEADER_NAMES`] lines, and of up to
/// [`MAX_HEADER_LINES`] lines that write fewer names than that.
pub proof fn law_room_for_headers(lines: Seq<Seq<char>>)
    requires
        groups_of_lines(lines) is Some,
        lines.len() <= SURE_HEADER_NAMES || lines.len() <= MAX_HEADER_LINES && groups_of_lines(
            lines,
        )->0.len() < SURE_HEADER_NAMES,
    ensures
        have_room(lines),
{
    assert forall|k: int| 0 <= k < lines.len() implies !have_many_names(
        #[trigger] lines.take(k),
    ) by {
        lemma_names_of_prefix(lines, k);
    }
}

/// Reads `Name: value` lines into a header map.
pub fn header_map_of_lines(lines: &[String]) -> (outcome: Result<HeaderMap, HeaderLinesError>)
    ensures
        is_outcome_of_lines(texts(lines@), outcome_view(outcome)),
{
    let n: usize = lines.len();
    let mut map: HeaderMap = match header_map_with_capacity(n) {
        Ok(map) => map,
        Err(_) => return Err(HeaderLinesError::TooMany),
    };
    let ghost all = texts(lines@);
    let mut i: usize = 0;
    proof {
        assert(all.take(0).len() == 0);
    }
    while i < n
        invariant
            i <= n == lines@.len(),
            all == texts(lines@),
            n <= MAX_HEADER_LINES,
            groups_of_lines(all.take(i as int)) == Some(header_groups(map)),
        decreases n - i,
    {
        let ghost before = map;
        proof {
            assert(all.take(i + 1).drop_last() == all.take(i as int));
            assert(all.take(i + 1).last() == lines@[i as int]@);
        }
        match parse_header_line(lines[i].as_str()) {
            Some((name, value)) => match append(&mut map, &name, &value) {
                Ok(_) => {},
                Err(_) => {
                    assert(have_many_names(all.take(i as int)));
                    assert(is_refused_after(all, i as int, before));
                    return Err(HeaderLinesError::TooMany);
                },
            },
            None => {
                proof {
                    lemma_malformed_prefix(all, i + 1);
                }
                return Err(HeaderLinesError::Malformed);
            },
        }
        i += 1;
    }
    assert(all.take(n as int) == all);
    Ok(map)
}

/// Headers that lines of text can carry unchanged: distinct names in lower case, each with a
/// value, and values of text without white space at the ends.
pub open spec fn fits_in_lines(groups: Groups) -> bool {
    &&& names_of(groups).no_duplicates()
    &&& forall|i: int|
        #![trigger groups[i]]
        0 <= i < groups.len() ==> header_name_of(groups[i].0) == Some(groups[i].0)
            && groups[i].1.len() > 0
    &&& forall|i: int, j: int|
        #![trigger groups[i].1[j]]
        0 <= i < groups.len() && 0 <= j < groups[i].1.len() ==> fits_in_line(groups[i].1[j])
}

/// A value of text without white space at the ends.
pub open spec fn fits_in_line(value: Seq<u8>) -> bool {
    &&& is_visible(value)
    &&& value.len() > 0 ==> !text::is_white_space(value[0] as char) && !text::is_white_space(
        value.last() as char,
    )
}

proof fn lemma_trim_nothing(s: Seq<char>)
    requires
        s.len() > 0 ==> !text::is_white_space(s[0]) && !text::is_white_space(s.last()),
    ensures
        text::trim_of(s) == s,
{
}

proof fn lemma_line_round_trip(name: Seq<char>, value: Seq<u8>)
    requires
        header_name_of(name) == Some(name),
        fits_in_line(value),
    ensures
        header_of_line(line_of(name, value)) == Some((name, value)),
{
    let line = line_of(name, value);
    let chars = ascii_chars(value);
    let n = name.len() as int;
    assert forall|i: int| 0 <= i < n implies is_token_char(#[trigger] name[i]) && name[i] != ':'
        && !text::is_white_space(name[i]) by {}
    line.index_of_first_ensures(':');
    assert(line[n] == ':');
    assert forall|j: int| 0 <= j < n implies line[j] != ':' by {
        assert(line[j] == name[j]);
    }
    assert(line.index_of_first(':') == Some(n));
    assert(line.take(n) == name);
    lemma_trim_nothing(name);
    let rest = line.skip(n + 1);
    assert(rest == seq![' '] + chars);
    assert(rest.skip(1) == chars);
    assert(text::trim_start_of(rest) == text::trim_start_of(chars));
    lemma_trim_nothing(chars);
    assert(text::trim_of(rest) == text::trim_of(chars));
    assert(vstd::utf8::is_ascii_chars(chars)) by {
        assert forall|i: int| 0 <= i < chars.len() implies 0 <= #[trigger] chars[i] as nat
            <= 127 by {
            assert(value[i] < 128);
        }
    }
    vstd::utf8::is_ascii_chars_encode_utf8(chars);
    assert(vstd::utf8::encode_utf8(chars) =~= value);
}

/// Headers put into groups in the order in which they come.
pub open spec fn grouped(entries: Seq<(Seq<char>, Seq<u8>)>) -> Groups
    decreases entries.len(),
{
    if entries.len() == 0 {
        Seq::empty()
    } else {
        append_to(grouped(entries.drop_last()), entries.last().0, entries.last().1)
    }
}

proof fn lemma_lines_round_trip(entries: Seq<(Seq<char>, Seq<u8>)>)
    requires
        forall|i: int|
            #![trigger entries[i]]
            0 <= i < entries.len() ==> header_name_of(entries[i].0) == Some(entries[i].0)
                && fits_in_line(entries[i].1),
    ensures
        groups_of_lines(lines_of(entries)) == Some(grouped(entries)),
    decreases entries.len(),
{
    if entries.len() > 0 {
        lemma_lines_round_trip(entries.drop_last());
        assert(lines_of(entries).drop_last() =~= lines_of(entries.drop_last()));
        lemma_line_round_trip(entries.last().0, entries.last().1);
    }
}

proof fn lemma_grouped_last(
    before: Groups,
    entries: Seq<(Seq<char>, Seq<u8>)>,
    name: Seq<char>,
    values: Seq<Seq<u8>>,
)
    requires
        grouped(entries) == before,
        !names_of(before).contains(name),
        values.len() > 0,
    ensures
        grouped(entries + values.map_values(|v: Seq<u8>| (name, v))) == before.push(
            (name, values),
        ),
    decreases values.len(),
{
    let added = values.map_values(|v: Seq<u8>| (name, v));
    let all = entries + added;
    let rest = values.drop_last();
    let rest_added = rest.map_values(|v: Seq<u8>| (name, v));
    assert(all.drop_last() =~= entries + rest_added);
    assert(all.last() == (name, values.last()));
    if values.len() == 1 {
        assert(entries + rest_added =~= entries);
        names_of(before).index_of_first_ensures(name);
        assert(seq![values.last()] =~= values);
    } else {
        lemma_grouped_last(before, entries, name, rest);
        let groups = before.push((name, rest));
        let names = names_of(groups);
        let last = before.len() as int;
        assert(names[last] == name);
        assert forall|j: int| 0 <= j < last implies names[j] != name by {
            assert(names[j] == names_of(before)[j]);
        }
        names.index_of_first_ensures(name);
        assert(names.index_of_first(name) == Some(last));
        assert(rest.push(values.last()) =~= values);
        assert(append_to(groups, name, values.last()) =~= before.push((name, values)));
    }
}

proof fn lemma_grouped_flat(groups: Groups)
    requires
        names_of(groups).no_duplicates(),
        forall|i: int| 0 <= i < groups.len() ==> (#[trigger] groups[i]).1.len() > 0,
    ensures
        grouped(flat(groups)) == groups,
    decreases groups.len(),
{
    if groups.len() > 0 {
        let before = groups.drop_last();
        let (name, values) = groups.last();
        let names = names_of(groups);
        assert(names_of(before) =~= names.drop_last());
        lemma_grouped_flat(before);
        assert(!names_of(before).contains(name)) by {
            assert(names.last() == name);
        }
        lemma_grouped_last(before, flat(before), name, values);
        assert(before.push((name, values)) =~= groups);
    }
}

proof fn lemma_flat_entries(groups: Groups)
    requires
        fits_in_lines(groups),
    ensures
        forall|k: int|
            #![trigger flat(groups)[k]]
            0 <= k < flat(groups).len() ==> header_name_of(flat(groups)[k].0) == Some(
                flat(groups)[k].0,
            ) && fits_in_line(flat(groups)[k].1),
    decreases groups.len(),
{
    if groups.len() > 0 {
        let before = groups.drop_last();
        let (name, values) = groups.last();
        let last = groups.len() - 1;
        assert(names_of(before) =~= names_of(groups).drop_last());
        assert forall|i: int, j: int|
            #![trigger before[i].1[j]]
            0 <= i < before.len() && 0 <= j < before[i].1.len() implies fits_in_line(
            before[i].1[j],
        ) by {
            assert(fits_in_line(groups[i].1[j]));
        }
        lemma_flat_entries(before);
        assert forall|k: int|
            #![trigger flat(groups)[k]]
            0 <= k < flat(groups).len() implies header_name_of(flat(groups)[k].0) == Some(
            flat(groups)[k].0,
        ) && fits_in_line(flat(groups)[k].1) by {
            let n = flat(before).len() as int;
            if k < n {
                assert(flat(groups)[k] == flat(before)[k]);
            } else {
                assert(flat(groups)[k] == (name, values[k - n]));
                assert(groups[last] == (name, values));
                assert(fits_in_line(groups[last].1[k - n]));
            }
        }
    }
}

/// The values that `groups` holds for `name`.
pub open spec fn values_of(groups: Groups, name: Seq<char>) -> Seq<Seq<u8>> {
    match names_of(groups).index_of_first(name) {
        Some(i) => groups[i].1,
        None => Seq::empty(),
    }
}

/// The values that `lines` write for `name`, in order.
pub open spec fn values_in_lines(lines: Seq<Seq<char>>, name: Seq<char>) -> Seq<Seq<u8>>
    decreases lines.len(),
{
    if lines.len() == 0 {
        Seq::empty()
    } else {
        let before = values_in_lines(lines.drop_last(), name);
        match header_of_line(lines.last()) {
            Some((n, value)) if n == name => before.push(value),
            _ => before,
        }
    }
}

proof fn lemma_values_after_append(groups: Groups, n: Seq<char>, value: Seq<u8>, name: Seq<char>)
    ensures
        values_of(append_to(groups, n, value), name) == if n == name {
            values_of(groups, name).push(value)
        } else {
            values_of(groups, name)
        },
{
    let after = append_to(groups, n, value);
    let names = names_of(groups);
    let names_after = names_of(after);
    names.index_of_first_ensures(n);
    names.index_of_first_ensures(name);
    names_after.index_of_first_ensures(name);
    if names.contains(n) {
        assert(names_after =~= names);
    } else {
        assert(names_after =~= names.push(n));
        if n == name {
            assert(names_after[names.len() as int] == name);
            assert(seq![value] =~= Seq::<Seq<u8>>::empty().push(value));
            let i = names_after.index_of_first(name)->0;
            if i < names.len() {
                assert(names[i] == name);
            }
        } else if names.contains(name) {
            let i = names.index_of_first(name)->0;
            assert(names_after[i] == name);
            let j = names_after.index_of_first(name)->0;
            assert(names[j] == name);
        } else if names_after.contains(name) {
            let j = names_after.index_of_first(name)->0;
            assert(names[j] == name);
        }
    }
}

/// Reading lines loses no header and makes none up: each name gets the values that the lines
/// write for it, in the order of the lines.
pub proof fn law_every_header_is_kept(lines: Seq<Seq<char>>, name: Seq<char>)
    ensures
        groups_of_lines(lines) matches Some(groups) ==> values_of(groups, name) == values_in_lines(
            lines,
            name,
        ),
    decreases lines.len(),
{
    if lines.len() > 0 {
        law_every_header_is_kept(lines.drop_last(), name);
        if let (Some(groups), Some((n, value))) = (
            groups_of_lines(lines.drop_last()),
            header_of_line(lines.last()),
        ) {
            lemma_values_after_append(groups, n, value, name);
        }
    } else {
        let none = Groups::empty();
        names_of(none).index_of_first_ensures(name);
    }
}

proof fn lemma_append_keeps_distinct(groups: Groups, name: Seq<char>, value: Seq<u8>)
    requires
        names_of(groups).no_duplicates(),
    ensures
        names_of(append_to(groups, name, value)).no_duplicates(),
{
    let names = names_of(groups);
    let after = names_of(append_to(groups, name, value));
    names.index_of_first_ensures(name);
    if names.contains(name) {
        assert(after =~= names);
    } else {
        assert(after =~= names.push(name));
    }
}

/// What lines are read into has each name once.
pub proof fn law_names_are_distinct(lines: Seq<Seq<char>>)
    ensures
        groups_of_lines(lines) matches Some(groups) ==> names_of(groups).no_duplicates(),
    decreases lines.len(),
{
    if lines.len() > 0 {
        law_names_are_distinct(lines.drop_last());
        if let (Some(groups), Some((name, value))) = (
            groups_of_lines(lines.drop_last()),
            header_of_line(lines.last()),
        ) {
            lemma_append_keeps_distinct(groups, name, value);
        }
    }
}

/// Headers that are written as lines and read back are the same headers.
pub proof fn law_header_lines_round_trip(groups: Groups)
    requires
        fits_in_lines(groups),
    ensures
        all_visible(flat(groups)),
        groups_of_lines(lines_of(flat(groups))) == Some(groups),
{
    lemma_flat_entries(groups);
    assert forall|i: int| 0 <= i < flat(groups).len() implies is_visible(
        (#[trigger] flat(groups)[i]).1,
    ) by {}
    lemma_lines_round_trip(flat(groups));
    lemma_grouped_flat(groups);
}

/// The characters of a token are the letters and digits of ASCII and fifteen signs.
pub proof fn law_token_characters(c: char)
    ensures
        is_token_char(c) <==> {
            ||| 0x30 <= c as int <= 0x39
            ||| 0x41 <= c as int <= 0x5a
            ||| 0x61 <= c as int <= 0x7a
            ||| seq![
                0x21int,
                0x23,
                0x24,
                0x25,
                0x26,
                0x27,
                0x2a,
                0x2b,
                0x2d,
                0x2e,
                0x5e,
                0x5f,
                0x60,
                0x7c,
                0x7e,
            ].contains(c as int)
        },
{
    let signs = seq![
        0x21int,
        0x23,
        0x24,
        0x25,
        0x26,
        0x27,
        0x2a,
        0x2b,
        0x2d,
        0x2e,
        0x5e,
        0x5f,
        0x60,
        0x7c,
        0x7e,
    ];
    assert(signs[0] == 0x21 && signs[1] == 0x23 && signs[2] == 0x24 && signs[3] == 0x25 && signs[4]
        == 0x26 && signs[5] == 0x27 && signs[6] == 0x2a && signs[7] == 0x2b && signs[8] == 0x2d
        && signs[9] == 0x2e && signs[10] == 0x5e && signs[11] == 0x5f && signs[12] == 0x60
        && signs[13] == 0x7c && signs[14] == 0x7e);
}

/// A header value can hold any byte but the control characters other than the tab, and is text if
/// none of its bytes is beyond ASCII.
pub proof fn law_value_bytes(bytes: Seq<u8>)
    ensures
        is_header_value(bytes) <==> forall|i: int|
            0 <= i < bytes.len() ==> (#[trigger] bytes[i] == 9 || 0x20 <= bytes[i] <= 0x7e
                || bytes[i] >= 0x80),
        is_visible(bytes) <==> is_header_value(bytes) && forall|i: int|
            0 <= i < bytes.len() ==> #[trigger] bytes[i] < 0x80,
{
    if is_header_value(bytes) {
        assert forall|i: int| 0 <= i < bytes.len() implies (#[trigger] bytes[i] == 9 || 0x20
            <= bytes[i] <= 0x7e || bytes[i] >= 0x80) by {
            assert(is_value_byte(bytes[i]));
        }
    }
    if is_visible(bytes) {
        assert forall|i: int| 0 <= i < bytes.len() implies is_value_byte(#[trigger] bytes[i]) by {}
    }
    if is_header_value(bytes) && (forall|i: int|
        0 <= i < bytes.len() ==> #[trigger] bytes[i] < 0x80) {
        assert forall|i: int| 0 <= i < bytes.len() implies (32 <= #[trigger] bytes[i] < 127
            || bytes[i] == 9) by {
            assert(is_value_byte(bytes[i]));
        }
    }
}

/// A token has at least one character, and each of its characters can be one of a token. A token of
/// at most 65535 characters, and nothing else, is a header name, which keeps its length.
pub proof fn law_tokens_and_names(s: Seq<char>)
    ensures
        is_token(s) <==> s.len() > 0 && forall|i: int|
            0 <= i < s.len() ==> is_token_char(#[trigger] s[i]),
        header_name_of(s) is Some <==> is_token(s) && s.len() <= 65535,
        header_name_of(s) matches Some(name) ==> name.len() == s.len() && forall|i: int|
            0 <= i < s.len() ==> #[trigger] name[i] == text::to_lower(s[i]),
{
}

/// Text is the header value of its bytes in UTF-8, if that can be one.
pub proof fn law_text_values(s: Seq<char>)
    ensures
        header_value_of(s) == if is_header_value(vstd::utf8::encode_utf8(s)) {
            Some(vstd::utf8::encode_utf8(s))
        } else {
            None
        },
{
}

/// Lines are read one after the other: one more line adds its header to those before it, and makes
/// everything unreadable if it writes none.
pub proof fn law_one_more_line(lines: Seq<Seq<char>>, line: Seq<char>)
    ensures
        groups_of_lines(Seq::empty()) == Some(Groups::empty()),
        groups_of_lines(lines.push(line)) is Some <==> groups_of_lines(lines) is Some
            && header_of_line(line) is Some,
        groups_of_lines(lines) matches Some(before) ==> (header_of_line(line) matches Some(
            (name, value),
        ) ==> groups_of_lines(lines.push(line)) == Some(append_to(before, name, value))),
{
    assert(lines.push(line).drop_last() == lines);
    assert(groups_of_lines(Seq::empty())->0 =~= Groups::empty());
}

/// Lines become the headers that they write. They do not where one writes none, or where they are
/// too many, and never for the first reason where each writes one, nor for the second where there
/// is room.
pub proof fn law_what_lines_become(
    lines: Seq<Seq<char>>,
    outcome: Result<Groups, HeaderLinesError>,
)
    requires
        is_outcome_of_lines(lines, outcome),
    ensures
        outcome matches Ok(groups) ==> groups_of_lines(lines) == Some(groups),
        outcome == Err::<Groups, _>(HeaderLinesError::Malformed) ==> groups_of_lines(lines) is None,
        outcome == Err::<Groups, _>(HeaderLinesError::TooMany) ==> !have_room(lines),
        have_room(lines) && groups_of_lines(lines) is Some ==> outcome == Ok::<_, HeaderLinesError>(
            groups_of_lines(lines)->0,
        ),
        have_room(lines) && groups_of_lines(lines) is None ==> outcome == Err::<Groups, _>(
            HeaderLinesError::Malformed,
        ),
        lines.len() > 24_576 ==> outcome == Err::<Groups, _>(HeaderLinesError::TooMany),
{
}

/// A name known beforehand can be any token of at most 65535 characters without capital letters.
pub proof fn law_static_names(name: Seq<char>)
    requires
        header_name_of(name) == Some(name),
    ensures
        is_static_name(name),
{
    assert forall|i: int| 0 <= i < name.len() implies is_token_char(#[trigger] name[i]) && !('A'
        <= name[i] <= 'Z') by {
        assert(header_name_of(name)->0[i] == text::to_lower(name[i]));
    }
}

/// A line has a name, a colon, a space and the characters of the value.
pub proof fn law_shape_of_a_line(name: Seq<char>, value: Seq<u8>)
    ensures
        line_of(name, value).len() == name.len() + 2 + value.len(),
        line_of(name, value).take(name.len() as int) == name,
        line_of(name, value)[name.len() as int] == ':',
        line_of(name, value)[name.len() as int + 1] == ' ',
        forall|i: int|
            0 <= i < value.len() ==> #[trigger] line_of(name, value)[name.len() as int + 2 + i]
                == value[i] as char,
{
    assert(line_of(name, value).take(name.len() as int) =~= name);
}

proof fn lemma_blank_has_no_colon(s: Seq<char>)
    requires
        text::is_blank(s),
    ensures
        !s.contains(':'),
{
    if s.contains(':') {
        let i = s.index_of(':');
        assert(text::is_white_space(s[i]));
    }
}

/// A name in letters of either case and a value, with a colon between them and any white space
/// around either, are read as that name in lower case and the bytes of that value.
pub proof fn law_reading_a_line(
    name: Seq<char>,
    value: Seq<char>,
    a: Seq<char>,
    b: Seq<char>,
    c: Seq<char>,
    d: Seq<char>,
)
    requires
        text::is_blank(a) && text::is_blank(b) && text::is_blank(c) && text::is_blank(d),
        is_token(name) && name.len() <= 65535,
        value.len() > 0 ==> !text::is_white_space(value[0]) && !text::is_white_space(value.last()),
        is_header_value(vstd::utf8::encode_utf8(value)),
    ensures
        header_of_line((a + name + b) + seq![':'] + (c + value + d)) matches Some((n, v)) && {
            &&& v == vstd::utf8::encode_utf8(value)
            &&& n.len() == name.len()
            &&& forall|i: int|
                0 <= i < name.len() ==> #[trigger] n[i] == text::to_lower(name[i])
        },
{
    let left = a + name + b;
    assert(!left.contains(':')) by {
        lemma_blank_has_no_colon(a);
        lemma_blank_has_no_colon(b);
        if left.contains(':') {
            let i = left.index_of(':');
            assert(left[i] == ':');
            if i < a.len() {
                assert(a[i] == ':');
            } else if i < a.len() + name.len() {
                assert(is_token_char(name[i - a.len()]));
            } else {
                assert(b[i - a.len() - name.len()] == ':');
            }
        }
    }
    text::law_split_first(left, ':', c + value + d);
    assert(is_token_char(name[0]) && is_token_char(name[name.len() - 1]));
    text::law_trim(a, name, b);
    text::law_trim(c, value, d);
}

/// Only such lines are headers: one without a colon is none, nor is one whose first colon has
/// anything but a token before it, or a control character other than the tab after it.
pub proof fn law_other_lines_are_no_headers(before: Seq<char>, after: Seq<char>)
    requires
        !before.contains(':'),
    ensures
        header_of_line(before) is None,
        header_of_line(before + seq![':'] + after) is Some <==> is_token(text::trim_of(before))
            && text::trim_of(before).len() <= 65535 && is_header_value(
            vstd::utf8::encode_utf8(text::trim_of(after)),
        ),
{
    text::law_split_first(before, ':', after);
}

/// One more header of a name goes after those of that name. Names stay in the order in which they
/// first came, and what the others have stays as it was.
pub proof fn law_one_more_header(
    groups: Groups,
    name: Seq<char>,
    value: Seq<u8>,
    other: Seq<char>,
)
    requires
        other != name,
    ensures
        values_of(append_to(groups, name, value), name) == values_of(groups, name).push(value),
        values_of(append_to(groups, name, value), other) == values_of(groups, other),
        names_of(append_to(groups, name, value)) == if names_of(groups).contains(name) {
            names_of(groups)
        } else {
            names_of(groups).push(name)
        },
{
    lemma_values_after_append(groups, name, value, name);
    lemma_values_after_append(groups, name, value, other);
    names_of(groups).index_of_first_ensures(name);
    if names_of(groups).contains(name) {
        assert(names_of(append_to(groups, name, value)) =~= names_of(groups));
    } else {
        assert(names_of(append_to(groups, name, value)) =~= names_of(groups).push(name));
    }
}

/// Headers can be written as lines exactly if every value of every name is text.
pub proof fn law_refused_headers(groups: Groups)
    ensures
        all_visible(flat(groups)) <==> forall|i: int, j: int|
            #![trigger groups[i].1[j]]
            0 <= i < groups.len() && 0 <= j < groups[i].1.len() ==> is_visible(groups[i].1[j]),
    decreases groups.len(),
{
    if groups.len() > 0 {
        let before = groups.drop_last();
        let last = groups.len() - 1;
        let (name, values) = groups.last();
        let entries = flat(groups);
        let n = flat(before).len() as int;
        law_refused_headers(before);
        assert(forall|i: int| 0 <= i < last ==> before[i] == groups[i]);
        if all_visible(entries) {
            assert(all_visible(flat(before))) by {
                assert forall|k: int| 0 <= k < n implies is_visible(
                    (#[trigger] flat(before)[k]).1,
                ) by {
                    assert(entries[k] == flat(before)[k]);
                }
            }
            assert forall|i: int, j: int|
                #![trigger groups[i].1[j]]
                0 <= i < groups.len() && 0 <= j < groups[i].1.len() implies is_visible(
                groups[i].1[j],
            ) by {
                if i < last {
                    assert(is_visible(before[i].1[j]));
                } else {
                    assert(entries[n + j] == (name, values[j]));
                }
            }
        } else {
            let k = choose|k: int| 0 <= k < entries.len() && !is_visible((#[trigger] entries[k]).1);
            if k < n {
                assert(entries[k] == flat(before)[k]);
                assert(!all_visible(flat(before)));
                let (i, j) = choose|i: int, j: int|
                    #![trigger before[i].1[j]]
                    0 <= i < before.len() && 0 <= j < before[i].1.len() && !is_visible(
                        before[i].1[j],
                    );
                assert(!is_visible(groups[i].1[j]));
            } else {
                assert(entries[k] == (name, values[k - n]));
                assert(!is_visible(groups[last].1[k - n]));
            }
        }
    }
}

/// The headers of a map one by one: the values of each name follow one another as the map has them.
pub proof fn law_headers_one_by_one(groups: Groups, i: int, j: int)
    requires
        0 <= i < groups.len(),
        0 <= j < groups[i].1.len(),
    ensures
        flat(groups.take(i)).len() + j < flat(groups).len(),
        flat(groups)[flat(groups.take(i)).len() + j] == (groups[i].0, groups[i].1[j]),
        flat(groups.take(i + 1)).len() == flat(groups.take(i)).len() + groups[i].1.len(),
        flat(groups.take(0)).len() == 0,
        flat(groups.take(groups.len() as int)) == flat(groups),
    decreases groups.len(),
{
    let last = groups.len() - 1;
    let (name, values) = groups.last();
    assert(groups.take(groups.len() as int) == groups);
    assert(groups.take(i + 1).drop_last() == groups.take(i));
    assert(groups.take(i + 1).last() == groups[i]);
    if i < last {
        let before = groups.drop_last();
        assert(before.take(i) == groups.take(i));
        law_headers_one_by_one(before, i, j);
        assert(flat(groups)[flat(groups.take(i)).len() + j] == flat(before)[flat(
            groups.take(i),
        ).len() + j]);
    } else {
        assert(groups.take(i) == groups.drop_last());
    }
}

} // verus!
