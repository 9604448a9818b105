//! Requests as apps put them together.

use chat_bridge::headers::header_lines;
use chat_bridge::headers::header_map_of_lines;
use chat_bridge::headers::parse_header_line;
use chat_bridge::headers::FieldName;
use chat_bridge::headers::FieldValue;
use chat_bridge::headers::HeaderLinesError;
use chat_bridge::headers::SURE_HEADER_NAMES;
use chat_bridge::request::HttpMethod;
use chat_bridge::request::HttpPath;
use chat_bridge::request::HttpRequest;
use chat_bridge::request::HttpStatus;

fn method(text: &str) -> HttpMethod {
    HttpMethod::try_from(text.to_owned()).expect("a method")
}

fn new_request(path: &str, body: Option<&[u8]>) -> HttpRequest {
    HttpRequest::new(method("GET"), path.to_owned(), body).expect("a path")
}

#[test]
fn methods_are_tokens() {
    for text in ["GET", "HEAD", "get", "M-SEARCH", "a.b~c", "ABCDEFGHIJKLMNOPQRSTUVWXYZ"] {
        assert_eq!(method(text).as_str(), text);
        assert_eq!(method(text).into_string(), text);
    }
    for text in ["", "G T", "GET\r", "\u{e9}", "a/b", "a:b"] {
        assert!(HttpMethod::try_from(text.to_owned()).is_err(), "{:?}", text);
    }
}

#[test]
fn statuses_are_from_100_to_999() {
    for number in 0..=2000 {
        let status = HttpStatus::try_from(number);
        assert_eq!(status.is_ok(), (100..=999).contains(&number));
        if let Ok(status) = status {
            assert_eq!(status.as_u16(), number);
            assert!(status.describe().starts_with(&format!("{} ", number)));
        }
    }
}

#[test]
fn paths_are_written_as_they_are_read() {
    for (text, written) in [
        ("/", "/"),
        ("/v1/x", "/v1/x"),
        ("/v1/x?y=z&w", "/v1/x?y=z&w"),
        ("/a#b", "/a"),
        ("?a", "/?a"),
        ("#", "/"),
        ("*", "*"),
        ("/\u{e9}?\u{e9}", "/\u{e9}?\u{e9}"),
        ("/a?b?c", "/a?b?c"),
        ("//", "//"),
    ] {
        let path = HttpPath::try_from(text.to_owned()).expect(text);
        assert_eq!(path.into_string(), written);
    }
    for text in ["", "a", "**", "/ ", "/\n", "/<", "/a?\"", "/a? ", "http://x/"] {
        assert!(HttpPath::try_from(text.to_owned()).is_err(), "{:?}", text);
        assert!(
            HttpRequest::new(method("GET"), text.to_owned(), None).is_err(),
            "{:?}",
            text
        );
    }
    let longest = format!("/{}", "a".repeat(65_533));
    assert!(HttpPath::try_from(longest.clone()).is_ok());
    assert!(HttpPath::try_from(longest + "a").is_err());
}

#[test]
fn every_character_of_a_path_and_a_query_is_judged_alike() {
    for c in '\0'..='\u{200}' {
        for text in [format!("/{}", c), format!("/?{}", c)] {
            let expected = http::uri::PathAndQuery::try_from(text.clone());
            let path = HttpPath::try_from(text.clone());
            assert_eq!(
                path.map(|path| path.into_string()).ok(),
                expected.map(|path| path.to_string()).ok(),
                "{:?}",
                text
            );
        }
    }
}

#[test]
fn a_request_has_a_body_where_one_is_given() {
    assert!(new_request("/", None).body.is_none());
    assert_eq!(new_request("/", Some(b"")).body.as_deref(), Some(b"" as &[u8]));
    let request = new_request("/p", Some(b"abc"));
    assert_eq!(request.body.as_deref(), Some(b"abc" as &[u8]));
    assert!(request.headers.is_empty());
    assert_eq!(request.method.into_string(), "GET");
    assert_eq!(request.path.into_string(), "/p");
}

fn name(text: &str) -> FieldName {
    FieldName::parse(text).expect("a name")
}

fn value(text: &str) -> FieldValue {
    FieldValue::parse(text).expect("a value")
}

#[test]
fn headers_are_added_after_those_of_the_same_name() {
    let mut request = new_request("/", None);
    request.add_header(name("B"), value("1")).expect("room");
    request.add_header(name("a"), value("2")).expect("room");
    request.add_header(name("b"), value(" 3\t")).expect("room");
    let lines = header_lines(&request.headers).expect("text");
    assert_eq!(lines, ["b: 1", "b:  3\t", "a: 2"]);
}

#[test]
fn a_value_need_not_be_text() {
    for byte in 0..=u8::MAX {
        let bytes = [b'a', byte];
        let value = FieldValue::from_bytes(&bytes);
        assert_eq!(value.is_ok(), byte >= 32 && byte != 127 || byte == 9);
        if let Ok(value) = value {
            let mut request = new_request("/", None);
            request.add_header(name("x"), value).expect("room");
            assert_eq!(request.headers["x"].as_bytes(), bytes);
        }
    }
}

#[test]
fn a_request_that_can_hold_no_more_headers_stays_as_it_was() {
    let mut request = new_request("/", None);
    let mut added: usize = 0;
    while request
        .add_header(name(&format!("name-{}", added)), value("v"))
        .is_ok()
    {
        added += 1;
        assert!(added < 100_000);
    }
    assert!(added >= SURE_HEADER_NAMES);
    assert_eq!(request.headers.len(), added);
    assert!(request.add_header(name("name-0"), value("w")).is_err());
    assert_eq!(request.headers.len(), added);
}

#[test]
fn header_names_and_values_are_judged_as_elsewhere() {
    for c in '\0'..='\u{200}' {
        let text = format!("a{}", c);
        assert_eq!(
            FieldName::parse(&text).is_ok(),
            text.parse::<http::HeaderName>().is_ok(),
            "{:?}",
            c
        );
        assert_eq!(
            FieldValue::parse(&text).is_ok(),
            text.parse::<http::HeaderValue>().is_ok(),
            "{:?}",
            c
        );
    }
    assert!(FieldName::parse("").is_err());
    assert!(FieldValue::parse("").is_ok());
    assert!(FieldName::parse(&"a".repeat(65_535)).is_ok());
    assert!(FieldName::parse(&"a".repeat(65_536)).is_err());
}

#[test]
fn headers_go_through_lines_and_back() {
    let mut map = http::HeaderMap::new();
    map.append("x", "1".parse().expect("a value"));
    map.append("y", "a b\tc".parse().expect("a value"));
    map.append("x", "".parse().expect("a value"));
    let lines = header_lines(&map).expect("text");
    assert_eq!(lines, ["x: 1", "x: ", "y: a b\tc"]);
    assert!(matches!(header_map_of_lines(&lines), Ok(read) if read == map));
}

#[test]
fn a_value_that_is_not_text_has_no_line() {
    let mut map = http::HeaderMap::new();
    map.append("x", http::HeaderValue::from_bytes(b"\x80").expect("a value"));
    assert!(header_lines(&map).is_none());
}

#[test]
fn lines_that_are_no_headers_are_told_from_too_many() {
    assert!(matches!(
        header_map_of_lines(&["x".to_owned()]),
        Err(HeaderLinesError::Malformed)
    ));
    assert!(matches!(
        header_map_of_lines(&vec!["x".to_owned(); 24_577]),
        Err(HeaderLinesError::TooMany)
    ));
    let lines: Vec<String> = (0..SURE_HEADER_NAMES)
        .map(|i| format!("name-{}: {}", i, i))
        .collect();
    assert!(matches!(header_map_of_lines(&lines), Ok(map) if map.len() == SURE_HEADER_NAMES));
}

#[test]
fn one_line_is_one_header() {
    assert!(parse_header_line("A: b: c").is_some());
    assert!(parse_header_line("A").is_none());
    assert!(parse_header_line(" : c").is_none());
}
