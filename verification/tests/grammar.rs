//! What is a token, a path or a header, told in another way and held against the library on every
//! short input.

use chat_bridge::headers::header_lines;
use chat_bridge::headers::header_map_of_lines;
use chat_bridge::headers::FieldName;
use chat_bridge::headers::FieldValue;
use chat_bridge::request::HttpMethod;
use chat_bridge::request::HttpPath;

/// Every text of up to `length` characters of `alphabet`.
fn texts(alphabet: &[char], length: usize) -> Vec<String> {
    let mut all = vec![String::new()];
    let mut last = all.clone();
    for _ in 0..length {
        last = last
            .iter()
            .flat_map(|text| alphabet.iter().map(move |c| format!("{}{}", text, c)))
            .collect();
        all.extend(last.iter().cloned());
    }
    all
}

fn is_token_char(c: char) -> bool {
    c.is_ascii_alphanumeric() || "!#$%&'*+-.^_`|~".contains(c)
}

fn is_token(text: &str) -> bool {
    !text.is_empty() && text.chars().all(is_token_char)
}

fn is_path_char(c: char) -> bool {
    !c.is_ascii_control() && !" #<>?`\u{7f}".contains(c)
}

fn is_query_char(c: char) -> bool {
    !c.is_ascii_control() && !" \"#<>".contains(c)
}

fn path_rule(text: &str) -> Option<String> {
    if text == "*" {
        return Some(text.to_owned());
    }
    let first = text.chars().next()?;
    if !"/?#".contains(first) || text.len() > 65_534 {
        return None;
    }
    let kept = text.split('#').next().expect("one part");
    let (path, query) = match kept.split_once('?') {
        Some((path, query)) => (path, query),
        None => (kept, ""),
    };
    if !path.chars().all(is_path_char) || !query.chars().all(is_query_char) {
        None
    } else if kept.starts_with('/') {
        Some(kept.to_owned())
    } else {
        Some(format!("/{}", kept))
    }
}

#[test]
fn methods_follow_the_rule() {
    for c in '\0'..=char::MAX {
        for text in [format!("{}", c), format!("G{}T", c)] {
            let method = HttpMethod::try_from(text.clone());
            assert_eq!(method.is_ok(), is_token(&text), "{:?}", text);
            if let Ok(method) = method {
                assert_eq!(method.into_string(), text);
            }
        }
    }
}

#[test]
fn paths_follow_the_rule() {
    let alphabet = [
        '/', '?', '#', '*', 'a', ' ', '"', '<', '{', '`', '^', '\u{7f}', '\u{e9}', '\n',
    ];
    let mut all = texts(&alphabet, 4);
    for c in '\0'..=char::MAX {
        all.push(format!("/{}", c));
        all.push(format!("/?{}", c));
    }
    for text in all {
        let path = HttpPath::try_from(text.clone()).ok().map(HttpPath::into_string);
        assert_eq!(path, path_rule(&text), "{:?}", text);
    }
}

/// What a line is read as.
fn header_rule(line: &str) -> Option<(String, Vec<u8>)> {
    let (name, value) = line.split_once(':')?;
    let (name, value) = (name.trim(), value.trim());
    let is_value = value.bytes().all(|b| b >= 32 && b != 127 || b == b'\t');
    if is_token(name) && is_value {
        Some((name.to_ascii_lowercase(), value.as_bytes().to_vec()))
    } else {
        None
    }
}

#[test]
fn header_lines_follow_the_rule() {
    let alphabet = [
        ':', ' ', 'a', 'Z', '"', '\t', '\u{e9}', '\u{a0}', '\u{7f}', '-', '\n',
    ];
    for line in texts(&alphabet, 4) {
        let read = header_map_of_lines(&[line.clone()]).ok().map(|map| {
            let (name, value) = map.iter().next().expect("one header");
            (name.as_str().to_owned(), value.as_bytes().to_vec())
        });
        assert_eq!(read, header_rule(&line), "{:?}", line);
    }
}

#[test]
fn names_and_values_follow_the_rule() {
    for c in '\0'..=char::MAX {
        let text = format!("a{}", c);
        assert_eq!(FieldName::parse(&text).is_ok(), is_token(&text), "{:?}", c);
        let is_value = !c.is_ascii_control() || c == '\t';
        assert_eq!(FieldValue::parse(&text).is_ok(), is_value, "{:?}", c);
    }
}

#[test]
fn values_that_are_text_follow_the_rule() {
    for byte in 0..=u8::MAX {
        let Ok(value) = http::HeaderValue::from_bytes(&[b'a', byte]) else {
            continue;
        };
        let mut map = http::HeaderMap::new();
        map.append("x", value);
        let line = header_lines(&map);
        if (32..127).contains(&byte) || byte == 9 {
            assert_eq!(line, Some(vec![format!("x: a{}", byte as char)]));
        } else {
            assert_eq!(line, None);
        }
    }
}

#[test]
fn headers_of_a_name_stay_together_in_every_order() {
    for names in texts(&['a', 'b', 'c'], 6) {
        let lines: Vec<String> = names
            .chars()
            .enumerate()
            .map(|(i, name)| format!("{}: {}", name, i))
            .collect();
        let mut order: Vec<char> = Vec::new();
        for name in names.chars() {
            if !order.contains(&name) {
                order.push(name);
            }
        }
        let expected: Vec<String> = order
            .iter()
            .flat_map(|name| lines.iter().filter(move |line| line.starts_with(*name)))
            .cloned()
            .collect();
        let map = header_map_of_lines(&lines).ok().expect("headers");
        assert_eq!(header_lines(&map), Some(expected));
    }
}
