//! Searching, trimming and number parsing on text, stated over sequences of characters.

use vstd::prelude::*;

verus! {

/// The characters with the Unicode `White_Space` property.
pub open spec fn is_white_space(c: char) -> bool {
    ||| '\u{9}' <= c <= '\u{d}'
    ||| c == '\u{20}' || c == '\u{85}' || c == '\u{a0}' || c == '\u{1680}'
    ||| '\u{2000}' <= c <= '\u{200a}'
    ||| c == '\u{2028}' || c == '\u{2029}' || c == '\u{202f}' || c == '\u{205f}' || c == '\u{3000}'
}

/// `s` without the white space that it starts with.
pub open spec fn trim_start_of(s: Seq<char>) -> Seq<char>
    decreases s.len(),
{
    if s.len() > 0 && is_white_space(s[0]) {
        trim_start_of(s.skip(1))
    } else {
        s
    }
}

/// `s` without the white space that it ends with.
pub open spec fn trim_end_of(s: Seq<char>) -> Seq<char>
    decreases s.len(),
{
    if s.len() > 0 && is_white_space(s.last()) {
        trim_end_of(s.drop_last())
    } else {
        s
    }
}

/// `s` without white space at either end.
pub open spec fn trim_of(s: Seq<char>) -> Seq<char> {
    trim_end_of(trim_start_of(s))
}

/// What stands before and after the first `c` of `s`.
pub open spec fn split_first_of(s: Seq<char>, c: char) -> Option<(Seq<char>, Seq<char>)> {
    match s.index_of_first(c) {
        Some(i) => Some((s.take(i), s.skip(i + 1))),
        None => None,
    }
}

/// What stands before and after the last `c` of `s`.
pub open spec fn split_last_of(s: Seq<char>, c: char) -> Option<(Seq<char>, Seq<char>)> {
    match s.index_of_last(c) {
        Some(i) => Some((s.take(i), s.skip(i + 1))),
        None => None,
    }
}

/// An ASCII letter in lower case, any other character as it is.
pub open spec fn to_lower(c: char) -> char {
    if 'A' <= c <= 'Z' {
        (c as u32 + 32) as char
    } else {
        c
    }
}

pub open spec fn is_digit(c: char) -> bool {
    '0' <= c <= '9'
}

pub open spec fn all_digits(s: Seq<char>) -> bool {
    forall|i: int| 0 <= i < s.len() ==> is_digit(#[trigger] s[i])
}

/// The number that `s` writes in base ten.
pub open spec fn decimal_value(s: Seq<char>) -> nat
    decreases s.len(),
{
    if s.len() == 0 {
        0
    } else {
        decimal_value(s.drop_last()) * 10 + (s.last() as nat - '0' as nat) as nat
    }
}

/// `s` without one leading plus sign.
pub open spec fn unsigned_part(s: Seq<char>) -> Seq<char> {
    if s.len() > 0 && s[0] == '+' {
        s.skip(1)
    } else {
        s
    }
}

/// The number that `s` writes as decimal digits, after an optional plus sign, if there is at
/// least one digit, nothing but digits, and the number is at most `max`.
pub open spec fn decimal_of(s: Seq<char>, max: nat) -> Option<nat> {
    let digits = unsigned_part(s);
    if digits.len() > 0 && all_digits(digits) && decimal_value(digits) <= max {
        Some(decimal_value(digits))
    } else {
        None
    }
}

fn white_space(c: char) -> (b: bool)
    ensures
        b == is_white_space(c),
{
    ('\u{9}' <= c && c <= '\u{d}') || c == '\u{20}' || c == '\u{85}' || c == '\u{a0}' || c
        == '\u{1680}' || ('\u{2000}' <= c && c <= '\u{200a}') || c == '\u{2028}' || c == '\u{2029}'
        || c == '\u{202f}' || c == '\u{205f}' || c == '\u{3000}'
}

/// The characters of `s`, in order.
pub fn chars_of(s: &str) -> (chars: Vec<char>)
    ensures
        chars@ == s@,
{
    let mut chars: Vec<char> = Vec::new();
    for c in it: s.chars()
        invariant
            it.seq() == s@,
            chars@ == s@.take(it.index() as int),
    {
        chars.push(c);
        assert(s@.take(it.index() + 1) == s@.take(it.index() as int).push(s@[it.index() as int]));
    }
    assert(s@.take(s@.len() as int) == s@);
    chars
}

proof fn lemma_first_index(s: Seq<char>, c: char, i: int)
    requires
        0 <= i < s.len(),
        s[i] == c,
        forall|j: int| 0 <= j < i ==> s[j] != c,
    ensures
        s.index_of_first(c) == Some(i),
{
    s.index_of_first_ensures(c);
    assert(s.contains(c));
}

proof fn lemma_last_index(s: Seq<char>, c: char, i: int)
    requires
        0 <= i < s.len(),
        s[i] == c,
        forall|j: int| i < j < s.len() ==> s[j] != c,
    ensures
        s.index_of_last(c) == Some(i),
{
    s.index_of_last_ensures(c);
    assert(s.contains(c));
}

/// Splits `s` at the first `c`, which is in neither part.
pub fn split_once(s: &str, c: char) -> (parts: Option<(&str, &str)>)
    ensures
        match (parts, split_first_of(s@, c)) {
            (Some(p), Some(q)) => p.0@ == q.0 && p.1@ == q.1,
            (None, None) => true,
            _ => false,
        },
{
    let chars: Vec<char> = chars_of(s);
    let n: usize = chars.len();
    let mut i: usize = 0;
    while i < n
        invariant
            i <= n == chars@.len(),
            chars@ == s@,
            forall|j: int| 0 <= j < i ==> s@[j] != c,
        decreases n - i,
    {
        if chars[i] == c {
            proof {
                lemma_first_index(s@, c, i as int);
                assert(s@.subrange(0, i as int) == s@.take(i as int));
                assert(s@.subrange(i + 1, n as int) == s@.skip(i + 1));
            }
            return Some((s.substring_char(0, i), s.substring_char(i + 1, n)));
        }
        i += 1;
    }
    proof {
        s@.index_of_first_ensures(c);
        assert(!s@.contains(c));
    }
    None
}

/// Splits `s` at the last `c`, which is in neither part.
pub fn rsplit_once(s: &str, c: char) -> (parts: Option<(&str, &str)>)
    ensures
        match (parts, split_last_of(s@, c)) {
            (Some(p), Some(q)) => p.0@ == q.0 && p.1@ == q.1,
            (None, None) => true,
            _ => false,
        },
{
    let chars: Vec<char> = chars_of(s);
    let n: usize = chars.len();
    let mut i: usize = n;
    while i > 0
        invariant
            i <= n == chars@.len(),
            chars@ == s@,
            forall|j: int| i <= j < n ==> s@[j] != c,
        decreases i,
    {
        i -= 1;
        if chars[i] == c {
            proof {
                lemma_last_index(s@, c, i as int);
                assert(s@.subrange(0, i as int) == s@.take(i as int));
                assert(s@.subrange(i + 1, n as int) == s@.skip(i + 1));
            }
            return Some((s.substring_char(0, i), s.substring_char(i + 1, n)));
        }
    }
    proof {
        s@.index_of_last_ensures(c);
        assert(!s@.contains(c));
    }
    None
}

/// Drops the white space at both ends of `s`.
pub fn trim(s: &str) -> (t: &str)
    ensures
        t@ == trim_of(s@),
{
    let chars: Vec<char> = chars_of(s);
    let n: usize = chars.len();
    let mut from: usize = 0;
    proof {
        assert(s@.skip(0) == s@);
    }
    while from < n && white_space(chars[from])
        invariant
            from <= n == chars@.len(),
            chars@ == s@,
            trim_start_of(s@) == trim_start_of(s@.skip(from as int)),
        decreases n - from,
    {
        assert(s@.skip(from as int).skip(1) == s@.skip(from + 1));
        from += 1;
    }
    let ghost rest = s@.skip(from as int);
    let mut to: usize = n;
    proof {
        assert(rest == s@.subrange(from as int, n as int));
    }
    while to > from && white_space(chars[to - 1])
        invariant
            from <= to <= n == chars@.len(),
            chars@ == s@,
            trim_end_of(rest) == trim_end_of(s@.subrange(from as int, to as int)),
        decreases to - from,
    {
        assert(s@.subrange(from as int, to as int).drop_last() == s@.subrange(
            from as int,
            to - 1,
        ));
        to -= 1;
    }
    s.substring_char(from, to)
}

proof fn lemma_decimal_prefix(s: Seq<char>, i: int)
    requires
        0 <= i <= s.len(),
    ensures
        decimal_value(s.take(i)) <= decimal_value(s),
    decreases s.len(),
{
    if i < s.len() {
        lemma_decimal_prefix(s.drop_last(), i);
        assert(s.drop_last().take(i) == s.take(i));
    } else {
        assert(s.take(i) == s);
    }
}

/// Reads a number in the range 0 to `max` that is written as decimal digits, after an optional
/// plus sign.
pub fn parse_decimal(s: &str, max: u64) -> (value: Option<u64>)
    ensures
        match (value, decimal_of(s@, max as nat)) {
            (Some(v), Some(w)) => v == w,
            (None, None) => true,
            _ => false,
        },
{
    let chars: Vec<char> = chars_of(s);
    let n: usize = chars.len();
    let start: usize = if n > 0 && chars[0] == '+' {
        1
    } else {
        0
    };
    let ghost digits = unsigned_part(s@);
    proof {
        assert(digits == s@.skip(start as int));
    }
    if start == n {
        return None;
    }
    let mut value: u64 = 0;
    let mut i: usize = start;
    proof {
        assert(digits.take(0).len() == 0);
    }
    while i < n
        invariant
            start <= i <= n == chars@.len(),
            chars@ == s@,
            digits == unsigned_part(s@),
            digits == s@.skip(start as int),
            value == decimal_value(digits.take(i - start)),
            value <= max,
            forall|j: int| 0 <= j < i - start ==> is_digit(#[trigger] digits[j]),
        decreases n - i,
    {
        let c: char = chars[i];
        assert(c == digits[i - start]);
        if c < '0' || c > '9' {
            assert(!is_digit(digits[i - start]));
            return None;
        }
        let digit: u64 = (c as u32 - '0' as u32) as u64;
        let ghost next = decimal_value(digits.take(i - start + 1));
        proof {
            assert(digits.take(i - start + 1).drop_last() == digits.take(i - start));
            assert(next == value * 10 + digit);
            lemma_decimal_prefix(digits, i - start + 1);
        }
        if value > max / 10 || digit > max - value * 10 {
            return None;
        }
        value = value * 10 + digit;
        i += 1;
    }
    assert(digits.take(n - start) == digits);
    Some(value)
}

/// A hexadecimal digit, in lower case.
pub open spec fn hex_char(n: int) -> char {
    if n < 10 {
        (n + '0' as int) as char
    } else {
        (n - 10 + 'a' as int) as char
    }
}

/// `n` written in base sixteen.
pub open spec fn hex_text(n: nat) -> Seq<char>
    decreases n,
{
    let last = hex_char(n as int % 16);
    if n < 16 {
        seq![last]
    } else {
        hex_text(n / 16).push(last)
    }
}

/// `n` written in base sixteen, with zeros in front where it has fewer than four digits.
pub open spec fn hex_text_of_four(n: nat) -> Seq<char> {
    let digits = hex_text(n);
    if digits.len() < 4 {
        Seq::new((4 - digits.len()) as nat, |i: int| '0') + digits
    } else {
        digits
    }
}

proof fn lemma_hex_text_len(n: nat)
    ensures
        hex_text(n).len() == if n < 0x10 {
            1
        } else {
            hex_text(n / 16).len() + 1
        },
        n < 0x1000 ==> hex_text(n).len() == if n < 0x10 {
            1nat
        } else if n < 0x100 {
            2
        } else {
            3
        },
        n >= 0x1000 ==> hex_text(n).len() >= 4,
    decreases n,
{
    if n >= 0x10 {
        lemma_hex_text_len(n / 16);
    }
}

/// Writes `n` in base sixteen at the end of `line`.
fn append_hex(line: &mut String, n: u64)
    ensures
        final(line)@ == old(line)@ + hex_text(n as nat),
    decreases n,
{
    if n >= 16 {
        append_hex(line, n / 16);
    }
    let digits: &str = "0123456789abcdef";
    let digit: usize = (n % 16) as usize;
    proof {
        reveal_strlit("0123456789abcdef");
        assert(digits@.subrange(digit as int, digit + 1) =~= seq![hex_char(digit as int)]);
    }
    line.append(digits.substring_char(digit, digit + 1));
    assert(line@ =~= old(line)@ + hex_text(n as nat));
}

/// Writes `n` in base sixteen, with zeros in front where it has fewer than four digits.
pub fn hex_of_four(n: u64) -> (text: String)
    ensures
        text@ == hex_text_of_four(n as nat),
{
    let zeros: &str = "000";
    let missing: usize = if n < 0x10 {
        3
    } else if n < 0x100 {
        2
    } else if n < 0x1000 {
        1
    } else {
        0
    };
    proof {
        lemma_hex_text_len(n as nat);
        reveal_strlit("000");
    }
    let mut text: String = zeros.substring_char(0, missing).to_owned();
    append_hex(&mut text, n);
    assert(text@ =~= hex_text_of_four(n as nat));
    text
}

/// White space is what Unicode says it is: these characters and no others.
pub proof fn law_white_space(c: char)
    ensures
        is_white_space(c) <==> seq![
            0x9,
            0xa,
            0xb,
            0xc,
            0xd,
            0x20,
            0x85,
            0xa0,
            0x1680,
            0x2000,
            0x2001,
            0x2002,
            0x2003,
            0x2004,
            0x2005,
            0x2006,
            0x2007,
            0x2008,
            0x2009,
            0x200a,
            0x2028,
            0x2029,
            0x202f,
            0x205f,
            0x3000int,
        ].contains(c as int),
{
    let all = seq![
        0x9,
        0xa,
        0xb,
        0xc,
        0xd,
        0x20,
        0x85,
        0xa0,
        0x1680,
        0x2000,
        0x2001,
        0x2002,
        0x2003,
        0x2004,
        0x2005,
        0x2006,
        0x2007,
        0x2008,
        0x2009,
        0x200a,
        0x2028,
        0x2029,
        0x202f,
        0x205f,
        0x3000int,
    ];
    let n = c as int;
    if is_white_space(c) {
        let i = if n <= 0xd {
            n - 9
        } else if n == 0x20 {
            5
        } else if n == 0x85 {
            6
        } else if n == 0xa0 {
            7
        } else if n == 0x1680 {
            8
        } else if n <= 0x200a {
            n - 0x2000 + 9
        } else if n == 0x2028 {
            20
        } else if n == 0x2029 {
            21
        } else if n == 0x202f {
            22
        } else if n == 0x205f {
            23
        } else {
            24
        };
        assert(all[i] == n);
    }
}

/// All of `s` is white space.
pub open spec fn is_blank(s: Seq<char>) -> bool {
    forall|i: int| 0 <= i < s.len() ==> is_white_space(#[trigger] s[i])
}

proof fn lemma_trim_start(blank: Seq<char>, s: Seq<char>)
    requires
        is_blank(blank),
    ensures
        trim_start_of(blank + s) == trim_start_of(s),
    decreases blank.len(),
{
    let all = blank + s;
    if blank.len() > 0 {
        assert(all[0] == blank[0]);
        assert(all.skip(1) == blank.skip(1) + s);
        lemma_trim_start(blank.skip(1), s);
    } else {
        assert(all == s);
    }
}

proof fn lemma_trim_end(s: Seq<char>, blank: Seq<char>)
    requires
        is_blank(blank),
    ensures
        trim_end_of(s + blank) == trim_end_of(s),
    decreases blank.len(),
{
    let all = s + blank;
    if blank.len() > 0 {
        assert(all.last() == blank.last());
        assert(all.drop_last() == s + blank.drop_last());
        lemma_trim_end(s, blank.drop_last());
    } else {
        assert(all == s);
    }
}

/// White space around a text is dropped, and nothing of a text that neither starts nor ends with
/// white space.
pub proof fn law_trim(before: Seq<char>, s: Seq<char>, after: Seq<char>)
    requires
        is_blank(before),
        is_blank(after),
        s.len() > 0 ==> !is_white_space(s[0]) && !is_white_space(s.last()),
    ensures
        trim_of(before + s + after) == s,
{
    let rest = s + after;
    assert(before + s + after == before + rest);
    lemma_trim_start(before, rest);
    if s.len() > 0 {
        assert(rest[0] == s[0]);
        assert(trim_start_of(rest) == rest);
        lemma_trim_end(s, after);
    } else {
        assert(rest == after);
        lemma_trim_start(after, s);
        assert(after + s == after);
        assert(trim_start_of(after) == s);
    }
}

/// A text is split at the first of a character into what is before it and what is after it, and is
/// not split without one.
pub proof fn law_split_first(before: Seq<char>, c: char, after: Seq<char>)
    requires
        !before.contains(c),
    ensures
        split_first_of(before + seq![c] + after, c) == Some((before, after)),
        split_first_of(before, c) is None,
{
    let s = before + seq![c] + after;
    let n = before.len() as int;
    assert(s[n] == c);
    assert forall|j: int| 0 <= j < n implies s[j] != c by {
        assert(s[j] == before[j]);
    }
    lemma_first_index(s, c, n);
    assert(s.take(n) == before);
    assert(s.skip(n + 1) == after);
    before.index_of_first_ensures(c);
}

/// A text is split at the last of a character into what is before it and what is after it, and is
/// not split without one.
pub proof fn law_split_last(before: Seq<char>, c: char, after: Seq<char>)
    requires
        !after.contains(c),
    ensures
        split_last_of(before + seq![c] + after, c) == Some((before, after)),
        split_last_of(after, c) is None,
{
    let s = before + seq![c] + after;
    let n = before.len() as int;
    assert(s[n] == c);
    assert forall|j: int| n < j < s.len() implies s[j] != c by {
        assert(s[j] == after[j - n - 1]);
    }
    lemma_last_index(s, c, n);
    assert(s.take(n) == before);
    assert(s.skip(n + 1) == after);
    after.index_of_last_ensures(c);
}

/// An ASCII letter of either case has the same lower case, which is a letter from `a`; every other
/// character is its own.
pub proof fn law_lower_case(i: int, c: char)
    requires
        0 <= i < 26,
    ensures
        to_lower((0x41 + i) as char) as int == 0x61 + i,
        to_lower((0x61 + i) as char) as int == 0x61 + i,
        !(0x41 <= c as int <= 0x5a) ==> to_lower(c) == c,
{
}

/// `n` written in base ten.
pub open spec fn decimal_text(n: nat) -> Seq<char>
    decreases n,
{
    let last = (n % 10 + '0' as nat) as char;
    if n < 10 {
        seq![last]
    } else {
        decimal_text(n / 10).push(last)
    }
}

pub proof fn lemma_decimal_text(n: nat)
    ensures
        decimal_text(n).len() > 0,
        all_digits(decimal_text(n)),
        decimal_value(decimal_text(n)) == n,
    decreases n,
{
    let text = decimal_text(n);
    if n < 10 {
        assert(text.drop_last().len() == 0);
        reveal_with_fuel(decimal_value, 2);
    } else {
        lemma_decimal_text(n / 10);
        assert(text.drop_last() == decimal_text(n / 10));
    }
}

proof fn lemma_leading_zeros(zeros: Seq<char>, s: Seq<char>)
    requires
        forall|i: int| 0 <= i < zeros.len() ==> #[trigger] zeros[i] == '0',
    ensures
        decimal_value(zeros + s) == decimal_value(s),
    decreases zeros.len() + s.len(),
{
    let all = zeros + s;
    if s.len() > 0 {
        assert(all.drop_last() == zeros + s.drop_last());
        assert(all.last() == s.last());
        lemma_leading_zeros(zeros, s.drop_last());
    } else if zeros.len() > 0 {
        assert(all == zeros);
        assert(all.drop_last() == zeros.drop_last() + s);
        lemma_leading_zeros(zeros.drop_last(), s);
    } else {
        assert(all == s);
    }
}

/// A number is read back from the digits that write it in base ten, with any zeros in front and
/// with or without a plus sign before them, if it is not over the limit.
pub proof fn law_number_round_trip(zeros: Seq<char>, n: nat, max: nat)
    requires
        forall|i: int| 0 <= i < zeros.len() ==> #[trigger] zeros[i] == '0',
    ensures
        decimal_of(zeros + decimal_text(n), max) == if n <= max {
            Some(n)
        } else {
            None
        },
        decimal_of(seq!['+'] + zeros + decimal_text(n), max) == if n <= max {
            Some(n)
        } else {
            None
        },
{
    let digits = zeros + decimal_text(n);
    lemma_decimal_text(n);
    lemma_leading_zeros(zeros, decimal_text(n));
    assert forall|i: int| 0 <= i < digits.len() implies is_digit(#[trigger] digits[i]) by {
        if i < zeros.len() {
            assert(digits[i] == zeros[i]);
        } else {
            assert(digits[i] == decimal_text(n)[i - zeros.len()]);
        }
    }
    assert(is_digit(digits[0]));
    assert(unsigned_part(digits) == digits);
    let signed = seq!['+'] + zeros + decimal_text(n);
    assert(signed[0] == '+');
    assert(signed.skip(1) == digits);
}

/// Text with a character that is no digit is no number, but for one plus sign in front of a digit.
pub proof fn law_numbers_are_digits(s: Seq<char>, i: int, max: nat)
    requires
        0 <= i < s.len(),
        !('0' <= s[i] <= '9'),
        i > 0 || s[0] != '+' || s.len() == 1 || s[1] == '+',
    ensures
        decimal_of(s, max) is None,
        decimal_of(Seq::empty(), max) is None,
{
    let digits = unsigned_part(s);
    if s[0] == '+' {
        if i > 0 {
            assert(digits[i - 1] == s[i]);
        } else if s.len() > 1 {
            assert(digits[0] == s[1]);
        }
    } else {
        assert(digits[i] == s[i]);
    }
}

/// What a hexadecimal text in lower case stands for.
pub open spec fn hex_number(s: Seq<char>) -> nat
    decreases s.len(),
{
    if s.len() == 0 {
        0
    } else {
        hex_number(s.drop_last()) * 16 + seq![
            '0',
            '1',
            '2',
            '3',
            '4',
            '5',
            '6',
            '7',
            '8',
            '9',
            'a',
            'b',
            'c',
            'd',
            'e',
            'f',
        ].index_of(s.last()) as nat
    }
}

proof fn lemma_hex_number(n: nat)
    ensures
        hex_number(hex_text(n)) == n,
        hex_text(n).len() > 0,
        hex_text(n).len() > 1 ==> hex_text(n)[0] != '0',
    decreases n,
{
    let text = hex_text(n);
    let digits = seq![
        '0',
        '1',
        '2',
        '3',
        '4',
        '5',
        '6',
        '7',
        '8',
        '9',
        'a',
        'b',
        'c',
        'd',
        'e',
        'f',
    ];
    let d = n as int % 16;
    assert(digits[d] == hex_char(d));
    assert(text.last() == hex_char(d));
    let k = digits.index_of(text.last());
    assert(digits.contains(digits[d]));
    assert(0 <= k < 16 && digits[k] == digits[d]);
    assert(k == d);
    if n < 16 {
        assert(text.drop_last().len() == 0);
        reveal_with_fuel(hex_number, 2);
    } else {
        lemma_hex_number(n / 16);
        assert(text.drop_last() == hex_text(n / 16));
        assert(text[0] == hex_text(n / 16)[0]);
        if hex_text(n / 16).len() == 1 {
            assert(n / 16 < 16) by {
                lemma_hex_text_len(n / 16);
            }
            assert(hex_text(n / 16) == seq![hex_char((n / 16) as int)]);
        }
    }
}

proof fn lemma_hex_zeros(zeros: Seq<char>, s: Seq<char>)
    requires
        forall|i: int| 0 <= i < zeros.len() ==> #[trigger] zeros[i] == '0',
    ensures
        hex_number(zeros + s) == hex_number(s),
    decreases zeros.len() + s.len(),
{
    let all = zeros + s;
    if s.len() > 0 {
        assert(all.drop_last() == zeros + s.drop_last());
        assert(all.last() == s.last());
        lemma_hex_zeros(zeros, s.drop_last());
    } else if zeros.len() > 0 {
        let digits = seq![
            '0',
            '1',
            '2',
            '3',
            '4',
            '5',
            '6',
            '7',
            '8',
            '9',
            'a',
            'b',
            'c',
            'd',
            'e',
            'f',
        ];
        assert(digits[0] == '0');
        assert(digits.contains('0'));
        assert(digits.index_of('0') == 0);
        assert(all == zeros);
        assert(all.drop_last() == zeros.drop_last() + s);
        lemma_hex_zeros(zeros.drop_last(), s);
    } else {
        assert(all == s);
    }
}

/// A number of a log line stands for the number of the request: at least four digits, and no zero
/// in front of more.
pub proof fn law_hex_number(n: nat)
    ensures
        hex_number(hex_text_of_four(n)) == n,
        hex_text_of_four(n).len() >= 4,
        hex_text_of_four(n).len() > 4 ==> hex_text_of_four(n)[0] != '0',
{
    lemma_hex_number(n);
    let digits = hex_text(n);
    if digits.len() < 4 {
        lemma_hex_zeros(Seq::new((4 - digits.len()) as nat, |i: int| '0'), digits);
    }
}

} // verus!
