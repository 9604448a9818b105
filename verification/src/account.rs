//! The identity that a connection signs in with: an account identifier and a device number.

use vstd::prelude::*;

use crate::text;
use crate::text::parse_decimal;
use crate::text::rsplit_once;
use crate::text::chars_of;

verus! {

broadcast use vstd::array::group_array_axioms;

/// The largest number that a device of an account can have.
pub const MAX_DEVICE_ID: u8 = 127;

/// An account identifier: the sixteen bytes of a UUID.
#[derive(Clone, Copy, PartialEq, Eq, Debug)]
pub struct Aci {
    pub bytes: [u8; 16],
}

/// The number of a device within its account, from 1 to [`MAX_DEVICE_ID`].
#[derive(Clone, Copy, PartialEq, Eq, Debug, Structural)]
pub struct DeviceId {
    number: u8,
}

pub open spec fn is_hex(c: char) -> bool {
    '0' <= c <= '9' || 'a' <= c <= 'f' || 'A' <= c <= 'F'
}

/// What a hexadecimal digit of either case stands for.
pub open spec fn hex_value(c: char) -> int {
    if '0' <= c <= '9' {
        c as int - '0' as int
    } else if 'a' <= c <= 'f' {
        c as int - 'a' as int + 10
    } else {
        c as int - 'A' as int + 10
    }
}

/// Where a hyphenated UUID has its hyphens.
pub open spec fn is_hyphen_position(i: int) -> bool {
    i == 8 || i == 13 || i == 18 || i == 23
}

/// Where a hyphenated UUID has the two digits of byte `k`.
pub open spec fn digits_position(k: int) -> int {
    2 * k + if k < 4 {
        0int
    } else if k < 6 {
        1
    } else if k < 8 {
        2
    } else if k < 10 {
        3
    } else {
        4
    }
}

/// A UUID in its hyphenated form: 8, 4, 4, 4 and 12 hexadecimal digits of either case.
pub open spec fn is_hyphenated_uuid(s: Seq<char>) -> bool {
    &&& s.len() == 36
    &&& forall|i: int|
        0 <= i < 36 ==> if is_hyphen_position(i) {
            #[trigger] s[i] == '-'
        } else {
            is_hex(s[i])
        }
}

/// Byte `k` of a hyphenated UUID.
pub open spec fn uuid_byte(s: Seq<char>, k: int) -> u8 {
    (hex_value(s[digits_position(k)]) * 16 + hex_value(s[digits_position(k) + 1])) as u8
}

/// The identifier that `s` writes, if it is a hyphenated UUID.
pub open spec fn aci_of(s: Seq<char>) -> Option<Seq<u8>> {
    if is_hyphenated_uuid(s) {
        Some(Seq::new(16, |k: int| uuid_byte(s, k)))
    } else {
        None
    }
}

/// The device number that `s` writes, if it writes one in the range 1 to [`MAX_DEVICE_ID`].
pub open spec fn device_of(s: Seq<char>) -> Option<nat> {
    match text::decimal_of(s, MAX_DEVICE_ID as nat) {
        Some(n) if n > 0 => Some(n),
        _ => None,
    }
}

/// The identifier and the device number of a sign-in username. The device number stands after
/// the last full stop; without a full stop it is 1.
pub open spec fn username_of(s: Seq<char>) -> Option<(Seq<u8>, nat)> {
    let (aci, device) = match text::split_last_of(s, '.') {
        Some((aci, device)) => (aci_of(aci), device_of(device)),
        None => (aci_of(s), Some(1nat)),
    };
    match (aci, device) {
        (Some(aci), Some(device)) => Some((aci, device)),
        _ => None,
    }
}

fn hex_digit(c: char) -> (value: Option<u8>)
    ensures
        value is Some <==> is_hex(c),
        value matches Some(v) ==> v == hex_value(c) && v < 16,
{
    if '0' <= c && c <= '9' {
        Some((c as u32 - '0' as u32) as u8)
    } else if 'a' <= c && c <= 'f' {
        Some((c as u32 - 'a' as u32) as u8 + 10)
    } else if 'A' <= c && c <= 'F' {
        Some((c as u32 - 'A' as u32) as u8 + 10)
    } else {
        None
    }
}

impl Aci {
    /// Reads an identifier in its hyphenated form. Other ways to write a UUID are refused.
    pub fn parse_from_service_id_string(input: &str) -> (aci: Option<Aci>)
        ensures
            match (aci, aci_of(input@)) {
                (Some(aci), Some(bytes)) => aci.bytes@ == bytes,
                (None, None) => true,
                _ => false,
            },
    {
        let chars: Vec<char> = chars_of(input);
        if chars.len() != 36 {
            return None;
        }
        if chars[8] != '-' || chars[13] != '-' || chars[18] != '-' || chars[23] != '-' {
            return None;
        }
        let mut bytes: [u8; 16] = [0u8;16];
        let mut k: usize = 0;
        let mut at: usize = 0;
        while k < 16
            invariant
                k <= 16,
                at == digits_position(k as int) || (k == 16 && at == 36),
                at <= 36,
                chars@ == input@,
                chars@.len() == 36,
                chars@[8] == '-' && chars@[13] == '-' && chars@[18] == '-' && chars@[23] == '-',
                forall|i: int|
                    0 <= i < at && !is_hyphen_position(i) ==> is_hex(#[trigger] chars@[i]),
                forall|j: int| 0 <= j < k ==> #[trigger] bytes@[j] == uuid_byte(chars@, j),
            decreases 16 - k,
        {
            match (hex_digit(chars[at]), hex_digit(chars[at + 1])) {
                (Some(high), Some(low)) => {
                    assert(!is_hyphen_position(at as int) && !is_hyphen_position(at + 1));
                    let byte: u8 = high * 16 + low;
                    bytes[k] = byte;
                },
                _ => {
                    assert(!is_hex(chars@[at as int]) || !is_hex(chars@[at + 1]));
                    assert(!is_hyphen_position(at as int) && !is_hyphen_position(at + 1));
                    return None;
                },
            }
            k += 1;
            at += 2;
            if at == 8 || at == 13 || at == 18 || at == 23 {
                at += 1;
            }
        }
        assert(bytes@ =~= aci_of(input@)->0);
        Some(Aci { bytes })
    }
}

impl DeviceId {
    #[verifier::type_invariant]
    spec fn well_formed(self) -> bool {
        0 < self.number <= MAX_DEVICE_ID
    }

    pub closed spec fn view(self) -> nat {
        self.number as nat
    }

    /// A device number, if `number` can be one.
    pub fn new(number: u8) -> (id: Option<DeviceId>)
        ensures
            id is Some <==> 0 < number <= MAX_DEVICE_ID,
            id matches Some(id) ==> id@ == number,
    {
        if number > 0 && number <= MAX_DEVICE_ID {
            Some(DeviceId { number })
        } else {
            None
        }
    }

    pub fn get(self) -> (number: u8)
        ensures
            number == self@,
            0 < number <= MAX_DEVICE_ID,
    {
        proof {
            use_type_invariant(&self);
        }
        self.number
    }
}

/// Parses a sign-in username of the form `{aci}` or `{aci}.{device}`.
///
/// Without a device number the username stands for device 1. Any other input gives `None`.
pub fn parse_username(username: &str) -> (parsed: Option<(Aci, DeviceId)>)
    ensures
        match (parsed, username_of(username@)) {
            (Some((aci, device)), Some((bytes, number))) => aci.bytes@ == bytes && device@
                == number,
            (None, None) => true,
            _ => false,
        },
{
    let (aci_part, number): (&str, u64) = match rsplit_once(username, '.') {
        Some((aci_part, device_part)) => match parse_decimal(device_part, MAX_DEVICE_ID as u64) {
            Some(number) => (aci_part, number),
            None => return None,
        },
        None => (username, 1),
    };
    match (Aci::parse_from_service_id_string(aci_part), DeviceId::new(number as u8)) {
        (Some(aci), Some(device)) => Some((aci, device)),
        _ => None,
    }
}

/// Two texts that are the same but for the case of ASCII letters.
pub open spec fn same_but_for_case(s: Seq<char>, t: Seq<char>) -> bool {
    &&& s.len() == t.len()
    &&& forall|i: int|
        0 <= i < s.len() ==> text::to_lower(#[trigger] s[i]) == text::to_lower(#[trigger] t[i])
}

/// How many hyphens a hyphenated UUID has before position `i`.
pub open spec fn hyphens_before(i: int) -> int {
    if i <= 8 {
        0
    } else if i <= 13 {
        1
    } else if i <= 18 {
        2
    } else if i <= 23 {
        3
    } else {
        4
    }
}

/// The hyphenated form of an identifier, in lower case.
pub open spec fn aci_text(bytes: Seq<u8>) -> Seq<char> {
    Seq::new(
        36,
        |i: int|
            {
                let digit = i - hyphens_before(i);
                if is_hyphen_position(i) {
                    '-'
                } else if digit % 2 == 0 {
                    text::hex_char(bytes[digit / 2] as int / 16)
                } else {
                    text::hex_char(bytes[digit / 2] as int % 16)
                }
            },
    )
}

/// A device number written in base ten.
pub open spec fn decimal_text(n: nat) -> Seq<char> {
    text::decimal_text(n)
}

proof fn lemma_aci_text(bytes: Seq<u8>)
    requires
        bytes.len() == 16,
    ensures
        aci_of(aci_text(bytes)) == Some(bytes),
        !aci_text(bytes).contains('.'),
{
    let text = aci_text(bytes);
    assert forall|i: int| 0 <= i < 36 implies if is_hyphen_position(i) {
        #[trigger] text[i] == '-'
    } else {
        is_hex(text[i])
    } by {
        let digit = i - hyphens_before(i);
        assert(0 <= digit / 2 < 16);
    }
    assert forall|k: int| 0 <= k < 16 implies uuid_byte(text, k) == #[trigger] bytes[k] by {
        let at = digits_position(k);
        assert(at - hyphens_before(at) == 2 * k);
        assert(at + 1 - hyphens_before(at + 1) == 2 * k + 1);
        assert((2 * k) / 2 == k && (2 * k + 1) / 2 == k);
    }
    assert(aci_of(text)->0 =~= bytes);
}

/// The username written for an account and a device is read back as that account and device.
pub proof fn law_username_round_trip(bytes: Seq<u8>, device: nat)
    requires
        bytes.len() == 16,
        1 <= device <= MAX_DEVICE_ID,
    ensures
        username_of(aci_text(bytes) + seq!['.'] + decimal_text(device)) == Some((bytes, device)),
{
    let left = aci_text(bytes);
    let right = text::decimal_text(device);
    let s = left + seq!['.'] + right;
    lemma_aci_text(bytes);
    text::lemma_decimal_text(device);
    assert forall|j: int| left.len() < j < s.len() implies s[j] != '.' by {
        assert(s[j] == right[j - left.len() - 1]);
        assert(text::is_digit(right[j - left.len() - 1]));
    }
    s.index_of_last_ensures('.');
    assert(s[left.len() as int] == '.');
    assert(s.take(left.len() as int) == left);
    assert(s.skip(left.len() as int + 1) == right);
    assert(text::is_digit(right[0]));
    assert(text::unsigned_part(right) == right);
}

/// A username without a device number stands for device 1.
pub proof fn law_username_implicit_device(s: Seq<char>)
    requires
        !s.contains('.'),
    ensures
        username_of(s) == username_of(s + seq!['.', '1']),
{
    let t = s + seq!['.', '1'];
    s.index_of_last_ensures('.');
    t.index_of_last_ensures('.');
    assert(t[s.len() as int] == '.');
    assert(t[s.len() as int + 1] == '1');
    assert(t.index_of_last('.') == Some(s.len() as int));
    assert(t.take(s.len() as int) == s);
    let one = t.skip(s.len() as int + 1);
    assert(one == seq!['1']);
    assert(text::unsigned_part(one) == one);
    assert(text::is_digit(one[0]));
    assert(one.drop_last().len() == 0);
    reveal_with_fuel(text::decimal_value, 2);
    assert(text::decimal_value(one) == 1);
}

/// The case of letters makes no difference to what a username is read as.
pub proof fn law_username_ignores_case(s: Seq<char>, t: Seq<char>)
    requires
        same_but_for_case(s, t),
    ensures
        username_of(s) == username_of(t),
{
    assert forall|i: int| 0 <= i < s.len() implies (#[trigger] s[i] == '.' <==> t[i] == '.') by {}
    s.index_of_last_ensures('.');
    t.index_of_last_ensures('.');
    if s.contains('.') {
        let i = s.index_of_last('.')->0;
        assert(t[i] == '.');
        assert(t.index_of_last('.') == Some(i)) by {
            let j = t.index_of_last('.')->0;
            assert(s[j] == '.');
        }
        lemma_aci_ignores_case(s.take(i), t.take(i));
        lemma_device_ignores_case(s.skip(i + 1), t.skip(i + 1));
    } else {
        if t.contains('.') {
            let j = t.index_of_last('.')->0;
            assert(s[j] == '.');
        }
        lemma_aci_ignores_case(s, t);
    }
}

proof fn lemma_shape_ignores_case(s: Seq<char>, t: Seq<char>)
    requires
        same_but_for_case(s, t),
        is_hyphenated_uuid(s),
    ensures
        is_hyphenated_uuid(t),
        aci_of(s) == aci_of(t),
{
    assert forall|i: int| 0 <= i < 36 implies if is_hyphen_position(i) {
        #[trigger] t[i] == '-'
    } else {
        is_hex(t[i]) && hex_value(t[i]) == hex_value(s[i])
    } by {
        assert(text::to_lower(s[i]) == text::to_lower(t[i]));
    }
    assert forall|k: int| 0 <= k < 16 implies #[trigger] uuid_byte(s, k) == uuid_byte(t, k) by {
        let at = digits_position(k);
        assert(!is_hyphen_position(at) && !is_hyphen_position(at + 1));
        assert(hex_value(t[at]) == hex_value(s[at]));
        assert(hex_value(t[at + 1]) == hex_value(s[at + 1]));
    }
    assert(aci_of(s)->0 =~= aci_of(t)->0);
}

proof fn lemma_aci_ignores_case(s: Seq<char>, t: Seq<char>)
    requires
        same_but_for_case(s, t),
    ensures
        aci_of(s) == aci_of(t),
{
    if is_hyphenated_uuid(s) {
        lemma_shape_ignores_case(s, t);
    } else if is_hyphenated_uuid(t) {
        lemma_shape_ignores_case(t, s);
    }
}

proof fn lemma_device_ignores_case(s: Seq<char>, t: Seq<char>)
    requires
        same_but_for_case(s, t),
    ensures
        device_of(s) == device_of(t),
{
    let a = text::unsigned_part(s);
    let b = text::unsigned_part(t);
    assert(s.len() > 0 ==> (s[0] == '+' <==> t[0] == '+'));
    assert forall|i: int| 0 <= i < a.len() implies text::to_lower(#[trigger] a[i])
        == text::to_lower(b[i]) by {
        let k = i + (s.len() - a.len());
        assert(a[i] == s[k] && b[i] == t[k]);
    }
    assert forall|i: int| 0 <= i < a.len() implies (text::is_digit(#[trigger] a[i])
        <==> text::is_digit(b[i])) && (text::is_digit(a[i]) ==> a[i] == b[i]) by {}
    if text::all_digits(a) {
        assert(a =~= b);
    } else if text::all_digits(b) {
        assert(forall|i: int| 0 <= i < a.len() ==> text::is_digit(b[i]));
        assert(a =~= b);
    }
}

proof fn lemma_hex_digit_text(c: char)
    requires
        is_hex(c),
    ensures
        0 <= hex_value(c) < 16,
        text::to_lower(c) == text::hex_char(hex_value(c)),
{
}

proof fn lemma_aci_is_its_text(s: Seq<char>)
    requires
        aci_of(s) is Some,
    ensures
        aci_of(s)->0.len() == 16,
        same_but_for_case(s, aci_text(aci_of(s)->0)),
{
    let bytes = aci_of(s)->0;
    let text = aci_text(bytes);
    assert forall|i: int| 0 <= i < 36 implies text::to_lower(#[trigger] s[i]) == text::to_lower(
        #[trigger] text[i],
    ) by {
        if !is_hyphen_position(i) {
            let digit = i - hyphens_before(i);
            let k = digit / 2;
            assert(0 <= k < 16);
            let at = digits_position(k);
            assert(bytes[k] == uuid_byte(s, k));
            assert(!is_hyphen_position(at) && !is_hyphen_position(at + 1));
            let high = hex_value(s[at]);
            let low = hex_value(s[at + 1]);
            lemma_hex_digit_text(s[at]);
            lemma_hex_digit_text(s[at + 1]);
            assert(bytes[k] as int == high * 16 + low);
            assert((high * 16 + low) / 16 == high && (high * 16 + low) % 16 == low);
            assert(digit == 2 * k || digit == 2 * k + 1);
            if digit == 2 * k {
                assert(i == at);
                assert(text[i] == text::hex_char(high));
            } else {
                assert(i == at + 1);
                assert(text[i] == text::hex_char(low));
            }
        }
    }
}

/// Nothing else is a username: what is read as an account and a device is the hyphenated form of
/// the account, in letters of any case, alone for device 1 or with the number of the device after a
/// full stop.
pub proof fn law_nothing_else_is_a_username(s: Seq<char>, bytes: Seq<u8>, device: nat)
    requires
        username_of(s) == Some((bytes, device)),
    ensures
        bytes.len() == 16,
        1 <= device <= 127,
        !s.contains('.') ==> device == 1 && same_but_for_case(s, aci_text(bytes)),
        s.contains('.') ==> s.len() > 36 && s[36] == '.' && same_but_for_case(
            s.take(36),
            aci_text(bytes),
        ) && text::decimal_of(s.skip(37), 127) == Some(device),
{
    s.index_of_last_ensures('.');
    if s.contains('.') {
        let i = s.index_of_last('.')->0;
        lemma_aci_is_its_text(s.take(i));
        assert(i == 36);
    } else {
        lemma_aci_is_its_text(s);
    }
}

} // verus!
