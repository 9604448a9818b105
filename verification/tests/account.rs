//! Sign-in usernames, and the texts that they are made of.

use chat_bridge::account::Aci;
use chat_bridge::account::DeviceId;
use chat_bridge::connection::AuthenticatedChatConnection;
use chat_bridge::text::chars_of;
use chat_bridge::text::parse_decimal;
use chat_bridge::text::rsplit_once;
use chat_bridge::text::split_once;
use chat_bridge::text::trim;

const TEST_UUID: &str = "659aa5f4-a28d-fcc1-1ea1-b997537a3d95";

fn parsed(number: u8) -> Option<(Aci, DeviceId)> {
    let bytes = uuid::Uuid::parse_str(TEST_UUID).expect("valid").into_bytes();
    Some((Aci { bytes }, DeviceId::new(number).expect("valid")))
}

#[test]
fn test_parse_username() {
    let cases = [
        ("659aa5f4-a28d-fcc1-1ea1-b997537a3d95", parsed(1)),
        ("659aa5f4-a28d-fcc1-1ea1-b997537a3d95.1", parsed(1)),
        ("659aa5f4-a28d-fcc1-1ea1-b997537a3d95.123", parsed(123)),
        ("659AA5F4-A28D-FCC1-1EA1-B997537A3D95.124", parsed(124)),
        ("659aA5f4-A28d-FcC1-1eA1-b997537A3d95.125", parsed(125)),
        ("659aa5f4-a28d-fcc1-1ea1-b997537a3d9", None),
        ("659aa5f4-a28d-fcc1-1ea1-b997537a3d95.", None),
        ("659aa5f4-a28d-fcc1-1ea1-b997537a3d95.a", None),
        ("659aa5f4-a28d-fcc1-1ea1-b997537a3d95.0", None),
        ("659aa5f4-a28d-fcc1-1ea1-b997537a3d95.2.3", None),
        ("659aa5f4-a28d-fcc1-1ea1-b997537a3d95.128", None),
        ("659aa5f4-a28d-fcc1-1ea1-b997537a3d95.9999", None),
        (".123", None),
        ("a.123", None),
        ("a", None),
    ];
    for (input, expected) in cases {
        assert_eq!(
            AuthenticatedChatConnection::parse_username(input),
            expected,
            "{}",
            input
        );
    }
}

#[test]
fn device_numbers_are_read_as_numbers_are() {
    let with = |device: &str| {
        let username = format!("{}.{}", TEST_UUID, device);
        AuthenticatedChatConnection::parse_username(&username)
    };
    assert_eq!(with("+7"), parsed(7));
    assert_eq!(with("007"), parsed(7));
    assert_eq!(with("127"), parsed(127));
    for device in ["-1", "+", " 1", "1 ", "++1", "\u{661}", "18446744073709551617"] {
        assert_eq!(with(device), None, "{}", device);
    }
}

#[test]
fn usernames_are_read_back_as_they_are_written() {
    for seed in 0..200u8 {
        let bytes: [u8; 16] =
            std::array::from_fn(|i| seed.wrapping_mul(31).wrapping_add(i as u8 * 17));
        let text = uuid::Uuid::from_bytes(bytes).hyphenated().to_string();
        let number = seed % 127 + 1;
        let username = format!("{}.{}", text, number);
        let (aci, device) =
            AuthenticatedChatConnection::parse_username(&username).expect("a username");
        assert_eq!(aci.bytes, bytes);
        assert_eq!(device.get(), number);
        assert_eq!(
            AuthenticatedChatConnection::parse_username(&text.to_uppercase())
                .map(|(aci, device)| (aci.bytes, device.get())),
            Some((bytes, 1))
        );
    }
}

#[test]
fn only_the_hyphenated_form_is_an_identifier() {
    assert!(Aci::parse_from_service_id_string(TEST_UUID).is_some());
    for text in [
        "659aa5f4a28dfcc11ea1b997537a3d95",
        "{659aa5f4-a28d-fcc1-1ea1-b997537a3d95}",
        "urn:uuid:659aa5f4-a28d-fcc1-1ea1-b997537a3d95",
        "PNI:659aa5f4-a28d-fcc1-1ea1-b997537a3d95",
        "659aa5f4-a28d-fcc1-1ea1-b997537a3d9g",
        "659aa5f4-a28d-fcc1-1ea1b-997537a3d95",
        "",
    ] {
        assert_eq!(Aci::parse_from_service_id_string(text), None, "{}", text);
    }
}

#[test]
fn device_numbers_end_at_127() {
    for number in 0..=u8::MAX {
        let device = DeviceId::new(number);
        assert_eq!(device.is_some(), (1..=127).contains(&number));
        if let Some(device) = device {
            assert_eq!(device.get(), number);
        }
    }
}

#[test]
fn white_space_is_what_it_is_elsewhere() {
    for c in '\0'..=char::MAX {
        let text = format!("{}a{}", c, c);
        assert_eq!(trim(&text), text.trim(), "{:?}", c);
    }
    assert_eq!(trim(" \t\n"), "");
    assert_eq!(trim(""), "");
    assert_eq!(trim("a b"), "a b");
}

#[test]
fn texts_are_split_at_the_first_or_the_last_character() {
    for text in ["a:b:c", ":", "", "abc", "::", "\u{e9}:\u{1f600}"] {
        assert_eq!(split_once(text, ':'), text.split_once(':'));
        assert_eq!(rsplit_once(text, ':'), text.rsplit_once(':'));
        assert_eq!(chars_of(text), text.chars().collect::<Vec<char>>());
    }
}

#[test]
fn numbers_are_read_as_elsewhere() {
    for text in [
        "0",
        "7",
        "+7",
        "-7",
        "",
        "+",
        "-",
        "00000000000000000000000000000000000000012",
        "18446744073709551615",
        "18446744073709551616",
        "1_000",
        " 1",
        "1\n",
        "0x10",
        "\u{ff11}",
    ] {
        assert_eq!(parse_decimal(text, u64::MAX), text.parse::<u64>().ok(), "{:?}", text);
        assert_eq!(
            parse_decimal(text, 255),
            text.parse::<u8>().ok().map(u64::from),
            "{:?}",
            text
        );
    }
}
