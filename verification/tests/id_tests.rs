use signals::id::{is_canonical_text, is_hex_digit_char, Id};
use signals::text::{chars_of, is_text, matches_at};
use uuid::Uuid;

#[test]
fn parse_gives_the_number_of_the_digits() {
    let id = Id::parse("a1a2a3a4-b1b2-c1c2-d1d2-d3d4d5d6d7d8").unwrap();
    assert_eq!(id.value, 0xa1a2a3a4b1b2c1c2d1d2d3d4d5d6d7d8u128);
    assert_eq!(Id::parse("00000000-0000-0000-0000-000000000000"), Some(Id::new(0)));
    assert_eq!(
        Id::parse("ffffffff-ffff-ffff-ffff-ffffffffffff"),
        Some(Id::new(u128::MAX))
    );
    assert_eq!(Id::parse("00000000-0000-0000-0000-000000000010"), Some(Id::new(16)));
}

#[test]
fn parse_agrees_with_the_uuid_parser() {
    let text = "e19c94cf-53eb-4048-9c94-7ae74ff6d912";
    let id = Id::parse(text).unwrap();
    assert_eq!(id.value, Uuid::parse_str(text).unwrap().as_u128());
}

#[test]
fn to_string_writes_the_canonical_text() {
    let id = Id::new(0xa1a2a3a4b1b2c1c2d1d2d3d4d5d6d7d8u128);
    assert_eq!(id.to_string(), "a1a2a3a4-b1b2-c1c2-d1d2-d3d4d5d6d7d8");
    assert_eq!(Id::new(0).to_string(), "00000000-0000-0000-0000-000000000000");
    assert_eq!(Id::new(255).to_string(), "00000000-0000-0000-0000-0000000000ff");
    assert_eq!(
        Id::new(u128::MAX).to_string(),
        "ffffffff-ffff-ffff-ffff-ffffffffffff"
    );
}

#[test]
fn text_and_number_round_trip() {
    for value in [0u128, 1, 15, 16, 0xdead_beef, u128::MAX / 3, u128::MAX] {
        let id = Id::new(value);
        assert_eq!(Id::parse(&id.to_string()), Some(id));
    }
    let text = "058df470-73ea-43a4-b36c-e4615cad468e";
    assert_eq!(Id::parse(text).unwrap().to_string(), text);
}

#[test]
fn parse_turns_down_other_forms() {
    assert_eq!(Id::parse(""), None);
    assert_eq!(Id::parse("e19c94cf-53eb-4048-9c94-7ae74ff6d91"), None);
    assert_eq!(Id::parse("e19c94cf-53eb-4048-9c94-7ae74ff6d9122"), None);
    assert_eq!(Id::parse("E19C94CF-53EB-4048-9C94-7AE74FF6D912"), None);
    assert_eq!(Id::parse("e19c94cf53eb40489c947ae74ff6d912"), None);
    assert_eq!(Id::parse("e19c94cf53eb-4048-9c94-7ae74ff6d912-"), None);
    assert_eq!(Id::parse("{e19c94cf-53eb-4048-9c94-7ae74ff6d912}"), None);
    assert_eq!(Id::parse("urn:uuid:e19c94cf-53eb-4048-9c94-7ae74ff6d912"), None);
    assert_eq!(Id::parse("e19c94cf-53eb-4048-9c94-7ae74ff6d91z"), None);
    assert_eq!(Id::parse("e19c94cf-53eb-4048-9c94-7ae74ff6d91\u{e9}"), None);
}

#[test]
fn hex_digits() {
    for c in "0123456789abcdef".chars() {
        assert!(is_hex_digit_char(c));
    }
    for c in "ABCDEFg/-: `@G".chars() {
        assert!(!is_hex_digit_char(c));
    }
}

#[test]
fn canonical_text() {
    let good: Vec<char> = "e19c94cf-53eb-4048-9c94-7ae74ff6d912".chars().collect();
    assert!(is_canonical_text(&good));
    let short: Vec<char> = "e19c94cf-53eb-4048-9c94-7ae74ff6d91".chars().collect();
    assert!(!is_canonical_text(&short));
    let moved: Vec<char> = "e19c94c-f53eb-4048-9c94-7ae74ff6d912".chars().collect();
    assert!(!is_canonical_text(&moved));
    let hyphens: Vec<char> = "------------------------------------".chars().collect();
    assert!(!is_canonical_text(&hyphens));
}

#[test]
fn text_helpers() {
    let chars = chars_of("agents/abc/in");
    assert_eq!(chars.len(), 13);
    assert_eq!(chars[6], '/');
    assert!(matches_at(&chars, 0, "agents/"));
    assert!(matches_at(&chars, 7, "abc"));
    assert!(matches_at(&chars, 13, ""));
    assert!(!matches_at(&chars, 14, ""));
    assert!(!matches_at(&chars, 11, "inn"));
    assert!(!matches_at(&chars, 1, "agents/"));
    assert!(is_text(&chars, "agents/abc/in"));
    assert!(!is_text(&chars, "agents/abc/i"));
    assert!(!is_text(&chars, "agents/abc/in/"));
    assert_eq!(chars_of("h\u{e9}"), vec!['h', '\u{e9}']);
}
