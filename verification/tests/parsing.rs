use domain_strings::Error;
use domain_strings::Kind;
use domain_strings::Text;
use domain_strings::Username;

#[test]
fn empty_input_fails_for_username() {
    assert!(Username::from_str("").is_err());
}

#[test]
fn empty_input_succeeds_for_text() {
    let t = Text::from_str("").expect("empty text must parse");
    assert_eq!(t.to_text(), "");
}

#[test]
fn single_alphanumeric_char_is_sufficient() {
    let u = Username::from_str("a").expect("single letter must parse");
    assert_eq!(u.to_text(), "a");
}

#[test]
fn leading_underscore_fails() {
    assert!(Username::from_str("_a").is_err());
}

#[test]
fn trailing_underscore_succeeds() {
    let u = Username::from_str("a_").expect("trailing underscore must parse");
    assert_eq!(u.to_text(), "a_");
}

#[test]
fn no_normalization() {
    let u = Username::from_str("Ab1_2").expect("mixed-case handle must parse");
    assert_eq!(u.to_text(), "Ab1_2");
    assert_eq!(u.as_str(), "Ab1_2");
}

#[test]
fn failure_payload_carries_kind_and_input() {
    let r = Username::from_str(".bad");
    assert_eq!(
        r,
        Err(Error::FailedParsing(Kind::Username, ".bad".to_string()))
    );
}

#[test]
fn failure_accessors_report_kind_and_input() {
    let e = Username::from_str(".bad").unwrap_err();
    assert_eq!(e.kind(), Kind::Username);
    assert_eq!(e.input(), ".bad");
}

#[test]
fn embedded_forbidden_characters_fail() {
    assert!(Username::from_str("a b").is_err());
    assert!(Username::from_str("a.b").is_err());
    assert!(Username::from_str("a-b").is_err());
    assert!(Username::from_str("a!").is_err());
}

#[test]
fn non_ascii_fails_anywhere() {
    assert!(Username::from_str("h\u{e9}llo").is_err());
    assert!(Username::from_str("\u{e9}abc").is_err());
    assert!(Username::from_str("ab\u{6f22}").is_err());
}

#[test]
fn digits_may_lead_and_fill() {
    let u = Username::from_str("0user9").expect("digits are alphanumeric");
    assert_eq!(u.to_text(), "0user9");
}

#[test]
fn whole_input_must_match() {
    assert!(Username::from_str("good until here!").is_err());
}

#[test]
fn text_keeps_unicode_verbatim() {
    let raw = "caf\u{e9} \u{6f22}\u{5b57}\nsecond line";
    let t = Text::from_str(raw).expect("any unicode text must parse");
    assert_eq!(t.to_text(), raw);
    assert_eq!(t.as_str(), raw);
}

#[test]
fn equality_follows_the_buffer() {
    let a = Username::from_str("same_1").unwrap();
    let b = Username::from_str("same_1").unwrap();
    let c = Username::from_str("other_2").unwrap();
    assert_eq!(a, b);
    assert_ne!(a, c);

    let ta = Text::from_str("same").unwrap();
    let tb = Text::from_str("same").unwrap();
    let tc = Text::from_str("different").unwrap();
    assert_eq!(ta, tb);
    assert_ne!(ta, tc);
}
