use stress_test::ident::{alias_from_reply, email_address, fresh_email, random_identifier};

#[test]
fn random_identifier_has_the_asked_length() {
    assert_eq!(random_identifier(0).len(), 0);
    assert_eq!(random_identifier(10).chars().count(), 10);
    assert_eq!(random_identifier(40).chars().count(), 40);
}

#[test]
fn random_identifier_draws_from_the_alphabet() {
    let s = random_identifier(200);
    for c in s.chars() {
        assert!(c.is_ascii_alphanumeric(), "unexpected character {:?}", c);
    }
}

#[test]
fn two_identifiers_differ() {
    // 62^20 values: a collision would point at a broken draw.
    assert_ne!(random_identifier(20), random_identifier(20));
}

#[test]
fn email_address_appends_the_domain() {
    assert_eq!(email_address("abc").as_str(), "abc@example.com");
    assert_eq!(email_address("").as_str(), "@example.com");
}

#[test]
fn fresh_email_shape() {
    let s = fresh_email();
    assert_eq!(s.chars().count(), 22);
    assert!(s.ends_with("@example.com"));
    for c in s.chars().take(10) {
        assert!(c.is_ascii_alphanumeric());
    }
}

#[test]
fn alias_is_the_last_segment() {
    assert_eq!(alias_from_reply("http://host/abc/xyz").as_str(), "xyz");
    assert_eq!(alias_from_reply("a/b").as_str(), "b");
    assert_eq!(alias_from_reply("noslash").as_str(), "noslash");
    assert_eq!(alias_from_reply("trailing/").as_str(), "");
    assert_eq!(alias_from_reply("").as_str(), "");
}
