use upstream_sync::upstream::ParseHashError;

#[test]
fn parse_rejects_empty() {
    let r = upstream_sync::upstream::Hash::parse("");
    assert!(matches!(r, Err(ParseHashError::TooShort(t)) if t.is_empty()));
}

#[test]
fn parse_rejects_four_chars() {
    let r = upstream_sync::upstream::Hash::parse("abcd");
    assert!(matches!(r, Err(ParseHashError::TooShort(t)) if t == "abcd"));
}

#[test]
fn parse_accepts_five_chars() {
    match upstream_sync::upstream::Hash::parse("abcde") {
        Ok(h) => assert_eq!(h.as_str(), "abcde"),
        Err(_) => panic!("five characters must be accepted"),
    }
}

#[test]
fn parse_accepts_full_digest() {
    let text = "ba7816bf8f01cfea414140de5dae2223b00361a396177a9cb410ff61f20015ad";
    match upstream_sync::upstream::Hash::parse(text) {
        Ok(h) => assert_eq!(h.as_str(), text),
        Err(_) => panic!("a full digest must be accepted"),
    }
}
