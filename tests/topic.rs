use zat::{validate, ValidationError};

#[test]
fn well_formed_topics_validate() {
    for raw in ["demo/example", "zenoh/cat", "a/*/b", "a/**", "**", "a/b/c", "x$*y"] {
        let t = validate(raw).unwrap();
        assert_eq!(t.as_str(), raw);
    }
}

#[test]
fn empty_topic_is_refused() {
    let e: ValidationError = validate("").unwrap_err();
    assert_eq!(e.input, "");
    assert!(!e.reason.is_empty());
}

#[test]
fn malformed_topics_are_refused() {
    for raw in ["a/", "/a", "a//b", "a*b/c", "a/**/**", "a?b", "a#b"] {
        let e = validate(raw).unwrap_err();
        assert_eq!(e.input, raw);
    }
}

