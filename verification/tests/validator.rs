use greeter::{GreetError, HelloParams, MISSING_NAME};

fn named(name: &str) -> HelloParams {
    HelloParams { name: Some(name.to_string()) }
}

#[test]
fn a_name_is_handed_back_unchanged() {
    for name in ["World", "a", "Ada Lovelace", "東京", "\"quoted\"", "<b>&amp;</b>", "tab\there", "\n"] {
        assert_eq!(named(name).validate(), Ok(name.to_string()));
    }
}

#[test]
fn a_long_name_is_handed_back_unchanged() {
    let name = "x".repeat(10_000);
    assert_eq!(named(&name).validate(), Ok(name));
}

#[test]
fn an_absent_name_is_missing() {
    assert_eq!(HelloParams { name: None }.validate(), Err(GreetError::MissingParameter));
}

#[test]
fn an_empty_name_is_missing() {
    assert_eq!(named("").validate(), Err(GreetError::MissingParameter));
}

#[test]
fn blanks_are_a_name() {
    assert_eq!(named("  ").validate(), Ok("  ".to_string()));
    assert_eq!(named(" ").validate(), Ok(" ".to_string()));
}

#[test]
fn a_name_is_not_trimmed() {
    assert_eq!(named(" World ").validate(), Ok(" World ".to_string()));
}

#[test]
fn the_error_says_what_is_missing() {
    assert_eq!(GreetError::MissingParameter.message(), "Missing 'name' parameter");
    assert_eq!(MISSING_NAME, "Missing 'name' parameter");
}
