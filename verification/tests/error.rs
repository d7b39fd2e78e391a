use dijavu::Error;

#[derive(Debug)]
struct Failure;

impl std::fmt::Display for Failure {
    fn fmt(&self, f: &mut std::fmt::Formatter<'_>) -> std::fmt::Result {
        f.write_str("it failed")
    }
}

impl std::error::Error for Failure {}

#[test]
fn msg_displays_message() {
    let err = Error::msg("value not present");
    assert_eq!(err.to_string(), "value not present");
    assert_eq!(err.chain(), vec!["value not present".to_owned()]);
}

#[test]
fn with_context_displays_outermost() {
    let err = Error::msg("value not present")
        .with_context("injecting field `thing` of `Struct` failed");
    assert_eq!(err.to_string(), "injecting field `thing` of `Struct` failed");
    let err = err.with_context("outer");
    assert_eq!(
        err.chain(),
        vec![
            "outer".to_owned(),
            "injecting field `thing` of `Struct` failed".to_owned(),
            "value not present".to_owned()
        ]
    );
}

#[test]
fn new_takes_display_of_error() {
    let err = Error::new(Failure);
    assert_eq!(err.to_string(), "it failed");
    assert_eq!(err.chain().len(), 1);
}
