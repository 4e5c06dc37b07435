use playpen::{json_outcome, Error};

fn syntax_error() -> serde_json::Error {
    serde_json::from_str::<serde_json::Value>("{").unwrap_err()
}

#[test]
fn json_error_displays_with_its_stage() {
    let error = Error::from(syntax_error());
    assert_eq!(error.to_string(), "JSON: EOF while parsing an object at line 1 column 1");
    assert_eq!(error.to_string(), format!("JSON: {}", syntax_error()));
}

#[test]
fn hyper_error_displays_with_its_stage() {
    let error = Error::from(hyper::Error::Method);
    assert_eq!(error.to_string(), "Hyper: Invalid Method specified");
    assert_eq!(error.to_string(), format!("Hyper: {}", hyper::Error::Method));
}

#[test]
fn description_is_the_underlying_description() {
    assert_eq!(Error::from(hyper::Error::Status).description(), "Invalid Status provided");
    assert_eq!(Error::from(hyper::Error::TooLarge).description(), "Message head is too large");
    assert_eq!(
        Error::from(syntax_error()).description(),
        "description() is deprecated; use Display"
    );
}

#[test]
#[allow(deprecated)]
fn description_is_that_of_the_wrapped_error() {
    let json = std::error::Error::description(&syntax_error()).to_string();
    assert_eq!(Error::from(syntax_error()).description(), json);
    let missing = || hyper::Error::Io(std::io::Error::from_raw_os_error(2));
    let transport = std::error::Error::description(&missing()).to_string();
    assert_eq!(Error::from(missing()).description(), transport);
    assert_ne!(Error::from(missing()).description(), missing().to_string());
}

#[test]
fn description_has_no_stage_and_differs_from_the_displayed_text() {
    let error = Error::from(syntax_error());
    assert!(!error.description().starts_with("JSON"));
    assert_ne!(error.to_string(), format!("JSON: {}", error.description()));
}

#[test]
fn from_keeps_the_stage() {
    assert!(matches!(Error::from(hyper::Error::Header), Error::Hyper(hyper::Error::Header)));
    assert!(matches!(Error::from(syntax_error()), Error::Json(_)));
}

#[test]
fn io_failure_of_the_transport_is_a_hyper_error() {
    let io = std::io::Error::new(std::io::ErrorKind::ConnectionRefused, "connection refused");
    let error = Error::from(hyper::Error::Io(io));
    assert_eq!(error.to_string(), "Hyper: connection refused");
}

#[test]
fn json_outcome_passes_success_through() {
    let outcome: Result<u8, serde_json::Error> = Ok(7);
    assert!(matches!(json_outcome(outcome), Ok(7)));
}

#[test]
fn json_outcome_lifts_a_failure() {
    let outcome: Result<u8, serde_json::Error> = Err(syntax_error());
    match json_outcome(outcome) {
        Err(Error::Json(e)) => assert!(e.is_eof()),
        _ => panic!("expected a JSON error"),
    }
}

#[test]
fn error_is_debug() {
    assert!(format!("{:?}", Error::from(hyper::Error::Method)).starts_with("Hyper("));
}

#[test]
fn labelled_puts_colon_and_space_between() {
    assert_eq!(playpen::labelled("JSON", "expected value"), "JSON: expected value");
    assert_eq!(playpen::labelled("Hyper", ""), "Hyper: ");
}
