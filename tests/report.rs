use anyerr::context::{LiteralKeyStringMapContext, StringKeyAnyMapContext, StringKeyStringMapContext};
use anyerr::kind::NoErrorKind;
use anyerr::kind::DefaultErrorKind as ErrKind;
use anyerr::{AnyError, Intermediate, Overlay, Report, ReportInner};

type TestError = AnyError<StringKeyStringMapContext, ErrKind>;

fn new_test_error() -> TestError {
    let error1 = TestError::quick("error1", ErrKind::ValueValidation);
    let error2 = error1
        .overlay(("error2", ErrKind::RuleViolation))
        .context("key2.1", "value")
        .build();
    let error3 = error2
        .overlay("error3")
        .context("key3.1", "value")
        .context("key3.2", "value")
        .build();
    error3
}

#[test]
fn report_inner_display_succeeds_when_pretty_is_true() {
    let report = ReportInner::from(new_test_error())
        .pretty(true)
        .kind(true)
        .backtrace(false)
        .context(true);
    let mut expected = String::new();
    expected.push_str("Error:\n");
    expected.push_str("    (Unknown) error3\n");
    expected.push_str("    [key3.1 = \"value\", key3.2 = \"value\"]\n");
    expected.push_str("Caused by:\n");
    expected.push_str("    (RuleViolation) error2\n");
    expected.push_str("    [key2.1 = \"value\"]\n");
    expected.push_str("Caused by:\n");
    expected.push_str("    (ValueValidation) error1\n");
    assert_eq!(report.to_string(), expected);

    let report = ReportInner::from(new_test_error())
        .pretty(true)
        .kind(false)
        .backtrace(false)
        .context(true);
    let mut expected = String::new();
    expected.push_str("Error:\n");
    expected.push_str("    error3\n");
    expected.push_str("    [key3.1 = \"value\", key3.2 = \"value\"]\n");
    expected.push_str("Caused by:\n");
    expected.push_str("    error2\n");
    expected.push_str("    [key2.1 = \"value\"]\n");
    expected.push_str("Caused by:\n");
    expected.push_str("    error1\n");
    assert_eq!(report.to_string(), expected);

    let report = ReportInner::from(new_test_error())
        .pretty(true)
        .kind(true)
        .backtrace(false)
        .context(false);
    let mut expected = String::new();
    expected.push_str("Error:\n");
    expected.push_str("    (Unknown) error3\n");
    expected.push_str("Caused by:\n");
    expected.push_str("    (RuleViolation) error2\n");
    expected.push_str("Caused by:\n");
    expected.push_str("    (ValueValidation) error1\n");
    assert_eq!(report.to_string(), expected);
}

#[test]
fn report_inner_display_succeeds_when_pretty_is_false() {
    let report = ReportInner::from(new_test_error()).pretty(false);
    assert_eq!(report.to_string(), "(Unknown) error3: (RuleViolation) error2: (ValueValidation) error1 [key3.1 = \"value\", key3.2 = \"value\", key2.1 = \"value\"]");

    let report = ReportInner::from(new_test_error())
        .pretty(false)
        .kind(false);
    assert_eq!(
        report.to_string(),
        "error3: error2: error1 [key3.1 = \"value\", key3.2 = \"value\", key2.1 = \"value\"]"
    );

    let report = ReportInner::from(new_test_error())
        .pretty(false)
        .context(false);
    assert_eq!(
        report.to_string(),
        "(Unknown) error3: (RuleViolation) error2: (ValueValidation) error1"
    );
}

type LiteralError = AnyError<LiteralKeyStringMapContext, ErrKind>;

fn chain_abc() -> LiteralError {
    let l0 = LiteralError::minimal("a");
    let l1 = l0.overlay("b").context("k1", "v1").build();
    l1.overlay("c").context("k2", "v2").build()
}

#[test]
fn compact_report_of_a_three_layer_chain() {
    let report = Report::wrap(chain_abc()).pretty(false).kind(false);
    assert_eq!(report.to_string(), "c: b: a [k2 = \"v2\", k1 = \"v1\"]");
    let report = Report::wrap(chain_abc()).pretty(false);
    assert_eq!(
        report.to_string(),
        "(Unknown) c: (Unknown) b: (Unknown) a [k2 = \"v2\", k1 = \"v1\"]"
    );
}

#[test]
fn pretty_report_of_a_three_layer_chain() {
    let report = Report::wrap(chain_abc()).kind(false).backtrace(false);
    assert_eq!(
        report.to_string(),
        "Error:\n    c\n    [k2 = \"v2\"]\nCaused by:\n    b\n    [k1 = \"v1\"]\nCaused by:\n    a\n"
    );
}

#[test]
fn pretty_report_ends_with_the_backtrace() {
    let err = chain_abc();
    let bt = err.backtrace().to_string();
    let report = Report::wrap(err).kind(false).context(false);
    let expected = format!(
        "Error:\n    c\nCaused by:\n    b\nCaused by:\n    a\n\nStack backtrace:\n{bt}\n"
    );
    assert_eq!(report.to_string(), expected);
}

#[test]
fn report_capture_success_and_failure() {
    let ok = Report::capture(|| -> Result<(), LiteralError> { Ok(()) });
    assert!(ok.is_success());
    assert_eq!(ok.pretty(false).to_string(), "");
    let failed = Report::capture(|| -> Result<(), LiteralError> {
        Err(LiteralError::minimal("an error occurred"))
    })
    .pretty(false);
    assert!(!failed.is_success());
    assert_eq!(failed.to_string(), "(Unknown) an error occurred");
}

#[test]
fn report_stops_at_a_foreign_failure() {
    let inner = "x".parse::<i32>().unwrap_err();
    let err = LiteralError::wrap(inner.clone()).overlay("parsing failed").build();
    let report = Report::from(err).pretty(false);
    assert_eq!(
        report.to_string(),
        format!("(Unknown) parsing failed: (Raw) {inner}")
    );
}

#[test]
fn compact_report_over_typed_context() {
    let err = AnyError::<StringKeyAnyMapContext, NoErrorKind>::builder()
        .message("an unknown error occurred")
        .context("error-code", 42u32)
        .context("function", "fails()")
        .build();
    let report = Report::wrap(err).pretty(false);
    assert_eq!(
        report.to_string(),
        "(Anything) an unknown error occurred [error-code = 42, function = \"fails()\"]"
    );
}
