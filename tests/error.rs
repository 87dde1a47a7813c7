use std::backtrace::Backtrace;
use std::fmt::{Display, Formatter, Result as FmtResult};
use std::num::ParseIntError;

use anyerr::context::map::LiteralKeyStringMapEntry;
use anyerr::context::{Entry, LiteralKeyStringMapContext, StringKeyStringMapContext};
use anyerr::context::StringSingletonContext;
use anyerr::kind::{DefaultErrorKind, Kind, NoErrorKind};
use anyerr::{AnyError, ContextDepth, ErrorData, ErrorDataBuilder};

type DefaultAnyError = AnyError<StringKeyStringMapContext, DefaultErrorKind>;
type DefaultErrorData = ErrorData<StringKeyStringMapContext, DefaultErrorKind>;
type LiteralAnyError = AnyError<LiteralKeyStringMapContext, DefaultErrorKind>;
type LiteralErrorData = ErrorData<LiteralKeyStringMapContext, DefaultErrorKind>;
type LiteralErrorDataBuilder = ErrorDataBuilder<LiteralKeyStringMapContext, DefaultErrorKind>;

#[derive(Debug, PartialEq)]
struct Failure(&'static str);

impl Display for Failure {
    fn fmt(&self, f: &mut Formatter<'_>) -> FmtResult {
        f.write_str(self.0)
    }
}

impl std::error::Error for Failure {}

#[test]
fn any_error_builder_succeeds() {
    let inner = "-1".parse::<u32>().unwrap_err();
    let source = DefaultAnyError::wrap(inner);

    let err = DefaultAnyError::builder()
        .kind(DefaultErrorKind::ValueValidation)
        .message("could not parse `&str` to `u32`")
        .context("string", "-1")
        .context("target-type", String::from("u32"))
        .context("expected", -1)
        .source(source)
        .build();

    assert_eq!(err.kind(), DefaultErrorKind::ValueValidation);
    assert_eq!(err.to_string(), "could not parse `&str` to `u32`");
    assert_eq!(err.context(ContextDepth::All).count(), 3);
    assert!(err.source().is_some());
}

#[test]
fn core_any_error_wrap_succeeds() {
    {
        let inner = "".parse::<u32>().unwrap_err();
        let err = DefaultAnyError::wrap(inner.clone());
        assert_eq!(err.to_string(), inner.to_string());
    }
    {
        let inner = DefaultAnyError::minimal("error");
        let err = DefaultAnyError::wrap(inner);
        assert!(err.source().is_none());
    }
}

#[test]
fn core_any_error_downcast_succeeds() {
    {
        let mut err = DefaultAnyError::minimal("error");
        assert!(err.downcast_ref::<DefaultAnyError>().is_some());
        assert!(err.downcast_mut::<DefaultAnyError>().is_some());
        assert!(err.downcast::<DefaultAnyError>().is_ok());
    }
    {
        let source = DefaultAnyError::minimal("inner");
        let mut err = DefaultAnyError::from(DefaultErrorData::Layered {
            kind: DefaultErrorKind::Unknown,
            message: "error".into(),
            context: StringKeyStringMapContext::new(),
            source,
        });
        assert!(err.downcast_ref::<DefaultAnyError>().is_some());
        assert!(err.downcast_mut::<DefaultAnyError>().is_some());
        assert!(err.downcast::<DefaultAnyError>().is_ok());
    }
    {
        let inner = "".parse::<u32>().unwrap_err();
        let mut err = DefaultAnyError::wrap(inner);
        assert!(err.downcast_ref::<ParseIntError>().is_some());
        assert!(err.downcast_mut::<ParseIntError>().is_some());
        assert!(err.downcast::<ParseIntError>().is_ok());
    }
}

fn try_parse(val: &str) -> Result<u32, ParseIntError> {
    val.parse()
}

fn try_increment(val: &str) -> Result<u32, DefaultAnyError> {
    let val = try_parse(val).map_err(AnyError::wrap)?;
    Ok(val + 1)
}

#[test]
fn core_any_error_propagation_succeeds() {
    assert_eq!(try_increment("1").unwrap(), 2);
    assert!(try_increment("").is_err());
}

#[test]
fn data_error_data_message_succeeds() {
    {
        let data = LiteralErrorData::Simple {
            kind: DefaultErrorKind::Unknown,
            message: "simple".into(),
            backtrace: Backtrace::capture(),
            context: LiteralKeyStringMapContext::new(),
        };
        assert_eq!(data.message(), "simple");
        assert_eq!(data.to_string(), "simple");
    }
    {
        let data = LiteralErrorData::Layered {
            kind: DefaultErrorKind::Unknown,
            message: "layered".into(),
            context: LiteralKeyStringMapContext::new(),
            source: AnyError::from(LiteralErrorData::Simple {
                kind: DefaultErrorKind::Unknown,
                message: "simple".into(),
                backtrace: Backtrace::capture(),
                context: LiteralKeyStringMapContext::new(),
            }),
        };
        assert_eq!(data.message(), "layered");
        assert_eq!(data.to_string(), "layered");
    }
    {
        let data = LiteralErrorData::Wrapped {
            backtrace: Backtrace::capture(),
            inner: "wrapped".into(),
        };
        assert_eq!(data.message(), "wrapped");
        assert_eq!(data.to_string(), "wrapped");
    }
}

#[test]
fn data_error_data_context_succeeds() {
    {
        let data = LiteralErrorData::Simple {
            kind: DefaultErrorKind::Unknown,
            message: "simple".into(),
            backtrace: Backtrace::capture(),
            context: LiteralKeyStringMapContext::from(vec![("key", "1")]),
        };

        let mut iter = data.context(ContextDepth::All);
        assert_eq!(iter.next(), Some(&LiteralKeyStringMapEntry::new("key", "1")));
        assert_eq!(iter.next(), None);

        let mut iter = data.context(ContextDepth::Shallowest);
        assert_eq!(iter.next(), Some(&LiteralKeyStringMapEntry::new("key", "1")));
        assert_eq!(iter.next(), None);
    }
    {
        let data = LiteralErrorData::Layered {
            kind: DefaultErrorKind::Unknown,
            message: "layered".into(),
            context: LiteralKeyStringMapContext::from(vec![("key2", "2")]),
            source: AnyError::from(LiteralErrorData::Simple {
                kind: DefaultErrorKind::Unknown,
                message: "simple".into(),
                backtrace: Backtrace::capture(),
                context: LiteralKeyStringMapContext::from(vec![("key1", "1")]),
            }),
        };

        let mut iter = data.context(ContextDepth::All);
        assert_eq!(iter.next(), Some(&LiteralKeyStringMapEntry::new("key2", "2")));
        assert_eq!(iter.next(), Some(&LiteralKeyStringMapEntry::new("key1", "1")));
        assert_eq!(iter.next(), None);

        let mut iter = data.context(ContextDepth::Shallowest);
        assert_eq!(iter.next(), Some(&LiteralKeyStringMapEntry::new("key2", "2")));
        assert_eq!(iter.next(), None);
    }
    {
        let data = LiteralErrorData::Wrapped {
            backtrace: Backtrace::capture(),
            inner: "wrapped".into(),
        };

        let mut iter = data.context(ContextDepth::All);
        assert_eq!(iter.next(), None);

        let mut iter = data.context(ContextDepth::Shallowest);
        assert_eq!(iter.next(), None);
    }
}

#[test]
fn data_error_data_builder_build() {
    {
        let data = LiteralErrorDataBuilder::new()
            .kind(DefaultErrorKind::ValueValidation)
            .message("simple")
            .context("key", "1")
            .build(Backtrace::capture());
        assert!(matches!(data, ErrorData::Simple { .. }));
        assert_eq!(data.kind(), DefaultErrorKind::ValueValidation);
    }
    {
        let data = LiteralErrorDataBuilder::new()
            .message("layered")
            .context("key", "1")
            .source(AnyError::from(LiteralErrorData::Simple {
                kind: DefaultErrorKind::Unknown,
                message: "simple".into(),
                backtrace: Backtrace::capture(),
                context: LiteralKeyStringMapContext::from(vec![("key1", "1")]),
            }))
            .build(Backtrace::capture());
        assert_eq!(data.kind(), DefaultErrorKind::default());
        assert!(matches!(data, ErrorData::Layered { .. }));
    }
}

#[test]
fn any_error_from_string_succeeds() {
    let err = LiteralAnyError::from("error");
    assert_eq!(err.to_string(), "error");
}

#[test]
fn base_any_error_wrap_succeeds() {
    {
        let inner = "".parse::<u32>().unwrap_err();
        let err = LiteralAnyError::wrap(inner.clone());
        assert_eq!(err.to_string(), inner.to_string());
    }
    {
        let inner = LiteralAnyError::from("error");
        let err = LiteralAnyError::wrap(inner);
        assert!(err.source().is_none());
    }
}

#[test]
fn base_any_error_downcast_succeeds() {
    {
        let mut err = LiteralAnyError::from("error");
        assert!(err.downcast_ref::<LiteralAnyError>().is_some());
        assert!(err.downcast_mut::<LiteralAnyError>().is_some());
        assert!(err.downcast::<LiteralAnyError>().is_ok());
    }
    {
        let source = LiteralAnyError::from("inner");
        let mut err = LiteralAnyError::from(LiteralErrorData::Layered {
            kind: DefaultErrorKind::Unknown,
            message: "error".into(),
            context: LiteralKeyStringMapContext::new(),
            source,
        });
        assert!(err.downcast_ref::<LiteralAnyError>().is_some());
        assert!(err.downcast_mut::<LiteralAnyError>().is_some());
        assert!(err.downcast::<LiteralAnyError>().is_ok());
    }
    {
        let inner = "".parse::<u32>().unwrap_err();
        let mut err = LiteralAnyError::wrap(inner);
        assert!(err.downcast_ref::<ParseIntError>().is_some());
        assert!(err.downcast_mut::<ParseIntError>().is_some());
        assert!(err.downcast::<ParseIntError>().is_ok());
    }
}

fn try_increment_literal(val: &str) -> Result<u32, LiteralAnyError> {
    let val = try_parse(val).map_err(AnyError::wrap)?;
    Ok(val + 1)
}

#[test]
fn base_any_error_propagation_succeeds() {
    assert_eq!(try_increment_literal("1").unwrap(), 2);
    assert!(try_increment_literal("").is_err());
}

#[test]
fn minimal_keeps_message_and_default_kind() {
    let err = LiteralAnyError::minimal("an error occurred");
    assert_eq!(err.message(), "an error occurred");
    assert_eq!(err.kind(), DefaultErrorKind::Unknown);
    assert!(err.kind().is_unknown());
    let err = AnyError::<LiteralKeyStringMapContext, NoErrorKind>::minimal(String::new());
    assert_eq!(err.message(), "");
    assert_eq!(err.kind(), NoErrorKind::Anything);
}

#[test]
fn quick_keeps_message_and_kind() {
    let err = LiteralAnyError::quick("a positive number is expected", DefaultErrorKind::ValueValidation);
    assert_eq!(err.to_string(), "a positive number is expected");
    assert_eq!(err.kind(), DefaultErrorKind::ValueValidation);
}

#[test]
fn wrapped_foreign_failure_reports_raw_kind_and_no_context() {
    let err = LiteralAnyError::wrap(Failure("disk on fire"));
    assert_eq!(err.kind(), DefaultErrorKind::Raw);
    assert!(err.kind().is_raw());
    assert_eq!(err.message(), "disk on fire");
    assert_eq!(err.context(ContextDepth::All).count(), 0);
    assert!(err.source().is_none());
    assert_eq!(err.get("anything"), None);
}

#[test]
fn downcast_round_trip_of_a_foreign_failure() {
    let err = LiteralAnyError::wrap(Failure("boom"));
    assert!(err.is::<Failure>());
    assert!(!err.is::<LiteralAnyError>());
    assert_eq!(err.downcast::<Failure>().unwrap(), Failure("boom"));

    let err = LiteralAnyError::wrap(Failure("boom"));
    let back = err.downcast::<ParseIntError>().unwrap_err();
    assert_eq!(back.message(), "boom");
    assert_eq!(back.downcast_ref::<Failure>(), Some(&Failure("boom")));
}

#[test]
fn downcast_mut_reaches_the_foreign_failure() {
    let mut err = LiteralAnyError::wrap(Failure("before"));
    *err.downcast_mut::<Failure>().unwrap() = Failure("after");
    assert_eq!(err.message(), "after");
    assert!(err.downcast_mut::<ParseIntError>().is_none());
}

#[test]
fn leaf_and_layered_errors_are_the_error_type_itself() {
    let leaf = LiteralAnyError::minimal("leaf");
    assert!(leaf.is::<LiteralAnyError>());
    assert!(!leaf.is::<Failure>());
    assert!(leaf.downcast_ref::<Failure>().is_none());
    let layered = LiteralAnyError::builder().message("top").source(leaf).build();
    assert!(layered.is::<LiteralAnyError>());
    let err = layered.downcast::<Failure>().unwrap_err();
    assert_eq!(err.message(), "top");
}

#[test]
fn rewrapping_an_error_returns_it_unchanged() {
    let err = LiteralAnyError::builder()
        .message("outer")
        .kind(DefaultErrorKind::RuleViolation)
        .context("k", "v")
        .build();
    let again = LiteralAnyError::wrap(err);
    assert_eq!(again.message(), "outer");
    assert_eq!(again.kind(), DefaultErrorKind::RuleViolation);
    assert_eq!(again.get("k"), Some("\"v\""));
    assert!(again.is::<LiteralAnyError>());
}

#[test]
fn layered_backtrace_is_the_leaf_backtrace() {
    let leaf = LiteralAnyError::minimal("a");
    let leaf_text = leaf.backtrace().to_string();
    let layered = LiteralAnyError::builder().message("b").source(leaf).build();
    assert_eq!(layered.backtrace().to_string(), leaf_text);
    assert!(std::ptr::eq(
        layered.backtrace(),
        layered.source().unwrap().backtrace()
    ));
}

#[test]
fn singleton_context_error_value() {
    let err = AnyError::<StringSingletonContext, DefaultErrorKind>::builder()
        .message("err")
        .context((), "ctx")
        .build();
    assert_eq!(err.value().map(|v| v.as_str()), Some("ctx"));
}
