use anyerr::context::LiteralKeyStringMapContext;
use anyerr::kind::DefaultErrorKind;
use anyerr::{AnyError, ContextDepth, Intermediate, Overlay};

type ErrKind = DefaultErrorKind;
type DefaultAnyError = AnyError<LiteralKeyStringMapContext, ErrKind>;

#[test]
fn result_overlay_succeeds_when_message_is_given() {
    let source = Err::<(), _>(DefaultAnyError::minimal("source error"));
    let res = source.overlay(String::from("wrapper error")).build();
    let err = res.unwrap_err();
    assert_eq!(err.to_string(), "wrapper error");
    assert_eq!(err.source().unwrap().to_string(), "source error");

    let source = Err::<(), _>(DefaultAnyError::minimal("source error"));
    let res = source.overlay("wrapper error").build();
    let err = res.unwrap_err();
    assert_eq!(err.to_string(), "wrapper error");
    assert_eq!(err.source().unwrap().to_string(), "source error");
}

#[test]
fn result_overlay_succeeds_when_message_and_kind_are_given() {
    let source = Err::<(), _>(DefaultAnyError::minimal("source error"));
    let res = source
        .overlay(("wrapper error", ErrKind::ValueValidation))
        .build();
    let err = res.unwrap_err();
    assert_eq!(err.to_string(), "wrapper error");
    assert_eq!(err.kind(), ErrKind::ValueValidation);
    assert_eq!(err.source().unwrap().to_string(), "source error");
}

#[test]
fn result_overlay_succeeds_when_result_is_ok() {
    let source = Ok::<i32, DefaultAnyError>(1);
    let res = source.overlay("no error").build();
    assert_eq!(res.unwrap(), 1);
}

#[test]
fn intermediate_result_context_succeeds() {
    let source = Err::<(), _>(DefaultAnyError::minimal("source error"));
    let res = source
        .overlay(String::from("wrapper error"))
        .context("i32", 1)
        .context("&str", "value")
        .build();
    let err = res.unwrap_err();
    assert_eq!(err.to_string(), "wrapper error");
    assert_eq!(err.get("i32"), Some("1"));
    assert_eq!(err.get("&str"), Some("\"value\""));
}

#[test]
fn any_error_overlay_succeeds_when_message_is_given() {
    let source = DefaultAnyError::minimal("source error");
    let err = source.overlay(String::from("wrapper error")).build();
    assert_eq!(err.to_string(), "wrapper error");
    assert_eq!(err.source().unwrap().to_string(), "source error");

    let source = DefaultAnyError::minimal("source error");
    let err = source.overlay("wrapper error").build();
    assert_eq!(err.to_string(), "wrapper error");
    assert_eq!(err.source().unwrap().to_string(), "source error");
}

#[test]
fn any_error_overlay_succeeds_when_message_and_kind_are_given() {
    let source = DefaultAnyError::minimal("source error");
    let err = source
        .overlay(("wrapper error", ErrKind::ValueValidation))
        .build();
    assert_eq!(err.to_string(), "wrapper error");
    assert_eq!(err.kind(), ErrKind::ValueValidation);
    assert_eq!(err.source().unwrap().to_string(), "source error");
}

#[test]
fn intermediate_any_error_context_succeeds() {
    let source = DefaultAnyError::minimal("source error");
    let err = source
        .overlay("wrapper error")
        .context("key", "value")
        .build();
    assert_eq!(err.to_string(), "wrapper error");
    assert_eq!(err.get("key"), Some("\"value\""));
}

fn source_error_func() -> Result<(), DefaultAnyError> {
    Err(AnyError::minimal("source error"))
}

fn wrapper_error_func() -> Result<(), DefaultAnyError> {
    source_error_func().map_err(|err| err.overlay("wrapper error"))?;
    Ok(())
}

#[test]
fn intermediate_any_error_into_any_error_succeeds_with_try_operator() {
    let err = wrapper_error_func().unwrap_err();
    assert_eq!(err.to_string(), "wrapper error");
}

#[test]
fn overlay_chain_context_order_and_depth() {
    let l0 = DefaultAnyError::minimal("a");
    let l1 = l0.overlay("b").context("k1", "v1").build();
    let l2 = l1.overlay("c").context("k2", "v2").build();
    let all: Vec<String> = l2
        .context(ContextDepth::All)
        .to_vec()
        .into_iter()
        .map(|e| e.to_string())
        .collect();
    assert_eq!(all, vec!["k2 = \"v2\"", "k1 = \"v1\""]);
    let shallow: Vec<String> = l2
        .context(ContextDepth::Shallowest)
        .to_vec()
        .into_iter()
        .map(|e| e.to_string())
        .collect();
    assert_eq!(shallow, vec!["k2 = \"v2\""]);
}

#[test]
fn overlay_chain_shares_the_leaf_backtrace() {
    let l0 = DefaultAnyError::minimal("a");
    let l0_text = l0.backtrace().to_string();
    let l1 = l0.overlay("b").context("k1", "v1").build();
    let l1_text = l1.backtrace().to_string();
    let l2 = l1.overlay("c").context("k2", "v2").build();
    assert_eq!(l2.backtrace().to_string(), l1_text);
    assert_eq!(l1_text, l0_text);
}

#[test]
fn overlay_keeps_kind_default_unless_given() {
    let err = DefaultAnyError::quick("inner", ErrKind::EntityAbsence)
        .overlay("outer")
        .build();
    assert_eq!(err.kind(), ErrKind::Unknown);
    assert_eq!(err.source().unwrap().kind(), ErrKind::EntityAbsence);
}

#[test]
fn chain_walked_by_downcast_shares_the_leaf_backtrace() {
    let l0 = DefaultAnyError::minimal("a");
    let l1 = l0.overlay("b").context("k1", "v1").build();
    let l2 = l1.overlay("c").context("k2", "v2").build();
    let l1 = l2.source().unwrap().downcast_ref::<DefaultAnyError>().unwrap();
    let l0 = l1.source().unwrap().downcast_ref::<DefaultAnyError>().unwrap();
    assert_eq!(l0.message(), "a");
    assert!(std::ptr::eq(l2.backtrace(), l1.backtrace()));
    assert!(std::ptr::eq(l1.backtrace(), l0.backtrace()));
}
