use anyerr::context::{AbstractContext, UnitContext};
use anyerr::kind::{DefaultErrorKind, Kind, NoErrorKind};
use anyerr::{AnyError, ContextDepth};

#[test]
fn default_kind_names() {
    assert_eq!(DefaultErrorKind::ValueValidation.name(), "ValueValidation");
    assert_eq!(DefaultErrorKind::InfrastructureFailure.name(), "InfrastructureFailure");
    assert_eq!(DefaultErrorKind::default_kind(), DefaultErrorKind::Unknown);
    assert_eq!(DefaultErrorKind::raw_kind(), DefaultErrorKind::Raw);
    assert!(!DefaultErrorKind::EntityAbsence.is_raw());
    assert!(!DefaultErrorKind::EntityAbsence.is_unknown());
}

#[test]
fn no_error_kind_is_every_sentinel() {
    let k = NoErrorKind::default_kind();
    assert_eq!(k.name(), "Anything");
    assert!(k.is_raw() && k.is_unknown());
    assert_eq!(NoErrorKind::raw_kind(), NoErrorKind::unknown_kind());
}

#[test]
fn unit_context_holds_nothing() {
    let ctx = UnitContext::empty();
    assert!(ctx.iter().is_empty());
    let inner = AnyError::<UnitContext, NoErrorKind>::minimal("plain");
    let err = AnyError::builder().message("outer").source(inner).build();
    assert_eq!(err.context(ContextDepth::All).count(), 0);
    assert_eq!(err.source().unwrap().message(), "plain");
}
