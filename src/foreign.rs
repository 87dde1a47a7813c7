//! What Verus cannot look inside: backtraces, foreign failures held without
//! their concrete type, and run-time type identity. Each item here is trusted;
//! its doc comment names the std facility it relies on.
use std::backtrace::Backtrace;
use std::any::Any;
use std::fmt::{Debug, Display};
use vstd::prelude::*;

verus! {

/// std's backtrace type, known to Verus only as an opaque value.
#[verifier::external_type_specification]
#[verifier::external_body]
pub struct ExBacktrace(Backtrace);

/// Relies on `Backtrace::capture`: a snapshot of the call stack, or a disabled
/// marker where backtraces are off. It always returns.
pub assume_specification[ Backtrace::capture ]() -> Backtrace;

/// A foreign failure, held without its concrete type.
///
/// The failure is kept as `dyn Any`, so that it can be recovered by type, next
/// to a printer made for its concrete type. Verus refuses `dyn` types with
/// several traits, so the holder stays opaque to it.
#[verifier::external_body]
#[derive(Debug)]
pub struct ForeignError {
    value: Box<dyn Any + Send + Sync>,
    describe: fn(&ForeignError) -> String,
}

impl ForeignError {
    /// Relies on `Box::new` and the unsizing coercion to `dyn Any`: stores
    /// `err` with the printer for its type.
    #[verifier::external_body]
    pub fn new<E: Display + Send + Sync + 'static>(err: E) -> (r: Self) {
        ForeignError { value: Box::new(err), describe: ForeignError::show::<E> }
    }

    /// Relies on `<dyn Any>::downcast_ref` and `ToString` of `E`: the text of
    /// the stored failure, which has type `E`.
    #[verifier::external_body]
    fn show<E: Display + 'static>(f: &ForeignError) -> (r: String) {
        match f.value.downcast_ref::<E>() {
            Some(e) => e.to_string(),
            None => String::new(),
        }
    }

    /// Relies on the `Display` impl of the stored failure: its text.
    #[verifier::external_body]
    pub fn describe(&self) -> (r: String) {
        (self.describe)(self)
    }

    /// Relies on `<dyn Any>::is`: whether the stored failure has type `E`.
    #[verifier::external_body]
    pub fn is<E: 'static>(&self) -> (r: bool) {
        self.value.is::<E>()
    }

    /// Relies on `Box<dyn Any>::downcast`: the stored failure if it has type
    /// `E`, else the holder unchanged.
    #[verifier::external_body]
    pub fn downcast<E: 'static>(self) -> (r: Result<E, Self>)
        ensures
            r matches Err(f) ==> f == self,
    {
        let describe = self.describe;
        match self.value.downcast::<E>() {
            Ok(e) => Ok(*e),
            Err(value) => Err(ForeignError { value, describe }),
        }
    }

    /// Relies on `<dyn Any>::downcast_ref`: the stored failure if it has type `E`.
    #[verifier::external_body]
    pub fn downcast_ref<E: 'static>(&self) -> (r: Option<&E>) {
        self.value.downcast_ref::<E>()
    }

    /// Relies on `<dyn Any>::downcast_mut`: the stored failure if it has type
    /// `E`; the holder is untouched when it does not.
    #[verifier::external_body]
    pub fn downcast_mut<E: 'static>(&mut self) -> (r: Option<&mut E>)
        ensures
            r is None ==> *final(self) == *old(self),
    {
        self.value.downcast_mut::<E>()
    }
}

impl From<&'static str> for ForeignError {
    /// A foreign failure whose text is `message`.
    fn from(message: &'static str) -> (r: Self) {
        ForeignError::new(message)
    }
}

impl vstd::std_specs::convert::FromSpecImpl<&'static str> for ForeignError {
    open spec fn obeys_from_spec() -> bool {
        false
    }

    closed spec fn from_spec(v: &'static str) -> Self {
        arbitrary()
    }
}

/// A context value of any type, held without its concrete type, to be
/// recovered by type later. Opaque to Verus for the same reason as
/// `ForeignError`.
#[verifier::external_body]
pub struct BoxedValue {
    value: Box<dyn Any + Send + Sync>,
    describe: fn(&BoxedValue) -> String,
}

impl BoxedValue {
    /// Relies on `Box::new` and the unsizing coercion to `dyn Any`: stores
    /// `value` with the `Debug` printer for its type.
    #[verifier::external_body]
    pub fn new<T: Debug + Send + Sync + 'static>(value: T) -> (r: Self) {
        BoxedValue { value: Box::new(value), describe: BoxedValue::show::<T> }
    }

    /// Relies on `<dyn Any>::downcast_ref` and the `Debug` impl of `T`: the
    /// debug text of the stored value, which has type `T`.
    #[verifier::external_body]
    fn show<T: Debug + 'static>(b: &BoxedValue) -> (r: String) {
        match b.value.downcast_ref::<T>() {
            Some(v) => format!("{:?}", v),
            None => String::new(),
        }
    }

    /// Relies on the `Debug` impl of the stored value: its debug text.
    #[verifier::external_body]
    pub fn debug_text(&self) -> (r: String) {
        (self.describe)(self)
    }

    /// Relies on `<dyn Any>::is`: whether the stored value has type `T`.
    #[verifier::external_body]
    pub fn is<T: 'static>(&self) -> (r: bool) {
        self.value.is::<T>()
    }

    /// Relies on `<dyn Any>::downcast_ref`: the stored value if it has type `T`.
    #[verifier::external_body]
    pub fn downcast_ref<T: 'static>(&self) -> (r: Option<&T>) {
        self.value.downcast_ref::<T>()
    }
}

impl View for BoxedValue {
    type V = BoxedValue;

    open spec fn view(&self) -> BoxedValue {
        *self
    }
}

/// A foreign failure type: a printable value that can cross threads, such as
/// any `std::error::Error + Send + Sync`.
pub trait ForeignFailure: Sized {
    /// Stores the failure opaquely.
    fn into_foreign(self) -> ForeignError;

    /// Whether `f` holds a failure of this type.
    fn held_in(f: &ForeignError) -> bool;

    /// The failure `f` holds, if it has this type; else `f` unchanged.
    fn take_from(f: ForeignError) -> (r: Result<Self, ForeignError>)
        ensures
            r matches Err(x) ==> x == f,
    ;

    /// A reference to the failure `f` holds, if it has this type.
    fn ref_in(f: &ForeignError) -> Option<&Self>;

    /// A mutable reference to the failure `f` holds, if it has this type.
    fn mut_in(f: &mut ForeignError) -> (r: Option<&mut Self>)
        ensures
            r is None ==> *final(f) == *old(f),
    ;
}

impl<E: Display + Send + Sync + 'static> ForeignFailure for E {
    fn into_foreign(self) -> ForeignError {
        ForeignError::new(self)
    }

    fn held_in(f: &ForeignError) -> bool {
        f.is::<E>()
    }

    fn take_from(f: ForeignError) -> (r: Result<Self, ForeignError>) {
        f.downcast::<E>()
    }

    fn ref_in(f: &ForeignError) -> Option<&Self> {
        f.downcast_ref::<E>()
    }

    fn mut_in(f: &mut ForeignError) -> (r: Option<&mut Self>) {
        f.downcast_mut::<E>()
    }
}

} // verus!
