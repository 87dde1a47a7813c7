//! Strategies that turn a value into the value type a context stores.
use std::fmt::Debug;
use vstd::prelude::*;

use crate::foreign::BoxedValue;
use crate::text::IntoView;

verus! {

/// Selects how a value is transformed before it is stored.
pub trait Converter {}

/// Stores the `Debug` text of a value.
#[derive(Debug)]
pub struct DebugConverter;

impl Converter for DebugConverter {}

/// Stores a value through its `From` conversion.
#[derive(Debug)]
pub struct IntoConverter;

impl Converter for IntoConverter {}

/// Stores a value as a type-erased boxed value.
#[derive(Debug)]
pub struct BoxConverter;

impl Converter for BoxConverter {}

/// A value that converter `C` can turn into a `T`.
pub trait Convertable<C: Converter, T>: Sized {
    /// Holds when `r` is a result of converting `s`.
    spec fn spec_converts(s: Self, r: T) -> bool;

    /// Converts the value; the conversion cannot fail.
    fn to(self) -> (r: T)
        ensures
            Self::spec_converts(self, r),
    ;
}

/// Relies on the `Debug` formatting of std (`format!("{:?}")`): the text of a value.
#[verifier::external_body]
fn debug_text<S: Debug>(value: &S) -> String {
    format!("{:?}", value)
}

impl<S: Debug, T: From<String>> Convertable<DebugConverter, T> for S {
    open spec fn spec_converts(s: Self, r: T) -> bool {
        exists|text: String| call_ensures(T::from, (text,), r)
    }

    fn to(self) -> (r: T) {
        let text = debug_text(&self);
        let r = T::from(text);
        assert(call_ensures(T::from, (text,), r));
        r
    }
}

impl<T: View, S: IntoView<T>> Convertable<IntoConverter, T> for S {
    open spec fn spec_converts(s: Self, r: T) -> bool {
        r@ == s.target_view()
    }

    fn to(self) -> (r: T) {
        self.into_target()
    }
}

impl<S: Debug + Send + Sync + 'static> Convertable<BoxConverter, BoxedValue> for S {
    open spec fn spec_converts(s: Self, r: BoxedValue) -> bool {
        true
    }

    fn to(self) -> (r: BoxedValue) {
        BoxedValue::new(self)
    }
}

} // verus!
