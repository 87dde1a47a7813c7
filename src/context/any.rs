//! The type-erased list store: text keys, values of any type, recovered by
//! type on lookup.
use std::marker::PhantomData;
use vstd::prelude::*;

use crate::context::{first_match, AbstractContext, Context, Entry, Render};
use crate::context::map::MapContext;
use crate::converter::BoxConverter;
use crate::foreign::BoxedValue;
use crate::text::{str_eq, IntoView, Text};

verus! {

/// An entry with a text key of type `K` and a value of any type. The value's
/// debug text is taken when the entry is made; the value never changes after.
pub struct AnyMapEntry<K, KB: ?Sized> {
    key: K,
    value: BoxedValue,
    text: String,
    _phantom: PhantomData<Box<KB>>,
}

impl<K: Text, KB: ?Sized> AnyMapEntry<K, KB> {
    /// The entry's key as text.
    pub closed spec fn key_text(&self) -> Seq<char> {
        self.key@
    }

    /// The entry's value.
    pub closed spec fn boxed(&self) -> BoxedValue {
        self.value
    }

    /// The debug text of the entry's value.
    pub closed spec fn value_text(&self) -> Seq<char> {
        self.text@
    }

    /// Returns `key = ` followed by the debug text of the value.
    pub fn to_string(&self) -> (r: String)
        ensures
            r@ == self.spec_render(),
    {
        self.render()
    }
}

impl<K: Text, KB: ?Sized> Render for AnyMapEntry<K, KB> {
    open spec fn spec_render(&self) -> Seq<char> {
        self.key_text() + " = "@ + self.value_text()
    }

    fn render(&self) -> (r: String) {
        let mut out = String::from_str(self.key.as_text());
        out.append(" = ");
        out.append(self.text.as_str());
        out
    }
}

impl<K: Text, KB: ?Sized> Entry for AnyMapEntry<K, KB> {
    type Key = K;

    type KeyBorrowed = str;

    type Value = BoxedValue;

    type ValueBorrowed = BoxedValue;

    open spec fn spec_owned_key(&self) -> Seq<char> {
        self.key_text()
    }

    open spec fn spec_owned_value(&self) -> BoxedValue {
        self.boxed()
    }

    open spec fn spec_key(&self) -> Seq<char> {
        self.key_text()
    }

    open spec fn spec_value(&self) -> BoxedValue {
        self.boxed()
    }

    open spec fn spec_matches(&self, key: Seq<char>) -> bool {
        self.key_text() == key
    }

    fn new<Q: IntoView<K>, R: IntoView<BoxedValue>>(key: Q, value: R) -> (r: Self) {
        let value = value.into_target();
        let text = value.debug_text();
        AnyMapEntry { key: key.into_target(), value, text, _phantom: PhantomData }
    }

    fn key(&self) -> (r: &str) {
        self.key.as_text()
    }

    fn value(&self) -> (r: &BoxedValue) {
        &self.value
    }

    fn matches(&self, key: &str) -> (r: bool) {
        str_eq(self.key.as_text(), key)
    }
}

/// A store whose values have any type and are read back by type.
pub trait AnyContext: Context {
    /// Holds when a lookup by `key` finds an entry.
    spec fn spec_has_key(&self, key: Seq<char>) -> bool;

    /// Returns the value of the first entry under `key`, if it has type `T`.
    fn value_as<T: 'static, Q: ?Sized + Text>(&self, key: &Q) -> (r: Option<&T>)
        ensures
            r is Some ==> self.spec_has_key(key@),
    ;
}

impl<K: Text, KB: ?Sized> AnyContext for MapContext<AnyMapEntry<K, KB>, BoxConverter> {
    open spec fn spec_has_key(&self, key: Seq<char>) -> bool {
        first_match(self.spec_entries(), key) is Some
    }

    fn value_as<T: 'static, Q: ?Sized + Text>(&self, key: &Q) -> (r: Option<&T>) {
        match self.get(key.as_text()) {
            Some(v) => v.downcast_ref::<T>(),
            None => None,
        }
    }
}

/// A type-erased list keyed by `K`.
pub type AnyMapContext<K, KB> = MapContext<AnyMapEntry<K, KB>, BoxConverter>;

/// A type-erased list keyed by `String`.
pub type StringKeyAnyMapContext = AnyMapContext<String, str>;

/// A type-erased list keyed by string literals.
pub type LiteralKeyAnyMapContext = AnyMapContext<&'static str, str>;

} // verus!
