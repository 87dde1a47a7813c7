//! The singleton store: at most one entry, replaced by each insertion.
use std::marker::PhantomData;
use vstd::prelude::*;

use crate::context::{AbstractContext, CommonIter, Context, Entry, SingletonContext, StringContext};
use crate::converter::IntoConverter;
use crate::text::IntoView;

verus! {

/// The key of an `OptionEntry`; it carries no information, and `()` converts into it.
#[derive(Debug, Clone, Copy, PartialEq, Eq, Hash, Default)]
pub struct OptionKey;

impl From<()> for OptionKey {
    fn from(value: ()) -> (r: Self) {
        OptionKey
    }
}

impl View for OptionKey {
    type V = ();

    open spec fn view(&self) -> () {
        ()
    }
}

impl IntoView<OptionKey> for () {
    open spec fn target_view(&self) -> () {
        ()
    }

    fn into_target(self) -> (r: OptionKey) {
        OptionKey
    }
}

impl vstd::std_specs::convert::FromSpecImpl<()> for OptionKey {
    open spec fn obeys_from_spec() -> bool {
        true
    }

    open spec fn from_spec(v: ()) -> Self {
        OptionKey
    }
}

/// The entry of a singleton store: a value of type `V`, read without a key.
#[derive(Debug, PartialEq, Eq, Hash)]
pub struct OptionEntry<V, VB: ?Sized> {
    value: V,
    _phantom: PhantomData<Box<VB>>,
}

impl<V: View, VB: ?Sized> OptionEntry<V, VB> {
    /// The view of the entry's value.
    pub closed spec fn value_view(&self) -> V::V {
        self.value@
    }
}

impl<V: View, VB: ?Sized> Entry for OptionEntry<V, VB> {
    type Key = OptionKey;

    type KeyBorrowed = ();

    type Value = V;

    type ValueBorrowed = V;

    open spec fn spec_owned_key(&self) -> () {
        ()
    }

    open spec fn spec_owned_value(&self) -> V::V {
        self.value_view()
    }

    open spec fn spec_key(&self) -> () {
        ()
    }

    open spec fn spec_value(&self) -> V::V {
        self.value_view()
    }

    open spec fn spec_matches(&self, key: ()) -> bool {
        true
    }

    fn new<Q: IntoView<OptionKey>, R: IntoView<V>>(key: Q, value: R) -> (r: Self) {
        let v = value.into_target();
        let r = OptionEntry { value: v, _phantom: PhantomData };
        assert(r.spec_owned_value() == r.value@);
        r
    }

    fn key(&self) -> (r: &()) {
        &()
    }

    fn value(&self) -> (r: &V) {
        &self.value
    }

    fn matches(&self, key: &()) -> (r: bool) {
        true
    }
}

/// A store holding at most one entry.
#[derive(Debug)]
pub struct OptionContext<E> {
    entry: Option<E>,
}

impl<V: View, VB: ?Sized> OptionContext<OptionEntry<V, VB>> {
    /// Returns an empty store.
    pub fn new() -> (r: Self)
        ensures
            r.spec_entries() == Seq::<OptionEntry<V, VB>>::empty(),
    {
        OptionContext { entry: None }
    }

    /// Returns a store holding `entry`.
    pub fn from_entry(entry: OptionEntry<V, VB>) -> (r: Self)
        ensures
            r.spec_entries() == seq![entry],
    {
        OptionContext { entry: Some(entry) }
    }
}

impl<V: View, VB: ?Sized> Default for OptionContext<OptionEntry<V, VB>> {
    fn default() -> (r: Self)
        ensures
            r.spec_entries() == Seq::<OptionEntry<V, VB>>::empty(),
    {
        OptionContext { entry: None }
    }
}

impl<V: View, VB: ?Sized> AbstractContext for OptionContext<OptionEntry<V, VB>> {
    type Entry = OptionEntry<V, VB>;

    closed spec fn spec_entries(&self) -> Seq<OptionEntry<V, VB>> {
        match self.entry {
            Some(e) => seq![e],
            None => seq![],
        }
    }

    fn empty() -> (r: Self) {
        OptionContext { entry: None }
    }

    fn iter(&self) -> (r: CommonIter<'_, OptionEntry<V, VB>>) {
        CommonIter::from_slice(self.entry.as_slice())
    }
}

impl<V: View, VB: ?Sized> Context for OptionContext<OptionEntry<V, VB>> {
    type Converter = IntoConverter;

    open spec fn spec_inserted(entries: Seq<OptionEntry<V, VB>>, e: OptionEntry<V, VB>) -> Seq<
        OptionEntry<V, VB>,
    > {
        seq![e]
    }

    fn insert<Q: IntoView<OptionKey>, R: IntoView<V>>(&mut self, key: Q, value: R) {
        let e = OptionEntry::new(key, value);
        assert(crate::context::entry_from(key, value, e));
        self.entry = Some(e);
        assert(self.spec_entries() == Self::spec_inserted(old(self).spec_entries(), e));
    }

    fn get(&self, key: &()) -> (r: Option<&V>) {
        self.value()
    }
}

impl<V: View, VB: ?Sized> SingletonContext for OptionContext<OptionEntry<V, VB>> {
    fn value(&self) -> (r: Option<&V>) {
        match &self.entry {
            Some(e) => Some(e.value()),
            None => None,
        }
    }
}

impl<VB: ?Sized> StringContext for OptionContext<OptionEntry<String, VB>> {

}

/// A singleton entry whose value is a `String`.
pub type StringSingletonEntry = OptionEntry<String, str>;

/// A singleton store whose value is a `String`.
pub type StringSingletonContext = OptionContext<StringSingletonEntry>;

/// The iterator of a `StringSingletonContext`.
pub type StringSingletonIter<'a> = CommonIter<'a, StringSingletonEntry>;

/// A singleton entry whose value has the fixed type `T`.
pub type FixedSingletonEntry<T> = OptionEntry<T, T>;

/// A singleton store whose value has the fixed type `T`.
pub type FixedSingletonContext<T> = OptionContext<FixedSingletonEntry<T>>;

/// The iterator of a singleton store.
pub type OptionIter<'a, E> = CommonIter<'a, E>;

} // verus!
