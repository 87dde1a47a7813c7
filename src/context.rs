//! Context stores: interchangeable key/value containers attached to each error
//! layer, all walked through the same lazily composable iterator.
pub mod any;
pub mod iter;
pub mod map;
pub mod singleton;
pub mod unit;

use vstd::prelude::*;

use crate::converter::{Convertable, Converter};
use crate::text::IntoView;

pub use any::{AnyContext, AnyMapContext, AnyMapEntry, LiteralKeyAnyMapContext, StringKeyAnyMapContext};
pub use iter::CommonIter;
pub use singleton::{FixedSingletonContext, OptionContext, OptionEntry, OptionKey};
pub use singleton::{StringSingletonContext, StringSingletonEntry};
pub use unit::{Dummy, DummyEntry, UnitContext, UnitIter};
pub use map::{LiteralKeyStringMapContext, LiteralKeyStringMapEntry, MapContext, MapEntry};
pub use map::{StringKeyStringMapContext, StringKeyStringMapEntry, StringMapContext, StringMapEntry};




verus! {

/// One key/value pair of a context store.
pub trait Entry: Sized {
    /// The owned key.
    type Key: View;

    /// The form in which a key is looked up.
    type KeyBorrowed: ?Sized + View;

    /// The owned value.
    type Value: View;

    /// The form in which a value is handed out.
    type ValueBorrowed: ?Sized + View;

    /// The view of the owned key.
    spec fn spec_owned_key(&self) -> <Self::Key as View>::V;

    /// The view of the owned value.
    spec fn spec_owned_value(&self) -> <Self::Value as View>::V;

    /// The key of this entry, in its looked-up form.
    spec fn spec_key(&self) -> <Self::KeyBorrowed as View>::V;

    /// The value of this entry, in its handed-out form.
    spec fn spec_value(&self) -> <Self::ValueBorrowed as View>::V;

    /// Holds when a lookup by `key` selects this entry.
    spec fn spec_matches(&self, key: <Self::KeyBorrowed as View>::V) -> bool;

    /// Creates an entry from anything that converts into its key and value.
    fn new<Q: IntoView<Self::Key>, R: IntoView<Self::Value>>(key: Q, value: R) -> (r: Self)
        ensures
            r.spec_owned_key() == key.target_view(),
            r.spec_owned_value() == value.target_view(),
    ;

    /// Returns the entry's key.
    fn key(&self) -> (r: &Self::KeyBorrowed)
        ensures
            r@ == self.spec_key(),
    ;

    /// Returns the entry's value.
    fn value(&self) -> (r: &Self::ValueBorrowed)
        ensures
            r@ == self.spec_value(),
    ;

    /// Returns true if a lookup by `key` selects this entry.
    fn matches(&self, key: &Self::KeyBorrowed) -> (r: bool)
        ensures
            r == self.spec_matches(key@),
    ;
}

/// Holds when `e` is an entry made of the conversions of `key` and `value`.
pub open spec fn entry_from<E: Entry, Q: IntoView<E::Key>, R: IntoView<E::Value>>(
    key: Q,
    value: R,
    e: E,
) -> bool {
    e.spec_owned_key() == key.target_view() && e.spec_owned_value() == value.target_view()
}

/// The text form of an entry, as reports print it.
pub trait Render {
    spec fn spec_render(&self) -> Seq<char>;

    fn render(&self) -> (r: String)
        ensures
            r@ == self.spec_render(),
    ;
}

/// The first entry of `entries` that a lookup by `key` selects.
pub open spec fn first_match<E: Entry>(entries: Seq<E>, key: <E::KeyBorrowed as View>::V) -> Option<
    E,
>
    decreases entries.len(),
{
    if entries.len() == 0 {
        None
    } else if entries[0].spec_matches(key) {
        Some(entries[0])
    } else {
        first_match(entries.drop_first(), key)
    }
}

/// The capability every context store has: its entries can be walked.
pub trait AbstractContext: Sized {
    type Entry: Entry;

    /// The entries of this store, in insertion order.
    spec fn spec_entries(&self) -> Seq<Self::Entry>;

    /// A store with no entries.
    fn empty() -> (r: Self)
        ensures
            r.spec_entries() == Seq::<Self::Entry>::empty(),
    ;

    /// Returns an iterator over the entries, in insertion order.
    fn iter(&self) -> (r: CommonIter<'_, Self::Entry>)
        ensures
            r@ == self.spec_entries(),
    ;
}

/// A store that never holds an entry.
pub trait NoContext: AbstractContext {}

/// A store that accepts insertions and lookups by key.
pub trait Context: AbstractContext {
    /// The converter that insertions through error builders use.
    type Converter: Converter;

    /// The entries after `e` is inserted into `entries`.
    spec fn spec_inserted(entries: Seq<Self::Entry>, e: Self::Entry) -> Seq<Self::Entry>;

    /// Inserts an entry made of the conversions of `key` and `value`.
    fn insert<Q, R>(&mut self, key: Q, value: R) where
        Q: IntoView<<Self::Entry as Entry>::Key>,
        R: IntoView<<Self::Entry as Entry>::Value>,

        ensures
            exists|e: Self::Entry|
                entry_from(key, value, e) && final(self).spec_entries() == Self::spec_inserted(
                    old(self).spec_entries(),
                    e,
                ),
    ;

    /// Converts `value` with converter `C`, then inserts it under `key`.
    fn insert_with<C, Q, R>(&mut self, key: Q, value: R) where
        C: Converter,
        R: Convertable<C, <Self::Entry as Entry>::Value>,
        Q: IntoView<<Self::Entry as Entry>::Key>,

        ensures
            exists|v: <Self::Entry as Entry>::Value, e: Self::Entry|
                R::spec_converts(value, v) && entry_from(key, v, e) && final(self).spec_entries()
                    == Self::spec_inserted(old(self).spec_entries(), e),
    {
        let v = value.to();
        self.insert(key, v);
    }

    /// Returns the value of the first entry that `key` selects.
    fn get(&self, key: &<Self::Entry as Entry>::KeyBorrowed) -> (r: Option<
        &<Self::Entry as Entry>::ValueBorrowed,
    >)
        ensures
            r is Some == first_match(self.spec_entries(), key@) is Some,
            r is Some ==> r->0@ == first_match(self.spec_entries(), key@)->0.spec_value(),
    ;
}

/// A store that holds at most one entry, read without a key.
pub trait SingletonContext: Context {
    /// Returns the value of the only entry, if there is one.
    fn value(&self) -> (r: Option<&<Self::Entry as Entry>::ValueBorrowed>)
        ensures
            r is Some == (self.spec_entries().len() > 0),
            r is Some ==> r->0@ == self.spec_entries()[0].spec_value(),
    ;
}

/// A store whose values are text.
pub trait StringContext: Context {}

} // verus!
