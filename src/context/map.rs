//! The list store: an ordered sequence of entries with text keys and values.
use std::marker::PhantomData;
use vstd::prelude::*;

use crate::context::{AbstractContext, CommonIter, Context, Entry, Render, StringContext};
use crate::context::first_match;
use crate::converter::{Converter, DebugConverter};
use crate::text::{str_eq, IntoView, Text};

verus! {

/// An entry with a key of type `K` and a value of type `V`, both read as text.
#[derive(Debug, PartialEq, Eq, Hash)]
pub struct MapEntry<K, KB: ?Sized, V, VB: ?Sized> {
    key: K,
    value: V,
    _phantom: PhantomData<(Box<KB>, Box<VB>)>,
}

impl<K: Text, KB: ?Sized, V: Text, VB: ?Sized> MapEntry<K, KB, V, VB> {
    /// The entry's key as text.
    pub closed spec fn key_text(&self) -> Seq<char> {
        self.key@
    }

    /// The entry's value as text.
    pub closed spec fn value_text(&self) -> Seq<char> {
        self.value@
    }

    /// Returns `key = value`.
    pub fn to_string(&self) -> (r: String)
        ensures
            r@ == self.spec_render(),
    {
        self.render()
    }
}

impl<K: Text, KB: ?Sized, V: Text, VB: ?Sized> Entry for MapEntry<K, KB, V, VB> {
    type Key = K;

    type KeyBorrowed = str;

    type Value = V;

    type ValueBorrowed = str;

    open spec fn spec_owned_key(&self) -> Seq<char> {
        self.key_text()
    }

    open spec fn spec_owned_value(&self) -> Seq<char> {
        self.value_text()
    }

    open spec fn spec_key(&self) -> Seq<char> {
        self.key_text()
    }

    open spec fn spec_value(&self) -> Seq<char> {
        self.value_text()
    }

    open spec fn spec_matches(&self, key: Seq<char>) -> bool {
        self.key_text() == key
    }

    fn new<Q: IntoView<K>, R: IntoView<V>>(key: Q, value: R) -> (r: Self) {
        MapEntry { key: key.into_target(), value: value.into_target(), _phantom: PhantomData }
    }

    fn key(&self) -> (r: &str) {
        self.key.as_text()
    }

    fn value(&self) -> (r: &str) {
        self.value.as_text()
    }

    fn matches(&self, key: &str) -> (r: bool) {
        str_eq(self.key.as_text(), key)
    }
}

impl<K: Text, KB: ?Sized, V: Text, VB: ?Sized> Render for MapEntry<K, KB, V, VB> {
    open spec fn spec_render(&self) -> Seq<char> {
        self.key_text() + " = "@ + self.value_text()
    }

    fn render(&self) -> (r: String) {
        let mut out = String::from_str(self.key.as_text());
        out.append(" = ");
        out.append(self.value.as_text());
        proof {
            reveal_strlit(" = ");
        }
        out
    }
}

/// An ordered list of entries; duplicate keys are kept, and a lookup returns
/// the first entry inserted under the key.
#[derive(Debug, PartialEq, Eq)]
pub struct MapContext<E, C> {
    entries: Vec<E>,
    _phantom: PhantomData<C>,
}

impl<E: Entry, C: Converter> MapContext<E, C> {
    /// Returns an empty list.
    pub fn new() -> (r: Self)
        ensures
            r.spec_entries() == Seq::<E>::empty(),
    {
        MapContext { entries: Vec::new(), _phantom: PhantomData }
    }

    /// Returns a list holding `entries` in order.
    pub fn from_entries(entries: Vec<E>) -> (r: Self)
        ensures
            r.spec_entries() == entries@,
    {
        MapContext { entries, _phantom: PhantomData }
    }

    /// Returns a list with one entry for each pair, in order.
    pub fn from_pairs<Q: IntoView<E::Key>, R: IntoView<E::Value>>(pairs: Vec<(Q, R)>) -> (r: Self)
        ensures
            r.spec_entries().len() == pairs@.len(),
            forall|i: int|
                0 <= i < pairs@.len() ==> crate::context::entry_from(
                    pairs@[i].0,
                    pairs@[i].1,
                    #[trigger] r.spec_entries()[i],
                ),
    {
        let mut entries: Vec<E> = Vec::new();
        let mut rest = pairs;
        while rest.len() > 0
            invariant
                entries@.len() + rest@.len() == pairs@.len(),
                rest@ == pairs@.subrange(entries@.len() as int, pairs@.len() as int),
                forall|i: int|
                    0 <= i < entries@.len() ==> crate::context::entry_from(
                        pairs@[i].0,
                        pairs@[i].1,
                        #[trigger] entries@[i],
                    ),
            decreases rest@.len(),
        {
            let (q, r) = rest.remove(0);
            let e = E::new(q, r);
            entries.push(e);
        }
        MapContext { entries, _phantom: PhantomData }
    }

    /// Returns an iterator over the entries, in insertion order.
    pub fn iter(&self) -> (r: CommonIter<'_, E>)
        ensures
            r@ == self.spec_entries(),
    {
        CommonIter::from_slice(self.entries.as_slice())
    }
}

impl<E: Entry, C: Converter> From<Vec<E>> for MapContext<E, C> {
    fn from(entries: Vec<E>) -> (r: Self)
        ensures
            r.spec_entries() == entries@,
    {
        MapContext::from_entries(entries)
    }
}

impl<E: Entry, C: Converter> vstd::std_specs::convert::FromSpecImpl<Vec<E>> for MapContext<E, C> {
    open spec fn obeys_from_spec() -> bool {
        false
    }

    closed spec fn from_spec(v: Vec<E>) -> Self {
        arbitrary()
    }
}

impl<E: Entry, C: Converter, Q: IntoView<E::Key>, R: IntoView<E::Value>> From<Vec<(Q, R)>> for MapContext<E, C> {
    fn from(pairs: Vec<(Q, R)>) -> (r: Self)
        ensures
            r.spec_entries().len() == pairs@.len(),
            forall|i: int|
                0 <= i < pairs@.len() ==> crate::context::entry_from(
                    pairs@[i].0,
                    pairs@[i].1,
                    #[trigger] r.spec_entries()[i],
                ),
    {
        MapContext::from_pairs(pairs)
    }
}

impl<E: Entry, C: Converter, Q: IntoView<E::Key>, R: IntoView<E::Value>> vstd::std_specs::convert::FromSpecImpl<Vec<(Q, R)>> for MapContext<E, C> {
    open spec fn obeys_from_spec() -> bool {
        false
    }

    closed spec fn from_spec(v: Vec<(Q, R)>) -> Self {
        arbitrary()
    }
}

impl<E: Entry, C: Converter> Default for MapContext<E, C> {
    fn default() -> (r: Self)
        ensures
            r.spec_entries() == Seq::<E>::empty(),
    {
        MapContext::new()
    }
}

impl<E: Entry, C: Converter> AbstractContext for MapContext<E, C> {
    type Entry = E;

    closed spec fn spec_entries(&self) -> Seq<E> {
        self.entries@
    }

    fn empty() -> (r: Self) {
        MapContext::new()
    }

    fn iter(&self) -> (r: CommonIter<'_, E>) {
        CommonIter::from_slice(self.entries.as_slice())
    }
}

impl<E: Entry, C: Converter> Context for MapContext<E, C> {
    type Converter = C;

    open spec fn spec_inserted(entries: Seq<E>, e: E) -> Seq<E> {
        entries.push(e)
    }

    fn insert<Q: IntoView<E::Key>, R: IntoView<E::Value>>(&mut self, key: Q, value: R) {
        let e = E::new(key, value);
        assert(crate::context::entry_from(key, value, e));
        self.entries.push(e);
        assert(self.spec_entries() == Self::spec_inserted(old(self).spec_entries(), e));
    }

    fn get(&self, key: &E::KeyBorrowed) -> (r: Option<&E::ValueBorrowed>) {
        let n = self.entries.len();
        let mut i: usize = 0;
        assert(self.entries@.subrange(0, n as int) =~= self.entries@);
        while i < n
            invariant
                n == self.entries@.len(),
                i <= n,
                first_match(self.entries@, key@) == first_match(
                    self.entries@.subrange(i as int, n as int),
                    key@,
                ),
            decreases n - i,
        {
            let ghost tail = self.entries@.subrange(i as int, n as int);
            assert(tail[0] == self.entries@[i as int]);
            assert(tail.drop_first() =~= self.entries@.subrange(i + 1, n as int));
            if self.entries[i].matches(key) {
                return Some(self.entries[i].value());
            }
            i = i + 1;
        }
        assert(self.entries@.subrange(i as int, n as int).len() == 0);
        None
    }
}

impl<K: Text, KB: ?Sized, V: Text, VB: ?Sized> StringContext for MapContext<
    MapEntry<K, KB, V, VB>,
    DebugConverter,
> {

}

/// An entry with a text key of type `K` and a `String` value.
pub type StringMapEntry<K, KB> = MapEntry<K, KB, String, str>;

/// A list of text-valued entries whose values are stored as their `Debug` text.
pub type StringMapContext<K, KB> = MapContext<StringMapEntry<K, KB>, DebugConverter>;

/// The iterator of a list store.
pub type MapIter<'a, E> = CommonIter<'a, E>;

/// The iterator of a `StringMapContext`.
pub type StringMapIter<'a, K, KB> = CommonIter<'a, StringMapEntry<K, KB>>;

/// A text-valued list keyed by `String`.
pub type StringKeyStringMapContext = StringMapContext<String, str>;

/// The entry of a `StringKeyStringMapContext`.
pub type StringKeyStringMapEntry = StringMapEntry<String, str>;

/// The iterator of a `StringKeyStringMapContext`.
pub type StringKeyStringMapIter<'a> = StringMapIter<'a, String, str>;

/// A text-valued list keyed by string literals.
pub type LiteralKeyStringMapContext = StringMapContext<&'static str, str>;

/// The entry of a `LiteralKeyStringMapContext`.
pub type LiteralKeyStringMapEntry = StringMapEntry<&'static str, str>;

/// The iterator of a `LiteralKeyStringMapContext`.
pub type LiteralKeyStringMapIter<'a> = StringMapIter<'a, &'static str, str>;

} // verus!
