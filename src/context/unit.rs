//! The unit store: always empty, for applications that want no context.
use vstd::prelude::*;

use crate::context::{AbstractContext, CommonIter, Entry, NoContext};
use crate::text::IntoView;

verus! {

/// A store that holds nothing.
#[derive(Debug)]
pub struct UnitContext;

impl Default for UnitContext {
    fn default() -> (r: Self) {
        UnitContext
    }
}

/// A type without values, standing for keys and values that never exist.
#[derive(Debug, PartialEq, Eq, Hash)]
pub struct Dummy {
    never: (),
}

impl Dummy {
    /// No value of this type can be made.
    #[verifier::type_invariant]
    spec fn uninhabited(self) -> bool {
        false
    }
}

impl View for Dummy {
    type V = Dummy;

    open spec fn view(&self) -> Dummy {
        *self
    }
}

/// A type without values, standing for the entries of a `UnitContext`.
#[derive(Debug)]
pub struct DummyEntry {
    never: Dummy,
}

impl DummyEntry {
    /// No value of this type can be made.
    #[verifier::type_invariant]
    spec fn uninhabited(self) -> bool {
        false
    }
}

impl Entry for DummyEntry {
    type Key = Dummy;

    type KeyBorrowed = Dummy;

    type Value = Dummy;

    type ValueBorrowed = Dummy;

    closed spec fn spec_owned_key(&self) -> Dummy {
        self.never
    }

    closed spec fn spec_owned_value(&self) -> Dummy {
        self.never
    }

    closed spec fn spec_key(&self) -> Dummy {
        self.never
    }

    closed spec fn spec_value(&self) -> Dummy {
        self.never
    }

    closed spec fn spec_matches(&self, key: Dummy) -> bool {
        false
    }

    fn new<Q: IntoView<Dummy>, R: IntoView<Dummy>>(key: Q, value: R) -> (r: Self) {
        let k = key.into_target();
        proof {
            use_type_invariant(&k);
        }
        DummyEntry { never: k }
    }

    fn key(&self) -> (r: &Dummy) {
        proof {
            use_type_invariant(self);
        }
        &self.never
    }

    fn value(&self) -> (r: &Dummy) {
        proof {
            use_type_invariant(self);
        }
        &self.never
    }

    fn matches(&self, key: &Dummy) -> (r: bool) {
        proof {
            use_type_invariant(self);
        }
        false
    }
}

impl AbstractContext for UnitContext {
    type Entry = DummyEntry;

    open spec fn spec_entries(&self) -> Seq<DummyEntry> {
        Seq::empty()
    }

    fn empty() -> (r: Self) {
        UnitContext
    }

    fn iter(&self) -> (r: CommonIter<'_, DummyEntry>) {
        CommonIter::new()
    }
}

impl NoContext for UnitContext {

}

/// The iterator of a `UnitContext`, which yields nothing.
pub type UnitIter<'a> = CommonIter<'a, DummyEntry>;

} // verus!
