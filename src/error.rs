//! The error value: a leaf failure, a layer over another error, or an opaque
//! foreign failure; its builder; and downcasting across representations.
use std::backtrace::Backtrace;
use vstd::prelude::*;

use crate::context::{
    AbstractContext, AnyContext, CommonIter, Context, Entry, SingletonContext, StringContext,
};
use crate::context::first_match;
use crate::converter::Convertable;
use crate::foreign::{ForeignError, ForeignFailure};
use crate::kind::Kind;
use crate::text::{IntoMessage, IntoView, Text};

verus! {

/// Which layers a context traversal visits.
#[derive(Debug, Clone, Copy, PartialEq, Eq, Structural)]
pub enum ContextDepth {
    /// This layer and every layer below it, outermost first.
    All,
    /// This layer only.
    Shallowest,
}

/// The three representations of an error.
#[derive(Debug)]
pub enum ErrorData<C, K> {
    /// A failure raised directly, with no deeper cause.
    Simple { kind: K, message: String, backtrace: Backtrace, context: C },
    /// A layer that frames another error, its cause.
    Layered { kind: K, message: String, context: C, source: AnyError<C, K> },
    /// A foreign failure, held opaquely.
    Wrapped { backtrace: Backtrace, inner: ForeignError },
}

/// An error value: see `ErrorData` for its representations.
#[derive(Debug)]
pub struct AnyError<C, K>(Box<ErrorData<C, K>>);

impl<C, K> View for AnyError<C, K> {
    type V = ErrorData<C, K>;

    closed spec fn view(&self) -> ErrorData<C, K> {
        *self.0
    }
}

impl<C: AbstractContext, K: Kind> ErrorData<C, K> {
    /// The kind: the stored one, or the raw kind for a foreign failure.
    pub open spec fn spec_kind(&self) -> K {
        match self {
            ErrorData::Simple { kind, .. } => *kind,
            ErrorData::Layered { kind, .. } => *kind,
            ErrorData::Wrapped { .. } => K::spec_raw(),
        }
    }

    /// The stored message (a foreign failure's text is not known here).
    pub open spec fn spec_message(&self) -> Seq<char> {
        match self {
            ErrorData::Simple { message, .. } => message@,
            ErrorData::Layered { message, .. } => message@,
            ErrorData::Wrapped { .. } => Seq::empty(),
        }
    }

    /// The entries attached to this layer itself.
    pub open spec fn spec_own_entries(&self) -> Seq<C::Entry> {
        match self {
            ErrorData::Simple { context, .. } => context.spec_entries(),
            ErrorData::Layered { context, .. } => context.spec_entries(),
            ErrorData::Wrapped { .. } => Seq::empty(),
        }
    }

    /// The backtrace of the deepest error of the chain.
    pub open spec fn spec_backtrace(&self) -> Backtrace {
        match self {
            ErrorData::Simple { backtrace, .. } => *backtrace,
            ErrorData::Layered { source, .. } => source.spec_backtrace(),
            ErrorData::Wrapped { backtrace, .. } => *backtrace,
        }
    }

    /// The entries a traversal at `depth` yields.
    pub open spec fn spec_context(&self, depth: ContextDepth) -> Seq<C::Entry> {
        match self {
            ErrorData::Layered { context, source, .. } => match depth {
                ContextDepth::All => context.spec_entries() + source.spec_context(depth),
                ContextDepth::Shallowest => context.spec_entries(),
            },
            _ => self.spec_own_entries(),
        }
    }

    /// Returns the kind.
    pub fn kind(&self) -> (r: K)
        ensures
            r == self.spec_kind(),
    {
        match self {
            ErrorData::Simple { kind, .. } => *kind,
            ErrorData::Layered { kind, .. } => *kind,
            ErrorData::Wrapped { .. } => K::raw_kind(),
        }
    }

    /// Returns the message; for a foreign failure, its own text.
    pub fn message(&self) -> (r: String)
        ensures
            !(self is Wrapped) ==> r@ == self.spec_message(),
    {
        match self {
            ErrorData::Simple { message, .. } => message.clone(),
            ErrorData::Layered { message, .. } => message.clone(),
            ErrorData::Wrapped { inner, .. } => inner.describe(),
        }
    }

    /// Returns the message, as `Display` would print it.
    pub fn to_string(&self) -> (r: String)
        ensures
            !(self is Wrapped) ==> r@ == self.spec_message(),
    {
        self.message()
    }

    /// Returns the backtrace of the deepest error of the chain.
    pub fn backtrace(&self) -> (r: &Backtrace)
        ensures
            *r == self.spec_backtrace(),
    {
        match self {
            ErrorData::Simple { backtrace, .. } => backtrace,
            ErrorData::Layered { source, .. } => source.backtrace(),
            ErrorData::Wrapped { backtrace, .. } => backtrace,
        }
    }

    /// Returns an iterator over the entries at `depth`, outermost layer first.
    pub fn context(&self, depth: ContextDepth) -> (r: CommonIter<'_, C::Entry>)
        ensures
            r@ == self.spec_context(depth),
    {
        match self {
            ErrorData::Simple { context, .. } => context.iter(),
            ErrorData::Layered { context, source, .. } => match depth {
                ContextDepth::All => context.iter().compose(source.context(depth)),
                ContextDepth::Shallowest => context.iter(),
            },
            ErrorData::Wrapped { .. } => CommonIter::new(),
        }
    }

    /// Returns the direct cause, for a layer.
    pub fn source(&self) -> (r: Option<&AnyError<C, K>>)
        ensures
            r is Some == (self is Layered),
            r is Some ==> *r->0 == self->source,
    {
        match self {
            ErrorData::Layered { source, .. } => Some(source),
            _ => None,
        }
    }
}

impl<C: SingletonContext, K: Kind> ErrorData<C, K> {
    /// Returns the value of this layer's only entry, if there is one.
    pub fn value(&self) -> (r: Option<&<C::Entry as Entry>::ValueBorrowed>)
        ensures
            r is Some == (self.spec_own_entries().len() > 0),
            r is Some ==> r->0@ == self.spec_own_entries()[0].spec_value(),
    {
        match self {
            ErrorData::Simple { context, .. } => context.value(),
            ErrorData::Layered { context, .. } => context.value(),
            ErrorData::Wrapped { .. } => None,
        }
    }
}

impl<C: StringContext, K: Kind> ErrorData<C, K> {
    /// Returns the value of this layer's first entry under `key`.
    pub fn get(&self, key: &<C::Entry as Entry>::KeyBorrowed) -> (r: Option<
        &<C::Entry as Entry>::ValueBorrowed,
    >)
        ensures
            r is Some == first_match(self.spec_own_entries(), key@) is Some,
            r is Some ==> r->0@ == first_match(self.spec_own_entries(), key@)->0.spec_value(),
    {
        match self {
            ErrorData::Simple { context, .. } => context.get(key),
            ErrorData::Layered { context, .. } => context.get(key),
            ErrorData::Wrapped { .. } => None,
        }
    }
}

impl<C: AnyContext, K: Kind> ErrorData<C, K> {
    /// Holds when this layer's own context has an entry under `key`.
    pub open spec fn spec_has_key(&self, key: Seq<char>) -> bool {
        match self {
            ErrorData::Simple { context, .. } => context.spec_has_key(key),
            ErrorData::Layered { context, .. } => context.spec_has_key(key),
            ErrorData::Wrapped { .. } => false,
        }
    }

    /// Returns the value of this layer's first entry under `key`, if it has type `T`.
    pub fn value_as<T: 'static, Q: ?Sized + Text>(&self, key: &Q) -> (r: Option<&T>)
        ensures
            r is Some ==> self.spec_has_key(key@),
    {
        match self {
            ErrorData::Simple { context, .. } => context.value_as::<T, Q>(key),
            ErrorData::Layered { context, .. } => context.value_as::<T, Q>(key),
            ErrorData::Wrapped { .. } => None,
        }
    }
}

impl<C: AnyContext, K: Kind> AnyError<C, K> {
    /// Returns the value of this layer's first entry under `key`, if it has type `T`.
    pub fn value_as<T: 'static, Q: ?Sized + Text>(&self, key: &Q) -> (r: Option<&T>)
        ensures
            r is Some ==> self@.spec_has_key(key@),
    {
        self.0.value_as::<T, Q>(key)
    }
}

impl<C: AbstractContext, K: Kind> AnyError<C, K> {
    pub open spec fn spec_kind(&self) -> K {
        self@.spec_kind()
    }

    pub open spec fn spec_message(&self) -> Seq<char> {
        self@.spec_message()
    }

    pub open spec fn spec_own_entries(&self) -> Seq<C::Entry> {
        self@.spec_own_entries()
    }

    /// Holds for an error that wraps a foreign failure.
    pub open spec fn is_opaque(&self) -> bool {
        self@ is Wrapped
    }

    /// The direct cause: the source of a layer.
    pub open spec fn spec_source(&self) -> Option<AnyError<C, K>> {
        match self@ {
            ErrorData::Layered { source, .. } => Some(source),
            _ => None,
        }
    }

    /// The backtrace of the deepest error of the chain.
    pub open spec fn spec_backtrace(&self) -> Backtrace
        decreases self,
    {
        match self@ {
            ErrorData::Simple { backtrace, .. } => backtrace,
            ErrorData::Layered { source, .. } => source.spec_backtrace(),
            ErrorData::Wrapped { backtrace, .. } => backtrace,
        }
    }

    /// The entries a traversal at `depth` yields, outermost layer first.
    pub open spec fn spec_context(&self, depth: ContextDepth) -> Seq<C::Entry>
        decreases self,
    {
        match self@ {
            ErrorData::Layered { context, source, .. } => match depth {
                ContextDepth::All => context.spec_entries() + source.spec_context(depth),
                ContextDepth::Shallowest => context.spec_entries(),
            },
            _ => self.spec_own_entries(),
        }
    }

    /// The chain of errors from this one down to the deepest cause.
    pub open spec fn spec_chain(&self) -> Seq<AnyError<C, K>>
        decreases self,
    {
        match self@ {
            ErrorData::Layered { source, .. } => seq![*self] + source.spec_chain(),
            _ => seq![*self],
        }
    }

    /// The chain starts with this error and continues with the chain of its cause.
    pub proof fn lemma_chain_unfold(&self)
        ensures
            self.spec_chain().len() >= 1,
            self.spec_chain()[0] == *self,
            self.spec_source() is None ==> self.spec_chain() == seq![*self],
            self.spec_source() is Some ==> self.spec_chain() == seq![*self]
                + self.spec_source()->0.spec_chain(),
        decreases self,
    {
        match self@ {
            ErrorData::Layered { source, .. } => {
                source.lemma_chain_unfold();
            },
            _ => {},
        }
    }

    /// Makes an error from its representation.
    pub fn from_data(data: ErrorData<C, K>) -> (r: Self)
        ensures
            r@ == data,
    {
        AnyError(Box::new(data))
    }

    /// Makes a leaf error with the given message and the default kind.
    pub fn minimal<S: IntoMessage>(message: S) -> (r: Self)
        ensures
            r@ is Simple,
            r.spec_message() == message.spec_text(),
            r.spec_kind() == K::spec_default(),
            r.spec_own_entries() == Seq::<C::Entry>::empty(),
    {
        Self::from_data(
            ErrorData::Simple {
                kind: K::default_kind(),
                message: message.into_message(),
                backtrace: Backtrace::capture(),
                context: C::empty(),
            },
        )
    }

    /// Makes a leaf error with the given message and kind.
    pub fn quick<S: IntoMessage>(message: S, kind: K) -> (r: Self)
        ensures
            r@ is Simple,
            r.spec_message() == message.spec_text(),
            r.spec_kind() == kind,
            r.spec_own_entries() == Seq::<C::Entry>::empty(),
    {
        Self::from_data(
            ErrorData::Simple {
                kind,
                message: message.into_message(),
                backtrace: Backtrace::capture(),
                context: C::empty(),
            },
        )
    }

    /// Wraps a failure: an error of this type comes back unchanged; a foreign
    /// failure becomes an opaque error with a fresh backtrace.
    pub fn wrap<E: Wrappable<C, K>>(err: E) -> (r: Self)
        ensures
            E::spec_wrapped(err, r),
    {
        err.into_any_error()
    }

    /// Returns a builder for an error.
    pub fn builder() -> (r: AnyErrorBuilder<C, K>)
        ensures
            r.spec_kind() == K::spec_default(),
            r.spec_message()@ == Seq::<char>::empty(),
            r.spec_context().spec_entries() == Seq::<C::Entry>::empty(),
            r.spec_source() is None,
    {
        AnyErrorBuilder::new()
    }

    /// Returns the kind: the stored one, or the raw kind for a foreign failure.
    pub fn kind(&self) -> (r: K)
        ensures
            r == self.spec_kind(),
    {
        self.0.kind()
    }

    /// Returns the message; for a foreign failure, its own text.
    pub fn message(&self) -> (r: String)
        ensures
            !self.is_opaque() ==> r@ == self.spec_message(),
    {
        self.0.message()
    }

    /// Returns the message, as `Display` would print it.
    pub fn to_string(&self) -> (r: String)
        ensures
            !self.is_opaque() ==> r@ == self.spec_message(),
    {
        self.message()
    }

    /// Returns the backtrace captured where the deepest error of the chain arose.
    pub fn backtrace(&self) -> (r: &Backtrace)
        ensures
            *r == self.spec_backtrace(),
        decreases self,
    {
        match &*self.0 {
            ErrorData::Simple { backtrace, .. } => backtrace,
            ErrorData::Layered { source, .. } => source.backtrace(),
            ErrorData::Wrapped { backtrace, .. } => backtrace,
        }
    }

    /// Returns an iterator over this layer's entries (`Shallowest`) or over the
    /// entries of the whole chain, outermost layer first (`All`).
    pub fn context(&self, depth: ContextDepth) -> (r: CommonIter<'_, C::Entry>)
        ensures
            r@ == self.spec_context(depth),
        decreases self,
    {
        match &*self.0 {
            ErrorData::Simple { context, .. } => context.iter(),
            ErrorData::Layered { context, source, .. } => match depth {
                ContextDepth::All => context.iter().compose(source.context(depth)),
                ContextDepth::Shallowest => context.iter(),
            },
            ErrorData::Wrapped { .. } => CommonIter::new(),
        }
    }

    /// Returns the direct cause: the source of a layer, none otherwise.
    pub fn source(&self) -> (r: Option<&AnyError<C, K>>)
        ensures
            r is Some == self.spec_source() is Some,
            r is Some ==> *r->0 == self.spec_source()->0,
    {
        self.0.source()
    }

    /// Returns true if this error is, or wraps, a value of type `E`.
    pub fn is<E: DowncastTarget<C, K>>(&self) -> (r: bool)
        ensures
            !self.is_opaque() ==> r == E::spec_is_error(),
            self.is_opaque() && E::spec_is_error() ==> !r,
    {
        match &*self.0 {
            ErrorData::Wrapped { inner, .. } => E::foreign_is(inner),
            _ => E::is_error(),
        }
    }

    /// Turns this error into a value of type `E`, or hands it back unchanged.
    pub fn downcast<E: DowncastTarget<C, K>>(self) -> (r: Result<E, Self>)
        ensures
            r matches Err(e) ==> e == self,
            !self.is_opaque() ==> (r is Ok <==> E::spec_is_error()),
            !self.is_opaque() && r is Ok ==> E::spec_same(r->Ok_0, self),
            self.is_opaque() && E::spec_is_error() ==> r is Err,
    {
        if self.is_wrapped() {
            let AnyError(data) = self;
            match *data {
                ErrorData::Wrapped { backtrace, inner } => match E::from_foreign(inner) {
                    Ok(e) => Ok(e),
                    Err(inner) => Err(Self::from_data(ErrorData::Wrapped { backtrace, inner })),
                },
                other => Err(Self::from_data(other)),
            }
        } else {
            E::from_error(self)
        }
    }

    fn is_wrapped(&self) -> (r: bool)
        ensures
            r == self.is_opaque(),
    {
        match &*self.0 {
            ErrorData::Wrapped { .. } => true,
            _ => false,
        }
    }

    /// Returns a reference to this error, or to what it wraps, as an `E`.
    pub fn downcast_ref<E: DowncastTarget<C, K>>(&self) -> (r: Option<&E>)
        ensures
            !self.is_opaque() ==> (r is Some <==> E::spec_is_error()),
            !self.is_opaque() && r is Some ==> E::spec_same(*r->0, *self),
            self.is_opaque() && E::spec_is_error() ==> r is None,
    {
        match &*self.0 {
            ErrorData::Wrapped { inner, .. } => E::from_foreign_ref(inner),
            _ => E::from_error_ref(self),
        }
    }

    /// Returns a mutable reference to this error, or to what it wraps, as an `E`.
    pub fn downcast_mut<E: DowncastTarget<C, K>>(&mut self) -> (r: Option<&mut E>)
        ensures
            !old(self).is_opaque() ==> (r is Some <==> E::spec_is_error()),
            !old(self).is_opaque() && r is Some ==> E::spec_same(*r->0, *old(self)),
            old(self).is_opaque() && E::spec_is_error() ==> r is None,
            r is None ==> *final(self) == *old(self),
    {
        if self.is_wrapped() {
            match &mut *self.0 {
                ErrorData::Wrapped { inner, .. } => E::from_foreign_mut(inner),
                _ => None,
            }
        } else {
            E::from_error_mut(self)
        }
    }
}

impl<C: SingletonContext, K: Kind> AnyError<C, K> {
    /// Returns the value of this layer's only entry, if there is one.
    pub fn value(&self) -> (r: Option<&<C::Entry as Entry>::ValueBorrowed>)
        ensures
            r is Some == (self.spec_own_entries().len() > 0),
            r is Some ==> r->0@ == self.spec_own_entries()[0].spec_value(),
    {
        self.0.value()
    }
}

impl<C: StringContext, K: Kind> AnyError<C, K> {
    /// Returns the value of this layer's first entry under `key`.
    pub fn get(&self, key: &<C::Entry as Entry>::KeyBorrowed) -> (r: Option<
        &<C::Entry as Entry>::ValueBorrowed,
    >)
        ensures
            r is Some == first_match(self.spec_own_entries(), key@) is Some,
            r is Some ==> r->0@ == first_match(self.spec_own_entries(), key@)->0.spec_value(),
    {
        self.0.get(key)
    }
}

impl<C: AbstractContext, K: Kind> From<ErrorData<C, K>> for AnyError<C, K> {
    fn from(data: ErrorData<C, K>) -> (r: Self)
        ensures
            r@ == data,
    {
        AnyError(Box::new(data))
    }
}

impl<C: AbstractContext, K: Kind> vstd::std_specs::convert::FromSpecImpl<ErrorData<C, K>> for AnyError<C, K> {
    open spec fn obeys_from_spec() -> bool {
        true
    }

    closed spec fn from_spec(v: ErrorData<C, K>) -> Self {
        AnyError(Box::new(v))
    }
}

/// Collects the parts of an error: kind, message, context and an optional cause.
pub struct ErrorDataBuilder<C, K> {
    kind: K,
    message: String,
    context: C,
    source: Option<AnyError<C, K>>,
}

impl<C: AbstractContext, K: Kind> ErrorDataBuilder<C, K> {
    pub closed spec fn spec_kind(&self) -> K {
        self.kind
    }

    pub closed spec fn spec_message(&self) -> String {
        self.message
    }

    pub closed spec fn spec_context(&self) -> C {
        self.context
    }

    pub closed spec fn spec_source(&self) -> Option<AnyError<C, K>> {
        self.source
    }

    /// A builder with the default kind, an empty message, no context and no cause.
    pub fn new() -> (r: Self)
        ensures
            r.spec_kind() == K::spec_default(),
            r.spec_message()@ == Seq::<char>::empty(),
            r.spec_context().spec_entries() == Seq::<C::Entry>::empty(),
            r.spec_source() is None,
    {
        ErrorDataBuilder {
            kind: K::default_kind(),
            message: String::new(),
            context: C::empty(),
            source: None,
        }
    }

    /// Sets the kind.
    pub fn kind(self, kind: K) -> (r: Self)
        ensures
            r.spec_kind() == kind,
            r.spec_message() == self.spec_message(),
            r.spec_context() == self.spec_context(),
            r.spec_source() == self.spec_source(),
    {
        ErrorDataBuilder { kind, ..self }
    }

    /// Sets the message.
    pub fn message<S: IntoMessage>(self, message: S) -> (r: Self)
        ensures
            r.spec_kind() == self.spec_kind(),
            r.spec_message()@ == message.spec_text(),
            r.spec_context() == self.spec_context(),
            r.spec_source() == self.spec_source(),
    {
        ErrorDataBuilder { message: message.into_message(), ..self }
    }

    /// Sets the cause.
    pub fn source(self, source: AnyError<C, K>) -> (r: Self)
        ensures
            r.spec_kind() == self.spec_kind(),
            r.spec_message() == self.spec_message(),
            r.spec_context() == self.spec_context(),
            r.spec_source() == Some(source),
    {
        ErrorDataBuilder { source: Some(source), ..self }
    }

    /// Makes a layer over the cause if one was given, else a leaf with `backtrace`.
    pub fn build(self, backtrace: Backtrace) -> (r: ErrorData<C, K>)
        ensures
            r == (match self.spec_source() {
                Some(source) => ErrorData::Layered {
                    kind: self.spec_kind(),
                    message: self.spec_message(),
                    context: self.spec_context(),
                    source,
                },
                None => ErrorData::Simple {
                    kind: self.spec_kind(),
                    message: self.spec_message(),
                    backtrace,
                    context: self.spec_context(),
                },
            }),
    {
        match self.source {
            Some(source) => ErrorData::Layered {
                kind: self.kind,
                message: self.message,
                context: self.context,
                source,
            },
            None => ErrorData::Simple {
                kind: self.kind,
                message: self.message,
                backtrace,
                context: self.context,
            },
        }
    }
}

impl<C: Context, K: Kind> ErrorDataBuilder<C, K> {
    /// Adds an entry, converting the value with the context's converter.
    pub fn context<Q, R>(self, key: Q, value: R) -> (r: Self) where
        Q: IntoView<<C::Entry as Entry>::Key>,
        R: Convertable<C::Converter, <C::Entry as Entry>::Value>,

        ensures
            r.spec_kind() == self.spec_kind(),
            r.spec_message() == self.spec_message(),
            r.spec_source() == self.spec_source(),
            exists|v: <C::Entry as Entry>::Value, e: C::Entry|
                R::spec_converts(value, v) && crate::context::entry_from(key, v, e)
                    && r.spec_context().spec_entries() == C::spec_inserted(
                    self.spec_context().spec_entries(),
                    e,
                ),
    {
        let mut b = self;
        b.context.insert_with::<C::Converter, Q, R>(key, value);
        b
    }
}

/// The builder of an `AnyError`.
pub struct AnyErrorBuilder<C, K>(ErrorDataBuilder<C, K>);

impl<C: AbstractContext, K: Kind> AnyErrorBuilder<C, K> {
    pub closed spec fn spec_kind(&self) -> K {
        self.0.spec_kind()
    }

    pub closed spec fn spec_message(&self) -> String {
        self.0.spec_message()
    }

    pub closed spec fn spec_context(&self) -> C {
        self.0.spec_context()
    }

    pub closed spec fn spec_source(&self) -> Option<AnyError<C, K>> {
        self.0.spec_source()
    }

    /// Holds when `r` is the error this builder makes (up to the backtrace of a leaf).
    pub open spec fn spec_built(&self, r: AnyError<C, K>) -> bool {
        &&& r.spec_kind() == self.spec_kind()
        &&& r.spec_message() == self.spec_message()@
        &&& r.spec_own_entries() == self.spec_context().spec_entries()
        &&& r.spec_source() == self.spec_source()
        &&& (self.spec_source() is Some <==> r@ is Layered)
        &&& (self.spec_source() is None <==> r@ is Simple)
    }

    fn new() -> (r: Self)
        ensures
            r.spec_kind() == K::spec_default(),
            r.spec_message()@ == Seq::<char>::empty(),
            r.spec_context().spec_entries() == Seq::<C::Entry>::empty(),
            r.spec_source() is None,
    {
        AnyErrorBuilder(ErrorDataBuilder::new())
    }

    /// Sets the kind of the resulting error.
    pub fn kind(self, kind: K) -> (r: Self)
        ensures
            r.spec_kind() == kind,
            r.spec_message() == self.spec_message(),
            r.spec_context() == self.spec_context(),
            r.spec_source() == self.spec_source(),
    {
        AnyErrorBuilder(self.0.kind(kind))
    }

    /// Sets the message of the resulting error.
    pub fn message<S: IntoMessage>(self, message: S) -> (r: Self)
        ensures
            r.spec_kind() == self.spec_kind(),
            r.spec_message()@ == message.spec_text(),
            r.spec_context() == self.spec_context(),
            r.spec_source() == self.spec_source(),
    {
        AnyErrorBuilder(self.0.message(message))
    }

    /// Sets the cause of the resulting error.
    pub fn source(self, source: AnyError<C, K>) -> (r: Self)
        ensures
            r.spec_kind() == self.spec_kind(),
            r.spec_message() == self.spec_message(),
            r.spec_context() == self.spec_context(),
            r.spec_source() == Some(source),
    {
        AnyErrorBuilder(self.0.source(source))
    }

    /// Returns the error: a layer over the cause if one was given, else a leaf
    /// with a backtrace captured now.
    pub fn build(self) -> (r: AnyError<C, K>)
        ensures
            r.spec_kind() == self.spec_kind(),
            r.spec_message() == self.spec_message()@,
            r.spec_own_entries() == self.spec_context().spec_entries(),
            r.spec_source() == self.spec_source(),
            self.spec_source() is Some <==> r@ is Layered,
            self.spec_source() is None <==> r@ is Simple,
            self.spec_built(r),
    {
        AnyError::from_data(self.0.build(Backtrace::capture()))
    }
}

impl<C: Context, K: Kind> AnyErrorBuilder<C, K> {
    /// Adds an entry to the resulting error, converting the value with the
    /// context's converter.
    pub fn context<Q, R>(self, key: Q, value: R) -> (r: Self) where
        Q: IntoView<<C::Entry as Entry>::Key>,
        R: Convertable<C::Converter, <C::Entry as Entry>::Value>,

        ensures
            r.spec_kind() == self.spec_kind(),
            r.spec_message() == self.spec_message(),
            r.spec_source() == self.spec_source(),
            exists|v: <C::Entry as Entry>::Value, e: C::Entry|
                R::spec_converts(value, v) && crate::context::entry_from(key, v, e)
                    && r.spec_context().spec_entries() == C::spec_inserted(
                    self.spec_context().spec_entries(),
                    e,
                ),
    {
        AnyErrorBuilder(self.0.context(key, value))
    }
}

impl<C: AbstractContext, K: Kind, S: IntoMessage> From<S> for AnyError<C, K> {
    /// A leaf error with the given message and the default kind.
    fn from(message: S) -> (r: Self)
        ensures
            r@ is Simple,
            r.spec_message() == message.spec_text(),
            r.spec_kind() == K::spec_default(),
    {
        AnyError::minimal(message)
    }
}

impl<C: AbstractContext, K: Kind, S: IntoMessage> vstd::std_specs::convert::FromSpecImpl<S> for AnyError<C, K> {
    /// A leaf gets a fresh backtrace, so the result is not a fixed function of the message.
    open spec fn obeys_from_spec() -> bool {
        false
    }

    closed spec fn from_spec(v: S) -> Self {
        arbitrary()
    }
}

/// The own entries of each error of `chain`, in chain order.
pub open spec fn chain_entries<C: AbstractContext, K: Kind>(chain: Seq<AnyError<C, K>>) -> Seq<
    C::Entry,
>
    decreases chain.len(),
{
    if chain.len() == 0 {
        Seq::empty()
    } else {
        chain[0].spec_own_entries() + chain_entries(chain.drop_first())
    }
}

/// A shallow traversal yields the error's own entries; a full traversal yields
/// the own entries of every error of the chain, outermost first.
pub proof fn law_context_depths<C: AbstractContext, K: Kind>(e: AnyError<C, K>)
    ensures
        e.spec_context(ContextDepth::Shallowest) == e.spec_own_entries(),
        e.spec_context(ContextDepth::All) == chain_entries(e.spec_chain()),
    decreases e,
{
    e.lemma_chain_unfold();
    match e@ {
        ErrorData::Layered { source, .. } => {
            law_context_depths(source);
            assert(e.spec_chain().drop_first() =~= source.spec_chain());
            assert(chain_entries(e.spec_chain()) == e.spec_own_entries() + chain_entries(
                source.spec_chain(),
            ));
        },
        _ => {
            assert(e.spec_chain().drop_first() =~= Seq::<AnyError<C, K>>::empty());
            assert(chain_entries(Seq::<AnyError<C, K>>::empty()) == Seq::<C::Entry>::empty());
            assert(chain_entries(e.spec_chain()) == e.spec_own_entries() + Seq::<C::Entry>::empty());
            assert(e.spec_own_entries() + Seq::<C::Entry>::empty() =~= e.spec_own_entries());
        },
    }
}

/// Every error of a chain reports the same backtrace: the one of the deepest error.
pub proof fn law_chain_shares_backtrace<C: AbstractContext, K: Kind>(e: AnyError<C, K>)
    ensures
        forall|i: int|
            0 <= i < e.spec_chain().len() ==> (#[trigger] e.spec_chain()[i]).spec_backtrace()
                == e.spec_backtrace(),
    decreases e,
{
    e.lemma_chain_unfold();
    match e@ {
        ErrorData::Layered { source, .. } => {
            law_chain_shares_backtrace(source);
            assert forall|i: int|
                0 <= i < e.spec_chain().len() implies (#[trigger] e.spec_chain()[i]).spec_backtrace()
                == e.spec_backtrace() by {
                if i > 0 {
                    assert(e.spec_chain()[i] == source.spec_chain()[i - 1]);
                }
            }
        },
        _ => {},
    }
}

/// Wrapping an error of this very type hands it back unchanged: it is never
/// nested as a foreign failure.
pub proof fn law_rewrap_is_identity<C: AbstractContext, K: Kind>(e: AnyError<C, K>, r: AnyError<C, K>)
    requires
        <AnyError<C, K> as Wrappable<C, K>>::spec_wrapped(e, r),
    ensures
        r == e,
        r.spec_message() == e.spec_message(),
        r.is_opaque() == e.is_opaque(),
{
}

/// Leaf and layered errors are the error type itself; an opaque error never
/// holds one, so asking it for the error type fails.
pub proof fn law_native_errors_are_self<C: AbstractContext, K: Kind>()
    ensures
        <AnyError<C, K> as DowncastTarget<C, K>>::spec_is_error(),
{
}

/// A failure that `AnyError::wrap` accepts.
pub trait Wrappable<C, K>: Sized {
    /// Holds when `r` is the result of wrapping `err`.
    spec fn spec_wrapped(err: Self, r: AnyError<C, K>) -> bool;

    fn into_any_error(self) -> (r: AnyError<C, K>)
        ensures
            Self::spec_wrapped(self, r),
    ;
}

impl<C: AbstractContext, K: Kind, E: ForeignFailure> Wrappable<C, K> for E {
    open spec fn spec_wrapped(err: Self, r: AnyError<C, K>) -> bool {
        r.is_opaque()
    }

    fn into_any_error(self) -> (r: AnyError<C, K>) {
        AnyError::from_data(
            ErrorData::Wrapped { backtrace: Backtrace::capture(), inner: self.into_foreign() },
        )
    }
}

impl<C: AbstractContext, K: Kind> Wrappable<C, K> for AnyError<C, K> {
    open spec fn spec_wrapped(err: Self, r: AnyError<C, K>) -> bool {
        r == err
    }

    fn into_any_error(self) -> (r: AnyError<C, K>) {
        self
    }
}

/// A type that an `AnyError<C, K>` can be downcast to: the error type itself,
/// or a foreign failure type that it may wrap.
pub trait DowncastTarget<C, K>: Sized {
    /// Holds when this type is `AnyError<C, K>` itself.
    spec fn spec_is_error() -> bool;

    /// Holds when `x` is the error `e` itself.
    spec fn spec_same(x: Self, e: AnyError<C, K>) -> bool;

    fn is_error() -> (r: bool)
        ensures
            r == Self::spec_is_error(),
    ;

    /// Whether a foreign failure has this type.
    fn foreign_is(f: &ForeignError) -> (r: bool)
        ensures
            Self::spec_is_error() ==> !r,
    ;

    fn from_error(e: AnyError<C, K>) -> (r: Result<Self, AnyError<C, K>>)
        ensures
            r is Ok <==> Self::spec_is_error(),
            r matches Ok(x) ==> Self::spec_same(x, e),
            r matches Err(x) ==> x == e,
    ;

    fn from_error_ref(e: &AnyError<C, K>) -> (r: Option<&Self>)
        ensures
            r is Some <==> Self::spec_is_error(),
            r matches Some(x) ==> Self::spec_same(*x, *e),
    ;

    fn from_error_mut(e: &mut AnyError<C, K>) -> (r: Option<&mut Self>)
        ensures
            r is Some <==> Self::spec_is_error(),
            r matches Some(x) ==> Self::spec_same(*x, *old(e)),
            r is None ==> *final(e) == *old(e),
    ;

    fn from_foreign(f: ForeignError) -> (r: Result<Self, ForeignError>)
        ensures
            r matches Err(x) ==> x == f,
            Self::spec_is_error() ==> r is Err,
    ;

    fn from_foreign_ref(f: &ForeignError) -> (r: Option<&Self>)
        ensures
            Self::spec_is_error() ==> r is None,
    ;

    fn from_foreign_mut(f: &mut ForeignError) -> (r: Option<&mut Self>)
        ensures
            Self::spec_is_error() ==> r is None,
            r is None ==> *final(f) == *old(f),
    ;
}

impl<C: AbstractContext, K: Kind, E: ForeignFailure> DowncastTarget<C, K> for E {
    open spec fn spec_is_error() -> bool {
        false
    }

    open spec fn spec_same(x: Self, e: AnyError<C, K>) -> bool {
        false
    }

    fn is_error() -> (r: bool) {
        false
    }

    fn foreign_is(f: &ForeignError) -> (r: bool) {
        E::held_in(f)
    }

    fn from_error(e: AnyError<C, K>) -> (r: Result<Self, AnyError<C, K>>) {
        Err(e)
    }

    fn from_error_ref(e: &AnyError<C, K>) -> (r: Option<&Self>) {
        None
    }

    fn from_error_mut(e: &mut AnyError<C, K>) -> (r: Option<&mut Self>) {
        None
    }

    fn from_foreign(f: ForeignError) -> (r: Result<Self, ForeignError>) {
        E::take_from(f)
    }

    fn from_foreign_ref(f: &ForeignError) -> (r: Option<&Self>) {
        E::ref_in(f)
    }

    fn from_foreign_mut(f: &mut ForeignError) -> (r: Option<&mut Self>) {
        E::mut_in(f)
    }
}

impl<C: AbstractContext, K: Kind> DowncastTarget<C, K> for AnyError<C, K> {
    open spec fn spec_is_error() -> bool {
        true
    }

    open spec fn spec_same(x: Self, e: AnyError<C, K>) -> bool {
        x == e
    }

    fn is_error() -> (r: bool) {
        true
    }

    fn foreign_is(f: &ForeignError) -> (r: bool) {
        false
    }

    fn from_error(e: AnyError<C, K>) -> (r: Result<Self, AnyError<C, K>>) {
        Ok(e)
    }

    fn from_error_ref(e: &AnyError<C, K>) -> (r: Option<&Self>) {
        Some(e)
    }

    fn from_error_mut(e: &mut AnyError<C, K>) -> (r: Option<&mut Self>) {
        Some(e)
    }

    fn from_foreign(f: ForeignError) -> (r: Result<Self, ForeignError>) {
        Err(f)
    }

    fn from_foreign_ref(f: &ForeignError) -> (r: Option<&Self>) {
        None
    }

    fn from_foreign_mut(f: &mut ForeignError) -> (r: Option<&mut Self>) {
        None
    }
}

} // verus!
