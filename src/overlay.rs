//! The overlay protocol: at a propagation site, start a new layer over an error
//! (with a message, or a message and a kind), attach context, then build it.
//! The same fluent calls work on a `Result`, where they touch only the error.
use vstd::prelude::*;

use crate::context::{AbstractContext, Context, Entry};
use crate::converter::Convertable;
use crate::error::{AnyError, AnyErrorBuilder, ContextDepth};
use crate::kind::Kind;
use crate::text::{IntoMessage, IntoView};

verus! {

/// A value that can be applied to a target of type `T`; which overlay or
/// context operation runs is chosen by the type of the value.
pub trait Applicable<T>: Sized {
    type Output;

    /// Holds when `r` is the result of applying `value` to `target`.
    spec fn spec_apply(value: Self, target: T, r: Self::Output) -> bool;

    fn apply(self, target: T) -> (r: Self::Output)
        ensures
            Self::spec_apply(self, target, r),
    ;
}

/// A type that can be wrapped in a new layer.
pub trait Overlay: Sized {
    /// The type of the finished result.
    type Output;

    /// The type that collects context before the result is built.
    type Intermediate: Intermediate<Output = Self::Output>;

    /// Starts a new layer over `self`, described by `value`.
    fn overlay<V>(self, value: V) -> (r: Self::Intermediate) where
        V: Applicable<Self, Output = Self::Intermediate>,

        ensures
            V::spec_apply(value, self, r),
    {
        value.apply(self)
    }
}

/// A layer being assembled: context can be attached before it is built.
pub trait Intermediate: Sized {
    /// The type of the finished result.
    type Output;

    /// Holds when `r` is what `value` builds.
    spec fn spec_build(value: Self, r: Self::Output) -> bool;

    /// Attaches an entry to the layer being assembled.
    fn context<Q, R>(self, key: Q, value: R) -> (r: Self) where
        (Q, R): Applicable<Self, Output = Self>,

        ensures
            <(Q, R) as Applicable<Self>>::spec_apply((key, value), self, r),
    {
        (key, value).apply(self)
    }

    /// Builds the finished result.
    fn build(self) -> (r: Self::Output)
        ensures
            Self::spec_build(self, r),
    ;
}

/// A new layer over an `AnyError`, collecting its context.
pub struct IntermediateAnyError<C, K> {
    builder: AnyErrorBuilder<C, K>,
}

impl<C: AbstractContext, K: Kind> IntermediateAnyError<C, K> {
    /// The builder of the layer.
    pub closed spec fn spec_builder(&self) -> AnyErrorBuilder<C, K> {
        self.builder
    }

    /// Wraps a builder.
    pub fn from_builder(builder: AnyErrorBuilder<C, K>) -> (r: Self)
        ensures
            r.spec_builder() == builder,
    {
        IntermediateAnyError { builder }
    }

    /// Holds when `r` is the layer over `source` with the given message and kind
    /// and no context yet.
    pub open spec fn spec_started(
        r: Self,
        source: AnyError<C, K>,
        message: Seq<char>,
        kind: K,
    ) -> bool {
        &&& r.spec_builder().spec_source() == Some(source)
        &&& r.spec_builder().spec_message()@ == message
        &&& r.spec_builder().spec_kind() == kind
        &&& r.spec_builder().spec_context().spec_entries() == Seq::<C::Entry>::empty()
    }
}

impl<C: AbstractContext, K: Kind> Overlay for AnyError<C, K> {
    type Output = AnyError<C, K>;

    type Intermediate = IntermediateAnyError<C, K>;
}

impl<C: AbstractContext, K: Kind> Intermediate for IntermediateAnyError<C, K> {
    type Output = AnyError<C, K>;

    open spec fn spec_build(value: Self, r: AnyError<C, K>) -> bool {
        value.spec_builder().spec_built(r)
    }

    fn build(self) -> (r: AnyError<C, K>) {
        self.builder.build()
    }
}

impl<C: AbstractContext, K: Kind> From<IntermediateAnyError<C, K>> for AnyError<C, K> {
    fn from(value: IntermediateAnyError<C, K>) -> (r: Self)
        ensures
            value.spec_builder().spec_built(r),
    {
        value.build()
    }
}

impl<C: AbstractContext, K: Kind> vstd::std_specs::convert::FromSpecImpl<IntermediateAnyError<C, K>> for AnyError<C, K> {
    /// A leaf gets a fresh backtrace, so building is not a fixed function of the layer.
    open spec fn obeys_from_spec() -> bool {
        false
    }

    closed spec fn from_spec(v: IntermediateAnyError<C, K>) -> Self {
        arbitrary()
    }
}

impl<C: AbstractContext, K: Kind> Applicable<AnyError<C, K>> for String {
    type Output = IntermediateAnyError<C, K>;

    open spec fn spec_apply(value: Self, target: AnyError<C, K>, r: Self::Output) -> bool {
        IntermediateAnyError::spec_started(r, target, value@, K::spec_default())
    }

    fn apply(self, target: AnyError<C, K>) -> (r: Self::Output) {
        IntermediateAnyError::from_builder(AnyError::builder().message(self).source(target))
    }
}

impl<'a, C: AbstractContext, K: Kind> Applicable<AnyError<C, K>> for &'a str {
    type Output = IntermediateAnyError<C, K>;

    open spec fn spec_apply(value: Self, target: AnyError<C, K>, r: Self::Output) -> bool {
        IntermediateAnyError::spec_started(r, target, value@, K::spec_default())
    }

    fn apply(self, target: AnyError<C, K>) -> (r: Self::Output) {
        IntermediateAnyError::from_builder(AnyError::builder().message(self).source(target))
    }
}

impl<C: AbstractContext, K: Kind, S: IntoMessage> Applicable<AnyError<C, K>> for (S, K) {
    type Output = IntermediateAnyError<C, K>;

    open spec fn spec_apply(value: Self, target: AnyError<C, K>, r: Self::Output) -> bool {
        IntermediateAnyError::spec_started(r, target, value.0.spec_text(), value.1)
    }

    fn apply(self, target: AnyError<C, K>) -> (r: Self::Output) {
        let (message, kind) = self;
        IntermediateAnyError::from_builder(
            AnyError::builder().message(message).kind(kind).source(target),
        )
    }
}

impl<C: Context, K: Kind, Q, R> Applicable<IntermediateAnyError<C, K>> for (Q, R) where
    Q: IntoView<<C::Entry as Entry>::Key>,
    R: Convertable<C::Converter, <C::Entry as Entry>::Value>,
 {
    type Output = IntermediateAnyError<C, K>;

    open spec fn spec_apply(value: Self, target: IntermediateAnyError<C, K>, r: Self::Output) -> bool {
        let (b, rb) = (target.spec_builder(), r.spec_builder());
        &&& rb.spec_kind() == b.spec_kind()
        &&& rb.spec_message() == b.spec_message()
        &&& rb.spec_source() == b.spec_source()
        &&& exists|v: <C::Entry as Entry>::Value, e: C::Entry|
            R::spec_converts(value.1, v) && crate::context::entry_from(value.0, v, e)
                && rb.spec_context().spec_entries() == C::spec_inserted(
                b.spec_context().spec_entries(),
                e,
            )
    }

    fn apply(self, target: IntermediateAnyError<C, K>) -> (r: Self::Output) {
        let (key, value) = self;
        IntermediateAnyError::from_builder(target.builder.context(key, value))
    }
}

impl<T, C: AbstractContext, K: Kind> Overlay for Result<T, AnyError<C, K>> {
    type Output = Result<T, AnyError<C, K>>;

    type Intermediate = Result<T, IntermediateAnyError<C, K>>;
}

impl<T, C: AbstractContext, K: Kind> Intermediate for Result<T, IntermediateAnyError<C, K>> {
    type Output = Result<T, AnyError<C, K>>;

    open spec fn spec_build(value: Self, r: Self::Output) -> bool {
        match (value, r) {
            (Ok(a), Ok(b)) => a == b,
            (Err(i), Err(e)) => IntermediateAnyError::spec_build(i, e),
            _ => false,
        }
    }

    fn build(self) -> (r: Self::Output) {
        match self {
            Ok(t) => Ok(t),
            Err(i) => Err(i.build()),
        }
    }
}

impl<T, C: AbstractContext, K: Kind> Applicable<Result<T, AnyError<C, K>>> for String {
    type Output = Result<T, IntermediateAnyError<C, K>>;

    open spec fn spec_apply(value: Self, target: Result<T, AnyError<C, K>>, r: Self::Output) -> bool {
        match (target, r) {
            (Ok(a), Ok(b)) => a == b,
            (Err(e), Err(i)) => <String as Applicable<AnyError<C, K>>>::spec_apply(value, e, i),
            _ => false,
        }
    }

    fn apply(self, target: Result<T, AnyError<C, K>>) -> (r: Self::Output) {
        match target {
            Ok(t) => Ok(t),
            Err(e) => Err(<String as Applicable<AnyError<C, K>>>::apply(self, e)),
        }
    }
}

impl<'a, T, C: AbstractContext, K: Kind> Applicable<Result<T, AnyError<C, K>>> for &'a str {
    type Output = Result<T, IntermediateAnyError<C, K>>;

    open spec fn spec_apply(value: Self, target: Result<T, AnyError<C, K>>, r: Self::Output) -> bool {
        match (target, r) {
            (Ok(a), Ok(b)) => a == b,
            (Err(e), Err(i)) => <&'a str as Applicable<AnyError<C, K>>>::spec_apply(value, e, i),
            _ => false,
        }
    }

    fn apply(self, target: Result<T, AnyError<C, K>>) -> (r: Self::Output) {
        match target {
            Ok(t) => Ok(t),
            Err(e) => Err(<&'a str as Applicable<AnyError<C, K>>>::apply(self, e)),
        }
    }
}

impl<T, C: AbstractContext, K: Kind, S: IntoMessage> Applicable<Result<T, AnyError<C, K>>> for (
    S,
    K,
) {
    type Output = Result<T, IntermediateAnyError<C, K>>;

    open spec fn spec_apply(value: Self, target: Result<T, AnyError<C, K>>, r: Self::Output) -> bool {
        match (target, r) {
            (Ok(a), Ok(b)) => a == b,
            (Err(e), Err(i)) => <(S, K) as Applicable<AnyError<C, K>>>::spec_apply(value, e, i),
            _ => false,
        }
    }

    fn apply(self, target: Result<T, AnyError<C, K>>) -> (r: Self::Output) {
        match target {
            Ok(t) => Ok(t),
            Err(e) => Err(<(S, K) as Applicable<AnyError<C, K>>>::apply(self, e)),
        }
    }
}

impl<T, C: Context, K: Kind, Q, R> Applicable<Result<T, IntermediateAnyError<C, K>>> for (
    Q,
    R,
) where
    Q: IntoView<<C::Entry as Entry>::Key>,
    R: Convertable<C::Converter, <C::Entry as Entry>::Value>,
 {
    type Output = Result<T, IntermediateAnyError<C, K>>;

    open spec fn spec_apply(
        value: Self,
        target: Result<T, IntermediateAnyError<C, K>>,
        r: Self::Output,
    ) -> bool {
        match (target, r) {
            (Ok(a), Ok(b)) => a == b,
            (Err(e), Err(i)) => <(Q, R) as Applicable<IntermediateAnyError<C, K>>>::spec_apply(
                value,
                e,
                i,
            ),
            _ => false,
        }
    }

    fn apply(self, target: Result<T, IntermediateAnyError<C, K>>) -> (r: Self::Output) {
        match target {
            Ok(t) => Ok(t),
            Err(e) => Err(<(Q, R) as Applicable<IntermediateAnyError<C, K>>>::apply(self, e)),
        }
    }
}

/// A layer built over `source` defers to it for its backtrace.
pub proof fn law_layer_keeps_backtrace<C: AbstractContext, K: Kind>(
    layer: IntermediateAnyError<C, K>,
    source: AnyError<C, K>,
    r: AnyError<C, K>,
)
    requires
        layer.spec_builder().spec_source() == Some(source),
        IntermediateAnyError::spec_build(layer, r),
    ensures
        r.spec_backtrace() == source.spec_backtrace(),
        r.spec_chain() == seq![r] + source.spec_chain(),
{
    r.lemma_chain_unfold();
}

/// A layer built over `source` yields its own entries, then the source's, in a
/// full traversal, and only its own in a shallow one.
pub proof fn law_layer_context<C: AbstractContext, K: Kind>(
    layer: IntermediateAnyError<C, K>,
    source: AnyError<C, K>,
    r: AnyError<C, K>,
)
    requires
        layer.spec_builder().spec_source() == Some(source),
        IntermediateAnyError::spec_build(layer, r),
    ensures
        r.spec_context(ContextDepth::Shallowest) == layer.spec_builder().spec_context().spec_entries(),
        r.spec_context(ContextDepth::All) == layer.spec_builder().spec_context().spec_entries()
            + source.spec_context(ContextDepth::All),
{
    crate::error::law_context_depths(r);
    crate::error::law_context_depths(source);
    r.lemma_chain_unfold();
    assert(r.spec_chain().drop_first() =~= source.spec_chain());
}

} // verus!
