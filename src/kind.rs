//! Failure categories: the contract a kind type satisfies, and two ready-made kinds.
use vstd::prelude::*;

verus! {

/// The category of an error.
///
/// A kind is a small copyable value. Two of its values are distinguished: the
/// kind reported by an error that wraps a foreign failure (`raw_kind`), and the
/// kind that means "not specified" (`unknown_kind`). `default_kind` is the kind
/// that errors get when none is given.
pub trait Kind: Sized + Copy {
    /// The kind reported by an error wrapping a foreign failure.
    spec fn spec_raw() -> Self;

    /// The kind meaning that no category was specified.
    spec fn spec_unknown() -> Self;

    /// The kind used when none is given.
    spec fn spec_default() -> Self;

    /// The text that names this kind in reports.
    spec fn spec_name(&self) -> Seq<char>;

    fn raw_kind() -> (r: Self)
        ensures
            r == Self::spec_raw(),
    ;

    fn unknown_kind() -> (r: Self)
        ensures
            r == Self::spec_unknown(),
    ;

    fn default_kind() -> (r: Self)
        ensures
            r == Self::spec_default(),
    ;

    /// Returns the text naming this kind.
    fn name(&self) -> (r: String)
        ensures
            r@ == self.spec_name(),
    ;

    /// Returns true if this is the raw kind.
    fn is_raw(&self) -> (r: bool)
        ensures
            r == (*self == Self::spec_raw()),
    ;

    /// Returns true if this is the unknown kind.
    fn is_unknown(&self) -> (r: bool)
        ensures
            r == (*self == Self::spec_unknown()),
    ;
}

/// A general-purpose set of failure categories.
#[derive(Debug, Clone, Copy, PartialEq, Eq, Hash)]
#[non_exhaustive]
pub enum DefaultErrorKind {
    ValueValidation,
    RuleViolation,
    EntityAbsence,
    InfrastructureFailure,
    Raw,
    Unknown,
}

impl DefaultErrorKind {
    pub open spec fn spec_text(self) -> Seq<char> {
        match self {
            DefaultErrorKind::ValueValidation => "ValueValidation"@,
            DefaultErrorKind::RuleViolation => "RuleViolation"@,
            DefaultErrorKind::EntityAbsence => "EntityAbsence"@,
            DefaultErrorKind::InfrastructureFailure => "InfrastructureFailure"@,
            DefaultErrorKind::Raw => "Raw"@,
            DefaultErrorKind::Unknown => "Unknown"@,
        }
    }
}

impl Default for DefaultErrorKind {
    fn default() -> (r: Self)
        ensures
            r == DefaultErrorKind::Unknown,
    {
        DefaultErrorKind::Unknown
    }
}

impl Kind for DefaultErrorKind {
    open spec fn spec_raw() -> Self {
        DefaultErrorKind::Raw
    }

    open spec fn spec_unknown() -> Self {
        DefaultErrorKind::Unknown
    }

    open spec fn spec_default() -> Self {
        DefaultErrorKind::Unknown
    }

    open spec fn spec_name(&self) -> Seq<char> {
        self.spec_text()
    }

    fn raw_kind() -> (r: Self) {
        DefaultErrorKind::Raw
    }

    fn unknown_kind() -> (r: Self) {
        DefaultErrorKind::Unknown
    }

    fn default_kind() -> (r: Self) {
        DefaultErrorKind::Unknown
    }

    fn name(&self) -> (r: String) {
        match self {
            DefaultErrorKind::ValueValidation => String::from_str("ValueValidation"),
            DefaultErrorKind::RuleViolation => String::from_str("RuleViolation"),
            DefaultErrorKind::EntityAbsence => String::from_str("EntityAbsence"),
            DefaultErrorKind::InfrastructureFailure => String::from_str("InfrastructureFailure"),
            DefaultErrorKind::Raw => String::from_str("Raw"),
            DefaultErrorKind::Unknown => String::from_str("Unknown"),
        }
    }

    fn is_raw(&self) -> (r: bool) {
        match self {
            DefaultErrorKind::Raw => true,
            _ => false,
        }
    }

    fn is_unknown(&self) -> (r: bool) {
        match self {
            DefaultErrorKind::Unknown => true,
            _ => false,
        }
    }
}

/// A kind with a single value, for applications that do not categorise errors.
#[derive(Debug, Clone, Copy, PartialEq, Eq, Hash)]
pub enum NoErrorKind {
    Anything,
}

impl Default for NoErrorKind {
    fn default() -> (r: Self)
        ensures
            r == NoErrorKind::Anything,
    {
        NoErrorKind::Anything
    }
}

impl Kind for NoErrorKind {
    open spec fn spec_raw() -> Self {
        NoErrorKind::Anything
    }

    open spec fn spec_unknown() -> Self {
        NoErrorKind::Anything
    }

    open spec fn spec_default() -> Self {
        NoErrorKind::Anything
    }

    open spec fn spec_name(&self) -> Seq<char> {
        "Anything"@
    }

    fn raw_kind() -> (r: Self) {
        NoErrorKind::Anything
    }

    fn unknown_kind() -> (r: Self) {
        NoErrorKind::Anything
    }

    fn default_kind() -> (r: Self) {
        NoErrorKind::Anything
    }

    fn name(&self) -> (r: String) {
        String::from_str("Anything")
    }

    fn is_raw(&self) -> (r: bool) {
        true
    }

    fn is_unknown(&self) -> (r: bool) {
        true
    }
}

} // verus!
