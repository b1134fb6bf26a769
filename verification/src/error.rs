//! Source locations and the diagnostics that every validation step reports.

use vstd::prelude::*;

verus! {

/// A half-open range of source positions.
#[derive(Debug, Clone, Copy, PartialEq, Eq, Structural, Hash)]
pub struct Span {
    pub lo: u32,
    pub hi: u32,
}

impl Span {
    /// The smallest range that covers both `self` and `other`.
    pub open spec fn spec_join(self, other: Span) -> Span {
        Span {
            lo: if self.lo <= other.lo { self.lo } else { other.lo },
            hi: if self.hi >= other.hi { self.hi } else { other.hi },
        }
    }

    pub fn new(lo: u32, hi: u32) -> (span: Span)
        ensures
            span == (Span { lo, hi }),
    {
        Span { lo, hi }
    }

    pub fn join(self, other: Span) -> (span: Span)
        ensures
            span == self.spec_join(other),
    {
        Span {
            lo: if self.lo <= other.lo { self.lo } else { other.lo },
            hi: if self.hi >= other.hi { self.hi } else { other.hi },
        }
    }
}

/// Every way in which a declaration can be rejected.
#[derive(Debug, Clone, Copy, PartialEq, Eq, Structural, Hash)]
pub enum ErrorKind {
    /// An annotation outside the contract vocabulary was given where a contract annotation was required.
    NonFvmAttribute,
    /// The annotation's body is no annotation syntax.
    AttributeStructure,
    /// The annotation is not a parenthesised tag list.
    UnknownAttribute,
    /// The annotation's tag list is empty.
    EmptyAttribute,
    /// A tag was written as `name = value`.
    NameValueArgument,
    /// A tag is a path of more than one segment.
    UnknownPath,
    /// A tag name outside the closed vocabulary.
    UnknownArgument,
    /// A nested list that is neither a well-formed `selector(..)` nor `namespace(..)`.
    ListArgument,
    /// A bare literal where a tag was expected.
    LiteralArgument,
    /// No tags were left after merging the annotations of a declaration.
    EmptyExpansion,
    /// A tag that the declaration's kind does not admit.
    ConflictingArgument,
    /// The first tag is not the one that the declaration's kind requires.
    UnexpectedFirstArgument,
    /// Added to name the declaration at which another diagnostic arose.
    AtThisInvocation,
    /// A state struct with generic parameters.
    GenericState,
    /// An event struct with generic parameters.
    GenericEvent,
    /// A module without a body.
    OutOfLineModule,
    /// An impl block with no contract annotation on itself or its methods.
    MissingAnnotations,
    /// An impl block marked `default`.
    DefaultImpl,
    /// An impl block marked `unsafe`.
    UnsafeImpl,
    /// An impl block with generic parameters.
    GenericImpl,
    /// A namespace on a trait impl block.
    NamespaceOnTraitImpl,
    /// A method whose first tag is neither `message` nor `constructor`.
    InvalidMethodAttribute,
    /// A contract annotation on an impl member that is not a method.
    UnexpectedAttribute,
    /// A module without a state struct.
    MissingState,
    /// A module with more than one state struct.
    MultipleStates,
    /// A declaration that must be `pub` and is not.
    NonPubVisibility,
    /// A selector input that is neither a string nor a byte string literal.
    InvalidSelectorInput,
}

impl ErrorKind {
    /// The text that a diagnostic of this kind carries.
    pub open spec fn spec_message(self) -> Seq<char> {
        match self {
            ErrorKind::NonFvmAttribute => "unexpected non-fvm attribute"@,
            ErrorKind::AttributeStructure => "unexpected fvm attribute structure"@,
            ErrorKind::UnknownAttribute => "unknown fvm attribute"@,
            ErrorKind::EmptyAttribute => "encountered unsupported empty fvm attribute"@,
            ErrorKind::NameValueArgument => "unknown fvm attribute argument (name = value)"@,
            ErrorKind::UnknownPath => "unknown fvm attribute (path)"@,
            ErrorKind::UnknownArgument => "unknown fvm attribute argument (path)"@,
            ErrorKind::ListArgument => "unknown fvm attribute argument (list)"@,
            ErrorKind::LiteralArgument => "unknown fvm attribute argument (literal)"@,
            ErrorKind::EmptyExpansion => "encountered unexpected empty expanded fvm attribute arguments"@,
            ErrorKind::ConflictingArgument => "encountered conflicting fvm attribute argument"@,
            ErrorKind::UnexpectedFirstArgument => "unexpected first fvm attribute argument"@,
            ErrorKind::AtThisInvocation => "at this invocation"@,
            ErrorKind::GenericState => "generic fvm state structs are not supported"@,
            ErrorKind::GenericEvent => "generic fvm event structs are not supported"@,
            ErrorKind::OutOfLineModule => "out-of-line fvm modules are not supported, use `#[fvm_macro::contract] mod name { ... }`"@,
            ErrorKind::MissingAnnotations => "missing fvm annotations on implementation block or on any of its items"@,
            ErrorKind::DefaultImpl => "default implementations are unsupported for fvm implementation blocks"@,
            ErrorKind::UnsafeImpl => "unsafe fvm implementation blocks are not supported"@,
            ErrorKind::GenericImpl => "generic fvm implementation blocks are not supported"@,
            ErrorKind::NamespaceOnTraitImpl => "namespace fvm property is not allowed on fvm trait implementation blocks"@,
            ErrorKind::InvalidMethodAttribute => "encountered invalid fvm attribute at this point, expected either #[fvm_macro(message)] or #[fvm_macro(constructor)] attributes"@,
            ErrorKind::UnexpectedAttribute => "encountered unexpected fvm attribute"@,
            ErrorKind::MissingState => "encountered fvm module without a storage struct"@,
            ErrorKind::MultipleStates => "encountered multiple storage structs in fvm module"@,
            ErrorKind::NonPubVisibility => "non `pub` fvm items are not supported"@,
            ErrorKind::InvalidSelectorInput => "expected string or byte string literal as input"@,
        }
    }

    pub fn message(self) -> (text: &'static str)
        ensures
            text@ == self.spec_message(),
    {
        match self {
            ErrorKind::NonFvmAttribute => "unexpected non-fvm attribute",
            ErrorKind::AttributeStructure => "unexpected fvm attribute structure",
            ErrorKind::UnknownAttribute => "unknown fvm attribute",
            ErrorKind::EmptyAttribute => "encountered unsupported empty fvm attribute",
            ErrorKind::NameValueArgument => "unknown fvm attribute argument (name = value)",
            ErrorKind::UnknownPath => "unknown fvm attribute (path)",
            ErrorKind::UnknownArgument => "unknown fvm attribute argument (path)",
            ErrorKind::ListArgument => "unknown fvm attribute argument (list)",
            ErrorKind::LiteralArgument => "unknown fvm attribute argument (literal)",
            ErrorKind::EmptyExpansion => "encountered unexpected empty expanded fvm attribute arguments",
            ErrorKind::ConflictingArgument => "encountered conflicting fvm attribute argument",
            ErrorKind::UnexpectedFirstArgument => "unexpected first fvm attribute argument",
            ErrorKind::AtThisInvocation => "at this invocation",
            ErrorKind::GenericState => "generic fvm state structs are not supported",
            ErrorKind::GenericEvent => "generic fvm event structs are not supported",
            ErrorKind::OutOfLineModule => "out-of-line fvm modules are not supported, use `#[fvm_macro::contract] mod name { ... }`",
            ErrorKind::MissingAnnotations => "missing fvm annotations on implementation block or on any of its items",
            ErrorKind::DefaultImpl => "default implementations are unsupported for fvm implementation blocks",
            ErrorKind::UnsafeImpl => "unsafe fvm implementation blocks are not supported",
            ErrorKind::GenericImpl => "generic fvm implementation blocks are not supported",
            ErrorKind::NamespaceOnTraitImpl => "namespace fvm property is not allowed on fvm trait implementation blocks",
            ErrorKind::InvalidMethodAttribute => "encountered invalid fvm attribute at this point, expected either #[fvm_macro(message)] or #[fvm_macro(constructor)] attributes",
            ErrorKind::UnexpectedAttribute => "encountered unexpected fvm attribute",
            ErrorKind::MissingState => "encountered fvm module without a storage struct",
            ErrorKind::MultipleStates => "encountered multiple storage structs in fvm module",
            ErrorKind::NonPubVisibility => "non `pub` fvm items are not supported",
            ErrorKind::InvalidSelectorInput => "expected string or byte string literal as input",
        }
    }
}

/// One located complaint.
#[derive(Debug, Clone, Copy, PartialEq, Eq, Structural, Hash)]
pub struct Diagnostic {
    pub kind: ErrorKind,
    pub span: Span,
}

/// A list of diagnostics, reported together.
#[derive(Debug, Clone, PartialEq, Eq)]
pub struct Error {
    parts: Vec<Diagnostic>,
}

impl View for Error {
    type V = Seq<Diagnostic>;

    closed spec fn view(&self) -> Seq<Diagnostic> {
        self.parts@
    }
}

/// Two optional diagnostic lists as one: absent where both are, else what is
/// present, the first before the second.
pub open spec fn collect(first: Option<Seq<Diagnostic>>, second: Option<Seq<Diagnostic>>) -> Option<
    Seq<Diagnostic>,
> {
    match (first, second) {
        (None, None) => None,
        (Some(a), None) => Some(a),
        (None, Some(b)) => Some(b),
        (Some(a), Some(b)) => Some(a + b),
    }
}

/// The diagnostic list that holds `kind` at `span` and nothing else.
pub open spec fn single(kind: ErrorKind, span: Span) -> Seq<Diagnostic> {
    seq![Diagnostic { kind, span }]
}

impl Error {
    pub fn new(kind: ErrorKind, span: Span) -> (err: Error)
        ensures
            err@ == single(kind, span),
    {
        let mut parts: Vec<Diagnostic> = Vec::new();
        parts.push(Diagnostic { kind, span });
        let err = Error { parts };
        assert(err@ =~= single(kind, span));
        err
    }

    /// The error without any diagnostic.
    pub fn empty() -> (err: Error)
        ensures
            err@ == Seq::<Diagnostic>::empty(),
    {
        Error { parts: Vec::new() }
    }

    /// Appends the diagnostics of `other` after those of `self`.
    pub fn combine(&mut self, other: Error)
        ensures
            final(self)@ == old(self)@ + other@,
    {
        let mut other = other;
        self.parts.append(&mut other.parts);
    }

    /// Adds `next` to what has been collected so far.
    pub fn collect(so_far: Option<Error>, next: Error) -> (all: Error)
        ensures
            all@ == match so_far {
                Some(e) => e@ + next@,
                None => next@,
            },
    {
        match so_far {
            Some(e) => e.into_combine(next),
            None => next,
        }
    }

    /// `self` followed by `other`, as one error.
    pub fn into_combine(self, other: Error) -> (err: Error)
        ensures
            err@ == self@ + other@,
    {
        let mut err = self;
        err.combine(other);
        err
    }

    /// The number of diagnostics held.
    pub fn len(&self) -> (n: usize)
        ensures
            n == self@.len(),
    {
        self.parts.len()
    }

    /// The diagnostic at position `i`.
    pub fn part(&self, i: usize) -> (d: Diagnostic)
        requires
            i < self@.len(),
        ensures
            d == self@[i as int],
    {
        self.parts[i]
    }

    /// The kind of the first diagnostic.
    pub fn kind(&self) -> (k: Option<ErrorKind>)
        ensures
            k == (if self@.len() > 0 { Some(self@[0].kind) } else { None }),
    {
        if self.parts.len() > 0 {
            Some(self.parts[0].kind)
        } else {
            None
        }
    }
}

} // verus!
