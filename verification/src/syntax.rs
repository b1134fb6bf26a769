//! The declarations that the builder reads, as plain values.
//!
//! Every fragment that is only passed through (types, statements, foreign
//! annotations, whole declarations) is held as its token text.

use vstd::prelude::*;
use crate::error::Span;

verus! {

/// A literal inside an annotation.
#[derive(Debug, Clone, PartialEq, Eq)]
pub enum Literal {
    Str(String),
    ByteStr(Vec<u8>),
    Other,
}

/// One argument of a nested tag list such as `selector(..)`.
#[derive(Debug, Clone, PartialEq, Eq)]
pub enum TagArgument {
    /// The wildcard `_`.
    Wildcard,
    Lit(Literal),
    Other,
}

/// The syntactic shape of one tag.
#[derive(Debug, Clone, PartialEq, Eq)]
pub enum TagShape {
    /// A bare path; the name is present when the path is a single identifier.
    Path(Option<String>),
    /// `name = value`.
    NameValue,
    /// `name(arguments)`; the name is present when the path is a single identifier.
    List(Option<String>, Vec<TagArgument>),
    /// A bare literal.
    Literal,
}

/// One tag of an annotation's list, with its location.
#[derive(Debug, Clone, PartialEq, Eq)]
pub struct RawTag {
    pub shape: TagShape,
    pub span: Span,
}

/// What stands behind an annotation's path.
#[derive(Debug, Clone, PartialEq, Eq)]
pub enum RawMeta {
    /// A parenthesised list of tags.
    List(Vec<RawTag>),
    /// Any other well-formed annotation body.
    Other,
    /// A body that is no annotation syntax at all.
    Malformed,
}

/// One annotation on a declaration.
#[derive(Debug, Clone, PartialEq, Eq)]
pub struct RawAttribute {
    /// The annotation's path, when it is a single identifier.
    pub name: Option<String>,
    pub meta: RawMeta,
    /// The annotation as written.
    pub tokens: String,
    pub span: Span,
}

/// The visibility of a declaration.
#[derive(Debug, Clone, Copy, PartialEq, Eq, Structural)]
pub enum RawVisibility {
    Public(Span),
    Crate(Span),
    Restricted(Span),
    Inherited,
}

/// One field of a struct.
#[derive(Debug, Clone, PartialEq, Eq)]
pub struct RawField {
    pub attrs: Vec<RawAttribute>,
    pub vis: RawVisibility,
    pub ident: Option<String>,
    /// The field's type as written.
    pub ty: String,
    /// The whole field as written, its annotations included.
    pub tokens: String,
    pub span: Span,
}

/// A struct declaration.
#[derive(Debug, Clone, PartialEq, Eq)]
pub struct RawStruct {
    pub attrs: Vec<RawAttribute>,
    pub vis: RawVisibility,
    pub ident: String,
    /// The number of generic parameters.
    pub generic_params: usize,
    pub generics_span: Span,
    pub fields: Vec<RawField>,
    /// The whole struct as written, without its annotations.
    pub tokens: String,
    pub span: Span,
}

/// One parameter of a method.
#[derive(Debug, Clone, PartialEq, Eq)]
pub enum RawFnArg {
    /// `self`, `&self` or `&mut self`.
    Receiver { reference: bool, mutable: bool },
    /// A named, typed parameter as written.
    Typed(String),
}

/// A method of an impl block.
#[derive(Debug, Clone, PartialEq, Eq)]
pub struct RawMethod {
    pub attrs: Vec<RawAttribute>,
    pub vis: RawVisibility,
    pub ident: String,
    pub inputs: Vec<RawFnArg>,
    pub inputs_span: Span,
    /// The declared return type as written, if any.
    pub output: Option<String>,
    /// The statements of the body as written.
    pub statements: Vec<String>,
    /// The whole method as written, without its annotations.
    pub tokens: String,
    pub span: Span,
}

/// A member of an impl block that is not a method.
#[derive(Debug, Clone, PartialEq, Eq)]
pub struct RawOtherMember {
    pub attrs: Vec<RawAttribute>,
    /// The whole member as written, without its annotations.
    pub tokens: String,
    pub span: Span,
}

/// A member of an impl block.
#[derive(Debug, Clone, PartialEq, Eq)]
pub enum RawImplMember {
    Method(RawMethod),
    Other(RawOtherMember),
}

/// A path to a trait.
#[derive(Debug, Clone, PartialEq, Eq)]
pub struct RawPath {
    /// Whether the path starts with `::`.
    pub leading_colon: bool,
    /// The identifier of the last segment.
    pub last_ident: String,
    /// The whole path as written; tokens may be separated by whitespace.
    pub tokens: String,
}

/// An impl block.
#[derive(Debug, Clone, PartialEq, Eq)]
pub struct RawImpl {
    pub attrs: Vec<RawAttribute>,
    /// Where `default` stands, if present.
    pub defaultness: Option<Span>,
    /// Where `unsafe` stands, if present.
    pub unsafety: Option<Span>,
    /// The number of generic parameters.
    pub generic_params: usize,
    pub generics_span: Span,
    pub trait_path: Option<RawPath>,
    /// The implementing type as written.
    pub self_ty: String,
    pub items: Vec<RawImplMember>,
    /// The whole block as written, without its annotations.
    pub tokens: String,
    pub span: Span,
}

/// A declaration inside a module.
#[derive(Debug, Clone, PartialEq, Eq)]
pub enum RawItem {
    Struct(RawStruct),
    Impl(RawImpl),
    /// Any other declaration, as written.
    Other(String),
}

/// A module declaration.
#[derive(Debug, Clone, PartialEq, Eq)]
pub struct RawModule {
    pub attrs: Vec<RawAttribute>,
    /// The module's visibility as written.
    pub vis: String,
    pub ident: String,
    /// The declarations inside the braces; absent for `mod name;`.
    pub content: Option<Vec<RawItem>>,
    pub span: Span,
}

} // verus!
