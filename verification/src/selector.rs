//! Four-byte selectors derived from a 256-bit digest.

use vstd::prelude::*;
use vstd::string::*;
use blake2::Digest;
use crate::error::{Error, ErrorKind, Span};
use crate::syntax::Literal;

verus! {

/// The BLAKE2b digest of 32 bytes of `input`, as the `blake2` crate computes it.
pub uninterp spec fn blake2b_256_digest(input: Seq<u8>) -> Seq<u8>;

/// Calls `Blake2b::<U32>::digest` of the `blake2` crate. The contract names
/// the 32 bytes that come back; they depend on the input bytes alone.
#[verifier::external_body]
fn blake2b_256(input: &[u8]) -> (output: [u8; 32])
    ensures
        output@ == blake2b_256_digest(input@),
{
    blake2::Blake2b::<blake2::digest::consts::U32>::digest(input).into()
}

/// The separator `::` between the parts of a composed selector input.
pub open spec fn separator() -> Seq<u8> {
    seq![0x3au8, 0x3au8]
}

/// The bytes that are hashed for a member `name` under an optional prefix:
/// the non-empty parts joined by `::`.
pub open spec fn joined_input(namespace: Seq<u8>, trait_tail: Option<Seq<u8>>, name: Seq<u8>) -> Seq<u8> {
    let tail = match trait_tail {
        Some(t) => t + separator() + name,
        None => name,
    };
    if namespace.len() == 0 {
        tail
    } else {
        namespace + separator() + tail
    }
}

/// The first four bytes of the digest of `input`.
pub open spec fn selector_of(input: Seq<u8>) -> Seq<u8> {
    blake2b_256_digest(input).take(4)
}

/// A four-byte identifier of a callable.
#[derive(Debug, Clone, Copy, PartialEq, Eq, PartialOrd, Ord, Hash)]
pub struct Selector {
    bytes: [u8; 4],
}

impl View for Selector {
    type V = Seq<u8>;

    closed spec fn view(&self) -> Seq<u8> {
        self.bytes@
    }
}

/// The selector under which a callable is known: the wildcard, the bytes
/// that the user gave, or the bytes derived from its name by hashing.
#[derive(Debug, Clone, Copy, PartialEq, Eq)]
pub enum ComposedSelector {
    Wildcard,
    UserProvided(Selector),
    Derived(Selector),
}

/// What a `ComposedSelector` stands for.
pub enum ComposedView {
    Wildcard,
    UserProvided(Seq<u8>),
    Derived(Seq<u8>),
}

impl View for ComposedSelector {
    type V = ComposedView;

    open spec fn view(&self) -> ComposedView {
        match self {
            ComposedSelector::Wildcard => ComposedView::Wildcard,
            ComposedSelector::UserProvided(s) => ComposedView::UserProvided(s@),
            ComposedSelector::Derived(s) => ComposedView::Derived(s@),
        }
    }
}

impl ComposedSelector {
    /// The four bytes, unless this is the wildcard.
    pub fn selector(&self) -> (selector: Option<Selector>)
        ensures
            match selector {
                Some(s) => self@ == ComposedView::UserProvided(s@) || self@
                    == ComposedView::Derived(s@),
                None => self@ == ComposedView::Wildcard,
            },
    {
        match self {
            ComposedSelector::Wildcard => None,
            ComposedSelector::UserProvided(s) => Some(*s),
            ComposedSelector::Derived(s) => Some(*s),
        }
    }

    /// Whether the bytes were derived by hashing.
    pub fn is_derived(&self) -> (yes: bool)
        ensures
            yes == (self@ is Derived),
    {
        match self {
            ComposedSelector::Derived(_) => true,
            _ => false,
        }
    }
}

/// Whether a byte is ASCII whitespace.
pub open spec fn is_space(b: u8) -> bool {
    b == 0x20 || (0x09 <= b && b <= 0x0d)
}

/// The bytes of `text` that are not ASCII whitespace, in order.
pub open spec fn without_whitespace(text: Seq<u8>) -> Seq<u8>
    decreases text.len(),
{
    if text.len() == 0 {
        Seq::empty()
    } else if is_space(text.last()) {
        without_whitespace(text.drop_last())
    } else {
        without_whitespace(text.drop_last()).push(text.last())
    }
}

/// Copies `text` without its ASCII whitespace.
pub fn strip_whitespace(text: &[u8]) -> (stripped: Vec<u8>)
    ensures
        stripped@ == without_whitespace(text@),
{
    let mut stripped: Vec<u8> = Vec::new();
    let mut i: usize = 0;
    while i < text.len()
        invariant
            i <= text@.len(),
            stripped@ == without_whitespace(text@.take(i as int)),
        decreases text@.len() - i,
    {
        proof {
            assert(text@.take(i + 1).drop_last() == text@.take(i as int));
        }
        let b = text[i];
        if !(b == 0x20 || (0x09 <= b && b <= 0x0d)) {
            stripped.push(b);
        }
        i += 1;
    }
    proof {
        assert(text@.take(text@.len() as int) == text@);
    }
    stripped
}

/// A trait identifier with an optional namespace in front of it.
#[derive(Debug, Clone, Copy)]
pub struct TraitPrefix<'a> {
    namespace: Option<&'a str>,
    trait_ident: &'a str,
}

impl<'a> TraitPrefix<'a> {
    pub closed spec fn spec_namespace(&self) -> Option<Seq<char>> {
        match self.namespace {
            Some(n) => Some(n@),
            None => None,
        }
    }

    pub closed spec fn spec_trait_ident(&self) -> Seq<char> {
        self.trait_ident@
    }

    /// The bytes of the namespace, empty when there is none.
    pub open spec fn spec_namespace_bytes(&self) -> Seq<u8> {
        match self.spec_namespace() {
            Some(n) => vstd::utf8::encode_utf8(n),
            None => Seq::empty(),
        }
    }

    pub fn new(trait_ident: &'a str, namespace: Option<&'a str>) -> (prefix: Self)
        ensures
            prefix.spec_trait_ident() == trait_ident@,
            prefix.spec_namespace() == match namespace {
                Some(n) => Some(n@),
                None => None,
            },
    {
        Self { namespace, trait_ident }
    }

    pub fn namespace_bytes(&self) -> (bytes: Vec<u8>)
        ensures
            bytes@ == self.spec_namespace_bytes(),
    {
        match self.namespace {
            Some(n) => n.as_bytes_vec(),
            None => Vec::new(),
        }
    }

    pub fn trait_ident(&self) -> (ident: &'a str)
        ensures
            ident@ == self.spec_trait_ident(),
    {
        self.trait_ident
    }
}

/// Appends the bytes of `part` to `buf`.
pub fn extend_bytes(buf: &mut Vec<u8>, part: &[u8])
    ensures
        final(buf)@ == old(buf)@ + part@,
{
    let ghost start = buf@;
    let mut i: usize = 0;
    while i < part.len()
        invariant
            i <= part@.len(),
            buf@ == start + part@.take(i as int),
        decreases part@.len() - i,
    {
        buf.push(part[i]);
        i += 1;
        assert(part@.take(i as int) == part@.take(i - 1).push(part@[i - 1]));
    }
    assert(part@.take(i as int) == part@);
}

/// Joins the non-empty prefix parts and `name` with `::`.
pub fn join_input(namespace: &[u8], trait_tail: Option<&[u8]>, name: &[u8]) -> (input: Vec<u8>)
    ensures
        input@ == joined_input(
            namespace@,
            match trait_tail {
                Some(t) => Some(t@),
                None => None,
            },
            name@,
        ),
{
    let mut input: Vec<u8> = Vec::new();
    if namespace.len() != 0 {
        extend_bytes(&mut input, namespace);
        input.push(0x3au8);
        input.push(0x3au8);
        assert(input@ == namespace@ + separator());
    }
    if let Some(tail) = trait_tail {
        extend_bytes(&mut input, tail);
        input.push(0x3au8);
        input.push(0x3au8);
    }
    extend_bytes(&mut input, name);
    input
}

impl Selector {
    /// The selector that holds the first four bytes of `digest`.
    pub fn from_digest(digest: &[u8; 32]) -> (selector: Self)
        ensures
            selector@ == digest@.take(4),
    {
        let selector = Self { bytes: [digest[0], digest[1], digest[2], digest[3]] };
        assert(selector@ =~= digest@.take(4));
        selector
    }

    /// Hashes `input` and keeps the first four bytes of the digest.
    pub fn compute(input: &[u8]) -> (selector: Self)
        ensures
            selector@ == selector_of(input@),
    {
        let output = blake2b_256(input);
        Self::from_digest(&output)
    }

    /// The selector of `fn_ident`, prefixed by the trait identifier and its
    /// namespace where a prefix is given.
    pub fn compose(trait_prefix: Option<TraitPrefix<'_>>, fn_ident: &str) -> (selector: Self)
        ensures
            selector@ == selector_of(
                match trait_prefix {
                    Some(p) => joined_input(
                        p.spec_namespace_bytes(),
                        Some(vstd::utf8::encode_utf8(p.spec_trait_ident())),
                        vstd::utf8::encode_utf8(fn_ident@),
                    ),
                    None => vstd::utf8::encode_utf8(fn_ident@),
                },
            ),
    {
        let name = fn_ident.as_bytes_vec();
        let input = match trait_prefix {
            Some(prefix) => {
                let namespace = prefix.namespace_bytes();
                let ident = prefix.trait_ident().as_bytes_vec();
                join_input(namespace.as_slice(), Some(ident.as_slice()), name.as_slice())
            },
            None => name,
        };
        Self::compute(input.as_slice())
    }

    pub fn to_bytes(&self) -> (bytes: [u8; 4])
        ensures
            bytes@ == self@,
    {
        self.bytes
    }

    /// The four bytes read as one big-endian number.
    pub open spec fn spec_be_u32(bytes: Seq<u8>) -> int
        recommends
            bytes.len() == 4,
    {
        bytes[0] * 0x100_0000 + bytes[1] * 0x1_0000 + bytes[2] * 0x100 + bytes[3]
    }

    pub fn into_be_u32(self) -> (value: u32)
        ensures
            value == Self::spec_be_u32(self@),
    {
        let b0: u32 = self.bytes[0] as u32;
        let b1: u32 = self.bytes[1] as u32;
        let b2: u32 = self.bytes[2] as u32;
        let b3: u32 = self.bytes[3] as u32;
        b0 * 0x100_0000 + b1 * 0x1_0000 + b2 * 0x100 + b3
    }

    /// The selector made of exactly these bytes.
    pub fn from_bytes(bytes: [u8; 4]) -> (selector: Self)
        ensures
            selector@ == bytes@,
    {
        Self { bytes }
    }
}

/// Marks a selector macro that yields the selector as a number.
#[derive(Debug, Clone, Copy, PartialEq, Eq)]
pub enum SelectorId {
    Id,
}

/// Marks a selector macro that yields the selector's bytes.
#[derive(Debug, Clone, Copy, PartialEq, Eq)]
pub enum SelectorBytes {
    Bytes,
}

/// The bytes that a selector literal stands for, if it is a string or byte string.
pub open spec fn literal_bytes(lit: Literal) -> Option<Seq<u8>> {
    match lit {
        Literal::Str(s) => Some(vstd::utf8::encode_utf8(s@)),
        Literal::ByteStr(b) => Some(b@),
        Literal::Other => None,
    }
}

/// A selector computed from a literal, together with that literal.
#[derive(Debug)]
pub struct SelectorMacro {
    selector: Selector,
    input: Literal,
}

impl SelectorMacro {
    pub closed spec fn spec_selector(&self) -> Selector {
        self.selector
    }

    pub closed spec fn spec_input(&self) -> Literal {
        self.input
    }

    /// Accepts a string or byte string literal found at `span` and hashes its bytes.
    pub fn try_from(input: Literal, span: Span) -> (res: Result<Self, Error>)
        ensures
            match res {
                Ok(m) => literal_bytes(input) is Some && m.spec_input() == input
                    && m.spec_selector()@ == selector_of(literal_bytes(input).unwrap()),
                Err(e) => literal_bytes(input) is None && e@ == crate::error::single(
                    ErrorKind::InvalidSelectorInput,
                    span,
                ),
            },
    {
        let selector = match &input {
            Literal::Str(s) => {
                let bytes = s.as_str().as_bytes_vec();
                Selector::compute(bytes.as_slice())
            },
            Literal::ByteStr(b) => Selector::compute(b.as_slice()),
            Literal::Other => {
                return Err(Error::new(ErrorKind::InvalidSelectorInput, span));
            },
        };
        Ok(Self { selector, input })
    }

    pub fn selector(&self) -> (selector: Selector)
        ensures
            selector == self.spec_selector(),
    {
        self.selector
    }

    pub fn input(&self) -> (input: &Literal)
        ensures
            *input == self.spec_input(),
    {
        &self.input
    }
}

} // verus!
