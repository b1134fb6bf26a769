//! The members of an impl block, classified by their first tag.

use vstd::prelude::*;
use crate::attrs::{
    attr_errors, contains_fvm_attributes, first_fvm_from, first_fvm_kind, first_tag_kind,
    fvm_attributes_of, fvm_parts, joined_span, AttributeArgKind, Attrs, FragView,
    FvmAttribute,
};
use crate::error::{single, Diagnostic, Error, ErrorKind};
use crate::item_impl::constructor::Constructor;
use crate::item_impl::message::{callable_of, Message};
use crate::syntax::{RawAttribute, RawImplMember};

verus! {

/// What a member of an impl block is taken for.
#[derive(Debug, Clone, Copy, PartialEq, Eq, Structural)]
pub enum MemberClass {
    /// Passed through unchanged.
    Other,
    Message,
    Constructor,
}

/// The annotations on a member.
pub open spec fn member_attrs(member: RawImplMember) -> Seq<RawAttribute> {
    match member {
        RawImplMember::Method(m) => m.attrs@,
        RawImplMember::Other(o) => o.attrs@,
    }
}

impl Attrs for RawImplMember {
    open spec fn spec_attrs(&self) -> Seq<RawAttribute> {
        member_attrs(*self)
    }

    fn attrs(&self) -> (attrs: &[RawAttribute]) {
        match self {
            RawImplMember::Method(m) => m.attrs.as_slice(),
            RawImplMember::Other(o) => o.attrs.as_slice(),
        }
    }
}

/// One diagnostic for each contract annotation, at the annotation.
pub open spec fn unexpected(parts: Seq<Seq<FragView>>) -> Seq<Diagnostic> {
    Seq::new(
        parts.len(),
        |j: int|
            Diagnostic {
                kind: ErrorKind::UnexpectedAttribute,
                span: joined_span(parts[j], parts[j].len() as int),
            },
    )
}

/// How a member is classified. An untagged member is passed through; a
/// method is a message or a constructor by its first tag, and any other
/// first tag is rejected; a member that is no method may carry no contract
/// annotation at all.
pub open spec fn classify_member(member: RawImplMember) -> Result<MemberClass, Seq<Diagnostic>> {
    match member {
        RawImplMember::Method(m) => match first_tag_kind(m.attrs@) {
            Err(e) => Err(e),
            Ok(None) => Ok(MemberClass::Other),
            Ok(Some(AttributeArgKind::Message)) => Ok(MemberClass::Message),
            Ok(Some(AttributeArgKind::Constructor)) => Ok(MemberClass::Constructor),
            Ok(Some(_)) => Err(single(ErrorKind::InvalidMethodAttribute, m.span)),
        },
        RawImplMember::Other(o) => if first_fvm_from(o.attrs@, 0) is None {
            Ok(MemberClass::Other)
        } else {
            match attr_errors(o.attrs@, o.attrs@.len() as int) {
                Some(e) => Err(e),
                None => Err(unexpected(fvm_parts(o.attrs@))),
            }
        },
    }
}

/// What the builder reports for a member that it rejects.
pub open spec fn impl_item_error(member: RawImplMember) -> Option<Seq<Diagnostic>> {
    match classify_member(member) {
        Err(e) => Some(e),
        Ok(MemberClass::Other) => None,
        Ok(MemberClass::Message) => Message::error_of(member->Method_0),
        Ok(MemberClass::Constructor) => Constructor::error_of(member->Method_0),
    }
}

/// Whether `item` is what the builder makes of an accepted `member`.
pub open spec fn impl_item_of(item: ImplItem, member: RawImplMember) -> bool {
    match item {
        ImplItem::Other(other) => classify_member(member) == Ok::<MemberClass, Seq<Diagnostic>>(
            MemberClass::Other,
        ) && other == member,
        ImplItem::Message(message) => classify_member(member) == Ok::<
            MemberClass,
            Seq<Diagnostic>,
        >(MemberClass::Message) && callable_of(message@, member->Method_0),
        ImplItem::Constructor(constructor) => classify_member(member) == Ok::<
            MemberClass,
            Seq<Diagnostic>,
        >(MemberClass::Constructor) && callable_of(constructor@, member->Method_0),
    }
}

/// A member of a contract impl block.
#[derive(Debug, PartialEq, Eq)]
pub enum ImplItem {
    Constructor(Constructor),
    Message(Message),
    Other(RawImplMember),
}

/// Classifies a member by its first tag.
pub fn classify(member: &RawImplMember) -> (res: Result<MemberClass, Error>)
    ensures
        match res {
            Ok(class) => classify_member(*member) == Ok::<MemberClass, Seq<Diagnostic>>(class),
            Err(e) => classify_member(*member) == Err::<MemberClass, Seq<Diagnostic>>(e@),
        },
{
    match member {
        RawImplMember::Method(m) => match first_fvm_kind(m.attrs.as_slice()) {
            Err(e) => Err(e),
            Ok(None) => Ok(MemberClass::Other),
            Ok(Some(AttributeArgKind::Message)) => Ok(MemberClass::Message),
            Ok(Some(AttributeArgKind::Constructor)) => Ok(MemberClass::Constructor),
            Ok(Some(_)) => Err(Error::new(ErrorKind::InvalidMethodAttribute, m.span)),
        },
        RawImplMember::Other(o) => {
            if !contains_fvm_attributes(o.attrs.as_slice()) {
                return Ok(MemberClass::Other);
            }
            let fvm = match fvm_attributes_of(o.attrs.as_slice()) {
                Ok(fvm) => fvm,
                Err(e) => {
                    return Err(e);
                },
            };
            Err(unexpected_attributes(&fvm))
        },
    }
}

fn unexpected_attributes(fvm: &Vec<FvmAttribute>) -> (err: Error)
    ensures
        err@ == unexpected(crate::attrs::attr_views(fvm@)),
{
    let mut parts: Option<Error> = None;
    let mut i: usize = 0;
    while i < fvm.len()
        invariant
            i <= fvm@.len(),
            match parts {
                Some(e) => i > 0 && e@ == unexpected(crate::attrs::attr_views(fvm@.take(i as int))),
                None => i == 0,
            },
        decreases fvm@.len() - i,
    {
        let part = Error::new(ErrorKind::UnexpectedAttribute, fvm[i].span());
        proof {
            assert(crate::attrs::attr_views(fvm@.take(i + 1))[i as int] == fvm@[i as int]@);
        }
        parts = match parts {
            Some(e) => {
                let joined = e.into_combine(part);
                assert(joined@ =~= unexpected(crate::attrs::attr_views(fvm@.take(i + 1))));
                Some(joined)
            },
            None => {
                assert(part@ =~= unexpected(crate::attrs::attr_views(fvm@.take(i + 1))));
                Some(part)
            },
        };
        i += 1;
    }
    proof {
        assert(fvm@.take(fvm@.len() as int) == fvm@);
    }
    match parts {
        Some(e) => e,
        None => {
            let e = Error::empty();
            assert(e@ =~= unexpected(crate::attrs::attr_views(fvm@)));
            e
        },
    }
}

impl ImplItem {
    /// Builds a member: a message, a constructor, or a member passed through.
    pub fn try_from(member: RawImplMember) -> (res: Result<Self, Error>)
        ensures
            match res {
                Ok(item) => impl_item_error(member) is None && impl_item_of(item, member),
                Err(e) => impl_item_error(member) == Some(e@),
            },
    {
        let class = match classify(&member) {
            Ok(class) => class,
            Err(e) => {
                return Err(e);
            },
        };
        match class {
            MemberClass::Other => Ok(ImplItem::Other(member)),
            MemberClass::Message => match member {
                RawImplMember::Method(method) => match Message::try_from(method) {
                    Ok(message) => Ok(ImplItem::Message(message)),
                    Err(e) => Err(e),
                },
                RawImplMember::Other(_) => Ok(ImplItem::Other(member)),
            },
            MemberClass::Constructor => match member {
                RawImplMember::Method(method) => match Constructor::try_from(method) {
                    Ok(constructor) => Ok(ImplItem::Constructor(constructor)),
                    Err(e) => Err(e),
                },
                RawImplMember::Other(_) => Ok(ImplItem::Other(member)),
            },
        }
    }

    pub fn is_message(&self) -> (yes: bool)
        ensures
            yes == (self is Message),
    {
        self.filter_map_message().is_some()
    }

    pub fn filter_map_message(&self) -> (message: Option<&Message>)
        ensures
            match message {
                Some(m) => *self == ImplItem::Message(*m),
                None => !(self is Message),
            },
    {
        match self {
            ImplItem::Message(message) => Some(message),
            _ => None,
        }
    }

    pub fn is_constructor(&self) -> (yes: bool)
        ensures
            yes == (self is Constructor),
    {
        self.filter_map_constructor().is_some()
    }

    pub fn filter_map_constructor(&self) -> (constructor: Option<&Constructor>)
        ensures
            match constructor {
                Some(c) => *self == ImplItem::Constructor(*c),
                None => !(self is Constructor),
            },
    {
        match self {
            ImplItem::Constructor(constructor) => Some(constructor),
            _ => None,
        }
    }

    pub fn is_other_item(&self) -> (yes: bool)
        ensures
            yes == (self is Other),
    {
        self.filter_map_other_item().is_some()
    }

    pub fn filter_map_other_item(&self) -> (other: Option<&RawImplMember>)
        ensures
            match other {
                Some(o) => *self == ImplItem::Other(*o),
                None => !(self is Other),
            },
    {
        match self {
            ImplItem::Other(other) => Some(other),
            _ => None,
        }
    }
}

} // verus!
