//! Impl blocks and their members.

pub mod callable;
pub mod message;
pub mod constructor;
pub mod impl_item;
pub mod iter;

use vstd::prelude::*;
use crate::attrs::{
    attr_errors, conflicts, contains_fvm_attributes, first_fvm_from, first_fvm_kind,
    first_tag_kind, fvm_attributes_of, fvm_parts, kind_of, merged_tags,
    namespace_from, other_parts, partition_attributes, AttributeArgKind, Attrs, FvmAttribute,
    Namespace,
};
use crate::error::{collect, single, Diagnostic, Error, ErrorKind, Span};
use crate::item_impl::impl_item::{impl_item_error, impl_item_of, member_attrs, ImplItem};
use crate::item_impl::iter::{IterConstructors, IterMessages};
use crate::syntax::{RawAttribute, RawImpl, RawImplMember, RawPath};

verus! {

/// What an impl block of the contract stands for.
pub struct ItemImplView {
    /// The annotations outside the contract vocabulary.
    pub attrs: Seq<RawAttribute>,
    pub trait_path: Option<RawPath>,
    pub self_ty: String,
    pub items: Seq<ImplItem>,
    pub namespace: Option<Seq<u8>>,
    pub span: Span,
}

/// An impl block that holds constructors or messages, or is tagged `impl`.
#[derive(Debug, PartialEq, Eq)]
pub struct ItemImpl {
    attrs: Vec<RawAttribute>,
    trait_path: Option<RawPath>,
    self_ty: String,
    items: Vec<ImplItem>,
    namespace: Option<Namespace>,
    span: Span,
}

impl View for ItemImpl {
    type V = ItemImplView;

    closed spec fn view(&self) -> ItemImplView {
        ItemImplView {
            attrs: self.attrs@,
            trait_path: self.trait_path,
            self_ty: self.self_ty,
            items: self.items@,
            namespace: match self.namespace {
                Some(n) => Some(n@),
                None => None,
            },
            span: self.span,
        }
    }
}

/// The kinds of tag that an impl block admits.
pub open spec fn impl_kinds() -> Seq<AttributeArgKind> {
    seq![AttributeArgKind::Implementation, AttributeArgKind::Namespace]
}

/// Whether any member carries a contract annotation.
pub open spec fn any_member_tagged(items: Seq<RawImplMember>) -> bool {
    exists|i: int| 0 <= i < items.len() && first_fvm_from(member_attrs(#[trigger] items[i]), 0) is Some
}

/// Looks, from `from` on, for a method whose first tag is `constructor` or
/// `message`; stops at a method whose first contract annotation does not parse.
pub open spec fn scan_methods(items: Seq<RawImplMember>, from: int) -> Result<bool, Seq<Diagnostic>>
    decreases items.len() - from,
{
    if from < 0 || from >= items.len() {
        Ok(false)
    } else {
        match items[from] {
            RawImplMember::Method(m) => match first_tag_kind(m.attrs@) {
                Err(e) => Err(e),
                Ok(Some(AttributeArgKind::Constructor)) => Ok(true),
                Ok(Some(AttributeArgKind::Message)) => Ok(true),
                Ok(_) => scan_methods(items, from + 1),
            },
            RawImplMember::Other(_) => scan_methods(items, from + 1),
        }
    }
}

/// What merging the contract annotations of a block reports, if it fails.
pub open spec fn expansion_error(raw: RawImpl) -> Option<Seq<Diagnostic>> {
    if fvm_parts(raw.attrs@).len() > 0 && merged_tags(raw.attrs@).len() == 0 {
        Some(
            single(ErrorKind::EmptyExpansion, Span { lo: 0, hi: 0 }) + single(
                ErrorKind::AtThisInvocation,
                raw.span,
            ),
        )
    } else {
        None
    }
}

/// Whether an impl block belongs to the contract: its own first tag is
/// `impl`, or the first tag of one of its methods is `constructor` or
/// `message`. A block without any contract annotation does not.
pub open spec fn relevance(raw: RawImpl) -> Result<bool, Seq<Diagnostic>> {
    if first_fvm_from(raw.attrs@, 0) is None && !any_member_tagged(raw.items@) {
        Ok(false)
    } else {
        match attr_errors(raw.attrs@, raw.attrs@.len() as int) {
            Some(e) => Err(e),
            None => match expansion_error(raw) {
                Some(e) => Err(e),
                None => if merged_tags(raw.attrs@).len() > 0 && kind_of(
                    merged_tags(raw.attrs@)[0].arg,
                ) == AttributeArgKind::Implementation {
                    Ok(true)
                } else {
                    scan_methods(raw.items@, 0)
                },
            },
        }
    }
}

/// The diagnostics of all rejected members among the first `n`, in order;
/// none where no member is rejected.
pub open spec fn member_errors(items: Seq<RawImplMember>, n: int) -> Option<Seq<Diagnostic>>
    decreases n,
{
    if n <= 0 {
        None
    } else {
        collect(member_errors(items, n - 1), impl_item_error(items[n - 1]))
    }
}

/// Whether `items` are what the builder makes of the accepted `members`, one for one.
pub open spec fn items_of(items: Seq<ImplItem>, members: Seq<RawImplMember>) -> bool {
    &&& items.len() == members.len()
    &&& forall|i: int| 0 <= i < items.len() ==> impl_item_of(#[trigger] items[i], members[i])
}

/// What the builder reports for an impl block that it rejects.
pub open spec fn impl_error(raw: RawImpl) -> Option<Seq<Diagnostic>> {
    let merged = merged_tags(raw.attrs@);
    match relevance(raw) {
        Err(e) => Some(e),
        Ok(false) => Some(single(ErrorKind::MissingAnnotations, raw.span)),
        Ok(true) => if raw.defaultness is Some {
            Some(single(ErrorKind::DefaultImpl, raw.defaultness->Some_0))
        } else if raw.unsafety is Some {
            Some(single(ErrorKind::UnsafeImpl, raw.unsafety->Some_0))
        } else if raw.generic_params != 0 {
            Some(single(ErrorKind::GenericImpl, raw.generics_span))
        } else {
            match member_errors(raw.items@, raw.items@.len() as int) {
                Some(e) => Some(e),
                None => match attr_errors(raw.attrs@, raw.attrs@.len() as int) {
                    Some(e) => Some(e),
                    None => if expansion_error(raw) is Some {
                        expansion_error(raw)
                    } else if conflicts(merged, impl_kinds(), merged.len() as int).len() > 0 {
                        Some(conflicts(merged, impl_kinds(), merged.len() as int))
                    } else if namespace_from(merged, 0) is Some && raw.trait_path is Some {
                        Some(single(ErrorKind::NamespaceOnTraitImpl, raw.span))
                    } else {
                        None
                    },
                },
            }
        },
    }
}

/// Whether `block` is what the builder makes of an accepted `raw`.
pub open spec fn impl_of(block: ItemImplView, raw: RawImpl) -> bool {
    &&& block.attrs == other_parts(raw.attrs@)
    &&& block.trait_path == raw.trait_path
    &&& block.self_ty == raw.self_ty
    &&& block.span == raw.span
    &&& block.namespace == namespace_from(merged_tags(raw.attrs@), 0)
    &&& items_of(block.items, raw.items@)
}

fn has_tagged_member(items: &[RawImplMember]) -> (found: bool)
    ensures
        found == any_member_tagged(items@),
{
    let mut i: usize = 0;
    while i < items.len()
        invariant
            i <= items@.len(),
            forall|j: int| 0 <= j < i ==> first_fvm_from(member_attrs(#[trigger] items@[j]), 0) is None,
        decreases items@.len() - i,
    {
        if contains_fvm_attributes(items[i].attrs()) {
            return true;
        }
        i += 1;
    }
    false
}

fn find_tagged_method(items: &[RawImplMember]) -> (res: Result<bool, Error>)
    ensures
        match res {
            Ok(found) => scan_methods(items@, 0) == Ok::<bool, Seq<Diagnostic>>(found),
            Err(e) => scan_methods(items@, 0) == Err::<bool, Seq<Diagnostic>>(e@),
        },
{
    let mut i: usize = 0;
    while i < items.len()
        invariant
            i <= items@.len(),
            scan_methods(items@, 0) == scan_methods(items@, i as int),
        decreases items@.len() - i,
    {
        if let RawImplMember::Method(m) = &items[i] {
            match first_fvm_kind(m.attrs.as_slice()) {
                Err(e) => {
                    return Err(e);
                },
                Ok(Some(AttributeArgKind::Constructor)) => {
                    return Ok(true);
                },
                Ok(Some(AttributeArgKind::Message)) => {
                    return Ok(true);
                },
                Ok(_) => {},
            }
        }
        i += 1;
    }
    Ok(false)
}

fn build_items(members: Vec<RawImplMember>) -> (res: Result<Vec<ImplItem>, Error>)
    ensures
        match res {
            Ok(items) => member_errors(members@, members@.len() as int) is None && items_of(
                items@,
                members@,
            ),
            Err(e) => member_errors(members@, members@.len() as int) == Some(e@),
        },
{
    let mut items: Vec<ImplItem> = Vec::new();
    let mut err: Option<Error> = None;
    let ghost all = members@;
    for member in it: members
        invariant
            it.seq() == all,
            all == members@,
            match err {
                None => member_errors(all, it.index() as int) is None && items_of(
                    items@,
                    all.take(it.index() as int),
                ),
                Some(e) => member_errors(all, it.index() as int) == Some(e@),
            },
    {
        proof {
            assert(member == all[it.index() as int]);
        }
        match ImplItem::try_from(member) {
            Ok(item) => {
                if err.is_none() {
                    items.push(item);
                }
            },
            Err(e) => {
                err = Some(Error::collect(err, e));
            },
        }
    }
    proof {
        assert(all.take(all.len() as int) == all);
    }
    match err {
        Some(e) => Err(e),
        None => Ok(items),
    }
}

impl ItemImpl {
    /// Decides whether an impl block belongs to the contract.
    pub fn is_fvm_impl_block(item_impl: &RawImpl) -> (res: Result<bool, Error>)
        ensures
            match res {
                Ok(relevant) => relevance(*item_impl) == Ok::<bool, Seq<Diagnostic>>(relevant),
                Err(e) => relevance(*item_impl) == Err::<bool, Seq<Diagnostic>>(e@),
            },
    {
        if !contains_fvm_attributes(item_impl.attrs.as_slice()) && !has_tagged_member(
            item_impl.items.as_slice(),
        ) {
            return Ok(false);
        }
        let fvm_attrs = match fvm_attributes_of(item_impl.attrs.as_slice()) {
            Ok(fvm_attrs) => fvm_attrs,
            Err(e) => {
                return Err(e);
            },
        };
        if fvm_attrs.len() > 0 {
            let normalized = match FvmAttribute::from_expanded(fvm_attrs) {
                Ok(normalized) => normalized,
                Err(e) => {
                    return Err(
                        e.into_combine(Error::new(ErrorKind::AtThisInvocation, item_impl.span)),
                    );
                },
            };
            if normalized.ensure_first(&AttributeArgKind::Implementation).is_ok() {
                return Ok(true);
            }
        } else {
            assert(merged_tags(item_impl.attrs@).len() == 0);
        }
        find_tagged_method(item_impl.items.as_slice())
    }

    /// Builds the impl block of a contract. Rejected are: a block that does
    /// not belong to the contract, `default` and `unsafe` blocks, generic
    /// parameters, any member that is rejected, tags other than `impl` and
    /// `namespace(..)`, and a namespace on a trait impl. The rejected members
    /// are reported together.
    pub fn try_from(item_impl: RawImpl) -> (res: Result<Self, Error>)
        ensures
            match res {
                Ok(block) => impl_error(item_impl) is None && impl_of(block@, item_impl),
                Err(e) => impl_error(item_impl) == Some(e@),
            },
    {
        match Self::is_fvm_impl_block(&item_impl) {
            Err(e) => {
                return Err(e);
            },
            Ok(false) => {
                return Err(Error::new(ErrorKind::MissingAnnotations, item_impl.span));
            },
            Ok(true) => {},
        }
        if let Some(defaultness) = item_impl.defaultness {
            return Err(Error::new(ErrorKind::DefaultImpl, defaultness));
        }
        if let Some(unsafety) = item_impl.unsafety {
            return Err(Error::new(ErrorKind::UnsafeImpl, unsafety));
        }
        if item_impl.generic_params != 0 {
            return Err(Error::new(ErrorKind::GenericImpl, item_impl.generics_span));
        }
        let RawImpl {
            attrs,
            defaultness: _,
            unsafety: _,
            generic_params: _,
            generics_span: _,
            trait_path,
            self_ty,
            items,
            tokens: _,
            span,
        } = item_impl;
        let impl_items = match build_items(items) {
            Ok(impl_items) => impl_items,
            Err(e) => {
                return Err(e);
            },
        };
        let is_trait_impl = trait_path.is_some();
        let (fvm_attrs, other_attrs) = match partition_attributes(attrs) {
            Ok(parts) => parts,
            Err(e) => {
                return Err(e);
            },
        };
        let mut namespace: Option<Namespace> = None;
        if fvm_attrs.len() > 0 {
            let normalized = match FvmAttribute::from_expanded(fvm_attrs) {
                Ok(normalized) => normalized,
                Err(e) => {
                    return Err(e.into_combine(Error::new(ErrorKind::AtThisInvocation, span)));
                },
            };
            let kinds = [AttributeArgKind::Implementation, AttributeArgKind::Namespace];
            assert(kinds@ =~= impl_kinds());
            match normalized.ensure_no_conflicts(kinds.as_slice()) {
                Ok(()) => {},
                Err(e) => {
                    return Err(e);
                },
            }
            namespace = normalized.namespace();
        } else {
            assert(merged_tags(item_impl.attrs@).len() == 0);
        }
        if namespace.is_some() && is_trait_impl {
            return Err(Error::new(ErrorKind::NamespaceOnTraitImpl, span));
        }
        Ok(Self { attrs: other_attrs, trait_path, self_ty, items: impl_items, namespace, span })
    }

    /// The annotations outside the contract vocabulary.
    pub fn attrs(&self) -> (attrs: &[RawAttribute])
        ensures
            attrs@ == self@.attrs,
    {
        self.attrs.as_slice()
    }

    pub fn self_type(&self) -> (ty: &String)
        ensures
            *ty == self@.self_ty,
    {
        &self.self_ty
    }

    pub fn trait_path(&self) -> (path: Option<&RawPath>)
        ensures
            match path {
                Some(p) => self@.trait_path == Some(*p),
                None => self@.trait_path is None,
            },
    {
        match &self.trait_path {
            Some(p) => Some(p),
            None => None,
        }
    }

    pub fn namespace(&self) -> (namespace: Option<&Namespace>)
        ensures
            match namespace {
                Some(n) => self@.namespace == Some(n@),
                None => self@.namespace is None,
            },
    {
        match &self.namespace {
            Some(n) => Some(n),
            None => None,
        }
    }

    /// A cursor over the messages, at the first member.
    pub fn iter_messages(&self) -> (iter: IterMessages<'_>)
        ensures
            iter.wf(),
            iter.pos() == 0,
            iter.block() == self,
    {
        IterMessages::new(self)
    }

    /// A cursor over the constructors, at the first member.
    pub fn iter_constructors(&self) -> (iter: IterConstructors<'_>)
        ensures
            iter.wf(),
            iter.pos() == 0,
            iter.block() == self,
    {
        IterConstructors::new(self)
    }

    pub fn items(&self) -> (items: &[ImplItem])
        ensures
            items@ == self@.items,
    {
        self.items.as_slice()
    }

    /// Where the block stands.
    pub fn span(&self) -> (span: Span)
        ensures
            span == self@.span,
    {
        self.span
    }
}

} // verus!
