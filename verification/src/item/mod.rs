//! The declarations of a contract module, classified.

pub mod state;
pub mod event;

use vstd::prelude::*;
use crate::attrs::{
    attr_errors, first_fvm_kind, first_tag_kind, partition_attributes,
    AttributeArgKind,
};
use crate::error::{Diagnostic, Error};
use crate::item::event::Event;
use crate::item::state::{stripped_struct, State};
use crate::item_impl::{impl_error, impl_of, relevance, ItemImpl};
use crate::syntax::{RawItem, RawStruct};

verus! {

/// A declaration that belongs to the contract.
#[derive(Debug, PartialEq, Eq)]
pub enum FvmItem {
    State(State),
    Event(Event),
    ImplBlock(ItemImpl),
}

/// A declaration of the module: one of the contract, or one passed through.
#[derive(Debug, PartialEq, Eq)]
pub enum Item {
    Fvm(FvmItem),
    Rust(RawItem),
}

/// What a declaration is taken for.
#[derive(Debug, Clone, Copy, PartialEq, Eq, Structural)]
pub enum ItemClass {
    /// Passed through unchanged.
    Rust,
    /// A struct with contract annotations that is neither state nor event:
    /// passed through without those annotations.
    StrippedStruct,
    State,
    Event,
    ImplBlock,
}

/// How a declaration is classified: a struct by its first tag, an impl
/// block by whether it belongs to the contract.
pub open spec fn classify_item(raw: RawItem) -> Result<ItemClass, Seq<Diagnostic>> {
    match raw {
        RawItem::Struct(s) => match first_tag_kind(s.attrs@) {
            Err(e) => Err(e),
            Ok(None) => Ok(ItemClass::Rust),
            Ok(Some(AttributeArgKind::State)) => Ok(ItemClass::State),
            Ok(Some(AttributeArgKind::Event)) => Ok(ItemClass::Event),
            Ok(Some(_)) => Ok(ItemClass::StrippedStruct),
        },
        RawItem::Impl(i) => match relevance(i) {
            Err(e) => Err(e),
            Ok(true) => Ok(ItemClass::ImplBlock),
            Ok(false) => Ok(ItemClass::Rust),
        },
        RawItem::Other(_) => Ok(ItemClass::Rust),
    }
}

/// What the builder reports for a declaration that it rejects.
pub open spec fn item_error(raw: RawItem) -> Option<Seq<Diagnostic>> {
    match classify_item(raw) {
        Err(e) => Some(e),
        Ok(ItemClass::Rust) => None,
        Ok(ItemClass::StrippedStruct) => attr_errors(
            raw->Struct_0.attrs@,
            raw->Struct_0.attrs@.len() as int,
        ),
        Ok(ItemClass::State) => State::error_of(raw->Struct_0),
        Ok(ItemClass::Event) => Event::error_of(raw->Struct_0),
        Ok(ItemClass::ImplBlock) => impl_error(raw->Impl_0),
    }
}

/// Whether `item` is what the builder makes of an accepted `raw`.
pub open spec fn item_of(item: Item, raw: RawItem) -> bool {
    match item {
        Item::Fvm(FvmItem::State(state)) => classify_item(raw) == Ok::<
            ItemClass,
            Seq<Diagnostic>,
        >(ItemClass::State) && stripped_struct(state@, raw->Struct_0),
        Item::Fvm(FvmItem::Event(event)) => classify_item(raw) == Ok::<
            ItemClass,
            Seq<Diagnostic>,
        >(ItemClass::Event) && Event::event_of(event@, raw->Struct_0),
        Item::Fvm(FvmItem::ImplBlock(block)) => classify_item(raw) == Ok::<
            ItemClass,
            Seq<Diagnostic>,
        >(ItemClass::ImplBlock) && impl_of(block@, raw->Impl_0),
        Item::Rust(rust) => match classify_item(raw) {
            Ok(ItemClass::Rust) => rust == raw,
            Ok(ItemClass::StrippedStruct) => rust is Struct && stripped_struct(
                rust->Struct_0,
                raw->Struct_0,
            ),
            _ => false,
        },
    }
}

/// Classifies a declaration.
pub fn classify(raw: &RawItem) -> (res: Result<ItemClass, Error>)
    ensures
        match res {
            Ok(class) => classify_item(*raw) == Ok::<ItemClass, Seq<Diagnostic>>(class),
            Err(e) => classify_item(*raw) == Err::<ItemClass, Seq<Diagnostic>>(e@),
        },
{
    match raw {
        RawItem::Struct(s) => match first_fvm_kind(s.attrs.as_slice()) {
            Err(e) => Err(e),
            Ok(None) => Ok(ItemClass::Rust),
            Ok(Some(AttributeArgKind::State)) => Ok(ItemClass::State),
            Ok(Some(AttributeArgKind::Event)) => Ok(ItemClass::Event),
            Ok(Some(_)) => Ok(ItemClass::StrippedStruct),
        },
        RawItem::Impl(i) => match ItemImpl::is_fvm_impl_block(i) {
            Err(e) => Err(e),
            Ok(true) => Ok(ItemClass::ImplBlock),
            Ok(false) => Ok(ItemClass::Rust),
        },
        RawItem::Other(_) => Ok(ItemClass::Rust),
    }
}

fn strip_struct(item_struct: RawStruct) -> (res: Result<RawStruct, Error>)
    ensures
        match res {
            Ok(stripped) => attr_errors(item_struct.attrs@, item_struct.attrs@.len() as int)
                is None && stripped_struct(stripped, item_struct),
            Err(e) => attr_errors(item_struct.attrs@, item_struct.attrs@.len() as int) == Some(e@),
        },
{
    let RawStruct { attrs, vis, ident, generic_params, generics_span, fields, tokens, span } = item_struct;
    match partition_attributes(attrs) {
        Ok((_, other_attrs)) => Ok(
            RawStruct { attrs: other_attrs, vis, ident, generic_params, generics_span, fields, tokens, span },
        ),
        Err(e) => Err(e),
    }
}

impl Item {
    /// Builds one declaration of the module.
    pub fn try_from(item: RawItem) -> (res: Result<Self, Error>)
        ensures
            match res {
                Ok(built) => item_error(item) is None && item_of(built, item),
                Err(e) => item_error(item) == Some(e@),
            },
    {
        let class = match classify(&item) {
            Ok(class) => class,
            Err(e) => {
                return Err(e);
            },
        };
        match item {
            RawItem::Struct(item_struct) => match class {
                ItemClass::State => match State::try_from(item_struct) {
                    Ok(state) => Ok(Item::Fvm(FvmItem::State(state))),
                    Err(e) => Err(e),
                },
                ItemClass::Event => match Event::try_from(item_struct) {
                    Ok(event) => Ok(Item::Fvm(FvmItem::Event(event))),
                    Err(e) => Err(e),
                },
                ItemClass::StrippedStruct => match strip_struct(item_struct) {
                    Ok(stripped) => Ok(Item::Rust(RawItem::Struct(stripped))),
                    Err(e) => Err(e),
                },
                _ => Ok(Item::Rust(RawItem::Struct(item_struct))),
            },
            RawItem::Impl(item_impl) => match class {
                ItemClass::ImplBlock => match ItemImpl::try_from(item_impl) {
                    Ok(block) => Ok(Item::Fvm(FvmItem::ImplBlock(block))),
                    Err(e) => Err(e),
                },
                _ => Ok(Item::Rust(RawItem::Impl(item_impl))),
            },
            RawItem::Other(other) => Ok(Item::Rust(RawItem::Other(other))),
        }
    }

    pub fn map_fvm_item(&self) -> (fvm: Option<&FvmItem>)
        ensures
            match fvm {
                Some(f) => *self == Item::Fvm(*f),
                None => self is Rust,
            },
    {
        match self {
            Item::Fvm(fvm_item) => Some(fvm_item),
            _ => None,
        }
    }

    pub fn map_rust_item(&self) -> (rust: Option<&RawItem>)
        ensures
            match rust {
                Some(r) => *self == Item::Rust(*r),
                None => self is Fvm,
            },
    {
        match self {
            Item::Rust(rust_item) => Some(rust_item),
            _ => None,
        }
    }
}

impl FvmItem {
    pub fn filter_map_storage_item(&self) -> (state: Option<&State>)
        ensures
            match state {
                Some(s) => *self == FvmItem::State(*s),
                None => !(self is State),
            },
    {
        match self {
            FvmItem::State(state) => Some(state),
            _ => None,
        }
    }

    pub fn filter_map_event_item(&self) -> (event: Option<&Event>)
        ensures
            match event {
                Some(e) => *self == FvmItem::Event(*e),
                None => !(self is Event),
            },
    {
        match self {
            FvmItem::Event(event) => Some(event),
            _ => None,
        }
    }

    pub fn filter_map_impl_block(&self) -> (block: Option<&ItemImpl>)
        ensures
            match block {
                Some(b) => *self == FvmItem::ImplBlock(*b),
                None => !(self is ImplBlock),
            },
    {
        match self {
            FvmItem::ImplBlock(impl_block) => Some(impl_block),
            _ => None,
        }
    }
}

} // verus!
