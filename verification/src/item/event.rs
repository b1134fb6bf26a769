//! Event structs and their fields.

use vstd::prelude::*;
use crate::attrs::{
    first_fvm_kind, first_tag_kind, has_arg, is_fvm, is_fvm_attribute, merged_tags,
    sanitize_attributes, sanitize_error, ArgView, AttributeArgKind,
};
use crate::error::{single, Diagnostic, Error, ErrorKind, Span};
use crate::item::state::stripped_struct;
use crate::syntax::{RawAttribute, RawField, RawStruct, RawVisibility};

verus! {

/// The kinds of tag that an event struct admits.
pub open spec fn event_kinds() -> Seq<AttributeArgKind> {
    seq![AttributeArgKind::Event, AttributeArgKind::Anonymous]
}

/// What an event stands for.
pub struct EventView {
    pub item: RawStruct,
    pub anonymous: bool,
}

/// A struct tagged `event`.
#[derive(Debug, PartialEq, Eq)]
pub struct Event {
    item: RawStruct,
    pub anonymous: bool,
}

impl View for Event {
    type V = EventView;

    closed spec fn view(&self) -> EventView {
        EventView { item: self.item, anonymous: self.anonymous }
    }
}

/// Whether a field is indexed: the first tag of its first contract
/// annotation is `topic`. A field whose annotation does not parse is not.
pub open spec fn is_topic(field: RawField) -> bool {
    first_tag_kind(field.attrs@) == Ok::<Option<AttributeArgKind>, Seq<Diagnostic>>(
        Some(AttributeArgKind::Topic),
    )
}

/// One field of an event.
#[derive(Debug, Copy, Clone, PartialEq, Eq)]
pub struct EventField<'a> {
    pub is_topic: bool,
    field: &'a RawField,
}

impl<'a> EventField<'a> {
    pub closed spec fn spec_field(&self) -> RawField {
        *self.field
    }

    pub closed spec fn spec_is_topic(&self) -> bool {
        self.is_topic
    }

    /// The flag says whether the field is indexed.
    pub open spec fn wf(&self) -> bool {
        self.spec_is_topic() == is_topic(self.spec_field())
    }

    pub fn new(field: &'a RawField) -> (ef: Self)
        ensures
            ef.wf(),
            ef.spec_field() == *field,
    {
        let is_topic = match first_fvm_kind(field.attrs.as_slice()) {
            Ok(Some(AttributeArgKind::Topic)) => true,
            _ => false,
        };
        EventField { is_topic, field }
    }

    /// Whether the field is indexed.
    pub fn topic(self) -> (yes: bool)
        ensures
            yes == self.spec_is_topic(),
    {
        self.is_topic
    }

    pub fn span(self) -> (span: Span)
        ensures
            span == self.spec_field().span,
    {
        self.field.span
    }

    /// The field's annotations outside the contract vocabulary, in order.
    pub fn attrs(self) -> (attrs: Vec<&'a RawAttribute>)
        ensures
            attrs@.map_values(|a: &RawAttribute| *a) == self.spec_field().attrs@.filter(
                |a: RawAttribute| !is_fvm(a),
            ),
    {
        let mut attrs: Vec<&'a RawAttribute> = Vec::new();
        let all = &self.field.attrs;
        let mut i: usize = 0;
        while i < all.len()
            invariant
                i <= all@.len(),
                attrs@.map_values(|a: &RawAttribute| *a) == all@.take(i as int).filter(
                    |a: RawAttribute| !is_fvm(a),
                ),
            decreases all@.len() - i,
        {
            proof {
                reveal(Seq::filter);
                assert(all@.take(i + 1).drop_last() == all@.take(i as int));
            }
            if !is_fvm_attribute(&all[i]) {
                let ghost before = attrs@;
                attrs.push(&all[i]);
                assert(attrs@.map_values(|a: &RawAttribute| *a) =~= before.map_values(
                    |a: &RawAttribute| *a,
                ).push(all@[i as int]));
            }
            i += 1;
        }
        proof {
            assert(all@.take(all@.len() as int) == all@);
        }
        attrs
    }

    pub fn vis(self) -> (vis: RawVisibility)
        ensures
            vis == self.spec_field().vis,
    {
        self.field.vis
    }

    pub fn ident(self) -> (ident: Option<&'a String>)
        ensures
            match ident {
                Some(name) => self.spec_field().ident == Some(*name),
                None => self.spec_field().ident is None,
            },
    {
        match &self.field.ident {
            Some(name) => Some(name),
            None => None,
        }
    }

    pub fn ty(self) -> (ty: &'a String)
        ensures
            *ty == self.spec_field().ty,
    {
        &self.field.ty
    }
}

/// Walks the fields of an event in the order in which they are declared.
#[derive(Debug)]
pub struct EventFieldsIter<'a> {
    fields: &'a [RawField],
    pos: usize,
}

impl<'a> EventFieldsIter<'a> {
    pub closed spec fn all(&self) -> Seq<RawField> {
        self.fields@
    }

    pub closed spec fn pos(&self) -> int {
        self.pos as int
    }

    pub open spec fn wf(&self) -> bool {
        0 <= self.pos() <= self.all().len()
    }

    /// The next field with its flag, if one is left.
    pub fn next(&mut self) -> (item: Option<EventField<'a>>)
        requires
            old(self).wf(),
        ensures
            final(self).wf(),
            final(self).all() == old(self).all(),
            match item {
                Some(field) => old(self).pos() < old(self).all().len() && final(self).pos() == old(
                    self,
                ).pos() + 1 && field.wf() && field.spec_field() == old(self).all()[old(self).pos()],
                None => old(self).pos() == old(self).all().len() && final(self).pos() == old(
                    self,
                ).pos(),
            },
    {
        if self.pos < self.fields.len() {
            let field = EventField::new(&self.fields[self.pos]);
            self.pos += 1;
            Some(field)
        } else {
            None
        }
    }
}

impl Event {
    /// What the builder reports for a struct that it rejects as an event.
    pub open spec fn error_of(raw: RawStruct) -> Option<Seq<Diagnostic>> {
        match sanitize_error(raw.span, raw.attrs@, AttributeArgKind::Event, event_kinds()) {
            Some(e) => Some(e),
            None => if raw.generic_params != 0 {
                Some(single(ErrorKind::GenericEvent, raw.generics_span))
            } else {
                None
            },
        }
    }

    /// Whether `view` is what the builder makes of an accepted `raw`.
    pub open spec fn event_of(view: EventView, raw: RawStruct) -> bool {
        &&& stripped_struct(view.item, raw)
        &&& view.anonymous == has_arg(merged_tags(raw.attrs@), ArgView::Anonymous)
    }

    /// Builds an event from a struct whose first tag is `event`; the only
    /// other tag admitted is `anonymous`, and no generic parameter.
    pub fn try_from(item_struct: RawStruct) -> (res: Result<Self, Error>)
        ensures
            match res {
                Ok(event) => Self::error_of(item_struct) is None && Self::event_of(
                    event@,
                    item_struct,
                ),
                Err(e) => Self::error_of(item_struct) == Some(e@),
            },
    {
        let kinds = [AttributeArgKind::Event, AttributeArgKind::Anonymous];
        assert(kinds@ =~= event_kinds());
        let RawStruct { attrs, vis, ident, generic_params, generics_span, fields, tokens, span } =
            item_struct;
        let (fvm_attrs, other_attrs) = match sanitize_attributes(
            span,
            attrs,
            &AttributeArgKind::Event,
            kinds.as_slice(),
        ) {
            Ok(parts) => parts,
            Err(e) => {
                return Err(e);
            },
        };
        if generic_params != 0 {
            return Err(Error::new(ErrorKind::GenericEvent, generics_span));
        }
        Ok(
            Self {
                item: RawStruct {
                    attrs: other_attrs,
                    vis,
                    ident,
                    generic_params,
                    generics_span,
                    fields,
                    tokens,
                    span,
                },
                anonymous: fvm_attrs.is_anonymous(),
            },
        )
    }

    /// Whether the event is emitted without its name.
    pub fn is_anonymous(&self) -> (yes: bool)
        ensures
            yes == self@.anonymous,
    {
        self.anonymous
    }

    pub fn ident(&self) -> (ident: &String)
        ensures
            *ident == self@.item.ident,
    {
        &self.item.ident
    }

    /// A cursor at the first field.
    pub fn fields(&self) -> (iter: EventFieldsIter<'_>)
        ensures
            iter.wf(),
            iter.pos() == 0,
            iter.all() == self@.item.fields@,
    {
        EventFieldsIter { fields: self.item.fields.as_slice(), pos: 0 }
    }

    /// The annotations outside the contract vocabulary.
    pub fn attrs(&self) -> (attrs: &[RawAttribute])
        ensures
            attrs@ == self@.item.attrs@,
    {
        self.item.attrs.as_slice()
    }
}

} // verus!
