//! The state struct of a contract.

use vstd::prelude::*;
use crate::attrs::{other_parts, sanitize_attributes, sanitize_error, AttributeArgKind};
use crate::error::{single, Diagnostic, Error, ErrorKind, Span};
use crate::syntax::{RawAttribute, RawField, RawStruct};

verus! {

/// The kinds of tag that a state struct admits.
pub open spec fn state_kinds() -> Seq<AttributeArgKind> {
    seq![AttributeArgKind::State]
}

/// Whether `stripped` is `raw` with its contract annotations taken away.
pub open spec fn stripped_struct(stripped: RawStruct, raw: RawStruct) -> bool {
    &&& stripped.attrs@ == other_parts(raw.attrs@)
    &&& stripped.vis == raw.vis
    &&& stripped.ident == raw.ident
    &&& stripped.generic_params == raw.generic_params
    &&& stripped.generics_span == raw.generics_span
    &&& stripped.fields == raw.fields
    &&& stripped.tokens == raw.tokens
    &&& stripped.span == raw.span
}

/// The struct that holds the contract's state.
#[derive(Debug, PartialEq, Eq)]
pub struct State {
    ast: RawStruct,
}

impl View for State {
    type V = RawStruct;

    closed spec fn view(&self) -> RawStruct {
        self.ast
    }
}

impl State {
    /// What the builder reports for a struct that it rejects as the state.
    pub open spec fn error_of(raw: RawStruct) -> Option<Seq<Diagnostic>> {
        match sanitize_error(raw.span, raw.attrs@, AttributeArgKind::State, state_kinds()) {
            Some(e) => Some(e),
            None => if raw.generic_params != 0 {
                Some(single(ErrorKind::GenericState, raw.generics_span))
            } else {
                None
            },
        }
    }

    /// Builds the state from a struct whose first tag is `state`: no other
    /// tag and no generic parameter is admitted.
    pub fn try_from(item_struct: RawStruct) -> (res: Result<Self, Error>)
        ensures
            match res {
                Ok(state) => Self::error_of(item_struct) is None && stripped_struct(
                    state@,
                    item_struct,
                ) && state@.generic_params == 0,
                Err(e) => Self::error_of(item_struct) == Some(e@),
            },
    {
        let kinds = [AttributeArgKind::State];
        assert(kinds@ =~= state_kinds());
        let RawStruct { attrs, vis, ident, generic_params, generics_span, fields, tokens, span } =
            item_struct;
        let (_, other_attrs) = match sanitize_attributes(
            span,
            attrs,
            &AttributeArgKind::State,
            kinds.as_slice(),
        ) {
            Ok(parts) => parts,
            Err(e) => {
                return Err(e);
            },
        };
        if generic_params != 0 {
            return Err(Error::new(ErrorKind::GenericState, generics_span));
        }
        Ok(
            Self {
                ast: RawStruct {
                    attrs: other_attrs,
                    vis,
                    ident,
                    generic_params,
                    generics_span,
                    fields,
                    tokens,
                    span,
                },
            },
        )
    }

    /// The annotations outside the contract vocabulary.
    pub fn attrs(&self) -> (attrs: &[RawAttribute])
        ensures
            attrs@ == self@.attrs@,
    {
        self.ast.attrs.as_slice()
    }

    pub fn ident(&self) -> (ident: &String)
        ensures
            *ident == self@.ident,
    {
        &self.ast.ident
    }

    /// The fields in the order in which they are declared.
    pub fn fields(&self) -> (fields: &[RawField])
        ensures
            fields@ == self@.fields@,
    {
        self.ast.fields.as_slice()
    }

    /// Where the struct stands.
    pub fn span(&self) -> (span: Span)
        ensures
            span == self@.span,
    {
        self.ast.span
    }
}

} // verus!
