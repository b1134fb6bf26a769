//! Constructors: the callables that set up the first state.

use vstd::prelude::*;
use crate::attrs::{sanitize_attributes, sanitize_error, AttributeArgKind, SelectorOrWildcard};
use crate::error::{Diagnostic, Error, Span};
use crate::item_impl::callable::{
    selector_view, Callable, CallableKind, CallableView, InputsIter, Visibility,
};
use crate::item_impl::message::callable_of;
use crate::selector::Selector;
use crate::syntax::{RawAttribute, RawFnArg, RawMethod, RawVisibility};

verus! {

/// The kinds of tag that a constructor admits.
pub open spec fn constructor_kinds() -> Seq<AttributeArgKind> {
    seq![AttributeArgKind::Constructor, AttributeArgKind::Payable, AttributeArgKind::Selector]
}

/// A method tagged `constructor`.
#[derive(Debug, PartialEq, Eq)]
pub struct Constructor {
    item: RawMethod,
    is_payable: bool,
    selector: Option<SelectorOrWildcard>,
}

impl View for Constructor {
    type V = CallableView;

    closed spec fn view(&self) -> CallableView {
        CallableView {
            item: self.item,
            payable: self.is_payable,
            selector: selector_view(self.selector),
        }
    }
}

impl Constructor {
    /// What the builder reports for a method that it rejects as a constructor.
    pub open spec fn error_of(method: RawMethod) -> Option<Seq<Diagnostic>> {
        sanitize_error(method.span, method.attrs@, AttributeArgKind::Constructor, constructor_kinds())
    }

    /// Builds a constructor from a method whose first tag is `constructor`; the
    /// other tags may be `payable` and `selector(..)`.
    pub fn try_from(method: RawMethod) -> (res: Result<Self, Error>)
        ensures
            match res {
                Ok(constructor) => Self::error_of(method) is None && callable_of(
                    constructor@,
                    method,
                ),
                Err(e) => Self::error_of(method) == Some(e@),
            },
    {
        let kinds = [AttributeArgKind::Constructor, AttributeArgKind::Payable, AttributeArgKind::Selector];
        assert(kinds@ =~= constructor_kinds());
        let RawMethod { attrs, vis, ident, inputs, inputs_span, output, statements, tokens, span } =
            method;
        let (fvm_attrs, other_attrs) = match sanitize_attributes(
            span,
            attrs,
            &AttributeArgKind::Constructor,
            kinds.as_slice(),
        ) {
            Ok(parts) => parts,
            Err(e) => {
                return Err(e);
            },
        };
        let is_payable = fvm_attrs.is_payable();
        let selector = fvm_attrs.selector();
        Ok(
            Self {
                is_payable,
                selector,
                item: RawMethod {
                    attrs: other_attrs,
                    vis,
                    ident,
                    inputs,
                    inputs_span,
                    output,
                    statements,
                    tokens,
                    span,
                },
            },
        )
    }

    /// The annotations that are left on the method.
    pub fn attrs(&self) -> (attrs: &[RawAttribute])
        ensures
            attrs@ == self@.item.attrs@,
    {
        self.item.attrs.as_slice()
    }

    /// Where the method stands.
    pub fn span(&self) -> (span: Span)
        ensures
            span == self@.item.span,
    {
        self.item.span
    }
}

impl Callable for Constructor {
    open spec fn callable_view(&self) -> CallableView {
        self@
    }

    open spec fn spec_kind(&self) -> CallableKind {
        CallableKind::Constructor
    }

    fn kind(&self) -> (kind: CallableKind) {
        CallableKind::Constructor
    }

    fn ident(&self) -> (ident: &String) {
        &self.item.ident
    }

    fn user_provided_selector(&self) -> (selector: Option<&Selector>) {
        if let Some(SelectorOrWildcard::UserProvided(selector)) = &self.selector {
            return Some(selector);
        }
        None
    }

    fn is_payable(&self) -> (payable: bool) {
        self.is_payable
    }

    fn has_wildcard_selector(&self) -> (wildcard: bool) {
        if let Some(SelectorOrWildcard::Wildcard) = self.selector {
            return true;
        }
        false
    }

    fn declared_visibility(&self) -> (vis: RawVisibility) {
        self.item.vis
    }

    fn visibility(&self) -> (vis: Visibility) {
        match self.item.vis {
            RawVisibility::Public(s) => Visibility::Public(s),
            _ => Visibility::Inherited,
        }
    }

    fn inputs(&self) -> (iter: InputsIter<'_>) {
        InputsIter::new(self.item.inputs.as_slice())
    }

    fn declared_inputs(&self) -> (inputs: &[RawFnArg]) {
        self.item.inputs.as_slice()
    }

    fn inputs_span(&self) -> (span: Span) {
        self.item.inputs_span
    }

    fn statements(&self) -> (statements: &[String]) {
        self.item.statements.as_slice()
    }
}

} // verus!
