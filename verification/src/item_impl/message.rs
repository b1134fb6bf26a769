//! Messages: the callables that act on an existing state.

use vstd::prelude::*;
use crate::attrs::{
    has_arg, merged_tags, other_parts, sanitize_attributes, sanitize_error, selector_from,
    ArgView, AttributeArgKind, SelectorOrWildcard,
};
use crate::error::{Diagnostic, Error, Span};
use crate::item_impl::callable::{
    selector_view, Callable, CallableKind, CallableView, InputsIter, Visibility,
};
use crate::selector::Selector;
use crate::syntax::{RawAttribute, RawFnArg, RawMethod, RawVisibility};
use crate::utils::local_message_id;

verus! {

/// How a message takes the state it acts on.
#[derive(Debug, Copy, Clone, PartialEq, Eq, Structural)]
pub enum Receiver {
    Ref,
    RefMut,
}

impl Receiver {
    pub fn is_ref(self) -> (yes: bool)
        ensures
            yes == (self == Receiver::Ref),
    {
        match self {
            Receiver::Ref => true,
            Receiver::RefMut => false,
        }
    }

    pub fn is_ref_mut(self) -> (yes: bool)
        ensures
            yes == (self == Receiver::RefMut),
    {
        match self {
            Receiver::Ref => false,
            Receiver::RefMut => true,
        }
    }
}

/// The kinds of tag that a message admits.
pub open spec fn message_kinds() -> Seq<AttributeArgKind> {
    seq![AttributeArgKind::Message, AttributeArgKind::Payable, AttributeArgKind::Selector]
}

/// Whether `stripped` is `method` with its contract annotations taken away.
pub open spec fn stripped_method(stripped: RawMethod, method: RawMethod) -> bool {
    &&& stripped.attrs@ == other_parts(method.attrs@)
    &&& stripped.vis == method.vis
    &&& stripped.ident == method.ident
    &&& stripped.inputs == method.inputs
    &&& stripped.inputs_span == method.inputs_span
    &&& stripped.output == method.output
    &&& stripped.statements == method.statements
    &&& stripped.tokens == method.tokens
    &&& stripped.span == method.span
}

/// Whether `view` is what the annotations of `method` say, together with
/// `method` stripped of them.
pub open spec fn callable_of(view: CallableView, method: RawMethod) -> bool {
    &&& stripped_method(view.item, method)
    &&& view.payable == has_arg(merged_tags(method.attrs@), ArgView::Payable)
    &&& view.selector == selector_from(merged_tags(method.attrs@), 0)
}

/// A method tagged `message`.
#[derive(Debug, PartialEq, Eq)]
pub struct Message {
    item: RawMethod,
    is_payable: bool,
    selector: Option<SelectorOrWildcard>,
}

impl View for Message {
    type V = CallableView;

    closed spec fn view(&self) -> CallableView {
        CallableView {
            item: self.item,
            payable: self.is_payable,
            selector: selector_view(self.selector),
        }
    }
}

impl Message {
    /// What the builder reports for a method that it rejects as a message.
    pub open spec fn error_of(method: RawMethod) -> Option<Seq<Diagnostic>> {
        sanitize_error(method.span, method.attrs@, AttributeArgKind::Message, message_kinds())
    }

    /// Builds a message from a method whose first tag is `message`; the
    /// other tags may be `payable` and `selector(..)`.
    pub fn try_from(method: RawMethod) -> (res: Result<Self, Error>)
        ensures
            match res {
                Ok(message) => Self::error_of(method) is None && callable_of(message@, method),
                Err(e) => Self::error_of(method) == Some(e@),
            },
    {
        let kinds = [AttributeArgKind::Message, AttributeArgKind::Payable, AttributeArgKind::Selector];
        assert(kinds@ =~= message_kinds());
        let RawMethod { attrs, vis, ident, inputs, inputs_span, output, statements, tokens, span } =
            method;
        let (fvm_attrs, other_attrs) = match sanitize_attributes(
            span,
            attrs,
            &AttributeArgKind::Message,
            kinds.as_slice(),
        ) {
            Ok(parts) => parts,
            Err(e) => {
                return Err(e);
            },
        };
        let is_payable = fvm_attrs.is_payable();
        let selector = fvm_attrs.selector();
        Ok(
            Self {
                is_payable,
                selector,
                item: RawMethod {
                    attrs: other_attrs,
                    vis,
                    ident,
                    inputs,
                    inputs_span,
                    output,
                    statements,
                    tokens,
                    span,
                },
            },
        )
    }

    /// The annotations that are left on the method.
    pub fn attrs(&self) -> (attrs: &[RawAttribute])
        ensures
            attrs@ == self@.item.attrs@,
    {
        self.item.attrs.as_slice()
    }

    /// That the method's first parameter is a receiver.
    pub open spec fn has_receiver(&self) -> bool {
        self@.item.inputs@.len() > 0 && self@.item.inputs@[0] is Receiver
    }

    /// Whether the method's first parameter is a receiver.
    pub fn takes_receiver(&self) -> (yes: bool)
        ensures
            yes == self.has_receiver(),
    {
        if self.item.inputs.len() == 0 {
            return false;
        }
        match &self.item.inputs[0] {
            RawFnArg::Receiver { .. } => true,
            RawFnArg::Typed(_) => false,
        }
    }

    /// Whether the state is taken shared or exclusive.
    pub fn receiver(&self) -> (receiver: Receiver)
        requires
            self.has_receiver(),
        ensures
            receiver == (if self@.item.inputs@[0]->mutable {
                Receiver::RefMut
            } else {
                Receiver::Ref
            }),
    {
        match &self.item.inputs[0] {
            RawFnArg::Receiver { reference: _, mutable } => {
                if *mutable {
                    Receiver::RefMut
                } else {
                    Receiver::Ref
                }
            },
            RawFnArg::Typed(_) => Receiver::Ref,
        }
    }

    /// The declared return type, if any.
    pub fn output(&self) -> (output: Option<&String>)
        ensures
            match output {
                Some(ty) => self@.item.output == Some(*ty),
                None => self@.item.output is None,
            },
    {
        match &self.item.output {
            Some(ty) => Some(ty),
            None => None,
        }
    }

    /// The message's name hashed to a number.
    pub fn local_id(&self) -> (id: u32)
        ensures
            id == Selector::spec_be_u32(
                crate::selector::selector_of(vstd::utf8::encode_utf8(self@.item.ident@)),
            ),
    {
        local_message_id(self.item.ident.as_str())
    }

    /// Where the method stands.
    pub fn span(&self) -> (span: Span)
        ensures
            span == self@.item.span,
    {
        self.item.span
    }
}

impl Callable for Message {
    open spec fn callable_view(&self) -> CallableView {
        self@
    }

    open spec fn spec_kind(&self) -> CallableKind {
        CallableKind::Message
    }

    fn kind(&self) -> (kind: CallableKind) {
        CallableKind::Message
    }

    fn ident(&self) -> (ident: &String) {
        &self.item.ident
    }

    fn user_provided_selector(&self) -> (selector: Option<&Selector>) {
        if let Some(SelectorOrWildcard::UserProvided(selector)) = &self.selector {
            return Some(selector);
        }
        None
    }

    fn is_payable(&self) -> (payable: bool) {
        self.is_payable
    }

    fn has_wildcard_selector(&self) -> (wildcard: bool) {
        if let Some(SelectorOrWildcard::Wildcard) = self.selector {
            return true;
        }
        false
    }

    fn declared_visibility(&self) -> (vis: RawVisibility) {
        self.item.vis
    }

    fn visibility(&self) -> (vis: Visibility) {
        match self.item.vis {
            RawVisibility::Public(s) => Visibility::Public(s),
            _ => Visibility::Inherited,
        }
    }

    fn inputs(&self) -> (iter: InputsIter<'_>) {
        InputsIter::new(self.item.inputs.as_slice())
    }

    fn declared_inputs(&self) -> (inputs: &[RawFnArg]) {
        self.item.inputs.as_slice()
    }

    fn inputs_span(&self) -> (span: Span) {
        self.item.inputs_span
    }

    fn statements(&self) -> (statements: &[String]) {
        self.item.statements.as_slice()
    }
}

} // verus!
