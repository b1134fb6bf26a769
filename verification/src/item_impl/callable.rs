//! What constructors and messages have in common.

use vstd::prelude::*;
use crate::attrs::{SelectorOrWildcard, SelectorView};
use crate::error::Span;
use crate::item_impl::ItemImpl;
use crate::selector::{
    join_input, joined_input, selector_of, strip_whitespace, without_whitespace,
    ComposedSelector, ComposedView, Selector,
};
use crate::syntax::{RawFnArg, RawMethod, RawPath, RawVisibility};
use vstd::string::*;

verus! {

/// The two kinds of callable.
#[derive(Debug, Copy, Clone, PartialEq, Eq, Structural)]
pub enum CallableKind {
    Message,
    Constructor,
}

impl CallableKind {
    /// The kind's name in lower case.
    pub fn name(&self) -> (name: &'static str)
        ensures
            name@ == match self {
                CallableKind::Message => "message"@,
                CallableKind::Constructor => "constructor"@,
            },
    {
        match self {
            CallableKind::Message => "message",
            CallableKind::Constructor => "constructor",
        }
    }
}

/// The visibility of a callable: `pub` or none.
#[derive(Debug, Clone, Copy, PartialEq, Eq, Structural)]
pub enum Visibility {
    Public(Span),
    Inherited,
}

impl Visibility {
    pub fn is_pub(&self) -> (yes: bool)
        ensures
            yes == (self is Public),
    {
        match self {
            Visibility::Public(_) => true,
            Visibility::Inherited => false,
        }
    }

    pub fn is_inherited(&self) -> (yes: bool)
        ensures
            yes == (self is Inherited),
    {
        match self {
            Visibility::Public(_) => false,
            Visibility::Inherited => true,
        }
    }

    pub fn span(&self) -> (span: Option<Span>)
        ensures
            span == match self {
                Visibility::Public(s) => Some(*s),
                Visibility::Inherited => None,
            },
    {
        match self {
            Visibility::Public(s) => Some(*s),
            Visibility::Inherited => None,
        }
    }
}

/// What a constructor or message stands for: its declaration without the
/// contract annotations, and what those annotations said.
pub struct CallableView {
    pub item: RawMethod,
    pub payable: bool,
    pub selector: Option<SelectorView>,
}

/// The view of an optional user selector.
pub open spec fn selector_view(selector: Option<SelectorOrWildcard>) -> Option<SelectorView> {
    match selector {
        Some(s) => Some(s@),
        None => None,
    }
}

/// The typed parameters among the first `n` parameters, in order, receivers left out.
pub open spec fn typed_inputs(inputs: Seq<RawFnArg>, n: int) -> Seq<String>
    decreases n,
{
    if n <= 0 {
        Seq::empty()
    } else {
        match inputs[n - 1] {
            RawFnArg::Typed(text) => typed_inputs(inputs, n - 1).push(text),
            RawFnArg::Receiver { .. } => typed_inputs(inputs, n - 1),
        }
    }
}

/// The visibility of a callable that is `pub` or has none.
pub open spec fn callable_visibility(vis: RawVisibility) -> Visibility {
    match vis {
        RawVisibility::Public(s) => Visibility::Public(s),
        _ => Visibility::Inherited,
    }
}

/// Walks the typed parameters of a callable in order; receivers are left out.
#[derive(Debug)]
pub struct InputsIter<'a> {
    inputs: &'a [RawFnArg],
    pos: usize,
}

impl<'a> InputsIter<'a> {
    /// All parameters of the callable, receivers included.
    pub closed spec fn all(&self) -> Seq<RawFnArg> {
        self.inputs@
    }

    /// How many parameters have been passed over.
    pub closed spec fn pos(&self) -> int {
        self.pos as int
    }

    pub open spec fn wf(&self) -> bool {
        0 <= self.pos() <= self.all().len()
    }

    pub fn new(inputs: &'a [RawFnArg]) -> (iter: Self)
        ensures
            iter.wf(),
            iter.all() == inputs@,
            iter.pos() == 0,
    {
        Self { inputs, pos: 0 }
    }

    /// Whether the parameters at positions `from` up to `to` are all receivers.
    pub open spec fn receivers_between(all: Seq<RawFnArg>, from: int, to: int) -> bool {
        forall|j: int| from <= j < to ==> (#[trigger] all[j]) is Receiver
    }

    /// The next typed parameter, if one is left: the receivers before it are
    /// passed over.
    pub fn next(&mut self) -> (item: Option<&'a String>)
        requires
            old(self).wf(),
        ensures
            final(self).wf(),
            final(self).all() == old(self).all(),
            match item {
                Some(text) => old(self).pos() < final(self).pos()
                    && old(self).all()[final(self).pos() - 1] == RawFnArg::Typed(*text)
                    && Self::receivers_between(old(self).all(), old(self).pos(), final(self).pos() - 1),
                None => final(self).pos() == old(self).all().len()
                    && Self::receivers_between(old(self).all(), old(self).pos(), final(self).pos()),
            },
    {
        while self.pos < self.inputs.len()
            invariant
                old(self).pos <= self.pos <= self.inputs@.len(),
                self.inputs == old(self).inputs,
                Self::receivers_between(self.inputs@, old(self).pos as int, self.pos as int),
            decreases self.inputs@.len() - self.pos,
        {
            let arg = &self.inputs[self.pos];
            if let RawFnArg::Typed(text) = arg {
                self.pos += 1;
                return Some(text);
            }
            self.pos += 1;
        }
        None
    }

    /// How many typed parameters stand among the first `n` parameters.
    pub open spec fn typed_count(all: Seq<RawFnArg>, n: int) -> nat {
        typed_inputs(all, n).len()
    }

    /// The number of typed parameters that have not been passed over: what
    /// `next` will still hand out. Receivers do not count.
    pub fn len(&self) -> (n: usize)
        requires
            self.wf(),
        ensures
            n == Self::typed_count(self.all(), self.all().len() as int) - Self::typed_count(
                self.all(),
                self.pos(),
            ),
    {
        let mut n: usize = 0;
        let mut i: usize = self.pos;
        while i < self.inputs.len()
            invariant
                self.pos <= i <= self.inputs@.len(),
                n <= i - self.pos,
                n == Self::typed_count(self.inputs@, i as int) - Self::typed_count(
                    self.inputs@,
                    self.pos as int,
                ),
            decreases self.inputs@.len() - i,
        {
            if let RawFnArg::Typed(_) = &self.inputs[i] {
                n += 1;
            }
            i += 1;
        }
        n
    }
}

/// A constructor or a message.
pub trait Callable {
    /// What the callable stands for.
    spec fn callable_view(&self) -> CallableView;

    /// The kind that the implementing type stands for.
    spec fn spec_kind(&self) -> CallableKind;

    fn kind(&self) -> (kind: CallableKind)
        ensures
            kind == self.spec_kind(),
    ;

    fn ident(&self) -> (ident: &String)
        ensures
            *ident == self.callable_view().item.ident,
    ;

    /// The four bytes that the user gave, if any; the wildcard is none.
    fn user_provided_selector(&self) -> (selector: Option<&Selector>)
        ensures
            match selector {
                Some(s) => self.callable_view().selector == Some(SelectorView::UserProvided(s@)),
                None => !(self.callable_view().selector matches Some(
                    SelectorView::UserProvided(_),
                )),
            },
    ;

    fn is_payable(&self) -> (payable: bool)
        ensures
            payable == self.callable_view().payable,
    ;

    fn has_wildcard_selector(&self) -> (wildcard: bool)
        ensures
            wildcard == (self.callable_view().selector == Some(SelectorView::Wildcard)),
    ;

    /// The visibility as it was declared.
    fn declared_visibility(&self) -> (vis: RawVisibility)
        ensures
            vis == self.callable_view().item.vis,
    ;

    /// The visibility of a callable that is `pub` or has none.
    fn visibility(&self) -> (vis: Visibility)
        requires
            self.callable_view().item.vis is Public || self.callable_view().item.vis is Inherited,
        ensures
            vis == callable_visibility(self.callable_view().item.vis),
    ;

    /// A cursor over the typed parameters, before the first.
    fn inputs(&self) -> (iter: InputsIter<'_>)
        ensures
            iter.wf(),
            iter.pos() == 0,
            iter.all() == self.callable_view().item.inputs@,
    ;

    /// All parameters as they were declared, receivers included.
    fn declared_inputs(&self) -> (inputs: &[RawFnArg])
        ensures
            inputs@ == self.callable_view().item.inputs@,
    ;

    fn inputs_span(&self) -> (span: Span)
        ensures
            span == self.callable_view().item.inputs_span,
    ;

    fn statements(&self) -> (statements: &[String])
        ensures
            statements@ == self.callable_view().item.statements@,
    ;
}


/// The part that a trait path adds to a selector's input: the whole path
/// without whitespace where it starts with `::`, else its last identifier.
pub open spec fn trait_tail(path: RawPath) -> Seq<u8> {
    if path.leading_colon {
        without_whitespace(vstd::utf8::encode_utf8(path.tokens@))
    } else {
        vstd::utf8::encode_utf8(path.last_ident@)
    }
}

/// The bytes that are hashed for a member called `name`: the namespace,
/// the trait's part and the name, as far as present, joined by `::`.
pub open spec fn composed_input(
    namespace: Option<Seq<u8>>,
    trait_path: Option<RawPath>,
    name: Seq<char>,
) -> Seq<u8> {
    joined_input(
        match namespace {
            Some(n) => n,
            None => Seq::empty(),
        },
        match trait_path {
            Some(p) => Some(trait_tail(p)),
            None => None,
        },
        vstd::utf8::encode_utf8(name),
    )
}

/// The selector of a member: what the user gave wins, the wildcard
/// included; only without it the composed input is hashed.
pub open spec fn composed(
    user: Option<SelectorView>,
    namespace: Option<Seq<u8>>,
    trait_path: Option<RawPath>,
    name: Seq<char>,
) -> ComposedView {
    match user {
        Some(SelectorView::Wildcard) => ComposedView::Wildcard,
        Some(SelectorView::UserProvided(bytes)) => ComposedView::UserProvided(bytes),
        None => ComposedView::Derived(selector_of(composed_input(namespace, trait_path, name))),
    }
}

/// The bytes that are hashed for a member called `name` in `item_impl`.
pub fn compose_input(item_impl: &ItemImpl, name: &str) -> (input: Vec<u8>)
    ensures
        input@ == composed_input(item_impl@.namespace, item_impl@.trait_path, name@),
{
    let name_bytes = name.as_bytes_vec();
    let empty: Vec<u8> = Vec::new();
    let namespace: &[u8] = match item_impl.namespace() {
        Some(n) => n.as_bytes(),
        None => empty.as_slice(),
    };
    match item_impl.trait_path() {
        None => join_input(namespace, None, name_bytes.as_slice()),
        Some(path) => {
            let tail = if path.leading_colon {
                let text = path.tokens.as_str().as_bytes_vec();
                strip_whitespace(text.as_slice())
            } else {
                path.last_ident.as_str().as_bytes_vec()
            };
            join_input(namespace, Some(tail.as_slice()), name_bytes.as_slice())
        },
    }
}

/// Composes the selector of `callable` as a member of `item_impl`.
pub fn compose_selector<C: Callable>(item_impl: &ItemImpl, callable: &C) -> (selector:
    ComposedSelector)
    ensures
        selector@ == composed(
            callable.callable_view().selector,
            item_impl@.namespace,
            item_impl@.trait_path,
            callable.callable_view().item.ident@,
        ),
{
    if let Some(selector) = callable.user_provided_selector() {
        return ComposedSelector::UserProvided(*selector);
    }
    if callable.has_wildcard_selector() {
        return ComposedSelector::Wildcard;
    }
    let input = compose_input(item_impl, callable.ident().as_str());
    ComposedSelector::Derived(Selector::compute(input.as_slice()))
}

/// A callable together with the impl block that holds it and its composed selector.
#[derive(Debug)]
pub struct CallableWithSelector<'a, C> {
    composed_selector: ComposedSelector,
    item_impl: &'a ItemImpl,
    callable: &'a C,
}

impl<'a, C> Copy for CallableWithSelector<'a, C> {
}

impl<'a, C> Clone for CallableWithSelector<'a, C> {
    fn clone(&self) -> (copy: Self)
        ensures
            copy == *self,
    {
        Self {
            composed_selector: self.composed_selector,
            item_impl: self.item_impl,
            callable: self.callable,
        }
    }
}

impl<'a, C: Callable> CallableWithSelector<'a, C> {
    pub closed spec fn spec_composed_selector(&self) -> ComposedSelector {
        self.composed_selector
    }

    pub closed spec fn spec_callable(&self) -> &'a C {
        self.callable
    }

    pub closed spec fn spec_item_impl(&self) -> &'a ItemImpl {
        self.item_impl
    }

    /// The selector is the one composed for the callable in its impl block.
    pub open spec fn wf(&self) -> bool {
        self.spec_composed_selector()@ == composed(
            self.spec_callable().callable_view().selector,
            self.spec_item_impl()@.namespace,
            self.spec_item_impl()@.trait_path,
            self.spec_callable().callable_view().item.ident@,
        )
    }

    pub fn new(item_impl: &'a ItemImpl, callable: &'a C) -> (cws: Self)
        ensures
            cws.wf(),
            cws.spec_item_impl() == item_impl,
            cws.spec_callable() == callable,
    {
        Self { composed_selector: compose_selector(item_impl, callable), item_impl, callable }
    }

    pub fn composed_selector(&self) -> (selector: ComposedSelector)
        ensures
            selector == self.spec_composed_selector(),
    {
        self.composed_selector
    }

    pub fn callable(&self) -> (callable: &'a C)
        ensures
            callable == self.spec_callable(),
    {
        self.callable
    }

    pub fn item_impl(&self) -> (item_impl: &'a ItemImpl)
        ensures
            item_impl == self.spec_item_impl(),
    {
        self.item_impl
    }
}

impl<'a, C: Callable> Callable for CallableWithSelector<'a, C> {
    open spec fn callable_view(&self) -> CallableView {
        self.spec_callable().callable_view()
    }

    open spec fn spec_kind(&self) -> CallableKind {
        self.spec_callable().spec_kind()
    }

    fn kind(&self) -> (kind: CallableKind) {
        self.callable.kind()
    }

    fn ident(&self) -> (ident: &String) {
        self.callable.ident()
    }

    fn user_provided_selector(&self) -> (selector: Option<&Selector>) {
        self.callable.user_provided_selector()
    }

    fn is_payable(&self) -> (payable: bool) {
        self.callable.is_payable()
    }

    fn has_wildcard_selector(&self) -> (wildcard: bool) {
        self.callable.has_wildcard_selector()
    }

    fn declared_visibility(&self) -> (vis: RawVisibility) {
        self.callable.declared_visibility()
    }

    fn visibility(&self) -> (vis: Visibility) {
        self.callable.visibility()
    }

    fn inputs(&self) -> (iter: InputsIter<'_>) {
        self.callable.inputs()
    }

    fn declared_inputs(&self) -> (inputs: &[RawFnArg]) {
        self.callable.declared_inputs()
    }

    fn inputs_span(&self) -> (span: Span) {
        self.callable.inputs_span()
    }

    fn statements(&self) -> (statements: &[String]) {
        self.callable.statements()
    }
}

} // verus!
