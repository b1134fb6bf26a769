//! What holds of selectors, of the single state and of the dispatch, for
//! all inputs.

use vstd::prelude::*;
use crate::attrs::{
    first_fvm_from, first_tag_kind, fvm_parts, is_fvm, kind_of, merged_tags, AttributeArgKind,
    SelectorView,
};
use crate::error::Diagnostic;
use crate::item_impl::impl_item::member_attrs;
use crate::item_impl::{any_member_tagged, relevance, scan_methods};
use crate::codegen::{module_messages, table_of};
use crate::dispatch::{
    invoke_of, route_of, Abort, DispatchTable, Route, CONSTRUCTOR_INDEX, FIRST_MESSAGE_INDEX,
    INIT_ACTOR,
};
use crate::item::{FvmItem, Item};
use crate::item_impl::callable::{composed, composed_input, trait_tail};
use crate::item_mod::{count_states, module_error};
use crate::selector::{separator, selector_of, without_whitespace, ComposedView, Selector};
use crate::syntax::{RawAttribute, RawImpl, RawImplMember, RawModule, RawPath};

verus! {

/// The same namespace, trait path and member name give the same selector:
/// where two members agree on what the user gave, on the namespace, on the
/// trait's part of the input and on the name, their selectors are equal.
pub proof fn lemma_compose_deterministic(
    user: Option<SelectorView>,
    namespace: Option<Seq<u8>>,
    first_path: Option<RawPath>,
    second_path: Option<RawPath>,
    name: Seq<char>,
)
    requires
        first_path is Some <==> second_path is Some,
        first_path is Some ==> trait_tail(first_path->Some_0) == trait_tail(second_path->Some_0),
    ensures
        composed(user, namespace, first_path, name) == composed(
            user,
            namespace,
            second_path,
            name,
        ),
{
}

/// A selector given by the user wins over the composition, whatever the
/// namespace, the trait path and the name are; so does the wildcard. In
/// neither case is the selector derived by hashing.
pub proof fn lemma_override_precedence(
    user: SelectorView,
    namespace: Option<Seq<u8>>,
    trait_path: Option<RawPath>,
    name: Seq<char>,
)
    ensures
        !(composed(Some(user), namespace, trait_path, name) is Derived),
        user is Wildcard ==> composed(Some(user), namespace, trait_path, name)
            == ComposedView::Wildcard,
        user matches SelectorView::UserProvided(bytes) ==> composed(
            Some(user),
            namespace,
            trait_path,
            name,
        ) == ComposedView::UserProvided(bytes),
{
}

/// Without a user selector the composed input is hashed, and nothing else.
pub proof fn lemma_derived_without_override(
    namespace: Option<Seq<u8>>,
    trait_path: Option<RawPath>,
    name: Seq<char>,
)
    ensures
        composed(None, namespace, trait_path, name) == ComposedView::Derived(
            selector_of(composed_input(namespace, trait_path, name)),
        ),
{
}

/// In an inherent impl block the hashed input is the name alone where the
/// block has no namespace or an empty one, else the namespace, `::` and the name.
pub proof fn lemma_namespace_composition(namespace: Option<Seq<u8>>, name: Seq<char>)
    ensures
        (namespace is None || namespace->Some_0.len() == 0) ==> composed_input(
            namespace,
            None,
            name,
        ) == vstd::utf8::encode_utf8(name),
        (namespace is Some && namespace->Some_0.len() > 0) ==> composed_input(
            namespace,
            None,
            name,
        ) == namespace->Some_0 + separator() + vstd::utf8::encode_utf8(name),
{
}

/// In a trait impl block without a namespace the hashed input is the
/// trait's part, `::` and the name; the trait's part is the last identifier
/// of a relative path and the whole path without whitespace of an absolute one.
pub proof fn lemma_trait_composition(path: RawPath, name: Seq<char>)
    ensures
        !path.leading_colon ==> composed_input(None, Some(path), name) == vstd::utf8::encode_utf8(
            path.last_ident@,
        ) + separator() + vstd::utf8::encode_utf8(name),
        path.leading_colon ==> composed_input(None, Some(path), name) == without_whitespace(
            vstd::utf8::encode_utf8(path.tokens@),
        ) + separator() + vstd::utf8::encode_utf8(name),
{
}

/// Among `n` inherent messages the method number 1 reaches the constructor,
/// the number `k + 2` reaches the message at position `k`, and every other
/// number reaches nothing.
pub proof fn lemma_dispatch_indexing(n: nat, method_number: u64)
    requires
        n + FIRST_MESSAGE_INDEX <= u64::MAX,
    ensures
        method_number == CONSTRUCTOR_INDEX ==> route_of(n, method_number) == Some(
            Route::Constructor,
        ),
        FIRST_MESSAGE_INDEX <= method_number < n + FIRST_MESSAGE_INDEX ==> route_of(
            n,
            method_number,
        ) == Some(Route::Message((method_number - FIRST_MESSAGE_INDEX) as usize)),
        (method_number < CONSTRUCTOR_INDEX || method_number >= n + FIRST_MESSAGE_INDEX)
            ==> route_of(n, method_number) is None && invoke_of(n, method_number, INIT_ACTOR)
            == Err::<crate::dispatch::Action, Abort>(Abort::UnhandledMessage),
{
}

/// A module whose body does not hold exactly one state struct is rejected.
pub proof fn lemma_single_state(module: RawModule)
    requires
        module.content is Some,
        count_states(module.content->Some_0@, module.content->Some_0@.len() as int) != 1,
    ensures
        module_error(module) is Some,
{
}

/// A constructor call by any other actor than the initializer is refused,
/// and no action on the state is decided.
pub proof fn lemma_constructor_authorization(n: nat, caller: u64)
    requires
        caller != INIT_ACTOR,
    ensures
        invoke_of(n, CONSTRUCTOR_INDEX, caller) == Err::<crate::dispatch::Action, Abort>(
            Abort::Forbidden,
        ),
{
}


/// Whether the first tag on the block itself is `impl`.
pub open spec fn block_tagged_impl(raw: RawImpl) -> bool {
    merged_tags(raw.attrs@).len() > 0 && kind_of(merged_tags(raw.attrs@)[0].arg)
        == AttributeArgKind::Implementation
}

/// Whether a member is a method whose first tag is `constructor` or `message`.
pub open spec fn method_tagged_callable(member: RawImplMember) -> bool {
    member matches RawImplMember::Method(m) && (first_tag_kind(m.attrs@) == Ok::<
        Option<AttributeArgKind>,
        Seq<Diagnostic>,
    >(Some(AttributeArgKind::Constructor)) || first_tag_kind(m.attrs@) == Ok::<
        Option<AttributeArgKind>,
        Seq<Diagnostic>,
    >(Some(AttributeArgKind::Message)))
}

/// Annotations without a contract annotation among them hold no contract tag.
pub proof fn lemma_untagged_has_no_parts(attrs: Seq<RawAttribute>)
    requires
        first_fvm_from(attrs, 0) is None,
    ensures
        fvm_parts(attrs).len() == 0,
        merged_tags(attrs).len() == 0,
    decreases attrs.len(),
{
    lemma_no_fvm_from(attrs, 0);
    if attrs.len() > 0 {
        assert(!is_fvm(attrs.last()));
        assert forall|j: int| 0 <= j < attrs.drop_last().len() implies !is_fvm(
            #[trigger] attrs.drop_last()[j],
        ) by {
            assert(attrs.drop_last()[j] == attrs[j]);
        }
        lemma_no_fvm_none(attrs.drop_last(), 0);
        lemma_untagged_has_no_parts(attrs.drop_last());
    }
}

/// Where no contract annotation is found from `from` on, none of the
/// annotations from there on is one.
pub proof fn lemma_no_fvm_from(attrs: Seq<RawAttribute>, from: int)
    requires
        0 <= from,
        first_fvm_from(attrs, from) is None,
    ensures
        forall|j: int| from <= j < attrs.len() ==> !is_fvm(#[trigger] attrs[j]),
    decreases attrs.len() - from,
{
    if from < attrs.len() {
        lemma_no_fvm_from(attrs, from + 1);
    }
}

/// Where none of the annotations from `from` on is a contract annotation,
/// none is found.
pub proof fn lemma_no_fvm_none(attrs: Seq<RawAttribute>, from: int)
    requires
        0 <= from,
        forall|j: int| from <= j < attrs.len() ==> !is_fvm(#[trigger] attrs[j]),
    ensures
        first_fvm_from(attrs, from) is None,
    decreases attrs.len() - from,
{
    if from < attrs.len() {
        lemma_no_fvm_none(attrs, from + 1);
    }
}

/// Where the scan of the members comes to an answer, the answer says
/// whether a method from `from` on has `constructor` or `message` as its first tag.
pub proof fn lemma_scan_methods(items: Seq<RawImplMember>, from: int)
    requires
        0 <= from,
        scan_methods(items, from) is Ok,
    ensures
        scan_methods(items, from)->Ok_0 == (exists|i: int|
            from <= i < items.len() && method_tagged_callable(#[trigger] items[i])),
    decreases items.len() - from,
{
    if from < items.len() {
        if method_tagged_callable(items[from]) {
        } else {
            lemma_scan_methods(items, from + 1);
            if exists|i: int| from <= i < items.len() && method_tagged_callable(#[trigger] items[i]) {
                let i = choose|i: int|
                    from <= i < items.len() && method_tagged_callable(#[trigger] items[i]);
                assert(from + 1 <= i);
            }
        }
    }
}

/// An impl block belongs to the contract if and only if its own first tag
/// is `impl` or the first tag of one of its methods is `constructor` or
/// `message`, wherever its annotations let the question be decided.
pub proof fn lemma_relevance(raw: RawImpl)
    requires
        relevance(raw) is Ok,
    ensures
        relevance(raw)->Ok_0 == (block_tagged_impl(raw) || exists|i: int|
            0 <= i < raw.items@.len() && method_tagged_callable(#[trigger] raw.items@[i])),
{
    if first_fvm_from(raw.attrs@, 0) is None && !any_member_tagged(raw.items@) {
        lemma_untagged_has_no_parts(raw.attrs@);
        assert forall|i: int| 0 <= i < raw.items@.len() implies !method_tagged_callable(
            #[trigger] raw.items@[i],
        ) by {
            assert(first_fvm_from(member_attrs(raw.items@[i]), 0) is None);
        }
    } else if !block_tagged_impl(raw) {
        lemma_scan_methods(raw.items@, 0);
    }
}


/// The method number of every arm reaches the message of that arm.
pub proof fn lemma_arms_reach_their_messages(table: DispatchTable, k: int)
    requires
        table.wf(),
        0 <= k < table@.len(),
    ensures
        route_of(table@.len(), table@[k].index) == Some(Route::Message(k as usize)),
        table@[k].index != CONSTRUCTOR_INDEX,
{
}

/// The dispatch of a module has one arm for each message of an inherent impl
/// block and none for a message of a trait impl: a trait impl block adds
/// nothing to the messages that are numbered.
pub proof fn lemma_trait_messages_are_not_numbered(items: Seq<Item>, n: int)
    requires
        0 < n <= items.len(),
        items[n - 1] matches Item::Fvm(FvmItem::ImplBlock(block)) && block@.trait_path is Some,
    ensures
        module_messages(items, n) == module_messages(items, n - 1),
        table_of(module_messages(items, n)) == table_of(module_messages(items, n - 1)),
{
}


/// Two selectors made from the same bytes hold the same four bytes.
pub proof fn lemma_compute_deterministic(first: Selector, second: Selector, input: Seq<u8>)
    requires
        first@ == selector_of(input),
        second@ == selector_of(input),
    ensures
        first@ == second@,
{
}

} // verus!
