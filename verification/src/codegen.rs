//! What is generated for a contract: the dispatch arms of its state and the
//! members of its impl blocks, in the order in which they are emitted.

use vstd::prelude::*;
use vstd::string::*;
use heck::ToUpperCamelCase;
use crate::contract::Contract;
use crate::dispatch::{DispatchArm, DispatchTable, FIRST_MESSAGE_INDEX};
use crate::item::state::State;
use crate::item::{FvmItem, Item};
use crate::item_impl::callable::{Callable, CallableView};
use crate::item_impl::constructor::Constructor;
use crate::item_impl::impl_item::ImplItem;
use crate::item_impl::message::Message;
use crate::item_impl::{ItemImpl, ItemImplView};
use crate::item_mod::ItemMod;
use crate::syntax::{RawImplMember, RawItem};

verus! {

/// A name in upper camel case, as the `heck` crate writes it.
pub uninterp spec fn upper_camel_case(name: Seq<char>) -> Seq<char>;

/// Calls `ToUpperCamelCase::to_upper_camel_case` of the `heck` crate on a
/// string. The contract names the string that comes back; it depends on the
/// characters of the argument alone.
#[verifier::external_body]
fn to_upper_camel_case(name: &str) -> (camel: String)
    ensures
        camel@ == upper_camel_case(name@),
{
    name.to_upper_camel_case()
}

/// Makes the name of a message's output type from the message's name in
/// upper camel case: the suffix `Output` is added.
pub fn output_ident_from(camel: String) -> (ident: String)
    ensures
        ident@ == camel@ + "Output"@,
{
    camel.concat("Output")
}

/// The name of the output type that a trait impl declares for a message.
pub fn output_ident(name: &str) -> (ident: String)
    ensures
        ident@ == upper_camel_case(name@) + "Output"@,
{
    output_ident_from(to_upper_camel_case(name))
}

/// The messages among the first `n` members, in order.
pub open spec fn block_messages(items: Seq<ImplItem>, n: int) -> Seq<CallableView>
    decreases n,
{
    if n <= 0 {
        Seq::empty()
    } else {
        match items[n - 1] {
            ImplItem::Message(m) => block_messages(items, n - 1).push(m@),
            _ => block_messages(items, n - 1),
        }
    }
}

/// The messages of the inherent impl blocks among the first `n`
/// declarations, in declaration order. Messages of trait impls are left out.
pub open spec fn module_messages(items: Seq<Item>, n: int) -> Seq<CallableView>
    decreases n,
{
    if n <= 0 {
        Seq::empty()
    } else {
        match items[n - 1] {
            Item::Fvm(FvmItem::ImplBlock(block)) => if block@.trait_path is None {
                module_messages(items, n - 1) + block_messages(
                    block@.items,
                    block@.items.len() as int,
                )
            } else {
                module_messages(items, n - 1)
            },
            _ => module_messages(items, n - 1),
        }
    }
}

/// The arm of the message at position `k`: the method number `k + 2`; the
/// raw parameters are handed on unless the message takes its receiver only.
pub open spec fn arm_of(k: int, message: CallableView) -> DispatchArm {
    DispatchArm {
        index: (k + FIRST_MESSAGE_INDEX) as u64,
        handler: message.item.ident,
        passes_params: message.item.inputs@.len() != 1,
    }
}

/// The arms of the given messages.
pub open spec fn table_of(messages: Seq<CallableView>) -> Seq<DispatchArm> {
    Seq::new(messages.len(), |k: int| arm_of(k, messages[k]))
}

/// What is generated for the state: the struct itself and its dispatch.
#[derive(Debug)]
pub struct StateCode<'a> {
    pub state: &'a State,
    pub table: DispatchTable,
}

/// One member of a generated impl block.
#[derive(Debug)]
pub enum MemberCode<'a> {
    Constructor(&'a Constructor),
    /// A message of an inherent impl; its body is that of `generate_inherent_message`.
    InherentMessage(&'a Message),
    /// A message of a trait impl, with the name of its output type.
    TraitMessage(&'a Message, String),
    /// A member that is emitted as it was written.
    Other(&'a RawImplMember),
}

/// What a `MemberCode` stands for.
pub enum MemberView {
    Constructor(CallableView),
    InherentMessage(CallableView),
    TraitMessage(CallableView, Seq<char>),
    Other(RawImplMember),
}

impl<'a> View for MemberCode<'a> {
    type V = MemberView;

    open spec fn view(&self) -> MemberView {
        match self {
            MemberCode::Constructor(c) => MemberView::Constructor(c@),
            MemberCode::InherentMessage(m) => MemberView::InherentMessage(m@),
            MemberCode::TraitMessage(m, alias) => MemberView::TraitMessage(m@, alias@),
            MemberCode::Other(o) => MemberView::Other(**o),
        }
    }
}

/// The views of generated members.
pub open spec fn member_views(members: Seq<MemberCode<'_>>) -> Seq<MemberView> {
    members.map_values(|m: MemberCode| m@)
}

/// The constructors among the first `n` members, in order.
pub open spec fn constructors_of(items: Seq<ImplItem>, n: int) -> Seq<MemberView>
    decreases n,
{
    if n <= 0 {
        Seq::empty()
    } else {
        match items[n - 1] {
            ImplItem::Constructor(c) => constructors_of(items, n - 1).push(
                MemberView::Constructor(c@),
            ),
            _ => constructors_of(items, n - 1),
        }
    }
}

/// The messages among the first `n` members, in order, as members of an inherent impl.
pub open spec fn inherent_messages_of(items: Seq<ImplItem>, n: int) -> Seq<MemberView>
    decreases n,
{
    if n <= 0 {
        Seq::empty()
    } else {
        match items[n - 1] {
            ImplItem::Message(m) => inherent_messages_of(items, n - 1).push(
                MemberView::InherentMessage(m@),
            ),
            _ => inherent_messages_of(items, n - 1),
        }
    }
}

/// The messages among the first `n` members, in order, as members of a
/// trait impl: each with its output type's name.
pub open spec fn trait_messages_of(items: Seq<ImplItem>, n: int) -> Seq<MemberView>
    decreases n,
{
    if n <= 0 {
        Seq::empty()
    } else {
        match items[n - 1] {
            ImplItem::Message(m) => trait_messages_of(items, n - 1).push(
                MemberView::TraitMessage(m@, upper_camel_case(m@.item.ident@) + "Output"@),
            ),
            _ => trait_messages_of(items, n - 1),
        }
    }
}

/// The members passed through among the first `n` members, in order.
pub open spec fn others_of(items: Seq<ImplItem>, n: int) -> Seq<MemberView>
    decreases n,
{
    if n <= 0 {
        Seq::empty()
    } else {
        match items[n - 1] {
            ImplItem::Other(o) => others_of(items, n - 1).push(MemberView::Other(o)),
            _ => others_of(items, n - 1),
        }
    }
}

/// The members that are emitted for an impl block. Inherent: the
/// constructors, then the messages, then the members passed through. Trait:
/// the messages alone.
pub open spec fn impl_members(block: ItemImplView) -> Seq<MemberView> {
    let n = block.items.len() as int;
    if block.trait_path is None {
        constructors_of(block.items, n) + inherent_messages_of(block.items, n) + others_of(
            block.items,
            n,
        )
    } else {
        trait_messages_of(block.items, n)
    }
}

/// One step of an emitted body.
#[derive(Debug, Clone, Copy, PartialEq, Eq)]
pub enum BodyStep<'a> {
    /// The state is saved as it is.
    SaveState,
    /// One statement as it was written.
    Statement(&'a String),
}

/// What a `BodyStep` stands for.
pub enum BodyStepView {
    SaveState,
    Statement(String),
}

impl<'a> View for BodyStep<'a> {
    type V = BodyStepView;

    open spec fn view(&self) -> BodyStepView {
        match self {
            BodyStep::SaveState => BodyStepView::SaveState,
            BodyStep::Statement(s) => BodyStepView::Statement(**s),
        }
    }
}

/// The views of the steps of a body.
pub open spec fn step_views(steps: Seq<BodyStep<'_>>) -> Seq<BodyStepView> {
    steps.map_values(|s: BodyStep| s@)
}

/// The statements as steps, in order.
pub open spec fn statement_steps(statements: Seq<String>) -> Seq<BodyStepView> {
    statements.map_values(|s: String| BodyStepView::Statement(s))
}

/// The body that is emitted for a callable. A message of an inherent impl
/// saves the state first and then runs its statements; a constructor and a
/// message of a trait impl run their statements alone.
pub open spec fn body_of(member: MemberView) -> Seq<BodyStepView> {
    match member {
        MemberView::InherentMessage(m) => seq![BodyStepView::SaveState] + statement_steps(
            m.item.statements@,
        ),
        MemberView::Constructor(c) => statement_steps(c.item.statements@),
        MemberView::TraitMessage(m, _) => statement_steps(m.item.statements@),
        MemberView::Other(_) => Seq::empty(),
    }
}

fn push_statements<'a>(body: &mut Vec<BodyStep<'a>>, statements: &'a [String])
    ensures
        step_views(final(body)@) == step_views(old(body)@) + statement_steps(statements@),
{
    let ghost start = body@;
    let mut i: usize = 0;
    assert(step_views(body@) =~= step_views(start) + statement_steps(statements@.take(0)));
    while i < statements.len()
        invariant
            i <= statements@.len(),
            step_views(body@) == step_views(start) + statement_steps(statements@.take(i as int)),
        decreases statements@.len() - i,
    {
        let ghost before = body@;
        body.push(BodyStep::Statement(&statements[i]));
        proof {
            assert(statements@.take(i + 1) == statements@.take(i as int).push(statements@[i as int]));
            assert(step_views(body@) =~= step_views(before).push(
                BodyStepView::Statement(statements@[i as int]),
            ));
            assert(statement_steps(statements@.take(i + 1)) =~= statement_steps(
                statements@.take(i as int),
            ).push(BodyStepView::Statement(statements@[i as int])));
        }
        i += 1;
    }
    assert(statements@.take(statements@.len() as int) == statements@);
}

/// The body of a message of an inherent impl: the state is saved before
/// the message's own statements run.
pub fn generate_inherent_message(message: &Message) -> (body: Vec<BodyStep<'_>>)
    ensures
        step_views(body@) == body_of(MemberView::InherentMessage(message@)),
{
    let mut body: Vec<BodyStep<'_>> = Vec::new();
    body.push(BodyStep::SaveState);
    assert(step_views(body@) =~= seq![BodyStepView::SaveState]);
    push_statements(&mut body, message.statements());
    body
}

/// The body of a message of a trait impl: its statements.
pub fn generate_trait_message(message: &Message) -> (body: Vec<BodyStep<'_>>)
    ensures
        step_views(body@) == statement_steps(message@.item.statements@),
{
    let mut body: Vec<BodyStep<'_>> = Vec::new();
    assert(step_views(body@) =~= Seq::<BodyStepView>::empty());
    push_statements(&mut body, message.statements());
    assert(Seq::<BodyStepView>::empty() + statement_steps(message@.item.statements@)
        =~= statement_steps(message@.item.statements@));
    body
}

/// The body of a constructor: its statements.
pub fn generate_inherent_constructor(constructor: &Constructor) -> (body: Vec<BodyStep<'_>>)
    ensures
        step_views(body@) == statement_steps(constructor@.item.statements@),
{
    let mut body: Vec<BodyStep<'_>> = Vec::new();
    assert(step_views(body@) =~= Seq::<BodyStepView>::empty());
    push_statements(&mut body, constructor.statements());
    assert(Seq::<BodyStepView>::empty() + statement_steps(constructor@.item.statements@)
        =~= statement_steps(constructor@.item.statements@));
    body
}

/// What is generated for one impl block.
#[derive(Debug)]
pub struct ImplCode<'a> {
    pub block: &'a ItemImpl,
    pub members: Vec<MemberCode<'a>>,
}

/// What is generated for a contract.
#[derive(Debug)]
pub struct ContractCode<'a> {
    pub module: &'a ItemMod,
    /// The declarations passed through, in order.
    pub rust_items: Vec<&'a RawItem>,
    pub state: StateCode<'a>,
    /// The impl blocks of the contract, in order.
    pub impls: Vec<ImplCode<'a>>,
}

/// The declarations passed through among the first `n`, in order.
pub open spec fn rust_items_of(items: Seq<Item>, n: int) -> Seq<RawItem>
    decreases n,
{
    if n <= 0 {
        Seq::empty()
    } else {
        match items[n - 1] {
            Item::Rust(r) => rust_items_of(items, n - 1).push(r),
            _ => rust_items_of(items, n - 1),
        }
    }
}

/// The impl blocks among the first `n` declarations, in order.
pub open spec fn impl_blocks_of(items: Seq<Item>, n: int) -> Seq<ItemImpl>
    decreases n,
{
    if n <= 0 {
        Seq::empty()
    } else {
        match items[n - 1] {
            Item::Fvm(FvmItem::ImplBlock(b)) => impl_blocks_of(items, n - 1).push(b),
            _ => impl_blocks_of(items, n - 1),
        }
    }
}

/// Whether `codes` are what is generated for `blocks`, one for one.
pub open spec fn impl_codes_of(codes: Seq<ImplCode<'_>>, blocks: Seq<ItemImpl>) -> bool {
    &&& codes.len() == blocks.len()
    &&& forall|i: int|
        0 <= i < codes.len() ==> *(#[trigger] codes[i]).block == blocks[i] && member_views(
            codes[i].members@,
        ) == impl_members(blocks[i]@)
}

/// Adds the arms of the messages of one inherent impl block to `table`.
/// Once a message finds no method number left, `complete` is false.
fn push_block_arms(
    table: &mut DispatchTable,
    block: &ItemImpl,
    complete: bool,
    Ghost(base): Ghost<Seq<CallableView>>,
) -> (still: bool)
    requires
        old(table).wf(),
        complete ==> old(table)@ == table_of(base),
        !complete ==> base.len() >= u64::MAX,
    ensures
        final(table).wf(),
        still ==> final(table)@ == table_of(
            base + block_messages(block@.items, block@.items.len() as int),
        ),
        !still ==> (base + block_messages(block@.items, block@.items.len() as int)).len()
            >= u64::MAX,
{
    let items = block.items();
    let mut still = complete;
    let mut j: usize = 0;
    while j < items.len()
        invariant
            j <= items@.len(),
            items@ == block@.items,
            table.wf(),
            still ==> table@ == table_of(base + block_messages(items@, j as int)),
            !still ==> (base + block_messages(items@, j as int)).len() >= u64::MAX,
        decreases items@.len() - j,
    {
        if let ImplItem::Message(message) = &items[j] {
            let handler = message.ident().clone();
            let passes_params = message.declared_inputs().len() != 1;
            let ghost before = base + block_messages(items@, j as int);
            let ghost now = base + block_messages(items@, j + 1);
            assert(now =~= before.push(message@));
            if still {
                still = table.push(handler, passes_params);
                proof {
                    if still {
                        assert(table@ =~= table_of(now));
                    }
                }
            }
        } else {
            assert(base + block_messages(items@, j + 1) == base + block_messages(items@, j as int));
        }
        j += 1;
    }
    still
}

/// Builds the dispatch of a contract: one arm for each message of an
/// inherent impl block, numbered from 2 in declaration order. None where a
/// message is left without a method number.
pub fn generate_dispatch(module: &ItemMod) -> (res: Option<DispatchTable>)
    ensures
        match res {
            Some(table) => table.wf() && table@ == table_of(
                module_messages(module@.items, module@.items.len() as int),
            ),
            None => module_messages(module@.items, module@.items.len() as int).len() >= u64::MAX,
        },
{
    let items = module.items();
    let mut table = DispatchTable::new();
    let mut complete = true;
    let mut i: usize = 0;
    assert(table@ =~= table_of(module_messages(items@, 0)));
    while i < items.len()
        invariant
            i <= items@.len(),
            items@ == module@.items,
            table.wf(),
            complete ==> table@ == table_of(module_messages(items@, i as int)),
            !complete ==> module_messages(items@, i as int).len() >= u64::MAX,
        decreases items@.len() - i,
    {
        if let Item::Fvm(FvmItem::ImplBlock(block)) = &items[i] {
            if block.trait_path().is_none() {
                complete =
                push_block_arms(
                    &mut table,
                    block,
                    complete,
                    Ghost(module_messages(items@, i as int)),
                );
            }
        }
        i += 1;
    }
    if complete {
        Some(table)
    } else {
        None
    }
}

/// Generates what belongs to the state: the state itself with the dispatch
/// of the contract.
pub fn generate_storage_struct(module: &ItemMod) -> (res: Option<StateCode<'_>>)
    ensures
        match res {
            Some(code) => code.table.wf() && code.table@ == table_of(
                module_messages(module@.items, module@.items.len() as int),
            ) && (exists|i: int|
                0 <= i < module@.items.len() && #[trigger] module@.items[i] == Item::Fvm(
                    FvmItem::State(*code.state),
                )),
            None => module_messages(module@.items, module@.items.len() as int).len() >= u64::MAX,
        },
{
    match generate_dispatch(module) {
        Some(table) => Some(StateCode { state: module.state(), table }),
        None => None,
    }
}

/// Generates the members of a trait impl block: its messages, each with the
/// name of its output type.
pub fn generate_trait_item_impl(block: &ItemImpl) -> (code: ImplCode<'_>)
    requires
        block@.trait_path is Some,
    ensures
        *code.block == *block,
        member_views(code.members@) == impl_members(block@),
{
    let items = block.items();
    let mut members: Vec<MemberCode<'_>> = Vec::new();
    assert(member_views(members@) =~= Seq::<MemberView>::empty());
    let mut j: usize = 0;
    while j < items.len()
        invariant
            j <= items@.len(),
            items@ == block@.items,
            member_views(members@) == trait_messages_of(items@, j as int),
        decreases items@.len() - j,
    {
        if let ImplItem::Message(message) = &items[j] {
            let alias = output_ident(message.ident().as_str());
            let ghost before = members@;
            members.push(MemberCode::TraitMessage(message, alias));
            assert(member_views(members@) =~= member_views(before).push(
                MemberView::TraitMessage(message@, alias@),
            ));
        }
        j += 1;
    }
    ImplCode { block, members }
}

/// Generates the members of an inherent impl block: the constructors, then
/// the messages, then the members passed through.
pub fn generate_inherent_item_impl(block: &ItemImpl) -> (code: ImplCode<'_>)
    requires
        block@.trait_path is None,
    ensures
        *code.block == *block,
        member_views(code.members@) == impl_members(block@),
{
    let items = block.items();
    let mut members: Vec<MemberCode<'_>> = Vec::new();
    assert(member_views(members@) =~= Seq::<MemberView>::empty());
    let mut j: usize = 0;
    while j < items.len()
        invariant
            j <= items@.len(),
            items@ == block@.items,
            member_views(members@) == constructors_of(items@, j as int),
        decreases items@.len() - j,
    {
        if let ImplItem::Constructor(constructor) = &items[j] {
            let ghost before = members@;
            members.push(MemberCode::Constructor(constructor));
            assert(member_views(members@) =~= member_views(before).push(
                MemberView::Constructor(constructor@),
            ));
        }
        j += 1;
    }
    let ghost constructors = constructors_of(items@, items@.len() as int);
    j = 0;
    assert(member_views(members@) =~= constructors + inherent_messages_of(items@, 0));
    while j < items.len()
        invariant
            j <= items@.len(),
            items@ == block@.items,
            member_views(members@) == constructors + inherent_messages_of(items@, j as int),
        decreases items@.len() - j,
    {
        if let ImplItem::Message(message) = &items[j] {
            let ghost before = members@;
            members.push(MemberCode::InherentMessage(message));
            assert(member_views(members@) =~= member_views(before).push(
                MemberView::InherentMessage(message@),
            ));
            assert(constructors + inherent_messages_of(items@, j + 1) =~= (constructors
                + inherent_messages_of(items@, j as int)).push(
                MemberView::InherentMessage(message@),
            ));
        }
        j += 1;
    }
    let ghost callables = constructors + inherent_messages_of(items@, items@.len() as int);
    j = 0;
    assert(member_views(members@) =~= callables + others_of(items@, 0));
    while j < items.len()
        invariant
            j <= items@.len(),
            items@ == block@.items,
            member_views(members@) == callables + others_of(items@, j as int),
        decreases items@.len() - j,
    {
        if let ImplItem::Other(other) = &items[j] {
            let ghost before = members@;
            members.push(MemberCode::Other(other));
            assert(member_views(members@) =~= member_views(before).push(MemberView::Other(*other)));
            assert(callables + others_of(items@, j + 1) =~= (callables + others_of(
                items@,
                j as int,
            )).push(MemberView::Other(*other)));
        }
        j += 1;
    }
    ImplCode { block, members }
}

/// Generates the members of one impl block in the order in which they are emitted.
pub fn generate_item_impl(block: &ItemImpl) -> (code: ImplCode<'_>)
    ensures
        *code.block == *block,
        member_views(code.members@) == impl_members(block@),
{
    match block.trait_path() {
        Some(_) => generate_trait_item_impl(block),
        None => generate_inherent_item_impl(block),
    }
}

/// Generates everything for a contract: the declarations passed through,
/// the state with its dispatch, and the impl blocks, each in declaration
/// order. None where a message is left without a method number.
pub fn generate_code(contract: &Contract) -> (res: Option<ContractCode<'_>>)
    ensures
        match res {
            Some(code) => {
                let items = contract.spec_module()@.items;
                &&& *code.module == contract.spec_module()
                &&& code.rust_items@.map_values(|r: &RawItem| *r) == rust_items_of(
                    items,
                    items.len() as int,
                )
                &&& exists|i: int|
                    0 <= i < items.len() && #[trigger] items[i] == Item::Fvm(
                        FvmItem::State(*code.state.state),
                    )
                &&& code.state.table.wf()
                &&& code.state.table@ == table_of(module_messages(items, items.len() as int))
                &&& impl_codes_of(code.impls@, impl_blocks_of(items, items.len() as int))
            },
            None => module_messages(
                contract.spec_module()@.items,
                contract.spec_module()@.items.len() as int,
            ).len() >= u64::MAX,
        },
{
    let module = contract.module();
    let state = match generate_storage_struct(module) {
        Some(state) => state,
        None => {
            return None;
        },
    };
    let items = module.items();
    let mut rust_items: Vec<&RawItem> = Vec::new();
    let mut impls: Vec<ImplCode<'_>> = Vec::new();
    let mut i: usize = 0;
    assert(rust_items@.map_values(|r: &RawItem| *r) =~= rust_items_of(items@, 0));
    while i < items.len()
        invariant
            i <= items@.len(),
            items@ == module@.items,
            rust_items@.map_values(|r: &RawItem| *r) == rust_items_of(items@, i as int),
            impl_codes_of(impls@, impl_blocks_of(items@, i as int)),
        decreases items@.len() - i,
    {
        match &items[i] {
            Item::Rust(rust) => {
                let ghost before = rust_items@;
                rust_items.push(rust);
                assert(rust_items@.map_values(|r: &RawItem| *r) =~= before.map_values(
                    |r: &RawItem| *r,
                ).push(*rust));
            },
            Item::Fvm(FvmItem::ImplBlock(block)) => {
                impls.push(generate_item_impl(block));
            },
            _ => {},
        }
        i += 1;
    }
    Some(ContractCode { module, rust_items, state, impls })
}

} // verus!
