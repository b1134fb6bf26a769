//! The contract module: its declarations, with exactly one state among them.

use vstd::prelude::*;
use crate::attrs::{attr_errors, other_parts, partition_attributes};
use crate::error::{collect, single, Diagnostic, Error, ErrorKind, Span};
use crate::item::event::Event;
use crate::item::state::State;
use crate::item::{classify_item, item_error, item_of, FvmItem, Item, ItemClass};
use crate::item_impl::ItemImpl;
use crate::syntax::{RawAttribute, RawItem, RawModule};

verus! {

/// What a contract module stands for.
pub struct ItemModView {
    /// The annotations outside the contract vocabulary.
    pub attrs: Seq<RawAttribute>,
    pub vis: String,
    pub ident: String,
    pub items: Seq<Item>,
    pub span: Span,
}

/// The module that holds a contract.
#[derive(Debug, PartialEq, Eq)]
pub struct ItemMod {
    attrs: Vec<RawAttribute>,
    vis: String,
    ident: String,
    items: Vec<Item>,
    span: Span,
}

impl View for ItemMod {
    type V = ItemModView;

    closed spec fn view(&self) -> ItemModView {
        ItemModView {
            attrs: self.attrs@,
            vis: self.vis,
            ident: self.ident,
            items: self.items@,
            span: self.span,
        }
    }
}

/// Whether a declaration is a struct whose first tag is `state`.
pub open spec fn is_state_decl(raw: RawItem) -> bool {
    classify_item(raw) == Ok::<ItemClass, Seq<Diagnostic>>(ItemClass::State)
}

/// How many of the first `n` declarations are state structs.
pub open spec fn count_states(raws: Seq<RawItem>, n: int) -> nat
    decreases n,
{
    if n <= 0 {
        0
    } else {
        count_states(raws, n - 1) + if is_state_decl(raws[n - 1]) {
            1nat
        } else {
            0nat
        }
    }
}

/// Whether an item is the state.
pub open spec fn is_state_item(item: Item) -> bool {
    item matches Item::Fvm(FvmItem::State(_))
}

/// How many of the first `n` items are states.
pub open spec fn count_state_items(items: Seq<Item>, n: int) -> nat
    decreases n,
{
    if n <= 0 {
        0
    } else {
        count_state_items(items, n - 1) + if is_state_item(items[n - 1]) {
            1nat
        } else {
            0nat
        }
    }
}

/// The diagnostics of all rejected declarations among the first `n`, in
/// order; none where no declaration is rejected.
pub open spec fn item_errors(raws: Seq<RawItem>, n: int) -> Option<Seq<Diagnostic>>
    decreases n,
{
    if n <= 0 {
        None
    } else {
        collect(item_errors(raws, n - 1), item_error(raws[n - 1]))
    }
}

/// Whether `items` are what the builder makes of the accepted `raws`, one for one.
pub open spec fn items_match(items: Seq<Item>, raws: Seq<RawItem>) -> bool {
    &&& items.len() == raws.len()
    &&& forall|i: int| 0 <= i < items.len() ==> item_of(#[trigger] items[i], raws[i])
}

/// What the builder reports for a module that it rejects: a module without
/// a body, an annotation that is rejected, all declarations that are
/// rejected, together, and any number of state structs other than one.
pub open spec fn module_error(module: RawModule) -> Option<Seq<Diagnostic>> {
    match module.content {
        None => Some(single(ErrorKind::OutOfLineModule, module.span)),
        Some(content) => match attr_errors(module.attrs@, module.attrs@.len() as int) {
            Some(e) => Some(e),
            None => match item_errors(content@, content@.len() as int) {
                Some(e) => Some(e),
                None => if count_states(content@, content@.len() as int) == 0 {
                    Some(single(ErrorKind::MissingState, module.span))
                } else if count_states(content@, content@.len() as int) > 1 {
                    Some(single(ErrorKind::MultipleStates, module.span))
                } else {
                    None
                },
            },
        },
    }
}

/// Whether `view` is what the builder makes of an accepted `module`.
pub open spec fn module_of(view: ItemModView, module: RawModule) -> bool {
    &&& module.content is Some
    &&& view.attrs == other_parts(module.attrs@)
    &&& view.vis == module.vis
    &&& view.ident == module.ident
    &&& view.span == module.span
    &&& items_match(view.items, module.content->Some_0@)
}

/// Built items hold as many states as their declarations hold state structs.
pub proof fn lemma_state_counts(items: Seq<Item>, raws: Seq<RawItem>, n: int)
    requires
        items_match(items, raws),
        0 <= n <= items.len(),
    ensures
        count_state_items(items, n) == count_states(raws, n),
    decreases n,
{
    if n > 0 {
        lemma_state_counts(items, raws, n - 1);
        assert(item_of(items[n - 1], raws[n - 1]));
    }
}

fn build_items(raws: Vec<RawItem>) -> (res: Result<Vec<Item>, Error>)
    ensures
        match res {
            Ok(items) => item_errors(raws@, raws@.len() as int) is None && items_match(
                items@,
                raws@,
            ),
            Err(e) => item_errors(raws@, raws@.len() as int) == Some(e@),
        },
{
    let mut items: Vec<Item> = Vec::new();
    let mut err: Option<Error> = None;
    let ghost all = raws@;
    for raw in it: raws
        invariant
            it.seq() == all,
            all == raws@,
            match err {
                None => item_errors(all, it.index() as int) is None && items_match(
                    items@,
                    all.take(it.index() as int),
                ),
                Some(e) => item_errors(all, it.index() as int) == Some(e@),
            },
    {
        proof {
            assert(raw == all[it.index() as int]);
        }
        match Item::try_from(raw) {
            Ok(item) => {
                if err.is_none() {
                    items.push(item);
                }
            },
            Err(e) => {
                err = Some(Error::collect(err, e));
            },
        }
    }
    proof {
        assert(all.take(all.len() as int) == all);
    }
    match err {
        Some(e) => Err(e),
        None => Ok(items),
    }
}

/// Tells whether the items hold no state, one, or more.
fn state_multiplicity(items: &Vec<Item>) -> (n: u8)
    ensures
        n as nat == if count_state_items(items@, items@.len() as int) > 1 {
            2nat
        } else {
            count_state_items(items@, items@.len() as int)
        },
{
    let mut n: u8 = 0;
    let mut i: usize = 0;
    while i < items.len()
        invariant
            i <= items@.len(),
            n as nat == if count_state_items(items@, i as int) > 1 {
                2nat
            } else {
                count_state_items(items@, i as int)
            },
        decreases items@.len() - i,
    {
        if let Item::Fvm(FvmItem::State(_)) = &items[i] {
            if n < 2 {
                n += 1;
            }
        }
        i += 1;
    }
    n
}

impl ItemMod {
    #[verifier::type_invariant]
    spec fn holds_one_state(&self) -> bool {
        count_state_items(self.items@, self.items@.len() as int) == 1
    }

    /// A contract module holds exactly one state. This holds of every value of the type.
    pub open spec fn wf(&self) -> bool {
        count_state_items(self@.items, self@.items.len() as int) == 1
    }

    /// Builds the contract module and checks at once that it holds exactly one state.
    pub fn try_from(module: RawModule) -> (res: Result<Self, Error>)
        ensures
            match res {
                Ok(built) => module_error(module) is None && module_of(built@, module)
                    && built.wf(),
                Err(e) => module_error(module) == Some(e@),
            },
    {
        let RawModule { attrs, vis, ident, content, span } = module;
        let raws = match content {
            Some(raws) => raws,
            None => {
                return Err(Error::new(ErrorKind::OutOfLineModule, span));
            },
        };
        let (_, other_attrs) = match partition_attributes(attrs) {
            Ok(parts) => parts,
            Err(e) => {
                return Err(e);
            },
        };
        let items = match build_items(raws) {
            Ok(items) => items,
            Err(e) => {
                return Err(e);
            },
        };
        proof {
            lemma_state_counts(items@, raws@, items@.len() as int);
        }
        let states = state_multiplicity(&items);
        if states == 0 {
            return Err(Error::new(ErrorKind::MissingState, span));
        }
        if states > 1 {
            return Err(Error::new(ErrorKind::MultipleStates, span));
        }
        Ok(Self { attrs: other_attrs, vis, ident, items, span })
    }

    pub fn ident(&self) -> (ident: &String)
        ensures
            *ident == self@.ident,
    {
        &self.ident
    }

    /// The one state of the contract.
    pub fn state(&self) -> (state: &State)
        ensures
            self.wf(),
            exists|i: int|
                0 <= i < self@.items.len() && #[trigger] self@.items[i] == Item::Fvm(
                    FvmItem::State(*state),
                ),
    {
        proof {
            use_type_invariant(self);
        }
        let mut i: usize = 0;
        while i < self.items.len()
            invariant
                i <= self.items@.len(),
                self.wf(),
                count_state_items(self.items@, i as int) == 0,
            decreases self.items@.len() - i,
        {
            if let Item::Fvm(FvmItem::State(state)) = &self.items[i] {
                assert(self@.items[i as int] == Item::Fvm(FvmItem::State(*state)));
                return state;
            }
            i += 1;
        }
        proof {
            use_type_invariant(self);
            assert(false);
        }
        vstd::pervasive::unreached()
    }

    pub fn items(&self) -> (items: &[Item])
        ensures
            items@ == self@.items,
    {
        self.items.as_slice()
    }

    /// A cursor over the impl blocks of the contract, at the first declaration.
    pub fn impls(&self) -> (iter: IterItemImpls<'_>)
        ensures
            iter.wf(),
            iter.pos() == 0,
            iter.all() == self@.items,
    {
        IterItemImpls { items_iter: IterFvmItems::new(self) }
    }

    /// A cursor over the events of the contract, at the first declaration.
    pub fn events(&self) -> (iter: IterEvents<'_>)
        ensures
            iter.wf(),
            iter.pos() == 0,
            iter.all() == self@.items,
    {
        IterEvents { items_iter: IterFvmItems::new(self) }
    }

    /// The annotations outside the contract vocabulary.
    pub fn attrs(&self) -> (attrs: &[RawAttribute])
        ensures
            attrs@ == self@.attrs,
    {
        self.attrs.as_slice()
    }

    /// The module's visibility as written.
    pub fn vis(&self) -> (vis: &String)
        ensures
            *vis == self@.vis,
    {
        &self.vis
    }

    /// Where the module stands.
    pub fn span(&self) -> (span: Span)
        ensures
            span == self@.span,
    {
        self.span
    }
}

/// Whether none of the items at positions `from` up to `to` meets `wanted`.
pub open spec fn none_between(
    items: Seq<Item>,
    from: int,
    to: int,
    wanted: spec_fn(Item) -> bool,
) -> bool {
    forall|j: int| from <= j < to ==> !wanted(#[trigger] items[j])
}

/// Walks the declarations that belong to the contract, in order.
#[derive(Debug)]
pub struct IterFvmItems<'a> {
    items: &'a [Item],
    pos: usize,
}

impl<'a> IterFvmItems<'a> {
    /// All declarations of the module.
    pub closed spec fn all(&self) -> Seq<Item> {
        self.items@
    }

    /// How many declarations have been passed over.
    pub closed spec fn pos(&self) -> int {
        self.pos as int
    }

    pub open spec fn wf(&self) -> bool {
        0 <= self.pos() <= self.all().len()
    }

    pub fn new(fvm_module: &'a ItemMod) -> (iter: Self)
        ensures
            iter.wf(),
            iter.pos() == 0,
            iter.all() == fvm_module@.items,
    {
        Self { items: fvm_module.items.as_slice(), pos: 0 }
    }

    /// The next declaration of the contract, if one is left; those passed
    /// through are passed over.
    pub fn next(&mut self) -> (item: Option<&'a FvmItem>)
        requires
            old(self).wf(),
        ensures
            final(self).wf(),
            final(self).all() == old(self).all(),
            match item {
                Some(fvm) => old(self).pos() < final(self).pos()
                    && old(self).all()[final(self).pos() - 1] == Item::Fvm(*fvm)
                    && none_between(old(self).all(), old(self).pos(), final(self).pos() - 1, |i: Item| i is Fvm),
                None => final(self).pos() == old(self).all().len()
                    && none_between(old(self).all(), old(self).pos(), final(self).pos(), |i: Item| i is Fvm),
            },
    {
        while self.pos < self.items.len()
            invariant
                old(self).pos <= self.pos <= self.items@.len(),
                self.items == old(self).items,
                none_between(self.items@, old(self).pos as int, self.pos as int, |i: Item| i is Fvm),
            decreases self.items@.len() - self.pos,
        {
            let item = &self.items[self.pos];
            if let Some(fvm) = item.map_fvm_item() {
                self.pos += 1;
                return Some(fvm);
            }
            self.pos += 1;
        }
        None
    }
}

/// Walks the events of a contract module, in order.
#[derive(Debug)]
pub struct IterEvents<'a> {
    items_iter: IterFvmItems<'a>,
}

impl<'a> IterEvents<'a> {
    pub closed spec fn all(&self) -> Seq<Item> {
        self.items_iter.all()
    }

    pub closed spec fn pos(&self) -> int {
        self.items_iter.pos()
    }

    pub open spec fn wf(&self) -> bool {
        0 <= self.pos() <= self.all().len()
    }

    /// The next event, if one is left.
    pub fn next(&mut self) -> (item: Option<&'a Event>)
        requires
            old(self).wf(),
        ensures
            final(self).wf(),
            final(self).all() == old(self).all(),
            match item {
                Some(event) => old(self).pos() < final(self).pos()
                    && old(self).all()[final(self).pos() - 1] == Item::Fvm(FvmItem::Event(*event))
                    && none_between(old(self).all(), old(self).pos(), final(self).pos() - 1, |i: Item| i matches Item::Fvm(FvmItem::Event(_))),
                None => final(self).pos() == old(self).all().len()
                    && none_between(old(self).all(), old(self).pos(), final(self).pos(), |i: Item| i matches Item::Fvm(FvmItem::Event(_))),
            },
    {
        loop
            invariant
                self.items_iter.wf(),
                self.items_iter.all() == old(self).items_iter.all(),
                old(self).items_iter.pos() <= self.items_iter.pos(),
                none_between(
                    self.items_iter.all(),
                    old(self).items_iter.pos(),
                    self.items_iter.pos(),
                    |i: Item| i matches Item::Fvm(FvmItem::Event(_)),
                ),
            decreases self.items_iter.all().len() - self.items_iter.pos(),
        {
            match self.items_iter.next() {
                None => {
                    return None;
                },
                Some(fvm_item) => {
                    if let Some(event) = fvm_item.filter_map_event_item() {
                        return Some(event);
                    }
                },
            }
        }
    }
}

/// Walks the impl blocks of a contract module, in order.
#[derive(Debug)]
pub struct IterItemImpls<'a> {
    items_iter: IterFvmItems<'a>,
}

impl<'a> IterItemImpls<'a> {
    pub closed spec fn all(&self) -> Seq<Item> {
        self.items_iter.all()
    }

    pub closed spec fn pos(&self) -> int {
        self.items_iter.pos()
    }

    pub open spec fn wf(&self) -> bool {
        0 <= self.pos() <= self.all().len()
    }

    /// The next impl block, if one is left.
    pub fn next(&mut self) -> (item: Option<&'a ItemImpl>)
        requires
            old(self).wf(),
        ensures
            final(self).wf(),
            final(self).all() == old(self).all(),
            match item {
                Some(block) => old(self).pos() < final(self).pos()
                    && old(self).all()[final(self).pos() - 1] == Item::Fvm(FvmItem::ImplBlock(*block))
                    && none_between(old(self).all(), old(self).pos(), final(self).pos() - 1, |i: Item| i matches Item::Fvm(FvmItem::ImplBlock(_))),
                None => final(self).pos() == old(self).all().len()
                    && none_between(old(self).all(), old(self).pos(), final(self).pos(), |i: Item| i matches Item::Fvm(FvmItem::ImplBlock(_))),
            },
    {
        loop
            invariant
                self.items_iter.wf(),
                self.items_iter.all() == old(self).items_iter.all(),
                old(self).items_iter.pos() <= self.items_iter.pos(),
                none_between(
                    self.items_iter.all(),
                    old(self).items_iter.pos(),
                    self.items_iter.pos(),
                    |i: Item| i matches Item::Fvm(FvmItem::ImplBlock(_)),
                ),
            decreases self.items_iter.all().len() - self.items_iter.pos(),
        {
            match self.items_iter.next() {
                None => {
                    return None;
                },
                Some(fvm_item) => {
                    if let Some(block) = fvm_item.filter_map_impl_block() {
                        return Some(block);
                    }
                },
            }
        }
    }
}

} // verus!
