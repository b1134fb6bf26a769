//! Cursors over the constructors and the messages of an impl block.

use vstd::prelude::*;
use crate::item_impl::callable::CallableWithSelector;
use crate::item_impl::constructor::Constructor;
use crate::item_impl::impl_item::ImplItem;
use crate::item_impl::message::Message;
use crate::item_impl::ItemImpl;

verus! {

/// Whether none of the members at positions `from` up to `to` is a constructor.
pub open spec fn no_constructor_between(items: Seq<ImplItem>, from: int, to: int) -> bool {
    forall|j: int| from <= j < to ==> !((#[trigger] items[j]) is Constructor)
}

/// Whether none of the members at positions `from` up to `to` is a message.
pub open spec fn no_message_between(items: Seq<ImplItem>, from: int, to: int) -> bool {
    forall|j: int| from <= j < to ==> !((#[trigger] items[j]) is Message)
}

/// Walks the constructors of an impl block in order, each with its selector.
#[derive(Debug)]
pub struct IterConstructors<'a> {
    item_impl: &'a ItemImpl,
    pos: usize,
}

impl<'a> IterConstructors<'a> {
    pub closed spec fn block(&self) -> &'a ItemImpl {
        self.item_impl
    }

    /// How many members have been passed over.
    pub closed spec fn pos(&self) -> int {
        self.pos as int
    }

    pub open spec fn wf(&self) -> bool {
        0 <= self.pos() <= self.block()@.items.len()
    }

    pub fn new(item_impl: &'a ItemImpl) -> (iter: Self)
        ensures
            iter.wf(),
            iter.pos() == 0,
            iter.block() == item_impl,
    {
        Self { item_impl, pos: 0 }
    }

    /// The next constructor with its composed selector, if one is left.
    pub fn next(&mut self) -> (item: Option<CallableWithSelector<'a, Constructor>>)
        requires
            old(self).wf(),
        ensures
            final(self).wf(),
            final(self).block() == old(self).block(),
            match item {
                Some(cws) => old(self).pos() < final(self).pos() && cws.wf()
                    && cws.spec_item_impl() == old(self).block()
                    && old(self).block()@.items[final(self).pos() - 1] == ImplItem::Constructor(*cws.spec_callable())
                    && no_constructor_between(old(self).block()@.items, old(self).pos(), final(self).pos() - 1),
                None => final(self).pos() == old(self).block()@.items.len()
                    && no_constructor_between(old(self).block()@.items, old(self).pos(), final(self).pos()),
            },
    {
        let item_impl: &'a ItemImpl = self.item_impl;
        let items = item_impl.items();
        while self.pos < items.len()
            invariant
                old(self).pos <= self.pos <= items@.len(),
                items@ == item_impl@.items,
                self.item_impl == old(self).item_impl,
                item_impl == self.item_impl,
                no_constructor_between(items@, old(self).pos as int, self.pos as int),
            decreases items@.len() - self.pos,
        {
            if let Some(constructor) = items[self.pos].filter_map_constructor() {
                self.pos += 1;
                return Some(CallableWithSelector::new(item_impl, constructor));
            }
            self.pos += 1;
        }
        None
    }
}

/// Walks the messages of an impl block in order, each with its selector.
#[derive(Debug)]
pub struct IterMessages<'a> {
    item_impl: &'a ItemImpl,
    pos: usize,
}

impl<'a> IterMessages<'a> {
    pub closed spec fn block(&self) -> &'a ItemImpl {
        self.item_impl
    }

    /// How many members have been passed over.
    pub closed spec fn pos(&self) -> int {
        self.pos as int
    }

    pub open spec fn wf(&self) -> bool {
        0 <= self.pos() <= self.block()@.items.len()
    }

    pub fn new(item_impl: &'a ItemImpl) -> (iter: Self)
        ensures
            iter.wf(),
            iter.pos() == 0,
            iter.block() == item_impl,
    {
        Self { item_impl, pos: 0 }
    }

    /// The next message with its composed selector, if one is left.
    pub fn next(&mut self) -> (item: Option<CallableWithSelector<'a, Message>>)
        requires
            old(self).wf(),
        ensures
            final(self).wf(),
            final(self).block() == old(self).block(),
            match item {
                Some(cws) => old(self).pos() < final(self).pos() && cws.wf()
                    && cws.spec_item_impl() == old(self).block()
                    && old(self).block()@.items[final(self).pos() - 1] == ImplItem::Message(*cws.spec_callable())
                    && no_message_between(old(self).block()@.items, old(self).pos(), final(self).pos() - 1),
                None => final(self).pos() == old(self).block()@.items.len()
                    && no_message_between(old(self).block()@.items, old(self).pos(), final(self).pos()),
            },
    {
        let item_impl: &'a ItemImpl = self.item_impl;
        let items = item_impl.items();
        while self.pos < items.len()
            invariant
                old(self).pos <= self.pos <= items@.len(),
                items@ == item_impl@.items,
                self.item_impl == old(self).item_impl,
                item_impl == self.item_impl,
                no_message_between(items@, old(self).pos as int, self.pos as int),
            decreases items@.len() - self.pos,
        {
            if let Some(message) = items[self.pos].filter_map_message() {
                self.pos += 1;
                return Some(CallableWithSelector::new(item_impl, message));
            }
            self.pos += 1;
        }
        None
    }
}

} // verus!
