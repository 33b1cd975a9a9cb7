//! The item builder: assembles item nodes and hands them to its
//! continuation.

use vstd::prelude::*;
use crate::ast::{dummy_span, Item, Span};
use crate::ident::{Ident, ToIdent};
use crate::invoke::{Identity, Invoke};

verus! {

/// A builder for item nodes.
pub struct ItemBuilder<F = Identity> {
    pub callback: F,
    pub span: Span,
}

/// An item named by the given identifier, under the given span.
pub open spec fn named_item(span: Span, id: Ident) -> Item {
    Item { span, ident: id }
}

impl ItemBuilder {
    /// A standalone item builder: finalizing returns the item itself.
    pub fn new() -> (b: ItemBuilder)
        ensures
            b == (ItemBuilder { callback: Identity, span: dummy_span() }),
    {
        ItemBuilder::new_with_callback(Identity)
    }
}

impl<F> ItemBuilder<F> where F: Invoke<Item> {
    /// An item builder that hands the finished node to `callback`.
    pub fn new_with_callback(callback: F) -> (b: Self)
        ensures
            b == (ItemBuilder { callback, span: dummy_span() }),
    {
        ItemBuilder { callback, span: Span::dummy() }
    }

    /// Replaces the span that will be stamped on the finished node.
    pub fn span(self, span: Span) -> (b: ItemBuilder<F>)
        ensures
            b == (ItemBuilder { callback: self.callback, span }),
    {
        ItemBuilder { callback: self.callback, span }
    }

    /// Finalizes with an already-assembled item node.
    pub fn build(self, item: Item) -> (r: F::Result)
        ensures
            r == self.callback.spec_invoke(item),
    {
        self.callback.invoke(item)
    }

    /// An item carrying the given name.
    pub fn build_named(self, id: Ident) -> (r: F::Result)
        ensures
            r == self.callback.spec_invoke(named_item(self.span, id)),
    {
        let span = self.span;
        self.build(Item { span, ident: id })
    }

    /// An item carrying the given name; the name is converted into an
    /// identifier first.
    pub fn named<I>(self, id: I) -> (r: F::Result) where I: ToIdent
        ensures
            exists |i: Ident| #![auto]
                i@ == id.spec_chars() && r == self.callback.spec_invoke(named_item(self.span, i)),
    {
        let i = id.to_ident();
        self.build_named(i)
    }
}

} // verus!
