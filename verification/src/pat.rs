//! The pattern builder: assembles pattern nodes and hands them to its
//! continuation.

use vstd::prelude::*;
use crate::ast::{dummy_span, Pat, PatKind, Span};
use crate::ident::{Ident, ToIdent};
use crate::invoke::{Identity, Invoke};

verus! {

/// A builder for pattern nodes.
pub struct PatBuilder<F = Identity> {
    pub callback: F,
    pub span: Span,
}

/// An identifier pattern under the given span.
pub open spec fn id_pat(span: Span, id: Ident) -> Pat {
    Pat { span, node: PatKind::Id(id) }
}

impl PatBuilder {
    /// A standalone pattern builder: finalizing returns the pattern itself.
    pub fn new() -> (b: PatBuilder)
        ensures
            b == (PatBuilder { callback: Identity, span: dummy_span() }),
    {
        PatBuilder::new_with_callback(Identity)
    }
}

impl<F> PatBuilder<F> where F: Invoke<Pat> {
    /// A pattern builder that hands the finished node to `callback`.
    pub fn new_with_callback(callback: F) -> (b: Self)
        ensures
            b == (PatBuilder { callback, span: dummy_span() }),
    {
        PatBuilder { callback, span: Span::dummy() }
    }

    /// Replaces the span that will be stamped on the finished node.
    pub fn span(self, span: Span) -> (b: PatBuilder<F>)
        ensures
            b == (PatBuilder { callback: self.callback, span }),
    {
        PatBuilder { callback: self.callback, span }
    }

    /// Finalizes with an already-assembled pattern node.
    pub fn build(self, pat: Pat) -> (r: F::Result)
        ensures
            r == self.callback.spec_invoke(pat),
    {
        self.callback.invoke(pat)
    }

    /// A wildcard pattern.
    pub fn wild(self) -> (r: F::Result)
        ensures
            r == self.callback.spec_invoke((Pat { span: self.span, node: PatKind::Wild })),
    {
        let span = self.span;
        self.build(Pat { span, node: PatKind::Wild })
    }

    /// An identifier pattern binding the given identifier.
    pub fn build_id(self, id: Ident) -> (r: F::Result)
        ensures
            r == self.callback.spec_invoke(id_pat(self.span, id)),
    {
        let span = self.span;
        self.build(Pat { span, node: PatKind::Id(id) })
    }

    /// An identifier pattern; the name is converted into an identifier
    /// first.
    pub fn id<I>(self, id: I) -> (r: F::Result) where I: ToIdent
        ensures
            exists |i: Ident| #![auto]
                i@ == id.spec_chars() && r == self.callback.spec_invoke(id_pat(self.span, i)),
    {
        let i = id.to_ident();
        self.build_id(i)
    }
}

} // verus!
