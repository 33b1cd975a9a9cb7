//! The type builder: assembles type nodes and hands them to its
//! continuation.

use vstd::prelude::*;
use crate::ast::{dummy_span, Span, Ty, TyKind};
use crate::ident::{Ident, ToIdent};
use crate::invoke::{Identity, Invoke};

verus! {

/// A builder for type nodes.
pub struct TyBuilder<F = Identity> {
    pub callback: F,
    pub span: Span,
}

/// A named type under the given span.
pub open spec fn id_ty(span: Span, id: Ident) -> Ty {
    Ty { span, node: TyKind::Id(id) }
}

impl TyBuilder {
    /// A standalone type builder: finalizing returns the type itself.
    pub fn new() -> (b: TyBuilder)
        ensures
            b == (TyBuilder { callback: Identity, span: dummy_span() }),
    {
        TyBuilder::new_with_callback(Identity)
    }
}

impl<F> TyBuilder<F> where F: Invoke<Ty> {
    /// A type builder that hands the finished node to `callback`.
    pub fn new_with_callback(callback: F) -> (b: Self)
        ensures
            b == (TyBuilder { callback, span: dummy_span() }),
    {
        TyBuilder { callback, span: Span::dummy() }
    }

    /// Replaces the span that will be stamped on the finished node.
    pub fn span(self, span: Span) -> (b: TyBuilder<F>)
        ensures
            b == (TyBuilder { callback: self.callback, span }),
    {
        TyBuilder { callback: self.callback, span }
    }

    /// Finalizes with an already-assembled type node.
    pub fn build(self, ty: Ty) -> (r: F::Result)
        ensures
            r == self.callback.spec_invoke(ty),
    {
        self.callback.invoke(ty)
    }

    /// The inferred type.
    pub fn infer(self) -> (r: F::Result)
        ensures
            r == self.callback.spec_invoke((Ty { span: self.span, node: TyKind::Infer })),
    {
        let span = self.span;
        self.build(Ty { span, node: TyKind::Infer })
    }

    /// A type named by the given identifier.
    pub fn build_id(self, id: Ident) -> (r: F::Result)
        ensures
            r == self.callback.spec_invoke(id_ty(self.span, id)),
    {
        let span = self.span;
        self.build(Ty { span, node: TyKind::Id(id) })
    }

    /// A type named by the given value; the name is converted into an
    /// identifier first.
    pub fn id<I>(self, id: I) -> (r: F::Result) where I: ToIdent
        ensures
            exists |i: Ident| #![auto]
                i@ == id.spec_chars() && r == self.callback.spec_invoke(id_ty(self.span, i)),
    {
        let i = id.to_ident();
        self.build_id(i)
    }
}

} // verus!
