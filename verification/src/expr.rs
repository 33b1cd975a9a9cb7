//! The expression builder: assembles expression nodes and hands them to its
//! continuation.

use vstd::prelude::*;
use crate::ast::{dummy_span, Expr, ExprKind, Lit, Span};
use crate::ident::{Ident, ToIdent};
use crate::invoke::{Identity, Invoke};
use crate::lit::LitBuilder;

verus! {

/// A builder for expression nodes.
pub struct ExprBuilder<F = Identity> {
    pub callback: F,
    pub span: Span,
}

/// A path expression naming an identifier, under the given span.
pub open spec fn id_expr(span: Span, id: Ident) -> Expr {
    Expr { span, node: ExprKind::Id(id) }
}

/// A literal expression under the given span.
pub open spec fn lit_expr(span: Span, lit: Lit) -> Expr {
    Expr { span, node: ExprKind::Lit(lit) }
}

impl ExprBuilder {
    /// A standalone expression builder: finalizing returns the expression
    /// itself.
    pub fn new() -> (b: ExprBuilder)
        ensures
            b == (ExprBuilder { callback: Identity, span: dummy_span() }),
    {
        ExprBuilder::new_with_callback(Identity)
    }
}

impl<F> ExprBuilder<F> where F: Invoke<Expr> {
    /// An expression builder that hands the finished node to `callback`.
    pub fn new_with_callback(callback: F) -> (b: Self)
        ensures
            b == (ExprBuilder { callback, span: dummy_span() }),
    {
        ExprBuilder { callback, span: Span::dummy() }
    }

    /// Replaces the span that will be stamped on the finished node.
    pub fn span(self, span: Span) -> (b: ExprBuilder<F>)
        ensures
            b == (ExprBuilder { callback: self.callback, span }),
    {
        ExprBuilder { callback: self.callback, span }
    }

    /// Finalizes with an already-assembled expression node.
    pub fn build(self, expr: Expr) -> (r: F::Result)
        ensures
            r == self.callback.spec_invoke(expr),
    {
        self.callback.invoke(expr)
    }

    /// A path expression naming the given identifier.
    pub fn build_id(self, id: Ident) -> (r: F::Result)
        ensures
            r == self.callback.spec_invoke(id_expr(self.span, id)),
    {
        let span = self.span;
        self.build(Expr { span, node: ExprKind::Id(id) })
    }

    /// A path expression; the name is converted into an identifier first.
    pub fn id<I>(self, id: I) -> (r: F::Result) where I: ToIdent
        ensures
            exists |i: Ident| #![auto]
                i@ == id.spec_chars() && r == self.callback.spec_invoke(id_expr(self.span, i)),
    {
        let i = id.to_ident();
        self.build_id(i)
    }

    /// A literal expression with an already-assembled literal node.
    pub fn build_lit(self, lit: Lit) -> (r: F::Result)
        ensures
            r == self.callback.spec_invoke(lit_expr(self.span, lit)),
    {
        let span = self.span;
        self.build(Expr { span, node: ExprKind::Lit(lit) })
    }

    /// Spawns a literal builder whose finished literal becomes a literal
    /// expression finalized by this builder.
    pub fn lit(self) -> (b: LitBuilder<Self>)
        ensures
            b == (LitBuilder { callback: self, span: dummy_span() }),
    {
        LitBuilder::new_with_callback(self)
    }
}

impl<F> Invoke<Lit> for ExprBuilder<F> where F: Invoke<Expr> {
    type Result = F::Result;

    open spec fn spec_invoke(self, lit: Lit) -> F::Result {
        self.callback.spec_invoke(lit_expr(self.span, lit))
    }

    fn invoke(self, lit: Lit) -> (r: F::Result) {
        self.build_lit(lit)
    }
}

} // verus!
