//! The statement builder: assembles statement nodes — `let` bindings,
//! expression statements, item statements — and hands them to its
//! continuation.
//!
//! Composite constructions run through chained sub-builders.  The `let`
//! flow, for instance, spawns a pattern builder whose continuation is the
//! statement builder itself; finalizing the pattern yields a
//! [`StmtLetBuilder`], which may collect an optional declared type (through
//! a further type builder) and an optional initializer expression before
//! producing the finished statement.

use vstd::prelude::*;
use crate::ast::{dummy_span, Decl, DeclKind, Expr, Item, Local, Pat, Span, Stmt, StmtKind, Ty};
use crate::expr::ExprBuilder;
use crate::ident::{Ident, ToIdent};
use crate::invoke::{Identity, Invoke};
use crate::item::ItemBuilder;
use crate::pat::{id_pat, PatBuilder};
use crate::ty::TyBuilder;

verus! {

/// A builder for statement nodes.
pub struct StmtBuilder<F = Identity> {
    pub callback: F,
    pub span: Span,
}

/// The node a statement builder finalizes: its payload under the builder's
/// current span.
pub open spec fn built_stmt<F>(b: StmtBuilder<F>, node: StmtKind) -> Stmt {
    Stmt { span: b.span, node }
}

/// A `let` statement: a local declaration holding the bound pattern, the
/// optional declared type and the optional initializer, with the span
/// stamped on the binding, the declaration and the statement alike.
pub open spec fn let_stmt(span: Span, pat: Pat, ty: Option<Ty>, init: Option<Expr>) -> Stmt {
    Stmt {
        span,
        node: StmtKind::Decl(Decl { span, node: DeclKind::Local(Local { pat, ty, init, span }) }),
    }
}

/// An item statement: an item declaration under the given span.
pub open spec fn item_stmt(span: Span, item: Item) -> Stmt {
    Stmt { span, node: StmtKind::Decl(Decl { span, node: DeclKind::Item(item) }) }
}

/// An expression statement.
pub open spec fn expr_stmt(span: Span, expr: Expr) -> Stmt {
    Stmt { span, node: StmtKind::Expr(expr) }
}

/// A semicolon-terminated expression statement.
pub open spec fn semi_stmt(span: Span, expr: Expr) -> Stmt {
    Stmt { span, node: StmtKind::Semi(expr) }
}

impl StmtBuilder {
    /// A standalone statement builder: its continuation is the identity, so
    /// finalizing returns the statement node itself.
    pub fn new() -> (b: StmtBuilder)
        ensures
            b == (StmtBuilder { callback: Identity, span: dummy_span() }),
    {
        StmtBuilder::new_with_callback(Identity)
    }
}

impl<F> StmtBuilder<F> where F: Invoke<Stmt> {
    /// A statement builder that hands the finished node to `callback`.  The
    /// span starts as the empty/unknown placeholder.
    pub fn new_with_callback(callback: F) -> (b: Self)
        ensures
            b == (StmtBuilder { callback, span: dummy_span() }),
    {
        StmtBuilder { callback, span: Span::dummy() }
    }

    /// Replaces the span that will be stamped on the finished node.
    pub fn span(self, span: Span) -> (b: Self)
        ensures
            b == (StmtBuilder { callback: self.callback, span }),
    {
        StmtBuilder { callback: self.callback, span }
    }

    /// Finalizes: stamps the current span onto the payload and hands the
    /// statement node to the continuation, returning whatever it returns.
    pub fn build_stmt(self, stmt_: StmtKind) -> (r: F::Result)
        ensures
            r == self.callback.spec_invoke(built_stmt(self, stmt_)),
    {
        let span = self.span;
        self.callback.invoke(Stmt { span, node: stmt_ })
    }

    /// A `let` statement from an already-built pattern, optional declared
    /// type and optional initializer.  All combinations are valid: no type
    /// and no initializer is a finished binding, not an error.
    pub fn build_let(self, pat: Pat, ty: Option<Ty>, init: Option<Expr>) -> (r: F::Result)
        ensures
            r == self.callback.spec_invoke(let_stmt(self.span, pat, ty, init)),
    {
        let span = self.span;
        let local = Local { pat, ty, init, span };
        let decl = Decl { span, node: DeclKind::Local(local) };
        self.build_stmt(StmtKind::Decl(decl))
    }

    /// Begins a `let` statement: returns a pattern builder whose finished
    /// pattern turns this builder into a [`StmtLetBuilder`] collecting the
    /// rest of the binding.
    pub fn let_(self) -> (b: PatBuilder<Self>)
        ensures
            b == (PatBuilder { callback: self, span: dummy_span() }),
    {
        PatBuilder::new_with_callback(self)
    }

    /// The shortcut `let` path: binds the given name directly, returning an
    /// expression builder for the initializer.  The finished statement is
    /// the same one the general path produces from the same identifier and
    /// initializer.
    pub fn let_id<I>(self, id: I) -> (b: ExprBuilder<StmtLetIdBuilder<F>>) where I: ToIdent
        ensures
            b.span == dummy_span(),
            b.callback.builder == self,
            b.callback.id@ == id.spec_chars(),
    {
        let id = id.to_ident();
        ExprBuilder::new_with_callback(StmtLetIdBuilder { builder: self, id })
    }

    /// An expression statement from an already-built expression.
    pub fn build_expr(self, expr: Expr) -> (r: F::Result)
        ensures
            r == self.callback.spec_invoke(expr_stmt(self.span, expr)),
    {
        self.build_stmt(StmtKind::Expr(expr))
    }

    /// Begins an expression statement: returns an expression builder whose
    /// finished expression becomes the statement.
    pub fn expr(self) -> (b: ExprBuilder<StmtExprBuilder<F>>)
        ensures
            b == (ExprBuilder { callback: StmtExprBuilder { builder: self }, span: dummy_span() }),
    {
        ExprBuilder::new_with_callback(StmtExprBuilder { builder: self })
    }

    /// Begins a semicolon-terminated expression statement.
    pub fn semi(self) -> (b: ExprBuilder<StmtSemiBuilder<F>>)
        ensures
            b == (ExprBuilder { callback: StmtSemiBuilder { builder: self }, span: dummy_span() }),
    {
        ExprBuilder::new_with_callback(StmtSemiBuilder { builder: self })
    }

    /// An item statement from an already-built item.
    pub fn build_item(self, item: Item) -> (r: F::Result)
        ensures
            r == self.callback.spec_invoke(item_stmt(self.span, item)),
    {
        let span = self.span;
        let decl = Decl { span, node: DeclKind::Item(item) };
        self.build_stmt(StmtKind::Decl(decl))
    }

    /// Begins an item statement: returns an item builder whose finished
    /// item becomes the statement.
    pub fn item(self) -> (b: ItemBuilder<StmtItemBuilder<F>>)
        ensures
            b == (ItemBuilder { callback: StmtItemBuilder { builder: self }, span: dummy_span() }),
    {
        ItemBuilder::new_with_callback(StmtItemBuilder { builder: self })
    }
}

/// A finished pattern moves the `let` flow onward: the statement builder
/// becomes a [`StmtLetBuilder`] holding the bound pattern.
impl<F> Invoke<Pat> for StmtBuilder<F> where F: Invoke<Stmt> {
    type Result = StmtLetBuilder<F>;

    open spec fn spec_invoke(self, pat: Pat) -> StmtLetBuilder<F> {
        StmtLetBuilder { builder: self, pat }
    }

    fn invoke(self, pat: Pat) -> (r: StmtLetBuilder<F>) {
        StmtLetBuilder { builder: self, pat }
    }
}

/// The continuation behind the shortcut `let` path: given the initializer
/// expression, it synthesizes the identifier pattern and finalizes the
/// binding exactly as the general path does.
pub struct StmtLetIdBuilder<F> {
    pub builder: StmtBuilder<F>,
    pub id: Ident,
}

impl<F> Invoke<Expr> for StmtLetIdBuilder<F> where F: Invoke<Stmt> {
    type Result = F::Result;

    open spec fn spec_invoke(self, expr: Expr) -> F::Result {
        self.builder.callback.spec_invoke(
            let_stmt(self.builder.span, id_pat(dummy_span(), self.id), None, Some(expr)),
        )
    }

    fn invoke(self, expr: Expr) -> (r: F::Result) {
        self.builder.let_().build_id(self.id).build_expr(expr)
    }
}

/// The continuation behind [`StmtBuilder::expr`]: the finished expression
/// becomes an expression statement.
pub struct StmtExprBuilder<F> {
    pub builder: StmtBuilder<F>,
}

impl<F> Invoke<Expr> for StmtExprBuilder<F> where F: Invoke<Stmt> {
    type Result = F::Result;

    open spec fn spec_invoke(self, expr: Expr) -> F::Result {
        self.builder.callback.spec_invoke(expr_stmt(self.builder.span, expr))
    }

    fn invoke(self, expr: Expr) -> (r: F::Result) {
        self.builder.build_expr(expr)
    }
}

/// The continuation behind [`StmtBuilder::semi`]: the finished expression
/// becomes a semicolon-terminated statement.
pub struct StmtSemiBuilder<F> {
    pub builder: StmtBuilder<F>,
}

impl<F> Invoke<Expr> for StmtSemiBuilder<F> where F: Invoke<Stmt> {
    type Result = F::Result;

    open spec fn spec_invoke(self, expr: Expr) -> F::Result {
        self.builder.callback.spec_invoke(semi_stmt(self.builder.span, expr))
    }

    fn invoke(self, expr: Expr) -> (r: F::Result) {
        self.builder.build_stmt(StmtKind::Semi(expr))
    }
}

/// The `let` flow after the pattern is known.  From here the binding may
/// take a declared type, take an initializer, or finalize as it stands.
pub struct StmtLetBuilder<F> {
    pub builder: StmtBuilder<F>,
    pub pat: Pat,
}

impl<F> StmtLetBuilder<F> where F: Invoke<Stmt> {
    /// Records the declared type, moving on to collect the initializer.
    fn build_ty(self, ty: Ty) -> (b: StmtLetTyBuilder<F>)
        ensures
            b == (StmtLetTyBuilder { builder: self.builder, pat: self.pat, ty }),
    {
        StmtLetTyBuilder { builder: self.builder, pat: self.pat, ty }
    }

    /// Begins the declared type: returns a type builder whose finished type
    /// moves the flow to a [`StmtLetTyBuilder`].
    pub fn ty(self) -> (b: TyBuilder<Self>)
        ensures
            b == (TyBuilder { callback: self, span: dummy_span() }),
    {
        TyBuilder::new_with_callback(self)
    }

    /// Finalizes the binding with an initializer and no declared type.
    pub fn build_expr(self, expr: Expr) -> (r: F::Result)
        ensures
            r == self.builder.callback.spec_invoke(
                let_stmt(self.builder.span, self.pat, None, Some(expr)),
            ),
    {
        self.builder.build_let(self.pat, None, Some(expr))
    }

    /// Begins the initializer: returns an expression builder whose finished
    /// expression completes the binding.
    pub fn expr(self) -> (b: ExprBuilder<Self>)
        ensures
            b == (ExprBuilder { callback: self, span: dummy_span() }),
    {
        ExprBuilder::new_with_callback(self)
    }

    /// Finalizes the binding with no declared type and no initializer.
    pub fn build(self) -> (r: F::Result)
        ensures
            r == self.builder.callback.spec_invoke(
                let_stmt(self.builder.span, self.pat, None, None),
            ),
    {
        self.builder.build_let(self.pat, None, None)
    }
}

/// A finished type moves the `let` flow onward to collect the initializer.
impl<F> Invoke<Ty> for StmtLetBuilder<F> where F: Invoke<Stmt> {
    type Result = StmtLetTyBuilder<F>;

    open spec fn spec_invoke(self, ty: Ty) -> StmtLetTyBuilder<F> {
        StmtLetTyBuilder { builder: self.builder, pat: self.pat, ty }
    }

    fn invoke(self, ty: Ty) -> (r: StmtLetTyBuilder<F>) {
        self.build_ty(ty)
    }
}

/// A finished expression finalizes the binding as its initializer.
impl<F> Invoke<Expr> for StmtLetBuilder<F> where F: Invoke<Stmt> {
    type Result = F::Result;

    open spec fn spec_invoke(self, expr: Expr) -> F::Result {
        self.builder.callback.spec_invoke(
            let_stmt(self.builder.span, self.pat, None, Some(expr)),
        )
    }

    fn invoke(self, expr: Expr) -> (r: F::Result) {
        self.build_expr(expr)
    }
}

/// The `let` flow after pattern and declared type are both known.
pub struct StmtLetTyBuilder<F> {
    pub builder: StmtBuilder<F>,
    pub pat: Pat,
    pub ty: Ty,
}

impl<F> StmtLetTyBuilder<F> where F: Invoke<Stmt> {
    /// Begins the initializer: returns an expression builder whose finished
    /// expression completes the binding.
    pub fn expr(self) -> (b: ExprBuilder<Self>)
        ensures
            b == (ExprBuilder { callback: self, span: dummy_span() }),
    {
        ExprBuilder::new_with_callback(self)
    }

    /// Finalizes the binding with its declared type and no initializer.
    pub fn build(self) -> (r: F::Result)
        ensures
            r == self.builder.callback.spec_invoke(
                let_stmt(self.builder.span, self.pat, Some(self.ty), None),
            ),
    {
        self.builder.build_let(self.pat, Some(self.ty), None)
    }
}

/// A finished expression finalizes the typed binding as its initializer.
impl<F> Invoke<Expr> for StmtLetTyBuilder<F> where F: Invoke<Stmt> {
    type Result = F::Result;

    open spec fn spec_invoke(self, expr: Expr) -> F::Result {
        self.builder.callback.spec_invoke(
            let_stmt(self.builder.span, self.pat, Some(self.ty), Some(expr)),
        )
    }

    fn invoke(self, expr: Expr) -> (r: F::Result) {
        self.builder.build_let(self.pat, Some(self.ty), Some(expr))
    }
}

/// The continuation behind [`StmtBuilder::item`]: the finished item becomes
/// an item statement.
pub struct StmtItemBuilder<F> {
    pub builder: StmtBuilder<F>,
}

impl<F> Invoke<Item> for StmtItemBuilder<F> where F: Invoke<Stmt> {
    type Result = F::Result;

    open spec fn spec_invoke(self, item: Item) -> F::Result {
        self.builder.callback.spec_invoke(item_stmt(self.builder.span, item))
    }

    fn invoke(self, item: Item) -> (r: F::Result) {
        self.builder.build_item(item)
    }
}

/// A `let` statement records exactly what was collected: the binding holds
/// the given pattern; its declared type is the supplied option, so it is
/// absent exactly when no type was supplied; and likewise its initializer.
pub proof fn lemma_let_stmt_components(span: Span, pat: Pat, ty: Option<Ty>, init: Option<Expr>)
    ensures
        let_stmt(span, pat, ty, init).node matches StmtKind::Decl(d)
            && d.node matches DeclKind::Local(l)
            && l.pat == pat
            && l.ty == ty
            && l.init == init
            && l.span == span,
        let_stmt(span, pat, ty, init).span == span,
{
}

/// The shortcut identifier-`let` path and the general path agree: handing
/// the initializer to the shortcut's continuation yields the very statement
/// that the general path — pattern first, then the initializer — produces
/// from the same identifier and initializer expression.
pub proof fn lemma_let_paths_agree<F>(sb: StmtBuilder<F>, id: Ident, init: Expr) where F: Invoke<Stmt>
    ensures
        ({
            let shortcut = (StmtLetIdBuilder { builder: sb, id }).spec_invoke(init);
            let with_pat = <StmtBuilder<F> as Invoke<Pat>>::spec_invoke(sb, id_pat(dummy_span(), id));
            let general = <StmtLetBuilder<F> as Invoke<Expr>>::spec_invoke(with_pat, init);
            shortcut == general
        }),
{
}

/// With the identity continuation, finalizing returns exactly the finished
/// statement node, with no additional wrapping.
pub proof fn lemma_identity_finalize_stmt(b: StmtBuilder<Identity>, node: StmtKind)
    ensures
        b.callback.spec_invoke(built_stmt(b, node)) == built_stmt(b, node),
{
}

/// The span stamped on the finished node is the builder's current span: the
/// last value passed to `span`, or the placeholder when `span` was never
/// called.
pub proof fn lemma_last_span_wins<F>(b: StmtBuilder<F>, first: Span, last: Span, node: StmtKind)
    ensures
        built_stmt((StmtBuilder { callback: (StmtBuilder { callback: b.callback, span: first }).callback, span: last }), node).span == last,
        built_stmt((StmtBuilder { callback: b.callback, span: dummy_span() }), node).span == dummy_span(),
{
}

} // verus!
