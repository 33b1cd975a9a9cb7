//! Minimal records for the externally defined syntax-node schemas.
//!
//! The builders assemble these nodes but never interpret their payloads
//! beyond tagging which variant is being constructed, so each record here
//! carries only the fields the construction layer fills in: a payload
//! variant and a source span.

use vstd::prelude::*;
use crate::ident::Ident;
use crate::interned::InternedString;

verus! {

/// A region of source text, recorded on every finished node.
#[derive(Clone, Copy, Debug, PartialEq, Eq, Structural)]
pub struct Span {
    pub lo: u32,
    pub hi: u32,
}

/// The placeholder span a builder starts with: used when no provenance
/// information is available, that is, until `span` is called on the builder.
pub open spec fn dummy_span() -> Span {
    Span { lo: 0, hi: 0 }
}

impl Span {
    /// The empty/unknown placeholder span.
    pub fn dummy() -> (s: Span)
        ensures
            s == dummy_span(),
    {
        Span { lo: 0, hi: 0 }
    }
}

/// The width tag of a signed integer literal.
#[derive(Clone, Copy, Debug, PartialEq, Eq, Structural)]
pub enum IntTy {
    Is,
    I8,
    I16,
    I32,
    I64,
}

/// The width tag of an unsigned integer literal.
#[derive(Clone, Copy, Debug, PartialEq, Eq, Structural)]
pub enum UintTy {
    Us,
    U8,
    U16,
    U32,
    U64,
}

/// The sign indicator stored beside a signed integer literal.  It is derived
/// from the mathematical sign of the value alone, never from the declared
/// type.
#[derive(Clone, Copy, Debug, PartialEq, Eq, Structural)]
pub enum Sign {
    Minus,
    Plus,
}

/// The sign of a mathematical value: `Minus` exactly when it is negative.
pub open spec fn sign_of(value: int) -> Sign {
    if value < 0 {
        Sign::Minus
    } else {
        Sign::Plus
    }
}

impl Sign {
    /// The sign indicator of a value.
    pub fn new(value: i64) -> (s: Sign)
        ensures
            s == sign_of(value as int),
    {
        if value < 0 {
            Sign::Minus
        } else {
            Sign::Plus
        }
    }
}

/// Whether an integer literal is signed or unsigned, with its width tag.
#[derive(Clone, Copy, Debug, PartialEq, Eq, Structural)]
pub enum LitIntType {
    Signed(IntTy, Sign),
    Unsigned(UintTy),
}

/// How a string literal was written down.
#[derive(Clone, Copy, Debug, PartialEq, Eq, Structural)]
pub enum StrStyle {
    Cooked,
    Raw(u32),
}

/// The payload of a literal node.  Integer payloads hold the value's bits in
/// a `u64` beside the signedness/width tag.
#[derive(Clone, Debug, PartialEq, Eq)]
pub enum LitKind {
    Bool(bool),
    Int(u64, LitIntType),
    Str(InternedString, StrStyle),
}

/// A literal node: a payload variant with its source span.
#[derive(Clone, Debug, PartialEq, Eq)]
pub struct Lit {
    pub span: Span,
    pub node: LitKind,
}

/// The payload of a pattern node.
#[derive(Clone, Debug, PartialEq, Eq)]
pub enum PatKind {
    Wild,
    Id(Ident),
}

/// A pattern node.
#[derive(Clone, Debug, PartialEq, Eq)]
pub struct Pat {
    pub span: Span,
    pub node: PatKind,
}

/// The payload of a type node.
#[derive(Clone, Debug, PartialEq, Eq)]
pub enum TyKind {
    Infer,
    Id(Ident),
}

/// A type node.
#[derive(Clone, Debug, PartialEq, Eq)]
pub struct Ty {
    pub span: Span,
    pub node: TyKind,
}

/// The payload of an expression node.
#[derive(Clone, Debug, PartialEq, Eq)]
pub enum ExprKind {
    Lit(Lit),
    Id(Ident),
}

/// An expression node.
#[derive(Clone, Debug, PartialEq, Eq)]
pub struct Expr {
    pub span: Span,
    pub node: ExprKind,
}

/// An item node: the construction layer only ever names one.
#[derive(Clone, Debug, PartialEq, Eq)]
pub struct Item {
    pub span: Span,
    pub ident: Ident,
}

/// A `let` binding: a bound pattern, an optional declared type and an
/// optional initializer expression.  Both options absent is a valid terminal
/// configuration, not an error.
#[derive(Clone, Debug, PartialEq, Eq)]
pub struct Local {
    pub pat: Pat,
    pub ty: Option<Ty>,
    pub init: Option<Expr>,
    pub span: Span,
}

/// The payload of a declaration node.
#[derive(Clone, Debug, PartialEq, Eq)]
pub enum DeclKind {
    Local(Local),
    Item(Item),
}

/// A declaration node.
#[derive(Clone, Debug, PartialEq, Eq)]
pub struct Decl {
    pub span: Span,
    pub node: DeclKind,
}

/// The payload of a statement node.
#[derive(Clone, Debug, PartialEq, Eq)]
pub enum StmtKind {
    Decl(Decl),
    Expr(Expr),
    Semi(Expr),
}

/// A statement node.
#[derive(Clone, Debug, PartialEq, Eq)]
pub struct Stmt {
    pub span: Span,
    pub node: StmtKind,
}

} // verus!
