//! The literal builder: assembles literal nodes and hands them to its
//! continuation.

use vstd::prelude::*;
use crate::ast::{dummy_span, sign_of, IntTy, Lit, LitIntType, LitKind, Sign, Span, StrStyle, UintTy};
use crate::interned::{InternedString, ToInternedString};
use crate::invoke::{Identity, Invoke};

verus! {

/// A builder for literal nodes.  It owns a continuation and the span to
/// stamp on the finished node; each variant-construction method assembles
/// the node and invokes the continuation with it.
pub struct LitBuilder<F = Identity> {
    pub callback: F,
    pub span: Span,
}

/// The node a literal builder finalizes: its payload under the builder's
/// current span.
pub open spec fn built_lit<F>(b: LitBuilder<F>, node: LitKind) -> Lit {
    Lit { span: b.span, node }
}

/// The payload of a signed integer literal: the value's bits beside the
/// requested width tag and a sign indicator taken from the mathematical
/// sign of the value alone.
pub open spec fn signed_lit(value: i64, ty: IntTy) -> LitKind {
    LitKind::Int(value as u64, LitIntType::Signed(ty, sign_of(value as int)))
}

/// The payload of an unsigned integer literal.
pub open spec fn unsigned_lit(value: u64, ty: UintTy) -> LitKind {
    LitKind::Int(value, LitIntType::Unsigned(ty))
}

impl LitBuilder {
    /// A standalone literal builder: its continuation is the identity, so
    /// finalizing returns the literal node itself.
    pub fn builder() -> (b: LitBuilder)
        ensures
            b == (LitBuilder { callback: Identity, span: dummy_span() }),
    {
        LitBuilder::new_with_callback(Identity)
    }
}

impl<F> LitBuilder<F> where F: Invoke<Lit> {
    /// A literal builder that hands the finished node to `callback`.  The
    /// span starts as the empty/unknown placeholder.
    pub fn new_with_callback(callback: F) -> (b: Self)
        ensures
            b == (LitBuilder { callback, span: dummy_span() }),
    {
        LitBuilder { callback, span: Span::dummy() }
    }

    /// Replaces the span that will be stamped on the finished node.
    pub fn span(self, span: Span) -> (b: LitBuilder<F>)
        ensures
            b == (LitBuilder { callback: self.callback, span }),
    {
        LitBuilder { callback: self.callback, span }
    }

    /// Finalizes: stamps the current span onto the payload and hands the
    /// literal node to the continuation, returning whatever it returns.
    pub fn build_lit(self, lit: LitKind) -> (r: F::Result)
        ensures
            r == self.callback.spec_invoke(built_lit(self, lit)),
    {
        let span = self.span;
        self.callback.invoke(Lit { span, node: lit })
    }

    /// A boolean literal.
    pub fn bool(self, value: bool) -> (r: F::Result)
        ensures
            r == self.callback.spec_invoke(built_lit(self, LitKind::Bool(value))),
    {
        self.build_lit(LitKind::Bool(value))
    }

    /// A signed integer literal of the given width.  The stored bits are the
    /// value's two's-complement bits; the sign indicator is derived from the
    /// value's mathematical sign, never from the declared type.
    pub fn int_(self, value: i64, ty: IntTy) -> (r: F::Result)
        ensures
            r == self.callback.spec_invoke(built_lit(self, signed_lit(value, ty))),
    {
        let sign = Sign::new(value);
        self.build_lit(LitKind::Int(#[verifier::truncate] (value as u64), LitIntType::Signed(ty, sign)))
    }

    /// A pointer-sized signed integer literal.
    pub fn isize(self, value: isize) -> (r: F::Result)
        ensures
            r == self.callback.spec_invoke(built_lit(self, signed_lit(value as i64, IntTy::Is))),
    {
        self.int_(value as i64, IntTy::Is)
    }

    /// An 8-bit signed integer literal.
    pub fn i8(self, value: i8) -> (r: F::Result)
        ensures
            r == self.callback.spec_invoke(built_lit(self, signed_lit(value as i64, IntTy::I8))),
    {
        self.int_(value as i64, IntTy::I8)
    }

    /// A 16-bit signed integer literal.
    pub fn i16(self, value: i16) -> (r: F::Result)
        ensures
            r == self.callback.spec_invoke(built_lit(self, signed_lit(value as i64, IntTy::I16))),
    {
        self.int_(value as i64, IntTy::I16)
    }

    /// A 32-bit signed integer literal.
    pub fn i32(self, value: i32) -> (r: F::Result)
        ensures
            r == self.callback.spec_invoke(built_lit(self, signed_lit(value as i64, IntTy::I32))),
    {
        self.int_(value as i64, IntTy::I32)
    }

    /// A 64-bit signed integer literal.
    pub fn i64(self, value: i64) -> (r: F::Result)
        ensures
            r == self.callback.spec_invoke(built_lit(self, signed_lit(value, IntTy::I64))),
    {
        self.int_(value, IntTy::I64)
    }

    /// An unsigned integer literal of the given width.
    pub fn uint(self, value: u64, ty: UintTy) -> (r: F::Result)
        ensures
            r == self.callback.spec_invoke(built_lit(self, unsigned_lit(value, ty))),
    {
        self.build_lit(LitKind::Int(value, LitIntType::Unsigned(ty)))
    }

    /// A pointer-sized unsigned integer literal.
    pub fn usize(self, value: usize) -> (r: F::Result)
        ensures
            r == self.callback.spec_invoke(built_lit(self, unsigned_lit(value as u64, UintTy::Us))),
    {
        self.uint(value as u64, UintTy::Us)
    }

    /// An 8-bit unsigned integer literal.
    pub fn u8(self, value: u8) -> (r: F::Result)
        ensures
            r == self.callback.spec_invoke(built_lit(self, unsigned_lit(value as u64, UintTy::U8))),
    {
        self.uint(value as u64, UintTy::U8)
    }

    /// A 16-bit unsigned integer literal.
    pub fn u16(self, value: u16) -> (r: F::Result)
        ensures
            r == self.callback.spec_invoke(built_lit(self, unsigned_lit(value as u64, UintTy::U16))),
    {
        self.uint(value as u64, UintTy::U16)
    }

    /// A 32-bit unsigned integer literal.
    pub fn u32(self, value: u32) -> (r: F::Result)
        ensures
            r == self.callback.spec_invoke(built_lit(self, unsigned_lit(value as u64, UintTy::U32))),
    {
        self.uint(value as u64, UintTy::U32)
    }

    /// A 64-bit unsigned integer literal.
    pub fn u64(self, value: u64) -> (r: F::Result)
        ensures
            r == self.callback.spec_invoke(built_lit(self, unsigned_lit(value, UintTy::U64))),
    {
        self.uint(value, UintTy::U64)
    }

    /// A string literal.  The value is first converted into the canonical
    /// interned representation (a value already interned is kept as it is);
    /// the payload holds an interned string with exactly the value's
    /// characters.
    pub fn str<S>(self, value: S) -> (r: F::Result) where S: ToInternedString
        ensures
            exists |istr: InternedString| #![auto]
                istr@ == value.spec_chars()
                && r == self.callback.spec_invoke(built_lit(self, LitKind::Str(istr, StrStyle::Cooked))),
    {
        let value = value.into_interned_string();
        self.build_lit(LitKind::Str(value, StrStyle::Cooked))
    }
}

/// Recovering a signed literal: the payload built for value `v` with width
/// tag `ty` holds `v`'s bits (so casting them back gives `v` again), the
/// exact requested width tag, and the sign of `v` itself.
pub proof fn lemma_signed_lit_round_trip(value: i64, ty: IntTy)
    ensures
        signed_lit(value, ty) == LitKind::Int(value as u64, LitIntType::Signed(ty, sign_of(value as int))),
        (value as u64) as i64 == value,
{
    assert((value as u64) as i64 == value) by (bit_vector);
}

/// Recovering an unsigned literal: the payload holds the value itself and
/// the exact requested width tag.
pub proof fn lemma_unsigned_lit_round_trip(value: u64, ty: UintTy)
    ensures
        unsigned_lit(value, ty) == LitKind::Int(value, LitIntType::Unsigned(ty)),
{
}

/// With the identity continuation, finalizing returns exactly the finished
/// literal node, with no additional wrapping.
pub proof fn lemma_identity_finalize_lit(b: LitBuilder<Identity>, node: LitKind)
    ensures
        b.callback.spec_invoke(built_lit(b, node)) == built_lit(b, node),
{
}

/// The span stamped on the finished node is the builder's current span: the
/// last value passed to `span`, or the placeholder when `span` was never
/// called.
pub proof fn lemma_last_span_wins<F>(b: LitBuilder<F>, first: Span, last: Span, node: LitKind)
    ensures
        built_lit((LitBuilder { callback: (LitBuilder { callback: b.callback, span: first }).callback, span: last }), node).span == last,
        built_lit((LitBuilder { callback: b.callback, span: dummy_span() }), node).span == dummy_span(),
{
}

} // verus!
