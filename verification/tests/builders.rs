use aster::ast::{
    Decl, DeclKind, Expr, ExprKind, IntTy, Lit, LitIntType, LitKind, Local, Pat, PatKind, Sign,
    Span, Stmt, StmtKind, StrStyle, Ty, TyKind, UintTy,
};
use aster::ident::{Ident, ToIdent};
use aster::interned::{InternedString, ToInternedString};
use aster::invoke::{Recorded, Recorder};
use aster::expr::ExprBuilder;
use aster::item::ItemBuilder;
use aster::lit::LitBuilder;
use aster::pat::PatBuilder;
use aster::stmt::StmtBuilder;
use aster::ty::TyBuilder;

fn ident(name: &str) -> Ident {
    name.to_ident()
}

fn lit_expr(lit: Lit) -> Expr {
    Expr { span: Span::dummy(), node: ExprKind::Lit(lit) }
}

fn unwrap_local(stmt: &Stmt) -> &Local {
    match &stmt.node {
        StmtKind::Decl(Decl { node: DeclKind::Local(local), .. }) => local,
        other => panic!("expected a local declaration, found {:?}", other),
    }
}

#[test]
fn bool_literal_round_trip() {
    let node = LitBuilder::builder().bool(true);
    assert_eq!(node, Lit { span: Span::dummy(), node: LitKind::Bool(true) });
}

#[test]
fn signed_literal_recovers_value_width_and_sign() {
    let node = LitBuilder::builder().i16(-5);
    match node.node {
        LitKind::Int(bits, LitIntType::Signed(ty, sign)) => {
            assert_eq!(bits as i64, -5);
            assert_eq!(ty, IntTy::I16);
            assert_eq!(sign, Sign::Minus);
        }
        other => panic!("expected a signed integer payload, found {:?}", other),
    }
}

#[test]
fn signed_literal_nonnegative_sign() {
    let node = LitBuilder::builder().i8(7);
    match node.node {
        LitKind::Int(bits, LitIntType::Signed(ty, sign)) => {
            assert_eq!(bits, 7);
            assert_eq!(ty, IntTy::I8);
            assert_eq!(sign, Sign::Plus);
        }
        other => panic!("expected a signed integer payload, found {:?}", other),
    }
}

#[test]
fn signed_literal_extreme_values() {
    let node = LitBuilder::builder().i64(i64::MIN);
    match node.node {
        LitKind::Int(bits, LitIntType::Signed(ty, sign)) => {
            assert_eq!(bits as i64, i64::MIN);
            assert_eq!(ty, IntTy::I64);
            assert_eq!(sign, Sign::Minus);
        }
        other => panic!("expected a signed integer payload, found {:?}", other),
    }
    let node = LitBuilder::builder().isize(-1);
    match node.node {
        LitKind::Int(bits, LitIntType::Signed(ty, sign)) => {
            assert_eq!(bits as i64, -1);
            assert_eq!(ty, IntTy::Is);
            assert_eq!(sign, Sign::Minus);
        }
        other => panic!("expected a signed integer payload, found {:?}", other),
    }
}

#[test]
fn unsigned_literal_recovers_value_and_width() {
    let node = LitBuilder::builder().u32(42);
    assert_eq!(node.node, LitKind::Int(42, LitIntType::Unsigned(UintTy::U32)));
    let node = LitBuilder::builder().usize(3);
    assert_eq!(node.node, LitKind::Int(3, LitIntType::Unsigned(UintTy::Us)));
    let node = LitBuilder::builder().u64(u64::MAX);
    assert_eq!(node.node, LitKind::Int(u64::MAX, LitIntType::Unsigned(UintTy::U64)));
}

#[test]
fn string_literal_equals_input_under_interned_equality() {
    let node = LitBuilder::builder().str("hello");
    match node.node {
        LitKind::Str(interned, style) => {
            assert_eq!(interned, "hello".to_ident().name);
            assert_eq!(style, StrStyle::Cooked);
        }
        other => panic!("expected a string payload, found {:?}", other),
    }
}

#[test]
fn string_literal_empty_input() {
    let node = LitBuilder::builder().str("");
    match node.node {
        LitKind::Str(interned, _) => assert_eq!(interned.value, ""),
        other => panic!("expected a string payload, found {:?}", other),
    }
}

#[test]
fn interning_is_idempotent() {
    let once: InternedString = "abc".into_interned_string();
    let twice: InternedString = once.clone().into_interned_string();
    assert_eq!(once, twice);
    assert_eq!(once, "abc".into_interned_string());
}

#[test]
fn let_without_type_or_initializer() {
    let stmt = StmtBuilder::new().let_().id("x").build();
    let local = unwrap_local(&stmt);
    assert_eq!(local.pat.node, PatKind::Id(ident("x")));
    assert_eq!(local.ty, None);
    assert_eq!(local.init, None);
}

#[test]
fn let_with_declared_type_only() {
    let stmt = StmtBuilder::new().let_().id("x").ty().id("i32").build();
    let local = unwrap_local(&stmt);
    assert_eq!(local.ty, Some(Ty { span: Span::dummy(), node: TyKind::Id(ident("i32")) }));
    assert_eq!(local.init, None);
}

#[test]
fn let_with_initializer_only() {
    let init = lit_expr(LitBuilder::builder().u8(1));
    let stmt = StmtBuilder::new().let_().id("x").build_expr(init.clone());
    let local = unwrap_local(&stmt);
    assert_eq!(local.ty, None);
    assert_eq!(local.init, Some(init));
}

#[test]
fn let_with_type_and_initializer() {
    let init = lit_expr(LitBuilder::builder().u8(1));
    let stmt = StmtBuilder::new().let_().id("x").ty().id("u8").expr().build(init.clone());
    let local = unwrap_local(&stmt);
    assert_eq!(local.ty, Some(Ty { span: Span::dummy(), node: TyKind::Id(ident("u8")) }));
    assert_eq!(local.init, Some(init));
}

#[test]
fn let_wildcard_pattern() {
    let stmt = StmtBuilder::new().let_().wild().build();
    let local = unwrap_local(&stmt);
    assert_eq!(local.pat.node, PatKind::Wild);
}

#[test]
fn shortcut_let_id_matches_general_path() {
    let init = lit_expr(LitBuilder::builder().i32(9));
    let shortcut = StmtBuilder::new().let_id("count").build(init.clone());
    let general = StmtBuilder::new().let_().id("count").build_expr(init);
    assert_eq!(shortcut, general);
}

#[test]
fn shortcut_let_id_through_literal_builder() {
    let shortcut = StmtBuilder::new().let_id("flag").lit().bool(false);
    let init = lit_expr(LitBuilder::builder().bool(false));
    let general = StmtBuilder::new().let_().id("flag").build_expr(init);
    assert_eq!(shortcut, general);
}

#[test]
fn identity_finalize_returns_bare_node() {
    let expr = lit_expr(LitBuilder::builder().bool(true));
    let stmt = StmtBuilder::new().build_expr(expr.clone());
    assert_eq!(stmt, Stmt { span: Span::dummy(), node: StmtKind::Expr(expr) });
}

#[test]
fn expr_and_semi_statements() {
    let stmt = StmtBuilder::new().expr().lit().u8(3);
    let expected = lit_expr(LitBuilder::builder().u8(3));
    assert_eq!(stmt.node, StmtKind::Expr(expected.clone()));
    let stmt = StmtBuilder::new().semi().lit().u8(3);
    assert_eq!(stmt.node, StmtKind::Semi(expected));
}

#[test]
fn item_statement() {
    let stmt = StmtBuilder::new().item().named("helper");
    match stmt.node {
        StmtKind::Decl(Decl { node: DeclKind::Item(item), .. }) => {
            assert_eq!(item.ident, ident("helper"));
        }
        other => panic!("expected an item declaration, found {:?}", other),
    }
}

#[test]
fn recording_continuation_receives_exactly_the_node() {
    let Recorded { value } = LitBuilder::new_with_callback(Recorder).bool(true);
    assert_eq!(value, LitBuilder::builder().bool(true));
    let Recorded { value } = StmtBuilder::new_with_callback(Recorder).let_().id("x").build();
    assert_eq!(value, StmtBuilder::new().let_().id("x").build());
}

#[test]
fn standalone_sub_builders_return_bare_nodes() {
    let pat = PatBuilder::new().id("p");
    assert_eq!(pat, Pat { span: Span::dummy(), node: PatKind::Id(ident("p")) });
    let ty = TyBuilder::new().infer();
    assert_eq!(ty, Ty { span: Span::dummy(), node: TyKind::Infer });
    let expr = ExprBuilder::new().id("v");
    assert_eq!(expr, Expr { span: Span::dummy(), node: ExprKind::Id(ident("v")) });
    let expr = ExprBuilder::new().lit().bool(true);
    assert_eq!(expr, lit_expr(LitBuilder::builder().bool(true)));
    let item = ItemBuilder::new().named("thing");
    assert_eq!(item.ident, ident("thing"));
}

#[test]
fn span_defaults_to_placeholder() {
    let node = LitBuilder::builder().bool(true);
    assert_eq!(node.span, Span::dummy());
    let stmt = StmtBuilder::new().let_().wild().build();
    assert_eq!(stmt.span, Span::dummy());
}

#[test]
fn last_span_set_wins() {
    let first = Span { lo: 1, hi: 2 };
    let last = Span { lo: 5, hi: 9 };
    let node = LitBuilder::builder().span(first).span(last).u8(0);
    assert_eq!(node.span, last);
    let stmt = StmtBuilder::new().span(first).span(last).let_().wild().build();
    assert_eq!(stmt.span, last);
    let local = unwrap_local(&stmt);
    assert_eq!(local.span, last);
}

#[test]
fn span_stamped_on_let_declaration() {
    let span = Span { lo: 10, hi: 20 };
    let stmt = StmtBuilder::new().span(span).let_().id("x").build();
    assert_eq!(stmt.span, span);
    match &stmt.node {
        StmtKind::Decl(decl) => assert_eq!(decl.span, span),
        other => panic!("expected a declaration, found {:?}", other),
    }
}
