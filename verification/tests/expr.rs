use marker_api::context::{set_ast_cx, AstContext, ContextSlot, DriverCallbacks, Entry};
use marker_api::expr::{
    ArrayExpr, AssignExpr, BinaryOpExpr, BinaryOpKind, BoolLitExpr, BreakExpr, CharLitExpr, ClosureExpr,
    CommonExprData, ConstExpr, ExprData, ExprKind, ExprPrecedence, FloatLitExpr, IntLitExpr, LitExprKind, PathExpr,
    StrLitExpr, UnaryOpExpr, UnaryOpKind, UnstableExpr,
};
use marker_api::ids::{ExprId, SpanId, TyDefId};
use marker_api::span::{Span, SpanSource};
use marker_api::ty::{Mutability, SemLifetime, SemRawPtrTy, SemRefTy, SemTy, SemTyKind};

fn data(id: u64) -> CommonExprData {
    CommonExprData::new(ExprId { raw: id }, SpanId { raw: id + 100 })
}

#[test]
fn literals_narrow_and_widen_back() {
    let int = IntLitExpr::new(data(1), 16);
    let float = FloatLitExpr::new(data(2), 1.5f64.to_bits());
    let text = StrLitExpr::new(data(3), "text".to_string());
    let ch = CharLitExpr::new(data(4), 'a');
    let boolean = BoolLitExpr::new(data(5), true);
    assert!(matches!(LitExprKind::try_from(ExprKind::IntLit(&int)), Ok(LitExprKind::Int(e)) if e.id() == ExprId { raw: 1 }));
    assert!(matches!(LitExprKind::try_from(ExprKind::FloatLit(&float)), Ok(LitExprKind::Float(e)) if e.bits() == 1.5f64.to_bits()));
    assert!(matches!(LitExprKind::try_from(ExprKind::StrLit(&text)), Ok(LitExprKind::Str(e)) if e.value() == "text"));
    assert!(matches!(LitExprKind::try_from(ExprKind::CharLit(&ch)), Ok(LitExprKind::Char(e)) if e.value() == 'a'));
    assert!(matches!(LitExprKind::try_from(ExprKind::BoolLit(&boolean)), Ok(LitExprKind::Bool(e)) if e.value()));
    let lit = LitExprKind::try_from(int.as_expr()).unwrap();
    assert!(matches!(ExprKind::from(lit), ExprKind::IntLit(e) if std::ptr::eq(e, &int) && e.value() == 16));
}

#[test]
fn negated_literal_narrows_and_widens_to_the_same_node() {
    let int = IntLitExpr::new(data(1), 16);
    let neg = UnaryOpExpr::new(data(2), ExprKind::IntLit(&int), UnaryOpKind::Neg);
    let neg_neg = UnaryOpExpr::new(data(3), ExprKind::UnaryOp(&neg), UnaryOpKind::Neg);
    let lit = LitExprKind::try_from(ExprKind::UnaryOp(&neg)).unwrap();
    assert!(matches!(lit, LitExprKind::UnaryOp(e, _) if std::ptr::eq(e, &neg)));
    assert!(matches!(ExprKind::from(lit), ExprKind::UnaryOp(e) if std::ptr::eq(e, &neg)));
    let lit = LitExprKind::try_from(ExprKind::UnaryOp(&neg_neg)).unwrap();
    assert!(matches!(ExprKind::from(lit), ExprKind::UnaryOp(e) if std::ptr::eq(e, &neg_neg)));
    assert_eq!(lit.id(), ExprId { raw: 3 });
    assert_eq!(lit.precedence(), ExprPrecedence::Neg);
}

#[test]
fn narrowing_fails_on_what_is_no_literal() {
    let int = IntLitExpr::new(data(1), 16);
    let path = PathExpr::new(data(2));
    let not = UnaryOpExpr::new(data(3), ExprKind::IntLit(&int), UnaryOpKind::Not);
    let deref = UnaryOpExpr::new(data(4), ExprKind::IntLit(&int), UnaryOpKind::Deref);
    let neg_path = UnaryOpExpr::new(data(5), ExprKind::Path(&path), UnaryOpKind::Neg);
    let neg_not = UnaryOpExpr::new(data(6), ExprKind::UnaryOp(&not), UnaryOpKind::Neg);
    assert!(LitExprKind::try_from(ExprKind::Path(&path)).is_err());
    assert!(LitExprKind::try_from(ExprKind::UnaryOp(&not)).is_err());
    assert!(LitExprKind::try_from(ExprKind::UnaryOp(&deref)).is_err());
    assert!(LitExprKind::try_from(ExprKind::UnaryOp(&neg_path)).is_err());
    assert!(LitExprKind::try_from(ExprKind::UnaryOp(&neg_not)).is_err());
}

#[test]
fn precedence_table_values() {
    assert_eq!(ExprPrecedence::Lit.value(), 0x1400_0000);
    assert_eq!(ExprPrecedence::Await.value(), 0x1400_0007);
    assert_eq!(ExprPrecedence::Path.value(), 0x1300_0000);
    assert_eq!(ExprPrecedence::Match.value(), 0x1200_0004);
    assert_eq!(ExprPrecedence::Field.value(), 0x1100_0000);
    assert_eq!(ExprPrecedence::Index.value(), 0x1000_0001);
    assert_eq!(ExprPrecedence::QuestionMark.value(), 0x0F00_0000);
    assert_eq!(ExprPrecedence::Ref.value(), 0x0E00_0003);
    assert_eq!(ExprPrecedence::As.value(), 0x0D00_0000);
    assert_eq!(ExprPrecedence::Rem.value(), 0x0C00_0002);
    assert_eq!(ExprPrecedence::Sub.value(), 0x0B00_0001);
    assert_eq!(ExprPrecedence::Shl.value(), 0x0A00_0001);
    assert_eq!(ExprPrecedence::BitAnd.value(), 0x0900_0000);
    assert_eq!(ExprPrecedence::BitXor.value(), 0x0800_0000);
    assert_eq!(ExprPrecedence::BitOr.value(), 0x0700_0000);
    assert_eq!(ExprPrecedence::Comparison.value(), 0x0600_0000);
    assert_eq!(ExprPrecedence::And.value(), 0x0500_0000);
    assert_eq!(ExprPrecedence::Or.value(), 0x0400_0000);
    assert_eq!(ExprPrecedence::Range.value(), 0x0300_0000);
    assert_eq!(ExprPrecedence::AssignOp.value(), 0x0200_0000);
    assert_eq!(ExprPrecedence::Closure.value(), 0x0100_0000);
    assert_eq!(ExprPrecedence::Continue.value(), 0x0100_0003);
    assert_eq!(ExprPrecedence::Unstable(-7).value(), -7);
}

#[test]
fn precedence_of_nodes() {
    let int = IntLitExpr::new(data(1), 1);
    let lhs = ExprKind::IntLit(&int);
    assert_eq!(lhs.precedence(), ExprPrecedence::Lit);
    let add = BinaryOpExpr::new(data(2), lhs, lhs, BinaryOpKind::Add);
    assert_eq!(ExprKind::BinaryOp(&add).precedence(), ExprPrecedence::Add);
    let less = BinaryOpExpr::new(data(3), lhs, lhs, BinaryOpKind::LesserEq);
    assert_eq!(less.precedence(), ExprPrecedence::Comparison);
    assert_eq!(less.kind(), BinaryOpKind::LesserEq);
    assert_eq!(less.left().id(), ExprId { raw: 1 });
    assert_eq!(less.right().id(), ExprId { raw: 1 });
    let not = UnaryOpExpr::new(data(4), lhs, UnaryOpKind::Not);
    assert_eq!(not.as_expr().precedence(), ExprPrecedence::Not);
    let deref = UnaryOpExpr::new(data(5), lhs, UnaryOpKind::Deref);
    assert_eq!(deref.precedence(), ExprPrecedence::Deref);
    assert_eq!(AssignExpr::new(data(6), None).precedence(), ExprPrecedence::Assign);
    let compound = AssignExpr::new(data(7), Some(BinaryOpKind::Shl));
    assert_eq!(compound.precedence(), ExprPrecedence::AssignOp);
    assert_eq!(compound.op(), Some(BinaryOpKind::Shl));
    assert_eq!(ArrayExpr::new(data(8)).precedence(), ExprPrecedence::Ctor);
    assert_eq!(ClosureExpr::new(data(9)).as_expr().precedence(), ExprPrecedence::Closure);
    assert_eq!(BreakExpr::new(data(10)).as_expr().precedence(), ExprPrecedence::Break);
    let unstable = UnstableExpr::new(data(11), ExprPrecedence::Unstable(42));
    assert_eq!(unstable.as_expr().precedence(), ExprPrecedence::Unstable(42));
    assert_eq!(unstable.as_expr().id(), ExprId { raw: 11 });
}

#[test]
fn span_and_type_of_an_expression_come_from_the_context() {
    let file = SpanSource::File("src/a.rs".to_string());
    let driver = DriverCallbacks {
        lint_levels: Vec::new(),
        items: Vec::new(),
        bodies: Vec::new(),
        ty_paths: Vec::new(),
        expr_tys: vec![Entry { key: 1, value: SemTyKind::Num }, Entry { key: 2, value: SemTyKind::Adt(TyDefId { raw: 9 }) }],
        spans: vec![Entry { key: 101, value: Span::new(&file, 3, 5) }, Entry { key: 102, value: Span::new(&file, 2, 5) }],
        snippets: Vec::new(),
        symbols: Vec::new(),
        method_targets: Vec::new(),
    };
    let cx = AstContext::new(&driver);
    let mut slot = ContextSlot::new();
    set_ast_cx(&mut slot, &cx);
    let int = IntLitExpr::new(data(1), 16);
    let neg = UnaryOpExpr::new(data(2), ExprKind::IntLit(&int), UnaryOpKind::Neg);
    assert_eq!(int.span(&slot).start(), 3);
    assert!(matches!(int.ty(&slot), SemTyKind::Num));
    let expr = ExprKind::UnaryOp(&neg);
    assert_eq!(expr.span(&slot).start(), 2);
    assert!(matches!(expr.ty(&slot), SemTyKind::Adt(TyDefId { raw: 9 })));
    let lit = LitExprKind::try_from(expr).unwrap();
    assert_eq!(lit.span(&slot).end(), 5);
    assert!(matches!(lit.ty(&slot), SemTyKind::Adt(TyDefId { raw: 9 })));
    assert!(matches!(neg.expr(), ExprKind::IntLit(_)));
    assert_eq!(neg.kind(), UnaryOpKind::Neg);
}

#[test]
fn const_expr_wraps_its_expression() {
    let int = IntLitExpr::new(data(1), 8);
    let konst = ConstExpr::new(ExprKind::IntLit(&int));
    assert!(matches!(konst.expr(), ExprKind::IntLit(e) if e.value() == 8));
}

#[test]
fn pointer_types_keep_their_parts() {
    let inner = SemTy { kind: SemTyKind::Bool };
    let shared = SemRefTy::new(None, Mutability::Unmut, inner);
    assert!(!shared.has_lifetime());
    assert!(shared.lifetime().is_none());
    assert_eq!(shared.mutability(), Mutability::Unmut);
    assert!(matches!(shared.inner_ty().kind, SemTyKind::Bool));
    let unique = SemRefTy::new(Some(SemLifetime {}), Mutability::Mut, SemTy { kind: SemTyKind::Ref(&shared) });
    assert!(unique.has_lifetime());
    assert_eq!(unique.lifetime(), Some(&SemLifetime {}));
    assert_eq!(unique.mutability(), Mutability::Mut);
    assert!(matches!(unique.inner_ty().kind, SemTyKind::Ref(r) if !r.has_lifetime()));
    let raw = SemRawPtrTy::new(Mutability::Mut, SemTy { kind: SemTyKind::Text });
    assert_eq!(raw.mutability(), Mutability::Mut);
    assert!(matches!(raw.inner_ty().kind, SemTyKind::Text));
}
