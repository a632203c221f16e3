use marker_api::context::{
    clear_ast_cx, set_ast_cx, with_cx, AstContext, ContextSlot, DriverCallbacks, Entry, LintLevelEntry, TyPathEntry,
};
use marker_api::diagnostic::{DiagnosticBuilder, DiagnosticPart, EmissionNode};
use marker_api::expr::{CommonExprData, ExprKind, IntLitExpr};
use marker_api::ids::{BodyId, ExprId, ItemId, SpanId, SpanSrcId, SymbolId, TyDefId};
use marker_api::item::{Body, CommonItemData, ItemKind, StaticItem};
use marker_api::lint::{Level, Lint, MacroReport};
use marker_api::span::{Ident, Span, SpanSource};
use marker_api::ty::Mutability;

fn empty_driver<'ast>() -> DriverCallbacks<'ast> {
    DriverCallbacks {
        lint_levels: Vec::new(),
        items: Vec::new(),
        bodies: Vec::new(),
        ty_paths: Vec::new(),
        expr_tys: Vec::new(),
        spans: Vec::new(),
        snippets: Vec::new(),
        symbols: Vec::new(),
        method_targets: Vec::new(),
    }
}

fn lint(name: &str, default: Level, report_in_macro: MacroReport) -> Lint {
    Lint { name: name.to_string(), default, explanation: "explains the lint".to_string(), report_in_macro }
}

fn node(id: u64) -> EmissionNode {
    EmissionNode::Expr(ExprId { raw: id })
}

#[test]
fn lint_level_is_the_default_unless_the_host_overrides_it() {
    let mut driver = empty_driver();
    driver.lint_levels.push(LintLevelEntry { lint: "ducks".to_string(), node: node(1), level: Level::Deny });
    driver.lint_levels.push(LintLevelEntry { lint: "ducks".to_string(), node: node(1), level: Level::Allow });
    driver.lint_levels.push(LintLevelEntry { lint: "ducks".to_string(), node: node(2), level: Level::Allow });
    let cx = AstContext::new(&driver);
    let ducks = lint("ducks", Level::Warn, MacroReport::All);
    let penguins = lint("penguins", Level::Forbid, MacroReport::All);
    assert_eq!(cx.lint_level_at(&ducks, node(1)), Level::Deny);
    assert_eq!(cx.lint_level_at(&ducks, node(2)), Level::Allow);
    assert_eq!(cx.lint_level_at(&ducks, node(3)), Level::Warn);
    assert_eq!(cx.lint_level_at(&ducks, EmissionNode::Item(ItemId { raw: 1 })), Level::Warn);
    assert_eq!(cx.lint_level_at(&penguins, node(1)), Level::Forbid);
}

#[test]
fn emit_lint_builds_and_decorates_the_diagnostic() {
    let driver = empty_driver();
    let cx = AstContext::new(&driver);
    let ducks = lint("ducks", Level::Warn, MacroReport::No);
    let file = SpanSource::File("src/a.rs".to_string());
    let span = Span::new(&file, 4, 9);
    let diag = cx
        .emit_lint(&ducks, node(1), "too many ducks".to_string(), &span, |mut builder: DiagnosticBuilder| {
            builder.note("count them".to_string());
            builder.help("remove one".to_string());
            builder
        })
        .unwrap();
    assert_eq!(diag.lint.name, "ducks");
    assert_eq!(diag.node, node(1));
    assert_eq!(diag.msg, "too many ducks");
    assert!(diag.span.is_same_span(&span));
    assert_eq!(diag.parts.len(), 2);
    assert!(matches!(&diag.parts[0], DiagnosticPart::Note(text) if text == "count them"));
    assert!(matches!(&diag.parts[1], DiagnosticPart::Help(text) if text == "remove one"));
}

#[test]
fn emit_lint_in_a_macro_is_silent_for_a_lint_that_never_reports_there() {
    let mac = SpanSource::Macro(SpanSrcId { raw: 1 });
    let span = Span::new(&mac, 0, 1);
    for level in [Level::Allow, Level::Warn, Level::Deny, Level::Forbid] {
        let mut driver = empty_driver();
        driver.lint_levels.push(LintLevelEntry { lint: "ducks".to_string(), node: node(1), level });
        let cx = AstContext::new(&driver);
        let never = lint("ducks", Level::Deny, MacroReport::No);
        let mut decorated = false;
        let diag = cx.emit_lint(&never, node(1), "msg".to_string(), &span, |builder: DiagnosticBuilder| {
            decorated = true;
            builder
        });
        assert!(diag.is_none());
        assert!(!decorated);
    }
    let driver = empty_driver();
    let cx = AstContext::new(&driver);
    let everywhere = lint("ducks", Level::Deny, MacroReport::All);
    let diag = cx.emit_lint(&everywhere, node(1), "msg".to_string(), &span, |builder: DiagnosticBuilder| builder);
    assert!(diag.is_some());
}

#[test]
fn emit_lint_at_level_allow_is_silent_and_does_not_decorate() {
    let mut driver = empty_driver();
    driver.lint_levels.push(LintLevelEntry { lint: "ducks".to_string(), node: node(1), level: Level::Allow });
    let cx = AstContext::new(&driver);
    let file = SpanSource::File("src/a.rs".to_string());
    let span = Span::new(&file, 4, 9);
    let ducks = lint("ducks", Level::Warn, MacroReport::All);
    let mut decorated = false;
    let diag = cx.emit_lint(&ducks, node(1), "msg".to_string(), &span, |builder: DiagnosticBuilder| {
        decorated = true;
        builder
    });
    assert!(diag.is_none());
    assert!(!decorated);
    let allowed = lint("penguins", Level::Allow, MacroReport::All);
    let diag = cx.emit_lint(&allowed, node(2), "msg".to_string(), &span, |builder: DiagnosticBuilder| builder);
    assert!(diag.is_none());
    let diag = cx.emit_lint(&ducks, node(2), "msg".to_string(), &span, |builder: DiagnosticBuilder| builder);
    assert!(diag.is_some());
}

#[test]
fn resolve_ty_ids_with_two_versions_of_a_crate() {
    let mut driver = empty_driver();
    driver.ty_paths.push(TyPathEntry { path: "crate::Foo".to_string(), id: TyDefId { raw: 10 } });
    driver.ty_paths.push(TyPathEntry { path: "crate::Bar".to_string(), id: TyDefId { raw: 11 } });
    driver.ty_paths.push(TyPathEntry { path: "crate::Foo".to_string(), id: TyDefId { raw: 20 } });
    let cx = AstContext::new(&driver);
    let ids = cx.resolve_ty_ids("crate::Foo");
    assert_eq!(ids.len(), 2);
    assert!(ids.contains(&TyDefId { raw: 10 }));
    assert!(ids.contains(&TyDefId { raw: 20 }));
    assert_ne!(ids[0], ids[1]);
    assert_eq!(cx.resolve_ty_ids("crate::Bar"), vec![TyDefId { raw: 11 }]);
    assert!(cx.resolve_ty_ids("crate::Baz").is_empty());
    assert!(cx.resolve_ty_ids("crate::Fo").is_empty());
}

#[test]
fn items_and_bodies_are_resolved_by_their_handles() {
    let ident = Ident::new(SymbolId { raw: 1 }, SpanId { raw: 1 });
    let item = StaticItem {
        data: CommonItemData { id: ItemId { raw: 5 }, span: SpanId { raw: 2 }, ident },
        mutability: Mutability::Unmut,
        body: Some(BodyId { raw: 9 }),
    };
    let int = IntLitExpr::new(CommonExprData::new(ExprId { raw: 3 }, SpanId { raw: 4 }), 7);
    let mut driver = empty_driver();
    driver.items.push(Entry { key: 5, value: ItemKind::Static(&item) });
    driver.bodies.push(Entry { key: 9, value: Body { owner: ItemId { raw: 5 }, expr: ExprKind::IntLit(&int) } });
    driver.method_targets.push(Entry { key: 3, value: ItemId { raw: 5 } });
    let cx = AstContext::new(&driver);
    assert!(matches!(cx.item(ItemId { raw: 5 }), Some(ItemKind::Static(found)) if found.body == Some(BodyId { raw: 9 })));
    assert_eq!(cx.item(ItemId { raw: 5 }).unwrap().id(), ItemId { raw: 5 });
    assert!(cx.item(ItemId { raw: 6 }).is_none());
    let body = cx.body(BodyId { raw: 9 });
    assert_eq!(body.owner, ItemId { raw: 5 });
    assert!(matches!(body.expr, ExprKind::IntLit(e) if e.value() == 7));
    assert_eq!(cx.resolve_method_target(ExprId { raw: 3 }), ItemId { raw: 5 });
}

#[test]
fn with_cx_hands_out_the_installed_context() {
    let mut driver = empty_driver();
    driver.symbols.push(Entry { key: 1, value: "ducks".to_string() });
    let cx = AstContext::new(&driver);
    let mut slot = ContextSlot::new();
    set_ast_cx(&mut slot, &cx);
    let name = with_cx(&slot, |cx| cx.symbol_str(SymbolId { raw: 1 }));
    assert_eq!(name, "ducks");
    let same = with_cx(&slot, |current| std::ptr::eq(current, &cx));
    assert!(same);
}

#[test]
fn a_slot_holds_one_context_from_install_to_clear() {
    let mut first = empty_driver();
    first.symbols.push(Entry { key: 1, value: "ducks".to_string() });
    let mut second = empty_driver();
    second.symbols.push(Entry { key: 1, value: "penguins".to_string() });
    let first_cx = AstContext::new(&first);
    let second_cx = AstContext::new(&second);
    let mut slot = ContextSlot::new();
    assert!(!slot.installed());
    set_ast_cx(&mut slot, &first_cx);
    assert!(slot.installed());
    assert_eq!(with_cx(&slot, |cx| cx.symbol_str(SymbolId { raw: 1 })), "ducks");
    clear_ast_cx(&mut slot);
    assert!(!slot.installed());
    set_ast_cx(&mut slot, &second_cx);
    assert_eq!(with_cx(&slot, |cx| cx.symbol_str(SymbolId { raw: 1 })), "penguins");
}

#[test]
fn context_tells_what_the_host_knows() {
    let file = SpanSource::File("src/a.rs".to_string());
    let int = IntLitExpr::new(CommonExprData::new(ExprId { raw: 3 }, SpanId { raw: 4 }), 7);
    let mut driver = empty_driver();
    driver.bodies.push(Entry { key: 9, value: Body { owner: ItemId { raw: 5 }, expr: ExprKind::IntLit(&int) } });
    driver.expr_tys.push(Entry { key: 3, value: marker_api::ty::SemTyKind::Num });
    driver.spans.push(Entry { key: 4, value: Span::new(&file, 0, 1) });
    driver.symbols.push(Entry { key: 1, value: "ducks".to_string() });
    driver.method_targets.push(Entry { key: 3, value: ItemId { raw: 5 } });
    let cx = AstContext::new(&driver);
    assert!(cx.contains_body(BodyId { raw: 9 }));
    assert!(!cx.contains_body(BodyId { raw: 3 }));
    assert!(cx.contains_expr_ty(ExprId { raw: 3 }));
    assert!(!cx.contains_expr_ty(ExprId { raw: 4 }));
    assert!(cx.contains_span(SpanId { raw: 4 }));
    assert!(!cx.contains_span(SpanId { raw: 3 }));
    assert!(cx.contains_symbol(SymbolId { raw: 1 }));
    assert!(!cx.contains_symbol(SymbolId { raw: 2 }));
    assert!(cx.contains_method_target(ExprId { raw: 3 }));
    assert!(!cx.contains_method_target(ExprId { raw: 9 }));
    assert!(matches!(cx.expr_ty(ExprId { raw: 3 }), marker_api::ty::SemTyKind::Num));
    assert_eq!(cx.span(SpanId { raw: 4 }).end(), 1);
    assert_eq!(cx.span_snipped(&Span::new(&file, 0, 1)), None);
}
