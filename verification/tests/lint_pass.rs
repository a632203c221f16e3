use marker_api::context::{AstContext, DriverCallbacks};
use marker_api::ids::{ItemId, SpanId, SymbolId};
use marker_api::item::{CommonItemData, ExternCrateItem, ItemKind, ModItem, StaticItem, UseDeclItem};
use marker_api::lint::{Level, Lint, MacroReport};
use marker_api::lint_pass::{hook_calls, run_lint_pass, Hook, HookCall, LintPass};
use marker_api::span::Ident;
use marker_api::ty::Mutability;

fn empty_driver<'ast>() -> DriverCallbacks<'ast> {
    DriverCallbacks {
        lint_levels: Vec::new(),
        items: Vec::new(),
        bodies: Vec::new(),
        ty_paths: Vec::new(),
        expr_tys: Vec::new(),
        spans: Vec::new(),
        snippets: Vec::new(),
        symbols: Vec::new(),
        method_targets: Vec::new(),
    }
}

fn data(id: u64) -> CommonItemData {
    CommonItemData { id: ItemId { raw: id }, span: SpanId { raw: id }, ident: Ident::new(SymbolId { raw: id }, SpanId { raw: id }) }
}

fn static_item(id: u64) -> StaticItem {
    StaticItem { data: data(id), mutability: Mutability::Unmut, body: None }
}

#[derive(Debug, Clone, PartialEq, Eq)]
struct Silent {
    seen: Vec<u64>,
}

impl<'ast> LintPass<'ast> for Silent {
    fn registered_lints(&self) -> Vec<Lint> {
        Vec::new()
    }
}

#[derive(Debug, Clone, PartialEq, Eq)]
struct Statics {
    seen: Vec<u64>,
}

impl<'ast> LintPass<'ast> for Statics {
    fn registered_lints(&self) -> Vec<Lint> {
        vec![Lint {
            name: "statics".to_string(),
            default: Level::Warn,
            explanation: "counts statics".to_string(),
            report_in_macro: MacroReport::No,
        }]
    }

    fn check_static_item(&mut self, _cx: &'ast AstContext<'ast>, item: &'ast StaticItem) {
        self.seen.push(item.data.id.raw);
    }
}

#[test]
fn default_hooks_do_nothing() {
    let driver = empty_driver();
    let cx = AstContext::new(&driver);
    let module = ModItem { data: data(1), items: Vec::new() };
    let krate = ExternCrateItem { data: data(2) };
    let decl = UseDeclItem { data: data(3) };
    let item = static_item(4);
    let mut pass = Silent { seen: vec![7] };
    let before = pass.clone();
    pass.check_mod(&cx, &module);
    assert_eq!(pass, before);
    pass.check_item(&cx, ItemKind::Mod(&module));
    pass.check_extern_crate(&cx, &krate);
    pass.check_use_decl(&cx, &decl);
    pass.check_static_item(&cx, &item);
    assert_eq!(pass, before);
    assert!(pass.registered_lints().is_empty());
}

#[test]
fn static_hook_runs_once_for_each_static_item() {
    let driver = empty_driver();
    let cx = AstContext::new(&driver);
    let first = static_item(2);
    let second = static_item(3);
    let decl = UseDeclItem { data: data(4) };
    let module = ModItem {
        data: data(1),
        items: vec![ItemKind::Static(&first), ItemKind::UseDecl(&decl), ItemKind::Static(&second)],
    };
    let mut pass = Statics { seen: Vec::new() };
    let made = run_lint_pass(&mut pass, &cx, ItemKind::Mod(&module));
    assert_eq!(pass.seen, vec![2, 3]);
    assert_eq!(made, 8);
    assert_eq!(pass.registered_lints().len(), 1);

    let mut silent = Silent { seen: vec![1] };
    let made = run_lint_pass(&mut silent, &cx, ItemKind::Mod(&module));
    assert_eq!(made, 8);
    assert_eq!(silent, Silent { seen: vec![1] });
}

#[test]
fn hook_calls_follow_the_source() {
    let krate = ExternCrateItem { data: data(2) };
    let inner_static = static_item(4);
    let inner = ModItem { data: data(3), items: vec![ItemKind::Static(&inner_static)] };
    let decl = UseDeclItem { data: data(5) };
    let root = ModItem {
        data: data(1),
        items: vec![ItemKind::ExternCrate(&krate), ItemKind::Mod(&inner), ItemKind::UseDecl(&decl)],
    };
    let calls = hook_calls(ItemKind::Mod(&root));
    let seen: Vec<(Hook, u64)> = calls
        .iter()
        .map(|call| {
            let id = match call {
                HookCall::Item(item) => item.id().raw,
                HookCall::Mod(item) => item.data.id.raw,
                HookCall::ExternCrate(item) => item.data.id.raw,
                HookCall::UseDecl(item) => item.data.id.raw,
                HookCall::StaticItem(item) => item.data.id.raw,
            };
            (call.hook(), id)
        })
        .collect();
    assert_eq!(
        seen,
        vec![
            (Hook::CheckItem, 1),
            (Hook::CheckMod, 1),
            (Hook::CheckItem, 2),
            (Hook::CheckExternCrate, 2),
            (Hook::CheckItem, 3),
            (Hook::CheckMod, 3),
            (Hook::CheckItem, 4),
            (Hook::CheckStaticItem, 4),
            (Hook::CheckItem, 5),
            (Hook::CheckUseDecl, 5),
        ]
    );
    let alone = static_item(9);
    assert_eq!(hook_calls(ItemKind::Static(&alone)).len(), 2);
}

#[test]
fn a_pass_is_told_only_through_the_hooks_of_the_nodes_it_walks() {
    let driver = empty_driver();
    let cx = AstContext::new(&driver);
    let decl = UseDeclItem { data: data(7) };
    let mut pass = Statics { seen: Vec::new() };
    assert_eq!(run_lint_pass(&mut pass, &cx, ItemKind::UseDecl(&decl)), 2);
    assert!(pass.seen.is_empty());
    let item = static_item(6);
    assert_eq!(run_lint_pass(&mut pass, &cx, ItemKind::Static(&item)), 2);
    assert_eq!(pass.seen, vec![6]);
}
