//! The context through which a plugin reaches the host, the answers a host
//! gives for one session, and the slot that holds the current context.

use vstd::prelude::*;
use crate::diagnostic::{Diagnostic, DiagnosticBuilder, EmissionNode};
use crate::ids::{BodyId, ExprId, ItemId, SpanId, SymbolId, TyDefId};
use crate::item::{Body, ItemKind};
use crate::lint::{Level, Lint, MacroReport};
use crate::span::{Span, SpanView};
use crate::ty::SemTyKind;

verus! {

/// One answer of the host, filed under the raw value of a handle.
#[derive(Debug)]
pub struct Entry<V> {
    pub key: u64,
    pub value: V,
}

/// The level that the host assigns to a lint at one node.
#[derive(Debug)]
pub struct LintLevelEntry {
    pub lint: String,
    pub node: EmissionNode,
    pub level: Level,
}

/// One type definition that a path names.
#[derive(Debug)]
pub struct TyPathEntry {
    pub path: String,
    pub id: TyDefId,
}

/// The source text under one span.
#[derive(Debug)]
pub struct SnippetEntry<'ast> {
    pub span: Span<'ast>,
    pub text: String,
}

/// The value filed first under `key`, if there is one.
pub open spec fn lookup<V>(table: Seq<Entry<V>>, key: u64) -> Option<V>
    decreases table.len(),
{
    if table.len() == 0 {
        None
    } else if table[0].key == key {
        Some(table[0].value)
    } else {
        lookup(table.skip(1), key)
    }
}

/// The level of the first entry for this lint and node, or `default`.
pub open spec fn level_in(entries: Seq<LintLevelEntry>, lint: Seq<char>, node: EmissionNode, default: Level) -> Level
    decreases entries.len(),
{
    if entries.len() == 0 {
        default
    } else if entries[0].lint@ == lint && entries[0].node == node {
        entries[0].level
    } else {
        level_in(entries.skip(1), lint, node, default)
    }
}

/// The text of the first entry for this span, if there is one.
pub open spec fn snippet_in(entries: Seq<SnippetEntry>, span: SpanView) -> Option<Seq<char>>
    decreases entries.len(),
{
    if entries.len() == 0 {
        None
    } else if entries[0].span@ == span {
        Some(entries[0].text@)
    } else {
        snippet_in(entries.skip(1), span)
    }
}

/// The definitions filed under `path`, in the order of the table.
pub open spec fn ids_of_path(entries: Seq<TyPathEntry>, path: Seq<char>) -> Seq<TyDefId>
    decreases entries.len(),
{
    if entries.len() == 0 {
        Seq::empty()
    } else if entries.last().path@ == path {
        ids_of_path(entries.drop_last(), path).push(entries.last().id)
    } else {
        ids_of_path(entries.drop_last(), path)
    }
}

fn find<V>(table: &Vec<Entry<V>>, key: u64) -> (r: Option<usize>)
    ensures
        match r {
            Some(i) => i < table.len() && lookup(table@, key) == Some(table[i as int].value),
            None => lookup(table@, key) is None,
        },
{
    let mut i: usize = 0;
    assert(table@.skip(0) =~= table@);
    while i < table.len()
        invariant
            i <= table.len(),
            lookup(table@, key) == lookup(table@.skip(i as int), key),
        decreases table.len() - i,
    {
        if table[i].key == key {
            return Some(i);
        }
        assert(table@.skip(i as int).skip(1) =~= table@.skip(i + 1));
        i += 1;
    }
    None
}

/// What a host answers during one session, one table for each of its
/// capabilities. The host fills the tables when it populates the session; a
/// plugin only reads them, through an [`AstContext`].
#[derive(Debug)]
pub struct DriverCallbacks<'ast> {
    pub lint_levels: Vec<LintLevelEntry>,
    pub items: Vec<Entry<ItemKind<'ast>>>,
    pub bodies: Vec<Entry<Body<'ast>>>,
    pub ty_paths: Vec<TyPathEntry>,
    pub expr_tys: Vec<Entry<SemTyKind<'ast>>>,
    pub spans: Vec<Entry<Span<'ast>>>,
    pub snippets: Vec<SnippetEntry<'ast>>,
    pub symbols: Vec<Entry<String>>,
    pub method_targets: Vec<Entry<ItemId>>,
}

impl<'ast> DriverCallbacks<'ast> {
    pub fn call_lint_level_at(&self, lint: &Lint, node: EmissionNode) -> (r: Level)
        ensures
            r == level_in(self.lint_levels@, lint.name@, node, lint.default),
    {
        let mut i: usize = 0;
        assert(self.lint_levels@.skip(0) =~= self.lint_levels@);
        while i < self.lint_levels.len()
            invariant
                i <= self.lint_levels.len(),
                level_in(self.lint_levels@, lint.name@, node, lint.default) == level_in(
                    self.lint_levels@.skip(i as int),
                    lint.name@,
                    node,
                    lint.default,
                ),
            decreases self.lint_levels.len() - i,
        {
            let entry = &self.lint_levels[i];
            if entry.lint == lint.name && entry.node == node {
                return entry.level;
            }
            assert(self.lint_levels@.skip(i as int).skip(1) =~= self.lint_levels@.skip(i + 1));
            i += 1;
        }
        lint.default
    }

    pub fn call_item(&self, id: ItemId) -> (r: Option<ItemKind<'ast>>)
        ensures
            r == lookup(self.items@, id.raw),
    {
        match find(&self.items, id.raw) {
            Some(i) => Some(self.items[i].value),
            None => None,
        }
    }

    pub fn call_body(&'ast self, id: BodyId) -> (r: &'ast Body<'ast>)
        requires
            lookup(self.bodies@, id.raw) is Some,
        ensures
            Some(*r) == lookup(self.bodies@, id.raw),
    {
        let i = find(&self.bodies, id.raw).unwrap();
        &self.bodies[i].value
    }

    /// The definitions that `path` names: none where it does not resolve,
    /// several where the build holds several versions of one crate.
    pub fn call_resolve_ty_ids(&self, path: &str) -> (r: Vec<TyDefId>)
        ensures
            r@ == ids_of_path(self.ty_paths@, path@),
    {
        let wanted = path.to_owned();
        let mut out: Vec<TyDefId> = Vec::new();
        let mut i: usize = 0;
        while i < self.ty_paths.len()
            invariant
                i <= self.ty_paths.len(),
                wanted@ == path@,
                out@ == ids_of_path(self.ty_paths@.take(i as int), path@),
            decreases self.ty_paths.len() - i,
        {
            assert(self.ty_paths@.take(i + 1).drop_last() =~= self.ty_paths@.take(i as int));
            if self.ty_paths[i].path == wanted {
                out.push(self.ty_paths[i].id);
            }
            i += 1;
        }
        assert(self.ty_paths@.take(i as int) =~= self.ty_paths@);
        out
    }

    pub fn call_expr_ty(&self, expr: ExprId) -> (r: SemTyKind<'ast>)
        requires
            lookup(self.expr_tys@, expr.raw) is Some,
        ensures
            Some(r) == lookup(self.expr_tys@, expr.raw),
    {
        let i = find(&self.expr_tys, expr.raw).unwrap();
        self.expr_tys[i].value
    }

    pub fn call_span(&'ast self, span_id: SpanId) -> (r: &'ast Span<'ast>)
        requires
            lookup(self.spans@, span_id.raw) is Some,
        ensures
            Some(*r) == lookup(self.spans@, span_id.raw),
    {
        let i = find(&self.spans, span_id.raw).unwrap();
        &self.spans[i].value
    }

    pub fn call_span_snippet(&self, span: &Span<'ast>) -> (r: Option<String>)
        ensures
            r is Some == snippet_in(self.snippets@, span@) is Some,
            r is Some ==> Some(r.unwrap()@) == snippet_in(self.snippets@, span@),
    {
        let mut i: usize = 0;
        assert(self.snippets@.skip(0) =~= self.snippets@);
        while i < self.snippets.len()
            invariant
                i <= self.snippets.len(),
                snippet_in(self.snippets@, span@) == snippet_in(self.snippets@.skip(i as int), span@),
            decreases self.snippets.len() - i,
        {
            let entry = &self.snippets[i];
            if entry.span.is_same_span(span) {
                return Some(entry.text.clone());
            }
            assert(self.snippets@.skip(i as int).skip(1) =~= self.snippets@.skip(i + 1));
            i += 1;
        }
        None
    }

    pub fn call_symbol_str(&'ast self, sym: SymbolId) -> (r: &'ast str)
        requires
            lookup(self.symbols@, sym.raw) is Some,
        ensures
            r@ == lookup(self.symbols@, sym.raw).unwrap()@,
    {
        let i = find(&self.symbols, sym.raw).unwrap();
        self.symbols[i].value.as_str()
    }

    pub fn resolve_method_target(&self, expr: ExprId) -> (r: ItemId)
        requires
            lookup(self.method_targets@, expr.raw) is Some,
        ensures
            Some(r) == lookup(self.method_targets@, expr.raw),
    {
        let i = find(&self.method_targets, expr.raw).unwrap();
        self.method_targets[i].value
    }
}

/// The plugin's view of the host. It is handed to every lint pass, which
/// emits lints and resolves handles through it.
#[derive(Debug)]
pub struct AstContext<'ast> {
    driver: &'ast DriverCallbacks<'ast>,
}

impl<'ast> AstContext<'ast> {
    /// The host's answers behind this context.
    pub closed spec fn driver(&self) -> &'ast DriverCallbacks<'ast> {
        self.driver
    }

    pub fn new(driver: &'ast DriverCallbacks<'ast>) -> (r: Self)
        ensures
            r.driver() == driver,
    {
        AstContext { driver }
    }

    /// The level at which `lint` is reported at `node`.
    pub open spec fn spec_lint_level_at(&self, lint: &Lint, node: EmissionNode) -> Level {
        level_in(self.driver().lint_levels@, lint.name@, node, lint.default)
    }

    /// Whether nothing is reported for `lint` at `node` and `span`: the lint
    /// is never reported inside macros and the span lies in one, or the lint
    /// is allowed at the node.
    pub open spec fn is_suppressed(&self, lint: &Lint, node: EmissionNode, span: &Span<'ast>) -> bool {
        ||| (lint.report_in_macro == MacroReport::No && span@.source is Macro)
        ||| self.spec_lint_level_at(lint, node) == Level::Allow
    }

    pub open spec fn has_body(&self, id: BodyId) -> bool {
        lookup(self.driver().bodies@, id.raw) is Some
    }

    pub open spec fn has_expr_ty(&self, expr: ExprId) -> bool {
        lookup(self.driver().expr_tys@, expr.raw) is Some
    }

    pub open spec fn has_span(&self, id: SpanId) -> bool {
        lookup(self.driver().spans@, id.raw) is Some
    }

    pub open spec fn has_symbol(&self, sym: SymbolId) -> bool {
        lookup(self.driver().symbols@, sym.raw) is Some
    }

    pub open spec fn has_method_target(&self, expr: ExprId) -> bool {
        lookup(self.driver().method_targets@, expr.raw) is Some
    }

    pub open spec fn spec_expr_ty(&self, expr: ExprId) -> SemTyKind<'ast> {
        lookup(self.driver().expr_tys@, expr.raw).unwrap()
    }

    pub open spec fn spec_span(&self, id: SpanId) -> Span<'ast> {
        lookup(self.driver().spans@, id.raw).unwrap()
    }

    pub open spec fn spec_symbol(&self, sym: SymbolId) -> Seq<char> {
        lookup(self.driver().symbols@, sym.raw).unwrap()@
    }

    pub open spec fn spec_snippet(&self, span: SpanView) -> Option<Seq<char>> {
        snippet_in(self.driver().snippets@, span)
    }

    /// Whether the host knows the body behind `id`.
    pub fn contains_body(&self, id: BodyId) -> (r: bool)
        ensures
            r == self.has_body(id),
    {
        find(&self.driver.bodies, id.raw).is_some()
    }

    /// Whether the host knows the type of the expression behind `expr`.
    pub fn contains_expr_ty(&self, expr: ExprId) -> (r: bool)
        ensures
            r == self.has_expr_ty(expr),
    {
        find(&self.driver.expr_tys, expr.raw).is_some()
    }

    /// Whether the host knows the span behind `id`.
    pub fn contains_span(&self, id: SpanId) -> (r: bool)
        ensures
            r == self.has_span(id),
    {
        find(&self.driver.spans, id.raw).is_some()
    }

    /// Whether the host knows the name behind `sym`.
    pub fn contains_symbol(&self, sym: SymbolId) -> (r: bool)
        ensures
            r == self.has_symbol(sym),
    {
        find(&self.driver.symbols, sym.raw).is_some()
    }

    /// Whether the host knows the method that the call behind `expr` goes to.
    pub fn contains_method_target(&self, expr: ExprId) -> (r: bool)
        ensures
            r == self.has_method_target(expr),
    {
        find(&self.driver.method_targets, expr.raw).is_some()
    }

    pub fn lint_level_at(&self, lint: &Lint, node: EmissionNode) -> (r: Level)
        ensures
            r == self.spec_lint_level_at(lint, node),
    {
        self.driver.call_lint_level_at(lint, node)
    }

    /// Builds the diagnostic for `lint` at `node`, lets `decorate` attach
    /// its parts, and returns it for the host to render. Where the lint is
    /// suppressed nothing is built and `decorate` is not called: it need
    /// not even be callable there.
    pub fn emit_lint<F>(
        &self,
        lint: &'ast Lint,
        node: EmissionNode,
        msg: String,
        span: &Span<'ast>,
        decorate: F,
    ) -> (r: Option<Diagnostic<'ast>>) where F: FnOnce(DiagnosticBuilder<'ast>) -> DiagnosticBuilder<'ast>
        requires
            !self.is_suppressed(lint, node, span) ==> forall|b: DiagnosticBuilder<'ast>|
                b.is_fresh(lint, node, msg, *span) ==> decorate.requires((b,)),
        ensures
            r is None == self.is_suppressed(lint, node, span),
            r is Some ==> exists|b: DiagnosticBuilder<'ast>|
                b.is_fresh(lint, node, msg, *span) && decorate.ensures((b,), DiagnosticBuilder { diag: r.unwrap() }),
    {
        if matches!(lint.report_in_macro, MacroReport::No) && span.is_from_macro() {
            return None;
        }
        if self.lint_level_at(lint, node) != Level::Allow {
            let builder = DiagnosticBuilder::new(lint, node, msg, *span);
            let decorated = decorate(builder);
            Some(decorated.emit())
        } else {
            None
        }
    }

    /// The item behind `id`. A host may know none: that is no error.
    pub fn item(&self, id: ItemId) -> (r: Option<ItemKind<'ast>>)
        ensures
            r == lookup(self.driver().items@, id.raw),
    {
        self.driver.call_item(id)
    }

    pub fn body(&self, id: BodyId) -> (r: &'ast Body<'ast>)
        requires
            self.has_body(id),
        ensures
            Some(*r) == lookup(self.driver().bodies@, id.raw),
    {
        self.driver.call_body(id)
    }

    /// The definitions that `path` names. The list is empty where the path
    /// does not resolve, and holds several handles where the build holds
    /// several versions of one crate. Its order carries no meaning.
    pub fn resolve_ty_ids(&self, path: &str) -> (r: Vec<TyDefId>)
        ensures
            r@ == ids_of_path(self.driver().ty_paths@, path@),
    {
        self.driver.call_resolve_ty_ids(path)
    }

    pub fn expr_ty(&self, expr: ExprId) -> (r: SemTyKind<'ast>)
        requires
            self.has_expr_ty(expr),
        ensures
            r == self.spec_expr_ty(expr),
    {
        self.driver.call_expr_ty(expr)
    }

    pub fn span_snipped(&self, span: &Span<'ast>) -> (r: Option<String>)
        ensures
            r is Some == self.spec_snippet(span@) is Some,
            r is Some ==> Some(r.unwrap()@) == self.spec_snippet(span@),
    {
        self.driver.call_span_snippet(span)
    }

    pub fn span(&self, span_id: SpanId) -> (r: &'ast Span<'ast>)
        requires
            self.has_span(span_id),
        ensures
            *r == self.spec_span(span_id),
    {
        self.driver.call_span(span_id)
    }

    pub fn symbol_str(&self, sym: SymbolId) -> (r: &'ast str)
        requires
            self.has_symbol(sym),
        ensures
            r@ == self.spec_symbol(sym),
    {
        self.driver.call_symbol_str(sym)
    }

    pub fn resolve_method_target(&self, expr: ExprId) -> (r: ItemId)
        requires
            self.has_method_target(expr),
        ensures
            Some(r) == lookup(self.driver().method_targets@, expr.raw),
    {
        self.driver.resolve_method_target(expr)
    }
}

/// A lint that is never reported inside macros is suppressed at every span
/// that lies in a macro, whatever its level there.
pub proof fn lemma_suppressed_in_macro<'ast>(cx: &AstContext<'ast>, lint: &Lint, node: EmissionNode, span: &Span<'ast>)
    requires
        lint.report_in_macro == MacroReport::No,
        span@.source is Macro,
    ensures
        cx.is_suppressed(lint, node, span),
{
}

/// A lint is suppressed wherever its level is `Allow`.
pub proof fn lemma_suppressed_when_allowed<'ast>(
    cx: &AstContext<'ast>,
    lint: &Lint,
    node: EmissionNode,
    span: &Span<'ast>,
)
    requires
        cx.spec_lint_level_at(lint, node) == Level::Allow,
    ensures
        cx.is_suppressed(lint, node, span),
{
}

/// Without an entry of the host for it, a lint has its default level.
pub proof fn lemma_default_level<'ast>(cx: &AstContext<'ast>, lint: &Lint, node: EmissionNode)
    requires
        forall|i: int|
            0 <= i < cx.driver().lint_levels@.len() ==> !(#[trigger] cx.driver().lint_levels@[i].lint@ == lint.name@
                && cx.driver().lint_levels@[i].node == node),
    ensures
        cx.spec_lint_level_at(lint, node) == lint.default,
{
    lemma_level_without_entry(cx.driver().lint_levels@, lint.name@, node, lint.default);
}

proof fn lemma_level_without_entry(entries: Seq<LintLevelEntry>, lint: Seq<char>, node: EmissionNode, default: Level)
    requires
        forall|i: int| 0 <= i < entries.len() ==> !(#[trigger] entries[i].lint@ == lint && entries[i].node == node),
    ensures
        level_in(entries, lint, node, default) == default,
    decreases entries.len(),
{
    if entries.len() > 0 {
        assert(!(entries[0].lint@ == lint && entries[0].node == node));
        assert forall|i: int| 0 <= i < entries.skip(1).len() implies !(#[trigger] entries.skip(1)[i].lint@ == lint
            && entries.skip(1)[i].node == node) by {
            assert(entries.skip(1)[i] == entries[i + 1]);
        }
        lemma_level_without_entry(entries.skip(1), lint, node, default);
    }
}

/// The place that holds the current context of one analysis thread. A node
/// stays small and holds no context of its own: an accessor that needs the
/// host looks the context up here.
#[derive(Debug)]
pub struct ContextSlot<'ast> {
    current: Option<&'ast AstContext<'ast>>,
}

impl<'ast> ContextSlot<'ast> {
    pub closed spec fn is_installed(&self) -> bool {
        self.current is Some
    }

    /// The installed context.
    pub closed spec fn context(&self) -> &'ast AstContext<'ast> {
        self.current.unwrap()
    }

    /// A slot without a context.
    pub fn new() -> (r: Self)
        ensures
            !r.is_installed(),
    {
        ContextSlot { current: None }
    }

    /// Whether a context is installed.
    pub fn installed(&self) -> (r: bool)
        ensures
            r == self.is_installed(),
    {
        self.current.is_some()
    }
}

/// Installs `cx` as the current context. A session installs its context
/// once: the slot must be empty.
pub fn set_ast_cx<'ast>(slot: &mut ContextSlot<'ast>, cx: &'ast AstContext<'ast>)
    requires
        !old(slot).is_installed(),
    ensures
        final(slot).is_installed(),
        final(slot).context() == cx,
{
    slot.current = Some(cx);
}

/// Takes the current context out of the slot, at the end of its session.
pub fn clear_ast_cx<'ast>(slot: &mut ContextSlot<'ast>)
    ensures
        !final(slot).is_installed(),
{
    slot.current = None;
}

/// Hands the current context to `f` and returns what `f` returns.
pub fn with_cx<'ast, F, R>(slot: &ContextSlot<'ast>, f: F) -> (r: R) where
    F: FnOnce(&'ast AstContext<'ast>) -> R,

    requires
        slot.is_installed(),
        f.requires((slot.context(),)),
    ensures
        f.ensures((slot.context(),), r),
{
    let cx: &'ast AstContext<'ast> = slot.current.unwrap();
    f(cx)
}

/// The span behind `id`, as the current context resolves it.
pub fn current_span<'ast>(slot: &ContextSlot<'ast>, id: SpanId) -> (r: &'ast Span<'ast>)
    requires
        slot.is_installed(),
        slot.context().has_span(id),
    ensures
        *r == slot.context().spec_span(id),
{
    let look_up = |cx: &'ast AstContext<'ast>| -> (s: &'ast Span<'ast>)
        requires
            cx.has_span(id),
        ensures
            *s == cx.spec_span(id),
        {
            cx.span(id)
        };
    with_cx(slot, look_up)
}

/// The semantic type of the expression behind `id`, as the current context
/// gives it.
pub fn current_expr_ty<'ast>(slot: &ContextSlot<'ast>, id: ExprId) -> (r: SemTyKind<'ast>)
    requires
        slot.is_installed(),
        slot.context().has_expr_ty(id),
    ensures
        r == slot.context().spec_expr_ty(id),
{
    let look_up = |cx: &'ast AstContext<'ast>| -> (t: SemTyKind<'ast>)
        requires
            cx.has_expr_ty(id),
        ensures
            t == cx.spec_expr_ty(id),
        {
            cx.expr_ty(id)
        };
    with_cx(slot, look_up)
}

} // verus!
