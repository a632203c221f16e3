use marker_api::context::{set_ast_cx, AstContext, ContextSlot, DriverCallbacks, Entry, SnippetEntry};
use marker_api::ids::{SpanId, SpanSrcId, SymbolId};
use marker_api::lint::Applicability;
use marker_api::span::{Ident, Span, SpanSource};

fn empty_driver<'ast>() -> DriverCallbacks<'ast> {
    DriverCallbacks {
        lint_levels: Vec::new(),
        items: Vec::new(),
        bodies: Vec::new(),
        ty_paths: Vec::new(),
        expr_tys: Vec::new(),
        spans: Vec::new(),
        snippets: Vec::new(),
        symbols: Vec::new(),
        method_targets: Vec::new(),
    }
}

#[test]
fn file_and_sugar_spans_are_from_a_file() {
    let file = SpanSource::File("src/a.rs".to_string());
    let sugar = SpanSource::Sugar("src/a.rs".to_string(), SpanSrcId { raw: 3 });
    let mac = SpanSource::Macro(SpanSrcId { raw: 3 });
    for source in [&file, &sugar] {
        let span = Span::new(source, 1, 4);
        assert!(span.is_from_file());
        assert!(!span.is_from_macro());
    }
    let span = Span::new(&mac, 1, 4);
    assert!(!span.is_from_file());
    assert!(span.is_from_macro());
}

#[test]
fn span_bounds_and_emptiness() {
    let file = SpanSource::File("src/a.rs".to_string());
    let mut span = Span::new(&file, 2, 2);
    assert!(span.is_empty());
    assert_eq!(span.start(), 2);
    assert_eq!(span.end(), 2);
    span.set_end(9);
    assert!(!span.is_empty());
    assert_eq!(span.end(), 9);
    span.set_start(5);
    assert_eq!(span.start(), 5);
    assert_eq!(span.end(), 9);
    assert!(matches!(span.source(), SpanSource::File(path) if path == "src/a.rs"));
}

#[test]
fn same_source_goes_by_path_and_by_expansion() {
    let a = SpanSource::File("src/a.rs".to_string());
    let a_again = SpanSource::File("src/a.rs".to_string());
    let b = SpanSource::File("src/b.rs".to_string());
    let m3 = SpanSource::Macro(SpanSrcId { raw: 3 });
    let m3_again = SpanSource::Macro(SpanSrcId { raw: 3 });
    let m4 = SpanSource::Macro(SpanSrcId { raw: 4 });
    let sugar = SpanSource::Sugar("src/a.rs".to_string(), SpanSrcId { raw: 3 });
    assert!(Span::new(&a, 0, 1).is_same_source(&Span::new(&a_again, 5, 9)));
    assert!(!Span::new(&a, 0, 1).is_same_source(&Span::new(&b, 0, 1)));
    assert!(Span::new(&m3, 0, 1).is_same_source(&Span::new(&m3_again, 0, 1)));
    assert!(!Span::new(&m3, 0, 1).is_same_source(&Span::new(&m4, 0, 1)));
    assert!(!Span::new(&a, 0, 1).is_same_source(&Span::new(&sugar, 0, 1)));
    assert!(!Span::new(&m3, 0, 1).is_same_source(&Span::new(&sugar, 0, 1)));
    assert!(Span::new(&a, 0, 1).is_same_span(&Span::new(&a_again, 0, 1)));
    assert!(!Span::new(&a, 0, 1).is_same_span(&Span::new(&a_again, 0, 2)));
    assert!(a == a_again);
    assert!(a != b);
}

#[test]
fn snippet_comes_from_the_current_context() {
    let file = SpanSource::File("src/a.rs".to_string());
    let known = Span::new(&file, 4, 9);
    let unknown = Span::new(&file, 4, 10);
    let mut driver = empty_driver();
    driver.snippets.push(SnippetEntry { span: known, text: "value".to_string() });
    driver.snippets.push(SnippetEntry { span: known, text: "later".to_string() });
    let cx = AstContext::new(&driver);
    let mut slot = ContextSlot::new();
    set_ast_cx(&mut slot, &cx);
    assert_eq!(known.snippet(&slot), Some("value".to_string()));
    assert_eq!(unknown.snippet(&slot), None);
    assert_eq!(known.snippet_or(&slot, ".."), "value");
    assert_eq!(unknown.snippet_or(&slot, ".."), "..");
}

#[test]
fn snippet_with_applicability_lowers_the_applicability() {
    let file = SpanSource::File("src/a.rs".to_string());
    let mac = SpanSource::Macro(SpanSrcId { raw: 1 });
    let in_file = Span::new(&file, 0, 3);
    let in_file_unknown = Span::new(&file, 0, 4);
    let in_macro = Span::new(&mac, 0, 3);
    let in_macro_unknown = Span::new(&mac, 0, 4);
    let mut driver = empty_driver();
    driver.snippets.push(SnippetEntry { span: in_file, text: "foo".to_string() });
    driver.snippets.push(SnippetEntry { span: in_macro, text: "bar".to_string() });
    let cx = AstContext::new(&driver);
    let mut slot = ContextSlot::new();
    set_ast_cx(&mut slot, &cx);

    let mut app = Applicability::MachineApplicable;
    assert_eq!(in_file.snippet_with_applicability(&slot, "..", &mut app), "foo");
    assert_eq!(app, Applicability::MachineApplicable);

    let mut app = Applicability::MachineApplicable;
    assert_eq!(in_file_unknown.snippet_with_applicability(&slot, "..", &mut app), "..");
    assert_eq!(app, Applicability::HasPlaceholders);

    let mut app = Applicability::MaybeIncorrect;
    assert_eq!(in_file_unknown.snippet_with_applicability(&slot, "..", &mut app), "..");
    assert_eq!(app, Applicability::MaybeIncorrect);

    let mut app = Applicability::MachineApplicable;
    assert_eq!(in_macro.snippet_with_applicability(&slot, "..", &mut app), "bar");
    assert_eq!(app, Applicability::MaybeIncorrect);

    let mut app = Applicability::HasPlaceholders;
    assert_eq!(in_macro_unknown.snippet_with_applicability(&slot, "..", &mut app), "..");
    assert_eq!(app, Applicability::MaybeIncorrect);

    let mut app = Applicability::Unspecified;
    assert_eq!(in_macro_unknown.snippet_with_applicability(&slot, "..", &mut app), "..");
    assert_eq!(app, Applicability::Unspecified);
}

#[test]
fn ident_resolves_its_name_and_span_through_the_context() {
    let file = SpanSource::File("src/a.rs".to_string());
    let mut driver = empty_driver();
    driver.symbols.push(Entry { key: 7, value: "ducks".to_string() });
    driver.symbols.push(Entry { key: 8, value: "penguins".to_string() });
    driver.spans.push(Entry { key: 1, value: Span::new(&file, 10, 15) });
    let cx = AstContext::new(&driver);
    let mut slot = ContextSlot::new();
    set_ast_cx(&mut slot, &cx);
    let ident = Ident::new(SymbolId { raw: 8 }, SpanId { raw: 1 });
    assert_eq!(ident.name(&slot), "penguins");
    assert!(ident.is_named(&slot, "penguins"));
    assert!(!ident.is_named(&slot, "ducks"));
    assert!(!ident.is_named(&slot, "penguin"));
    assert_eq!(ident.span(&slot).start(), 10);
    assert_eq!(ident.span(&slot).end(), 15);
}
