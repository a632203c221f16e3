//! Spans and where their text comes from.

use vstd::prelude::*;
use crate::context::{current_span, with_cx, AstContext, ContextSlot};
use crate::ids::{SpanId, SpanSrcId, SymbolId};
use crate::lint::Applicability;

verus! {

/// The provenance of a span.
#[derive(Debug, Clone)]
pub enum SpanSource {
    /// The span lies in the file with this path.
    File(String),
    /// The span lies in the expansion of a macro.
    Macro(SpanSrcId),
    /// The span belongs to a file but is the result of desugaring. It is
    /// handled like a file.
    Sugar(String, SpanSrcId),
}

/// What a [`SpanSource`] denotes: file paths count by their content,
/// expansions by their handle.
pub enum Provenance {
    File(Seq<char>),
    Macro(SpanSrcId),
    Sugar(Seq<char>, SpanSrcId),
}

impl View for SpanSource {
    type V = Provenance;

    open spec fn view(&self) -> Provenance {
        match self {
            SpanSource::File(path) => Provenance::File(path@),
            SpanSource::Macro(id) => Provenance::Macro(*id),
            SpanSource::Sugar(path, id) => Provenance::Sugar(path@, *id),
        }
    }
}

impl PartialEq for SpanSource {
    fn eq(&self, other: &Self) -> (r: bool) {
        match self {
            SpanSource::File(a) => match other {
                SpanSource::File(b) => a.eq(b),
                _ => false,
            },
            SpanSource::Macro(a) => match other {
                SpanSource::Macro(b) => a.raw == b.raw,
                _ => false,
            },
            SpanSource::Sugar(a, x) => match other {
                SpanSource::Sugar(b, y) => a.eq(b) && x.raw == y.raw,
                _ => false,
            },
        }
    }
}

impl vstd::std_specs::cmp::PartialEqSpecImpl for SpanSource {
    open spec fn obeys_eq_spec() -> bool {
        true
    }

    open spec fn eq_spec(&self, other: &Self) -> bool {
        self@ == other@
    }
}

/// A range of bytes `start..end` in one source.
#[derive(Debug, Clone, Copy)]
pub struct Span<'ast> {
    source: &'ast SpanSource,
    start: usize,
    end: usize,
}

/// A span as a plain value.
pub struct SpanView {
    pub source: Provenance,
    pub start: nat,
    pub end: nat,
}

impl<'ast> View for Span<'ast> {
    type V = SpanView;

    closed spec fn view(&self) -> SpanView {
        SpanView { source: self.source@, start: self.start as nat, end: self.end as nat }
    }
}

impl<'ast> Span<'ast> {
    /// The start of a span never lies behind its end.
    pub open spec fn wf(&self) -> bool {
        self@.start <= self@.end
    }

    pub fn new(source: &'ast SpanSource, start: usize, end: usize) -> (r: Self)
        requires
            start <= end,
        ensures
            r@ == (SpanView { source: source@, start: start as nat, end: end as nat }),
            r.wf(),
    {
        Span { source, start, end }
    }

    pub fn source(&self) -> (r: &'ast SpanSource)
        ensures
            r@ == self@.source,
    {
        self.source
    }

    pub fn is_from_file(&self) -> (r: bool)
        ensures
            r == (self@.source is File || self@.source is Sugar),
            r == !(self@.source is Macro),
    {
        matches!(self.source, SpanSource::File(..) | SpanSource::Sugar(..))
    }

    pub fn is_from_macro(&self) -> (r: bool)
        ensures
            r == (self@.source is Macro),
    {
        matches!(self.source, SpanSource::Macro(..))
    }

    /// Whether the span holds no byte.
    pub fn is_empty(&self) -> (r: bool)
        ensures
            r == (self@.start == self@.end),
    {
        self.start == self.end
    }

    /// Whether both spans lie in the same file or the same expansion.
    pub fn is_same_source(&self, other: &Span<'ast>) -> (r: bool)
        ensures
            r == (self@.source == other@.source),
    {
        self.source == other.source
    }

    /// Whether both spans cover the same bytes of the same source.
    pub fn is_same_span(&self, other: &Span<'ast>) -> (r: bool)
        ensures
            r == (self@ == other@),
    {
        self.is_same_source(other) && self.start == other.start && self.end == other.end
    }

    pub fn start(&self) -> (r: usize)
        ensures
            r == self@.start,
    {
        self.start
    }

    pub fn set_start(&mut self, start: usize)
        requires
            start <= old(self)@.end,
        ensures
            final(self)@ == (SpanView { start: start as nat, ..old(self)@ }),
            final(self).wf(),
    {
        self.start = start;
    }

    pub fn end(&self) -> (r: usize)
        ensures
            r == self@.end,
    {
        self.end
    }

    pub fn set_end(&mut self, end: usize)
        requires
            old(self)@.start <= end,
        ensures
            final(self)@ == (SpanView { end: end as nat, ..old(self)@ }),
            final(self).wf(),
    {
        self.end = end;
    }

    /// The code under this span, or `None` where the host cannot give it.
    pub fn snippet(&self, slot: &ContextSlot<'ast>) -> (r: Option<String>)
        requires
            slot.is_installed(),
        ensures
            r is Some == slot.context().spec_snippet(self@) is Some,
            r is Some ==> Some(r.unwrap()@) == slot.context().spec_snippet(self@),
    {
        let look_up = |cx: &'ast AstContext<'ast>| -> (s: Option<String>)
            ensures
                s is Some == cx.spec_snippet(self@) is Some,
                s is Some ==> Some(s.unwrap()@) == cx.spec_snippet(self@),
            {
                cx.span_snipped(self)
            };
        with_cx(slot, look_up)
    }

    /// The code under this span, or `default` where the host cannot give it.
    pub fn snippet_or(&self, slot: &ContextSlot<'ast>, default: &str) -> (r: String)
        requires
            slot.is_installed(),
        ensures
            r@ == match slot.context().spec_snippet(self@) {
                Some(text) => text,
                None => default@,
            },
    {
        match self.snippet(slot) {
            Some(text) => text,
            None => default.to_owned(),
        }
    }

    /// The applicability that a suggestion built from this span keeps:
    /// `Unspecified` never changes; inside a macro anything else becomes
    /// `MaybeIncorrect`; and where the text had to be replaced by a
    /// placeholder, `MachineApplicable` becomes `HasPlaceholders`.
    pub open spec fn adapted_applicability(from_macro: bool, has_text: bool, before: Applicability) -> Applicability {
        let in_macro = if before != Applicability::Unspecified && from_macro {
            Applicability::MaybeIncorrect
        } else {
            before
        };
        if !has_text && in_macro == Applicability::MachineApplicable {
            Applicability::HasPlaceholders
        } else {
            in_macro
        }
    }

    /// Like [`snippet_or`](Self::snippet_or), and lowers `applicability` to
    /// what a suggestion built from the result can claim.
    pub fn snippet_with_applicability(
        &self,
        slot: &ContextSlot<'ast>,
        default: &str,
        applicability: &mut Applicability,
    ) -> (r: String)
        requires
            slot.is_installed(),
        ensures
            r@ == match slot.context().spec_snippet(self@) {
                Some(text) => text,
                None => default@,
            },
            *final(applicability) == Self::adapted_applicability(
                self@.source is Macro,
                slot.context().spec_snippet(self@) is Some,
                *old(applicability),
            ),
    {
        if *applicability != Applicability::Unspecified && self.is_from_macro() {
            *applicability = Applicability::MaybeIncorrect;
        }
        match self.snippet(slot) {
            Some(text) => text,
            None => {
                if *applicability == Applicability::MachineApplicable {
                    *applicability = Applicability::HasPlaceholders;
                }
                default.to_owned()
            },
        }
    }
}

/// Every span is from a file or from a macro, and never from both: file and
/// sugar spans are from a file, macro spans are from a macro.
pub proof fn lemma_from_file_or_from_macro(span: Span)
    ensures
        (span@.source is File || span@.source is Sugar) <==> !(span@.source is Macro),
{
}

/// A name at a place in the source. The name's text is resolved through the
/// context whenever it is asked for.
#[derive(Debug, Clone, Copy)]
pub struct Ident {
    sym: SymbolId,
    span: SpanId,
}

impl Ident {
    pub closed spec fn symbol_id(&self) -> SymbolId {
        self.sym
    }

    pub closed spec fn span_id(&self) -> SpanId {
        self.span
    }

    pub fn new(sym: SymbolId, span: SpanId) -> (r: Self)
        ensures
            r.symbol_id() == sym,
            r.span_id() == span,
    {
        Ident { sym, span }
    }

    pub fn name<'ast>(&self, slot: &ContextSlot<'ast>) -> (r: &'ast str)
        requires
            slot.is_installed(),
            slot.context().has_symbol(self.symbol_id()),
        ensures
            r@ == slot.context().spec_symbol(self.symbol_id()),
    {
        let sym = self.sym;
        let look_up = |cx: &'ast AstContext<'ast>| -> (s: &'ast str)
            requires
                cx.has_symbol(sym),
            ensures
                s@ == cx.spec_symbol(sym),
            {
                cx.symbol_str(sym)
            };
        with_cx(slot, look_up)
    }

    /// Whether this identifier's name is `other`.
    pub fn is_named<'ast>(&self, slot: &ContextSlot<'ast>, other: &str) -> (r: bool)
        requires
            slot.is_installed(),
            slot.context().has_symbol(self.symbol_id()),
        ensures
            r == (slot.context().spec_symbol(self.symbol_id()) == other@),
    {
        let name = self.name(slot).to_owned();
        let other = other.to_owned();
        name == other
    }

    pub fn span<'ast>(&self, slot: &ContextSlot<'ast>) -> (r: &'ast Span<'ast>)
        requires
            slot.is_installed(),
            slot.context().has_span(self.span_id()),
        ensures
            *r == slot.context().spec_span(self.span_id()),
    {
        current_span(slot, self.span)
    }
}

} // verus!
