//! Diagnostics and the builder a plugin decorates them with.

use vstd::prelude::*;
use crate::ids::{ExprId, ItemId};
use crate::lint::Lint;
use crate::span::Span;

verus! {

/// The node at which a lint is emitted. The host resolves the lint's level
/// there.
#[derive(Debug, Clone, Copy, PartialEq, Eq, Structural, Hash)]
pub enum EmissionNode {
    Expr(ExprId),
    Item(ItemId),
}

/// A message attached to a diagnostic.
#[derive(Debug)]
pub enum DiagnosticPart {
    Note(String),
    Help(String),
}

/// A diagnostic, ready for the host to render.
#[derive(Debug)]
pub struct Diagnostic<'ast> {
    pub lint: &'ast Lint,
    pub node: EmissionNode,
    pub msg: String,
    pub span: Span<'ast>,
    pub parts: Vec<DiagnosticPart>,
}

/// A diagnostic under construction.
#[derive(Debug)]
pub struct DiagnosticBuilder<'ast> {
    pub diag: Diagnostic<'ast>,
}

impl<'ast> DiagnosticBuilder<'ast> {
    /// Whether this is the builder of a diagnostic with these values and
    /// without parts.
    pub open spec fn is_fresh(&self, lint: &Lint, node: EmissionNode, msg: String, span: Span<'ast>) -> bool {
        &&& self.diag.lint == lint
        &&& self.diag.node == node
        &&& self.diag.msg == msg
        &&& self.diag.span == span
        &&& self.diag.parts@ == Seq::<DiagnosticPart>::empty()
    }

    pub fn new(lint: &'ast Lint, node: EmissionNode, msg: String, span: Span<'ast>) -> (r: Self)
        ensures
            r.is_fresh(lint, node, msg, span),
    {
        DiagnosticBuilder { diag: Diagnostic { lint, node, msg, span, parts: Vec::new() } }
    }

    /// Appends a note.
    pub fn note(&mut self, msg: String)
        ensures
            final(self).diag.parts@ == old(self).diag.parts@.push(DiagnosticPart::Note(msg)),
            final(self).diag.lint == old(self).diag.lint,
            final(self).diag.node == old(self).diag.node,
            final(self).diag.msg == old(self).diag.msg,
            final(self).diag.span == old(self).diag.span,
    {
        self.diag.parts.push(DiagnosticPart::Note(msg));
    }

    /// Appends a help message.
    pub fn help(&mut self, msg: String)
        ensures
            final(self).diag.parts@ == old(self).diag.parts@.push(DiagnosticPart::Help(msg)),
            final(self).diag.lint == old(self).diag.lint,
            final(self).diag.node == old(self).diag.node,
            final(self).diag.msg == old(self).diag.msg,
            final(self).diag.span == old(self).diag.span,
    {
        self.diag.parts.push(DiagnosticPart::Help(msg));
    }

    /// The finished diagnostic.
    pub fn emit(self) -> (r: Diagnostic<'ast>)
        ensures
            r == self.diag,
    {
        self.diag
    }
}

} // verus!
