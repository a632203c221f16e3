//! Control flow.

use vstd::prelude::*;
use crate::context::{current_expr_ty, current_span, ContextSlot};
use crate::expr::{CommonExprData, ExprData, ExprKind, ExprPrecedence};
use crate::ids::ExprId;
use crate::span::Span;
use crate::ty::SemTyKind;

verus! {

/// An `if` expression.
#[derive(Debug)]
pub struct IfExpr {
    data: CommonExprData,
}

impl IfExpr {
    pub fn new(data: CommonExprData) -> (r: Self)
        ensures
            r.common() == data,
    {
        IfExpr { data }
    }
}

impl<'ast> ExprData<'ast> for IfExpr {
    closed spec fn common(&self) -> CommonExprData {
        self.data
    }

    open spec fn spec_precedence(&self) -> ExprPrecedence {
        ExprPrecedence::If
    }

    fn id(&self) -> ExprId {
        self.data.id
    }

    fn span(&self, slot: &ContextSlot<'ast>) -> &'ast Span<'ast> {
        current_span(slot, self.data.span)
    }

    fn ty(&self, slot: &ContextSlot<'ast>) -> SemTyKind<'ast> {
        current_expr_ty(slot, self.data.id)
    }

    fn precedence(&self) -> ExprPrecedence {
        ExprPrecedence::If
    }

    fn as_expr(&'ast self) -> (r: ExprKind<'ast>)
        ensures
            r == ExprKind::If(self),
    {
        ExprKind::If(self)
    }
}

/// A `let` in a condition.
#[derive(Debug)]
pub struct LetExpr {
    data: CommonExprData,
}

impl LetExpr {
    pub fn new(data: CommonExprData) -> (r: Self)
        ensures
            r.common() == data,
    {
        LetExpr { data }
    }
}

impl<'ast> ExprData<'ast> for LetExpr {
    closed spec fn common(&self) -> CommonExprData {
        self.data
    }

    open spec fn spec_precedence(&self) -> ExprPrecedence {
        ExprPrecedence::Let
    }

    fn id(&self) -> ExprId {
        self.data.id
    }

    fn span(&self, slot: &ContextSlot<'ast>) -> &'ast Span<'ast> {
        current_span(slot, self.data.span)
    }

    fn ty(&self, slot: &ContextSlot<'ast>) -> SemTyKind<'ast> {
        current_expr_ty(slot, self.data.id)
    }

    fn precedence(&self) -> ExprPrecedence {
        ExprPrecedence::Let
    }

    fn as_expr(&'ast self) -> (r: ExprKind<'ast>)
        ensures
            r == ExprKind::Let(self),
    {
        ExprKind::Let(self)
    }
}

/// A `match` expression.
#[derive(Debug)]
pub struct MatchExpr {
    data: CommonExprData,
}

impl MatchExpr {
    pub fn new(data: CommonExprData) -> (r: Self)
        ensures
            r.common() == data,
    {
        MatchExpr { data }
    }
}

impl<'ast> ExprData<'ast> for MatchExpr {
    closed spec fn common(&self) -> CommonExprData {
        self.data
    }

    open spec fn spec_precedence(&self) -> ExprPrecedence {
        ExprPrecedence::Match
    }

    fn id(&self) -> ExprId {
        self.data.id
    }

    fn span(&self, slot: &ContextSlot<'ast>) -> &'ast Span<'ast> {
        current_span(slot, self.data.span)
    }

    fn ty(&self, slot: &ContextSlot<'ast>) -> SemTyKind<'ast> {
        current_expr_ty(slot, self.data.id)
    }

    fn precedence(&self) -> ExprPrecedence {
        ExprPrecedence::Match
    }

    fn as_expr(&'ast self) -> (r: ExprKind<'ast>)
        ensures
            r == ExprKind::Match(self),
    {
        ExprKind::Match(self)
    }
}

/// A `break` expression.
#[derive(Debug)]
pub struct BreakExpr {
    data: CommonExprData,
}

impl BreakExpr {
    pub fn new(data: CommonExprData) -> (r: Self)
        ensures
            r.common() == data,
    {
        BreakExpr { data }
    }
}

impl<'ast> ExprData<'ast> for BreakExpr {
    closed spec fn common(&self) -> CommonExprData {
        self.data
    }

    open spec fn spec_precedence(&self) -> ExprPrecedence {
        ExprPrecedence::Break
    }

    fn id(&self) -> ExprId {
        self.data.id
    }

    fn span(&self, slot: &ContextSlot<'ast>) -> &'ast Span<'ast> {
        current_span(slot, self.data.span)
    }

    fn ty(&self, slot: &ContextSlot<'ast>) -> SemTyKind<'ast> {
        current_expr_ty(slot, self.data.id)
    }

    fn precedence(&self) -> ExprPrecedence {
        ExprPrecedence::Break
    }

    fn as_expr(&'ast self) -> (r: ExprKind<'ast>)
        ensures
            r == ExprKind::Break(self),
    {
        ExprKind::Break(self)
    }
}

/// A `return` expression.
#[derive(Debug)]
pub struct ReturnExpr {
    data: CommonExprData,
}

impl ReturnExpr {
    pub fn new(data: CommonExprData) -> (r: Self)
        ensures
            r.common() == data,
    {
        ReturnExpr { data }
    }
}

impl<'ast> ExprData<'ast> for ReturnExpr {
    closed spec fn common(&self) -> CommonExprData {
        self.data
    }

    open spec fn spec_precedence(&self) -> ExprPrecedence {
        ExprPrecedence::Return
    }

    fn id(&self) -> ExprId {
        self.data.id
    }

    fn span(&self, slot: &ContextSlot<'ast>) -> &'ast Span<'ast> {
        current_span(slot, self.data.span)
    }

    fn ty(&self, slot: &ContextSlot<'ast>) -> SemTyKind<'ast> {
        current_expr_ty(slot, self.data.id)
    }

    fn precedence(&self) -> ExprPrecedence {
        ExprPrecedence::Return
    }

    fn as_expr(&'ast self) -> (r: ExprKind<'ast>)
        ensures
            r == ExprKind::Return(self),
    {
        ExprKind::Return(self)
    }
}

/// A `continue` expression.
#[derive(Debug)]
pub struct ContinueExpr {
    data: CommonExprData,
}

impl ContinueExpr {
    pub fn new(data: CommonExprData) -> (r: Self)
        ensures
            r.common() == data,
    {
        ContinueExpr { data }
    }
}

impl<'ast> ExprData<'ast> for ContinueExpr {
    closed spec fn common(&self) -> CommonExprData {
        self.data
    }

    open spec fn spec_precedence(&self) -> ExprPrecedence {
        ExprPrecedence::Continue
    }

    fn id(&self) -> ExprId {
        self.data.id
    }

    fn span(&self, slot: &ContextSlot<'ast>) -> &'ast Span<'ast> {
        current_span(slot, self.data.span)
    }

    fn ty(&self, slot: &ContextSlot<'ast>) -> SemTyKind<'ast> {
        current_expr_ty(slot, self.data.id)
    }

    fn precedence(&self) -> ExprPrecedence {
        ExprPrecedence::Continue
    }

    fn as_expr(&'ast self) -> (r: ExprKind<'ast>)
        ensures
            r == ExprKind::Continue(self),
    {
        ExprKind::Continue(self)
    }
}

/// A `for` loop.
#[derive(Debug)]
pub struct ForExpr {
    data: CommonExprData,
}

impl ForExpr {
    pub fn new(data: CommonExprData) -> (r: Self)
        ensures
            r.common() == data,
    {
        ForExpr { data }
    }
}

impl<'ast> ExprData<'ast> for ForExpr {
    closed spec fn common(&self) -> CommonExprData {
        self.data
    }

    open spec fn spec_precedence(&self) -> ExprPrecedence {
        ExprPrecedence::For
    }

    fn id(&self) -> ExprId {
        self.data.id
    }

    fn span(&self, slot: &ContextSlot<'ast>) -> &'ast Span<'ast> {
        current_span(slot, self.data.span)
    }

    fn ty(&self, slot: &ContextSlot<'ast>) -> SemTyKind<'ast> {
        current_expr_ty(slot, self.data.id)
    }

    fn precedence(&self) -> ExprPrecedence {
        ExprPrecedence::For
    }

    fn as_expr(&'ast self) -> (r: ExprKind<'ast>)
        ensures
            r == ExprKind::For(self),
    {
        ExprKind::For(self)
    }
}

/// A `loop` expression.
#[derive(Debug)]
pub struct LoopExpr {
    data: CommonExprData,
}

impl LoopExpr {
    pub fn new(data: CommonExprData) -> (r: Self)
        ensures
            r.common() == data,
    {
        LoopExpr { data }
    }
}

impl<'ast> ExprData<'ast> for LoopExpr {
    closed spec fn common(&self) -> CommonExprData {
        self.data
    }

    open spec fn spec_precedence(&self) -> ExprPrecedence {
        ExprPrecedence::Loop
    }

    fn id(&self) -> ExprId {
        self.data.id
    }

    fn span(&self, slot: &ContextSlot<'ast>) -> &'ast Span<'ast> {
        current_span(slot, self.data.span)
    }

    fn ty(&self, slot: &ContextSlot<'ast>) -> SemTyKind<'ast> {
        current_expr_ty(slot, self.data.id)
    }

    fn precedence(&self) -> ExprPrecedence {
        ExprPrecedence::Loop
    }

    fn as_expr(&'ast self) -> (r: ExprKind<'ast>)
        ensures
            r == ExprKind::Loop(self),
    {
        ExprKind::Loop(self)
    }
}

/// A `while` loop.
#[derive(Debug)]
pub struct WhileExpr {
    data: CommonExprData,
}

impl WhileExpr {
    pub fn new(data: CommonExprData) -> (r: Self)
        ensures
            r.common() == data,
    {
        WhileExpr { data }
    }
}

impl<'ast> ExprData<'ast> for WhileExpr {
    closed spec fn common(&self) -> CommonExprData {
        self.data
    }

    open spec fn spec_precedence(&self) -> ExprPrecedence {
        ExprPrecedence::While
    }

    fn id(&self) -> ExprId {
        self.data.id
    }

    fn span(&self, slot: &ContextSlot<'ast>) -> &'ast Span<'ast> {
        current_span(slot, self.data.span)
    }

    fn ty(&self, slot: &ContextSlot<'ast>) -> SemTyKind<'ast> {
        current_expr_ty(slot, self.data.id)
    }

    fn precedence(&self) -> ExprPrecedence {
        ExprPrecedence::While
    }

    fn as_expr(&'ast self) -> (r: ExprKind<'ast>)
        ensures
            r == ExprKind::While(self),
    {
        ExprKind::While(self)
    }
}

/// An `.await` expression.
#[derive(Debug)]
pub struct AwaitExpr {
    data: CommonExprData,
}

impl AwaitExpr {
    pub fn new(data: CommonExprData) -> (r: Self)
        ensures
            r.common() == data,
    {
        AwaitExpr { data }
    }
}

impl<'ast> ExprData<'ast> for AwaitExpr {
    closed spec fn common(&self) -> CommonExprData {
        self.data
    }

    open spec fn spec_precedence(&self) -> ExprPrecedence {
        ExprPrecedence::Await
    }

    fn id(&self) -> ExprId {
        self.data.id
    }

    fn span(&self, slot: &ContextSlot<'ast>) -> &'ast Span<'ast> {
        current_span(slot, self.data.span)
    }

    fn ty(&self, slot: &ContextSlot<'ast>) -> SemTyKind<'ast> {
        current_expr_ty(slot, self.data.id)
    }

    fn precedence(&self) -> ExprPrecedence {
        ExprPrecedence::Await
    }

    fn as_expr(&'ast self) -> (r: ExprKind<'ast>)
        ensures
            r == ExprKind::Await(self),
    {
        ExprKind::Await(self)
    }
}

} // verus!
