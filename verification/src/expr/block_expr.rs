//! Blocks and closures.

use vstd::prelude::*;
use crate::context::{current_expr_ty, current_span, ContextSlot};
use crate::expr::{CommonExprData, ExprData, ExprKind, ExprPrecedence};
use crate::ids::ExprId;
use crate::span::Span;
use crate::ty::SemTyKind;

verus! {

/// A block like `{ .. }`.
#[derive(Debug)]
pub struct BlockExpr {
    data: CommonExprData,
}

impl BlockExpr {
    pub fn new(data: CommonExprData) -> (r: Self)
        ensures
            r.common() == data,
    {
        BlockExpr { data }
    }
}

impl<'ast> ExprData<'ast> for BlockExpr {
    closed spec fn common(&self) -> CommonExprData {
        self.data
    }

    open spec fn spec_precedence(&self) -> ExprPrecedence {
        ExprPrecedence::Block
    }

    fn id(&self) -> ExprId {
        self.data.id
    }

    fn span(&self, slot: &ContextSlot<'ast>) -> &'ast Span<'ast> {
        current_span(slot, self.data.span)
    }

    fn ty(&self, slot: &ContextSlot<'ast>) -> SemTyKind<'ast> {
        current_expr_ty(slot, self.data.id)
    }

    fn precedence(&self) -> ExprPrecedence {
        ExprPrecedence::Block
    }

    fn as_expr(&'ast self) -> (r: ExprKind<'ast>)
        ensures
            r == ExprKind::Block(self),
    {
        ExprKind::Block(self)
    }
}

/// A closure like `|x| x + 1`.
#[derive(Debug)]
pub struct ClosureExpr {
    data: CommonExprData,
}

impl ClosureExpr {
    pub fn new(data: CommonExprData) -> (r: Self)
        ensures
            r.common() == data,
    {
        ClosureExpr { data }
    }
}

impl<'ast> ExprData<'ast> for ClosureExpr {
    closed spec fn common(&self) -> CommonExprData {
        self.data
    }

    open spec fn spec_precedence(&self) -> ExprPrecedence {
        ExprPrecedence::Closure
    }

    fn id(&self) -> ExprId {
        self.data.id
    }

    fn span(&self, slot: &ContextSlot<'ast>) -> &'ast Span<'ast> {
        current_span(slot, self.data.span)
    }

    fn ty(&self, slot: &ContextSlot<'ast>) -> SemTyKind<'ast> {
        current_expr_ty(slot, self.data.id)
    }

    fn precedence(&self) -> ExprPrecedence {
        ExprPrecedence::Closure
    }

    fn as_expr(&'ast self) -> (r: ExprKind<'ast>)
        ensures
            r == ExprKind::Closure(self),
    {
        ExprKind::Closure(self)
    }
}

} // verus!
