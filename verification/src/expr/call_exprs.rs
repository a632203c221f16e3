//! Calls.

use vstd::prelude::*;
use crate::context::{current_expr_ty, current_span, ContextSlot};
use crate::expr::{CommonExprData, ExprData, ExprKind, ExprPrecedence};
use crate::ids::ExprId;
use crate::span::Span;
use crate::ty::SemTyKind;

verus! {

/// A call like `f(x)`.
#[derive(Debug)]
pub struct CallExpr {
    data: CommonExprData,
}

impl CallExpr {
    pub fn new(data: CommonExprData) -> (r: Self)
        ensures
            r.common() == data,
    {
        CallExpr { data }
    }
}

impl<'ast> ExprData<'ast> for CallExpr {
    closed spec fn common(&self) -> CommonExprData {
        self.data
    }

    open spec fn spec_precedence(&self) -> ExprPrecedence {
        ExprPrecedence::Call
    }

    fn id(&self) -> ExprId {
        self.data.id
    }

    fn span(&self, slot: &ContextSlot<'ast>) -> &'ast Span<'ast> {
        current_span(slot, self.data.span)
    }

    fn ty(&self, slot: &ContextSlot<'ast>) -> SemTyKind<'ast> {
        current_expr_ty(slot, self.data.id)
    }

    fn precedence(&self) -> ExprPrecedence {
        ExprPrecedence::Call
    }

    fn as_expr(&'ast self) -> (r: ExprKind<'ast>)
        ensures
            r == ExprKind::Call(self),
    {
        ExprKind::Call(self)
    }
}

/// A method call like `x.f()`.
#[derive(Debug)]
pub struct MethodExpr {
    data: CommonExprData,
}

impl MethodExpr {
    pub fn new(data: CommonExprData) -> (r: Self)
        ensures
            r.common() == data,
    {
        MethodExpr { data }
    }
}

impl<'ast> ExprData<'ast> for MethodExpr {
    closed spec fn common(&self) -> CommonExprData {
        self.data
    }

    open spec fn spec_precedence(&self) -> ExprPrecedence {
        ExprPrecedence::Method
    }

    fn id(&self) -> ExprId {
        self.data.id
    }

    fn span(&self, slot: &ContextSlot<'ast>) -> &'ast Span<'ast> {
        current_span(slot, self.data.span)
    }

    fn ty(&self, slot: &ContextSlot<'ast>) -> SemTyKind<'ast> {
        current_expr_ty(slot, self.data.id)
    }

    fn precedence(&self) -> ExprPrecedence {
        ExprPrecedence::Method
    }

    fn as_expr(&'ast self) -> (r: ExprKind<'ast>)
        ensures
            r == ExprKind::Method(self),
    {
        ExprKind::Method(self)
    }
}

} // verus!
