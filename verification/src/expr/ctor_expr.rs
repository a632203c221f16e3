//! Expressions that construct a value.

use vstd::prelude::*;
use crate::context::{current_expr_ty, current_span, ContextSlot};
use crate::expr::{CommonExprData, ExprData, ExprKind, ExprPrecedence};
use crate::ids::ExprId;
use crate::span::Span;
use crate::ty::SemTyKind;

verus! {

/// An array like `[1, 2]` or `[0; 8]`.
#[derive(Debug)]
pub struct ArrayExpr {
    data: CommonExprData,
}

impl ArrayExpr {
    pub fn new(data: CommonExprData) -> (r: Self)
        ensures
            r.common() == data,
    {
        ArrayExpr { data }
    }
}

impl<'ast> ExprData<'ast> for ArrayExpr {
    closed spec fn common(&self) -> CommonExprData {
        self.data
    }

    open spec fn spec_precedence(&self) -> ExprPrecedence {
        ExprPrecedence::Ctor
    }

    fn id(&self) -> ExprId {
        self.data.id
    }

    fn span(&self, slot: &ContextSlot<'ast>) -> &'ast Span<'ast> {
        current_span(slot, self.data.span)
    }

    fn ty(&self, slot: &ContextSlot<'ast>) -> SemTyKind<'ast> {
        current_expr_ty(slot, self.data.id)
    }

    fn precedence(&self) -> ExprPrecedence {
        ExprPrecedence::Ctor
    }

    fn as_expr(&'ast self) -> (r: ExprKind<'ast>)
        ensures
            r == ExprKind::Array(self),
    {
        ExprKind::Array(self)
    }
}

/// A tuple like `(a, b)`.
#[derive(Debug)]
pub struct TupleExpr {
    data: CommonExprData,
}

impl TupleExpr {
    pub fn new(data: CommonExprData) -> (r: Self)
        ensures
            r.common() == data,
    {
        TupleExpr { data }
    }
}

impl<'ast> ExprData<'ast> for TupleExpr {
    closed spec fn common(&self) -> CommonExprData {
        self.data
    }

    open spec fn spec_precedence(&self) -> ExprPrecedence {
        ExprPrecedence::Ctor
    }

    fn id(&self) -> ExprId {
        self.data.id
    }

    fn span(&self, slot: &ContextSlot<'ast>) -> &'ast Span<'ast> {
        current_span(slot, self.data.span)
    }

    fn ty(&self, slot: &ContextSlot<'ast>) -> SemTyKind<'ast> {
        current_expr_ty(slot, self.data.id)
    }

    fn precedence(&self) -> ExprPrecedence {
        ExprPrecedence::Ctor
    }

    fn as_expr(&'ast self) -> (r: ExprKind<'ast>)
        ensures
            r == ExprKind::Tuple(self),
    {
        ExprKind::Tuple(self)
    }
}

/// A constructor like `S { a: 1 }`.
#[derive(Debug)]
pub struct CtorExpr {
    data: CommonExprData,
}

impl CtorExpr {
    pub fn new(data: CommonExprData) -> (r: Self)
        ensures
            r.common() == data,
    {
        CtorExpr { data }
    }
}

impl<'ast> ExprData<'ast> for CtorExpr {
    closed spec fn common(&self) -> CommonExprData {
        self.data
    }

    open spec fn spec_precedence(&self) -> ExprPrecedence {
        ExprPrecedence::Ctor
    }

    fn id(&self) -> ExprId {
        self.data.id
    }

    fn span(&self, slot: &ContextSlot<'ast>) -> &'ast Span<'ast> {
        current_span(slot, self.data.span)
    }

    fn ty(&self, slot: &ContextSlot<'ast>) -> SemTyKind<'ast> {
        current_expr_ty(slot, self.data.id)
    }

    fn precedence(&self) -> ExprPrecedence {
        ExprPrecedence::Ctor
    }

    fn as_expr(&'ast self) -> (r: ExprKind<'ast>)
        ensures
            r == ExprKind::Ctor(self),
    {
        ExprKind::Ctor(self)
    }
}

/// A range like `0..10` or `0..=8`.
#[derive(Debug)]
pub struct RangeExpr {
    data: CommonExprData,
}

impl RangeExpr {
    pub fn new(data: CommonExprData) -> (r: Self)
        ensures
            r.common() == data,
    {
        RangeExpr { data }
    }
}

impl<'ast> ExprData<'ast> for RangeExpr {
    closed spec fn common(&self) -> CommonExprData {
        self.data
    }

    open spec fn spec_precedence(&self) -> ExprPrecedence {
        ExprPrecedence::Range
    }

    fn id(&self) -> ExprId {
        self.data.id
    }

    fn span(&self, slot: &ContextSlot<'ast>) -> &'ast Span<'ast> {
        current_span(slot, self.data.span)
    }

    fn ty(&self, slot: &ContextSlot<'ast>) -> SemTyKind<'ast> {
        current_expr_ty(slot, self.data.id)
    }

    fn precedence(&self) -> ExprPrecedence {
        ExprPrecedence::Range
    }

    fn as_expr(&'ast self) -> (r: ExprKind<'ast>)
        ensures
            r == ExprKind::Range(self),
    {
        ExprKind::Range(self)
    }
}

} // verus!
