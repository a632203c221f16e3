//! Expressions of kinds that are not stable yet.

use vstd::prelude::*;
use crate::context::{current_expr_ty, current_span, ContextSlot};
use crate::expr::{CommonExprData, ExprData, ExprKind, ExprPrecedence};
use crate::ids::ExprId;
use crate::span::Span;
use crate::ty::SemTyKind;

verus! {

/// An expression of a kind that is not stable yet. Its precedence is the
/// one that its producer gave it.
#[derive(Debug)]
pub struct UnstableExpr {
    data: CommonExprData,
    precedence: ExprPrecedence,
}

impl UnstableExpr {
    pub fn new(data: CommonExprData, precedence: ExprPrecedence) -> (r: Self)
        ensures
            r.common() == data,
            r.spec_precedence() == precedence,
    {
        UnstableExpr { data, precedence }
    }
}

impl<'ast> ExprData<'ast> for UnstableExpr {
    closed spec fn common(&self) -> CommonExprData {
        self.data
    }

    closed spec fn spec_precedence(&self) -> ExprPrecedence {
        self.precedence
    }

    fn id(&self) -> ExprId {
        self.data.id
    }

    fn span(&self, slot: &ContextSlot<'ast>) -> &'ast Span<'ast> {
        current_span(slot, self.data.span)
    }

    fn ty(&self, slot: &ContextSlot<'ast>) -> SemTyKind<'ast> {
        current_expr_ty(slot, self.data.id)
    }

    fn precedence(&self) -> ExprPrecedence {
        self.precedence
    }

    fn as_expr(&'ast self) -> (r: ExprKind<'ast>)
        ensures
            r == ExprKind::Unstable(self),
    {
        ExprKind::Unstable(self)
    }
}

} // verus!
