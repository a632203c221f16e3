//! Operators.

use vstd::prelude::*;
use crate::context::{current_expr_ty, current_span, ContextSlot};
use crate::expr::{CommonExprData, ExprData, ExprKind, ExprPrecedence};
use crate::ids::ExprId;
use crate::span::Span;
use crate::ty::SemTyKind;

verus! {

/// A borrow like `&x` or `&mut x`.
#[derive(Debug)]
pub struct RefExpr {
    data: CommonExprData,
}

impl RefExpr {
    pub fn new(data: CommonExprData) -> (r: Self)
        ensures
            r.common() == data,
    {
        RefExpr { data }
    }
}

impl<'ast> ExprData<'ast> for RefExpr {
    closed spec fn common(&self) -> CommonExprData {
        self.data
    }

    open spec fn spec_precedence(&self) -> ExprPrecedence {
        ExprPrecedence::Ref
    }

    fn id(&self) -> ExprId {
        self.data.id
    }

    fn span(&self, slot: &ContextSlot<'ast>) -> &'ast Span<'ast> {
        current_span(slot, self.data.span)
    }

    fn ty(&self, slot: &ContextSlot<'ast>) -> SemTyKind<'ast> {
        current_expr_ty(slot, self.data.id)
    }

    fn precedence(&self) -> ExprPrecedence {
        ExprPrecedence::Ref
    }

    fn as_expr(&'ast self) -> (r: ExprKind<'ast>)
        ensures
            r == ExprKind::Ref(self),
    {
        ExprKind::Ref(self)
    }
}

/// A propagation like `x?`.
#[derive(Debug)]
pub struct QuestionMarkExpr {
    data: CommonExprData,
}

impl QuestionMarkExpr {
    pub fn new(data: CommonExprData) -> (r: Self)
        ensures
            r.common() == data,
    {
        QuestionMarkExpr { data }
    }
}

impl<'ast> ExprData<'ast> for QuestionMarkExpr {
    closed spec fn common(&self) -> CommonExprData {
        self.data
    }

    open spec fn spec_precedence(&self) -> ExprPrecedence {
        ExprPrecedence::QuestionMark
    }

    fn id(&self) -> ExprId {
        self.data.id
    }

    fn span(&self, slot: &ContextSlot<'ast>) -> &'ast Span<'ast> {
        current_span(slot, self.data.span)
    }

    fn ty(&self, slot: &ContextSlot<'ast>) -> SemTyKind<'ast> {
        current_expr_ty(slot, self.data.id)
    }

    fn precedence(&self) -> ExprPrecedence {
        ExprPrecedence::QuestionMark
    }

    fn as_expr(&'ast self) -> (r: ExprKind<'ast>)
        ensures
            r == ExprKind::QuestionMark(self),
    {
        ExprKind::QuestionMark(self)
    }
}

/// A cast like `x as u8`.
#[derive(Debug)]
pub struct AsExpr {
    data: CommonExprData,
}

impl AsExpr {
    pub fn new(data: CommonExprData) -> (r: Self)
        ensures
            r.common() == data,
    {
        AsExpr { data }
    }
}

impl<'ast> ExprData<'ast> for AsExpr {
    closed spec fn common(&self) -> CommonExprData {
        self.data
    }

    open spec fn spec_precedence(&self) -> ExprPrecedence {
        ExprPrecedence::As
    }

    fn id(&self) -> ExprId {
        self.data.id
    }

    fn span(&self, slot: &ContextSlot<'ast>) -> &'ast Span<'ast> {
        current_span(slot, self.data.span)
    }

    fn ty(&self, slot: &ContextSlot<'ast>) -> SemTyKind<'ast> {
        current_expr_ty(slot, self.data.id)
    }

    fn precedence(&self) -> ExprPrecedence {
        ExprPrecedence::As
    }

    fn as_expr(&'ast self) -> (r: ExprKind<'ast>)
        ensures
            r == ExprKind::As(self),
    {
        ExprKind::As(self)
    }
}

/// The unary operators.
#[derive(Debug, Clone, Copy, PartialEq, Eq, Structural, Hash)]
pub enum UnaryOpKind {
    /// The arithmetic negation `-`.
    Neg,
    /// The logical negation `!`.
    Not,
    /// The dereference `*`.
    Deref,
}

/// A unary operation like `-x`, `!x` or `*x`.
#[derive(Debug)]
pub struct UnaryOpExpr<'ast> {
    data: CommonExprData,
    expr: ExprKind<'ast>,
    kind: UnaryOpKind,
}

impl<'ast> UnaryOpExpr<'ast> {
    pub closed spec fn spec_expr(&self) -> ExprKind<'ast> {
        self.expr
    }

    pub closed spec fn spec_kind(&self) -> UnaryOpKind {
        self.kind
    }

    pub fn new(data: CommonExprData, expr: ExprKind<'ast>, kind: UnaryOpKind) -> (r: Self)
        ensures
            r.common() == data,
            r.spec_expr() == expr,
            r.spec_kind() == kind,
    {
        UnaryOpExpr { data, expr, kind }
    }

    /// The operand.
    pub fn expr(&self) -> (r: ExprKind<'ast>)
        ensures
            r == self.spec_expr(),
    {
        self.expr
    }

    pub fn kind(&self) -> (r: UnaryOpKind)
        ensures
            r == self.spec_kind(),
    {
        self.kind
    }

    /// The operand is smaller than the operation that holds it.
    pub proof fn lemma_operand_decreases(&self)
        ensures
            decreases_to!(*self => self.spec_expr()),
    {
    }
}

impl<'ast> ExprData<'ast> for UnaryOpExpr<'ast> {
    closed spec fn common(&self) -> CommonExprData {
        self.data
    }

    open spec fn spec_precedence(&self) -> ExprPrecedence {
        match self.spec_kind() {
            UnaryOpKind::Neg => ExprPrecedence::Neg,
            UnaryOpKind::Not => ExprPrecedence::Not,
            UnaryOpKind::Deref => ExprPrecedence::Deref,
        }
    }

    fn id(&self) -> ExprId {
        self.data.id
    }

    fn span(&self, slot: &ContextSlot<'ast>) -> &'ast Span<'ast> {
        current_span(slot, self.data.span)
    }

    fn ty(&self, slot: &ContextSlot<'ast>) -> SemTyKind<'ast> {
        current_expr_ty(slot, self.data.id)
    }

    fn precedence(&self) -> ExprPrecedence {
        match self.kind {
            UnaryOpKind::Neg => ExprPrecedence::Neg,
            UnaryOpKind::Not => ExprPrecedence::Not,
            UnaryOpKind::Deref => ExprPrecedence::Deref,
        }
    }

    fn as_expr(&'ast self) -> (r: ExprKind<'ast>)
        ensures
            r == ExprKind::UnaryOp(self),
    {
        ExprKind::UnaryOp(self)
    }
}

/// The binary operators.
#[derive(Debug, Clone, Copy, PartialEq, Eq, Structural, Hash)]
pub enum BinaryOpKind {
    Add,
    Sub,
    Mul,
    Div,
    Rem,
    And,
    Or,
    BitXor,
    BitAnd,
    BitOr,
    Shl,
    Shr,
    Eq,
    Lesser,
    LesserEq,
    NotEq,
    GreaterEq,
    Greater,
}

impl BinaryOpKind {
    /// The precedence of an operation with this operator.
    pub open spec fn spec_precedence(&self) -> ExprPrecedence {
        match self {
            BinaryOpKind::Add => ExprPrecedence::Add,
            BinaryOpKind::Sub => ExprPrecedence::Sub,
            BinaryOpKind::Mul => ExprPrecedence::Mul,
            BinaryOpKind::Div => ExprPrecedence::Div,
            BinaryOpKind::Rem => ExprPrecedence::Rem,
            BinaryOpKind::And => ExprPrecedence::And,
            BinaryOpKind::Or => ExprPrecedence::Or,
            BinaryOpKind::BitXor => ExprPrecedence::BitXor,
            BinaryOpKind::BitAnd => ExprPrecedence::BitAnd,
            BinaryOpKind::BitOr => ExprPrecedence::BitOr,
            BinaryOpKind::Shl => ExprPrecedence::Shl,
            BinaryOpKind::Shr => ExprPrecedence::Shr,
            BinaryOpKind::Eq
            | BinaryOpKind::Lesser
            | BinaryOpKind::LesserEq
            | BinaryOpKind::NotEq
            | BinaryOpKind::GreaterEq
            | BinaryOpKind::Greater => ExprPrecedence::Comparison,
        }
    }

    pub fn precedence(&self) -> (r: ExprPrecedence)
        ensures
            r == self.spec_precedence(),
    {
        match self {
            BinaryOpKind::Add => ExprPrecedence::Add,
            BinaryOpKind::Sub => ExprPrecedence::Sub,
            BinaryOpKind::Mul => ExprPrecedence::Mul,
            BinaryOpKind::Div => ExprPrecedence::Div,
            BinaryOpKind::Rem => ExprPrecedence::Rem,
            BinaryOpKind::And => ExprPrecedence::And,
            BinaryOpKind::Or => ExprPrecedence::Or,
            BinaryOpKind::BitXor => ExprPrecedence::BitXor,
            BinaryOpKind::BitAnd => ExprPrecedence::BitAnd,
            BinaryOpKind::BitOr => ExprPrecedence::BitOr,
            BinaryOpKind::Shl => ExprPrecedence::Shl,
            BinaryOpKind::Shr => ExprPrecedence::Shr,
            BinaryOpKind::Eq
            | BinaryOpKind::Lesser
            | BinaryOpKind::LesserEq
            | BinaryOpKind::NotEq
            | BinaryOpKind::GreaterEq
            | BinaryOpKind::Greater => ExprPrecedence::Comparison,
        }
    }
}

/// A binary operation like `a + b`.
#[derive(Debug)]
pub struct BinaryOpExpr<'ast> {
    data: CommonExprData,
    left: ExprKind<'ast>,
    right: ExprKind<'ast>,
    kind: BinaryOpKind,
}

impl<'ast> BinaryOpExpr<'ast> {
    pub closed spec fn spec_left(&self) -> ExprKind<'ast> {
        self.left
    }

    pub closed spec fn spec_right(&self) -> ExprKind<'ast> {
        self.right
    }

    pub closed spec fn spec_kind(&self) -> BinaryOpKind {
        self.kind
    }

    pub fn new(data: CommonExprData, left: ExprKind<'ast>, right: ExprKind<'ast>, kind: BinaryOpKind) -> (r: Self)
        ensures
            r.common() == data,
            r.spec_left() == left,
            r.spec_right() == right,
            r.spec_kind() == kind,
    {
        BinaryOpExpr { data, left, right, kind }
    }

    pub fn left(&self) -> (r: ExprKind<'ast>)
        ensures
            r == self.spec_left(),
    {
        self.left
    }

    pub fn right(&self) -> (r: ExprKind<'ast>)
        ensures
            r == self.spec_right(),
    {
        self.right
    }

    pub fn kind(&self) -> (r: BinaryOpKind)
        ensures
            r == self.spec_kind(),
    {
        self.kind
    }
}

impl<'ast> ExprData<'ast> for BinaryOpExpr<'ast> {
    closed spec fn common(&self) -> CommonExprData {
        self.data
    }

    open spec fn spec_precedence(&self) -> ExprPrecedence {
        self.spec_kind().spec_precedence()
    }

    fn id(&self) -> ExprId {
        self.data.id
    }

    fn span(&self, slot: &ContextSlot<'ast>) -> &'ast Span<'ast> {
        current_span(slot, self.data.span)
    }

    fn ty(&self, slot: &ContextSlot<'ast>) -> SemTyKind<'ast> {
        current_expr_ty(slot, self.data.id)
    }

    fn precedence(&self) -> ExprPrecedence {
        self.kind.precedence()
    }

    fn as_expr(&'ast self) -> (r: ExprKind<'ast>)
        ensures
            r == ExprKind::BinaryOp(self),
    {
        ExprKind::BinaryOp(self)
    }
}

/// An assignment like `a = b` or `a += b`.
#[derive(Debug)]
pub struct AssignExpr {
    data: CommonExprData,
    op: Option<BinaryOpKind>,
}

impl AssignExpr {
    /// The operator of a compound assignment, `None` for a plain `=`.
    pub closed spec fn spec_op(&self) -> Option<BinaryOpKind> {
        self.op
    }

    pub fn new(data: CommonExprData, op: Option<BinaryOpKind>) -> (r: Self)
        ensures
            r.common() == data,
            r.spec_op() == op,
    {
        AssignExpr { data, op }
    }

    pub fn op(&self) -> (r: Option<BinaryOpKind>)
        ensures
            r == self.spec_op(),
    {
        self.op
    }
}

impl<'ast> ExprData<'ast> for AssignExpr {
    closed spec fn common(&self) -> CommonExprData {
        self.data
    }

    open spec fn spec_precedence(&self) -> ExprPrecedence {
        if self.spec_op() is Some {
            ExprPrecedence::AssignOp
        } else {
            ExprPrecedence::Assign
        }
    }

    fn id(&self) -> ExprId {
        self.data.id
    }

    fn span(&self, slot: &ContextSlot<'ast>) -> &'ast Span<'ast> {
        current_span(slot, self.data.span)
    }

    fn ty(&self, slot: &ContextSlot<'ast>) -> SemTyKind<'ast> {
        current_expr_ty(slot, self.data.id)
    }

    fn precedence(&self) -> ExprPrecedence {
        if self.op.is_some() {
            ExprPrecedence::AssignOp
        } else {
            ExprPrecedence::Assign
        }
    }

    fn as_expr(&'ast self) -> (r: ExprKind<'ast>)
        ensures
            r == ExprKind::Assign(self),
    {
        ExprKind::Assign(self)
    }
}

} // verus!
