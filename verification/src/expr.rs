//! Expressions: the nodes, their kinds, the literal kinds among them, and
//! the precedence table.

use vstd::prelude::*;
use crate::context::ContextSlot;
use crate::ids::{ExprId, SpanId};
use crate::span::Span;
use crate::ty::SemTyKind;

mod lit_expr;
mod block_expr;
mod op_exprs;
mod path_expr;
mod call_exprs;
mod ctor_expr;
mod place_expr;
mod control_flow_expr;
mod unstable_expr;
pub use lit_expr::{BoolLitExpr, CharLitExpr, FloatLitExpr, IntLitExpr, StrLitExpr};
pub use block_expr::{BlockExpr, ClosureExpr};
pub use op_exprs::{AsExpr, AssignExpr, BinaryOpExpr, BinaryOpKind, QuestionMarkExpr, RefExpr, UnaryOpExpr, UnaryOpKind};
pub use path_expr::PathExpr;
pub use call_exprs::{CallExpr, MethodExpr};
pub use ctor_expr::{ArrayExpr, CtorExpr, RangeExpr, TupleExpr};
pub use place_expr::{FieldExpr, IndexExpr};
pub use control_flow_expr::{AwaitExpr, BreakExpr, ContinueExpr, ForExpr, IfExpr, LetExpr, LoopExpr, MatchExpr, ReturnExpr, WhileExpr};
pub use unstable_expr::UnstableExpr;

verus! {

/// What all expressions have in common.
pub trait ExprData<'ast>: Sized {
    /// The header of this expression.
    spec fn common(&self) -> CommonExprData;

    /// The precedence of this expression.
    spec fn spec_precedence(&self) -> ExprPrecedence;

    /// The handle of this expression.
    fn id(&self) -> (r: ExprId)
        ensures
            r == self.common().id,
    ;

    /// The span of this expression, as the current context resolves it.
    fn span(&self, slot: &ContextSlot<'ast>) -> (r: &'ast Span<'ast>)
        requires
            slot.is_installed(),
            slot.context().has_span(self.common().span),
        ensures
            *r == slot.context().spec_span(self.common().span),
    ;

    /// The semantic type of this expression, as the current context gives it.
    fn ty(&self, slot: &ContextSlot<'ast>) -> (r: SemTyKind<'ast>)
        requires
            slot.is_installed(),
            slot.context().has_expr_ty(self.common().id),
        ensures
            r == slot.context().spec_expr_ty(self.common().id),
    ;

    /// The precedence of this expression.
    fn precedence(&self) -> (r: ExprPrecedence)
        ensures
            r == self.spec_precedence(),
    ;

    /// This expression wrapped in its [`ExprKind`] variant. Each node says
    /// which variant that is.
    fn as_expr(&'ast self) -> (r: ExprKind<'ast>);
}

/// The kinds of expressions. Each variant refers to the node of that kind.
#[derive(Debug, Clone, Copy)]
#[non_exhaustive]
pub enum ExprKind<'ast> {
    IntLit(&'ast IntLitExpr),
    FloatLit(&'ast FloatLitExpr),
    StrLit(&'ast StrLitExpr),
    CharLit(&'ast CharLitExpr),
    BoolLit(&'ast BoolLitExpr),
    Block(&'ast BlockExpr),
    Closure(&'ast ClosureExpr),
    UnaryOp(&'ast UnaryOpExpr<'ast>),
    Ref(&'ast RefExpr),
    BinaryOp(&'ast BinaryOpExpr<'ast>),
    QuestionMark(&'ast QuestionMarkExpr),
    Assign(&'ast AssignExpr),
    As(&'ast AsExpr),
    Path(&'ast PathExpr),
    Call(&'ast CallExpr),
    Method(&'ast MethodExpr),
    Array(&'ast ArrayExpr),
    Tuple(&'ast TupleExpr),
    Ctor(&'ast CtorExpr),
    Range(&'ast RangeExpr),
    Index(&'ast IndexExpr),
    Field(&'ast FieldExpr),
    If(&'ast IfExpr),
    Let(&'ast LetExpr),
    Match(&'ast MatchExpr),
    Break(&'ast BreakExpr),
    Return(&'ast ReturnExpr),
    Continue(&'ast ContinueExpr),
    For(&'ast ForExpr),
    Loop(&'ast LoopExpr),
    While(&'ast WhileExpr),
    Await(&'ast AwaitExpr),
    Unstable(&'ast UnstableExpr),
}

impl<'ast> ExprKind<'ast> {
    /// The header of the node.
    pub open spec fn common(&self) -> CommonExprData {
        match self {
            ExprKind::IntLit(data) => data.common(),
            ExprKind::FloatLit(data) => data.common(),
            ExprKind::StrLit(data) => data.common(),
            ExprKind::CharLit(data) => data.common(),
            ExprKind::BoolLit(data) => data.common(),
            ExprKind::Block(data) => data.common(),
            ExprKind::Closure(data) => data.common(),
            ExprKind::UnaryOp(data) => data.common(),
            ExprKind::Ref(data) => data.common(),
            ExprKind::BinaryOp(data) => data.common(),
            ExprKind::QuestionMark(data) => data.common(),
            ExprKind::Assign(data) => data.common(),
            ExprKind::As(data) => data.common(),
            ExprKind::Path(data) => data.common(),
            ExprKind::Call(data) => data.common(),
            ExprKind::Method(data) => data.common(),
            ExprKind::Array(data) => data.common(),
            ExprKind::Tuple(data) => data.common(),
            ExprKind::Ctor(data) => data.common(),
            ExprKind::Range(data) => data.common(),
            ExprKind::Index(data) => data.common(),
            ExprKind::Field(data) => data.common(),
            ExprKind::If(data) => data.common(),
            ExprKind::Let(data) => data.common(),
            ExprKind::Match(data) => data.common(),
            ExprKind::Break(data) => data.common(),
            ExprKind::Return(data) => data.common(),
            ExprKind::Continue(data) => data.common(),
            ExprKind::For(data) => data.common(),
            ExprKind::Loop(data) => data.common(),
            ExprKind::While(data) => data.common(),
            ExprKind::Await(data) => data.common(),
            ExprKind::Unstable(data) => data.common(),
        }
    }

    /// The precedence of the node.
    pub open spec fn spec_precedence(&self) -> ExprPrecedence {
        match self {
            ExprKind::IntLit(data) => data.spec_precedence(),
            ExprKind::FloatLit(data) => data.spec_precedence(),
            ExprKind::StrLit(data) => data.spec_precedence(),
            ExprKind::CharLit(data) => data.spec_precedence(),
            ExprKind::BoolLit(data) => data.spec_precedence(),
            ExprKind::Block(data) => data.spec_precedence(),
            ExprKind::Closure(data) => data.spec_precedence(),
            ExprKind::UnaryOp(data) => data.spec_precedence(),
            ExprKind::Ref(data) => data.spec_precedence(),
            ExprKind::BinaryOp(data) => data.spec_precedence(),
            ExprKind::QuestionMark(data) => data.spec_precedence(),
            ExprKind::Assign(data) => data.spec_precedence(),
            ExprKind::As(data) => data.spec_precedence(),
            ExprKind::Path(data) => data.spec_precedence(),
            ExprKind::Call(data) => data.spec_precedence(),
            ExprKind::Method(data) => data.spec_precedence(),
            ExprKind::Array(data) => data.spec_precedence(),
            ExprKind::Tuple(data) => data.spec_precedence(),
            ExprKind::Ctor(data) => data.spec_precedence(),
            ExprKind::Range(data) => data.spec_precedence(),
            ExprKind::Index(data) => data.spec_precedence(),
            ExprKind::Field(data) => data.spec_precedence(),
            ExprKind::If(data) => data.spec_precedence(),
            ExprKind::Let(data) => data.spec_precedence(),
            ExprKind::Match(data) => data.spec_precedence(),
            ExprKind::Break(data) => data.spec_precedence(),
            ExprKind::Return(data) => data.spec_precedence(),
            ExprKind::Continue(data) => data.spec_precedence(),
            ExprKind::For(data) => data.spec_precedence(),
            ExprKind::Loop(data) => data.spec_precedence(),
            ExprKind::While(data) => data.spec_precedence(),
            ExprKind::Await(data) => data.spec_precedence(),
            ExprKind::Unstable(data) => data.spec_precedence(),
        }
    }

    pub fn span(&self, slot: &ContextSlot<'ast>) -> (r: &'ast Span<'ast>)
        requires
            slot.is_installed(),
            slot.context().has_span(self.common().span),
        ensures
            *r == slot.context().spec_span(self.common().span),
    {
        match self {
            ExprKind::IntLit(data) => data.span(slot),
            ExprKind::FloatLit(data) => data.span(slot),
            ExprKind::StrLit(data) => data.span(slot),
            ExprKind::CharLit(data) => data.span(slot),
            ExprKind::BoolLit(data) => data.span(slot),
            ExprKind::Block(data) => data.span(slot),
            ExprKind::Closure(data) => data.span(slot),
            ExprKind::UnaryOp(data) => data.span(slot),
            ExprKind::Ref(data) => data.span(slot),
            ExprKind::BinaryOp(data) => data.span(slot),
            ExprKind::QuestionMark(data) => data.span(slot),
            ExprKind::Assign(data) => data.span(slot),
            ExprKind::As(data) => data.span(slot),
            ExprKind::Path(data) => data.span(slot),
            ExprKind::Call(data) => data.span(slot),
            ExprKind::Method(data) => data.span(slot),
            ExprKind::Array(data) => data.span(slot),
            ExprKind::Tuple(data) => data.span(slot),
            ExprKind::Ctor(data) => data.span(slot),
            ExprKind::Range(data) => data.span(slot),
            ExprKind::Index(data) => data.span(slot),
            ExprKind::Field(data) => data.span(slot),
            ExprKind::If(data) => data.span(slot),
            ExprKind::Let(data) => data.span(slot),
            ExprKind::Match(data) => data.span(slot),
            ExprKind::Break(data) => data.span(slot),
            ExprKind::Return(data) => data.span(slot),
            ExprKind::Continue(data) => data.span(slot),
            ExprKind::For(data) => data.span(slot),
            ExprKind::Loop(data) => data.span(slot),
            ExprKind::While(data) => data.span(slot),
            ExprKind::Await(data) => data.span(slot),
            ExprKind::Unstable(data) => data.span(slot),
        }
    }

    pub fn id(&self) -> (r: ExprId)
        ensures
            r == self.common().id,
    {
        match self {
            ExprKind::IntLit(data) => data.id(),
            ExprKind::FloatLit(data) => data.id(),
            ExprKind::StrLit(data) => data.id(),
            ExprKind::CharLit(data) => data.id(),
            ExprKind::BoolLit(data) => data.id(),
            ExprKind::Block(data) => data.id(),
            ExprKind::Closure(data) => data.id(),
            ExprKind::UnaryOp(data) => data.id(),
            ExprKind::Ref(data) => data.id(),
            ExprKind::BinaryOp(data) => data.id(),
            ExprKind::QuestionMark(data) => data.id(),
            ExprKind::Assign(data) => data.id(),
            ExprKind::As(data) => data.id(),
            ExprKind::Path(data) => data.id(),
            ExprKind::Call(data) => data.id(),
            ExprKind::Method(data) => data.id(),
            ExprKind::Array(data) => data.id(),
            ExprKind::Tuple(data) => data.id(),
            ExprKind::Ctor(data) => data.id(),
            ExprKind::Range(data) => data.id(),
            ExprKind::Index(data) => data.id(),
            ExprKind::Field(data) => data.id(),
            ExprKind::If(data) => data.id(),
            ExprKind::Let(data) => data.id(),
            ExprKind::Match(data) => data.id(),
            ExprKind::Break(data) => data.id(),
            ExprKind::Return(data) => data.id(),
            ExprKind::Continue(data) => data.id(),
            ExprKind::For(data) => data.id(),
            ExprKind::Loop(data) => data.id(),
            ExprKind::While(data) => data.id(),
            ExprKind::Await(data) => data.id(),
            ExprKind::Unstable(data) => data.id(),
        }
    }

    pub fn ty(&self, slot: &ContextSlot<'ast>) -> (r: SemTyKind<'ast>)
        requires
            slot.is_installed(),
            slot.context().has_expr_ty(self.common().id),
        ensures
            r == slot.context().spec_expr_ty(self.common().id),
    {
        match self {
            ExprKind::IntLit(data) => data.ty(slot),
            ExprKind::FloatLit(data) => data.ty(slot),
            ExprKind::StrLit(data) => data.ty(slot),
            ExprKind::CharLit(data) => data.ty(slot),
            ExprKind::BoolLit(data) => data.ty(slot),
            ExprKind::Block(data) => data.ty(slot),
            ExprKind::Closure(data) => data.ty(slot),
            ExprKind::UnaryOp(data) => data.ty(slot),
            ExprKind::Ref(data) => data.ty(slot),
            ExprKind::BinaryOp(data) => data.ty(slot),
            ExprKind::QuestionMark(data) => data.ty(slot),
            ExprKind::Assign(data) => data.ty(slot),
            ExprKind::As(data) => data.ty(slot),
            ExprKind::Path(data) => data.ty(slot),
            ExprKind::Call(data) => data.ty(slot),
            ExprKind::Method(data) => data.ty(slot),
            ExprKind::Array(data) => data.ty(slot),
            ExprKind::Tuple(data) => data.ty(slot),
            ExprKind::Ctor(data) => data.ty(slot),
            ExprKind::Range(data) => data.ty(slot),
            ExprKind::Index(data) => data.ty(slot),
            ExprKind::Field(data) => data.ty(slot),
            ExprKind::If(data) => data.ty(slot),
            ExprKind::Let(data) => data.ty(slot),
            ExprKind::Match(data) => data.ty(slot),
            ExprKind::Break(data) => data.ty(slot),
            ExprKind::Return(data) => data.ty(slot),
            ExprKind::Continue(data) => data.ty(slot),
            ExprKind::For(data) => data.ty(slot),
            ExprKind::Loop(data) => data.ty(slot),
            ExprKind::While(data) => data.ty(slot),
            ExprKind::Await(data) => data.ty(slot),
            ExprKind::Unstable(data) => data.ty(slot),
        }
    }

    pub fn precedence(&self) -> (r: ExprPrecedence)
        ensures
            r == self.spec_precedence(),
    {
        match self {
            ExprKind::IntLit(data) => data.precedence(),
            ExprKind::FloatLit(data) => data.precedence(),
            ExprKind::StrLit(data) => data.precedence(),
            ExprKind::CharLit(data) => data.precedence(),
            ExprKind::BoolLit(data) => data.precedence(),
            ExprKind::Block(data) => data.precedence(),
            ExprKind::Closure(data) => data.precedence(),
            ExprKind::UnaryOp(data) => data.precedence(),
            ExprKind::Ref(data) => data.precedence(),
            ExprKind::BinaryOp(data) => data.precedence(),
            ExprKind::QuestionMark(data) => data.precedence(),
            ExprKind::Assign(data) => data.precedence(),
            ExprKind::As(data) => data.precedence(),
            ExprKind::Path(data) => data.precedence(),
            ExprKind::Call(data) => data.precedence(),
            ExprKind::Method(data) => data.precedence(),
            ExprKind::Array(data) => data.precedence(),
            ExprKind::Tuple(data) => data.precedence(),
            ExprKind::Ctor(data) => data.precedence(),
            ExprKind::Range(data) => data.precedence(),
            ExprKind::Index(data) => data.precedence(),
            ExprKind::Field(data) => data.precedence(),
            ExprKind::If(data) => data.precedence(),
            ExprKind::Let(data) => data.precedence(),
            ExprKind::Match(data) => data.precedence(),
            ExprKind::Break(data) => data.precedence(),
            ExprKind::Return(data) => data.precedence(),
            ExprKind::Continue(data) => data.precedence(),
            ExprKind::For(data) => data.precedence(),
            ExprKind::Loop(data) => data.precedence(),
            ExprKind::While(data) => data.precedence(),
            ExprKind::Await(data) => data.precedence(),
            ExprKind::Unstable(data) => data.precedence(),
        }
    }
}

/// Stands in a variant that only this crate may construct.
#[derive(Debug, Clone, Copy)]
pub struct CtorBlocker {
    _priv: (),
}

impl CtorBlocker {
    /// The one value of this type.
    pub closed spec fn token() -> Self {
        CtorBlocker { _priv: () }
    }

    pub(crate) fn new() -> (r: Self)
        ensures
            r == Self::token(),
    {
        CtorBlocker { _priv: () }
    }
}

/// The kinds of literal expressions.
#[derive(Debug, Clone, Copy)]
#[non_exhaustive]
pub enum LitExprKind<'ast> {
    Int(&'ast IntLitExpr),
    Float(&'ast FloatLitExpr),
    Str(&'ast StrLitExpr),
    Char(&'ast CharLitExpr),
    Bool(&'ast BoolLitExpr),
    /// A negative number is written as a positive literal behind a unary
    /// negation. Such a negation counts as a part of the literal it wraps.
    UnaryOp(&'ast UnaryOpExpr<'ast>, CtorBlocker),
}

impl<'ast> LitExprKind<'ast> {
    /// The general expression that this literal is.
    pub open spec fn widen(self) -> ExprKind<'ast> {
        match self {
            LitExprKind::Int(expr) => ExprKind::IntLit(expr),
            LitExprKind::Float(expr) => ExprKind::FloatLit(expr),
            LitExprKind::Str(expr) => ExprKind::StrLit(expr),
            LitExprKind::Char(expr) => ExprKind::CharLit(expr),
            LitExprKind::Bool(expr) => ExprKind::BoolLit(expr),
            LitExprKind::UnaryOp(expr, _) => ExprKind::UnaryOp(expr),
        }
    }

    pub fn span(&self, slot: &ContextSlot<'ast>) -> (r: &'ast Span<'ast>)
        requires
            slot.is_installed(),
            slot.context().has_span(self.widen().common().span),
        ensures
            *r == slot.context().spec_span(self.widen().common().span),
    {
        match self {
            LitExprKind::Int(data) => data.span(slot),
            LitExprKind::Float(data) => data.span(slot),
            LitExprKind::Str(data) => data.span(slot),
            LitExprKind::Char(data) => data.span(slot),
            LitExprKind::Bool(data) => data.span(slot),
            LitExprKind::UnaryOp(data, _) => data.span(slot),
        }
    }

    pub fn id(&self) -> (r: ExprId)
        ensures
            r == self.widen().common().id,
    {
        match self {
            LitExprKind::Int(data) => data.id(),
            LitExprKind::Float(data) => data.id(),
            LitExprKind::Str(data) => data.id(),
            LitExprKind::Char(data) => data.id(),
            LitExprKind::Bool(data) => data.id(),
            LitExprKind::UnaryOp(data, _) => data.id(),
        }
    }

    pub fn ty(&self, slot: &ContextSlot<'ast>) -> (r: SemTyKind<'ast>)
        requires
            slot.is_installed(),
            slot.context().has_expr_ty(self.widen().common().id),
        ensures
            r == slot.context().spec_expr_ty(self.widen().common().id),
    {
        match self {
            LitExprKind::Int(data) => data.ty(slot),
            LitExprKind::Float(data) => data.ty(slot),
            LitExprKind::Str(data) => data.ty(slot),
            LitExprKind::Char(data) => data.ty(slot),
            LitExprKind::Bool(data) => data.ty(slot),
            LitExprKind::UnaryOp(data, _) => data.ty(slot),
        }
    }

    pub fn precedence(&self) -> (r: ExprPrecedence)
        ensures
            r == self.widen().spec_precedence(),
    {
        match self {
            LitExprKind::Int(data) => data.precedence(),
            LitExprKind::Float(data) => data.precedence(),
            LitExprKind::Str(data) => data.precedence(),
            LitExprKind::Char(data) => data.precedence(),
            LitExprKind::Bool(data) => data.precedence(),
            LitExprKind::UnaryOp(data, _) => data.precedence(),
        }
    }
}

/// Whether an expression is a literal: one of the five literal nodes, or a
/// negation whose operand is a literal.
pub open spec fn is_lit(e: ExprKind) -> bool
    decreases e,
    via is_lit_decreases
{
    match e {
        ExprKind::IntLit(_) => true,
        ExprKind::FloatLit(_) => true,
        ExprKind::StrLit(_) => true,
        ExprKind::CharLit(_) => true,
        ExprKind::BoolLit(_) => true,
        ExprKind::UnaryOp(expr) => expr.spec_kind() == UnaryOpKind::Neg && is_lit(expr.spec_expr()),
        _ => false,
    }
}

#[via_fn]
proof fn is_lit_decreases(e: ExprKind) {
    match e {
        ExprKind::UnaryOp(expr) => {
            expr.lemma_operand_decreases();
        },
        _ => {},
    }
}

/// The literal that an expression is, or nothing where it is none.
pub open spec fn narrow<'ast>(e: ExprKind<'ast>) -> Result<LitExprKind<'ast>, ()> {
    if is_lit(e) {
        Ok(
            match e {
                ExprKind::IntLit(expr) => LitExprKind::Int(expr),
                ExprKind::FloatLit(expr) => LitExprKind::Float(expr),
                ExprKind::StrLit(expr) => LitExprKind::Str(expr),
                ExprKind::CharLit(expr) => LitExprKind::Char(expr),
                ExprKind::BoolLit(expr) => LitExprKind::Bool(expr),
                ExprKind::UnaryOp(expr) => LitExprKind::UnaryOp(expr, CtorBlocker::token()),
                _ => arbitrary(),
            },
        )
    } else {
        Err(())
    }
}

impl<'ast> From<LitExprKind<'ast>> for ExprKind<'ast> {
    fn from(value: LitExprKind<'ast>) -> (r: Self) {
        match value {
            LitExprKind::Int(expr) => ExprKind::IntLit(expr),
            LitExprKind::Float(expr) => ExprKind::FloatLit(expr),
            LitExprKind::Str(expr) => ExprKind::StrLit(expr),
            LitExprKind::Char(expr) => ExprKind::CharLit(expr),
            LitExprKind::Bool(expr) => ExprKind::BoolLit(expr),
            LitExprKind::UnaryOp(expr, _) => ExprKind::UnaryOp(expr),
        }
    }
}

impl<'ast> vstd::std_specs::convert::FromSpecImpl<LitExprKind<'ast>> for ExprKind<'ast> {
    open spec fn obeys_from_spec() -> bool {
        true
    }

    open spec fn from_spec(value: LitExprKind<'ast>) -> Self {
        value.widen()
    }
}

impl<'ast> TryFrom<ExprKind<'ast>> for LitExprKind<'ast> {
    type Error = ();

    /// Decides anew whether `value` is a literal: the operand of a negation
    /// can be any expression, so it is classified on every call.
    fn try_from(value: ExprKind<'ast>) -> (r: Result<Self, ()>)
        decreases value,
    {
        match value {
            ExprKind::IntLit(expr) => Ok(LitExprKind::Int(expr)),
            ExprKind::FloatLit(expr) => Ok(LitExprKind::Float(expr)),
            ExprKind::StrLit(expr) => Ok(LitExprKind::Str(expr)),
            ExprKind::CharLit(expr) => Ok(LitExprKind::Char(expr)),
            ExprKind::BoolLit(expr) => Ok(LitExprKind::Bool(expr)),
            ExprKind::UnaryOp(expr) => {
                proof {
                    expr.lemma_operand_decreases();
                }
                // Only a negation of a literal is a literal.
                if expr.kind() == UnaryOpKind::Neg && LitExprKind::try_from(expr.expr()).is_ok() {
                    Ok(LitExprKind::UnaryOp(expr, CtorBlocker::new()))
                } else {
                    Err(())
                }
            },
            _ => Err(()),
        }
    }
}

impl<'ast> vstd::std_specs::convert::TryFromSpecImpl<ExprKind<'ast>> for LitExprKind<'ast> {
    open spec fn obeys_try_from_spec() -> bool {
        true
    }

    open spec fn try_from_spec(value: ExprKind<'ast>) -> Result<Self, ()> {
        narrow(value)
    }
}

/// Narrowing succeeds on the literals and on nothing else, and widening
/// what it gives leads back to the expression it was given.
pub proof fn lemma_narrow_then_widen(e: ExprKind)
    ensures
        narrow(e) is Ok <==> is_lit(e),
        narrow(e) is Ok ==> narrow(e)->Ok_0.widen() == e,
{
}

/// Every literal kind widens to a literal, and narrowing that leads back.
pub proof fn lemma_widen_then_narrow(lit: LitExprKind)
    requires
        lit is UnaryOp ==> is_lit(lit.widen()),
    ensures
        is_lit(lit.widen()),
        narrow(lit.widen()) == Ok::<LitExprKind, ()>(lit),
{
}

/// A negation is a literal exactly if its operand is one, and then the
/// literal it narrows to widens to the same negation.
pub proof fn lemma_negated_literal<'ast>(negation: &'ast UnaryOpExpr<'ast>)
    requires
        negation.spec_kind() == UnaryOpKind::Neg,
    ensures
        is_lit(negation.spec_expr()) ==> narrow(ExprKind::UnaryOp(negation)) is Ok && narrow(
            ExprKind::UnaryOp(negation),
        )->Ok_0.widen() == ExprKind::UnaryOp(negation),
        !is_lit(negation.spec_expr()) ==> narrow(ExprKind::UnaryOp(negation)) is Err,
{
}

/// How tightly an expression binds. A higher value binds tighter. The
/// values come in bands with gaps between them, so that a kind can be added
/// without giving the others new values.
#[derive(Debug, Clone, Copy, PartialEq, Eq, Structural)]
#[non_exhaustive]
pub enum ExprPrecedence {
    Lit,
    Block,
    Ctor,
    Assign,
    For,
    Loop,
    While,
    Await,
    Path,
    Method,
    Call,
    If,
    Let,
    Match,
    Field,
    Fn,
    Index,
    QuestionMark,
    /// The unary `-` operator.
    Neg,
    /// The `!` operator.
    Not,
    /// The unary `*` operator.
    Deref,
    /// The unary `&` operator.
    Ref,
    As,
    /// The binary `*` operator.
    Mul,
    /// The `/` operator.
    Div,
    /// The `%` operator.
    Rem,
    /// The `+` operator.
    Add,
    /// The binary `-` operator.
    Sub,
    /// The `>>` operator.
    Shr,
    /// The `<<` operator.
    Shl,
    /// The binary `&` operator.
    BitAnd,
    /// The `^` operator.
    BitXor,
    /// The `|` operator.
    BitOr,
    /// The `==`, `!=`, `<`, `<=`, `>`, `>=` operators.
    Comparison,
    /// The `&&` operator.
    And,
    /// The `||` operator.
    Or,
    /// Ranges like `0..10` and `0..=8`.
    Range,
    /// The compound assignments, like `+=` and `<<=`.
    AssignOp,
    Closure,
    Break,
    Return,
    Continue,
    /// The precedence comes from a source that is not stable yet. The
    /// value is the one its producer gave.
    Unstable(i32),
}

impl ExprPrecedence {
    /// The value of this precedence in the table.
    pub open spec fn spec_value(&self) -> int {
        match self {
            ExprPrecedence::Lit => 0x1400_0000,
            ExprPrecedence::Block => 0x1400_0001,
            ExprPrecedence::Ctor => 0x1400_0002,
            ExprPrecedence::Assign => 0x1400_0003,
            ExprPrecedence::For => 0x1400_0004,
            ExprPrecedence::Loop => 0x1400_0005,
            ExprPrecedence::While => 0x1400_0006,
            ExprPrecedence::Await => 0x1400_0007,
            ExprPrecedence::Path => 0x1300_0000,
            ExprPrecedence::Method => 0x1200_0000,
            ExprPrecedence::Call => 0x1200_0001,
            ExprPrecedence::If => 0x1200_0002,
            ExprPrecedence::Let => 0x1200_0003,
            ExprPrecedence::Match => 0x1200_0004,
            ExprPrecedence::Field => 0x1100_0000,
            ExprPrecedence::Fn => 0x1000_0000,
            ExprPrecedence::Index => 0x1000_0001,
            ExprPrecedence::QuestionMark => 0x0F00_0000,
            ExprPrecedence::Neg => 0x0E00_0000,
            ExprPrecedence::Not => 0x0E00_0001,
            ExprPrecedence::Deref => 0x0E00_0002,
            ExprPrecedence::Ref => 0x0E00_0003,
            ExprPrecedence::As => 0x0D00_0000,
            ExprPrecedence::Mul => 0x0C00_0000,
            ExprPrecedence::Div => 0x0C00_0001,
            ExprPrecedence::Rem => 0x0C00_0002,
            ExprPrecedence::Add => 0x0B00_0000,
            ExprPrecedence::Sub => 0x0B00_0001,
            ExprPrecedence::Shr => 0x0A00_0000,
            ExprPrecedence::Shl => 0x0A00_0001,
            ExprPrecedence::BitAnd => 0x0900_0000,
            ExprPrecedence::BitXor => 0x0800_0000,
            ExprPrecedence::BitOr => 0x0700_0000,
            ExprPrecedence::Comparison => 0x0600_0000,
            ExprPrecedence::And => 0x0500_0000,
            ExprPrecedence::Or => 0x0400_0000,
            ExprPrecedence::Range => 0x0300_0000,
            ExprPrecedence::AssignOp => 0x0200_0000,
            ExprPrecedence::Closure => 0x0100_0000,
            ExprPrecedence::Break => 0x0100_0001,
            ExprPrecedence::Return => 0x0100_0002,
            ExprPrecedence::Continue => 0x0100_0003,
            ExprPrecedence::Unstable(value) => *value as int,
        }
    }

    /// The value of this precedence in the table.
    pub fn value(&self) -> (r: i64)
        ensures
            r == self.spec_value(),
    {
        match self {
            ExprPrecedence::Lit => 0x1400_0000,
            ExprPrecedence::Block => 0x1400_0001,
            ExprPrecedence::Ctor => 0x1400_0002,
            ExprPrecedence::Assign => 0x1400_0003,
            ExprPrecedence::For => 0x1400_0004,
            ExprPrecedence::Loop => 0x1400_0005,
            ExprPrecedence::While => 0x1400_0006,
            ExprPrecedence::Await => 0x1400_0007,
            ExprPrecedence::Path => 0x1300_0000,
            ExprPrecedence::Method => 0x1200_0000,
            ExprPrecedence::Call => 0x1200_0001,
            ExprPrecedence::If => 0x1200_0002,
            ExprPrecedence::Let => 0x1200_0003,
            ExprPrecedence::Match => 0x1200_0004,
            ExprPrecedence::Field => 0x1100_0000,
            ExprPrecedence::Fn => 0x1000_0000,
            ExprPrecedence::Index => 0x1000_0001,
            ExprPrecedence::QuestionMark => 0x0F00_0000,
            ExprPrecedence::Neg => 0x0E00_0000,
            ExprPrecedence::Not => 0x0E00_0001,
            ExprPrecedence::Deref => 0x0E00_0002,
            ExprPrecedence::Ref => 0x0E00_0003,
            ExprPrecedence::As => 0x0D00_0000,
            ExprPrecedence::Mul => 0x0C00_0000,
            ExprPrecedence::Div => 0x0C00_0001,
            ExprPrecedence::Rem => 0x0C00_0002,
            ExprPrecedence::Add => 0x0B00_0000,
            ExprPrecedence::Sub => 0x0B00_0001,
            ExprPrecedence::Shr => 0x0A00_0000,
            ExprPrecedence::Shl => 0x0A00_0001,
            ExprPrecedence::BitAnd => 0x0900_0000,
            ExprPrecedence::BitXor => 0x0800_0000,
            ExprPrecedence::BitOr => 0x0700_0000,
            ExprPrecedence::Comparison => 0x0600_0000,
            ExprPrecedence::And => 0x0500_0000,
            ExprPrecedence::Or => 0x0400_0000,
            ExprPrecedence::Range => 0x0300_0000,
            ExprPrecedence::AssignOp => 0x0200_0000,
            ExprPrecedence::Closure => 0x0100_0000,
            ExprPrecedence::Break => 0x0100_0001,
            ExprPrecedence::Return => 0x0100_0002,
            ExprPrecedence::Continue => 0x0100_0003,
            ExprPrecedence::Unstable(value) => (*value).into(),
        }
    }
}

/// The stable precedences lie between that of a closure and the band of the
/// literals, which is the highest.
pub proof fn lemma_stable_precedence_bounds(p: ExprPrecedence)
    requires
        !(p is Unstable),
    ensures
        ExprPrecedence::Closure.spec_value() <= p.spec_value() <= ExprPrecedence::Await.spec_value(),
        p.spec_value() / 0x0100_0000 <= ExprPrecedence::Lit.spec_value() / 0x0100_0000,
{
}

/// The header of every expression node.
#[derive(Debug, Clone, Copy, PartialEq, Eq, Structural)]
pub struct CommonExprData {
    pub id: ExprId,
    pub span: SpanId,
}

impl CommonExprData {
    pub fn new(id: ExprId, span: SpanId) -> (r: Self)
        ensures
            r.id == id,
            r.span == span,
    {
        CommonExprData { id, span }
    }
}

/// An expression that is evaluated at compile time, like the length of an
/// array. Its value is not computed here.
#[derive(Debug)]
pub struct ConstExpr<'ast> {
    expr: ExprKind<'ast>,
}

impl<'ast> ConstExpr<'ast> {
    pub closed spec fn spec_expr(&self) -> ExprKind<'ast> {
        self.expr
    }

    pub fn new(expr: ExprKind<'ast>) -> (r: Self)
        ensures
            r.spec_expr() == expr,
    {
        ConstExpr { expr }
    }

    /// The wrapped expression.
    pub fn expr(&self) -> (r: ExprKind<'ast>)
        ensures
            r == self.spec_expr(),
    {
        self.expr
    }
}

} // verus!
