//! Literals.

use vstd::prelude::*;
use crate::context::{current_expr_ty, current_span, ContextSlot};
use crate::expr::{CommonExprData, ExprData, ExprKind, ExprPrecedence};
use crate::ids::ExprId;
use crate::span::Span;
use crate::ty::SemTyKind;

verus! {

/// An integer literal like `16`.
#[derive(Debug)]
pub struct IntLitExpr {
    data: CommonExprData,
    value: u128,
}

impl IntLitExpr {
    pub closed spec fn spec_value(&self) -> u128 {
        self.value
    }

    pub fn new(data: CommonExprData, value: u128) -> (r: Self)
        ensures
            r.common() == data,
            r.spec_value() == value,
    {
        IntLitExpr { data, value }
    }

    /// The literal's value.
    pub fn value(&self) -> (r: u128)
        ensures
            r == self.spec_value(),
    {
        self.value
    }
}

impl<'ast> ExprData<'ast> for IntLitExpr {
    closed spec fn common(&self) -> CommonExprData {
        self.data
    }

    open spec fn spec_precedence(&self) -> ExprPrecedence {
        ExprPrecedence::Lit
    }

    fn id(&self) -> ExprId {
        self.data.id
    }

    fn span(&self, slot: &ContextSlot<'ast>) -> &'ast Span<'ast> {
        current_span(slot, self.data.span)
    }

    fn ty(&self, slot: &ContextSlot<'ast>) -> SemTyKind<'ast> {
        current_expr_ty(slot, self.data.id)
    }

    fn precedence(&self) -> ExprPrecedence {
        ExprPrecedence::Lit
    }

    fn as_expr(&'ast self) -> (r: ExprKind<'ast>)
        ensures
            r == ExprKind::IntLit(self),
    {
        ExprKind::IntLit(self)
    }
}

/// A floating point literal like `1.5`.
#[derive(Debug)]
pub struct FloatLitExpr {
    data: CommonExprData,
    bits: u64,
}

impl FloatLitExpr {
    pub closed spec fn spec_bits(&self) -> u64 {
        self.bits
    }

    pub fn new(data: CommonExprData, bits: u64) -> (r: Self)
        ensures
            r.common() == data,
            r.spec_bits() == bits,
    {
        FloatLitExpr { data, bits }
    }

    /// The bits of the literal's value, as IEEE 754 lays out a double.
    pub fn bits(&self) -> (r: u64)
        ensures
            r == self.spec_bits(),
    {
        self.bits
    }
}

impl<'ast> ExprData<'ast> for FloatLitExpr {
    closed spec fn common(&self) -> CommonExprData {
        self.data
    }

    open spec fn spec_precedence(&self) -> ExprPrecedence {
        ExprPrecedence::Lit
    }

    fn id(&self) -> ExprId {
        self.data.id
    }

    fn span(&self, slot: &ContextSlot<'ast>) -> &'ast Span<'ast> {
        current_span(slot, self.data.span)
    }

    fn ty(&self, slot: &ContextSlot<'ast>) -> SemTyKind<'ast> {
        current_expr_ty(slot, self.data.id)
    }

    fn precedence(&self) -> ExprPrecedence {
        ExprPrecedence::Lit
    }

    fn as_expr(&'ast self) -> (r: ExprKind<'ast>)
        ensures
            r == ExprKind::FloatLit(self),
    {
        ExprKind::FloatLit(self)
    }
}

/// A string literal like `"text"`.
#[derive(Debug)]
pub struct StrLitExpr {
    data: CommonExprData,
    value: String,
}

impl StrLitExpr {
    pub closed spec fn spec_value(&self) -> String {
        self.value
    }

    pub fn new(data: CommonExprData, value: String) -> (r: Self)
        ensures
            r.common() == data,
            r.spec_value() == value,
    {
        StrLitExpr { data, value }
    }

    /// The literal's text.
    pub fn value(&self) -> (r: &String)
        ensures
            *r == self.spec_value(),
    {
        &self.value
    }
}

impl<'ast> ExprData<'ast> for StrLitExpr {
    closed spec fn common(&self) -> CommonExprData {
        self.data
    }

    open spec fn spec_precedence(&self) -> ExprPrecedence {
        ExprPrecedence::Lit
    }

    fn id(&self) -> ExprId {
        self.data.id
    }

    fn span(&self, slot: &ContextSlot<'ast>) -> &'ast Span<'ast> {
        current_span(slot, self.data.span)
    }

    fn ty(&self, slot: &ContextSlot<'ast>) -> SemTyKind<'ast> {
        current_expr_ty(slot, self.data.id)
    }

    fn precedence(&self) -> ExprPrecedence {
        ExprPrecedence::Lit
    }

    fn as_expr(&'ast self) -> (r: ExprKind<'ast>)
        ensures
            r == ExprKind::StrLit(self),
    {
        ExprKind::StrLit(self)
    }
}

/// A character literal like `'a'`.
#[derive(Debug)]
pub struct CharLitExpr {
    data: CommonExprData,
    value: char,
}

impl CharLitExpr {
    pub closed spec fn spec_value(&self) -> char {
        self.value
    }

    pub fn new(data: CommonExprData, value: char) -> (r: Self)
        ensures
            r.common() == data,
            r.spec_value() == value,
    {
        CharLitExpr { data, value }
    }

    /// The literal's value.
    pub fn value(&self) -> (r: char)
        ensures
            r == self.spec_value(),
    {
        self.value
    }
}

impl<'ast> ExprData<'ast> for CharLitExpr {
    closed spec fn common(&self) -> CommonExprData {
        self.data
    }

    open spec fn spec_precedence(&self) -> ExprPrecedence {
        ExprPrecedence::Lit
    }

    fn id(&self) -> ExprId {
        self.data.id
    }

    fn span(&self, slot: &ContextSlot<'ast>) -> &'ast Span<'ast> {
        current_span(slot, self.data.span)
    }

    fn ty(&self, slot: &ContextSlot<'ast>) -> SemTyKind<'ast> {
        current_expr_ty(slot, self.data.id)
    }

    fn precedence(&self) -> ExprPrecedence {
        ExprPrecedence::Lit
    }

    fn as_expr(&'ast self) -> (r: ExprKind<'ast>)
        ensures
            r == ExprKind::CharLit(self),
    {
        ExprKind::CharLit(self)
    }
}

/// A boolean literal: `true` or `false`.
#[derive(Debug)]
pub struct BoolLitExpr {
    data: CommonExprData,
    value: bool,
}

impl BoolLitExpr {
    pub closed spec fn spec_value(&self) -> bool {
        self.value
    }

    pub fn new(data: CommonExprData, value: bool) -> (r: Self)
        ensures
            r.common() == data,
            r.spec_value() == value,
    {
        BoolLitExpr { data, value }
    }

    /// The literal's value.
    pub fn value(&self) -> (r: bool)
        ensures
            r == self.spec_value(),
    {
        self.value
    }
}

impl<'ast> ExprData<'ast> for BoolLitExpr {
    closed spec fn common(&self) -> CommonExprData {
        self.data
    }

    open spec fn spec_precedence(&self) -> ExprPrecedence {
        ExprPrecedence::Lit
    }

    fn id(&self) -> ExprId {
        self.data.id
    }

    fn span(&self, slot: &ContextSlot<'ast>) -> &'ast Span<'ast> {
        current_span(slot, self.data.span)
    }

    fn ty(&self, slot: &ContextSlot<'ast>) -> SemTyKind<'ast> {
        current_expr_ty(slot, self.data.id)
    }

    fn precedence(&self) -> ExprPrecedence {
        ExprPrecedence::Lit
    }

    fn as_expr(&'ast self) -> (r: ExprKind<'ast>)
        ensures
            r == ExprKind::BoolLit(self),
    {
        ExprKind::BoolLit(self)
    }
}

} // verus!
