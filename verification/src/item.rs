//! Items, as far as the lint passes are told of them.

use vstd::prelude::*;
use crate::expr::ExprKind;
use crate::ids::{BodyId, ItemId, SpanId};
use crate::span::Ident;
use crate::ty::Mutability;

verus! {

/// What every item carries.
#[derive(Debug, Clone, Copy)]
pub struct CommonItemData {
    pub id: ItemId,
    pub span: SpanId,
    pub ident: Ident,
}

/// A module with the items declared in it, in source order.
#[derive(Debug)]
pub struct ModItem<'ast> {
    pub data: CommonItemData,
    pub items: Vec<ItemKind<'ast>>,
}

/// An `extern crate` declaration.
#[derive(Debug)]
pub struct ExternCrateItem {
    pub data: CommonItemData,
}

/// A `use` declaration.
#[derive(Debug)]
pub struct UseDeclItem {
    pub data: CommonItemData,
}

/// A `static` item.
#[derive(Debug)]
pub struct StaticItem {
    pub data: CommonItemData,
    pub mutability: Mutability,
    pub body: Option<BodyId>,
}

/// The kinds of items.
#[derive(Debug, Clone, Copy)]
#[non_exhaustive]
pub enum ItemKind<'ast> {
    Mod(&'ast ModItem<'ast>),
    ExternCrate(&'ast ExternCrateItem),
    UseDecl(&'ast UseDeclItem),
    Static(&'ast StaticItem),
}

impl<'ast> ItemKind<'ast> {
    pub open spec fn spec_id(&self) -> ItemId {
        match self {
            ItemKind::Mod(item) => item.data.id,
            ItemKind::ExternCrate(item) => item.data.id,
            ItemKind::UseDecl(item) => item.data.id,
            ItemKind::Static(item) => item.data.id,
        }
    }

    pub fn id(&self) -> (r: ItemId)
        ensures
            r == self.spec_id(),
    {
        match self {
            ItemKind::Mod(item) => item.data.id,
            ItemKind::ExternCrate(item) => item.data.id,
            ItemKind::UseDecl(item) => item.data.id,
            ItemKind::Static(item) => item.data.id,
        }
    }
}

/// The expression that an item evaluates.
#[derive(Debug)]
pub struct Body<'ast> {
    pub owner: ItemId,
    pub expr: ExprKind<'ast>,
}

} // verus!
