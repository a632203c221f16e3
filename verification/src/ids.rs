//! Opaque handles. A handle carries no payload: it is resolved through the
//! context of the session that issued it.

use vstd::prelude::*;

verus! {

/// Identifies one expression of the session.
#[derive(Debug, Clone, Copy, PartialEq, Eq, Structural, Hash)]
pub struct ExprId {
    pub raw: u64,
}

/// Identifies one item of the session.
#[derive(Debug, Clone, Copy, PartialEq, Eq, Structural, Hash)]
pub struct ItemId {
    pub raw: u64,
}

/// Identifies one body (the expression evaluated by an item).
#[derive(Debug, Clone, Copy, PartialEq, Eq, Structural, Hash)]
pub struct BodyId {
    pub raw: u64,
}

/// Identifies one span stored by the host.
#[derive(Debug, Clone, Copy, PartialEq, Eq, Structural, Hash)]
pub struct SpanId {
    pub raw: u64,
}

/// Identifies the expansion a macro span originates from.
#[derive(Debug, Clone, Copy, PartialEq, Eq, Structural, Hash)]
pub struct SpanSrcId {
    pub raw: u64,
}

/// Identifies one interned name.
#[derive(Debug, Clone, Copy, PartialEq, Eq, Structural, Hash)]
pub struct SymbolId {
    pub raw: u64,
}

/// Identifies one type definition. Several can share a path when a build
/// holds more than one version of a dependency.
#[derive(Debug, Clone, Copy, PartialEq, Eq, Structural, Hash)]
pub struct TyDefId {
    pub raw: u64,
}

} // verus!
