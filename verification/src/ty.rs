//! Semantic types, as far as pointers and references need them.

use vstd::prelude::*;
use crate::ids::TyDefId;

verus! {

/// Whether a place may be written through.
#[derive(Debug, Clone, Copy, PartialEq, Eq, Structural, Hash)]
pub enum Mutability {
    Mut,
    Unmut,
}

/// The semantic representation of a lifetime. It holds nothing yet.
#[derive(Debug, Clone, Copy, PartialEq, Eq, Structural, Hash)]
pub struct SemLifetime {}

/// The kinds of semantic types.
#[derive(Debug, Clone, Copy)]
#[non_exhaustive]
pub enum SemTyKind<'ast> {
    Bool,
    Num,
    Text,
    Never,
    Adt(TyDefId),
    Ref(&'ast SemRefTy<'ast>),
    RawPtr(&'ast SemRawPtrTy<'ast>),
}

/// A semantic type.
#[derive(Debug, Clone, Copy)]
pub struct SemTy<'ast> {
    pub kind: SemTyKind<'ast>,
}

/// The semantic representation of a reference like `&T` or `&mut T`.
#[derive(Debug)]
pub struct SemRefTy<'ast> {
    lifetime: Option<SemLifetime>,
    mutability: Mutability,
    inner_ty: SemTy<'ast>,
}

impl<'ast> SemRefTy<'ast> {
    pub closed spec fn spec_lifetime(&self) -> Option<SemLifetime> {
        self.lifetime
    }

    pub closed spec fn spec_mutability(&self) -> Mutability {
        self.mutability
    }

    pub closed spec fn spec_inner_ty(&self) -> SemTy<'ast> {
        self.inner_ty
    }

    pub fn new(lifetime: Option<SemLifetime>, mutability: Mutability, inner_ty: SemTy<'ast>) -> (r: Self)
        ensures
            r.spec_lifetime() == lifetime,
            r.spec_mutability() == mutability,
            r.spec_inner_ty() == inner_ty,
    {
        SemRefTy { lifetime, mutability, inner_ty }
    }

    pub fn has_lifetime(&self) -> (r: bool)
        ensures
            r == self.spec_lifetime().is_some(),
    {
        self.lifetime.is_some()
    }

    pub fn lifetime(&self) -> (r: Option<&SemLifetime>)
        ensures
            r.is_some() == self.spec_lifetime().is_some(),
            r.is_some() ==> *r.unwrap() == self.spec_lifetime().unwrap(),
    {
        self.lifetime.as_ref()
    }

    /// The mutability of the referenced place.
    pub fn mutability(&self) -> (r: Mutability)
        ensures
            r == self.spec_mutability(),
    {
        self.mutability
    }

    /// The type behind the reference.
    pub fn inner_ty(&self) -> (r: &SemTy<'ast>)
        ensures
            *r == self.spec_inner_ty(),
    {
        &self.inner_ty
    }
}

/// The semantic representation of a raw pointer like `*const T` or `*mut T`.
#[derive(Debug)]
pub struct SemRawPtrTy<'ast> {
    mutability: Mutability,
    inner_ty: SemTy<'ast>,
}

impl<'ast> SemRawPtrTy<'ast> {
    pub closed spec fn spec_mutability(&self) -> Mutability {
        self.mutability
    }

    pub closed spec fn spec_inner_ty(&self) -> SemTy<'ast> {
        self.inner_ty
    }

    pub fn new(mutability: Mutability, inner_ty: SemTy<'ast>) -> (r: Self)
        ensures
            r.spec_mutability() == mutability,
            r.spec_inner_ty() == inner_ty,
    {
        SemRawPtrTy { mutability, inner_ty }
    }

    pub fn mutability(&self) -> (r: Mutability)
        ensures
            r == self.spec_mutability(),
    {
        self.mutability
    }

    pub fn inner_ty(&self) -> (r: &SemTy<'ast>)
        ensures
            *r == self.spec_inner_ty(),
    {
        &self.inner_ty
    }
}

} // verus!
