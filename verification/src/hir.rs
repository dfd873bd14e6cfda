//! A model of types as written in the source, and helpers that read their generic arguments.

use vstd::prelude::*;

use crate::paths::BevyPath;
use crate::ty::{path_equals, strings_view};

verus! {

/// A generic argument as written, such as `T` or `'a` in `Foo<'a, T>`.
pub enum HirGenericArg {
    /// A type argument.
    Type(HirTy),
    /// A lifetime argument.
    Lifetime,
    /// A constant argument.
    Const,
    /// An inferred argument, `_`.
    Infer,
}

/// One segment of a written path, with the generic arguments written on it.
pub struct HirPathSegment {
    pub name: String,
    pub args: Vec<HirGenericArg>,
}

/// A type as written in the source.
pub enum HirTy {
    /// A path that resolved to a definition, such as `bevy::prelude::Query<'w, 's, &Foo>`.
    Path { segments: Vec<HirPathSegment> },
    /// Any other written type.
    Other,
}

/// The generic argument at `index` on the last segment of a resolved path type.
pub open spec fn spec_generic_at(hir_ty: HirTy, index: int) -> Option<HirGenericArg> {
    match hir_ty {
        HirTy::Path { segments } => if segments@.len() > 0 && 0 <= index < segments@.last().args@.len() {
            Some(segments@.last().args@[index])
        } else {
            None
        },
        HirTy::Other => None,
    }
}

/// Returns the generic argument at the given index of a written path type, counting lifetimes.
pub fn generic_at(hir_ty: &HirTy, index: usize) -> (r: Option<&HirGenericArg>)
    ensures
        match r {
            Some(a) => spec_generic_at(*hir_ty, index as int) == Some(*a),
            None => spec_generic_at(*hir_ty, index as int) is None,
        },
{
    match hir_ty {
        HirTy::Path { segments } => {
            if segments.len() == 0 {
                return None;
            }
            let last = &segments[segments.len() - 1];
            if index < last.args.len() {
                Some(&last.args[index])
            } else {
                None
            }
        },
        HirTy::Other => None,
    }
}

/// Returns the type written as the generic argument at the given index, if that argument is a
/// type.
pub fn generic_type_at(hir_ty: &HirTy, index: usize) -> (r: Option<&HirTy>)
    ensures
        match r {
            Some(t) => spec_generic_at(*hir_ty, index as int) == Some(HirGenericArg::Type(*t)),
            None => !(spec_generic_at(*hir_ty, index as int) matches Some(HirGenericArg::Type(_))),
        },
{
    match generic_at(hir_ty, index) {
        Some(HirGenericArg::Type(t)) => Some(t),
        _ => None,
    }
}

/// What the trait of an `impl Trait for T` item resolves to: the definition path of the trait,
/// or `None` when the path does not resolve to a definition.
pub struct TraitRef {
    pub def_path: Option<Vec<String>>,
}

/// Whether an `impl` item implements the Bevy trait `p`. `of_trait` is the trait of the item,
/// `None` for an inherent `impl`.
pub fn impls_trait(of_trait: &Option<TraitRef>, p: BevyPath) -> (r: bool)
    ensures
        r == (of_trait matches Some(t) && (t.def_path matches Some(path) && strings_view(path@)
            == p.spec_segments())),
{
    match of_trait {
        Some(t) => match &t.def_path {
            Some(path) => path_equals(path, p),
            None => false,
        },
        None => false,
    }
}

} // verus!
