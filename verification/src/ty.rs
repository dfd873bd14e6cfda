//! A model of the compiler types that the lints inspect.
//!
//! The linter only ever reads a few facts of a type: whether it is a struct or enum with a given
//! definition path, its generic type arguments, whether it is a reference and of which kind, and
//! whether it is a tuple (the unit type `()` being the empty tuple). [`Ty`] holds exactly these.

use vstd::prelude::*;

use crate::paths::BevyPath;
use crate::text::str_eq;

verus! {

/// The characters of each string in a sequence.
pub open spec fn strings_view(v: Seq<String>) -> Seq<Seq<char>> {
    v.map_values(|s: String| s@)
}

/// A type as the lints see it.
pub enum Ty {
    /// A struct, enum or union: its definition path (crate name first) and its generic type
    /// arguments, lifetimes left out.
    Adt { path: Vec<String>, args: Vec<Ty> },
    /// A reference `&T` (`mutable == false`) or `&mut T` (`mutable == true`).
    Ref { mutable: bool, inner: Box<Ty> },
    /// A tuple type. The unit type `()` is the tuple with no items.
    Tuple(Vec<Ty>),
    /// A generic type parameter, by its index among the generics in scope.
    Param(u32),
    /// Any other type.
    Other,
}

impl Ty {
    /// The type with every outer reference removed: `T` for `T`, `&T`, `&&mut T`, ...
    pub open spec fn peeled(self) -> Ty
        decreases self,
    {
        match self {
            Ty::Ref { inner, .. } => (*inner).peeled(),
            _ => self,
        }
    }

    /// The type is the unit type `()`.
    pub open spec fn is_unit_ty(self) -> bool {
        match self {
            Ty::Tuple(items) => items@.len() == 0,
            _ => false,
        }
    }

    /// The type is a struct, enum or union whose definition path is `p`.
    pub open spec fn has_path(self, p: Seq<Seq<char>>) -> bool {
        match self {
            Ty::Adt { path, .. } => strings_view(path@) == p,
            _ => false,
        }
    }

    /// The type is the Bevy item `p`.
    pub open spec fn is_bevy(self, p: BevyPath) -> bool {
        self.has_path(p.spec_segments())
    }

    /// Removes every outer reference.
    pub fn peel_refs(&self) -> (r: &Ty)
        ensures
            *r == self.peeled(),
        decreases self,
    {
        match self {
            Ty::Ref { inner, .. } => inner.peel_refs(),
            _ => self,
        }
    }

    /// Whether this is the unit type `()`.
    pub fn is_unit(&self) -> (r: bool)
        ensures
            r == self.is_unit_ty(),
    {
        match self {
            Ty::Tuple(items) => items.len() == 0,
            _ => false,
        }
    }

    /// Whether this is the Bevy item `p`.
    pub fn matches(&self, p: BevyPath) -> (r: bool)
        ensures
            r == self.is_bevy(p),
    {
        match self {
            Ty::Adt { path, .. } => path_equals(path, p),
            _ => false,
        }
    }
}

/// A type is at most one Bevy item: different items have different definition paths.
pub proof fn lemma_is_bevy_unique(t: Ty)
    ensures
        forall|a: BevyPath, b: BevyPath| #[trigger] t.is_bevy(a) && #[trigger] t.is_bevy(b) ==> a == b,
{
    assert forall|a: BevyPath, b: BevyPath| #[trigger] t.is_bevy(a) && #[trigger] t.is_bevy(b) implies a == b by {
        crate::paths::lemma_segments_distinct(a, b);
    }
}

/// Whether a definition path names the Bevy item `p`.
pub fn path_equals(path: &Vec<String>, p: BevyPath) -> (r: bool)
    ensures
        r == (strings_view(path@) == p.spec_segments()),
{
    let expected = p.segments();
    if path.len() != expected.len() {
        assert(strings_view(path@).len() != p.spec_segments().len());
        return false;
    }
    let mut i: usize = 0;
    while i < path.len()
        invariant
            path.len() == expected.len(),
            expected@.map_values(|s: &str| s@) == p.spec_segments(),
            i <= path.len(),
            forall|j: int| 0 <= j < i ==> path@[j]@ == expected@[j]@,
        decreases path.len() - i,
    {
        if !str_eq(path[i].as_str(), expected[i]) {
            assert(strings_view(path@)[i as int] != p.spec_segments()[i as int]);
            return false;
        }
        i = i + 1;
    }
    assert(strings_view(path@) =~= p.spec_segments());
    true
}

} // verus!
