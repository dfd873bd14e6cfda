//! Finds function parameters that take a mutable reference to a re-borrowable Bevy type.
//!
//! Types such as `Commands` and `Query` already hold a mutable reference to data owned by the
//! ECS. Taking `&mut Commands` nests a reference needlessly: the caller can re-borrow an owned
//! `Commands` instead. The one exception is a function whose return type borrows from the
//! parameter, which cannot be rewritten this way.

use vstd::prelude::*;

use crate::diag::Applicability;
use crate::paths::BevyPath;
use crate::text::concat;
use crate::ty::Ty;

verus! {

/// A Bevy type that can be re-borrowed.
#[derive(Clone, Copy, Debug, PartialEq, Eq, Structural)]
pub enum Reborrowable {
    Commands,
    Deferred,
    DeferredWorld,
    EntityCommands,
    EntityMut,
    FilteredEntityMut,
    Mut,
    MutUntyped,
    NonSendMut,
    PtrMut,
    Query,
    ResMut,
}

/// The re-borrowable types with the Bevy item each one is, in the order they are tried.
pub open spec fn path_map() -> Seq<(BevyPath, Reborrowable)> {
    seq![
        (BevyPath::Commands, Reborrowable::Commands),
        (BevyPath::Deferred, Reborrowable::Deferred),
        (BevyPath::DeferredWorld, Reborrowable::DeferredWorld),
        (BevyPath::EntityCommands, Reborrowable::EntityCommands),
        (BevyPath::EntityMut, Reborrowable::EntityMut),
        (BevyPath::FilteredEntityMut, Reborrowable::FilteredEntityMut),
        (BevyPath::Mut, Reborrowable::Mut),
        (BevyPath::MutUntyped, Reborrowable::MutUntyped),
        (BevyPath::NonSendMut, Reborrowable::NonSendMut),
        (BevyPath::PtrMut, Reborrowable::PtrMut),
        (BevyPath::Query, Reborrowable::Query),
        (BevyPath::ResMut, Reborrowable::ResMut),
    ]
}

/// The first entry of `map` whose Bevy item `t` is.
pub open spec fn first_match(map: Seq<(BevyPath, Reborrowable)>, t: Ty) -> Option<Reborrowable>
    decreases map.len(),
{
    if map.len() == 0 {
        None
    } else if t.is_bevy(map[0].0) {
        Some(map[0].1)
    } else {
        first_match(map.drop_first(), t)
    }
}

/// Which types are re-borrowable: each of the Bevy items `Commands`, `Deferred`,
/// `DeferredWorld`, `EntityCommands`, `EntityMut`, `FilteredEntityMut`, `Mut`, `MutUntyped`,
/// `NonSendMut`, `PtrMut`, `Query` and `ResMut` is recognised as the re-borrowable type of the
/// same name, and a type that is none of these items is not re-borrowable.
pub proof fn lemma_reborrowable_items(t: Ty)
    ensures
        t.is_bevy(BevyPath::Commands) ==> first_match(path_map(), t) == Some(Reborrowable::Commands),
        t.is_bevy(BevyPath::Deferred) ==> first_match(path_map(), t) == Some(Reborrowable::Deferred),
        t.is_bevy(BevyPath::DeferredWorld) ==> first_match(path_map(), t) == Some(Reborrowable::DeferredWorld),
        t.is_bevy(BevyPath::EntityCommands) ==> first_match(path_map(), t) == Some(Reborrowable::EntityCommands),
        t.is_bevy(BevyPath::EntityMut) ==> first_match(path_map(), t) == Some(Reborrowable::EntityMut),
        t.is_bevy(BevyPath::FilteredEntityMut) ==> first_match(path_map(), t) == Some(Reborrowable::FilteredEntityMut),
        t.is_bevy(BevyPath::Mut) ==> first_match(path_map(), t) == Some(Reborrowable::Mut),
        t.is_bevy(BevyPath::MutUntyped) ==> first_match(path_map(), t) == Some(Reborrowable::MutUntyped),
        t.is_bevy(BevyPath::NonSendMut) ==> first_match(path_map(), t) == Some(Reborrowable::NonSendMut),
        t.is_bevy(BevyPath::PtrMut) ==> first_match(path_map(), t) == Some(Reborrowable::PtrMut),
        t.is_bevy(BevyPath::Query) ==> first_match(path_map(), t) == Some(Reborrowable::Query),
        t.is_bevy(BevyPath::ResMut) ==> first_match(path_map(), t) == Some(Reborrowable::ResMut),
        !(t.is_bevy(BevyPath::Commands) || t.is_bevy(BevyPath::Deferred) || t.is_bevy(BevyPath::DeferredWorld) || t.is_bevy(BevyPath::EntityCommands) || t.is_bevy(BevyPath::EntityMut) || t.is_bevy(BevyPath::FilteredEntityMut) || t.is_bevy(BevyPath::Mut) || t.is_bevy(BevyPath::MutUntyped) || t.is_bevy(BevyPath::NonSendMut) || t.is_bevy(BevyPath::PtrMut) || t.is_bevy(BevyPath::Query) || t.is_bevy(BevyPath::ResMut)) ==> first_match(path_map(), t) is None,
{
    crate::ty::lemma_is_bevy_unique(t);
    reveal_with_fuel(first_match, 13);
}

impl Reborrowable {
    /// The re-borrowable type that `ty` is, if any.
    pub fn try_from_ty(ty: &Ty) -> (r: Option<Reborrowable>)
        ensures
            r == first_match(path_map(), *ty),
    {
        let map: [(BevyPath, Reborrowable); 12] = [
            (BevyPath::Commands, Reborrowable::Commands),
            (BevyPath::Deferred, Reborrowable::Deferred),
            (BevyPath::DeferredWorld, Reborrowable::DeferredWorld),
            (BevyPath::EntityCommands, Reborrowable::EntityCommands),
            (BevyPath::EntityMut, Reborrowable::EntityMut),
            (BevyPath::FilteredEntityMut, Reborrowable::FilteredEntityMut),
            (BevyPath::Mut, Reborrowable::Mut),
            (BevyPath::MutUntyped, Reborrowable::MutUntyped),
            (BevyPath::NonSendMut, Reborrowable::NonSendMut),
            (BevyPath::PtrMut, Reborrowable::PtrMut),
            (BevyPath::Query, Reborrowable::Query),
            (BevyPath::ResMut, Reborrowable::ResMut),
        ];
        assert(map@ =~= path_map());
        let mut i: usize = 0;
        assert(map@.skip(0) =~= map@);
        while i < 12
            invariant
                map@ == path_map(),
                i <= 12,
                first_match(path_map(), *ty) == first_match(map@.skip(i as int), *ty),
            decreases 12 - i,
        {
            let (path, reborrowable) = map[i];
            assert(map@.skip(i as int).drop_first() =~= map@.skip(i + 1));
            if ty.matches(path) {
                return Some(reborrowable);
            }
            i = i + 1;
        }
        assert(map@.skip(12) =~= Seq::<(BevyPath, Reborrowable)>::empty());
        None
    }

    pub open spec fn spec_name(self) -> Seq<char> {
        match self {
            Reborrowable::Commands => "Commands"@,
            Reborrowable::Deferred => "Deferred"@,
            Reborrowable::DeferredWorld => "DeferredWorld"@,
            Reborrowable::EntityCommands => "EntityCommands"@,
            Reborrowable::EntityMut => "EntityMut"@,
            Reborrowable::FilteredEntityMut => "FilteredEntityMut"@,
            Reborrowable::Mut => "Mut"@,
            Reborrowable::MutUntyped => "MutUntyped"@,
            Reborrowable::NonSendMut => "NonSendMut"@,
            Reborrowable::PtrMut => "PtrMut"@,
            Reborrowable::Query => "Query"@,
            Reborrowable::ResMut => "ResMut"@,
        }
    }

    /// The type's name.
    pub fn name(&self) -> (r: &'static str)
        ensures
            r@ == self.spec_name(),
    {
        match self {
            Reborrowable::Commands => "Commands",
            Reborrowable::Deferred => "Deferred",
            Reborrowable::DeferredWorld => "DeferredWorld",
            Reborrowable::EntityCommands => "EntityCommands",
            Reborrowable::EntityMut => "EntityMut",
            Reborrowable::FilteredEntityMut => "FilteredEntityMut",
            Reborrowable::Mut => "Mut",
            Reborrowable::MutUntyped => "MutUntyped",
            Reborrowable::NonSendMut => "NonSendMut",
            Reborrowable::PtrMut => "PtrMut",
            Reborrowable::Query => "Query",
            Reborrowable::ResMut => "ResMut",
        }
    }

    /// "parameter takes `&mut {name}` instead of a re-borrowed `{name}`"
    pub fn message(&self) -> (r: String)
        ensures
            r@ == "parameter takes `&mut "@ + self.spec_name() + "` instead of a re-borrowed `"@
                + self.spec_name() + "`"@,
    {
        let name = self.name();
        let r = concat(
            &["parameter takes `&mut ", name, "` instead of a re-borrowed `", name, "`"],
        );
        proof {
            reveal_with_fuel(crate::text::concat_all, 6);
        }
        r
    }

    /// "use `{name}` instead"
    pub fn help(&self) -> (r: String)
        ensures
            r@ == "use `"@ + self.spec_name() + "` instead"@,
    {
        let r = concat(&["use `", self.name(), "` instead"]);
        proof {
            reveal_with_fuel(crate::text::concat_all, 4);
        }
        r
    }

    /// The replacement for the parameter: "mut {pattern}: {type}", where the pattern's source
    /// defaults to "_" when it is not available.
    pub fn suggest(&self, pattern: Option<&str>, ty: &str) -> (r: String)
        ensures
            r@ == "mut "@ + match pattern {
                Some(p) => p@,
                None => "_"@,
            } + ": "@ + ty@,
    {
        let p = match pattern {
            Some(p) => p,
            None => "_",
        };
        let r = concat(&["mut ", p, ": ", ty]);
        proof {
            reveal_with_fuel(crate::text::concat_all, 5);
        }
        r
    }
}

/// A parameter of a function, as the lint sees it.
pub struct FnParam {
    /// The parameter's type in the function's signature.
    pub ty: Ty,
    /// The parameter is `self`.
    pub is_self: bool,
    /// The function's return type mentions the lifetime of this parameter's reference.
    pub output_borrows: bool,
}

/// The finding for one parameter, if it is reported: its index, its re-borrowable type, and the
/// applicability of the suggested replacement, which may be incorrect since the function's body
/// may need changes too.
pub open spec fn param_finding(i: int, p: FnParam) -> Seq<(usize, Reborrowable, Applicability)> {
    match p.ty {
        Ty::Ref { mutable, inner } => if mutable && !p.is_self && !p.output_borrows {
            match first_match(path_map(), *inner) {
                Some(r) => seq![(i as usize, r, Applicability::MaybeIncorrect)],
                None => Seq::empty(),
            }
        } else {
            Seq::empty()
        },
        _ => Seq::empty(),
    }
}

/// The findings for the first `n` parameters, in order.
pub open spec fn params_findings(ps: Seq<FnParam>, n: int) -> Seq<(usize, Reborrowable, Applicability)>
    decreases n,
{
    if n <= 0 {
        Seq::empty()
    } else {
        params_findings(ps, n - 1) + param_finding(n - 1, ps[n - 1])
    }
}

/// The parameters reported by the `borrowed_reborrowable` lint, with the type each one
/// re-borrows and the applicability of the suggested replacement (see [`Reborrowable::suggest`]),
/// which is `MaybeIncorrect`: those of type `&mut T` for a re-borrowable `T`, other than
/// `self`, whose reference the return type does not borrow from. Nothing is reported for a
/// function that comes from an external macro.
pub fn borrowed_reborrowable(params: &Vec<FnParam>, in_external_macro: bool) -> (r: Vec<
    (usize, Reborrowable, Applicability),
>)
    ensures
        r@ == if in_external_macro {
            Seq::empty()
        } else {
            params_findings(params@, params@.len() as int)
        },
{
    let mut out: Vec<(usize, Reborrowable, Applicability)> = Vec::new();
    if in_external_macro {
        return out;
    }
    let mut i: usize = 0;
    while i < params.len()
        invariant
            i <= params@.len(),
            out@ == params_findings(params@, i as int),
        decreases params@.len() - i,
    {
        let p = &params[i];
        if let Ty::Ref { mutable, inner } = &p.ty {
            if *mutable && !p.is_self && !p.output_borrows {
                if let Some(r) = Reborrowable::try_from_ty(inner) {
                    out.push((i, r, Applicability::MaybeIncorrect));
                }
            }
        }
        i = i + 1;
        assert(out@ =~= params_findings(params@, i as int));
    }
    out
}

/// Whether a region occurs among the regions of a type, listed in the order a visitor meets
/// them: the visit stops at the first one equal to `region`. Used to tell whether a function's
/// return type borrows from a parameter's reference.
pub fn contains_region(regions: &[u32], region: u32) -> (r: bool)
    ensures
        r == regions@.contains(region),
{
    let mut i: usize = 0;
    while i < regions.len()
        invariant
            i <= regions@.len(),
            forall|j: int| 0 <= j < i ==> regions@[j] != region,
        decreases regions@.len() - i,
    {
        if regions[i] == region {
            assert(regions@[i as int] == region);
            return true;
        }
        i = i + 1;
    }
    false
}

} // verus!
