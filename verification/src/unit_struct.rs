//! Finds unit structs that lack a derivable trait: unit components without `Default`, and unit
//! structs without `Copy`, `Clone` or `Default`.

use vstd::prelude::*;

use crate::diag::Applicability;
use crate::reflect::TraitType;
use crate::text::concat;

verus! {

/// How a component is declared, as far as `Default` can be derived for it.
#[derive(Clone, Copy, Debug)]
pub enum StructShape {
    /// A struct with this many fields.
    Struct { field_count: usize },
    /// An enum or union.
    NotStruct,
}

/// A local type that implements `Component`.
#[derive(Clone, Copy, Debug)]
pub struct DefaultCandidate {
    pub ty: TraitType,
    /// The type implements `Default`.
    pub implements_default: bool,
    pub shape: StructShape,
}

/// The components reported by the `missing_default` lint over the candidates, in order: every
/// unit struct (a struct without fields) that lacks `Default`, each with its machine-applicable
/// `#[derive(Default)]` suggestion. Components with fields, enums and unions are skipped.
pub open spec fn default_findings(cs: Seq<DefaultCandidate>) -> Seq<(TraitType, Applicability)>
    decreases cs.len(),
{
    if cs.len() == 0 {
        Seq::empty()
    } else {
        let c = cs.last();
        default_findings(cs.drop_last()) + if !c.implements_default && (c.shape matches StructShape::Struct { field_count } && field_count == 0) {
            seq![(c.ty, Applicability::MachineApplicable)]
        } else {
            Seq::empty()
        }
    }
}

/// Every unit component (a struct without fields) that lacks `Default` is reported, at any
/// position among the candidates and whatever comes before it, as machine-applicable; and
/// everything reported is such a component.
pub proof fn lemma_default_findings_exact(cs: Seq<DefaultCandidate>)
    ensures
        forall|i: int|
            0 <= i < cs.len() && !(#[trigger] cs[i]).implements_default && (cs[i].shape
                == StructShape::Struct { field_count: 0 }) ==> default_findings(cs).contains(
                (cs[i].ty, Applicability::MachineApplicable),
            ),
        forall|x: int| #![trigger default_findings(cs)[x]]
            0 <= x < default_findings(cs).len() ==> exists|i: int|
                0 <= i < cs.len() && !(#[trigger] cs[i]).implements_default && (cs[i].shape
                    == StructShape::Struct { field_count: 0 }) && default_findings(cs)[x] == (
                    cs[i].ty,
                    Applicability::MachineApplicable,
                ),
    decreases cs.len(),
{
    if cs.len() > 0 {
        let d = cs.drop_last();
        lemma_default_findings_exact(d);
        let f = default_findings(cs);
        let fd = default_findings(d);
        assert forall|i: int|
            0 <= i < cs.len() && !(#[trigger] cs[i]).implements_default && (cs[i].shape
                == StructShape::Struct { field_count: 0 }) implies f.contains(
            (cs[i].ty, Applicability::MachineApplicable),
        ) by {
            if i < cs.len() - 1 {
                assert(d[i] == cs[i]);
                let x = choose|x: int| 0 <= x < fd.len() && fd[x] == (d[i].ty, Applicability::MachineApplicable);
                assert(f[x] == fd[x]);
            } else {
                assert(f[fd.len() as int] == (cs[i].ty, Applicability::MachineApplicable));
            }
        }
        assert forall|x: int| #![trigger f[x]] 0 <= x < f.len() implies exists|i: int|
            0 <= i < cs.len() && !(#[trigger] cs[i]).implements_default && (cs[i].shape
                == StructShape::Struct { field_count: 0 }) && f[x] == (
                cs[i].ty,
                Applicability::MachineApplicable,
            ) by {
            if x < fd.len() {
                assert(f[x] == fd[x]);
                let i = choose|i: int|
                    0 <= i < d.len() && !(#[trigger] d[i]).implements_default && (d[i].shape
                        == StructShape::Struct { field_count: 0 }) && fd[x] == (
                        d[i].ty,
                        Applicability::MachineApplicable,
                    );
                assert(cs[i] == d[i]);
            } else {
                assert(cs[cs.len() - 1] == cs.last());
            }
        }
    }
}

/// The unit components without a `Default` implementation, by the rules of the
/// `missing_default` lint, each with the applicability of its suggestion: the lint points at
/// the type's declaration (`item_span`), notes the `Component` implementation
/// ([`missing_default_note`] at `impl_span`), and suggests `#[derive(Default)]`
/// ([`Trait::derive_attribute`]) on the declaration, with [`Trait::help`] as its message.
/// `default_trait_known` tells whether the `Default` trait could be found at all; when it
/// cannot, nothing is reported.
pub fn missing_default(default_trait_known: bool, components: &Vec<DefaultCandidate>) -> (r: Vec<
    (TraitType, Applicability),
>)
    ensures
        r@ == if default_trait_known {
            default_findings(components@)
        } else {
            Seq::empty()
        },
{
    let mut out: Vec<(TraitType, Applicability)> = Vec::new();
    if !default_trait_known {
        return out;
    }
    let mut i: usize = 0;
    while i < components.len()
        invariant
            i <= components@.len(),
            default_findings(components@.take(i as int)) == out@,
        decreases components@.len() - i,
    {
        assert(components@.take(i + 1).drop_last() =~= components@.take(i as int));
        let c = components[i];
        if !c.implements_default {
            match c.shape {
                StructShape::NotStruct => {},
                StructShape::Struct { field_count } => {
                    if field_count == 0 {
                        out.push((c.ty, Applicability::MachineApplicable));
                    }
                },
            }
        }
        i = i + 1;
        assert(default_findings(components@.take(i as int)) =~= out@);
    }
    assert(components@.take(components@.len() as int) =~= components@);
    out
}

/// The note of the `missing_default` lint, at the trait implementation.
pub fn missing_default_note() -> (r: &'static str)
    ensures
        r@ == "`Component` implemented here"@,
{
    "`Component` implemented here"
}

/// The message of the `missing_default` lint.
pub fn missing_default_message() -> (r: &'static str)
    ensures
        r@ == "defined a unit struct without a `Default` implementation"@,
{
    "defined a unit struct without a `Default` implementation"
}

/// A trait that a unit struct can always derive.
#[derive(Clone, Copy, Debug, PartialEq, Eq, Structural)]
pub enum Trait {
    Copy,
    Clone,
    Default,
}

impl Trait {
    /// The checked traits, in the order they are checked.
    pub fn all() -> (r: [Trait; 3])
        ensures
            r@ == seq![Trait::Copy, Trait::Clone, Trait::Default],
    {
        let r = [Trait::Copy, Trait::Clone, Trait::Default];
        assert(r@ =~= seq![Trait::Copy, Trait::Clone, Trait::Default]);
        r
    }

    pub open spec fn spec_name(self) -> Seq<char> {
        match self {
            Trait::Copy => "Copy"@,
            Trait::Clone => "Clone"@,
            Trait::Default => "Default"@,
        }
    }

    /// The trait's name.
    pub fn name(self) -> (r: &'static str)
        ensures
            r@ == self.spec_name(),
    {
        match self {
            Trait::Copy => "Copy",
            Trait::Clone => "Clone",
            Trait::Default => "Default",
        }
    }

    /// The name of the lint that reports a missing implementation of the trait.
    pub fn lint_name(self) -> (r: &'static str)
        ensures
            r@ == match self {
                Trait::Copy => "bevy::missing_copy"@,
                Trait::Clone => "bevy::missing_clone"@,
                Trait::Default => "bevy::missing_default"@,
            },
    {
        match self {
            Trait::Copy => "bevy::missing_copy",
            Trait::Clone => "bevy::missing_clone",
            Trait::Default => "bevy::missing_default",
        }
    }

    /// "defined a unit struct without a `{trait}` implementation"
    pub fn message(self) -> (r: String)
        ensures
            r@ == "defined a unit struct without a `"@ + self.spec_name() + "` implementation"@,
    {
        let r = concat(&["defined a unit struct without a `", self.name(), "` implementation"]);
        proof {
            reveal_with_fuel(crate::text::concat_all, 4);
        }
        r
    }

    /// "`{trait}` can be automatically derived"
    pub fn help(self) -> (r: String)
        ensures
            r@ == "`"@ + self.spec_name() + "` can be automatically derived"@,
    {
        let r = concat(&["`", self.name(), "` can be automatically derived"]);
        proof {
            reveal_with_fuel(crate::text::concat_all, 4);
        }
        r
    }

    /// The attribute that derives the trait: "#[derive({trait})]".
    pub fn derive_attribute(self) -> (r: String)
        ensures
            r@ == "#[derive("@ + self.spec_name() + ")]"@,
    {
        let r = concat(&["#[derive(", self.name(), ")]"]);
        proof {
            reveal_with_fuel(crate::text::concat_all, 4);
        }
        r
    }
}

/// An item checked by the `missing_trait_for_unit_struct` lints.
#[derive(Clone, Copy, Debug)]
pub struct UnitStructItem {
    /// The item comes from the expansion of an external macro.
    pub from_external_macro: bool,
    /// The item is a struct.
    pub is_struct: bool,
    /// The item is a unit struct, `struct Foo;`.
    pub is_unit: bool,
    /// For `Copy`, `Clone` and `Default`: `None` when the trait cannot be found, otherwise whether
    /// the struct implements it.
    pub copy: Option<bool>,
    pub clone: Option<bool>,
    pub default: Option<bool>,
}

/// The trait can be found and the struct does not implement it.
pub open spec fn lacks(status: Option<bool>) -> bool {
    status == Some(false)
}

/// The traits that the item is reported for, in the order `Copy`, `Clone`, `Default`.
pub open spec fn spec_missing_traits(item: UnitStructItem) -> Seq<Trait> {
    if item.from_external_macro || !item.is_struct || !item.is_unit {
        Seq::empty()
    } else {
        (if lacks(item.copy) {
            seq![Trait::Copy]
        } else {
            Seq::empty()
        }) + (if lacks(item.clone) {
            seq![Trait::Clone]
        } else {
            Seq::empty()
        }) + (if lacks(item.default) {
            seq![Trait::Default]
        } else {
            Seq::empty()
        })
    }
}

/// The derivable traits that a unit struct lacks.
fn missing_trait_list(item: &UnitStructItem) -> (r: Vec<Trait>)
    ensures
        r@ == spec_missing_traits(*item),
{
    let mut out: Vec<Trait> = Vec::new();
    if item.from_external_macro || !item.is_struct || !item.is_unit {
        return out;
    }
    let traits = Trait::all();
    let mut i: usize = 0;
    while i < 3
        invariant
            !item.from_external_macro && item.is_struct && item.is_unit,
            traits@ == seq![Trait::Copy, Trait::Clone, Trait::Default],
            i <= 3,
            out@ == spec_missing_traits(*item).take(
                (if i >= 1 && lacks(item.copy) { 1int } else { 0int }) + (if i >= 2 && lacks(item.clone) { 1int } else { 0int }) + (if i >= 3 && lacks(item.default) { 1int } else { 0int }),
            ),
        decreases 3 - i,
    {
        let t = traits[i];
        let status = match t {
            Trait::Copy => item.copy,
            Trait::Clone => item.clone,
            Trait::Default => item.default,
        };
        if let Some(false) = status {
            out.push(t);
        }
        i = i + 1;
        assert(out@ =~= spec_missing_traits(*item).take(
                (if i >= 1 && lacks(item.copy) { 1int } else { 0int }) + (if i >= 2 && lacks(item.clone) { 1int } else { 0int }) + (if i >= 3 && lacks(item.default) { 1int } else { 0int }),
            ));
    }
    assert(out@ =~= spec_missing_traits(*item));
    out
}

/// The place of a trait in the order in which the lints check them: `Copy`, `Clone`, `Default`.
pub open spec fn check_order(t: Trait) -> int {
    match t {
        Trait::Copy => 0,
        Trait::Clone => 1,
        Trait::Default => 2,
    }
}

/// For a unit struct that is not from an external macro, each of `Copy`, `Clone` and `Default`
/// is reported exactly when the trait can be found and the struct does not implement it
/// (`Some(false)`), each at most once and in the order `Copy`, `Clone`, `Default`. Nothing is
/// reported for an item from an external macro, or for one that is not a unit struct.
pub proof fn lemma_missing_traits_exact(item: UnitStructItem)
    ensures
        (item.from_external_macro || !item.is_struct || !item.is_unit) ==> spec_missing_traits(
            item,
        ).len() == 0,
        (!item.from_external_macro && item.is_struct && item.is_unit) ==> {
            &&& (spec_missing_traits(item).contains(Trait::Copy) <==> item.copy == Some(false))
            &&& (spec_missing_traits(item).contains(Trait::Clone) <==> item.clone == Some(false))
            &&& (spec_missing_traits(item).contains(Trait::Default) <==> item.default == Some(
                false,
            ))
        },
        forall|i: int, j: int|
            0 <= i < j < spec_missing_traits(item).len() ==> check_order(
                #[trigger] spec_missing_traits(item)[i],
            ) < check_order(#[trigger] spec_missing_traits(item)[j]),
{
    let s = spec_missing_traits(item);
    if !item.from_external_macro && item.is_struct && item.is_unit {
        let a: Seq<Trait> = if lacks(item.copy) { seq![Trait::Copy] } else { Seq::empty() };
        let b: Seq<Trait> = if lacks(item.clone) { seq![Trait::Clone] } else { Seq::empty() };
        let c: Seq<Trait> = if lacks(item.default) { seq![Trait::Default] } else { Seq::empty() };
        assert(s == a + b + c);
        assert(s.contains(Trait::Copy) ==> item.copy == Some(false)) by {
            if s.contains(Trait::Copy) {
                let k = choose|k: int| 0 <= k < s.len() && s[k] == Trait::Copy;
            }
        }
        assert(s.contains(Trait::Clone) ==> item.clone == Some(false)) by {
            if s.contains(Trait::Clone) {
                let k = choose|k: int| 0 <= k < s.len() && s[k] == Trait::Clone;
            }
        }
        assert(s.contains(Trait::Default) ==> item.default == Some(false)) by {
            if s.contains(Trait::Default) {
                let k = choose|k: int| 0 <= k < s.len() && s[k] == Trait::Default;
            }
        }
        if lacks(item.copy) {
            assert(s[0] == Trait::Copy);
        }
        if lacks(item.clone) {
            assert(s[a.len() as int] == Trait::Clone);
        }
        if lacks(item.default) {
            assert(s[(a.len() + b.len()) as int] == Trait::Default);
        }
    }
}

/// The derivable traits that a unit struct lacks, by the rules of the
/// `missing_trait_for_unit_struct` lints, each with the applicability of its
/// `#[derive(..)]` suggestion: machine-applicable, as a unit struct has no fields to hold it back.
pub fn missing_traits(item: &UnitStructItem) -> (r: Vec<(Trait, Applicability)>)
    ensures
        r@ == spec_missing_traits(*item).map_values(|t: Trait| (t, Applicability::MachineApplicable)),
{
    let traits = missing_trait_list(item);
    let mut out: Vec<(Trait, Applicability)> = Vec::new();
    let mut i: usize = 0;
    while i < traits.len()
        invariant
            i <= traits@.len(),
            out@ == traits@.take(i as int).map_values(|t: Trait| (t, Applicability::MachineApplicable)),
        decreases traits@.len() - i,
    {
        out.push((traits[i], Applicability::MachineApplicable));
        i = i + 1;
        assert(out@ =~= traits@.take(i as int).map_values(|t: Trait| (t, Applicability::MachineApplicable)));
    }
    assert(traits@.take(traits@.len() as int) =~= traits@);
    out
}

} // verus!
