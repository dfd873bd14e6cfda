//! Finds local types that implement `Event`, `Message`, `Component` or `Resource` without
//! implementing `Reflect`.

use vstd::prelude::*;

use crate::diag::Applicability;
use crate::expr::Span;
use crate::text::concat;
use vstd::std_specs::cmp::PartialEqSpecImpl;

verus! {

/// A local type that implements some trait: where it is declared and where the trait is
/// implemented.
#[derive(Clone, Copy, Debug)]
pub struct TraitType {
    /// The identity of the type's declaration.
    pub hir_id: u64,
    /// The span of the type's declaration.
    pub item_span: Span,
    /// The span of the trait implementation.
    pub impl_span: Span,
}

/// Two entries are the same type when they name the same declaration; the spans then agree too.
impl PartialEq for TraitType {
    fn eq(&self, other: &Self) -> (r: bool) {
        self.hir_id == other.hir_id
    }
}

impl PartialEqSpecImpl for TraitType {
    open spec fn obeys_eq_spec() -> bool {
        true
    }

    open spec fn eq_spec(&self, other: &Self) -> bool {
        self.hir_id == other.hir_id
    }
}

/// What the `Self` type of a trait implementation resolves to.
#[derive(Clone, Copy, Debug)]
pub enum ImplSelf {
    /// A type declared in the crate being linted.
    Local { hir_id: u64, item_span: Span },
    /// A type declared in another crate.
    Foreign,
    /// Anything that is not a path to a type declaration, such as a generic parameter.
    Unresolved,
}

/// A node recorded as an implementation of some trait.
#[derive(Clone, Copy, Debug)]
pub enum ImplNode {
    /// An `impl Trait for SelfTy` item, `&`s around `SelfTy` removed.
    Impl { impl_span: Span, self_ty: ImplSelf },
    /// Any other node.
    Other,
}

/// The local type that an implementation is for, if there is one.
pub open spec fn impl_local_type(n: ImplNode) -> Option<TraitType> {
    match n {
        ImplNode::Impl { impl_span, self_ty: ImplSelf::Local { hir_id, item_span } } => Some(
            TraitType { hir_id, item_span, impl_span },
        ),
        _ => None,
    }
}

/// The local types of a list of implementations, in order, skipping the others.
pub open spec fn local_impl_types(ns: Seq<ImplNode>) -> Seq<TraitType>
    decreases ns.len(),
{
    if ns.len() == 0 {
        Seq::empty()
    } else {
        local_impl_types(ns.drop_last()) + match impl_local_type(ns.last()) {
            Some(t) => seq![t],
            None => Seq::empty(),
        }
    }
}

impl TraitType {
    /// The local types that the given implementations of a trait are for, in order.
    pub fn from_local_crate(impls: &Vec<ImplNode>) -> (r: Vec<TraitType>)
        ensures
            r@ == local_impl_types(impls@),
    {
        let mut out: Vec<TraitType> = Vec::new();
        let mut i: usize = 0;
        while i < impls.len()
            invariant
                i <= impls@.len(),
                out@ == local_impl_types(impls@.take(i as int)),
            decreases impls@.len() - i,
        {
            assert(impls@.take(i + 1).drop_last() =~= impls@.take(i as int));
            if let ImplNode::Impl { impl_span, self_ty: ImplSelf::Local { hir_id, item_span } } = impls[i] {
                out.push(TraitType { hir_id, item_span, impl_span });
            }
            i = i + 1;
            assert(out@ =~= local_impl_types(impls@.take(i as int)));
        }
        assert(impls@.take(impls@.len() as int) =~= impls@);
        out
    }
}

/// The trait whose implementation calls for `Reflect`.
#[derive(Clone, Copy, Debug, PartialEq, Eq, Structural)]
pub enum ReflectCategory {
    Event,
    Message,
    Component,
    Resource,
}

impl ReflectCategory {
    /// The trait's name.
    pub fn trait_name(self) -> (r: &'static str)
        ensures
            r@ == self.spec_trait_name(),
    {
        match self {
            ReflectCategory::Event => "Event",
            ReflectCategory::Message => "Message",
            ReflectCategory::Component => "Component",
            ReflectCategory::Resource => "Resource",
        }
    }

    pub open spec fn spec_trait_name(self) -> Seq<char> {
        match self {
            ReflectCategory::Event => "Event"@,
            ReflectCategory::Message => "Message"@,
            ReflectCategory::Component => "Component"@,
            ReflectCategory::Resource => "Resource"@,
        }
    }

    /// How the diagnostic refers to a type of this kind.
    pub fn phrase(self) -> (r: &'static str)
        ensures
            r@ == self.spec_phrase(),
    {
        match self {
            ReflectCategory::Event => "an event",
            ReflectCategory::Message => "a message",
            ReflectCategory::Component => "a component",
            ReflectCategory::Resource => "a resource",
        }
    }

    pub open spec fn spec_phrase(self) -> Seq<char> {
        match self {
            ReflectCategory::Event => "an event"@,
            ReflectCategory::Message => "a message"@,
            ReflectCategory::Component => "a component"@,
            ReflectCategory::Resource => "a resource"@,
        }
    }

    /// The lint message for a type of this kind: "defined {phrase} without a `Reflect`
    /// implementation".
    pub fn message(self) -> (r: String)
        ensures
            r@ == "defined "@ + self.spec_phrase() + " without a `Reflect` implementation"@,
    {
        let r = concat(&["defined ", self.phrase(), " without a `Reflect` implementation"]);
        proof {
            reveal_with_fuel(crate::text::concat_all, 4);
        }
        r
    }

    /// The note placed on the trait implementation: "`{trait}` implemented here".
    pub fn note(self) -> (r: String)
        ensures
            r@ == "`"@ + self.spec_trait_name() + "` implemented here"@,
    {
        let r = concat(&["`", self.trait_name(), "` implemented here"]);
        proof {
            reveal_with_fuel(crate::text::concat_all, 4);
        }
        r
    }
}

/// The shape of a type declaration, as far as deriving `Reflect` cares.
pub enum TypeDef {
    /// A struct; for each field, whether its type implements `PartialReflect`.
    Struct { fields_partial_reflect: Vec<bool> },
    /// An enum; for each field of each variant, whether its type implements `PartialReflect`.
    Enum { fields_partial_reflect: Vec<bool> },
    /// A union, which `#[derive(Reflect)]` does not support.
    Union,
    /// Anything else. Only structs, enums and unions implement traits, so no candidate is one.
    Other,
}

/// A local type that implements one of the checked traits.
pub struct ReflectCandidate {
    pub ty: TraitType,
    /// The declaration comes from the expansion of an external macro.
    pub from_external_macro: bool,
    pub def: TypeDef,
}

/// A type that lacks `Reflect`, with how safely `#[derive(Reflect)]` can be suggested. The
/// lint points at the type's declaration ([`ReflectFinding::span`]), notes the trait
/// implementation ([`ReflectCategory::note`] at `ty.impl_span`), and suggests putting
/// [`ReflectFinding::suggestion`] on the declaration, with [`ReflectFinding::help`] as the
/// suggestion's message.
#[derive(Clone, Copy, Debug)]
pub struct ReflectFinding {
    pub ty: TraitType,
    pub category: ReflectCategory,
    pub applicability: Applicability,
}

impl ReflectFinding {
    /// Where the lint points and the suggested attribute goes: the type's declaration.
    pub fn span(&self) -> (r: Span)
        ensures
            r == self.ty.item_span,
    {
        self.ty.item_span
    }

    /// The attribute suggested on the declaration.
    pub fn suggestion(&self) -> (r: &'static str)
        ensures
            r@ == "#[derive(Reflect)]"@,
    {
        "#[derive(Reflect)]"
    }

    /// The message of the suggestion.
    pub fn help(&self) -> (r: &'static str)
        ensures
            r@ == "`Reflect` can be automatically derived"@,
    {
        "`Reflect` can be automatically derived"
    }
}

/// The type implements `Reflect`.
pub open spec fn is_reflected(reflected: Seq<TraitType>, t: TraitType) -> bool {
    exists|j: int| 0 <= j < reflected.len() && (#[trigger] reflected[j]).hir_id == t.hir_id
}

/// How safely `#[derive(Reflect)]` can be suggested: only when every field implements
/// `PartialReflect`, and never for a union.
pub open spec fn derive_applicability(d: TypeDef) -> Applicability {
    match d {
        TypeDef::Struct { fields_partial_reflect } => if forall|i: int|
            0 <= i < fields_partial_reflect@.len() ==> #[trigger] fields_partial_reflect@[i] {
            Applicability::MachineApplicable
        } else {
            Applicability::MaybeIncorrect
        },
        TypeDef::Enum { fields_partial_reflect } => if forall|i: int|
            0 <= i < fields_partial_reflect@.len() ==> #[trigger] fields_partial_reflect@[i] {
            Applicability::MachineApplicable
        } else {
            Applicability::MaybeIncorrect
        },
        _ => Applicability::MaybeIncorrect,
    }
}

/// The candidate is reported: it lacks `Reflect` and is not from an external macro.
pub open spec fn is_reported(reflected: Seq<TraitType>, c: ReflectCandidate) -> bool {
    !is_reflected(reflected, c.ty) && !c.from_external_macro
}

/// Every candidate that would be reported is a struct, enum or union.
pub open spec fn reported_are_types(reflected: Seq<TraitType>, cs: Seq<ReflectCandidate>) -> bool {
    forall|i: int| 0 <= i < cs.len() && is_reported(reflected, #[trigger] cs[i]) ==> !(cs[i].def is Other)
}

/// The findings for one trait, in the order of its candidates.
pub open spec fn category_findings(
    reflected: Seq<TraitType>,
    cs: Seq<ReflectCandidate>,
    cat: ReflectCategory,
) -> Seq<ReflectFinding>
    decreases cs.len(),
{
    if cs.len() == 0 {
        Seq::empty()
    } else {
        category_findings(reflected, cs.drop_last(), cat) + if is_reported(reflected, cs.last()) {
            seq![
                ReflectFinding {
                    ty: cs.last().ty,
                    category: cat,
                    applicability: derive_applicability(cs.last().def),
                },
            ]
        } else {
            Seq::empty()
        }
    }
}

/// The suggestion `#[derive(Reflect)]` is machine-applicable only for a struct or enum whose
/// fields all implement `PartialReflect`; for one with a field that does not, or for a union,
/// it may be incorrect.
pub proof fn lemma_derive_applicability(d: TypeDef)
    ensures
        derive_applicability(d) == Applicability::MachineApplicable ==> (d matches TypeDef::Struct {
            fields_partial_reflect,
        } || d matches TypeDef::Enum { fields_partial_reflect }),
        (d matches TypeDef::Struct { fields_partial_reflect } && forall|i: int|
            0 <= i < fields_partial_reflect@.len() ==> #[trigger] fields_partial_reflect@[i])
            ==> derive_applicability(d) == Applicability::MachineApplicable,
        (d matches TypeDef::Enum { fields_partial_reflect } && forall|i: int|
            0 <= i < fields_partial_reflect@.len() ==> #[trigger] fields_partial_reflect@[i])
            ==> derive_applicability(d) == Applicability::MachineApplicable,
        (d matches TypeDef::Struct { fields_partial_reflect } && exists|i: int|
            0 <= i < fields_partial_reflect@.len() && !#[trigger] fields_partial_reflect@[i])
            ==> derive_applicability(d) == Applicability::MaybeIncorrect,
        (d matches TypeDef::Enum { fields_partial_reflect } && exists|i: int|
            0 <= i < fields_partial_reflect@.len() && !#[trigger] fields_partial_reflect@[i])
            ==> derive_applicability(d) == Applicability::MaybeIncorrect,
        d matches TypeDef::Union ==> derive_applicability(d) == Applicability::MaybeIncorrect,
{
}

/// A finding of one trait: the candidate's type and the applicability of its suggestion.
pub open spec fn finding_of(f: ReflectFinding, c: ReflectCandidate, cat: ReflectCategory) -> bool {
    f.ty == c.ty && f.category == cat && f.applicability == derive_applicability(c.def)
}

/// The finding comes from a candidate that does not implement `Reflect` (no type with the same
/// declaration is among `reflected`) and is not declared by an external macro.
pub open spec fn from_unreflected(
    reflected: Seq<TraitType>,
    cs: Seq<ReflectCandidate>,
    cat: ReflectCategory,
    f: ReflectFinding,
) -> bool {
    exists|i: int|
        0 <= i < cs.len() && !(exists|j: int| 0 <= j < reflected.len() && reflected[j].hir_id == (
        #[trigger] cs[i]).ty.hir_id) && !cs[i].from_external_macro && finding_of(f, cs[i], cat)
}

/// For one trait, every candidate whose declaration is not among the reflected types and that
/// is not declared by an external macro is reported, wherever it stands among the candidates;
/// and every finding is such a candidate's.
pub proof fn lemma_category_findings_exact(
    reflected: Seq<TraitType>,
    cs: Seq<ReflectCandidate>,
    cat: ReflectCategory,
)
    ensures
        forall|i: int|
            0 <= i < cs.len() && !(exists|j: int| 0 <= j < reflected.len() && reflected[j].hir_id == (
            #[trigger] cs[i]).ty.hir_id) && !cs[i].from_external_macro ==> exists|x: int|
                0 <= x < category_findings(reflected, cs, cat).len() && finding_of(
                    #[trigger] category_findings(reflected, cs, cat)[x],
                    cs[i],
                    cat,
                ),
        forall|x: int|
            0 <= x < category_findings(reflected, cs, cat).len() ==> from_unreflected(
                reflected,
                cs,
                cat,
                #[trigger] category_findings(reflected, cs, cat)[x],
            ),
    decreases cs.len(),
{
    if cs.len() > 0 {
        let d = cs.drop_last();
        lemma_category_findings_exact(reflected, d, cat);
        let f = category_findings(reflected, cs, cat);
        let fd = category_findings(reflected, d, cat);
        assert forall|i: int|
            0 <= i < cs.len() && !(exists|j: int| 0 <= j < reflected.len() && reflected[j].hir_id == (
            #[trigger] cs[i]).ty.hir_id) && !cs[i].from_external_macro implies exists|x: int|
                0 <= x < f.len() && finding_of(#[trigger] f[x], cs[i], cat) by {
            if i < cs.len() - 1 {
                assert(d[i] == cs[i]);
                let x = choose|x: int| 0 <= x < fd.len() && finding_of(#[trigger] fd[x], d[i], cat);
                assert(f[x] == fd[x]);
            } else {
                assert(is_reported(reflected, cs.last()));
                assert(finding_of(f[fd.len() as int], cs[i], cat));
            }
        }
        assert forall|x: int| 0 <= x < f.len() implies from_unreflected(reflected, cs, cat, #[trigger] f[x]) by {
            if x < fd.len() {
                assert(f[x] == fd[x]);
                assert(from_unreflected(reflected, d, cat, fd[x]));
                let i = choose|i: int|
                    0 <= i < d.len() && !(exists|j: int| 0 <= j < reflected.len() && reflected[j].hir_id == (
                    #[trigger] d[i]).ty.hir_id) && !d[i].from_external_macro && finding_of(fd[x], d[i], cat);
                assert(cs[i] == d[i]);
            } else {
                let i = cs.len() - 1;
                assert(cs[i] == cs.last());
                assert(is_reported(reflected, cs[i]));
                assert(!(exists|j: int| 0 <= j < reflected.len() && reflected[j].hir_id == cs[i].ty.hir_id));
                assert(finding_of(f[x], cs[i], cat));
            }
        }
    }
}

fn is_reflected_exec(reflected: &Vec<TraitType>, t: &TraitType) -> (r: bool)
    ensures
        r == is_reflected(reflected@, *t),
{
    let mut j: usize = 0;
    while j < reflected.len()
        invariant
            j <= reflected@.len(),
            forall|k: int| 0 <= k < j ==> (#[trigger] reflected@[k]).hir_id != t.hir_id,
        decreases reflected@.len() - j,
    {
        if reflected[j].hir_id == t.hir_id {
            return true;
        }
        j = j + 1;
    }
    false
}

fn all_true(v: &Vec<bool>) -> (r: bool)
    ensures
        r == forall|i: int| 0 <= i < v@.len() ==> #[trigger] v@[i],
{
    let mut i: usize = 0;
    while i < v.len()
        invariant
            i <= v@.len(),
            forall|k: int| 0 <= k < i ==> #[trigger] v@[k],
        decreases v@.len() - i,
    {
        if !v[i] {
            return false;
        }
        i = i + 1;
    }
    true
}

/// How safely `#[derive(Reflect)]` can be suggested for a declaration.
pub fn reflect_applicability(d: &TypeDef) -> (r: Applicability)
    requires
        !(*d is Other),
    ensures
        r == derive_applicability(*d),
{
    match d {
        TypeDef::Struct { fields_partial_reflect } => if all_true(fields_partial_reflect) {
            Applicability::MachineApplicable
        } else {
            Applicability::MaybeIncorrect
        },
        TypeDef::Enum { fields_partial_reflect } => if all_true(fields_partial_reflect) {
            Applicability::MachineApplicable
        } else {
            Applicability::MaybeIncorrect
        },
        _ => Applicability::MaybeIncorrect,
    }
}

fn push_category(
    reflected: &Vec<TraitType>,
    cs: &Vec<ReflectCandidate>,
    cat: ReflectCategory,
    out: &mut Vec<ReflectFinding>,
)
    requires
        reported_are_types(reflected@, cs@),
    ensures
        final(out)@ == old(out)@ + category_findings(reflected@, cs@, cat),
{
    let mut i: usize = 0;
    while i < cs.len()
        invariant
            reported_are_types(reflected@, cs@),
            i <= cs@.len(),
            out@ == old(out)@ + category_findings(reflected@, cs@.take(i as int), cat),
        decreases cs@.len() - i,
    {
        assert(cs@.take(i + 1).drop_last() =~= cs@.take(i as int));
        let c = &cs[i];
        if !is_reflected_exec(reflected, &c.ty) && !c.from_external_macro {
            let applicability = reflect_applicability(&c.def);
            out.push(ReflectFinding { ty: c.ty, category: cat, applicability });
        }
        i = i + 1;
        assert(out@ =~= old(out)@ + category_findings(reflected@, cs@.take(i as int), cat));
    }
    assert(cs@.take(cs@.len() as int) =~= cs@);
}

/// All findings of the `missing_reflect` lint: the local events, messages, components and
/// resources (in that order) that do not implement `Reflect` and are not declared by an
/// external macro. A type that implements several of these traits is reported once for each.
pub fn missing_reflect(
    reflected: &Vec<TraitType>,
    events: &Vec<ReflectCandidate>,
    messages: &Vec<ReflectCandidate>,
    components: &Vec<ReflectCandidate>,
    resources: &Vec<ReflectCandidate>,
) -> (r: Vec<ReflectFinding>)
    requires
        reported_are_types(reflected@, events@),
        reported_are_types(reflected@, messages@),
        reported_are_types(reflected@, components@),
        reported_are_types(reflected@, resources@),
    ensures
        r@ == category_findings(reflected@, events@, ReflectCategory::Event) + category_findings(
            reflected@,
            messages@,
            ReflectCategory::Message,
        ) + category_findings(reflected@, components@, ReflectCategory::Component)
            + category_findings(reflected@, resources@, ReflectCategory::Resource),
{
    let mut out: Vec<ReflectFinding> = Vec::new();
    push_category(reflected, events, ReflectCategory::Event, &mut out);
    push_category(reflected, messages, ReflectCategory::Message, &mut out);
    push_category(reflected, components, ReflectCategory::Component, &mut out);
    push_category(reflected, resources, ReflectCategory::Resource, &mut out);
    assert(out@ =~= category_findings(reflected@, events@, ReflectCategory::Event) + category_findings(
            reflected@,
            messages@,
            ReflectCategory::Message,
        ) + category_findings(reflected@, components@, ReflectCategory::Component)
            + category_findings(reflected@, resources@, ReflectCategory::Resource));
    out
}

} // verus!
