//! Finds calls of panicking methods of `Query` and `World` for which a non-panicking alternative
//! exists, and builds the suggested replacement call.

use vstd::prelude::*;
use vstd::string::*;

use crate::expr::MethodCall;
use crate::paths::BevyPath;
use crate::text::{concat, concat2, concat3, str_eq, to_owned};
use crate::ty::Ty;

verus! {

/// A type with panicking methods that have non-panicking alternatives.
#[derive(Clone, Copy, Debug, PartialEq, Eq, Structural)]
pub enum PanickingType {
    Query,
    World,
}

/// The panicking methods and their alternatives of each type.
pub open spec fn spec_alternatives(t: PanickingType) -> Seq<(Seq<char>, Seq<char>)> {
    match t {
        PanickingType::Query => seq![("many"@, "get_many"@), ("many_mut"@, "get_many_mut"@)],
        PanickingType::World => seq![
            ("entity"@, "get_entity"@),
            ("entity_mut"@, "get_entity_mut"@),
            ("resource"@, "get_resource"@),
            ("resource_mut"@, "get_resource_mut"@),
            ("resource_ref"@, "get_resource_ref"@),
            ("non_send_resource"@, "get_non_send_resource"@),
            ("non_send_resource_mut"@, "get_non_send_resource_mut"@),
            ("run_schedule"@, "try_run_schedule"@),
            ("schedule_scope"@, "try_schedule_scope"@),
        ],
    }
}

/// Each alternative is its panicking method's name with `get_` or `try_` in front.
pub open spec fn prefixed_alternatives(alts: Seq<(Seq<char>, Seq<char>)>) -> bool {
    forall|i: int|
        0 <= i < alts.len() ==> #[trigger] alts[i].1 == "get_"@ + alts[i].0 || alts[i].1 == "try_"@
            + alts[i].0
}

/// No panicking method occurs twice.
pub open spec fn distinct_methods(alts: Seq<(Seq<char>, Seq<char>)>) -> bool {
    forall|i: int, j: int| 0 <= i < j < alts.len() ==> #[trigger] alts[i].0 != #[trigger] alts[j].0
}

/// For each type the list of panicking methods is not empty, every alternative is the
/// panicking method's name with `get_` or `try_` in front (so it never is the panicking method
/// itself), and no panicking method occurs twice, so each one maps to exactly one alternative.
pub proof fn lemma_alternatives_well_formed(t: PanickingType)
    ensures
        spec_alternatives(t).len() > 0,
        prefixed_alternatives(spec_alternatives(t)),
        forall|i: int|
            0 <= i < spec_alternatives(t).len() ==> #[trigger] spec_alternatives(t)[i].1
                != spec_alternatives(t)[i].0,
        distinct_methods(spec_alternatives(t)),
{
    reveal_strlit("get_");
    reveal_strlit("try_");
    reveal_strlit("many");
    reveal_strlit("get_many");
    reveal_strlit("many_mut");
    reveal_strlit("get_many_mut");
    reveal_strlit("entity");
    reveal_strlit("get_entity");
    reveal_strlit("entity_mut");
    reveal_strlit("get_entity_mut");
    reveal_strlit("resource");
    reveal_strlit("get_resource");
    reveal_strlit("resource_mut");
    reveal_strlit("get_resource_mut");
    reveal_strlit("resource_ref");
    reveal_strlit("get_resource_ref");
    reveal_strlit("non_send_resource");
    reveal_strlit("get_non_send_resource");
    reveal_strlit("non_send_resource_mut");
    reveal_strlit("get_non_send_resource_mut");
    reveal_strlit("run_schedule");
    reveal_strlit("try_run_schedule");
    reveal_strlit("schedule_scope");
    reveal_strlit("try_schedule_scope");
    let alts = spec_alternatives(t);
    assert forall|i: int| 0 <= i < alts.len() implies #[trigger] alts[i].1 == "get_"@ + alts[i].0
        || alts[i].1 == "try_"@ + alts[i].0 by {
        let p = alts[i];
        assert(p.1 =~= "get_"@ + p.0 || p.1 =~= "try_"@ + p.0);
    }
    assert forall|i: int| 0 <= i < alts.len() implies #[trigger] alts[i].1 != alts[i].0 by {
        assert(alts[i].1.len() == alts[i].0.len() + 4);
    }
    assert forall|i: int, j: int| 0 <= i < j < alts.len() implies #[trigger] alts[i].0 != #[trigger] alts[j].0 by {
        let a = alts[i].0;
        let b = alts[j].0;
        if a.len() == b.len() {
            assert(a[1] != b[1] || a[9] != b[9]);
        }
    }
}

/// The alternative of the first entry in `alts` whose panicking method is `method`.
pub open spec fn first_alternative(alts: Seq<(Seq<char>, Seq<char>)>, method: Seq<char>) -> Option<
    Seq<char>,
>
    decreases alts.len(),
{
    if alts.len() == 0 {
        None
    } else if alts[0].0 == method {
        Some(alts[0].1)
    } else {
        first_alternative(alts.drop_first(), method)
    }
}

/// The pairs of string slices as character sequences.
pub open spec fn pairs_view(v: Seq<(&str, &str)>) -> Seq<(Seq<char>, Seq<char>)> {
    v.map_values(|p: (&str, &str)| (p.0@, p.1@))
}

impl PanickingType {
    /// The type that `t` is, if it is one with panicking methods: `Query`, else `World`.
    pub open spec fn spec_try_from_ty(t: Ty) -> Option<PanickingType> {
        if t.is_bevy(BevyPath::Query) {
            Some(PanickingType::Query)
        } else if t.is_bevy(BevyPath::World) {
            Some(PanickingType::World)
        } else {
            None
        }
    }

    /// The type that `ty` is, if it is one with panicking methods.
    pub fn try_from_ty(ty: &Ty) -> (r: Option<PanickingType>)
        ensures
            r == Self::spec_try_from_ty(*ty),
    {
        if ty.matches(BevyPath::Query) {
            Some(PanickingType::Query)
        } else if ty.matches(BevyPath::World) {
            Some(PanickingType::World)
        } else {
            None
        }
    }

    pub open spec fn spec_name(self) -> Seq<char> {
        match self {
            PanickingType::Query => "Query"@,
            PanickingType::World => "World"@,
        }
    }

    /// The type's name.
    pub fn name(&self) -> (r: &'static str)
        ensures
            r@ == self.spec_name(),
    {
        match self {
            PanickingType::Query => "Query",
            PanickingType::World => "World",
        }
    }

    /// The panicking methods of the type, each with its non-panicking alternative.
    pub fn alternatives(&self) -> (r: Vec<(&'static str, &'static str)>)
        ensures
            pairs_view(r@) == spec_alternatives(*self),
    {
        let r = match self {
            PanickingType::Query => vec![("many", "get_many"), ("many_mut", "get_many_mut")],
            PanickingType::World => vec![
                ("entity", "get_entity"),
                ("entity_mut", "get_entity_mut"),
                ("resource", "get_resource"),
                ("resource_mut", "get_resource_mut"),
                ("resource_ref", "get_resource_ref"),
                ("non_send_resource", "get_non_send_resource"),
                ("non_send_resource_mut", "get_non_send_resource_mut"),
                ("run_schedule", "try_run_schedule"),
                ("schedule_scope", "try_schedule_scope"),
            ],
        };
        assert(pairs_view(r@) =~= spec_alternatives(*self));
        r
    }

    /// The non-panicking alternative of the method `method`, if it is one of the type's
    /// panicking methods.
    pub fn alternative_for(&self, method: &str) -> (r: Option<&'static str>)
        ensures
            match r {
                Some(a) => first_alternative(spec_alternatives(*self), method@) == Some(a@),
                None => first_alternative(spec_alternatives(*self), method@) is None,
            },
    {
        let alts = self.alternatives();
        let mut i: usize = 0;
        assert(pairs_view(alts@).skip(0) =~= pairs_view(alts@));
        while i < alts.len()
            invariant
                pairs_view(alts@) == spec_alternatives(*self),
                i <= alts@.len(),
                first_alternative(spec_alternatives(*self), method@) == first_alternative(
                    pairs_view(alts@).skip(i as int),
                    method@,
                ),
            decreases alts@.len() - i,
        {
            let (panicking, alternative) = alts[i];
            assert(pairs_view(alts@).skip(i as int)[0] == (panicking@, alternative@));
            assert(pairs_view(alts@).skip(i as int).drop_first() =~= pairs_view(alts@).skip(
                i + 1,
            ));
            if str_eq(panicking, method) {
                return Some(alternative);
            }
            i = i + 1;
        }
        assert(pairs_view(alts@).skip(i as int) =~= Seq::<(Seq<char>, Seq<char>)>::empty());
        None
    }

    /// "called a `{type}` method that can panic when a non-panicking alternative exists"
    pub fn message(&self) -> (r: String)
        ensures
            r@ == "called a `"@ + self.spec_name()
                + "` method that can panic when a non-panicking alternative exists"@,
    {
        let r = concat(
            &[
                "called a `",
                self.name(),
                "` method that can panic when a non-panicking alternative exists",
            ],
        );
        proof {
            reveal_with_fuel(crate::text::concat_all, 4);
        }
        r
    }
}

/// A call of a panicking method: the receiver's type and the alternative to suggest.
pub open spec fn spec_panicking_call(
    parts: (Seq<char>, crate::expr::Expr, Seq<crate::expr::Expr>, crate::expr::Span, bool),
    in_external_macro: bool,
) -> Option<(PanickingType, Seq<char>)> {
    if in_external_macro {
        None
    } else {
        match PanickingType::spec_try_from_ty(parts.1.ty.peeled()) {
            None => None,
            Some(t) => match first_alternative(spec_alternatives(t), parts.0) {
                None => None,
                Some(a) => Some((t, a)),
            },
        }
    }
}

/// The first alternative for `m` is that of the first entry whose method is `m`, and there is
/// none when no entry's method is `m`.
pub proof fn lemma_first_alternative_found(alts: Seq<(Seq<char>, Seq<char>)>, m: Seq<char>)
    ensures
        (forall|j: int| 0 <= j < alts.len() ==> (#[trigger] alts[j]).0 != m) ==> first_alternative(
            alts,
            m,
        ) is None,
        forall|k: int|
            0 <= k < alts.len() && (#[trigger] alts[k]).0 == m && (forall|j: int|
                0 <= j < k ==> (#[trigger] alts[j]).0 != m) ==> first_alternative(alts, m) == Some(
                alts[k].1,
            ),
    decreases alts.len(),
{
    if alts.len() > 0 {
        let d = alts.drop_first();
        lemma_first_alternative_found(d, m);
        if forall|j: int| 0 <= j < alts.len() ==> (#[trigger] alts[j]).0 != m {
            assert forall|j: int| 0 <= j < d.len() implies (#[trigger] d[j]).0 != m by {
                assert(d[j] == alts[j + 1]);
            }
        }
        assert forall|k: int|
            0 <= k < alts.len() && (#[trigger] alts[k]).0 == m && (forall|j: int|
                0 <= j < k ==> (#[trigger] alts[j]).0 != m) implies first_alternative(alts, m) == Some(
            alts[k].1,
        ) by {
            if k > 0 {
                assert(alts[0].0 != m);
                assert(d[k - 1] == alts[k]);
                assert forall|j: int| 0 <= j < k - 1 implies (#[trigger] d[j]).0 != m by {
                    assert(d[j] == alts[j + 1]);
                }
            }
        }
    }
}

/// Which calls the `panicking_methods` lint reports, and with which alternative: on a receiver
/// whose type, references removed, is `Query`, the methods `many` and `many_mut`; on `World`,
/// the methods `entity`, `entity_mut`, `resource`, `resource_mut`, `resource_ref`,
/// `non_send_resource`, `non_send_resource_mut`, `run_schedule` and `schedule_scope`; each with
/// its `get_` or `try_` alternative. Nothing else is reported, and nothing from an external
/// macro.
pub proof fn lemma_panicking_calls(
    method: Seq<char>,
    receiver: crate::expr::Expr,
    args: Seq<crate::expr::Expr>,
    span: crate::expr::Span,
    fully_qualified: bool,
    in_external_macro: bool,
)
    ensures
        ({
            let r = spec_panicking_call((method, receiver, args, span, fully_qualified), in_external_macro);
            &&& in_external_macro ==> r is None
            &&& !in_external_macro && receiver.ty.peeled().is_bevy(BevyPath::Query) ==> {
                &&& method == "many"@ ==> r == Some((PanickingType::Query, "get_many"@))
                &&& method == "many_mut"@ ==> r == Some((PanickingType::Query, "get_many_mut"@))
                &&& !(method == "many"@ || method == "many_mut"@) ==> r is None
            }
            &&& !in_external_macro && receiver.ty.peeled().is_bevy(BevyPath::World) ==> {
                &&& method == "entity"@ ==> r == Some((PanickingType::World, "get_entity"@))
                &&& method == "entity_mut"@ ==> r == Some((PanickingType::World, "get_entity_mut"@))
                &&& method == "resource"@ ==> r == Some((PanickingType::World, "get_resource"@))
                &&& method == "resource_mut"@ ==> r == Some((PanickingType::World, "get_resource_mut"@))
                &&& method == "resource_ref"@ ==> r == Some((PanickingType::World, "get_resource_ref"@))
                &&& method == "non_send_resource"@ ==> r == Some((PanickingType::World, "get_non_send_resource"@))
                &&& method == "non_send_resource_mut"@ ==> r == Some((PanickingType::World, "get_non_send_resource_mut"@))
                &&& method == "run_schedule"@ ==> r == Some((PanickingType::World, "try_run_schedule"@))
                &&& method == "schedule_scope"@ ==> r == Some((PanickingType::World, "try_schedule_scope"@))
                &&& !(method == "entity"@ || method == "entity_mut"@ || method == "resource"@ || method == "resource_mut"@ || method == "resource_ref"@ || method == "non_send_resource"@ || method == "non_send_resource_mut"@ || method == "run_schedule"@ || method == "schedule_scope"@) ==> r is None
            }
            &&& !receiver.ty.peeled().is_bevy(BevyPath::Query) && !receiver.ty.peeled().is_bevy(
                BevyPath::World,
            ) ==> r is None
        }),
{
    crate::ty::lemma_is_bevy_unique(receiver.ty.peeled());
    lemma_alternatives_well_formed(PanickingType::Query);
    lemma_alternatives_well_formed(PanickingType::World);
    let q = spec_alternatives(PanickingType::Query);
    let w = spec_alternatives(PanickingType::World);
    lemma_first_alternative_found(q, method);
    lemma_first_alternative_found(w, method);
    assert forall|k: int| 0 <= k < q.len() && (#[trigger] q[k]).0 == method implies forall|j: int|
        0 <= j < k ==> (#[trigger] q[j]).0 != method by {
        assert forall|j: int| 0 <= j < k implies (#[trigger] q[j]).0 != method by {
            assert(distinct_methods(q));
            assert(q[j].0 != q[k].0);
        }
    }
    assert forall|k: int| 0 <= k < w.len() && (#[trigger] w[k]).0 == method implies forall|j: int|
        0 <= j < k ==> (#[trigger] w[j]).0 != method by {
        assert forall|j: int| 0 <= j < k implies (#[trigger] w[j]).0 != method by {
            assert(distinct_methods(w));
            assert(w[j].0 != w[k].0);
        }
    }
    assert(q[0].0 == "many"@ && q[1].0 == "many_mut"@);
    assert(w[0].0 == "entity"@ && w[1].0 == "entity_mut"@ && w[2].0 == "resource"@);
    assert(w[3].0 == "resource_mut"@ && w[4].0 == "resource_ref"@ && w[5].0 == "non_send_resource"@);
    assert(w[6].0 == "non_send_resource_mut"@ && w[7].0 == "run_schedule"@ && w[8].0 == "schedule_scope"@);
}

/// Recognises the call of a panicking method that has a non-panicking alternative, by the
/// rules of the `panicking_methods` lint. `in_external_macro` tells whether the expression comes
/// from the expansion of an external macro.
pub fn panicking_call(call: &MethodCall, in_external_macro: bool) -> (r: Option<
    (PanickingType, &'static str),
>)
    ensures
        match r {
            Some((t, a)) => spec_panicking_call(call.parts(), in_external_macro) == Some((t, a@)),
            None => spec_panicking_call(call.parts(), in_external_macro) is None,
        },
{
    if in_external_macro {
        return None;
    }
    let t = match PanickingType::try_from_ty(call.receiver.ty.peel_refs()) {
        Some(t) => t,
        None => {
            return None;
        },
    };
    match t.alternative_for(call.method_name.as_str()) {
        Some(a) => Some((t, a)),
        None => None,
    }
}

/// The text in front of the alternative method in the suggestion: `Type::` for a fully
/// qualified call, otherwise the receiver's source followed by `.` (or `Type::` when the source
/// is not available).
pub open spec fn spec_source_prefix(t: PanickingType, fully_qualified: bool, receiver: Option<Seq<char>>) -> Seq<char> {
    if fully_qualified {
        t.spec_name() + "::"@
    } else {
        match receiver {
            Some(s) => s + "."@,
            None => t.spec_name() + "::"@,
        }
    }
}

/// The arguments of the suggested call: for a fully qualified call the receiver comes first,
/// joined to any further arguments by ", ".
pub open spec fn spec_call_args(fully_qualified: bool, receiver: Option<Seq<char>>, args: Seq<char>) -> Seq<char> {
    if fully_qualified {
        let recv = match receiver {
            Some(s) => s,
            None => Seq::empty(),
        };
        if args.len() == 0 {
            recv
        } else {
            recv + ", "@ + args
        }
    } else {
        args
    }
}

/// The help of the `panicking_methods` lint, which usually reads like
/// "use `query.get_many([e1, e2])` and handle the `Option` or `Result`".
///
/// `receiver` is the source of the receiver, `None` when it is not available; `generics` is the
/// source of the method's generic arguments with a leading `::` (or empty); `args` is the source
/// of the arguments after the receiver (or empty).
pub fn panicking_help(
    t: PanickingType,
    alternative: &str,
    fully_qualified: bool,
    receiver: Option<&str>,
    generics: &str,
    args: &str,
) -> (r: String)
    ensures
        r@ == "use `"@ + spec_source_prefix(
            t,
            fully_qualified,
            match receiver {
                Some(s) => Some(s@),
                None => None,
            },
        ) + alternative@ + generics@ + "("@ + spec_call_args(
            fully_qualified,
            match receiver {
                Some(s) => Some(s@),
                None => None,
            },
            args@,
        ) + ")` and handle the `Option` or `Result`"@,
{
    let ghost rv = match receiver {
        Some(s) => Some(s@),
        None => None,
    };
    let prefix: String = if fully_qualified {
        concat2(t.name(), "::")
    } else {
        match receiver {
            Some(s) => concat2(s, "."),
            None => concat2(t.name(), "::"),
        }
    };
    assert(prefix@ == spec_source_prefix(t, fully_qualified, rv));
    let call_args: String = if fully_qualified {
        let recv = match receiver {
            Some(s) => s,
            None => "",
        };
        if args.unicode_len() == 0 {
            to_owned(recv)
        } else {
            concat3(recv, ", ", args)
        }
    } else {
        to_owned(args)
    };
    proof {
        if fully_qualified && receiver is None {
            reveal_strlit("");
        }
    }
    assert(call_args@ == spec_call_args(fully_qualified, rv, args@));
    let head = concat3("use `", prefix.as_str(), alternative);
    let mid = concat3(generics, "(", call_args.as_str());
    let r = concat3(head.as_str(), mid.as_str(), ")` and handle the `Option` or `Result`");
    assert(r@ =~= "use `"@ + prefix@ + alternative@ + generics@ + "("@ + call_args@
        + ")` and handle the `Option` or `Result`"@);
    r
}

/// The non-panicking alternative of `method` in a table of panicking methods, if it is one.
fn lookup_alternative(alts: &Vec<(&'static str, &'static str)>, method: &str) -> (r: Option<&'static str>)
    ensures
        match r {
            Some(a) => first_alternative(pairs_view(alts@), method@) == Some(a@),
            None => first_alternative(pairs_view(alts@), method@) is None,
        },
{
    let mut i: usize = 0;
    assert(pairs_view(alts@).skip(0) =~= pairs_view(alts@));
    while i < alts.len()
        invariant
            i <= alts@.len(),
            first_alternative(pairs_view(alts@), method@) == first_alternative(
                pairs_view(alts@).skip(i as int),
                method@,
            ),
        decreases alts@.len() - i,
    {
        let (panicking, alternative) = alts[i];
        assert(pairs_view(alts@).skip(i as int)[0] == (panicking@, alternative@));
        assert(pairs_view(alts@).skip(i as int).drop_first() =~= pairs_view(alts@).skip(i + 1));
        if str_eq(panicking, method) {
            return Some(alternative);
        }
        i = i + 1;
    }
    assert(pairs_view(alts@).skip(i as int) =~= Seq::<(Seq<char>, Seq<char>)>::empty());
    None
}

/// The panicking `Query` methods that the `panicking_query_methods` lint knows, each with its
/// alternative.
pub open spec fn spec_query_alternatives() -> Seq<(Seq<char>, Seq<char>)> {
    seq![
        ("single"@, "get_single"@),
        ("single_mut"@, "get_single_mut"@),
        ("many"@, "get_many"@),
        ("many_mut"@, "get_many_mut"@),
    ]
}

/// The panicking `Query` methods that the `panicking_query_methods` lint knows, each with its
/// alternative.
pub fn query_alternatives() -> (r: Vec<(&'static str, &'static str)>)
    ensures
        pairs_view(r@) == spec_query_alternatives(),
{
    let r = vec![
        ("single", "get_single"),
        ("single_mut", "get_single_mut"),
        ("many", "get_many"),
        ("many_mut", "get_many_mut"),
    ];
    assert(pairs_view(r@) =~= spec_query_alternatives());
    r
}

/// The description of the `panicking_query_methods` lint, which is also its message.
pub fn panicking_query_methods_description() -> (r: &'static str)
    ensures
        r@ == "called a `Query` method that can panic when a non-panicking alternative exists"@,
{
    "called a `Query` method that can panic when a non-panicking alternative exists"
}

/// The alternative to suggest for a call `query.method(..)`, by the rules of the
/// `panicking_query_methods` lint: only the method-call form is inspected, and the receiver's
/// type must be (a reference to) `Query`.
pub fn panicking_query_method(call: &MethodCall) -> (r: Option<&'static str>)
    ensures
        match r {
            Some(a) => !call.is_fully_qualified && call.receiver.ty.peeled().is_bevy(BevyPath::Query)
                && first_alternative(spec_query_alternatives(), call.method_name@) == Some(a@),
            None => call.is_fully_qualified || !call.receiver.ty.peeled().is_bevy(BevyPath::Query)
                || first_alternative(spec_query_alternatives(), call.method_name@) is None,
        },
{
    if call.is_fully_qualified || !call.receiver.ty.peel_refs().matches(BevyPath::Query) {
        return None;
    }
    let alts = query_alternatives();
    lookup_alternative(&alts, call.method_name.as_str())
}

/// The help of the `panicking_query_methods` lint: "use `{receiver}.{alternative}({args})` and
/// handle the `Result`", with `Query::` in place of the receiver when its source is not
/// available.
pub fn panicking_query_help(receiver: Option<&str>, alternative: &str, args: &str) -> (r: String)
    ensures
        r@ == "use `"@ + match receiver {
            Some(s) => s@ + "."@,
            None => "Query::"@,
        } + alternative@ + "("@ + args@ + ")` and handle the `Result`"@,
{
    let prefix: String = match receiver {
        Some(s) => concat2(s, "."),
        None => to_owned("Query::"),
    };
    let r = concat(&["use `", prefix.as_str(), alternative, "(", args, ")` and handle the `Result`"]);
    proof {
        reveal_with_fuel(crate::text::concat_all, 7);
    }
    r
}

} // verus!
