//! Finds systems added to the `FixedUpdate` schedule that mutably query components of entities
//! that carry a `Camera`.
//!
//! A call `app.add_systems(FixedUpdate, systems)` is inspected. `systems` is either one system or
//! a tuple of systems. For every system that is a path to a function, each parameter of type
//! `Query<D, F>` is examined: when `D` borrows something mutably and `F` holds a `With<Camera>`
//! filter, one finding is reported on the system for every such filter. Every query parameter of
//! every system is examined; a query whose data is neither a reference nor a tuple, such as
//! `Query<Entity>`, or that lacks its two type arguments, contributes nothing.

use vstd::prelude::*;

use crate::expr::{Expr, ExprKind, MethodCall};
use crate::paths::BevyPath;
use crate::text::str_eq;
use crate::ty::Ty;

verus! {

/// The lint's description.
pub fn description() -> (r: &'static str)
    ensures
        r@ == "Camera modification in FixedUpdate schedule"@,
{
    "Camera modification in FixedUpdate schedule"
}

/// The help attached to each finding.
pub fn help() -> (r: &'static str)
    ensures
        r@ == "Put System in Update instead"@,
{
    "Put System in Update instead"
}

/// Whether the queried data `D` borrows something mutably; `None` when `D` is neither a tuple
/// nor a reference.
pub open spec fn data_any_mut(data: Ty) -> Option<bool> {
    match data {
        Ty::Tuple(items) => Some(seq_any_mut(items@)),
        Ty::Ref { mutable, .. } => Some(mutable),
        _ => None,
    }
}

/// Some type of the sequence is `&mut T` for some `T`.
pub open spec fn seq_any_mut(s: Seq<Ty>) -> bool {
    exists|i: int| 0 <= i < s.len() && is_mut_ref(#[trigger] s[i])
}

/// The type is `&mut T` for some `T`.
pub open spec fn is_mut_ref(t: Ty) -> bool {
    match t {
        Ty::Ref { mutable, .. } => mutable,
        _ => false,
    }
}

/// The filters of a query: the items of a tuple, or the single filter otherwise.
pub open spec fn query_filters(f: Ty) -> Seq<Ty> {
    match f {
        Ty::Tuple(items) => items@,
        _ => seq![f],
    }
}

/// The filter is `With<Camera>`.
pub open spec fn is_with_camera(f: Ty) -> bool {
    &&& f.is_bevy(BevyPath::With)
    &&& f matches Ty::Adt { args, .. }
    &&& args@.len() > 0
    &&& args@[0].is_bevy(BevyPath::Camera)
}

/// How many of the filters are `With<Camera>`.
pub open spec fn count_camera_filters(fs: Seq<Ty>) -> nat
    decreases fs.len(),
{
    if fs.len() == 0 {
        0
    } else {
        count_camera_filters(fs.drop_last()) + if is_with_camera(fs.last()) {
            1nat
        } else {
            0nat
        }
    }
}

/// How many findings one parameter of a system contributes: one for every `With<Camera>` filter
/// of a `Query` whose data borrows something mutably, and none for any other parameter.
pub open spec fn param_findings(p: Ty) -> nat {
    match p {
        Ty::Adt { args, .. } => if !p.is_bevy(BevyPath::Query) || args@.len() < 2 {
            0
        } else {
            match data_any_mut(args@[0]) {
                Some(true) => count_camera_filters(query_filters(args@[1])),
                _ => 0,
            }
        },
        _ => 0,
    }
}

/// The findings of a list of parameters.
pub open spec fn params_findings(ps: Seq<Ty>) -> nat
    decreases ps.len(),
{
    if ps.len() == 0 {
        0
    } else {
        params_findings(ps.drop_last()) + param_findings(ps.last())
    }
}

/// The findings of one system expression: those of its parameters when it is a path to a
/// function.
pub open spec fn system_findings(e: Expr) -> nat {
    match e.kind {
        ExprKind::Path { fn_params: Some(ps) } => params_findings(ps@),
        _ => 0,
    }
}

/// The systems named by the second argument of `add_systems`.
pub open spec fn system_exprs(e: Expr) -> Seq<Expr> {
    match e.kind {
        ExprKind::Tup(items) => items@,
        _ => seq![e],
    }
}

/// The findings over a list of systems, each the id of the system reported on, in order.
pub open spec fn scan_systems(s: Seq<Expr>) -> Seq<u64>
    decreases s.len(),
{
    if s.len() == 0 {
        seq![]
    } else {
        scan_systems(s.drop_last()) + Seq::new(system_findings(s.last()), |_i: int| s.last().id)
    }
}

/// All findings of the lint on a method call named `method` with arguments `args`.
pub open spec fn spec_camera_findings(method: Seq<char>, args: Seq<Expr>) -> Seq<u64> {
    if method != "add_systems"@ || args.len() < 1 || !args[0].ty.peeled().is_bevy(
        BevyPath::FixedUpdate,
    ) || args.len() < 2 {
        seq![]
    } else {
        scan_systems(system_exprs(args[1]))
    }
}

/// What "the queried data borrows something mutably" means: for a tuple, some item at any
/// position is `&mut T`; for a reference, it is `&mut`. Any other data is not inspected.
pub proof fn lemma_query_data_mutability(data: Ty)
    ensures
        match data {
            Ty::Tuple(items) => data_any_mut(data) == Some(
                exists|k: int| 0 <= k < items@.len() && (#[trigger] items@[k] matches Ty::Ref {
                    mutable: true,
                    ..
                }),
            ),
            Ty::Ref { mutable, .. } => data_any_mut(data) == Some(mutable),
            _ => data_any_mut(data) is None,
        },
{
    if let Ty::Tuple(items) = data {
        if seq_any_mut(items@) {
            let k = choose|k: int| 0 <= k < items@.len() && is_mut_ref(#[trigger] items@[k]);
            assert(items@[k] matches Ty::Ref { mutable: true, .. });
        }
        if exists|k: int| 0 <= k < items@.len() && (#[trigger] items@[k] matches Ty::Ref {
            mutable: true,
            ..
        }) {
            let k = choose|k: int| 0 <= k < items@.len() && (#[trigger] items@[k] matches Ty::Ref {
                mutable: true,
                ..
            });
            assert(is_mut_ref(items@[k]));
        }
    }
}

/// A list of filters counts at least one `With<Camera>` exactly when one of them, at any
/// position, is `With<C>` for the Bevy `Camera` type `C`.
pub proof fn lemma_camera_filter_found(fs: Seq<Ty>)
    ensures
        count_camera_filters(fs) > 0 <==> exists|j: int|
            0 <= j < fs.len() && (#[trigger] fs[j]).is_bevy(BevyPath::With) && (fs[j] matches Ty::Adt {
                args,
                ..
            } && args@.len() > 0 && args@[0].is_bevy(BevyPath::Camera)),
    decreases fs.len(),
{
    if fs.len() > 0 {
        lemma_camera_filter_found(fs.drop_last());
        let d = fs.drop_last();
        if exists|j: int|
            0 <= j < d.len() && (#[trigger] d[j]).is_bevy(BevyPath::With) && (d[j] matches Ty::Adt {
                args,
                ..
            } && args@.len() > 0 && args@[0].is_bevy(BevyPath::Camera)) {
            let j = choose|j: int|
                0 <= j < d.len() && (#[trigger] d[j]).is_bevy(BevyPath::With) && (d[j] matches Ty::Adt {
                    args,
                    ..
                } && args@.len() > 0 && args@[0].is_bevy(BevyPath::Camera));
            assert(fs[j] == d[j]);
        }
        if exists|j: int|
            0 <= j < fs.len() && (#[trigger] fs[j]).is_bevy(BevyPath::With) && (fs[j] matches Ty::Adt {
                args,
                ..
            } && args@.len() > 0 && args@[0].is_bevy(BevyPath::Camera)) {
            let j = choose|j: int|
                0 <= j < fs.len() && (#[trigger] fs[j]).is_bevy(BevyPath::With) && (fs[j] matches Ty::Adt {
                    args,
                    ..
                } && args@.len() > 0 && args@[0].is_bevy(BevyPath::Camera));
            if j < fs.len() - 1 {
                assert(d[j] == fs[j]);
            } else {
                assert(is_with_camera(fs.last()));
            }
        }
    }
}

/// A parameter `Query<D, F>` is reported exactly when `D` borrows something mutably (some item
/// of a tuple, at any position, is `&mut T`, or `D` itself is `&mut T`) and some filter of `F`
/// (an item of a tuple, or `F` itself) is `With<Camera>`. No other parameter is reported.
pub proof fn lemma_query_param_reported(p: Ty)
    ensures
        param_findings(p) > 0 <==> (p matches Ty::Adt { args, .. } && p.is_bevy(BevyPath::Query)
            && args@.len() >= 2 && (match args@[0] {
            Ty::Tuple(items) => exists|k: int|
                0 <= k < items@.len() && (#[trigger] items@[k] matches Ty::Ref { mutable: true, .. }),
            Ty::Ref { mutable, .. } => mutable,
            _ => false,
        }) && exists|j: int|
            0 <= j < query_filters(args@[1]).len() && (#[trigger] query_filters(args@[1])[j]).is_bevy(
                BevyPath::With,
            ) && (query_filters(args@[1])[j] matches Ty::Adt { args: wa, .. } && wa@.len() > 0
                && wa@[0].is_bevy(BevyPath::Camera))),
{
    if let Ty::Adt { args, .. } = p {
        if args@.len() >= 2 {
            lemma_query_data_mutability(args@[0]);
            lemma_camera_filter_found(query_filters(args@[1]));
        }
    }
}

/// The findings of a list of parameters are not empty exactly when some parameter is reported.
pub proof fn lemma_params_reported(ps: Seq<Ty>)
    ensures
        params_findings(ps) > 0 <==> exists|i: int| 0 <= i < ps.len() && param_findings(#[trigger] ps[i]) > 0,
    decreases ps.len(),
{
    if ps.len() > 0 {
        lemma_params_reported(ps.drop_last());
        let d = ps.drop_last();
        if exists|i: int| 0 <= i < d.len() && param_findings(#[trigger] d[i]) > 0 {
            let i = choose|i: int| 0 <= i < d.len() && param_findings(#[trigger] d[i]) > 0;
            assert(ps[i] == d[i]);
        }
        if exists|i: int| 0 <= i < ps.len() && param_findings(#[trigger] ps[i]) > 0 {
            let i = choose|i: int| 0 <= i < ps.len() && param_findings(#[trigger] ps[i]) > 0;
            if i < ps.len() - 1 {
                assert(d[i] == ps[i]);
            }
        }
    }
}

/// The findings over a list of systems name only systems of the list, and name each system that
/// has findings of its own.
pub proof fn lemma_scan_names_reported_systems(s: Seq<Expr>)
    ensures
        forall|i: int| 0 <= i < s.len() && system_findings(#[trigger] s[i]) > 0 ==> scan_systems(s).contains(s[i].id),
        forall|x: int| #![trigger scan_systems(s)[x]] 0 <= x < scan_systems(s).len() ==> exists|i: int|
            0 <= i < s.len() && (#[trigger] s[i]).id == scan_systems(s)[x] && system_findings(s[i]) > 0,
    decreases s.len(),
{
    if s.len() > 0 {
        let d = s.drop_last();
        lemma_scan_names_reported_systems(d);
        let tail = Seq::new(system_findings(s.last()), |_i: int| s.last().id);
        assert(scan_systems(s) == scan_systems(d) + tail);
        assert forall|i: int| 0 <= i < s.len() && system_findings(#[trigger] s[i]) > 0 implies scan_systems(s).contains(s[i].id) by {
            if i < s.len() - 1 {
                assert(d[i] == s[i]);
                let x = choose|x: int| 0 <= x < scan_systems(d).len() && scan_systems(d)[x] == d[i].id;
                assert(scan_systems(s)[x] == s[i].id);
            } else {
                assert(scan_systems(s)[scan_systems(d).len() as int] == s[i].id);
            }
        }
        assert forall|x: int| #![trigger scan_systems(s)[x]] 0 <= x < scan_systems(s).len() implies exists|i: int|
            0 <= i < s.len() && (#[trigger] s[i]).id == scan_systems(s)[x] && system_findings(s[i]) > 0 by {
            if x < scan_systems(d).len() {
                let i = choose|i: int|
                    0 <= i < d.len() && (#[trigger] d[i]).id == scan_systems(d)[x] && system_findings(d[i]) > 0;
                assert(s[i] == d[i]);
            } else {
                assert(s[s.len() - 1].id == scan_systems(s)[x]);
            }
        }
    }
}

/// A system expression is a path to a function with some reported parameter (see
/// [`lemma_query_param_reported`]).
pub open spec fn has_reported_param(e: Expr) -> bool {
    e.kind matches ExprKind::Path { fn_params: Some(ps) } && exists|k: int|
        0 <= k < ps@.len() && param_findings(#[trigger] ps@[k]) > 0
}

/// The lint on `app.add_systems(FixedUpdate, systems)` reports each system among `systems` that
/// is a path to a function with a reported parameter, and reports nothing else. Nothing is
/// reported for any other schedule or method.
pub proof fn lemma_fixed_update_systems_reported(method: Seq<char>, args: Seq<Expr>)
    ensures
        !(method == "add_systems"@ && args.len() >= 2 && args[0].ty.peeled().is_bevy(
            BevyPath::FixedUpdate,
        )) ==> spec_camera_findings(method, args).len() == 0,
        method == "add_systems"@ && args.len() >= 2 && args[0].ty.peeled().is_bevy(
            BevyPath::FixedUpdate,
        ) ==> {
            &&& forall|i: int|
                0 <= i < system_exprs(args[1]).len() && has_reported_param(
                    #[trigger] system_exprs(args[1])[i],
                ) ==> spec_camera_findings(method, args).contains(system_exprs(args[1])[i].id)
            &&& forall|x: int| #![trigger spec_camera_findings(method, args)[x]]
                0 <= x < spec_camera_findings(method, args).len() ==> exists|i: int|
                    0 <= i < system_exprs(args[1]).len() && has_reported_param(
                        #[trigger] system_exprs(args[1])[i],
                    ) && system_exprs(args[1])[i].id == spec_camera_findings(method, args)[x]
        },
{
    if method == "add_systems"@ && args.len() >= 2 && args[0].ty.peeled().is_bevy(BevyPath::FixedUpdate) {
        let s = system_exprs(args[1]);
        lemma_scan_names_reported_systems(s);
        assert forall|i: int| 0 <= i < s.len() && has_reported_param(#[trigger] s[i]) implies scan_systems(
            s,
        ).contains(s[i].id) by {
            if let ExprKind::Path { fn_params: Some(ps) } = s[i].kind {
                lemma_params_reported(ps@);
            }
        }
        assert forall|x: int| #![trigger scan_systems(s)[x]] 0 <= x < scan_systems(s).len() implies exists|i: int|
            0 <= i < s.len() && has_reported_param(#[trigger] s[i]) && s[i].id == scan_systems(s)[x] by {
            let i = choose|i: int| 0 <= i < s.len() && (#[trigger] s[i]).id == scan_systems(s)[x] && system_findings(s[i]) > 0;
            if let ExprKind::Path { fn_params: Some(ps) } = s[i].kind {
                lemma_params_reported(ps@);
            }
            assert(has_reported_param(s[i]));
        }
    }
}

fn data_any_mut_exec(data: &Ty) -> (r: Option<bool>)
    ensures
        r == data_any_mut(*data),
{
    match data {
        Ty::Tuple(items) => {
            let mut i: usize = 0;
            while i < items.len()
                invariant
                    *data == Ty::Tuple(*items),
                    i <= items@.len(),
                    forall|j: int| 0 <= j < i ==> !is_mut_ref(#[trigger] items@[j]),
                decreases items.len() - i,
            {
                if let Ty::Ref { mutable, .. } = &items[i] {
                    if *mutable {
                        assert(is_mut_ref(items@[i as int]));
                        return Some(true);
                    }
                }
                i = i + 1;
            }
            Some(false)
        },
        Ty::Ref { mutable, .. } => Some(*mutable),
        _ => None,
    }
}

fn is_with_camera_exec(f: &Ty) -> (r: bool)
    ensures
        r == is_with_camera(*f),
{
    if !f.matches(BevyPath::With) {
        return false;
    }
    match f {
        Ty::Adt { args, .. } => args.len() > 0 && args[0].matches(BevyPath::Camera),
        _ => false,
    }
}

fn count_camera_filters_exec(f: &Ty) -> (r: usize)
    ensures
        r == count_camera_filters(query_filters(*f)),
{
    match f {
        Ty::Tuple(items) => {
            let mut n: usize = 0;
            let mut i: usize = 0;
            while i < items.len()
                invariant
                    *f == Ty::Tuple(*items),
                    i <= items@.len(),
                    n <= i,
                    n == count_camera_filters(items@.take(i as int)),
                decreases items.len() - i,
            {
                assert(items@.take(i + 1).drop_last() =~= items@.take(i as int));
                if is_with_camera_exec(&items[i]) {
                    n = n + 1;
                }
                i = i + 1;
            }
            assert(items@.take(items@.len() as int) =~= items@);
            assert(n == count_camera_filters(items@));
            assert(*f == Ty::Tuple(*items));
            assert(query_filters(*f) == items@);
            n
        },
        _ => {
            let ghost fs = query_filters(*f);
            assert(fs.drop_last() =~= Seq::<Ty>::empty());
            assert(fs.last() == *f);
            assert(count_camera_filters(fs.drop_last()) == 0);
            let r: usize = if is_with_camera_exec(f) {
                1
            } else {
                0
            };
            assert(r == count_camera_filters(fs));
            r
        },
    }
}
fn param_findings_exec(p: &Ty) -> (r: usize)
    ensures
        r == param_findings(*p),
{
    match p {
        Ty::Adt { args, .. } => {
            if !p.matches(BevyPath::Query) || args.len() < 2 {
                0
            } else {
                match data_any_mut_exec(&args[0]) {
                    Some(true) => count_camera_filters_exec(&args[1]),
                    _ => 0,
                }
            }
        },
        _ => 0,
    }
}

/// Reports `id` `k` times at the end of `out`.
fn push_repeated(out: &mut Vec<u64>, id: u64, k: usize)
    ensures
        final(out)@ == old(out)@ + Seq::new(k as nat, |_i: int| id),
{
    let mut j: usize = 0;
    while j < k
        invariant
            j <= k,
            out@ == old(out)@ + Seq::new(j as nat, |_i: int| id),
        decreases k - j,
    {
        out.push(id);
        j = j + 1;
        assert(out@ =~= old(out)@ + Seq::new(j as nat, |_i: int| id));
    }
}
/// Scans the systems and returns the findings.
fn scan_systems_exec(systems: &[Expr]) -> (r: Vec<u64>)
    ensures
        r@ == scan_systems(systems@),
{
    let mut out: Vec<u64> = Vec::new();
    let mut i: usize = 0;
    while i < systems.len()
        invariant
            i <= systems@.len(),
            scan_systems(systems@.take(i as int)) == out@,
        decreases systems.len() - i,
    {
        assert(systems@.take(i + 1).drop_last() =~= systems@.take(i as int));
        let sys = &systems[i];
        assert(systems@.take(i + 1).last() == *sys);
        let ghost start = out@;
        if let ExprKind::Path { fn_params: Some(ps) } = &sys.kind {
            let mut count: usize = 0;
            let mut j: usize = 0;
            while j < ps.len()
                invariant
                    j <= ps@.len(),
                    params_findings(ps@.take(j as int)) == count as nat,
                    out@ == start + Seq::new(count as nat, |_i: int| sys.id),
                    count <= out@.len(),
                decreases ps.len() - j,
            {
                assert(ps@.take(j + 1).drop_last() =~= ps@.take(j as int));
                let k = param_findings_exec(&ps[j]);
                let ghost before = out@;
                push_repeated(&mut out, sys.id, k);
                let total = out.len();
                assert(out@.len() == before.len() + k);
                assert(count + k <= total);
                assert(Seq::new(count as nat, |_i: int| sys.id) + Seq::new(k as nat, |_i: int| sys.id)
                    =~= Seq::new((count + k) as nat, |_i: int| sys.id));
                count = count + k;
                j = j + 1;
            }
            assert(ps@.take(ps@.len() as int) =~= ps@);
        } else {
            assert(out@ =~= start + Seq::new(0, |_i: int| sys.id));
        }
        i = i + 1;
    }
    assert(systems@.take(systems@.len() as int) =~= systems@);
    out
}

/// The findings of the lint on a method call: the id of the system reported on, once for every
/// `With<Camera>` filter of a mutable query among its parameters, in order.
pub fn camera_modification_in_fixed_update(call: &MethodCall) -> (r: Vec<u64>)
    ensures
        r@ == spec_camera_findings(call.method_name@, call.args@),
{
    if !str_eq(call.method_name.as_str(), "add_systems") {
        return Vec::new();
    }
    if call.args.len() < 1 {
        return Vec::new();
    }
    if !call.args[0].ty.peel_refs().matches(BevyPath::FixedUpdate) {
        return Vec::new();
    }
    if call.args.len() < 2 {
        return Vec::new();
    }
    let systems = &call.args[1];
    match &systems.kind {
        ExprKind::Tup(items) => scan_systems_exec(items.as_slice()),
        _ => {
            let one = vstd::slice::slice_subrange(call.args, 1, 2);
            assert(one@ =~= system_exprs(*systems));
            scan_systems_exec(one)
        },
    }
}

} // verus!
