//! Finds unit values `()` placed in a `Bundle`.
//!
//! Unit implements `Bundle`, so a `()` inside a bundle tuple is accepted by the compiler but is no
//! `Component` and is skipped at run time; usually a sign that a method returned `()` where a
//! component was expected.

use vstd::prelude::*;

use crate::expr::{Expr, ExprKind, MethodCall};
use crate::paths::BevyPath;
use crate::text::str_eq;
use crate::ty::{strings_view, Ty};

verus! {

/// The position of an item within nested tuples: each number indexes into the tuple at its
/// depth. The empty path is the root tuple itself.
pub struct TuplePath(pub Vec<usize>);

impl View for TuplePath {
    type V = Seq<int>;

    open spec fn view(&self) -> Seq<int> {
        self.0@.map_values(|i: usize| i as int)
    }
}

impl TuplePath {
    /// The empty path.
    pub fn new() -> (r: TuplePath)
        ensures
            r@ == Seq::<int>::empty(),
    {
        TuplePath(Vec::new())
    }

    /// Appends an index.
    pub fn push(&mut self, i: usize)
        ensures
            final(self)@ == old(self)@.push(i as int),
    {
        self.0.push(i);
        assert(self@ =~= old(self)@.push(i as int));
    }

    /// Removes and returns the last index.
    pub fn pop(&mut self) -> (r: Option<usize>)
        ensures
            old(self)@.len() == 0 ==> r is None && final(self)@ == old(self)@,
            old(self)@.len() > 0 ==> r is Some && r->0 as int == old(self)@.last() && final(self)@
                == old(self)@.drop_last(),
    {
        let r = self.0.pop();
        proof {
            if old(self)@.len() > 0 {
                assert(self@ =~= old(self)@.drop_last());
            } else {
                assert(self@ =~= old(self)@);
            }
        }
        r
    }

    /// A copy of this path.
    pub fn duplicate(&self) -> (r: TuplePath)
        ensures
            r@ == self@,
    {
        let mut v: Vec<usize> = Vec::new();
        let mut i: usize = 0;
        while i < self.0.len()
            invariant
                i <= self.0@.len(),
                v@ == self.0@.take(i as int),
            decreases self.0@.len() - i,
        {
            v.push(self.0[i]);
            i = i + 1;
            assert(v@ =~= self.0@.take(i as int));
        }
        assert(self.0@.take(self.0@.len() as int) =~= self.0@);
        TuplePath(v)
    }
}

/// Pushing an index onto a path and popping right after gives back that index, and leaves the
/// path as it was: what `TuplePath::pop` does undoes `TuplePath::push`.
pub proof fn lemma_pop_undoes_push(path: Seq<int>, i: usize)
    ensures
        path.push(i as int).len() > 0,
        path.push(i as int).last() == i as int,
        path.push(i as int).drop_last() == path,
{
    assert(path.push(i as int).drop_last() =~= path);
}

/// The paths of all unit types `()` within `ty`, in depth-first order. A type that is not a
/// tuple holds none; the unit type itself is found at the empty path.
pub open spec fn unit_paths(ty: Ty) -> Seq<Seq<int>>
    decreases ty, 1nat,
{
    match ty {
        Ty::Tuple(items) => if items@.len() == 0 {
            seq![Seq::<int>::empty()]
        } else {
            unit_paths_items(items@, items@.len() as int)
        },
        _ => Seq::empty(),
    }
}

/// The unit paths within the first `n` items of a tuple, each starting with its item's index.
pub open spec fn unit_paths_items(items: Seq<Ty>, n: int) -> Seq<Seq<int>>
    decreases items, n,
{
    if n <= 0 || n > items.len() {
        Seq::empty()
    } else {
        unit_paths_items(items, n - 1) + prefixed(seq![n - 1], unit_paths(items[n - 1]))
    }
}

/// Every path of `s` with `pre` in front.
pub open spec fn prefixed(pre: Seq<int>, s: Seq<Seq<int>>) -> Seq<Seq<int>> {
    s.map_values(|p: Seq<int>| pre + p)
}

/// The paths held by a list of tuple paths.
pub open spec fn paths_view(v: Seq<TuplePath>) -> Seq<Seq<int>> {
    v.map_values(|t: TuplePath| t@)
}

/// The type found by following `p` into nested tuples, if every step lands on a tuple item.
pub open spec fn ty_at(ty: Ty, p: Seq<int>) -> Option<Ty>
    decreases p.len(),
{
    if p.len() == 0 {
        Some(ty)
    } else {
        match ty {
            Ty::Tuple(items) => if 0 <= p[0] < items@.len() {
                ty_at(items@[p[0]], p.drop_first())
            } else {
                None
            },
            _ => None,
        }
    }
}

proof fn lemma_prefixed_concat(pre: Seq<int>, a: Seq<Seq<int>>, b: Seq<Seq<int>>)
    ensures
        prefixed(pre, a + b) == prefixed(pre, a) + prefixed(pre, b),
{
    assert(prefixed(pre, a + b) =~= prefixed(pre, a) + prefixed(pre, b));
}

proof fn lemma_prefixed_twice(pre: Seq<int>, i: int, s: Seq<Seq<int>>)
    ensures
        prefixed(pre, prefixed(seq![i], s)) == prefixed(pre.push(i), s),
{
    assert forall|k: int| 0 <= k < s.len() implies pre + (seq![i] + s[k]) =~= pre.push(i) + s[k] by {}
    assert(prefixed(pre, prefixed(seq![i], s)) =~= prefixed(pre.push(i), s));
}

/// Appends to `out` the paths of all units within `ty`, each prefixed with `current`.
fn collect_units(ty: &Ty, current: &mut TuplePath, out: &mut Vec<TuplePath>)
    ensures
        final(current)@ == old(current)@,
        paths_view(final(out)@) == paths_view(old(out)@) + prefixed(old(current)@, unit_paths(*ty)),
    decreases ty,
{
    if let Ty::Tuple(types) = ty {
        if types.len() == 0 {
            let copy = current.duplicate();
            out.push(copy);
            assert(prefixed(current@, unit_paths(*ty)) =~= seq![current@]);
            assert(paths_view(out@) =~= paths_view(old(out)@) + seq![current@]);
            return;
        }
        let ghost start = paths_view(out@);
        let mut i: usize = 0;
        while i < types.len()
            invariant
                *ty == Ty::Tuple(*types),
                i <= types@.len(),
                current@ == old(current)@,
                paths_view(out@) == start + prefixed(current@, unit_paths_items(types@, i as int)),
            decreases types@.len() - i,
        {
            let ghost before = paths_view(out@);
            current.push(i);
            assert(decreases_to!(*ty => (*ty)->Tuple_0));
            assert(decreases_to!(*types => types@));
            assert(decreases_to!(types@ => types@[i as int]));
            collect_units(&types[i], current, out);
            let _ = current.pop();
            assert(current@ =~= old(current)@);
            proof {
                lemma_prefixed_twice(current@, i as int, unit_paths(types@[i as int]));
                lemma_prefixed_concat(
                    current@,
                    unit_paths_items(types@, i as int),
                    prefixed(seq![i as int], unit_paths(types@[i as int])),
                );
            }
            i = i + 1;
            assert(paths_view(out@) =~= start + prefixed(current@, unit_paths_items(types@, i as int)));
        }
    } else {
        assert(prefixed(old(current)@, unit_paths(*ty)) =~= Seq::<Seq<int>>::empty());
        assert(paths_view(out@) =~= paths_view(old(out)@));
    }
}

/// The paths of all unit types `()` within a type, in depth-first order.
pub fn find_units_in_tuple(ty: &Ty) -> (r: Vec<TuplePath>)
    ensures
        paths_view(r@) == unit_paths(*ty),
{
    let mut current = TuplePath::new();
    let mut out: Vec<TuplePath> = Vec::new();
    collect_units(ty, &mut current, &mut out);
    assert(paths_view(out@) =~= unit_paths(*ty)) by {
        assert(prefixed(Seq::<int>::empty(), unit_paths(*ty)) =~= unit_paths(*ty));
    }
    out
}

/// Following `p` into `ty` lands on the unit type.
pub open spec fn leads_to_unit(ty: Ty, p: Seq<int>) -> bool {
    match ty_at(ty, p) {
        Some(t) => t.is_unit_ty(),
        None => false,
    }
}

/// Following every unit path of a type lands on the unit type.
pub proof fn lemma_unit_paths_sound(ty: Ty)
    ensures
        forall|k: int|
            0 <= k < unit_paths(ty).len() ==> leads_to_unit(ty, #[trigger] unit_paths(ty)[k]),
    decreases ty, 1nat, 0int,
{
    if let Ty::Tuple(items) = ty {
        if items@.len() > 0 {
            lemma_unit_paths_items_sound(ty, items@.len() as int);
            assert(unit_paths(ty) == unit_paths_items(items@, items@.len() as int));
        } else {
            assert(leads_to_unit(ty, unit_paths(ty)[0]));
        }
    }
}

proof fn lemma_unit_paths_items_sound(ty: Ty, n: int)
    requires
        ty is Tuple,
    ensures
        forall|k: int|
            0 <= k < unit_paths_items(ty->Tuple_0@, n).len() ==> leads_to_unit(
                ty,
                #[trigger] unit_paths_items(ty->Tuple_0@, n)[k],
            ),
    decreases ty, 0nat, n,
{
    let items = ty->Tuple_0@;
    if 0 < n <= items.len() {
        lemma_unit_paths_items_sound(ty, n - 1);
        let child = items[n - 1];
        assert(decreases_to!(ty => ty->Tuple_0));
        assert(decreases_to!(ty->Tuple_0 => ty->Tuple_0@));
        assert(decreases_to!(ty->Tuple_0@ => child));
        lemma_unit_paths_sound(child);
        let head = unit_paths_items(items, n - 1);
        let tail = prefixed(seq![n - 1], unit_paths(child));
        assert(unit_paths_items(items, n) == head + tail);
        assert forall|k: int| 0 <= k < (head + tail).len() implies leads_to_unit(
            ty,
            #[trigger] (head + tail)[k],
        ) by {
            if k >= head.len() {
                let q = unit_paths(child)[k - head.len()];
                let x = seq![n - 1] + q;
                assert((head + tail)[k] == x);
                assert(x.drop_first() =~= q);
                assert(x[0] == n - 1);
                assert(leads_to_unit(child, q));
                assert(ty_at(ty, x) == ty_at(child, q));
            } else {
                assert((head + tail)[k] == head[k]);
                assert(leads_to_unit(ty, head[k]));
            }
        }
    }
}

/// Every path within the first `m` items is among the unit paths of those items once it is
/// among the unit paths of its own item.
proof fn lemma_unit_paths_items_contains(items: Seq<Ty>, m: int, j: int, q: Seq<int>)
    requires
        0 <= j < m <= items.len(),
        unit_paths(items[j]).contains(q),
    ensures
        unit_paths_items(items, m).contains(seq![j] + q),
    decreases m,
{
    let x = seq![j] + q;
    if j == m - 1 {
        let tail = prefixed(seq![j], unit_paths(items[j]));
        let k = choose|k: int| 0 <= k < unit_paths(items[j]).len() && unit_paths(items[j])[k] == q;
        assert(tail[k] == x);
        let head = unit_paths_items(items, m - 1);
        assert((head + tail)[head.len() + k] == x);
    } else {
        lemma_unit_paths_items_contains(items, m - 1, j, q);
        let head = unit_paths_items(items, m - 1);
        let tail = prefixed(seq![m - 1], unit_paths(items[m - 1]));
        let k = choose|k: int| 0 <= k < head.len() && head[k] == x;
        assert((head + tail)[k] == x);
    }
}

/// Every path that leads to a unit type is among the unit paths of the type.
pub proof fn lemma_unit_paths_complete(ty: Ty, p: Seq<int>)
    requires
        leads_to_unit(ty, p),
    ensures
        unit_paths(ty).contains(p),
    decreases p.len(),
{
    if p.len() == 0 {
        assert(unit_paths(ty)[0] == p);
    } else {
        let items = ty->Tuple_0@;
        let j = p[0];
        let q = p.drop_first();
        lemma_unit_paths_complete(items[j], q);
        lemma_unit_paths_items_contains(items, items.len() as int, j, q);
        assert(seq![j] + q =~= p);
    }
}

/// The expression found by following `p` into nested tuple expressions. It stops at the first
/// expression on the way that is not a tuple expression.
pub open spec fn expr_at(e: Expr, p: Seq<int>) -> Expr
    decreases p.len(),
{
    if p.len() == 0 {
        e
    } else {
        match e.kind {
            ExprKind::Tup(items) => if 0 <= p[0] < items@.len() {
                expr_at(items@[p[0]], p.drop_first())
            } else {
                e
            },
            _ => e,
        }
    }
}

/// Every step of `p` that enters a tuple expression indexes one of its items.
pub open spec fn expr_path_ok(e: Expr, p: Seq<int>) -> bool
    decreases p.len(),
{
    if p.len() == 0 {
        true
    } else {
        match e.kind {
            ExprKind::Tup(items) => 0 <= p[0] < items@.len() && expr_path_ok(
                items@[p[0]],
                p.drop_first(),
            ),
            _ => true,
        }
    }
}

/// Tuple expressions carry tuple types of the same arity, item by item, at every depth.
pub open spec fn tuples_typed(e: Expr) -> bool
    decreases e,
{
    match e.kind {
        ExprKind::Tup(items) => {
            &&& e.ty is Tuple
            &&& e.ty->Tuple_0@.len() == items@.len()
            &&& forall|i: int|
                0 <= i < items@.len() ==> (#[trigger] items@[i]).ty == e.ty->Tuple_0@[i]
                    && tuples_typed(items@[i])
        },
        _ => true,
    }
}

/// In a well-typed expression, every path into its type can be followed in the expression.
pub proof fn lemma_typed_paths_ok(e: Expr, p: Seq<int>)
    requires
        tuples_typed(e),
        ty_at(e.ty, p) is Some,
    ensures
        expr_path_ok(e, p),
    decreases p.len(),
{
    if p.len() > 0 {
        if let ExprKind::Tup(items) = e.kind {
            let j = p[0];
            assert(tuples_typed(items@[j]));
            lemma_typed_paths_ok(items@[j], p.drop_first());
        }
    }
}

impl TuplePath {
    /// The expression this path designates within `root_tuple`, or the expression nearest to it
    /// when the path leaves the tuple expressions (such as when the bundle was built by a helper
    /// function instead of written as a tuple).
    pub fn into_expr<'a>(self, root_tuple: &'a Expr) -> (r: &'a Expr)
        requires
            expr_path_ok(*root_tuple, self@),
        ensures
            *r == expr_at(*root_tuple, self@),
    {
        self.expr_in(root_tuple)
    }

    /// The expression this path designates within `root_tuple`, as [`TuplePath::into_expr`]
    /// finds it, without consuming the path.
    pub fn expr_in<'a>(&self, root_tuple: &'a Expr) -> (r: &'a Expr)
        requires
            expr_path_ok(*root_tuple, self@),
        ensures
            *r == expr_at(*root_tuple, self@),
    {
        let ghost full = self@;
        let path = &self.0;
        let mut tuple = root_tuple;
        let mut k: usize = 0;
        assert(full.skip(0) =~= full);
        while k < path.len()
            invariant
                full == self@,
                full == path@.map_values(|i: usize| i as int),
                k <= path@.len(),
                expr_at(*root_tuple, full) == expr_at(*tuple, full.skip(k as int)),
                expr_path_ok(*tuple, full.skip(k as int)),
            decreases path@.len() - k,
        {
            let i = path[k];
            assert(full.skip(k as int)[0] == i as int);
            assert(full.skip(k as int).drop_first() =~= full.skip(k + 1));
            match &tuple.kind {
                ExprKind::Tup(items) => {
                    tuple = &items[i];
                },
                _ => {
                    assert(full.skip(k as int).len() > 0);
                    assert(expr_at(*tuple, full.skip(k as int)) == *tuple);
                    return tuple;
                },
            }
            k = k + 1;
        }
        assert(full.skip(k as int) =~= Seq::<int>::empty());
        tuple
    }
}

/// A unit value found where a bundle was expected.
#[derive(Clone, Copy, Debug, PartialEq, Eq, Structural)]
pub enum UnitFinding {
    /// The bundle is `()` itself, passed to a `spawn()` that `spawn_empty()` replaces: the
    /// unit's expression, and the span of the call `spawn(())` that the suggestion replaces
    /// with how safely it can be applied.
    SpawnEmpty { unit_expr: u64, call_span: crate::expr::Span, applicability: crate::diag::Applicability },
    /// A `()` within a bundle, at the expression with this id.
    InBundle { unit_expr: u64 },
}

impl UnitFinding {
    /// The replacement that the suggestion writes over the finding's call: `spawn_empty()` for
    /// a unit bundle, none for a unit within a bundle.
    pub fn replacement(&self) -> (r: Option<&'static str>)
        ensures
            match self {
                UnitFinding::SpawnEmpty { .. } => r matches Some(s) && s@ == "spawn_empty()"@,
                UnitFinding::InBundle { .. } => r is None,
            },
    {
        match self {
            UnitFinding::SpawnEmpty { .. } => Some("spawn_empty()"),
            UnitFinding::InBundle { .. } => None,
        }
    }
}

/// The help of the `spawn_empty()` suggestion of the `unit_in_bundle` lint.
pub fn spawn_empty_help() -> (r: &'static str)
    ensures
        r@ == "`spawn_empty()` is more efficient"@,
{
    "`spawn_empty()` is more efficient"
}

/// The note of the `insert_unit_bundle` lint.
pub fn insert_unit_bundle_note() -> (r: &'static str)
    ensures
        r@ == "unit `()` types are skipped instead of spawned"@,
{
    "unit `()` types are skipped instead of spawned"
}

/// The findings for the units within one bundle expression, in depth-first order.
pub open spec fn in_bundle_findings(e: Expr) -> Seq<UnitFinding> {
    unit_paths(e.ty).map_values(|p: Seq<int>| UnitFinding::InBundle { unit_expr: expr_at(e, p).id })
}

/// The description shared by the bundle lints.
pub fn unit_in_bundle_description() -> (r: &'static str)
    ensures
        r@ == "created a `Bundle` containing a unit `()`"@,
{
    "created a `Bundle` containing a unit `()`"
}

/// The note attached to each unit found in a bundle.
pub fn unit_in_bundle_note() -> (r: &'static str)
    ensures
        r@ == "units `()` are not `Component`s and will be skipped"@,
{
    "units `()` are not `Component`s and will be skipped"
}

/// Appends the findings for the units within `e`.
fn push_unit_findings(e: &Expr, out: &mut Vec<UnitFinding>)
    requires
        tuples_typed(*e),
    ensures
        final(out)@ == old(out)@ + in_bundle_findings(*e),
{
    let paths = find_units_in_tuple(&e.ty);
    proof {
        lemma_unit_paths_sound(e.ty);
    }
    let ghost start = out@;
    let mut k: usize = 0;
    while k < paths.len()
        invariant
            tuples_typed(*e),
            paths_view(paths@) == unit_paths(e.ty),
            forall|j: int| 0 <= j < unit_paths(e.ty).len() ==> leads_to_unit(e.ty, #[trigger] unit_paths(e.ty)[j]),
            k <= paths@.len(),
            out@ == start + in_bundle_findings(*e).take(k as int),
        decreases paths@.len() - k,
    {
        let ghost p = paths@[k as int]@;
        assert(paths_view(paths@)[k as int] == p);
        assert(leads_to_unit(e.ty, p));
        proof {
            lemma_typed_paths_ok(*e, p);
        }
        let found = paths[k].expr_in(e);
        out.push(UnitFinding::InBundle { unit_expr: found.id });
        k = k + 1;
        assert(in_bundle_findings(*e).take(k as int) =~= in_bundle_findings(*e).take(k - 1).push(
            UnitFinding::InBundle { unit_expr: found.id },
        ));
    }
    assert(in_bundle_findings(*e).take(k as int) =~= in_bundle_findings(*e));
}

/// The message of the `unit_component_insertion` lint.
pub fn unit_component_insertion_message() -> (r: &'static str)
    ensures
        r@ == "Expression returns `unit` and results in an empty component insertion"@,
{
    "Expression returns `unit` and results in an empty component insertion"
}

/// The units that `commands.spawn(bundle)` inserts as components, by the rules of the
/// `unit_component_insertion` lint: every `()` within the bundle's type, the bundle itself
/// included. Only the method-call form `commands.spawn(..)` is inspected.
pub fn unit_component_insertion(call: &MethodCall) -> (r: Vec<UnitFinding>)
    requires
        forall|i: int| 0 <= i < call.args@.len() ==> tuples_typed(#[trigger] call.args@[i]),
    ensures
        r@ == if !call.is_fully_qualified && call.receiver.ty.peeled().is_bevy(BevyPath::Commands)
            && call.method_name@ == "spawn"@ && call.args@.len() == 1 {
            in_bundle_findings(call.args@[0])
        } else {
            Seq::empty()
        },
{
    let mut out: Vec<UnitFinding> = Vec::new();
    if call.is_fully_qualified || !call.receiver.ty.peel_refs().matches(BevyPath::Commands)
        || !str_eq(call.method_name.as_str(), "spawn") || call.args.len() != 1 {
        return out;
    }
    push_unit_findings(&call.args[0], &mut out);
    out
}

/// The findings of the lint on the single bundle passed to `Commands::spawn()`: the unit bundle
/// itself, or every unit within it.
pub open spec fn spec_spawn_findings(bundle: Expr, call_span: crate::expr::Span) -> Seq<UnitFinding> {
    if bundle.ty.is_unit_ty() {
        seq![UnitFinding::SpawnEmpty { unit_expr: bundle.id, call_span, applicability: crate::diag::Applicability::MachineApplicable }]
    } else {
        in_bundle_findings(bundle)
    }
}

/// The call passes the lint's filter: it does not come from the expansion of an external macro,
/// the receiver is `Commands` and the method `spawn`.
pub open spec fn spec_insert_unit_selected(call_parts: (Seq<char>, Expr, Seq<Expr>, crate::expr::Span, bool), in_external_macro: bool) -> bool {
    !in_external_macro && call_parts.1.ty.peeled().is_bevy(BevyPath::Commands) && call_parts.0 == "spawn"@
}

/// Which calls the `insert_unit_bundle` lint inspects: `spawn` on a receiver whose type,
/// references removed, is `Commands`, and never a call from an external macro; a receiver of
/// type `&mut Commands` is treated as one of type `Commands`.
pub proof fn lemma_insert_unit_selection(
    method: Seq<char>,
    receiver: Expr,
    args: Seq<Expr>,
    span: crate::expr::Span,
    fully_qualified: bool,
    in_external_macro: bool,
    mutable: bool,
)
    ensures
        in_external_macro ==> !spec_insert_unit_selected(
            (method, receiver, args, span, fully_qualified),
            in_external_macro,
        ),
        !in_external_macro && receiver.ty.is_bevy(BevyPath::Commands) && method == "spawn"@
            ==> spec_insert_unit_selected((method, receiver, args, span, fully_qualified), false),
        spec_insert_unit_selected(
            (method, Expr { ty: Ty::Ref { mutable, inner: Box::new(receiver.ty) }, ..receiver }, args, span, fully_qualified),
            in_external_macro,
        ) == spec_insert_unit_selected((method, receiver, args, span, fully_qualified), in_external_macro),
        spec_insert_unit_selected((method, receiver, args, span, fully_qualified), in_external_macro)
            ==> method == "spawn"@ && receiver.ty.peeled().is_bevy(BevyPath::Commands),
{
    if receiver.ty.is_bevy(BevyPath::Commands) {
        assert(receiver.ty.peeled() == receiver.ty);
    }
}

/// The units that a method call inserts as a bundle, by the rules of the `insert_unit_bundle`
/// lint. `in_external_macro` tells whether the method's span comes from an external macro.
pub fn insert_unit_bundle(call: &MethodCall, in_external_macro: bool) -> (r: Vec<UnitFinding>)
    requires
        forall|i: int| 0 <= i < call.args@.len() ==> tuples_typed(#[trigger] call.args@[i]),
    ensures
        r@ == if spec_insert_unit_selected(call.parts(), in_external_macro) && call.args@.len() == 1 {
            spec_spawn_findings(call.args@[0], call.span)
        } else {
            Seq::empty()
        },
{
    let selected = !in_external_macro && call.receiver.ty.peel_refs().matches(BevyPath::Commands)
        && str_eq(call.method_name.as_str(), "spawn");
    let mut out: Vec<UnitFinding> = Vec::new();
    if !selected || call.args.len() != 1 {
        return out;
    }
    let bundle = &call.args[0];
    if bundle.ty.is_unit() {
        out.push(UnitFinding::SpawnEmpty { unit_expr: bundle.id, call_span: call.span, applicability: crate::diag::Applicability::MachineApplicable });
        return out;
    }
    push_unit_findings(bundle, &mut out);
    out
}

/// A bound in the environment of a function's generics.
pub enum Clause {
    /// A trait bound `self_ty: Trait`. `positive` is false for a negative bound `!Trait`;
    /// `has_bound_vars` is true when the bound sits under a `for<...>` binder.
    Trait { trait_path: Vec<String>, self_ty: Ty, positive: bool, has_bound_vars: bool },
    /// A lifetime, constant or other bound.
    Other,
}

/// What a called function declares: its parameter types, uninstantiated, and its bounds.
pub struct FnSignature {
    pub inputs: Vec<Ty>,
    pub clauses: Vec<Clause>,
}

/// The clause is a positive `T: Bundle` without bound variables.
pub open spec fn is_bundle_clause(c: Clause) -> bool {
    match c {
        Clause::Trait { trait_path, positive, has_bound_vars, .. } => positive && !has_bound_vars
            && strings_view(trait_path@) == BevyPath::Bundle.spec_segments(),
        _ => false,
    }
}

/// Every `T: Bundle` clause bounds a generic type parameter.
pub open spec fn bundle_clauses_on_params(cs: Seq<Clause>) -> bool {
    forall|j: int| 0 <= j < cs.len() && is_bundle_clause(#[trigger] cs[j]) ==> cs[j]->self_ty is Param
}

/// `t` is a generic parameter that must implement `Bundle`.
pub open spec fn is_bundle_param(cs: Seq<Clause>, t: Ty) -> bool {
    exists|j: int| 0 <= j < cs.len() && is_bundle_clause(#[trigger] cs[j]) && cs[j]->self_ty == t
}

fn is_bundle_clause_exec(c: &Clause) -> (r: bool)
    ensures
        r == is_bundle_clause(*c),
{
    match c {
        Clause::Trait { trait_path, positive, has_bound_vars, .. } => *positive && !*has_bound_vars
            && crate::ty::path_equals(trait_path, BevyPath::Bundle),
        _ => false,
    }
}

/// Whether the parameter type `t` is a generic parameter that must implement `Bundle`.
pub fn bundle_bounded(clauses: &Vec<Clause>, t: &Ty) -> (r: bool)
    requires
        bundle_clauses_on_params(clauses@),
    ensures
        r == is_bundle_param(clauses@, *t),
{
    let k = match t {
        Ty::Param(k) => *k,
        _ => {
            assert forall|j: int| 0 <= j < clauses@.len() && is_bundle_clause(#[trigger] clauses@[j]) implies clauses@[j]->self_ty != *t by {}
            return false;
        },
    };
    let mut j: usize = 0;
    while j < clauses.len()
        invariant
            *t == Ty::Param(k),
            bundle_clauses_on_params(clauses@),
            j <= clauses@.len(),
            forall|i: int| 0 <= i < j && is_bundle_clause(#[trigger] clauses@[i]) ==> clauses@[i]->self_ty != *t,
        decreases clauses@.len() - j,
    {
        if is_bundle_clause_exec(&clauses[j]) {
            if let Clause::Trait { self_ty: Ty::Param(k2), .. } = &clauses[j] {
                if *k2 == k {
                    return true;
                }
            }
        }
        j = j + 1;
    }
    false
}

/// The findings for the arguments that a function takes as `Bundle`s: the first `n` arguments.
pub open spec fn bundle_arg_findings(args: Seq<Expr>, tys: Seq<Ty>, cs: Seq<Clause>, n: int) -> Seq<UnitFinding>
    decreases n,
{
    if n <= 0 {
        Seq::empty()
    } else {
        bundle_arg_findings(args, tys, cs, n - 1) + if is_bundle_param(cs, tys[n - 1]) {
            in_bundle_findings(args[n - 1])
        } else {
            Seq::empty()
        }
    }
}

/// The call's receiver is something whose `spawn()` can be replaced by `spawn_empty()`.
pub open spec fn spawns_entities(t: Ty) -> bool {
    ||| t.is_bevy(BevyPath::Commands)
    ||| t.is_bevy(BevyPath::World)
    ||| t.is_bevy(BevyPath::RelatedSpawner)
    ||| t.is_bevy(BevyPath::RelatedSpawnerCommands)
}

/// The unit bundle of a `spawn(())` call that `spawn_empty()` could replace.
pub open spec fn spec_spawn_empty(parts: (Seq<char>, Expr, Seq<Expr>, crate::expr::Span, bool)) -> Option<Expr> {
    if spawns_entities(parts.1.adjusted_ty.peeled()) && parts.0 == "spawn"@ && parts.2.len() > 0
        && parts.2[0].ty.is_unit_ty() {
        Some(parts.2[0])
    } else {
        None
    }
}

/// `spawn_empty()` is suggested exactly for the calls `x.spawn(())` whose receiver's adjusted
/// type, references removed, is `Commands`, `World`, `RelatedSpawner` or
/// `RelatedSpawnerCommands`, and what it replaces is the unit argument.
pub proof fn lemma_spawn_empty_calls(method: Seq<char>, receiver: Expr, args: Seq<Expr>, span: crate::expr::Span, fully_qualified: bool)
    ensures
        spec_spawn_empty((method, receiver, args, span, fully_qualified)) is Some <==> {
            &&& (receiver.adjusted_ty.peeled().is_bevy(BevyPath::Commands)
                || receiver.adjusted_ty.peeled().is_bevy(BevyPath::World)
                || receiver.adjusted_ty.peeled().is_bevy(BevyPath::RelatedSpawner)
                || receiver.adjusted_ty.peeled().is_bevy(BevyPath::RelatedSpawnerCommands))
            &&& method == "spawn"@
            &&& args.len() > 0
            &&& args[0].ty matches Ty::Tuple(items)
            &&& items@.len() == 0
        },
        spec_spawn_empty((method, receiver, args, span, fully_qualified)) matches Some(e) ==> e == args[0],
{
}

/// The unit bundle of a `spawn(())` call on `Commands`, `World`, `RelatedSpawner` or
/// `RelatedSpawnerCommands`, which `spawn_empty()` could replace.
pub fn can_be_spawn_empty<'a>(call: &MethodCall<'a>) -> (r: Option<&'a Expr>)
    ensures
        match r {
            Some(e) => spec_spawn_empty(call.parts()) == Some(*e),
            None => spec_spawn_empty(call.parts()) is None,
        },
{
    let receiver = call.receiver.adjusted_ty.peel_refs();
    let spawner = receiver.matches(BevyPath::Commands) || receiver.matches(BevyPath::World)
        || receiver.matches(BevyPath::RelatedSpawner) || receiver.matches(
        BevyPath::RelatedSpawnerCommands,
    );
    if spawner && str_eq(call.method_name.as_str(), "spawn") && call.args.len() > 0
        && call.args[0].ty.is_unit() {
        Some(&call.args[0])
    } else {
        None
    }
}

/// The arguments of a call, without the receiver of a method call.
pub open spec fn call_args(e: Expr) -> Seq<Expr> {
    match MethodCall::spec_of(&e) {
        Some(parts) => parts.2,
        None => match e.kind {
            ExprKind::Call { args, .. } => args@,
            _ => Seq::empty(),
        },
    }
}

/// The declared types of the arguments of a call, without `self` for a method call.
pub open spec fn call_arg_types(e: Expr, sig: FnSignature) -> Seq<Ty> {
    match MethodCall::spec_of(&e) {
        Some(_) => sig.inputs@.subrange(1, sig.inputs@.len() as int),
        None => sig.inputs@,
    }
}

/// The call's shape agrees with the signature of the called function.
pub open spec fn call_matches_signature(e: Expr, sig: FnSignature) -> bool {
    &&& MethodCall::spec_of(&e) is Some ==> sig.inputs@.len() >= 1
    &&& call_args(e).len() == call_arg_types(e, sig).len()
    &&& bundle_clauses_on_params(sig.clauses@)
    &&& forall|i: int| 0 <= i < call_args(e).len() ==> tuples_typed(#[trigger] call_args(e)[i])
}

/// All findings of the `unit_in_bundle` lint on an expression.
pub open spec fn spec_unit_in_bundle(e: Expr, sig: Option<FnSignature>, in_external_macro: bool) -> Seq<UnitFinding> {
    if in_external_macro {
        Seq::empty()
    } else if MethodCall::spec_of(&e) is Some && spec_spawn_empty(MethodCall::spec_of(&e)->0) is Some {
        seq![UnitFinding::SpawnEmpty { unit_expr: spec_spawn_empty(MethodCall::spec_of(&e)->0)->0.id, call_span: (MethodCall::spec_of(&e)->0).3, applicability: crate::diag::Applicability::MachineApplicable }]
    } else if !(MethodCall::spec_of(&e) is Some || e.kind is Call) {
        Seq::empty()
    } else {
        match sig {
            None => Seq::empty(),
            Some(sig) => bundle_arg_findings(
                call_args(e),
                call_arg_types(e, sig),
                sig.clauses@,
                call_args(e).len() as int,
            ),
        }
    }
}

fn push_bundle_arg_findings(args: &[Expr], tys: &[Ty], clauses: &Vec<Clause>, out: &mut Vec<UnitFinding>)
    requires
        args@.len() == tys@.len(),
        bundle_clauses_on_params(clauses@),
        forall|i: int| 0 <= i < args@.len() ==> tuples_typed(#[trigger] args@[i]),
    ensures
        final(out)@ == old(out)@ + bundle_arg_findings(args@, tys@, clauses@, args@.len() as int),
{
    let mut i: usize = 0;
    while i < args.len()
        invariant
            args@.len() == tys@.len(),
            bundle_clauses_on_params(clauses@),
            forall|j: int| 0 <= j < args@.len() ==> tuples_typed(#[trigger] args@[j]),
            i <= args@.len(),
            out@ == old(out)@ + bundle_arg_findings(args@, tys@, clauses@, i as int),
        decreases args@.len() - i,
    {
        let ghost before = out@;
        if bundle_bounded(clauses, &tys[i]) {
            push_unit_findings(&args[i], out);
        }
        i = i + 1;
        assert(out@ =~= old(out)@ + bundle_arg_findings(args@, tys@, clauses@, i as int));
    }
}

/// The units placed in bundles by a call, by the rules of the `unit_in_bundle` lint.
///
/// `sig` is the signature of the called function, `None` when the callee is a local closure
/// (which cannot take bundles). `in_external_macro` tells whether the call comes from the
/// expansion of an external macro.
pub fn unit_in_bundle(expr: &Expr, sig: Option<&FnSignature>, in_external_macro: bool) -> (r: Vec<UnitFinding>)
    requires
        !expr.is_self_call_without_args(),
        sig matches Some(s) ==> call_matches_signature(*expr, *s),
    ensures
        r@ == spec_unit_in_bundle(*expr, match sig { Some(s) => Some(*s), None => None }, in_external_macro),
{
    let mut out: Vec<UnitFinding> = Vec::new();
    if in_external_macro {
        return out;
    }
    if let Some(call) = MethodCall::try_from(expr) {
        if let Some(bundle) = can_be_spawn_empty(&call) {
            out.push(UnitFinding::SpawnEmpty { unit_expr: bundle.id, call_span: call.span, applicability: crate::diag::Applicability::MachineApplicable });
            return out;
        }
        match sig {
            None => {
                return out;
            },
            Some(s) => {
                let tys = vstd::slice::slice_subrange(s.inputs.as_slice(), 1, s.inputs.len());
                push_bundle_arg_findings(call.args, tys, &s.clauses, &mut out);
                return out;
            },
        }
    }
    if let ExprKind::Call { args, .. } = &expr.kind {
        match sig {
            None => {
                return out;
            },
            Some(s) => {
                push_bundle_arg_findings(args.as_slice(), s.inputs.as_slice(), &s.clauses, &mut out);
                return out;
            },
        }
    }
    out
}

} // verus!
