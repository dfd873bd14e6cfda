use bevy_lint::bundle::{find_units_in_tuple, unit_component_insertion, unit_component_insertion_message, UnitFinding};
use bevy_lint::diag::Applicability;
use bevy_lint::events::{
    extract_hir_event_snippet, extract_ty_event_snippet, init_event_resource, insert_event_resource,
    insert_event_resource_help, iter_current_update_events, iter_current_update_events_help,
    EventsInsertion, GenericArgNode,
};
use bevy_lint::expr::{span_args, Callee, Expr, ExprKind, MethodCall, Span};
use bevy_lint::panicking::{panicking_query_help, panicking_query_method, PanickingType};
use bevy_lint::paths::BevyPath;
use bevy_lint::schedule::{disallowed_schedule, ScheduleType};
use bevy_lint::ty::Ty;

fn sp(lo: u32, hi: u32) -> Span {
    Span { lo, hi }
}

fn path_of(p: BevyPath) -> Vec<String> {
    p.segments().iter().map(|s| s.to_string()).collect()
}

fn bevy(p: BevyPath, args: Vec<Ty>) -> Ty {
    Ty::Adt { path: path_of(p), args }
}

fn local(name: &str) -> Ty {
    Ty::Adt { path: vec!["my_game".to_string(), name.to_string()], args: vec![] }
}

fn unit() -> Ty {
    Ty::Tuple(vec![])
}

fn mut_ref(t: Ty) -> Ty {
    Ty::Ref { mutable: true, inner: Box::new(t) }
}

fn ex(id: u64, ty: impl Fn() -> Ty, kind: ExprKind) -> Expr {
    Expr { id, span: sp(id as u32 * 10, id as u32 * 10 + 5), ty: ty(), adjusted_ty: ty(), kind }
}

fn ex_adj(id: u64, ty: Ty, adjusted_ty: Ty) -> Expr {
    Expr { id, span: sp(id as u32 * 10, id as u32 * 10 + 5), ty, adjusted_ty, kind: ExprKind::Other }
}

fn method_call(name: &str, receiver: Expr, args: Vec<Expr>) -> Expr {
    ex(
        100,
        || Ty::Other,
        ExprKind::MethodCall {
            name: name.to_string(),
            method_span: sp(500, 520),
            receiver: Box::new(receiver),
            args,
        },
    )
}

fn app_expr(id: u64) -> Expr {
    ex(id, || bevy(BevyPath::App, vec![]), ExprKind::Other)
}

// ---- schedules ----

#[test]
fn add_systems_to_update_is_reported() {
    let label = ex(2, || bevy(BevyPath::Update, vec![]), ExprKind::Other);
    let e = method_call("add_systems", app_expr(1), vec![label, ex(3, || Ty::Other, ExprKind::Other)]);
    let call = MethodCall::try_from(&e).unwrap();
    let f = disallowed_schedule(&call, false).unwrap();
    assert_eq!(f.schedule, ScheduleType::Update);
    assert_eq!(f.label_id, 2);
    assert_eq!(f.label_span, sp(20, 25));
    assert_eq!(f.schedule.message(), "the `Update` schedule is disallowed");
    assert_eq!(f.schedule.help(), "use the `FixedUpdate` schedule instead");
    assert_eq!(f.schedule.lint_name(), "bevy::update_schedule");
    assert_eq!(f.schedule.lint_description(), "defined a system in the `Update` schedule");
    assert_eq!(f.schedule.suggestion(), "FixedUpdate");
    assert_eq!(f.applicability, Applicability::MachineApplicable);
}

#[test]
fn add_systems_to_fixed_update_through_a_reference_is_reported() {
    let label = ex(2, || bevy(BevyPath::FixedUpdate, vec![]), ExprKind::Other);
    let recv = ex(1, || mut_ref(bevy(BevyPath::App, vec![])), ExprKind::Other);
    let e = method_call("add_systems", recv, vec![label]);
    let call = MethodCall::try_from(&e).unwrap();
    let f = disallowed_schedule(&call, false).unwrap();
    assert_eq!(f.schedule, ScheduleType::FixedUpdate);
    assert_eq!(f.schedule.name(), "FixedUpdate");
    assert_eq!(f.schedule.suggestion(), "Update");
    assert_eq!(f.schedule.lint_name(), "bevy::fixed_update_schedule");
}

#[test]
fn other_schedule_calls_are_not_reported() {
    let mk = |name: &str, recv: Expr, label_ty: fn() -> Ty| {
        method_call(name, recv, vec![ex(2, label_ty, ExprKind::Other)])
    };
    let e = mk("add_plugins", app_expr(1), || bevy(BevyPath::Update, vec![]));
    assert!(disallowed_schedule(&MethodCall::try_from(&e).unwrap(), false).is_none());
    let e = mk("add_systems", ex(1, || local("App"), ExprKind::Other), || bevy(BevyPath::Update, vec![]));
    assert!(disallowed_schedule(&MethodCall::try_from(&e).unwrap(), false).is_none());
    let e = mk("add_systems", app_expr(1), || local("Startup"));
    assert!(disallowed_schedule(&MethodCall::try_from(&e).unwrap(), false).is_none());
    let e = mk("add_systems", app_expr(1), || bevy(BevyPath::Update, vec![]));
    assert!(disallowed_schedule(&MethodCall::try_from(&e).unwrap(), true).is_none());
    let e = method_call("add_systems", app_expr(1), vec![]);
    assert!(disallowed_schedule(&MethodCall::try_from(&e).unwrap(), false).is_none());
}

// ---- events ----

fn events_of(t: Ty) -> Ty {
    bevy(BevyPath::Events, vec![t])
}

#[test]
fn insert_resource_of_events_suggests_add_event() {
    let arg = ex(2, || events_of(local("MyEvent")), ExprKind::Other);
    let e = method_call("insert_resource", app_expr(1), vec![arg]);
    let call = MethodCall::try_from(&e).unwrap();
    let f = insert_event_resource(&call, &vec![], "MyEvent").unwrap();
    assert_eq!(f.kind, EventsInsertion::InsertResource);
    assert_eq!(f.span, sp(500, 520));
    assert_eq!(f.suggestion, "add_event::<MyEvent>()");
    assert_eq!(f.applicability, Applicability::MachineApplicable);
    assert_eq!(
        f.kind.message(),
        "called `App::insert_resource(Events<T>)` instead of `App::add_event::<T>()`"
    );
    assert_eq!(insert_event_resource_help(), "inserting an `Events` resource does not fully setup that event");
}

#[test]
fn init_resource_of_events_suggests_add_event() {
    let e = method_call("init_resource", app_expr(1), vec![]);
    let call = MethodCall::try_from(&e).unwrap();
    let args = vec![GenericArgNode::Type { ty: events_of(local("E")), inner_text: Some("E".to_string()) }];
    let f = insert_event_resource(&call, &args, "").unwrap();
    assert_eq!(f.kind, EventsInsertion::InitResource);
    assert_eq!(f.suggestion, "add_event::<E>()");
    assert_eq!(f.applicability, Applicability::MachineApplicable);

    let args = vec![GenericArgNode::Type { ty: events_of(local("E")), inner_text: None }];
    let f = insert_event_resource(&call, &args, "").unwrap();
    assert_eq!(f.suggestion, "add_event::<T>()");
    assert_eq!(f.applicability, Applicability::HasPlaceholders);
}

#[test]
fn event_snippets_fall_back_to_a_placeholder() {
    let (s, a) = extract_ty_event_snippet(&bevy(BevyPath::Events, vec![]), "ignored");
    assert_eq!(s, "T");
    assert_eq!(a, Applicability::HasPlaceholders);
    let (s, a) = extract_ty_event_snippet(&Ty::Other, "ignored");
    assert_eq!(s, "T");
    assert_eq!(a, Applicability::HasPlaceholders);
    let (s, a) = extract_ty_event_snippet(&events_of(local("Jump")), "Jump");
    assert_eq!(s, "Jump");
    assert_eq!(a, Applicability::MachineApplicable);
    let (s, a) = extract_hir_event_snippet(&Some("Hit".to_string()));
    assert_eq!((s.as_str(), a), ("Hit", Applicability::MachineApplicable));
}

#[test]
fn other_resource_insertions_are_not_reported() {
    let e = method_call("insert_resource", app_expr(1), vec![ex(2, || local("Score"), ExprKind::Other)]);
    assert!(insert_event_resource(&MethodCall::try_from(&e).unwrap(), &vec![], "").is_none());
    let e = method_call(
        "insert_resource",
        app_expr(1),
        vec![ex(2, || events_of(local("E")), ExprKind::Other), ex(3, || local("X"), ExprKind::Other)],
    );
    assert!(insert_event_resource(&MethodCall::try_from(&e).unwrap(), &vec![], "").is_none());
    let e = method_call("insert_resource", ex(1, || local("World"), ExprKind::Other), vec![ex(2, || events_of(local("E")), ExprKind::Other)]);
    assert!(insert_event_resource(&MethodCall::try_from(&e).unwrap(), &vec![], "").is_none());
    let e = method_call("init_resource", app_expr(1), vec![]);
    let args = vec![GenericArgNode::Other];
    assert!(insert_event_resource(&MethodCall::try_from(&e).unwrap(), &args, "").is_none());
}

#[test]
fn init_event_resource_needs_the_app_itself() {
    let args = || vec![GenericArgNode::Type { ty: events_of(local("E")), inner_text: None }];
    let e = method_call("init_resource", app_expr(1), vec![]);
    assert!(init_event_resource(&MethodCall::try_from(&e).unwrap(), &args()));
    let e = method_call("init_resource", ex(1, || mut_ref(bevy(BevyPath::App, vec![])), ExprKind::Other), vec![]);
    assert!(!init_event_resource(&MethodCall::try_from(&e).unwrap(), &args()));
    let e = method_call("init_resource", app_expr(1), vec![]);
    assert!(!init_event_resource(&MethodCall::try_from(&e).unwrap(), &vec![]));
}

#[test]
fn iter_current_update_events_uses_the_adjusted_receiver() {
    let recv = ex_adj(1, bevy(BevyPath::ResMut, vec![events_of(local("E"))]), events_of(local("E")));
    let e = method_call("iter_current_update_events", recv, vec![]);
    assert_eq!(iter_current_update_events(&MethodCall::try_from(&e).unwrap()), Some(sp(500, 520)));
    let recv = ex_adj(1, events_of(local("E")), bevy(BevyPath::ResMut, vec![events_of(local("E"))]));
    let e = method_call("iter_current_update_events", recv, vec![]);
    assert_eq!(iter_current_update_events(&MethodCall::try_from(&e).unwrap()), None);
    let recv = ex(1, || events_of(local("E")), ExprKind::Other);
    let e = method_call("update", recv, vec![]);
    assert_eq!(iter_current_update_events(&MethodCall::try_from(&e).unwrap()), None);
    assert!(iter_current_update_events_help().starts_with("`iter_current_update_events()` does not track"));
}

// ---- method calls ----

#[test]
fn fully_qualified_calls_are_method_calls() {
    let e = Expr {
        id: 7,
        span: sp(0, 40),
        ty: Ty::Other,
        adjusted_ty: Ty::Other,
        kind: ExprKind::Call {
            callee: Callee::AssocFn { method_name: "single".to_string(), first_param_is_self: true },
            args: vec![ex(1, || bevy(BevyPath::Query, vec![]), ExprKind::Other), ex(2, || Ty::Other, ExprKind::Other)],
        },
    };
    let call = MethodCall::try_from(&e).unwrap();
    assert!(call.is_fully_qualified);
    assert_eq!(call.method_name, "single");
    assert_eq!(call.receiver.id, 1);
    assert_eq!(call.args.len(), 1);
    assert_eq!(call.span, sp(0, 40));

    let e = Expr {
        id: 7,
        span: sp(0, 40),
        ty: Ty::Other,
        adjusted_ty: Ty::Other,
        kind: ExprKind::Call {
            callee: Callee::AssocFn { method_name: "new".to_string(), first_param_is_self: false },
            args: vec![],
        },
    };
    assert!(MethodCall::try_from(&e).is_none());
}

#[test]
fn span_args_covers_first_to_last() {
    assert_eq!(span_args(&[]), sp(0, 0));
    assert_eq!(span_args(&[sp(3, 8)]), sp(3, 8));
    assert_eq!(span_args(&[sp(3, 8), sp(10, 12), sp(14, 20)]), sp(3, 20));
}

// ---- the older query lint ----

#[test]
fn panicking_query_methods_are_found() {
    let q = || ex(1, || bevy(BevyPath::Query, vec![]), ExprKind::Other);
    let e = method_call("single", q(), vec![]);
    assert_eq!(panicking_query_method(&MethodCall::try_from(&e).unwrap()), Some("get_single"));
    let e = method_call("many_mut", q(), vec![]);
    assert_eq!(panicking_query_method(&MethodCall::try_from(&e).unwrap()), Some("get_many_mut"));
    let e = method_call("iter", q(), vec![]);
    assert_eq!(panicking_query_method(&MethodCall::try_from(&e).unwrap()), None);
    let e = method_call("single", ex(1, || bevy(BevyPath::World, vec![]), ExprKind::Other), vec![]);
    assert_eq!(panicking_query_method(&MethodCall::try_from(&e).unwrap()), None);
    assert_eq!(
        panicking_query_help(Some("query"), "get_many", "[e1, e2]"),
        "use `query.get_many([e1, e2])` and handle the `Result`"
    );
    assert_eq!(panicking_query_help(None, "get_single", ""), "use `Query::get_single()` and handle the `Result`");
}

// ---- units in bundles ----

#[test]
fn find_units_in_tuple_follows_the_documented_example() {
    // (Name, ((), Transform, Visibility), ())
    let ty = Ty::Tuple(vec![
        local("Name"),
        Ty::Tuple(vec![unit(), local("Transform"), local("Visibility")]),
        unit(),
    ]);
    let paths: Vec<Vec<usize>> = find_units_in_tuple(&ty).into_iter().map(|p| p.0).collect();
    assert_eq!(paths, vec![vec![1, 0], vec![2]]);
    let paths: Vec<Vec<usize>> = find_units_in_tuple(&unit()).into_iter().map(|p| p.0).collect();
    assert_eq!(paths, vec![Vec::<usize>::new()]);
    assert!(find_units_in_tuple(&local("Name")).is_empty());
}

fn tup(id: u64, items: Vec<Expr>, ty: fn() -> Ty) -> Expr {
    ex(id, ty, ExprKind::Tup(items))
}

#[test]
fn unit_component_insertion_reports_each_unit() {
    // commands.spawn((Name, (), (Transform, ())))
    let bundle = tup(
        10,
        vec![
            ex(11, || local("Name"), ExprKind::Other),
            tup(12, vec![], unit),
            tup(
                13,
                vec![ex(14, || local("Transform"), ExprKind::Other), tup(15, vec![], unit)],
                || Ty::Tuple(vec![local("Transform"), unit()]),
            ),
        ],
        || Ty::Tuple(vec![local("Name"), unit(), Ty::Tuple(vec![local("Transform"), unit()])]),
    );
    let commands = ex(1, || mut_ref(bevy(BevyPath::Commands, vec![])), ExprKind::Other);
    let e = method_call("spawn", commands, vec![bundle]);
    let found = unit_component_insertion(&MethodCall::try_from(&e).unwrap());
    assert_eq!(found, vec![UnitFinding::InBundle { unit_expr: 12 }, UnitFinding::InBundle { unit_expr: 15 }]);
    assert_eq!(unit_component_insertion_message(), "Expression returns `unit` and results in an empty component insertion");

    let commands = ex(1, || bevy(BevyPath::Commands, vec![]), ExprKind::Other);
    let e = method_call("spawn", commands, vec![tup(20, vec![], unit)]);
    let found = unit_component_insertion(&MethodCall::try_from(&e).unwrap());
    assert_eq!(found, vec![UnitFinding::InBundle { unit_expr: 20 }]);

    let world = ex(1, || bevy(BevyPath::World, vec![]), ExprKind::Other);
    let e = method_call("spawn", world, vec![tup(20, vec![], unit)]);
    assert!(unit_component_insertion(&MethodCall::try_from(&e).unwrap()).is_empty());
}

#[test]
fn every_panicking_method_has_one_prefixed_alternative() {
    for t in [PanickingType::Query, PanickingType::World] {
        let alts = t.alternatives();
        assert!(!alts.is_empty());
        for (i, (method, alt)) in alts.iter().enumerate() {
            assert!(*alt == format!("get_{method}") || *alt == format!("try_{method}"));
            assert_ne!(method, alt);
            for (other, _) in &alts[i + 1..] {
                assert_ne!(method, other);
            }
        }
    }
    assert_eq!(PanickingType::World.alternative_for("run_schedule"), Some("try_run_schedule"));
}
