use bevy_lint::appexit::{appexit_note, appexit_suggestion, bind_appexit, main_return_without_appexit, unused_appexit, AppExitFinding, CallSite, MainReturn};
use bevy_lint::bundle::{can_be_spawn_empty, insert_unit_bundle, unit_in_bundle, Clause, FnSignature, UnitFinding};
use bevy_lint::camera::camera_modification_in_fixed_update;
use bevy_lint::diag::Applicability;
use bevy_lint::expr::{Callee, Expr, ExprKind, MethodCall, Span};
use bevy_lint::naming::{plugin_not_ending_in_plugin, plugin_rename, rename_label, unconventional_naming, NamingFinding, SelfDef, TraitConvention};
use bevy_lint::panicking::{panicking_call, panicking_help, PanickingType};
use bevy_lint::paths::BevyPath;
use bevy_lint::reborrow::{borrowed_reborrowable, FnParam, Reborrowable};
use bevy_lint::reflect::{missing_reflect, ImplNode, ImplSelf, ReflectCandidate, ReflectCategory, TraitType, TypeDef};
use bevy_lint::ty::Ty;
use bevy_lint::unit_struct::{missing_default, missing_default_message, missing_default_note, missing_traits, DefaultCandidate, StructShape, Trait, UnitStructItem};

fn sp(lo: u32, hi: u32) -> Span {
    Span { lo, hi }
}

fn path_of(p: BevyPath) -> Vec<String> {
    p.segments().iter().map(|s| s.to_string()).collect()
}

fn bevy(p: BevyPath, args: Vec<Ty>) -> Ty {
    Ty::Adt { path: path_of(p), args }
}

fn local(name: &str) -> Ty {
    Ty::Adt { path: vec!["my_game".to_string(), name.to_string()], args: vec![] }
}

fn unit() -> Ty {
    Ty::Tuple(vec![])
}

fn mut_ref(t: Ty) -> Ty {
    Ty::Ref { mutable: true, inner: Box::new(t) }
}

fn shared_ref(t: Ty) -> Ty {
    Ty::Ref { mutable: false, inner: Box::new(t) }
}

fn ex(id: u64, ty: impl Fn() -> Ty, kind: ExprKind) -> Expr {
    Expr { id, span: sp(id as u32 * 10, id as u32 * 10 + 5), ty: ty(), adjusted_ty: ty(), kind }
}

fn method_call(name: &str, receiver: Expr, args: Vec<Expr>) -> Expr {
    ex(100, || Ty::Other, ExprKind::MethodCall { name: name.to_string(), method_span: sp(500, 520), receiver: Box::new(receiver), args })
}

// ---- naming conventions ----

fn named(name: &str) -> SelfDef {
    SelfDef::Named { name: name.to_string(), span: sp(7, 7 + name.len() as u32), from_external_macro: false, is_local: true }
}

fn summary(f: Option<NamingFinding>) -> Option<(TraitConvention, Span, String, Applicability)> {
    f.map(|f| (f.convention, f.span, f.suggestion, f.applicability))
}

#[test]
fn plugins_and_system_sets_need_their_suffix() {
    let plugin = path_of(BevyPath::Plugin);
    let set = path_of(BevyPath::SystemSet);
    assert_eq!(
        summary(unconventional_naming(Some(&plugin), &named("Physics"))),
        Some((TraitConvention::Plugin, sp(7, 14), "PhysicsPlugin".to_string(), Applicability::MaybeIncorrect))
    );
    assert!(unconventional_naming(Some(&plugin), &named("PhysicsPlugin")).is_none());
    assert_eq!(
        summary(unconventional_naming(Some(&set), &named("Movement"))),
        Some((TraitConvention::SystemSet, sp(7, 15), "MovementSystems".to_string(), Applicability::MaybeIncorrect))
    );
    assert!(unconventional_naming(Some(&set), &named("MovementSystems")).is_none());
    assert!(unconventional_naming(None, &named("Physics")).is_none());
    let foreign = SelfDef::Named { name: "Physics".to_string(), span: sp(1, 8), from_external_macro: false, is_local: false };
    assert!(unconventional_naming(Some(&plugin), &foreign).is_none());
    let from_macro = SelfDef::Named { name: "Physics".to_string(), span: sp(1, 8), from_external_macro: true, is_local: true };
    assert!(unconventional_naming(Some(&plugin), &from_macro).is_none());
    assert!(unconventional_naming(Some(&plugin), &SelfDef::GenericParam).is_none());
}

#[test]
fn suggested_names_follow_the_convention() {
    let p = TraitConvention::Plugin;
    assert_eq!(p.name_suggestion("Physics"), "PhysicsPlugin");
    assert_eq!(p.name_suggestion("PluginPhysics"), "PhysicsPlugin");
    assert_eq!(p.name_suggestion("PhysicsPlugins"), "PhysicsPlugin");
    let s = TraitConvention::SystemSet;
    assert_eq!(s.name_suggestion("MovementSystem"), "MovementSystems");
    assert_eq!(s.name_suggestion("MovementSet"), "MovementSystems");
    assert_eq!(s.name_suggestion("MovementSteps"), "MovementSystems");
    assert_eq!(s.name_suggestion("Movement"), "MovementSystems");
    for name in ["Physics", "PluginPhysics", "PhysicsPlugins", "Set", ""] {
        assert!(p.matches_conventional_name(&p.name_suggestion(name)));
        assert!(s.matches_conventional_name(&s.name_suggestion(name)));
    }
    assert_eq!(p.lint_description(), "unconventional type name for a `Plugin`");
    assert_eq!(s.note(), "structures that implement `SystemSet` should end in \"Systems\"");
    assert_eq!(p.implemented_here(), "`Plugin` implemented here");
}

#[test]
fn plugin_not_ending_in_plugin_is_suggested_a_rename() {
    let plugin = path_of(BevyPath::Plugin);
    assert_eq!(
        summary(plugin_not_ending_in_plugin(Some(&plugin), &named("Physics"))),
        Some((TraitConvention::Plugin, sp(7, 14), "PhysicsPlugin".to_string(), Applicability::MaybeIncorrect))
    );
    assert!(plugin_not_ending_in_plugin(Some(&plugin), &named("PhysicsPlugin")).is_none());
    assert!(plugin_not_ending_in_plugin(Some(&path_of(BevyPath::SystemSet)), &named("Physics")).is_none());
    assert_eq!(plugin_rename("Physics"), "PhysicsPlugin");
    assert_eq!(rename_label("Physics"), "rename `Physics`");
}

// ---- re-borrowable parameters ----

#[test]
fn mutable_references_to_reborrowable_types_are_reported() {
    let params = vec![
        FnParam { ty: mut_ref(bevy(BevyPath::Commands, vec![])), is_self: false, output_borrows: false },
        FnParam { ty: shared_ref(bevy(BevyPath::Query, vec![])), is_self: false, output_borrows: false },
        FnParam { ty: mut_ref(bevy(BevyPath::ResMut, vec![local("Score")])), is_self: false, output_borrows: false },
        FnParam { ty: mut_ref(bevy(BevyPath::Commands, vec![])), is_self: false, output_borrows: true },
        FnParam { ty: mut_ref(bevy(BevyPath::World, vec![])), is_self: false, output_borrows: false },
        FnParam { ty: mut_ref(bevy(BevyPath::EntityCommands, vec![])), is_self: true, output_borrows: false },
    ];
    assert_eq!(
        borrowed_reborrowable(&params, false),
        vec![(0, Reborrowable::Commands, Applicability::MaybeIncorrect), (2, Reborrowable::ResMut, Applicability::MaybeIncorrect)]
    );
    assert!(borrowed_reborrowable(&params, true).is_empty());
    assert_eq!(Reborrowable::Commands.message(), "parameter takes `&mut Commands` instead of a re-borrowed `Commands`");
    assert_eq!(Reborrowable::Query.help(), "use `Query` instead");
    assert_eq!(Reborrowable::Commands.suggest(Some("commands"), "Commands<'_, '_>"), "mut commands: Commands<'_, '_>");
    assert_eq!(Reborrowable::Commands.suggest(None, "Commands"), "mut _: Commands");
}

// ---- panicking methods ----

#[test]
fn panicking_world_and_query_methods_get_alternatives() {
    let world = ex(1, || mut_ref(bevy(BevyPath::World, vec![])), ExprKind::Other);
    let e = method_call("resource_mut", world, vec![]);
    assert_eq!(panicking_call(&MethodCall::try_from(&e).unwrap(), false), Some((PanickingType::World, "get_resource_mut")));
    let query = ex(1, || bevy(BevyPath::Query, vec![]), ExprKind::Other);
    let e = method_call("many", query, vec![]);
    assert_eq!(panicking_call(&MethodCall::try_from(&e).unwrap(), false), Some((PanickingType::Query, "get_many")));
    let query = ex(1, || bevy(BevyPath::Query, vec![]), ExprKind::Other);
    let e = method_call("single", query, vec![]);
    assert_eq!(panicking_call(&MethodCall::try_from(&e).unwrap(), false), None);
    let world = ex(1, || bevy(BevyPath::World, vec![]), ExprKind::Other);
    let e = method_call("entity", world, vec![]);
    assert_eq!(panicking_call(&MethodCall::try_from(&e).unwrap(), true), None);
    assert_eq!(
        PanickingType::Query.message(),
        "called a `Query` method that can panic when a non-panicking alternative exists"
    );
}

#[test]
fn panicking_help_builds_the_replacement_call() {
    assert_eq!(
        panicking_help(PanickingType::Query, "get_many", false, Some("query"), "", "[e1, e2]"),
        "use `query.get_many([e1, e2])` and handle the `Option` or `Result`"
    );
    assert_eq!(
        panicking_help(PanickingType::World, "get_resource", true, Some("&world"), "::<Score>", ""),
        "use `World::get_resource::<Score>(&world)` and handle the `Option` or `Result`"
    );
    assert_eq!(
        panicking_help(PanickingType::World, "get_entity", true, Some("&world"), "", "e"),
        "use `World::get_entity(&world, e)` and handle the `Option` or `Result`"
    );
    assert_eq!(
        panicking_help(PanickingType::World, "get_entity", false, None, "", "e"),
        "use `World::get_entity(e)` and handle the `Option` or `Result`"
    );
}

// ---- Reflect ----

fn tt(id: u64) -> TraitType {
    TraitType { hir_id: id, item_span: sp(id as u32, id as u32 + 1), impl_span: sp(100 + id as u32, 101 + id as u32) }
}

#[test]
fn local_impls_keep_only_local_types() {
    let impls = vec![
        ImplNode::Impl { impl_span: sp(1, 2), self_ty: ImplSelf::Local { hir_id: 7, item_span: sp(3, 4) } },
        ImplNode::Impl { impl_span: sp(5, 6), self_ty: ImplSelf::Foreign },
        ImplNode::Other,
        ImplNode::Impl { impl_span: sp(7, 8), self_ty: ImplSelf::Unresolved },
    ];
    let found = TraitType::from_local_crate(&impls);
    assert_eq!(found.len(), 1);
    assert_eq!((found[0].hir_id, found[0].item_span, found[0].impl_span), (7, sp(3, 4), sp(1, 2)));
}

#[test]
fn components_without_reflect_are_reported_once_per_trait() {
    let reflected = vec![tt(1)];
    let cand = |id: u64, def: TypeDef| ReflectCandidate { ty: tt(id), from_external_macro: false, def };
    let events = vec![cand(2, TypeDef::Struct { fields_partial_reflect: vec![true] })];
    let messages = vec![];
    let components = vec![
        cand(1, TypeDef::Struct { fields_partial_reflect: vec![] }),
        cand(2, TypeDef::Struct { fields_partial_reflect: vec![true] }),
        cand(3, TypeDef::Enum { fields_partial_reflect: vec![true, false] }),
        ReflectCandidate { ty: tt(4), from_external_macro: true, def: TypeDef::Union },
    ];
    let resources = vec![cand(5, TypeDef::Union)];
    let found = missing_reflect(&reflected, &events, &messages, &components, &resources);
    let summary: Vec<(u64, ReflectCategory, Applicability)> = found.iter().map(|f| (f.ty.hir_id, f.category, f.applicability)).collect();
    assert_eq!(
        summary,
        vec![
            (2, ReflectCategory::Event, Applicability::MachineApplicable),
            (2, ReflectCategory::Component, Applicability::MachineApplicable),
            (3, ReflectCategory::Component, Applicability::MaybeIncorrect),
            (5, ReflectCategory::Resource, Applicability::MaybeIncorrect),
        ]
    );
    assert_eq!(ReflectCategory::Component.message(), "defined a component without a `Reflect` implementation");
    assert_eq!(found[0].span(), sp(2, 3));
    assert_eq!(found[0].suggestion(), "#[derive(Reflect)]");
    assert_eq!(found[0].help(), "`Reflect` can be automatically derived");
    assert_eq!(ReflectCategory::Resource.note(), "`Resource` implemented here");
}

// ---- unit structs ----

#[test]
fn unit_structs_are_reported_for_each_missing_trait() {
    let item = UnitStructItem { from_external_macro: false, is_struct: true, is_unit: true, copy: Some(false), clone: Some(true), default: Some(false) };
    assert_eq!(
        missing_traits(&item),
        vec![(Trait::Copy, Applicability::MachineApplicable), (Trait::Default, Applicability::MachineApplicable)]
    );
    let unknown = UnitStructItem { copy: None, clone: None, default: None, ..item };
    assert!(missing_traits(&unknown).is_empty());
    let not_unit = UnitStructItem { is_unit: false, ..item };
    assert!(missing_traits(&not_unit).is_empty());
    let from_macro = UnitStructItem { from_external_macro: true, ..item };
    assert!(missing_traits(&from_macro).is_empty());
    assert_eq!(Trait::Clone.message(), "defined a unit struct without a `Clone` implementation");
    assert_eq!(Trait::Default.help(), "`Default` can be automatically derived");
    assert_eq!(Trait::Copy.derive_attribute(), "#[derive(Copy)]");
    assert_eq!(Trait::Copy.lint_name(), "bevy::missing_copy");
}

#[test]
fn unit_components_without_default_are_all_reported() {
    let c = |id: u64, implements_default: bool, shape: StructShape| DefaultCandidate { ty: tt(id), implements_default, shape };
    let components = vec![
        c(1, false, StructShape::Struct { field_count: 0 }),
        c(2, true, StructShape::Struct { field_count: 0 }),
        c(3, false, StructShape::NotStruct),
        c(4, false, StructShape::Struct { field_count: 0 }),
        c(5, false, StructShape::Struct { field_count: 2 }),
        c(6, false, StructShape::Struct { field_count: 0 }),
    ];
    let found: Vec<(u64, Applicability)> = missing_default(true, &components).iter().map(|(t, a)| (t.hir_id, *a)).collect();
    assert_eq!(
        found,
        vec![(1, Applicability::MachineApplicable), (4, Applicability::MachineApplicable), (6, Applicability::MachineApplicable)]
    );
    assert!(missing_default(false, &components).is_empty());
    assert_eq!(missing_default_message(), "defined a unit struct without a `Default` implementation");
    assert_eq!(missing_default_note(), "`Component` implemented here");
    assert_eq!(Trait::Default.derive_attribute(), "#[derive(Default)]");
}

#[test]
fn a_unit_component_after_one_with_fields_is_reported() {
    let components = vec![
        DefaultCandidate { ty: tt(1), implements_default: false, shape: StructShape::Struct { field_count: 3 } },
        DefaultCandidate { ty: tt(2), implements_default: false, shape: StructShape::Struct { field_count: 0 } },
    ];
    let found = missing_default(true, &components);
    assert_eq!(found.len(), 1);
    assert_eq!((found[0].0.hir_id, found[0].0.item_span, found[0].1), (2, sp(2, 3), Applicability::MachineApplicable));
}

// ---- AppExit ----

fn call_site(id: u64, name: &str, ty: Ty, used: bool) -> CallSite {
    CallSite { call_id: id, span: sp(id as u32 * 10, id as u32 * 10 + 5), method_name: name.to_string(), in_external_macro: false, receiver_ty: ty, result_used: used }
}

#[test]
fn dropped_appexit_in_main_is_reported() {
    let calls = vec![
        call_site(1, "run", mut_ref(bevy(BevyPath::App, vec![])), false),
        call_site(2, "run", bevy(BevyPath::App, vec![]), true),
        call_site(3, "add_plugins", bevy(BevyPath::App, vec![]), false),
        call_site(4, "run", bevy(BevyPath::World, vec![]), false),
    ];
    assert_eq!(
        main_return_without_appexit(true, MainReturn::Default { span: sp(10, 10) }, &calls),
        vec![AppExitFinding { call_id: 1, span: sp(10, 15), fix_span: sp(10, 10), fix: " -> AppExit", applicability: Applicability::MaybeIncorrect }]
    );
    assert_eq!(
        main_return_without_appexit(true, MainReturn::Unit { span: sp(10, 12) }, &calls),
        vec![AppExitFinding { call_id: 1, span: sp(10, 15), fix_span: sp(10, 12), fix: "AppExit", applicability: Applicability::MaybeIncorrect }]
    );
    assert!(main_return_without_appexit(true, MainReturn::Other, &calls).is_empty());
    assert!(main_return_without_appexit(false, MainReturn::Default { span: sp(10, 10) }, &calls).is_empty());
    let mut from_macro = call_site(5, "run", bevy(BevyPath::App, vec![]), false);
    from_macro.in_external_macro = true;
    assert!(main_return_without_appexit(true, MainReturn::Default { span: sp(10, 10) }, &vec![from_macro]).is_empty());
    assert_eq!(
        appexit_suggestion(MainReturn::Default { span: sp(10, 10) }),
        Some((sp(10, 10), " -> AppExit", Applicability::MaybeIncorrect))
    );
    assert_eq!(
        appexit_suggestion(MainReturn::Unit { span: sp(10, 12) }),
        Some((sp(10, 12), "AppExit", Applicability::MaybeIncorrect))
    );
    assert_eq!(appexit_suggestion(MainReturn::Other), None);
    assert!(appexit_note().starts_with("`App::run()` returns `AppExit`"));
}

#[test]
fn unused_appexit_needs_the_method_form() {
    let e = method_call("run", ex(1, || bevy(BevyPath::App, vec![]), ExprKind::Other), vec![]);
    assert!(unused_appexit(&MethodCall::try_from(&e).unwrap(), false));
    assert!(!unused_appexit(&MethodCall::try_from(&e).unwrap(), true));
    assert_eq!(bind_appexit("app.run()"), "let _app_exit = app.run()");
}

// ---- bundles ----

fn tup(id: u64, items: Vec<Expr>, ty: fn() -> Ty) -> Expr {
    ex(id, ty, ExprKind::Tup(items))
}

#[test]
fn spawning_a_unit_suggests_spawn_empty() {
    let commands = ex(1, || bevy(BevyPath::Commands, vec![]), ExprKind::Other);
    let e = method_call("spawn", commands, vec![tup(2, vec![], unit)]);
    let call = MethodCall::try_from(&e).unwrap();
    let spawn_empty = UnitFinding::SpawnEmpty { unit_expr: 2, call_span: sp(500, 520), applicability: Applicability::MachineApplicable };
    assert_eq!(insert_unit_bundle(&call, false), vec![spawn_empty]);
    assert_eq!(spawn_empty.replacement(), Some("spawn_empty()"));
    assert_eq!(can_be_spawn_empty(&call).map(|e| e.id), Some(2));
    // A call that comes from an external macro is skipped.
    assert!(insert_unit_bundle(&call, true).is_empty());
    // The same call seen as any call with a bundle parameter.
    let sig = FnSignature {
        inputs: vec![mut_ref(bevy(BevyPath::Commands, vec![])), Ty::Param(0)],
        clauses: vec![Clause::Trait { trait_path: path_of(BevyPath::Bundle), self_ty: Ty::Param(0), positive: true, has_bound_vars: false }],
    };
    assert_eq!(unit_in_bundle(&e, Some(&sig), false), vec![spawn_empty]);
}

#[test]
fn units_inside_spawned_bundles_are_reported() {
    let commands = ex(1, || bevy(BevyPath::Commands, vec![]), ExprKind::Other);
    let bundle = tup(2, vec![ex(3, || local("Name"), ExprKind::Other), tup(4, vec![], unit)], || Ty::Tuple(vec![local("Name"), unit()]));
    let e = method_call("spawn", commands, vec![bundle]);
    let call = MethodCall::try_from(&e).unwrap();
    assert_eq!(insert_unit_bundle(&call, false), vec![UnitFinding::InBundle { unit_expr: 4 }]);
    assert!(can_be_spawn_empty(&call).is_none());
}

#[test]
fn bundle_parameters_of_any_call_are_inspected() {
    // fn insert<B: Bundle>(entity: &mut EntityCommands, bundle: B), called as
    // `entity.insert((Name, ()))`.
    let sig = FnSignature {
        inputs: vec![mut_ref(bevy(BevyPath::EntityCommands, vec![])), Ty::Param(0)],
        clauses: vec![Clause::Trait { trait_path: path_of(BevyPath::Bundle), self_ty: Ty::Param(0), positive: true, has_bound_vars: false }],
    };
    let entity = ex(1, || bevy(BevyPath::EntityCommands, vec![]), ExprKind::Other);
    let bundle = tup(2, vec![ex(3, || local("Name"), ExprKind::Other), tup(4, vec![], unit)], || Ty::Tuple(vec![local("Name"), unit()]));
    let e = method_call("insert", entity, vec![bundle]);
    assert_eq!(unit_in_bundle(&e, Some(&sig), false), vec![UnitFinding::InBundle { unit_expr: 4 }]);
    assert!(unit_in_bundle(&e, Some(&sig), true).is_empty());
    assert!(unit_in_bundle(&e, None, false).is_empty());

    // A plain call `spawn_batch_like(((), Name))` of `fn spawn_batch_like<B: Bundle>(b: B)`.
    let sig = FnSignature {
        inputs: vec![Ty::Param(0)],
        clauses: vec![Clause::Trait { trait_path: path_of(BevyPath::Bundle), self_ty: Ty::Param(0), positive: true, has_bound_vars: false }],
    };
    let arg = tup(5, vec![tup(6, vec![], unit), ex(7, || local("Name"), ExprKind::Other)], || Ty::Tuple(vec![unit(), local("Name")]));
    let e = Expr { id: 8, span: sp(0, 9), ty: Ty::Other, adjusted_ty: Ty::Other, kind: ExprKind::Call { callee: Callee::Other, args: vec![arg] } };
    assert_eq!(unit_in_bundle(&e, Some(&sig), false), vec![UnitFinding::InBundle { unit_expr: 6 }]);
}

// ---- camera in FixedUpdate ----

fn system(id: u64, params: fn() -> Vec<Ty>) -> Expr {
    ex(id, || Ty::Other, ExprKind::Path { fn_params: Some(params()) })
}

fn camera_query(mutable: bool) -> Ty {
    let data = Ty::Ref { mutable, inner: Box::new(local("Transform")) };
    bevy(BevyPath::Query, vec![data, bevy(BevyPath::With, vec![bevy(BevyPath::Camera, vec![])])])
}

#[test]
fn mutable_camera_queries_in_fixed_update_are_reported() {
    let app = ex(1, || bevy(BevyPath::App, vec![]), ExprKind::Other);
    let label = ex(2, || bevy(BevyPath::FixedUpdate, vec![]), ExprKind::Other);
    let systems = tup(3, vec![system(4, || vec![camera_query(true)]), system(5, || vec![camera_query(false)]), system(6, || vec![local("Time"), camera_query(true)])], || Ty::Other);
    let e = method_call("add_systems", app, vec![label, systems]);
    assert_eq!(camera_modification_in_fixed_update(&MethodCall::try_from(&e).unwrap()), vec![4, 6]);

    let app = ex(1, || bevy(BevyPath::App, vec![]), ExprKind::Other);
    let label = ex(2, || bevy(BevyPath::Update, vec![]), ExprKind::Other);
    let e = method_call("add_systems", app, vec![label, system(4, || vec![camera_query(true)])]);
    assert!(camera_modification_in_fixed_update(&MethodCall::try_from(&e).unwrap()).is_empty());

    let app = ex(1, || bevy(BevyPath::App, vec![]), ExprKind::Other);
    let label = ex(2, || bevy(BevyPath::FixedUpdate, vec![]), ExprKind::Other);
    let e = method_call("add_systems", app, vec![label, system(4, || vec![camera_query(true)])]);
    assert_eq!(camera_modification_in_fixed_update(&MethodCall::try_from(&e).unwrap()), vec![4]);
    assert_eq!(bevy_lint::camera::description(), "Camera modification in FixedUpdate schedule");

    // A `Query<Entity>` parameter does not hide a later mutable camera query.
    let app = ex(1, || bevy(BevyPath::App, vec![]), ExprKind::Other);
    let label = ex(2, || bevy(BevyPath::FixedUpdate, vec![]), ExprKind::Other);
    let systems = tup(3, vec![system(4, || vec![bevy(BevyPath::Query, vec![local("Entity")])]), system(5, || vec![camera_query(true)])], || Ty::Other);
    let e = method_call("add_systems", app, vec![label, systems]);
    assert_eq!(camera_modification_in_fixed_update(&MethodCall::try_from(&e).unwrap()), vec![5]);
    let app = ex(1, || bevy(BevyPath::App, vec![]), ExprKind::Other);
    let label = ex(2, || bevy(BevyPath::FixedUpdate, vec![]), ExprKind::Other);
    let e = method_call("add_systems", app, vec![label, system(4, || vec![bevy(BevyPath::Query, vec![local("Entity")]), camera_query(true)])]);
    assert_eq!(camera_modification_in_fixed_update(&MethodCall::try_from(&e).unwrap()), vec![4]);

    assert_eq!(bevy_lint::camera::help(), "Put System in Update instead");
}
