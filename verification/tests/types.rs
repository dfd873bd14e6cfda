use bevy_lint::hir::{generic_at, generic_type_at, impls_trait, HirGenericArg, HirPathSegment, HirTy, TraitRef};
use bevy_lint::paths::BevyPath;
use bevy_lint::platform::{
    bevy_platform_alternative_exists, generic_args_snippet, get_first_segment, BevyPlatformType, PathNode,
    PathSegmentNode, SegmentRes,
};
use bevy_lint::query::{detuple, is_zero_sized, zst_query, zst_query_description, QueryKind};
use bevy_lint::reborrow::contains_region;
use bevy_lint::ty::Ty;

fn path_of(p: BevyPath) -> Vec<String> {
    p.segments().iter().map(|s| s.to_string()).collect()
}

fn bevy(p: BevyPath, args: Vec<Ty>) -> Ty {
    Ty::Adt { path: path_of(p), args }
}

fn local(name: &str) -> Ty {
    Ty::Adt { path: vec!["my_game".to_string(), name.to_string()], args: vec![] }
}

fn shared_ref(t: Ty) -> Ty {
    Ty::Ref { mutable: false, inner: Box::new(t) }
}

fn name_of(t: &Ty) -> String {
    match t {
        Ty::Adt { path, .. } => path.join("::"),
        Ty::Ref { mutable, inner } => format!("&{}{}", if *mutable { "mut " } else { "" }, name_of(inner)),
        Ty::Tuple(items) => format!("({})", items.iter().map(name_of).collect::<Vec<_>>().join(", ")),
        Ty::Param(i) => format!("T{i}"),
        Ty::Other => "_".to_string(),
    }
}

// ---- zero-sized queries ----

#[test]
fn detuple_splits_tuples_and_references_to_tuples() {
    let t = Ty::Tuple(vec![local("A"), shared_ref(local("B"))]);
    let items: Vec<String> = detuple(&t).into_iter().map(name_of).collect();
    assert_eq!(items, vec!["my_game::A", "&my_game::B"]);

    let t = shared_ref(Ty::Tuple(vec![local("A"), local("C")]));
    let items: Vec<String> = detuple(&t).into_iter().map(name_of).collect();
    assert_eq!(items, vec!["my_game::A", "my_game::C"]);

    let t = shared_ref(local("Player"));
    let items: Vec<String> = detuple(&t).into_iter().map(name_of).collect();
    assert_eq!(items, vec!["&my_game::Player"]);
}

#[test]
fn zero_sized_needs_a_normalizable_type_and_a_layout() {
    assert_eq!(is_zero_sized(false, Some(0)), None);
    assert_eq!(is_zero_sized(true, Some(0)), Some(true));
    assert_eq!(is_zero_sized(true, Some(24)), Some(false));
    assert_eq!(is_zero_sized(true, None), None);
}

#[test]
fn zst_query_reports_zero_sized_items() {
    let query = bevy(BevyPath::Query, vec![]);
    let data = Ty::Tuple(vec![shared_ref(local("Player")), local("Transform"), local("Unknown"), local("Marker")]);
    let sizes = vec![Some(true), Some(false), None, Some(true)];
    assert_eq!(zst_query(&query, false, Some(&data), &sizes), vec![0, 3]);
    assert!(zst_query(&query, true, Some(&data), &sizes).is_empty());
    assert!(zst_query(&local("Query"), false, Some(&data), &sizes).is_empty());
    assert!(zst_query(&query, false, None, &vec![]).is_empty());
    assert_eq!(
        QueryKind::Query.help("Player"),
        "zero-sized types do not retrieve any data, consider using a filter instead: `With<Player>`"
    );
    assert_eq!(zst_query_description(), "queried a zero-sized type");
    assert_eq!(QueryKind::try_from_ty(&query), Some(QueryKind::Query));
    assert_eq!(QueryKind::try_from_ty(&local("Query")), None);
}

// ---- written types ----

fn seg(name: &str, args: Vec<HirGenericArg>) -> HirPathSegment {
    HirPathSegment { name: name.to_string(), args }
}

#[test]
fn generic_arguments_are_counted_with_lifetimes() {
    // bevy::prelude::Query<'w, 's, &Player, With<Camera>>
    let query = HirTy::Path {
        segments: vec![
            seg("bevy", vec![]),
            seg("prelude", vec![]),
            seg(
                "Query",
                vec![
                    HirGenericArg::Lifetime,
                    HirGenericArg::Lifetime,
                    HirGenericArg::Type(HirTy::Other),
                    HirGenericArg::Type(HirTy::Path { segments: vec![seg("With", vec![])] }),
                ],
            ),
        ],
    };
    assert!(matches!(generic_at(&query, 0), Some(HirGenericArg::Lifetime)));
    assert!(matches!(generic_at(&query, 2), Some(HirGenericArg::Type(HirTy::Other))));
    assert!(generic_at(&query, 4).is_none());
    assert!(generic_type_at(&query, 1).is_none());
    match generic_type_at(&query, 3) {
        Some(HirTy::Path { segments }) => assert_eq!(segments[0].name, "With"),
        _ => panic!("expected the filter type"),
    }
    assert!(generic_at(&HirTy::Other, 0).is_none());
    assert!(generic_at(&HirTy::Path { segments: vec![] }, 0).is_none());
}

#[test]
fn impls_trait_compares_the_trait_path() {
    let plugin = Some(TraitRef { def_path: Some(path_of(BevyPath::Plugin)) });
    assert!(impls_trait(&plugin, BevyPath::Plugin));
    assert!(!impls_trait(&plugin, BevyPath::SystemSet));
    assert!(!impls_trait(&None, BevyPath::Plugin));
    assert!(!impls_trait(&Some(TraitRef { def_path: None }), BevyPath::Plugin));
}

#[test]
fn contains_region_finds_the_region() {
    assert!(contains_region(&[4, 7, 9], 7));
    assert!(!contains_region(&[4, 7, 9], 8));
    assert!(!contains_region(&[], 0));
}

// ---- bevy_platform alternatives ----

fn pseg(name: &str, res: SegmentRes, generics: Option<&str>) -> PathSegmentNode {
    PathSegmentNode { name: name.to_string(), res, generics_text: generics.map(|s| s.to_string()) }
}

fn std_path(first: &str, res: SegmentRes, last: &str, generics: Option<&str>) -> PathNode {
    PathNode {
        resolves_to_struct: true,
        segments: vec![pseg(first, res, None), pseg("collections", SegmentRes::Other, None), pseg(last, SegmentRes::Other, generics)],
        in_external_macro: false,
    }
}

#[test]
fn platform_paths_are_written_in_full() {
    assert_eq!(BevyPlatformType::Instant.full_path(), "bevy::platform::time::Instant");
    assert_eq!(BevyPlatformType::HashMap.full_path(), "bevy::platform::collections::HashMap");
    assert_eq!(BevyPlatformType::SyncUnsafeCell.full_path(), "bevy::platform::cell::SyncUnsafeCell");
    assert_eq!(BevyPlatformType::DefaultHasher.full_path(), "bevy::platform::hash::DefaultHasher");
    assert_eq!(BevyPlatformType::Arc.full_path(), "bevy::platform::sync::Arc");
}

#[test]
fn first_segment_skips_the_root_of_global_paths() {
    let global = vec![pseg("{{root}}", SegmentRes::Other, None), pseg("std", SegmentRes::CrateRoot, None)];
    assert_eq!(get_first_segment(&global).unwrap().name, "std");
    let plain = vec![pseg("std", SegmentRes::CrateRoot, None), pseg("time", SegmentRes::Other, None)];
    assert_eq!(get_first_segment(&plain).unwrap().name, "std");
    let root_only = vec![pseg("{{root}}", SegmentRes::Other, None)];
    assert_eq!(get_first_segment(&root_only).unwrap().name, "{{root}}");
    assert!(get_first_segment(&[]).is_none());
}

#[test]
fn generic_args_snippet_adds_a_turbofish() {
    assert_eq!(generic_args_snippet(&Some("<u32, String>".to_string())), "::<u32, String>");
    assert_eq!(generic_args_snippet(&None), "");
}

#[test]
fn std_types_with_an_alternative_are_reported() {
    let path = std_path("std", SegmentRes::CrateRoot, "HashMap", Some("<K, V>"));
    let f = bevy_platform_alternative_exists(&path, false, Some(BevyPlatformType::HashMap), "std::collections::HashMap<K, V>").unwrap();
    assert_eq!(f.suggestion, "bevy::platform::collections::HashMap::<K, V>");
    assert_eq!(f.applicability, bevy_lint::diag::Applicability::MachineApplicable);
    assert_eq!(
        f.help,
        "the type `std::collections::HashMap<K, V>` can be replaced with the `no_std` compatible type bevy::platform::collections::HashMap::<K, V>"
    );
    let path = std_path("std", SegmentRes::CrateRoot, "HashMap", None);
    let f = bevy_platform_alternative_exists(&path, false, Some(BevyPlatformType::HashMap), "HashMap").unwrap();
    assert_eq!(f.suggestion, "bevy::platform::collections::HashMap");
}

#[test]
fn other_paths_are_not_reported() {
    let hm = Some(BevyPlatformType::HashMap);
    let path = std_path("core", SegmentRes::CrateRoot, "HashMap", None);
    assert!(bevy_platform_alternative_exists(&path, false, hm, "x").is_none());
    let path = std_path("std", SegmentRes::Other, "HashMap", None);
    assert!(bevy_platform_alternative_exists(&path, false, hm, "x").is_none());
    let path = std_path("std", SegmentRes::CrateRoot, "HashMap", None);
    assert!(bevy_platform_alternative_exists(&path, true, hm, "x").is_none());
    let path = std_path("std", SegmentRes::CrateRoot, "Vec", None);
    assert!(bevy_platform_alternative_exists(&path, false, None, "x").is_none());
    let mut path = std_path("std", SegmentRes::CrateRoot, "HashMap", None);
    path.in_external_macro = true;
    assert!(bevy_platform_alternative_exists(&path, false, hm, "x").is_none());
    let mut path = std_path("std", SegmentRes::CrateRoot, "HashMap", None);
    path.resolves_to_struct = false;
    assert!(bevy_platform_alternative_exists(&path, false, hm, "x").is_none());
}
