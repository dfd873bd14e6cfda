use bevy_lint::cli::{cargo_subcommand, cli_action, driver_args, exit_code, library_dir, library_path_var, version_line, CliAction};
use bevy_lint::lint::{group_lints, group_registrations, groups, lints, renamed_lints, BevyLintId, DefaultLevel, Group};
use bevy_lint::version::BevyItem;
use bevy_lint::{BevyLintCallback, BevyVersion, V0_15};

fn strings(v: &[&str]) -> Vec<String> {
    v.iter().map(|s| s.to_string()).collect()
}

#[test]
fn help_wins_over_version_and_fix() {
    assert_eq!(cli_action(true, true, true), CliAction::ShowHelp);
    assert_eq!(cli_action(false, true, true), CliAction::ShowVersion);
    assert_eq!(cli_action(false, false, true), CliAction::Check { fix: true });
    assert_eq!(cli_action(false, false, false), CliAction::Check { fix: false });
}

#[test]
fn fix_runs_cargo_fix() {
    assert_eq!(cargo_subcommand(true), "fix");
    assert_eq!(cargo_subcommand(false), "check");
}

#[test]
fn library_paths_depend_on_the_operating_system() {
    assert_eq!(library_path_var("windows"), "PATH");
    assert_eq!(library_path_var("macos"), "DYLD_LIBRARY_PATH");
    assert_eq!(library_path_var("linux"), "LD_LIBRARY_PATH");
    assert_eq!(library_dir("windows"), "bin");
    assert_eq!(library_dir("linux"), "lib");
}

#[test]
fn exit_codes_are_truncated_to_a_byte() {
    assert_eq!(exit_code(true, Some(3)), 0);
    assert_eq!(exit_code(false, Some(101)), 101);
    assert_eq!(exit_code(false, Some(257)), 1);
    assert_eq!(exit_code(false, Some(-1)), 255);
    assert_eq!(exit_code(false, None), 1);
}

#[test]
fn version_line_names_the_program() {
    assert_eq!(version_line("bevy_lint", "0.4.0"), "bevy_lint v0.4.0");
}

#[test]
fn driver_args_become_compiler_args() {
    let from_cargo = strings(&["/bin/bevy_lint_driver", "/toolchain/bin/rustc", "--crate-name", "game"]);
    assert_eq!(driver_args(from_cargo, true), strings(&["/toolchain/bin/rustc", "--crate-name", "game"]));
    let from_user = strings(&["/bin/bevy_lint_driver", "src/main.rs"]);
    assert_eq!(driver_args(from_user, false), strings(&["rustc", "src/main.rs"]));
}

#[test]
fn the_callback_adds_its_cfg_and_tool() {
    let cb = BevyLintCallback;
    let mut cfg = strings(&["feature=\"std\""]);
    cb.add_crate_cfg(&mut cfg);
    assert_eq!(cfg, strings(&["feature=\"std\"", "bevy_lint"]));

    let mut tools = strings(&["clippy"]);
    cb.registered_tools(&mut tools);
    assert_eq!(tools, strings(&["clippy", "bevy"]));
    cb.registered_tools(&mut tools);
    assert_eq!(tools, strings(&["clippy", "bevy"]));
}

#[test]
fn manifests_are_recorded_only_under_cargo() {
    let cb = BevyLintCallback;
    let mut depinfo = Vec::new();
    cb.manifest_dep_info(false, Some("/game/Cargo.toml"), Some("/Cargo.toml"), &mut depinfo);
    assert!(depinfo.is_empty());
    cb.manifest_dep_info(true, Some("/game/Cargo.toml"), Some("/Cargo.toml"), &mut depinfo);
    assert_eq!(depinfo, strings(&["/game/Cargo.toml", "/Cargo.toml"]));
    let mut depinfo = Vec::new();
    cb.manifest_dep_info(true, Some("/game/Cargo.toml"), Some("/game/Cargo.toml"), &mut depinfo);
    assert_eq!(depinfo, strings(&["/game/Cargo.toml"]));
    let mut depinfo = Vec::new();
    cb.manifest_dep_info(true, None, Some("/Cargo.toml"), &mut depinfo);
    assert_eq!(depinfo, strings(&["/Cargo.toml"]));
}

#[test]
fn groups_have_their_levels() {
    let names: Vec<&str> = groups().iter().map(|g| g.name()).collect();
    assert_eq!(
        names,
        vec![
            "bevy::correctness",
            "bevy::suspicious",
            "bevy::complexity",
            "bevy::performance",
            "bevy::style",
            "bevy::pedantic",
            "bevy::restriction",
            "bevy::nursery"
        ]
    );
    assert_eq!(Group::Correctness.level(), DefaultLevel::Deny);
    assert_eq!(Group::Style.level(), DefaultLevel::Warn);
    assert_eq!(Group::Nursery.level(), DefaultLevel::Allow);
}

#[test]
fn every_lint_is_registered_in_exactly_one_group() {
    let registrations = group_registrations();
    for lint in lints() {
        let holders: Vec<Group> = registrations.iter().filter(|(_, ls)| ls.contains(&lint)).map(|(g, _)| *g).collect();
        assert_eq!(holders, vec![lint.group()], "{}", lint.name());
        assert_eq!(lint.default_level(), lint.group().level());
    }
}

#[test]
fn group_lints_keep_the_registration_order() {
    assert_eq!(
        group_lints(Group::Nursery),
        vec![BevyLintId::CameraModificationInFixedUpdate, BevyLintId::DuplicateBevyDependencies, BevyLintId::ZstQuery]
    );
    assert!(group_lints(Group::Correctness).is_empty());
    assert_eq!(BevyLintId::ZstQuery.name(), "bevy::zst_query");
    assert_eq!(BevyLintId::ZstQuery.description(), "queried a zero-sized type");
    let renamed = renamed_lints();
    assert_eq!(renamed, vec![("bevy::plugin_not_ending_in_plugin", BevyLintId::UnconventionalNaming)]);
    assert!(lints().contains(&renamed[0].1));
}

#[test]
fn bevy_0_15_item_paths() {
    assert_eq!(V0_15::path(BevyItem::Events), vec!["bevy_ecs", "event", "collections", "Events"]);
    assert_eq!(V0_15::path(BevyItem::PtrMut), vec!["bevy_ptr", "PtrMut"]);
    let v = BevyVersion::V0_15(V0_15);
    assert_eq!(v.path(BevyItem::App), vec!["bevy_app", "app", "App"]);
    assert_eq!(V0_15::register_lints(), lints());
    assert_eq!(V0_15::register_groups().len(), 8);
}
