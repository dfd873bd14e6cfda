use bevy_lint::config::{combine_configs, deserialize_linter_config, insert_lint_levels, level_text, merge_linter_configs, ConfigValue};

/// The level names that the compiler reads from a string.
const LEVELS: &[&str] = &["allow", "warn", "deny", "forbid"];

fn s(v: &str) -> ConfigValue {
    ConfigValue::String(v.to_string())
}

fn obj(entries: Vec<(&str, ConfigValue)>) -> ConfigValue {
    ConfigValue::Object(entries.into_iter().map(|(k, v)| (k.to_string(), v)).collect())
}

fn entries(v: &ConfigValue) -> Vec<(String, String)> {
    match v {
        ConfigValue::Object(e) => e
            .iter()
            .map(|(k, v)| {
                let text = match v {
                    ConfigValue::String(s) => s.clone(),
                    ConfigValue::Object(_) => "{..}".to_string(),
                    ConfigValue::Bool(b) => b.to_string(),
                    ConfigValue::Number(n) => n.clone(),
                    ConfigValue::Null => "null".to_string(),
                    ConfigValue::Array(_) => "[..]".to_string(),
                };
                (k.clone(), text)
            })
            .collect(),
        _ => panic!("not an object"),
    }
}

fn pairs(v: &[(&str, &str)]) -> Vec<(String, String)> {
    v.iter().map(|(a, b)| (a.to_string(), b.to_string())).collect()
}

#[test]
fn crate_config_overrides_workspace_config() {
    let workspace = obj(vec![("missing_reflect", s("warn")), ("panicking_methods", s("deny"))]);
    let krate = obj(vec![("missing_reflect", s("allow")), ("zst_query", s("warn"))]);
    let merged = merge_linter_configs(workspace, krate);
    assert_eq!(
        entries(&merged),
        pairs(&[("missing_reflect", "allow"), ("panicking_methods", "deny"), ("zst_query", "warn")])
    );
}

#[test]
fn merged_keys_stay_sorted() {
    let workspace = obj(vec![("b", s("1")), ("d", s("2"))]);
    let krate = obj(vec![("a", s("3")), ("c", s("4")), ("e", s("5"))]);
    let merged = merge_linter_configs(workspace, krate);
    assert_eq!(entries(&merged), pairs(&[("a", "3"), ("b", "1"), ("c", "4"), ("d", "2"), ("e", "5")]));
}

#[test]
fn non_table_configs_give_the_crate_value() {
    // The crate's configuration takes precedence: a workspace value that is not a table does
    // not hide the crate's table.
    let merged = merge_linter_configs(s("warn"), obj(vec![("missing_reflect", s("deny"))]));
    assert_eq!(entries(&merged), pairs(&[("missing_reflect", "deny")]));
    let merged = merge_linter_configs(obj(vec![("a", s("1"))]), ConfigValue::Bool(true));
    assert!(matches!(merged, ConfigValue::Bool(true)));
}

#[test]
fn combine_configs_uses_whichever_is_given() {
    assert!(combine_configs(None, None).is_none());
    let only_ws = combine_configs(Some(obj(vec![("a", s("warn"))])), None).unwrap();
    assert_eq!(entries(&only_ws), pairs(&[("a", "warn")]));
    let only_crate = combine_configs(None, Some(obj(vec![("b", s("deny"))]))).unwrap();
    assert_eq!(entries(&only_crate), pairs(&[("b", "deny")]));
    let both = combine_configs(Some(obj(vec![("a", s("warn"))])), Some(obj(vec![("a", s("deny"))]))).unwrap();
    assert_eq!(entries(&both), pairs(&[("a", "deny")]));
}

#[test]
fn lint_levels_come_from_strings_and_level_tables() {
    // missing_reflect = "warn"
    // insert_event_resource = { level = "allow" }
    let config = obj(vec![
        ("insert_event_resource", obj(vec![("level", s("allow"))])),
        ("missing_reflect", s("warn")),
        ("no_level", obj(vec![("other", s("deny"))])),
        ("number", ConfigValue::Number("3".to_string())),
        ("wrong_level_type", obj(vec![("level", ConfigValue::Bool(true))])),
    ]);
    let flags = insert_lint_levels(&config, LEVELS);
    assert_eq!(
        flags,
        pairs(&[("bevy::insert_event_resource", "allow"), ("bevy::missing_reflect", "warn")])
    );
}

#[test]
fn lint_levels_of_a_non_table_are_empty() {
    assert!(insert_lint_levels(&s("warn"), LEVELS).is_empty());
    assert!(insert_lint_levels(&ConfigValue::Null, LEVELS).is_empty());
    assert!(insert_lint_levels(&ConfigValue::Array(vec![s("warn")]), LEVELS).is_empty());
}

#[test]
fn level_text_reads_the_level_key() {
    assert_eq!(level_text(&s("deny")).map(|s| s.as_str()), Some("deny"));
    let t = obj(vec![("level", s("forbid")), ("priority", ConfigValue::Number("1".to_string()))]);
    assert_eq!(level_text(&t).map(|s| s.as_str()), Some("forbid"));
    assert_eq!(level_text(&ConfigValue::Bool(false)), None);
}

#[test]
fn configuration_is_only_loaded_under_cargo() {
    let ws = || Some(obj(vec![("missing_reflect", s("warn"))]));
    let krate = || Some(obj(vec![("missing_reflect", obj(vec![("level", s("deny"))]))]));
    assert!(bevy_lint::config::load_config(false, ws(), krate(), LEVELS).is_none());
    assert!(bevy_lint::config::load_config(true, None, None, LEVELS).is_none());
    let (config, flags) = bevy_lint::config::load_config(true, ws(), krate(), LEVELS).unwrap();
    assert_eq!(entries(&config), pairs(&[("missing_reflect", "{..}")]));
    assert_eq!(flags, pairs(&[("bevy::missing_reflect", "deny")]));
    let (_, flags) = bevy_lint::config::load_config(true, ws(), None, LEVELS).unwrap();
    assert_eq!(flags, pairs(&[("bevy::missing_reflect", "warn")]));
}

#[test]
fn unknown_lint_levels_are_skipped() {
    let config = obj(vec![
        ("insert_event_resource", obj(vec![("level", s("allow"))])),
        ("missing_reflect", s("bogus")),
        ("panicking_methods", obj(vec![("level", s("loud"))])),
        ("zst_query", s("forbid")),
    ]);
    let flags = insert_lint_levels(&config, LEVELS);
    assert_eq!(
        flags,
        pairs(&[("bevy::insert_event_resource", "allow"), ("bevy::zst_query", "forbid")])
    );
    assert!(insert_lint_levels(&config, &[]).is_empty());
}

#[test]
fn the_linter_table_is_read_from_the_metadata() {
    // [package.metadata.bevy_lint]
    // missing_reflect = "warn"
    let table = obj(vec![("missing_reflect", s("warn"))]);
    let metadata = obj(vec![("bevy_lint", table), ("other_tool", s("x"))]);
    let found = deserialize_linter_config(metadata).unwrap();
    assert_eq!(entries(&found), pairs(&[("missing_reflect", "warn")]));
    // A value of another kind is handed on as it is.
    assert!(matches!(deserialize_linter_config(obj(vec![("bevy_lint", s("warn"))])), Some(ConfigValue::String(ref v)) if v == "warn"));
    // Missing, `null`, or no metadata at all: nothing.
    assert!(deserialize_linter_config(obj(vec![("other_tool", s("x"))])).is_none());
    assert!(deserialize_linter_config(obj(vec![("bevy_lint", ConfigValue::Null)])).is_none());
    assert!(deserialize_linter_config(ConfigValue::Null).is_none());
    assert!(deserialize_linter_config(s("bevy_lint")).is_none());
    // An array is read field by field: one element is the `bevy_lint` value.
    assert!(matches!(deserialize_linter_config(ConfigValue::Array(vec![s("warn")])), Some(ConfigValue::String(ref v)) if v == "warn"));
    assert!(deserialize_linter_config(ConfigValue::Array(vec![])).is_none());
    assert!(deserialize_linter_config(ConfigValue::Array(vec![s("a"), s("b")])).is_none());
}
