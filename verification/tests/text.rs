use bevy_lint::text::{
    contains, ends_with, find_char, index_of_char, second_piece, split_once_char, starts_with,
    str_eq, str_lt, strip_prefix, strip_suffix,
};

#[test]
fn str_lt_orders_like_str() {
    let words = ["", "A", "App", "Apple", "B", "Z", "_", "a", "b_c", "bevy", "bevy_app", "é"];
    for a in words {
        for b in words {
            assert_eq!(str_lt(a, b), a < b, "{a:?} < {b:?}");
        }
    }
}

#[test]
fn splitting_follows_str() {
    assert_eq!(split_once_char("registry#bevy@0.14.2", '@'), Some(("registry#bevy", "0.14.2")));
    assert_eq!(split_once_char("a@b@c", '@'), Some(("a", "b@c")));
    assert_eq!(split_once_char("abc", '@'), None);
    assert_eq!(second_piece("file:///p#0.1.0", '#'), Some("0.1.0"));
    assert_eq!(second_piece("a#b#c", '#'), Some("b"));
    assert_eq!(second_piece("a#", '#'), Some(""));
    assert_eq!(second_piece("abc", '#'), None);
    assert_eq!(index_of_char("hello", 'l'), Some(2));
    assert_eq!(find_char("hello", 'z'), None);
}

#[test]
fn prefixes_and_suffixes_follow_str() {
    assert!(starts_with("PluginPhysics", "Plugin"));
    assert!(!starts_with("Plug", "Plugin"));
    assert!(ends_with("PhysicsPlugin", "Plugin"));
    assert!(contains("registry#bevy_ecs", "bevy"));
    assert!(!contains("serde", "bevy"));
    assert_eq!(strip_prefix("PluginPhysics", "Plugin"), Some("Physics"));
    assert_eq!(strip_suffix("MovementSet", "Set"), Some("Movement"));
    assert_eq!(strip_suffix("Movement", "Set"), None);
    assert!(str_eq("bevy", "bevy"));
    assert!(!str_eq("bevy", "Bevy"));
}
