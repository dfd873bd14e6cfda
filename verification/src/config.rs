//! The linter's configuration from `[package.metadata.bevy_lint]` and
//! `[workspace.metadata.bevy_lint]`: merging the two tables and turning them into lint levels.

use vstd::prelude::*;

use crate::text::{concat2, seq_lt, str_eq, str_lt};

verus! {

/// A JSON value, as `cargo metadata` reports the metadata tables.
pub enum ConfigValue {
    Null,
    Bool(bool),
    /// A number, by its decimal text.
    Number(String),
    String(String),
    Array(Vec<ConfigValue>),
    /// An object's entries, in the order of their keys.
    Object(Vec<(String, ConfigValue)>),
}

/// The keys of the entries are in strictly increasing order, so no key occurs twice: the shape
/// of a JSON object's entries.
pub open spec fn keys_sorted(entries: Seq<(String, ConfigValue)>) -> bool {
    forall|i: int, j: int| 0 <= i < j < entries.len() ==> seq_lt(#[trigger] entries[i].0@, #[trigger] entries[j].0@)
}

/// The object holds the entry `key: value`.
pub open spec fn has_entry(entries: Seq<(String, ConfigValue)>, key: Seq<char>, value: ConfigValue) -> bool {
    exists|i: int| 0 <= i < entries.len() && #[trigger] entries[i].0@ == key && entries[i].1 == value
}

/// The object has an entry for `key`.
pub open spec fn has_key(entries: Seq<(String, ConfigValue)>, key: Seq<char>) -> bool {
    exists|i: int| 0 <= i < entries.len() && #[trigger] entries[i].0@ == key
}

/// A well-formed value: an object's keys are sorted and unique. (Only the top level is read.)
pub open spec fn wf(v: ConfigValue) -> bool {
    match v {
        ConfigValue::Object(entries) => keys_sorted(entries@),
        _ => true,
    }
}

/// Sets `key` to `value` in an object's entries, keeping the keys sorted.
fn insert_entry(entries: &mut Vec<(String, ConfigValue)>, key: String, value: ConfigValue)
    requires
        keys_sorted(old(entries)@),
    ensures
        keys_sorted(final(entries)@),
        forall|k: Seq<char>, v: ConfigValue| has_entry(final(entries)@, k, v) <==> ((k == key@ && v
            == value) || (k != key@ && has_entry(old(entries)@, k, v))),
{
    let ghost old_entries = entries@;
    let ghost k0 = key@;
    let ghost v0 = value;
    let mut p: usize = 0;
    while p < entries.len() && str_lt(entries[p].0.as_str(), key.as_str())
        invariant
            entries@ == old_entries,
            keys_sorted(old_entries),
            p <= entries@.len(),
            forall|i: int| 0 <= i < p ==> seq_lt(#[trigger] entries@[i].0@, key@),
        decreases entries@.len() - p,
    {
        p = p + 1;
    }
    // Every entry from `p` on has a key at least `key`.
    assert forall|i: int| p <= i < entries@.len() implies !seq_lt(#[trigger] entries@[i].0@, key@) by {
        if i > p {
            crate::text::lemma_seq_lt_strict_total_order(entries@[p as int].0@, entries@[i].0@, key@);
            crate::text::lemma_seq_lt_strict_total_order(entries@[i].0@, entries@[p as int].0@, key@);
        }
    }
    if p < entries.len() && str_eq(entries[p].0.as_str(), key.as_str()) {
        entries.set(p, (key, value));
        assert forall|i: int, j: int| 0 <= i < j < entries@.len() implies seq_lt(#[trigger] entries@[i].0@, #[trigger] entries@[j].0@) by {
            assert(seq_lt(old_entries[i].0@, old_entries[j].0@));
        }
        assert forall|k: Seq<char>, v: ConfigValue| has_entry(entries@, k, v) <==> ((k == k0 && v
            == v0) || (k != k0 && has_entry(old_entries, k, v))) by {
            if has_entry(entries@, k, v) {
                let i = choose|i: int| 0 <= i < entries@.len() && #[trigger] entries@[i].0@ == k && entries@[i].1 == v;
                if i != p {
                    assert(old_entries[i].0@ == k);
                    if k == k0 {
                        if i < p {
                            crate::text::lemma_seq_lt_strict_total_order(k, k, k);
                            assert(seq_lt(old_entries[i].0@, old_entries[p as int].0@));
                        } else {
                            assert(seq_lt(old_entries[p as int].0@, old_entries[i].0@));
                            crate::text::lemma_seq_lt_strict_total_order(k, k, k);
                        }
                    }
                }
            }
            if k == k0 && v == v0 {
                assert(entries@[p as int].0@ == k);
            }
            if k != k0 && has_entry(old_entries, k, v) {
                let i = choose|i: int| 0 <= i < old_entries.len() && #[trigger] old_entries[i].0@ == k && old_entries[i].1 == v;
                assert(i != p);
                assert(entries@[i].0@ == k);
            }
        }
    } else {
        assert forall|i: int| p <= i < entries@.len() implies seq_lt(key@, #[trigger] entries@[i].0@) by {
            crate::text::lemma_seq_lt_strict_total_order(entries@[p as int].0@, key@, key@);
            if i > p {
                assert(seq_lt(entries@[p as int].0@, entries@[i].0@));
                crate::text::lemma_seq_lt_strict_total_order(key@, entries@[p as int].0@, entries@[i].0@);
            }
        }
        entries.insert(p, (key, value));
        assert(entries@ == old_entries.insert(p as int, (entries@[p as int].0, v0)));
        assert forall|i: int, j: int| 0 <= i < j < entries@.len() implies seq_lt(#[trigger] entries@[i].0@, #[trigger] entries@[j].0@) by {
            if j < p {
                assert(seq_lt(old_entries[i].0@, old_entries[j].0@));
            } else if j == p {
            } else if i < p {
                assert(seq_lt(old_entries[i].0@, k0));
                assert(seq_lt(k0, old_entries[j - 1].0@));
                crate::text::lemma_seq_lt_strict_total_order(old_entries[i].0@, k0, old_entries[j - 1].0@);
            } else if i == p {
                assert(seq_lt(k0, old_entries[j - 1].0@));
            } else {
                assert(seq_lt(old_entries[i - 1].0@, old_entries[j - 1].0@));
            }
        }
        assert forall|k: Seq<char>, v: ConfigValue| #![trigger has_entry(entries@, k, v)] has_entry(entries@, k, v) implies ((k == k0 && v
            == v0) || (k != k0 && has_entry(old_entries, k, v))) by {
            let i = choose|i: int| 0 <= i < entries@.len() && #[trigger] entries@[i].0@ == k && entries@[i].1 == v;
            if i < p {
                assert(old_entries[i].0@ == k);
                crate::text::lemma_seq_lt_strict_total_order(k, k0, k0);
            } else if i > p {
                assert(old_entries[i - 1].0@ == k);
                assert(seq_lt(k0, old_entries[i - 1].0@));
                crate::text::lemma_seq_lt_strict_total_order(k, k0, k0);
            }
        }
        assert forall|k: Seq<char>, v: ConfigValue| ((k == k0 && v == v0) || (k != k0 && has_entry(old_entries, k, v))) implies has_entry(entries@, k, v) by {
            if k == k0 && v == v0 {
                assert(entries@[p as int].0@ == k);
            } else {
                let i = choose|i: int| 0 <= i < old_entries.len() && #[trigger] old_entries[i].0@ == k && old_entries[i].1 == v;
                if i < p {
                    assert(entries@[i].0@ == k);
                } else {
                    assert(entries@[i + 1].0@ == k);
                }
            }
        }
    }
}

/// The entries of the crate's table win over the workspace's: the merged table holds each entry
/// of the crate's table, and each entry of the workspace's table whose key the crate's table
/// does not set.
pub open spec fn merged_entry(
    workspace: Seq<(String, ConfigValue)>,
    krate: Seq<(String, ConfigValue)>,
    k: Seq<char>,
    v: ConfigValue,
) -> bool {
    has_entry(krate, k, v) || (has_entry(workspace, k, v) && !has_key(krate, k))
}

/// Merges the workspace's and the crate's linter configuration. The crate's configuration takes
/// precedence: where both are tables, the crate's entries overwrite the workspace's; otherwise
/// the crate's value is the result.
pub fn merge_linter_configs(workspace_config: ConfigValue, crate_config: ConfigValue) -> (r: ConfigValue)
    requires
        wf(workspace_config),
        wf(crate_config),
    ensures
        wf(r),
        match (workspace_config, crate_config) {
            (ConfigValue::Object(w), ConfigValue::Object(c)) => r matches ConfigValue::Object(e)
                && forall|k: Seq<char>, v: ConfigValue| #![trigger has_entry(e@, k, v)] has_entry(e@, k, v)
                <==> merged_entry(w@, c@, k, v),
            _ => r == crate_config,
        },
{
    match (workspace_config, crate_config) {
        (ConfigValue::Object(mut w), ConfigValue::Object(mut c)) => {
            let ghost w0 = w@;
            let ghost c0 = c@;
            while c.len() > 0
                invariant
                    keys_sorted(w@),
                    keys_sorted(c0),
                    c@ == c0.take(c@.len() as int),
                    c@.len() <= c0.len(),
                    forall|k: Seq<char>, v: ConfigValue| #![trigger has_entry(w@, k, v)] has_entry(w@, k, v)
                        <==> merged_entry(w0, c0.skip(c@.len() as int), k, v),
                decreases c@.len(),
            {
                let ghost n = c@.len() as int;
                let ghost done = c0.skip(n);
                let ghost w_before = w@;
                let (k, v) = c.pop().unwrap();
                let ghost kk = k@;
                let ghost vv = v;
                assert(c0[n - 1] == (k, v));
                insert_entry(&mut w, k, v);
                let ghost done2 = c0.skip(n - 1);
                assert(done2 =~= seq![c0[n - 1]] + done);
                assert(c@ =~= c0.take(c@.len() as int));
                // The popped key is not among the keys already done.
                assert forall|i: int| 0 <= i < done.len() implies #[trigger] done[i].0@ != kk by {
                    assert(done[i] == c0[n + i]);
                    assert(seq_lt(c0[n - 1].0@, c0[n + i].0@));
                    crate::text::lemma_seq_lt_strict_total_order(kk, kk, kk);
                }
                assert forall|kx: Seq<char>, vx: ConfigValue| #![trigger has_entry(done2, kx, vx)] has_entry(done2, kx, vx) <==> ((kx == kk && vx == vv) || has_entry(done, kx, vx)) by {
                    if has_entry(done2, kx, vx) {
                        let i = choose|i: int| 0 <= i < done2.len() && #[trigger] done2[i].0@ == kx && done2[i].1 == vx;
                        if i > 0 {
                            assert(done[i - 1].0@ == kx);
                        }
                    }
                    if has_entry(done, kx, vx) {
                        let i = choose|i: int| 0 <= i < done.len() && #[trigger] done[i].0@ == kx && done[i].1 == vx;
                        assert(done2[i + 1].0@ == kx);
                    }
                    if kx == kk && vx == vv {
                        assert(done2[0].0@ == kx);
                    }
                }
                assert forall|kx: Seq<char>| #![trigger has_key(done2, kx)] has_key(done2, kx) <==> (kx == kk || has_key(done, kx)) by {
                    if has_key(done2, kx) {
                        let i = choose|i: int| 0 <= i < done2.len() && #[trigger] done2[i].0@ == kx;
                        if i > 0 {
                            assert(done[i - 1].0@ == kx);
                        }
                    }
                    if has_key(done, kx) {
                        let i = choose|i: int| 0 <= i < done.len() && #[trigger] done[i].0@ == kx;
                        assert(done2[i + 1].0@ == kx);
                    }
                    if kx == kk {
                        assert(done2[0].0@ == kx);
                    }
                }
                assert forall|kx: Seq<char>, vx: ConfigValue| #![trigger has_entry(w@, kx, vx)] has_entry(w@, kx, vx)
                    <==> merged_entry(w0, done2, kx, vx) by {
                    assert(has_entry(w_before, kx, vx) <==> merged_entry(w0, done, kx, vx));
                    assert(has_entry(done2, kx, vx) <==> ((kx == kk && vx == vv) || has_entry(done, kx, vx)));
                    assert(has_key(done2, kx) <==> (kx == kk || has_key(done, kx)));
                    if kx == kk && has_entry(done, kx, vx) {
                        let i = choose|i: int| 0 <= i < done.len() && #[trigger] done[i].0@ == kx && done[i].1 == vx;
                        assert(done[i].0@ != kk);
                    }
                }
            }
            assert(c0.skip(0) =~= c0);
            ConfigValue::Object(w)
        },
        (_, c) => c,
    }
}

/// The merge of two configurations as [`merge_linter_configs`] states it: for two tables, the
/// crate's entries win; otherwise the crate's value stands.
pub open spec fn spec_merged(w: ConfigValue, c: ConfigValue, m: ConfigValue) -> bool {
    &&& wf(m)
    &&& match (w, c) {
        (ConfigValue::Object(we), ConfigValue::Object(ce)) => m matches ConfigValue::Object(e)
            && forall|k: Seq<char>, v: ConfigValue| #![trigger has_entry(e@, k, v)] has_entry(e@, k, v)
            <==> merged_entry(we@, ce@, k, v),
        _ => m == c,
    }
}

/// The configuration in effect, as [`combine_configs`] states it.
pub open spec fn spec_combined(w: Option<ConfigValue>, c: Option<ConfigValue>, r: Option<ConfigValue>) -> bool {
    match (w, c) {
        (Some(w), Some(c)) => r matches Some(m) && spec_merged(w, c, m),
        (Some(w), None) => r == Some(w),
        (None, Some(c)) => r == Some(c),
        (None, None) => r is None,
    }
}

/// The configuration in effect: the merge of the workspace's and the crate's when both are
/// given, whichever one is given otherwise, and none when neither is.
pub fn combine_configs(workspace_config: Option<ConfigValue>, crate_config: Option<ConfigValue>) -> (r:
    Option<ConfigValue>)
    requires
        workspace_config matches Some(w) ==> wf(w),
        crate_config matches Some(c) ==> wf(c),
    ensures
        spec_combined(workspace_config, crate_config, r),
{
    match (workspace_config, crate_config) {
        (Some(w), Some(c)) => Some(merge_linter_configs(w, c)),
        (Some(w), None) => Some(w),
        (None, Some(c)) => Some(c),
        (None, None) => None,
    }
}

/// The value of the first entry for `key` among `entries[i..]`.
pub open spec fn lookup_from(entries: Seq<(String, ConfigValue)>, key: Seq<char>, i: nat) -> Option<ConfigValue>
    decreases entries.len() - i,
{
    if i >= entries.len() {
        None
    } else if entries[i as int].0@ == key {
        Some(entries[i as int].1)
    } else {
        lookup_from(entries, key, i + 1)
    }
}

/// The linter's configuration within a package's or a workspace's metadata table, read as a
/// struct with one optional field `bevy_lint`: the value under the key `bevy_lint` of a table, or
/// the single element of an array of one element (a struct read from an array takes its fields
/// in order). There is none when that value is missing or `null`, and none when the metadata is
/// neither a table nor an array of one element (such as `null`, when no metadata is set).
pub open spec fn spec_linter_config(metadata: ConfigValue) -> Option<ConfigValue> {
    let found = match metadata {
        ConfigValue::Object(entries) => lookup_from(entries@, "bevy_lint"@, 0),
        ConfigValue::Array(items) => if items@.len() == 1 {
            Some(items@[0])
        } else {
            None
        },
        _ => None,
    };
    match found {
        Some(ConfigValue::Null) => None,
        _ => found,
    }
}

/// The position of the first entry for `key`, if there is one.
fn position_of_key(entries: &Vec<(String, ConfigValue)>, key: &str) -> (r: Option<usize>)
    ensures
        match r {
            Some(k) => k < entries@.len() && lookup_from(entries@, key@, 0) == Some(
                entries@[k as int].1,
            ),
            None => lookup_from(entries@, key@, 0) is None,
        },
{
    let mut i: usize = 0;
    while i < entries.len()
        invariant
            i <= entries@.len(),
            lookup_from(entries@, key@, 0) == lookup_from(entries@, key@, i as nat),
        decreases entries@.len() - i,
    {
        if str_eq(entries[i].0.as_str(), key) {
            return Some(i);
        }
        i = i + 1;
    }
    None
}

/// The linter's configuration within a package's or a workspace's metadata table (see
/// [`spec_linter_config`]).
pub fn deserialize_linter_config(metadata: ConfigValue) -> (r: Option<ConfigValue>)
    ensures
        r == spec_linter_config(metadata),
{
    let ghost m = metadata;
    let found = match metadata {
        ConfigValue::Object(mut entries) => match position_of_key(&entries, "bevy_lint") {
            Some(k) => {
                let (_, v) = entries.remove(k);
                Some(v)
            },
            None => None,
        },
        ConfigValue::Array(mut items) => {
            if items.len() == 1 {
                items.pop()
            } else {
                None
            }
        },
        _ => None,
    };
    assert(found == match m {
        ConfigValue::Object(entries) => lookup_from(entries@, "bevy_lint"@, 0),
        ConfigValue::Array(items) => if items@.len() == 1 {
            Some(items@[0])
        } else {
            None
        },
        _ => None,
    });
    match found {
        Some(ConfigValue::Null) => None,
        _ => found,
    }
}

/// The level that a lint's configuration sets: the string itself, or the string under the
/// `level` key of a table, as in `missing_reflect = "warn"` or
/// `missing_reflect = { level = "warn" }`.
pub open spec fn spec_level_text(v: ConfigValue) -> Option<Seq<char>> {
    match v {
        ConfigValue::String(s) => Some(s@),
        ConfigValue::Object(obj) => match lookup_from(obj@, "level"@, 0) {
            Some(ConfigValue::String(s)) => Some(s@),
            _ => None,
        },
        _ => None,
    }
}

/// `l` is one of the level names.
pub open spec fn is_level_name(level_names: Seq<&str>, l: Seq<char>) -> bool {
    exists|i: int| 0 <= i < level_names.len() && #[trigger] level_names[i]@ == l
}

/// The lint flags for the first `n` entries of the linter's table: for each entry that sets a
/// level that is one of the level names, the lint's full name `bevy::{name}` and the level as
/// written. Entries that set no level, or a level that is not one of the names, are skipped.
pub open spec fn lint_flags(entries: Seq<(String, ConfigValue)>, level_names: Seq<&str>, n: int) -> Seq<
    (Seq<char>, Seq<char>),
>
    decreases n,
{
    if n <= 0 {
        Seq::empty()
    } else {
        lint_flags(entries, level_names, n - 1) + match spec_level_text(entries[n - 1].1) {
            Some(l) => if is_level_name(level_names, l) {
                seq![("bevy::"@ + entries[n - 1].0@, l)]
            } else {
                Seq::empty()
            },
            None => Seq::empty(),
        }
    }
}

/// Whether `l` is one of the level names.
pub fn level_name_known(level_names: &[&str], l: &str) -> (r: bool)
    ensures
        r == is_level_name(level_names@, l@),
{
    let mut i: usize = 0;
    while i < level_names.len()
        invariant
            i <= level_names@.len(),
            forall|j: int| 0 <= j < i ==> #[trigger] level_names@[j]@ != l@,
        decreases level_names@.len() - i,
    {
        if str_eq(level_names[i], l) {
            return true;
        }
        i = i + 1;
    }
    false
}

/// The views of a list of pairs of strings.
pub open spec fn pairs_view(v: Seq<(String, String)>) -> Seq<(Seq<char>, Seq<char>)> {
    v.map_values(|p: (String, String)| (p.0@, p.1@))
}

/// The level that a lint's configuration sets, as written.
pub fn level_text(v: &ConfigValue) -> (r: Option<&String>)
    ensures
        match r {
            Some(s) => spec_level_text(*v) == Some(s@),
            None => spec_level_text(*v) is None,
        },
{
    match v {
        ConfigValue::String(s) => Some(s),
        ConfigValue::Object(obj) => {
            let mut i: usize = 0;
            while i < obj.len()
                invariant
                    *v == ConfigValue::Object(*obj),
                    i <= obj@.len(),
                    lookup_from(obj@, "level"@, 0) == lookup_from(obj@, "level"@, i as nat),
                decreases obj@.len() - i,
            {
                if str_eq(obj[i].0.as_str(), "level") {
                    assert(lookup_from(obj@, "level"@, i as nat) == Some(obj@[i as int].1));
                    let val = &obj[i].1;
                    match val {
                        ConfigValue::String(s) => {
                            return Some(s);
                        },
                        _ => {
                            return None;
                        },
                    }
                }
                i = i + 1;
            }
            None
        },
        _ => None,
    }
}

/// The compiler's lint-level flags that the linter's table asks for, in the table's order: one
/// `(bevy::{name}, level)` pair for each entry that sets a level, written `name = "level"` or
/// `name = { level = "level" }`, where the level is one of `level_names`, the names of the
/// levels that the compiler knows. An entry whose level is not one of them is skipped, and
/// anything that is not a table sets nothing.
pub fn insert_lint_levels(linter_config: &ConfigValue, level_names: &[&str]) -> (r: Vec<(String, String)>)
    ensures
        pairs_view(r@) == spec_flags(*linter_config, level_names@),
{
    let mut out: Vec<(String, String)> = Vec::new();
    let entries = match linter_config {
        ConfigValue::Object(entries) => entries,
        _ => {
            assert(pairs_view(out@) =~= Seq::<(Seq<char>, Seq<char>)>::empty());
            return out;
        },
    };
    let mut i: usize = 0;
    while i < entries.len()
        invariant
            i <= entries@.len(),
            pairs_view(out@) == lint_flags(entries@, level_names@, i as int),
        decreases entries@.len() - i,
    {
        match level_text(&entries[i].1) {
            Some(l) => {
                if level_name_known(level_names, l.as_str()) {
                    let name = concat2("bevy::", entries[i].0.as_str());
                    let level = crate::text::to_owned(l.as_str());
                    out.push((name, level));
                }
            },
            None => {},
        }
        i = i + 1;
        assert(pairs_view(out@) =~= lint_flags(entries@, level_names@, i as int));
    }
    out
}

/// The lint-level flags of a configuration, in the shape of [`insert_lint_levels`].
pub open spec fn spec_flags(c: ConfigValue, level_names: Seq<&str>) -> Seq<(Seq<char>, Seq<char>)> {
    match c {
        ConfigValue::Object(entries) => lint_flags(entries@, level_names, entries@.len() as int),
        _ => Seq::empty(),
    }
}

/// The configuration of a session and the lint-level flags it asks for. Configuration is only
/// read when the compiler was run by Cargo; it is then the workspace's table merged with the
/// crate's (see [`combine_configs`]), and nothing when neither sets one. `level_names` are the
/// names of the lint levels that the compiler knows (see [`insert_lint_levels`]).
pub fn load_config(
    invoked_from_cargo: bool,
    workspace_config: Option<ConfigValue>,
    crate_config: Option<ConfigValue>,
    level_names: &[&str],
) -> (r: Option<(ConfigValue, Vec<(String, String)>)>)
    requires
        workspace_config matches Some(w) ==> wf(w),
        crate_config matches Some(c) ==> wf(c),
    ensures
        !invoked_from_cargo ==> r is None,
        invoked_from_cargo ==> spec_combined(
            workspace_config,
            crate_config,
            match r {
                Some((c, _)) => Some(c),
                None => None,
            },
        ),
        r matches Some((c, flags)) ==> pairs_view(flags@) == spec_flags(c, level_names@),
{
    if !invoked_from_cargo {
        return None;
    }
    match combine_configs(workspace_config, crate_config) {
        Some(config) => {
            let flags = insert_lint_levels(&config, level_names);
            Some((config, flags))
        },
        None => None,
    }
}

} // verus!
