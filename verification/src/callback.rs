//! How the linter configures a compiler session: the `--cfg` flag it adds, the tool name it
//! registers, and the manifests whose changes must re-run it.

use vstd::prelude::*;

use crate::text::{str_eq, to_owned};

verus! {

/// The views of a list of strings.
pub open spec fn strings_seq(v: Seq<String>) -> Seq<Seq<char>> {
    v.map_values(|s: String| s@)
}

/// `v` with `s` added at the end unless it is already there: insertion into an ordered set.
pub open spec fn set_insert(v: Seq<Seq<char>>, s: Seq<char>) -> Seq<Seq<char>> {
    if v.contains(s) {
        v
    } else {
        v.push(s)
    }
}

/// Adds `s` to an ordered set of strings.
fn insert_unique(v: &mut Vec<String>, s: &str)
    ensures
        strings_seq(final(v)@) == set_insert(strings_seq(old(v)@), s@),
{
    let ghost before = strings_seq(v@);
    let mut i: usize = 0;
    while i < v.len()
        invariant
            before == strings_seq(v@),
            i <= v@.len(),
            forall|j: int| 0 <= j < i ==> before[j] != s@,
        decreases v@.len() - i,
    {
        if str_eq(v[i].as_str(), s) {
            assert(before[i as int] == s@);
            assert(before.contains(s@));
            return;
        }
        i = i + 1;
    }
    v.push(to_owned(s));
    assert(strings_seq(v@) =~= before.push(s@));
}

/// The compiler callbacks that register the linter.
#[derive(Clone, Copy, Debug, PartialEq, Eq, Structural)]
pub struct BevyLintCallback;

impl BevyLintCallback {
    /// Adds `--cfg bevy_lint` to the session, so that programs can configure lints
    /// conditionally.
    pub fn add_crate_cfg(&self, crate_cfg: &mut Vec<String>)
        ensures
            strings_seq(final(crate_cfg)@) == strings_seq(old(crate_cfg)@).push("bevy_lint"@),
    {
        crate_cfg.push(to_owned("bevy_lint"));
        assert(strings_seq(crate_cfg@) =~= strings_seq(old(crate_cfg)@).push("bevy_lint"@));
    }

    /// Registers `bevy` as a tool, so that `#[allow(bevy::...)]` is understood.
    pub fn registered_tools(&self, tools: &mut Vec<String>)
        ensures
            strings_seq(final(tools)@) == set_insert(strings_seq(old(tools)@), "bevy"@),
    {
        insert_unique(tools, "bevy");
    }

    /// The manifests to record as inputs of the session, so that a change to them re-runs the
    /// linter: the crate's `Cargo.toml`, then the workspace's, each where it was located and its
    /// path is valid UTF-8. Nothing is recorded when the compiler was not run by Cargo.
    pub fn manifest_dep_info(
        &self,
        invoked_from_cargo: bool,
        crate_manifest: Option<&str>,
        workspace_manifest: Option<&str>,
        file_depinfo: &mut Vec<String>,
    )
        ensures
            strings_seq(final(file_depinfo)@) == if !invoked_from_cargo {
                strings_seq(old(file_depinfo)@)
            } else {
                let a = match crate_manifest {
                    Some(p) => set_insert(strings_seq(old(file_depinfo)@), p@),
                    None => strings_seq(old(file_depinfo)@),
                };
                match workspace_manifest {
                    Some(p) => set_insert(a, p@),
                    None => a,
                }
            },
    {
        if !invoked_from_cargo {
            return;
        }
        match crate_manifest {
            Some(p) => insert_unique(file_depinfo, p),
            None => {},
        }
        match workspace_manifest {
            Some(p) => insert_unique(file_depinfo, p),
            None => {},
        }
    }
}

} // verus!
