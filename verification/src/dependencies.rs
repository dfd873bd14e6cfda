//! The `duplicate_bevy_dependencies` lint: more than one version of the `bevy` crate in the
//! dependency tree.

use vstd::prelude::*;

use cargo_metadata::semver::{Version, VersionReq};

use crate::expr::Span;
use crate::text::{
    after_last_char, concat, contains, contains_seq, is_prefix, is_suffix, second_piece, spec_second_piece,
    spec_after_last, spec_split_once, split_once_char, starts_with, ends_with, str_eq,
};

verus! {

/// A semantic version, `major.minor.patch[-pre][+build]`.
#[verifier::external_type_specification]
#[verifier::external_body]
pub struct ExVersion(Version);

/// A version requirement, such as `^0.15` or `>=1.2, <1.5`.
#[verifier::external_type_specification]
#[verifier::external_body]
pub struct ExVersionReq(VersionReq);

/// The text is a version that `semver` accepts: exactly `major.minor.patch`, optionally
/// followed by `-pre` and `+build`, with no surrounding text.
pub uninterp spec fn semver_version_parses(text: Seq<char>) -> bool;

/// The text is a version requirement that `semver` accepts.
pub uninterp spec fn semver_req_parses(text: Seq<char>) -> bool;

/// The version written `version` satisfies the requirement written `req`, by `semver`'s rules.
pub uninterp spec fn semver_req_matches(req: Seq<char>, version: Seq<char>) -> bool;

/// An exact version, kept with the text it was read from.
pub struct TargetVersion {
    version: Version,
    text: String,
}

impl View for TargetVersion {
    type V = Seq<char>;

    /// The text the version was read from.
    closed spec fn view(&self) -> Seq<char> {
        self.text@
    }
}

impl TargetVersion {
    /// The text the version was read from.
    pub fn text(&self) -> (r: &str)
        ensures
            r@ == self@,
    {
        self.text.as_str()
    }
}

/// A version requirement, kept with the text it was read from.
pub struct Requirement {
    req: VersionReq,
    text: String,
}

impl View for Requirement {
    type V = Seq<char>;

    /// The text the requirement was read from.
    closed spec fn view(&self) -> Seq<char> {
        self.text@
    }
}

/// Reads an exact version with `semver`'s `Version::from_str`. It succeeds exactly for the
/// texts named by [`semver_version_parses`], and an empty text never parses (the function's
/// first check). The version keeps the text it was read from.
#[verifier::external_body]
fn parse_version(text: &str) -> (r: Option<TargetVersion>)
    ensures
        r is Some <==> semver_version_parses(text@),
        text@.len() == 0 ==> r is None,
        r matches Some(v) ==> v@ == text@,
{
    match <Version as std::str::FromStr>::from_str(text) {
        Ok(version) => Some(TargetVersion { version, text: text.to_string() }),
        Err(_) => None,
    }
}

/// Reads a version requirement with `semver`'s `VersionReq::from_str`. It succeeds exactly for
/// the texts named by [`semver_req_parses`]. The requirement keeps the text it was read from.
#[verifier::external_body]
fn parse_req(text: &str) -> (r: Option<Requirement>)
    ensures
        r is Some <==> semver_req_parses(text@),
        r matches Some(q) ==> q@ == text@,
{
    match <VersionReq as std::str::FromStr>::from_str(text) {
        Ok(req) => Some(Requirement { req, text: text.to_string() }),
        Err(_) => None,
    }
}

/// Whether a version satisfies a requirement, by `semver`'s `VersionReq::matches`: the answer
/// named by [`semver_req_matches`] for the texts the two were read from.
#[verifier::external_body]
fn req_matches(req: &Requirement, version: &TargetVersion) -> (r: bool)
    ensures
        r == semver_req_matches(req@, version@),
{
    req.req.matches(&version.version)
}

/// A value in `Cargo.toml`, as far as the lint reads it.
pub enum TomlValue {
    String(String),
    /// A table's entries, in order.
    Table(Vec<(String, TomlValue)>),
    /// Any other value.
    Other,
}

/// Why no exact version could be read from a dependency's entry in `Cargo.toml`.
#[derive(Clone, Copy, Debug, PartialEq, Eq, Structural)]
pub enum VersionError {
    /// The version text is not an exact version (a range such as `>=0.15`, for instance).
    InvalidVersion,
    /// The entry is a table without a `version` string.
    MissingVersionField,
    /// The entry is neither a string nor a table.
    UnexpectedFormat,
}

impl VersionError {
    /// The error's message.
    pub fn message(&self) -> (r: &'static str)
        ensures
            r@ == match self {
                VersionError::InvalidVersion => "the version is not an exact version"@,
                VersionError::MissingVersionField => "The 'version' field is required."@,
                VersionError::UnexpectedFormat => "Unexpected TOML format: expected a toml-string '<crate> = <version>' or a toml-table with '<crate> = { version = <version> } '"@,
            },
    {
        match self {
            VersionError::InvalidVersion => "the version is not an exact version",
            VersionError::MissingVersionField => "The 'version' field is required.",
            VersionError::UnexpectedFormat => "Unexpected TOML format: expected a toml-string '<crate> = <version>' or a toml-table with '<crate> = { version = <version> } '",
        }
    }
}

/// The value of the first entry for `key` among `entries[i..]`.
pub open spec fn toml_lookup_from(entries: Seq<(String, TomlValue)>, key: Seq<char>, i: nat) -> Option<TomlValue>
    decreases entries.len() - i,
{
    if i >= entries.len() {
        None
    } else if entries[i as int].0@ == key {
        Some(entries[i as int].1)
    } else {
        toml_lookup_from(entries, key, i + 1)
    }
}

/// The version text of a dependency's entry: `bevy = "0.15"`, or the `version` string of a
/// table such as `bevy = { version = "0.15" }`.
pub open spec fn spec_version_text(v: TomlValue) -> Result<Seq<char>, VersionError> {
    match v {
        TomlValue::String(s) => Ok(s@),
        TomlValue::Table(t) => match toml_lookup_from(t@, "version"@, 0) {
            Some(TomlValue::String(s)) => Ok(s@),
            _ => Err(VersionError::MissingVersionField),
        },
        TomlValue::Other => Err(VersionError::UnexpectedFormat),
    }
}

/// The version text of a dependency's entry.
pub fn version_text_of(v: &TomlValue) -> (r: Result<&String, VersionError>)
    ensures
        match r {
            Ok(s) => spec_version_text(*v) == Ok::<Seq<char>, VersionError>(s@),
            Err(e) => spec_version_text(*v) == Err::<Seq<char>, VersionError>(e),
        },
{
    match v {
        TomlValue::String(s) => Ok(s),
        TomlValue::Table(t) => {
            let mut i: usize = 0;
            while i < t.len()
                invariant
                    *v == TomlValue::Table(*t),
                    i <= t@.len(),
                    toml_lookup_from(t@, "version"@, 0) == toml_lookup_from(t@, "version"@, i as nat),
                decreases t@.len() - i,
            {
                if str_eq(t[i].0.as_str(), "version") {
                    assert(toml_lookup_from(t@, "version"@, i as nat) == Some(t@[i as int].1));
                    let val = &t[i].1;
                    match val {
                        TomlValue::String(s) => {
                            return Ok(s);
                        },
                        _ => {
                            return Err(VersionError::MissingVersionField);
                        },
                    }
                }
                i = i + 1;
            }
            Err(VersionError::MissingVersionField)
        },
        TomlValue::Other => Err(VersionError::UnexpectedFormat),
    }
}

/// Reads the exact version of a dependency's entry in `Cargo.toml`: `bevy = "0.15.1"` or
/// `bevy = { version = "0.15.1", ... }`. A version range cannot be read as one version.
pub fn get_version_from_toml(v: &TomlValue) -> (r: Result<TargetVersion, VersionError>)
    ensures
        match spec_version_text(*v) {
            Ok(text) => (r is Ok <==> semver_version_parses(text)) && match r {
                Ok(version) => version@ == text,
                Err(e) => e == VersionError::InvalidVersion,
            },
            Err(e) => r matches Err(e2) && e2 == e,
        },
{
    match version_text_of(v) {
        Ok(text) => match parse_version(text.as_str()) {
            Some(version) => Ok(version),
            None => Err(VersionError::InvalidVersion),
        },
        Err(e) => Err(e),
    }
}

/// The start and end of a value in `Cargo.toml`, as byte offsets into the file.
#[derive(Clone, Copy, Debug, PartialEq, Eq, Structural)]
pub struct ByteRange {
    pub start: usize,
    pub end: usize,
}

/// The span of a byte range of `Cargo.toml`, loaded into the source map at `file_start`.
pub fn toml_span(range: ByteRange, file_start: u32) -> (r: Span)
    requires
        file_start + range.start <= u32::MAX,
        file_start + range.end <= u32::MAX,
    ensures
        r.lo == file_start + range.start,
        r.hi == file_start + range.end,
{
    let lo: u32 = file_start + (range.start as u32);
    let hi: u32 = file_start + (range.end as u32);
    Span { lo, hi }
}

/// A direct dependency as written in `Cargo.toml`: its name, where its value stands, and the
/// value.
pub struct TomlDependency {
    pub name: String,
    pub range: ByteRange,
    pub value: TomlValue,
}

/// A dependency of a package in the dependency graph, as `cargo metadata` reports it: the
/// dependency's name and the text of its version requirement.
pub struct DependencyInfo {
    pub name: String,
    pub req: String,
}

/// A package in the dependency graph, as `cargo metadata` reports it.
pub struct PackageInfo {
    pub name: String,
    pub dependencies: Vec<DependencyInfo>,
}

/// The package's dependency `k` is on `bevy`, and the package is not the one being linted.
pub open spec fn is_bevy_dependent(pkgs: Seq<PackageInfo>, local: Seq<char>, i: int, k: int) -> bool {
    pkgs[i].dependencies@[k].name@ == "bevy"@ && pkgs[i].name@ != local
}

/// The name of the package at a `(package, dependency)` position.
pub open spec fn pos_name(pkgs: Seq<PackageInfo>, p: (usize, usize)) -> Seq<char> {
    pkgs[p.0 as int].name@
}

/// Which `bevy` dependency stands for each package name after the first `k` dependencies of
/// package `i` have been seen on top of `m`: a later one replaces an earlier one.
pub open spec fn dependents_in_package(
    m: Map<Seq<char>, (int, int)>,
    pkgs: Seq<PackageInfo>,
    local: Seq<char>,
    i: int,
    k: int,
) -> Map<Seq<char>, (int, int)>
    decreases k,
{
    if k <= 0 {
        m
    } else {
        let m2 = dependents_in_package(m, pkgs, local, i, k - 1);
        if is_bevy_dependent(pkgs, local, i, k - 1) {
            m2.insert(pkgs[i].name@, (i, k - 1))
        } else {
            m2
        }
    }
}

/// The packages, by name, that depend on `bevy` among the first `n` packages, each with the
/// position of its last `bevy` dependency.
pub open spec fn dependents_map(pkgs: Seq<PackageInfo>, local: Seq<char>, n: int) -> Map<Seq<char>, (int, int)>
    decreases n,
{
    if n <= 0 {
        Map::empty()
    } else {
        dependents_in_package(dependents_map(pkgs, local, n - 1), pkgs, local, n - 1, pkgs[n - 1].dependencies@.len() as int)
    }
}

/// A list of positions stands for a map from package names: the names are distinct, and each
/// position is the map's value for its name.
pub open spec fn represents(pkgs: Seq<PackageInfo>, v: Seq<(usize, usize)>, m: Map<Seq<char>, (int, int)>) -> bool {
    &&& forall|a: int, b: int| 0 <= a < b < v.len() ==> pos_name(pkgs, #[trigger] v[a]) != pos_name(pkgs, #[trigger] v[b])
    &&& forall|a: int| 0 <= a < v.len() ==> #[trigger] m.contains_key(pos_name(pkgs, v[a])) && m[pos_name(pkgs, v[a])] == (v[a].0 as int, v[a].1 as int)
    &&& forall|key: Seq<char>| #[trigger] m.contains_key(key) ==> exists|a: int| 0 <= a < v.len() && pos_name(pkgs, #[trigger] v[a]) == key
    &&& forall|a: int| 0 <= a < v.len() ==> (#[trigger] v[a]).0 < pkgs.len() && v[a].1 < pkgs[v[a].0 as int].dependencies@.len()
}

/// Records the `bevy` dependency at `(i, k)` for its package's name, replacing an earlier one.
fn record_dependent(pkgs: &Vec<PackageInfo>, out: &mut Vec<(usize, usize)>, i: usize, k: usize)
    requires
        i < pkgs@.len(),
        k < pkgs@[i as int].dependencies@.len(),
        forall|a: int| 0 <= a < old(out)@.len() ==> (#[trigger] old(out)@[a]).0 < pkgs@.len() && old(out)@[a].1 < pkgs@[old(out)@[a].0 as int].dependencies@.len(),
        forall|a: int, b: int| 0 <= a < b < old(out)@.len() ==> pos_name(pkgs@, #[trigger] old(out)@[a]) != pos_name(pkgs@, #[trigger] old(out)@[b]),
    ensures
        forall|a: int| 0 <= a < final(out)@.len() ==> (#[trigger] final(out)@[a]).0 < pkgs@.len() && final(out)@[a].1 < pkgs@[final(out)@[a].0 as int].dependencies@.len(),
        forall|a: int, b: int| 0 <= a < b < final(out)@.len() ==> pos_name(pkgs@, #[trigger] final(out)@[a]) != pos_name(pkgs@, #[trigger] final(out)@[b]),
        forall|m: Map<Seq<char>, (int, int)>| #![trigger represents(pkgs@, old(out)@, m)] represents(pkgs@, old(out)@, m) ==> represents(
            pkgs@,
            final(out)@,
            m.insert(pkgs@[i as int].name@, (i as int, k as int)),
        ),
{
    let ghost before = out@;
    let ghost key = pkgs@[i as int].name@;
    let mut a: usize = 0;
    while a < out.len()
        invariant
            out@ == before,
            before == old(out)@,
            a <= out@.len(),
            forall|x: int| 0 <= x < a ==> pos_name(pkgs@, #[trigger] out@[x]) != key,
            forall|x: int| 0 <= x < out@.len() ==> (#[trigger] out@[x]).0 < pkgs@.len() && out@[x].1 < pkgs@[out@[x].0 as int].dependencies@.len(),
            key == pkgs@[i as int].name@,
            forall|x: int, y: int| 0 <= x < y < out@.len() ==> pos_name(pkgs@, #[trigger] out@[x]) != pos_name(pkgs@, #[trigger] out@[y]),
            i < pkgs@.len(),
            k < pkgs@[i as int].dependencies@.len(),
        decreases out@.len() - a,
    {
        let (pi, _) = out[a];
        if str_eq(pkgs[pi].name.as_str(), pkgs[i].name.as_str()) {
            out.set(a, (i, k));
            assert forall|x: int| 0 <= x < out@.len() implies pos_name(pkgs@, #[trigger] out@[x]) == pos_name(pkgs@, before[x]) by {
            }
            assert forall|m: Map<Seq<char>, (int, int)>| #![trigger represents(pkgs@, before, m)] represents(pkgs@, before, m) implies represents(
                pkgs@,
                out@,
                m.insert(key, (i as int, k as int)),
            ) by {
                let m2 = m.insert(key, (i as int, k as int));
                assert forall|x: int| 0 <= x < out@.len() implies #[trigger] m2.contains_key(pos_name(pkgs@, out@[x])) && m2[pos_name(pkgs@, out@[x])] == (out@[x].0 as int, out@[x].1 as int) by {
                    if x != a {
                        assert(pos_name(pkgs@, before[x]) != pos_name(pkgs@, before[a as int]) || x == a);
                        assert(m.contains_key(pos_name(pkgs@, before[x])));
                    }
                }
                assert forall|kk: Seq<char>| #[trigger] m2.contains_key(kk) implies exists|y: int| 0 <= y < out@.len() && pos_name(pkgs@, #[trigger] out@[y]) == kk by {
                    if kk == key {
                        assert(pos_name(pkgs@, out@[a as int]) == kk);
                    } else {
                        assert(m.contains_key(kk));
                        let y = choose|y: int| 0 <= y < before.len() && pos_name(pkgs@, #[trigger] before[y]) == kk;
                        assert(pos_name(pkgs@, out@[y]) == kk);
                    }
                }
            }
            return;
        }
        a = a + 1;
    }
    out.push((i, k));
    assert forall|m: Map<Seq<char>, (int, int)>| #![trigger represents(pkgs@, before, m)] represents(pkgs@, before, m) implies represents(
        pkgs@,
        out@,
        m.insert(key, (i as int, k as int)),
    ) by {
        let m2 = m.insert(key, (i as int, k as int));
        assert forall|x: int| 0 <= x < out@.len() implies #[trigger] m2.contains_key(pos_name(pkgs@, out@[x])) && m2[pos_name(pkgs@, out@[x])] == (out@[x].0 as int, out@[x].1 as int) by {
            if x < before.len() {
                assert(out@[x] == before[x]);
                assert(m.contains_key(pos_name(pkgs@, before[x])));
            }
        }
        assert forall|kk: Seq<char>| #[trigger] m2.contains_key(kk) implies exists|y: int| 0 <= y < out@.len() && pos_name(pkgs@, #[trigger] out@[y]) == kk by {
            if kk == key {
                assert(pos_name(pkgs@, out@[before.len() as int]) == kk);
            } else {
                assert(m.contains_key(kk));
                let y = choose|y: int| 0 <= y < before.len() && pos_name(pkgs@, #[trigger] before[y]) == kk;
                assert(pos_name(pkgs@, out@[y]) == kk);
            }
        }
    }
}

/// The packages other than `local_name` that depend on `bevy`, one per package name: the
/// position `(package, dependency)` of each one's `bevy` dependency, the last one seen when a
/// name occurs more than once.
pub fn bevy_dependents(pkgs: &Vec<PackageInfo>, local_name: &str) -> (r: Vec<(usize, usize)>)
    ensures
        represents(pkgs@, r@, dependents_map(pkgs@, local_name@, pkgs@.len() as int)),
{
    let mut out: Vec<(usize, usize)> = Vec::new();
    let mut i: usize = 0;
    while i < pkgs.len()
        invariant
            i <= pkgs@.len(),
            represents(pkgs@, out@, dependents_map(pkgs@, local_name@, i as int)),
        decreases pkgs@.len() - i,
    {
        let ghost base = dependents_map(pkgs@, local_name@, i as int);
        let mut k: usize = 0;
        while k < pkgs[i].dependencies.len()
            invariant
                i < pkgs@.len(),
                k <= pkgs@[i as int].dependencies@.len(),
                represents(pkgs@, out@, dependents_in_package(base, pkgs@, local_name@, i as int, k as int)),
            decreases pkgs@[i as int].dependencies@.len() - k,
        {
            if str_eq(pkgs[i].dependencies[k].name.as_str(), "bevy") && !str_eq(
                pkgs[i].name.as_str(),
                local_name,
            ) {
                let ghost m = dependents_in_package(base, pkgs@, local_name@, i as int, k as int);
                record_dependent(pkgs, &mut out, i, k);
                assert(represents(pkgs@, out@, m.insert(pkgs@[i as int].name@, (i as int, k as int))));
            }
            k = k + 1;
        }
        i = i + 1;
    }
    out
}

/// The description of the lint.
pub fn duplicate_bevy_dependencies_description() -> (r: &'static str)
    ensures
        r@ == "multiple versions of the `bevy` crate found"@,
{
    "multiple versions of the `bevy` crate found"
}

/// The message when several versions of `bevy` are resolved and the project names none itself.
pub fn multiple_versions_message() -> (r: &'static str)
    ensures
        r@ == "found multiple versions of bevy"@,
{
    "found multiple versions of bevy"
}

/// "expected all crates to use `bevy` {target}, but `{name}` uses `bevy` {req}"
pub open spec fn spec_mismatch_help(target: Seq<char>, name: Seq<char>, req: Seq<char>) -> Seq<char> {
    "expected all crates to use `bevy` "@ + target + ", but `"@ + name + "` uses `bevy` "@ + req
}

/// The index of the first dependency named `name` among `deps[i..]`.
pub open spec fn toml_dep_index(deps: Seq<TomlDependency>, name: Seq<char>, i: nat) -> Option<int>
    decreases deps.len() - i,
{
    if i >= deps.len() {
        None
    } else if deps[i as int].name@ == name {
        Some(i as int)
    } else {
        toml_dep_index(deps, name, i + 1)
    }
}

/// All ranges of the written dependencies fit the source map at `file_start`.
pub open spec fn ranges_fit(deps: Seq<TomlDependency>, file_start: u32) -> bool {
    forall|i: int| 0 <= i < deps.len() ==> file_start + (#[trigger] deps[i]).range.start <= u32::MAX
        && file_start + deps[i].range.end <= u32::MAX
}

/// The span of a byte range at `file_start`.
pub open spec fn spec_toml_span(range: ByteRange, file_start: u32) -> Span {
    Span { lo: (file_start + range.start) as u32, hi: (file_start + range.end) as u32 }
}

/// A dependency that asks for another `bevy` than the project: where it is written, where the
/// project's `bevy` is written, and the help message.
pub struct MismatchFinding {
    pub span: Span,
    pub help_span: Span,
    pub help: String,
}

/// A finding's parts, for contracts.
pub open spec fn mismatch_view(f: MismatchFinding) -> (Span, Span, Seq<char>) {
    (f.span, f.help_span, f.help@)
}

/// The findings for the first `n` dependents, each given as its name, its requirement's text
/// and whether that requirement accepts the project's `bevy` version `target`: one for each
/// dependent that does not accept it and is itself written in `Cargo.toml`, in order.
pub open spec fn spec_mismatches(
    deps: Seq<TomlDependency>,
    bevy_range: ByteRange,
    file_start: u32,
    dependents: Seq<(Seq<char>, Seq<char>, bool)>,
    target: Seq<char>,
    n: int,
) -> Seq<(Span, Span, Seq<char>)>
    decreases n,
{
    if n <= 0 {
        Seq::empty()
    } else {
        let d = dependents[n - 1];
        spec_mismatches(deps, bevy_range, file_start, dependents, target, n - 1) + if !d.2 {
            match toml_dep_index(deps, d.0, 0) {
                Some(j) => seq![
                    (spec_toml_span(deps[j].range, file_start), spec_toml_span(bevy_range, file_start), spec_mismatch_help(target, d.0, d.1)),
                ],
                None => Seq::empty(),
            }
        } else {
            Seq::empty()
        }
    }
}

/// The views of dependents given as (name, requirement text, accepts the target).
pub open spec fn dependents_view(v: Seq<(String, String, bool)>) -> Seq<(Seq<char>, Seq<char>, bool)> {
    v.map_values(|d: (String, String, bool)| (d.0@, d.1@, d.2))
}

/// The findings' views.
pub open spec fn mismatches_view(v: Seq<MismatchFinding>) -> Seq<(Span, Span, Seq<char>)> {
    v.map_values(|f: MismatchFinding| mismatch_view(f))
}

/// The index of the dependency written under `name`.
fn find_toml_dep(deps: &Vec<TomlDependency>, name: &str) -> (r: Option<usize>)
    ensures
        match r {
            Some(j) => toml_dep_index(deps@, name@, 0) == Some(j as int) && j < deps@.len(),
            None => toml_dep_index(deps@, name@, 0) is None,
        },
{
    let mut j: usize = 0;
    while j < deps.len()
        invariant
            j <= deps@.len(),
            toml_dep_index(deps@, name@, 0) == toml_dep_index(deps@, name@, j as nat),
        decreases deps@.len() - j,
    {
        if str_eq(deps[j].name.as_str(), name) {
            return Some(j);
        }
        j = j + 1;
    }
    None
}

/// The findings of the lint where the project names its own `bevy` version `target`: each
/// dependent whose requirement does not accept `target` and that is itself written in
/// `Cargo.toml` is reported where it is written, with a help pointing at the project's `bevy`.
pub fn mismatch_findings(
    deps: &Vec<TomlDependency>,
    bevy_range: ByteRange,
    file_start: u32,
    dependents: &Vec<(String, String, bool)>,
    target: &str,
) -> (r: Vec<MismatchFinding>)
    requires
        ranges_fit(deps@, file_start),
        file_start + bevy_range.start <= u32::MAX,
        file_start + bevy_range.end <= u32::MAX,
    ensures
        mismatches_view(r@) == spec_mismatches(deps@, bevy_range, file_start, dependents_view(dependents@), target@, dependents@.len() as int),
{
    let mut out: Vec<MismatchFinding> = Vec::new();
    let help_span = toml_span(bevy_range, file_start);
    let mut i: usize = 0;
    while i < dependents.len()
        invariant
            i <= dependents@.len(),
            ranges_fit(deps@, file_start),
            help_span == spec_toml_span(bevy_range, file_start),
            mismatches_view(out@) == spec_mismatches(deps@, bevy_range, file_start, dependents_view(dependents@), target@, i as int),
        decreases dependents@.len() - i,
    {
        let d = &dependents[i];
        if !d.2 {
            match find_toml_dep(deps, d.0.as_str()) {
                Some(j) => {
                    assert(file_start + deps@[j as int].range.start <= u32::MAX);
                    let span = toml_span(deps[j].range, file_start);
                    let help = concat(
                        &[
                            "expected all crates to use `bevy` ",
                            target,
                            ", but `",
                            d.0.as_str(),
                            "` uses `bevy` ",
                            d.1.as_str(),
                        ],
                    );
                    proof {
                        reveal_with_fuel(crate::text::concat_all, 7);
                    }
                    out.push(MismatchFinding { span, help_span, help });
                },
                None => {},
            }
        }
        i = i + 1;
        assert(mismatches_view(out@) =~= spec_mismatches(deps@, bevy_range, file_start, dependents_view(dependents@), target@, i as int));
    }
    out
}

/// What the lint knows of one dependent, given the project's `bevy` version `target`: the
/// package's name, the text of its requirement on `bevy`, and whether that requirement accepts
/// `target` (a requirement that cannot be read counts as accepting).
pub open spec fn dependent_answer(pkgs: Seq<PackageInfo>, p: (usize, usize), target: Seq<char>) -> (Seq<char>, Seq<char>, bool) {
    let req = pkgs[p.0 as int].dependencies@[p.1 as int].req@;
    (pkgs[p.0 as int].name@, req, !semver_req_parses(req) || semver_req_matches(req, target))
}

/// [`dependent_answer`] for each dependent, in order.
pub open spec fn dependent_answers(pkgs: Seq<PackageInfo>, dependents: Seq<(usize, usize)>, target: Seq<char>) -> Seq<(Seq<char>, Seq<char>, bool)> {
    dependents.map_values(|p: (usize, usize)| dependent_answer(pkgs, p, target))
}

/// The findings of the lint where the project names `bevy` in `Cargo.toml`: none when that
/// entry holds no exact version; otherwise one for each dependent (in the given order) whose
/// requirement does not accept the version and that is itself written in `Cargo.toml`.
pub open spec fn target_version_outcome(
    deps: Seq<TomlDependency>,
    bevy: TomlDependency,
    file_start: u32,
    pkgs: Seq<PackageInfo>,
    dependents: Seq<(usize, usize)>,
    found: Seq<(Span, Span, Seq<char>)>,
) -> bool {
    match spec_version_text(bevy.value) {
        Ok(text) => if semver_version_parses(text) {
            found == spec_mismatches(deps, bevy.range, file_start, dependent_answers(pkgs, dependents, text), text, dependents.len() as int)
        } else {
            found.len() == 0
        },
        Err(_) => found.len() == 0,
    }
}

/// Whether a requirement, given by its text, accepts the project's `bevy` version. A
/// requirement that cannot be read is taken to accept it.
fn accepts(req_text: &str, target: &TargetVersion) -> (r: bool)
    ensures
        r == (!semver_req_parses(req_text@) || semver_req_matches(req_text@, target@)),
{
    match parse_req(req_text) {
        Some(req) => req_matches(&req, target),
        None => true,
    }
}

/// The findings of the lint where the project names its own `bevy` in `Cargo.toml` as `bevy`:
/// none when that entry holds no exact version; otherwise [`mismatch_findings`] for the
/// dependents at the given positions, each with its requirement and whether the requirement
/// accepts the version.
pub fn lint_with_target_version(
    deps: &Vec<TomlDependency>,
    bevy: &TomlDependency,
    file_start: u32,
    pkgs: &Vec<PackageInfo>,
    dependents: &Vec<(usize, usize)>,
) -> (r: Vec<MismatchFinding>)
    requires
        ranges_fit(deps@, file_start),
        file_start + bevy.range.start <= u32::MAX,
        file_start + bevy.range.end <= u32::MAX,
        forall|a: int| 0 <= a < dependents@.len() ==> (#[trigger] dependents@[a]).0 < pkgs@.len() && dependents@[a].1 < pkgs@[dependents@[a].0 as int].dependencies@.len(),
    ensures
        target_version_outcome(deps@, *bevy, file_start, pkgs@, dependents@, mismatches_view(r@)),
{
    let target = match get_version_from_toml(&bevy.value) {
        Ok(v) => v,
        Err(_) => {
            return Vec::new();
        },
    };
    let ghost text = target@;
    let mut answers: Vec<(String, String, bool)> = Vec::new();
    let mut i: usize = 0;
    while i < dependents.len()
        invariant
            i <= dependents@.len(),
            answers@.len() == i,
            target@ == text,
            forall|a: int| 0 <= a < dependents@.len() ==> (#[trigger] dependents@[a]).0 < pkgs@.len() && dependents@[a].1 < pkgs@[dependents@[a].0 as int].dependencies@.len(),
            forall|a: int| 0 <= a < i ==> (#[trigger] dependents_view(answers@)[a]) == dependent_answer(pkgs@, dependents@[a], text),
        decreases dependents@.len() - i,
    {
        let (p, k) = dependents[i];
        let dep = &pkgs[p].dependencies[k];
        let name = crate::text::to_owned(pkgs[p].name.as_str());
        let req = crate::text::to_owned(dep.req.as_str());
        let accepted = accepts(dep.req.as_str(), &target);
        let ghost before = answers@;
        answers.push((name, req, accepted));
        assert forall|a: int| 0 <= a < i implies #[trigger] dependents_view(answers@)[a] == dependents_view(before)[a] by {
            assert(answers@[a] == before[a]);
        }
        i = i + 1;
        assert(dependents_view(answers@)[i - 1] == dependent_answer(pkgs@, dependents@[i - 1], text));
    }
    assert(dependents_view(answers@) =~= dependent_answers(pkgs@, dependents@, text));
    mismatch_findings(deps, bevy.range, file_start, &answers, target.text())
}

/// The versions of `bevy` named by a node's dependencies: for each dependency id `name@version`
/// whose name contains `bevy`, the version, in order.
pub open spec fn dep_versions(deps: Seq<String>, n: int) -> Seq<Seq<char>>
    decreases n,
{
    if n <= 0 {
        Seq::empty()
    } else {
        dep_versions(deps, n - 1) + match spec_split_once(deps[n - 1]@, '@') {
            Some((name, version)) => if contains_seq(name, "bevy"@) {
                seq![version]
            } else {
                Seq::empty()
            },
            None => Seq::empty(),
        }
    }
}

/// A node of the resolved dependency graph: its package id, and the ids of its dependencies.
pub struct ResolveNode {
    pub id: String,
    pub dependencies: Vec<String>,
}

/// The names held by a list of strings.
pub open spec fn name_set(names: Seq<String>) -> Set<Seq<char>> {
    Set::new(|k: Seq<char>| exists|j: int| 0 <= j < names.len() && (#[trigger] names[j])@ == k)
}

/// Some name of the set ends the text.
pub open spec fn some_suffix(names: Set<Seq<char>>, text: Seq<char>) -> bool {
    exists|n: Seq<char>| #[trigger] names.contains(n) && is_suffix(n, text)
}

/// The name and version of a local package, read from its id: `file:///path#name@version`, or
/// `file:///path#version` for a package named as its directory, the last part of the path.
pub open spec fn spec_local_package(id: Seq<char>) -> Option<(Seq<char>, Seq<char>)> {
    match (spec_split_once(id, '#'), spec_second_piece(id, '#')) {
        (Some((path, _)), Some(fragment)) => match spec_split_once(fragment, '@') {
            Some((name, version)) => Some((name, version)),
            None => Some((spec_after_last(path, '/'), fragment)),
        },
        _ => None,
    }
}

/// The versions that a node contributes: for a local package (`file:///...`) whose name
/// starts with `bevy`, its version; for a node whose id `name@version` ends in the name of a
/// package depending on `bevy`, the `bevy` versions among its dependencies. Other local
/// packages, such as the project itself, contribute nothing.
pub open spec fn node_versions(node: ResolveNode, names: Set<Seq<char>>) -> Seq<Seq<char>> {
    if is_prefix("file:///"@, node.id@) {
        match spec_local_package(node.id@) {
            Some((name, v)) => if is_prefix("bevy"@, name) {
                seq![v]
            } else {
                Seq::empty()
            },
            None => Seq::empty(),
        }
    } else {
        match spec_split_once(node.id@, '@') {
            Some((id, _)) => if some_suffix(names, id) {
                dep_versions(node.dependencies@, node.dependencies@.len() as int)
            } else {
                Seq::empty()
            },
            None => Seq::empty(),
        }
    }
}

/// The versions contributed by the first `n` nodes, in order.
pub open spec fn resolved_versions(nodes: Seq<ResolveNode>, names: Set<Seq<char>>, n: int) -> Seq<Seq<char>>
    decreases n,
{
    if n <= 0 {
        Seq::empty()
    } else {
        resolved_versions(nodes, names, n - 1) + node_versions(nodes[n - 1], names)
    }
}

/// The sequence holds at least two different versions.
pub open spec fn has_distinct(s: Seq<Seq<char>>) -> bool {
    exists|i: int, j: int| 0 <= i < s.len() && 0 <= j < s.len() && s[i] != s[j]
}

fn push_dep_versions<'a>(deps: &'a Vec<String>, out: &mut Vec<&'a str>)
    ensures
        strs_view_local(final(out)@) == strs_view_local(old(out)@) + dep_versions(deps@, deps@.len() as int),
{
    let ghost start = out@;
    let mut k: usize = 0;
    while k < deps.len()
        invariant
            k <= deps@.len(),
            strs_view_local(out@) == strs_view_local(start) + dep_versions(deps@, k as int),
        decreases deps@.len() - k,
    {
        let ghost prev = out@;
        match split_once_char(deps[k].as_str(), '@') {
            Some((name, version)) => {
                if contains(name, "bevy") {
                    out.push(version);
                    assert(strs_view_local(out@) =~= strs_view_local(prev) + seq![version@]);
                } else {
                    assert(out@ == prev);
                }
            },
            None => {},
        }
        assert(dep_versions(deps@, k + 1) == dep_versions(deps@, k as int) + match spec_split_once(deps@[k as int]@, '@') {
            Some((name, version)) => if contains_seq(name, "bevy"@) {
                seq![version]
            } else {
                Seq::empty()
            },
            None => Seq::empty(),
        });
        k = k + 1;
        assert(strs_view_local(out@) =~= strs_view_local(start) + dep_versions(deps@, k as int));
    }
}

/// The characters of each string slice in a sequence.
pub open spec fn strs_view_local(v: Seq<&str>) -> Seq<Seq<char>> {
    v.map_values(|s: &str| s@)
}

/// Whether some name among `names` ends `text`.
fn ends_with_some(names: &Vec<String>, text: &str) -> (r: bool)
    ensures
        r == some_suffix(name_set(names@), text@),
{
    let mut j: usize = 0;
    while j < names.len()
        invariant
            j <= names@.len(),
            forall|x: int| 0 <= x < j ==> !is_suffix((#[trigger] names@[x])@, text@),
        decreases names@.len() - j,
    {
        if ends_with(text, names[j].as_str()) {
            assert(name_set(names@).contains(names@[j as int]@));
            return true;
        }
        j = j + 1;
    }
    assert forall|n: Seq<char>| #[trigger] name_set(names@).contains(n) implies !is_suffix(n, text@) by {
        let x = choose|x: int| 0 <= x < names@.len() && (#[trigger] names@[x])@ == n;
    }
    false
}

/// The name and version of a local package, read from its id.
pub fn local_package(id: &str) -> (r: Option<(&str, &str)>)
    ensures
        match r {
            Some((name, version)) => spec_local_package(id@) == Some((name@, version@)),
            None => spec_local_package(id@) is None,
        },
{
    match (split_once_char(id, '#'), second_piece(id, '#')) {
        (Some((path, _)), Some(fragment)) => match split_once_char(fragment, '@') {
            Some((name, version)) => Some((name, version)),
            None => Some((after_last_char(path, '/'), fragment)),
        },
        _ => None,
    }
}

/// The versions of `bevy` that the resolved graph holds, by the rules of the lint, in the
/// order of the nodes. `names` are the packages that depend on `bevy`.
pub fn resolved_bevy_versions<'a>(nodes: &'a Vec<ResolveNode>, names: &Vec<String>) -> (r: Vec<&'a str>)
    ensures
        strs_view_local(r@) == resolved_versions(nodes@, name_set(names@), nodes@.len() as int),
{
    let mut out: Vec<&'a str> = Vec::new();
    let mut i: usize = 0;
    while i < nodes.len()
        invariant
            i <= nodes@.len(),
            strs_view_local(out@) == resolved_versions(nodes@, name_set(names@), i as int),
        decreases nodes@.len() - i,
    {
        let node = &nodes[i];
        let ghost before = out@;
        let id = node.id.as_str();
        if starts_with(id, "file:///") {
            match local_package(id) {
                Some((name, v)) => {
                    if starts_with(name, "bevy") {
                        out.push(v);
                    }
                },
                None => {},
            }
            assert(strs_view_local(out@) =~= strs_view_local(before) + node_versions(*node, name_set(names@)));
        } else {
            match split_once_char(id, '@') {
                Some((pre, _)) => {
                    if ends_with_some(names, pre) {
                        push_dep_versions(&node.dependencies, &mut out);
                    }
                },
                None => {},
            }
            assert(strs_view_local(out@) =~= strs_view_local(before) + node_versions(*node, name_set(names@)));
        }
        i = i + 1;
    }
    out
}

/// Whether a list holds at least two different versions.
pub fn has_distinct_versions(versions: &Vec<&str>) -> (r: bool)
    ensures
        r == has_distinct(strs_view_local(versions@)),
{
    let ghost s = strs_view_local(versions@);
    if versions.len() == 0 {
        return false;
    }
    let first = versions[0];
    let mut i: usize = 1;
    while i < versions.len()
        invariant
            s == strs_view_local(versions@),
            1 <= i <= versions@.len(),
            first@ == s[0],
            forall|x: int| 0 <= x < i ==> #[trigger] s[x] == s[0],
        decreases versions@.len() - i,
    {
        if !str_eq(versions[i], first) {
            assert(s[i as int] != s[0]);
            return true;
        }
        i = i + 1;
    }
    assert forall|x: int, y: int| 0 <= x < s.len() && 0 <= y < s.len() implies s[x] == s[y] by {
        assert(s[x] == s[0]);
        assert(s[y] == s[0]);
    }
    false
}

/// Whether the resolved graph holds more than one version of `bevy`, by the rules of the lint,
/// for a project that does not name `bevy` itself. `names` are the packages that depend on
/// `bevy`.
pub fn minimal_lint(nodes: &Vec<ResolveNode>, names: &Vec<String>) -> (r: bool)
    ensures
        r == has_distinct(resolved_versions(nodes@, name_set(names@), nodes@.len() as int)),
{
    let versions = resolved_bevy_versions(nodes, names);
    has_distinct_versions(&versions)
}

/// What the lint reports for a project.
pub enum DuplicateReport {
    /// Nothing to report.
    Nothing,
    /// Dependencies that ask for another `bevy` than the one the project names.
    Mismatches(Vec<MismatchFinding>),
    /// Several versions of `bevy` are resolved; reported once, with no location.
    MultipleVersions,
}

/// The names of the packages at the given positions.
fn dependent_names(pkgs: &Vec<PackageInfo>, dependents: &Vec<(usize, usize)>) -> (r: Vec<String>)
    requires
        forall|a: int| 0 <= a < dependents@.len() ==> (#[trigger] dependents@[a]).0 < pkgs@.len(),
    ensures
        r@.len() == dependents@.len(),
        forall|a: int| 0 <= a < r@.len() ==> (#[trigger] r@[a])@ == pos_name(pkgs@, dependents@[a]),
{
    let mut out: Vec<String> = Vec::new();
    let mut i: usize = 0;
    while i < dependents.len()
        invariant
            i <= dependents@.len(),
            out@.len() == i,
            forall|a: int| 0 <= a < dependents@.len() ==> (#[trigger] dependents@[a]).0 < pkgs@.len(),
            forall|a: int| 0 <= a < i ==> (#[trigger] out@[a])@ == pos_name(pkgs@, dependents@[a]),
        decreases dependents@.len() - i,
    {
        out.push(crate::text::to_owned(pkgs[dependents[i].0].name.as_str()));
        i = i + 1;
    }
    out
}

/// The findings of the lint for a project that names `bevy` itself: those of
/// [`target_version_outcome`] for the packages depending on `bevy`, taken in some order (one
/// per package name, as [`bevy_dependents`] gives them).
pub open spec fn reported_mismatches(
    deps: Seq<TomlDependency>,
    bevy: TomlDependency,
    file_start: u32,
    pkgs: Seq<PackageInfo>,
    local_name: Seq<char>,
    found: Seq<(Span, Span, Seq<char>)>,
) -> bool {
    exists|v: Seq<(usize, usize)>|
        represents(pkgs, v, dependents_map(pkgs, local_name, pkgs.len() as int))
        && #[trigger] target_version_outcome(deps, bevy, file_start, pkgs, v, found)
}

/// The lint's verdict on a project. `bevy_crates` is how many crates named `bevy` the compiler
/// found; `cargo_toml` is the project's `Cargo.toml` dependencies when it could be read and
/// parsed, loaded into the source map at `file_start`; `local_name` is the name of the crate
/// being linted; `pkgs` and `resolve` come from `cargo metadata`.
///
/// With a single `bevy` there is nothing to report. When `Cargo.toml` names `bevy`, the
/// dependents that ask for another version are reported (see [`lint_with_target_version`]).
/// Otherwise several resolved versions of `bevy` are reported once (see [`minimal_lint`]).
pub fn check(
    bevy_crates: usize,
    cargo_toml: Option<&Vec<TomlDependency>>,
    file_start: u32,
    local_name: &str,
    pkgs: &Vec<PackageInfo>,
    resolve: Option<&Vec<ResolveNode>>,
) -> (r: DuplicateReport)
    requires
        cargo_toml matches Some(d) ==> ranges_fit(d@, file_start),
    ensures
        bevy_crates == 1 || cargo_toml is None ==> r is Nothing,
        bevy_crates != 1 ==> (cargo_toml matches Some(d) ==> match toml_dep_index(d@, "bevy"@, 0) {
            Some(j) => r matches DuplicateReport::Mismatches(found) && reported_mismatches(
                d@,
                d@[j],
                file_start,
                pkgs@,
                local_name@,
                mismatches_view(found@),
            ),
            None => match resolve {
                Some(nodes) => if has_distinct(resolved_versions(nodes@, dependents_map(pkgs@, local_name@, pkgs@.len() as int).dom(), nodes@.len() as int)) {
                    r is MultipleVersions
                } else {
                    r is Nothing
                },
                None => r is Nothing,
            },
        }),
{
    if bevy_crates == 1 {
        return DuplicateReport::Nothing;
    }
    let deps = match cargo_toml {
        Some(d) => d,
        None => {
            return DuplicateReport::Nothing;
        },
    };
    let dependents = bevy_dependents(pkgs, local_name);
    let ghost m = dependents_map(pkgs@, local_name@, pkgs@.len() as int);
    match find_toml_dep(deps, "bevy") {
        Some(j) => {
            assert(file_start + deps@[j as int].range.start <= u32::MAX);
            let findings = lint_with_target_version(deps, &deps[j], file_start, pkgs, &dependents);
            assert(target_version_outcome(deps@, deps@[j as int], file_start, pkgs@, dependents@, mismatches_view(findings@)));
            assert(represents(pkgs@, dependents@, m));
            assert(reported_mismatches(deps@, deps@[j as int], file_start, pkgs@, local_name@, mismatches_view(findings@)));
            DuplicateReport::Mismatches(findings)
        },
        None => match resolve {
            Some(nodes) => {
                let names = dependent_names(pkgs, &dependents);
                assert(name_set(names@) =~= m.dom()) by {
                    assert forall|k: Seq<char>| name_set(names@).contains(k) implies m.dom().contains(k) by {
                        let a = choose|a: int| 0 <= a < names@.len() && (#[trigger] names@[a])@ == k;
                        assert(m.contains_key(pos_name(pkgs@, dependents@[a])));
                    }
                    assert forall|k: Seq<char>| m.dom().contains(k) implies name_set(names@).contains(k) by {
                        assert(m.contains_key(k));
                        let a = choose|a: int| 0 <= a < dependents@.len() && pos_name(pkgs@, #[trigger] dependents@[a]) == k;
                        assert(names@[a]@ == k);
                    }
                }
                if minimal_lint(nodes, &names) {
                    DuplicateReport::MultipleVersions
                } else {
                    DuplicateReport::Nothing
                }
            },
            None => DuplicateReport::Nothing,
        },
    }
}

} // verus!
