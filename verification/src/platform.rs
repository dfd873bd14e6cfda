//! The `bevy_platform_alternative_exists` lint: uses of `std` types that `bevy_platform`
//! replaces with `no_std`-compatible ones.

use vstd::prelude::*;

use crate::diag::Applicability;
use crate::text::{concat, str_eq, to_owned};

verus! {

/// The `std` types that have a drop-in replacement in `bevy_platform`.
#[derive(Clone, Copy, Debug, PartialEq, Eq, Structural)]
pub enum BevyPlatformType {
    Arc,
    Barrier,
    BarrierWaitResult,
    DefaultHasher,
    HashMap,
    HashSet,
    Instant,
    LazyLock,
    LockResult,
    Mutex,
    MutexGuard,
    Once,
    OnceLock,
    OnceState,
    PoisonError,
    RandomState,
    RwLock,
    RwLockReadGuard,
    RwLockWriteGuard,
    SyncCell,
    SyncUnsafeCell,
    TryLockError,
    TryLockResult,
}

impl BevyPlatformType {
    /// The path of the replacement, as users write it.
    pub open spec fn spec_full_path(self) -> Seq<char> {
        match self {
            BevyPlatformType::Arc => "bevy::platform::sync::Arc"@,
            BevyPlatformType::Barrier => "bevy::platform::sync::Barrier"@,
            BevyPlatformType::BarrierWaitResult => "bevy::platform::sync::BarrierWaitResult"@,
            BevyPlatformType::DefaultHasher => "bevy::platform::hash::DefaultHasher"@,
            BevyPlatformType::HashMap => "bevy::platform::collections::HashMap"@,
            BevyPlatformType::HashSet => "bevy::platform::collections::HashSet"@,
            BevyPlatformType::Instant => "bevy::platform::time::Instant"@,
            BevyPlatformType::LazyLock => "bevy::platform::sync::LazyLock"@,
            BevyPlatformType::LockResult => "bevy::platform::sync::LockResult"@,
            BevyPlatformType::Mutex => "bevy::platform::sync::Mutex"@,
            BevyPlatformType::MutexGuard => "bevy::platform::sync::MutexGuard"@,
            BevyPlatformType::Once => "bevy::platform::sync::Once"@,
            BevyPlatformType::OnceLock => "bevy::platform::sync::OnceLock"@,
            BevyPlatformType::OnceState => "bevy::platform::sync::OnceState"@,
            BevyPlatformType::PoisonError => "bevy::platform::sync::PoisonError"@,
            BevyPlatformType::RandomState => "bevy::platform::hash::RandomState"@,
            BevyPlatformType::RwLock => "bevy::platform::sync::RwLock"@,
            BevyPlatformType::RwLockReadGuard => "bevy::platform::sync::RwLockReadGuard"@,
            BevyPlatformType::RwLockWriteGuard => "bevy::platform::sync::RwLockWriteGuard"@,
            BevyPlatformType::SyncCell => "bevy::platform::sync::SyncCell"@,
            BevyPlatformType::SyncUnsafeCell => "bevy::platform::cell::SyncUnsafeCell"@,
            BevyPlatformType::TryLockError => "bevy::platform::sync::TryLockError"@,
            BevyPlatformType::TryLockResult => "bevy::platform::sync::TryLockResult"@,
        }
    }

    /// The path of the replacement, as users write it.
    pub fn full_path(&self) -> (r: &'static str)
        ensures
            r@ == self.spec_full_path(),
    {
        match self {
            BevyPlatformType::Arc => "bevy::platform::sync::Arc",
            BevyPlatformType::Barrier => "bevy::platform::sync::Barrier",
            BevyPlatformType::BarrierWaitResult => "bevy::platform::sync::BarrierWaitResult",
            BevyPlatformType::DefaultHasher => "bevy::platform::hash::DefaultHasher",
            BevyPlatformType::HashMap => "bevy::platform::collections::HashMap",
            BevyPlatformType::HashSet => "bevy::platform::collections::HashSet",
            BevyPlatformType::Instant => "bevy::platform::time::Instant",
            BevyPlatformType::LazyLock => "bevy::platform::sync::LazyLock",
            BevyPlatformType::LockResult => "bevy::platform::sync::LockResult",
            BevyPlatformType::Mutex => "bevy::platform::sync::Mutex",
            BevyPlatformType::MutexGuard => "bevy::platform::sync::MutexGuard",
            BevyPlatformType::Once => "bevy::platform::sync::Once",
            BevyPlatformType::OnceLock => "bevy::platform::sync::OnceLock",
            BevyPlatformType::OnceState => "bevy::platform::sync::OnceState",
            BevyPlatformType::PoisonError => "bevy::platform::sync::PoisonError",
            BevyPlatformType::RandomState => "bevy::platform::hash::RandomState",
            BevyPlatformType::RwLock => "bevy::platform::sync::RwLock",
            BevyPlatformType::RwLockReadGuard => "bevy::platform::sync::RwLockReadGuard",
            BevyPlatformType::RwLockWriteGuard => "bevy::platform::sync::RwLockWriteGuard",
            BevyPlatformType::SyncCell => "bevy::platform::sync::SyncCell",
            BevyPlatformType::SyncUnsafeCell => "bevy::platform::cell::SyncUnsafeCell",
            BevyPlatformType::TryLockError => "bevy::platform::sync::TryLockError",
            BevyPlatformType::TryLockResult => "bevy::platform::sync::TryLockResult",
        }
    }
}

/// What a path segment resolves to, as far as the lint cares.
#[derive(Clone, Copy, Debug, PartialEq, Eq, Structural)]
pub enum SegmentRes {
    /// The root module of a crate.
    CrateRoot,
    /// Anything else.
    Other,
}

/// One segment of a path as written.
pub struct PathSegmentNode {
    /// The segment's name; the root of a global path such as `::std::sync::Arc` is named
    /// `{{root}}`.
    pub name: String,
    /// What the segment resolves to.
    pub res: SegmentRes,
    /// The source text of the generic arguments written on the segment, such as `<A, B>`.
    pub generics_text: Option<String>,
}

/// The name that the compiler gives the root segment of a global path.
pub open spec fn path_root() -> Seq<char> {
    "{{root}}"@
}

/// The index of the first named segment: the one after the root of a global path, otherwise
/// the first.
pub open spec fn spec_first_segment(names: Seq<Seq<char>>) -> Option<int> {
    if names.len() >= 2 && names[0] == path_root() {
        Some(1)
    } else if names.len() >= 1 {
        Some(0)
    } else {
        None
    }
}

/// The names of a path's segments.
pub open spec fn segment_names(segments: Seq<PathSegmentNode>) -> Seq<Seq<char>> {
    segments.map_values(|s: PathSegmentNode| s.name@)
}

/// Returns the first named segment of a path. For a global path (such as `::std::fmt::Debug`),
/// the segment after the root is returned.
pub fn get_first_segment(segments: &[PathSegmentNode]) -> (r: Option<&PathSegmentNode>)
    ensures
        match spec_first_segment(segment_names(segments@)) {
            Some(i) => r matches Some(s) && *s == segments@[i],
            None => r is None,
        },
{
    if segments.len() >= 2 && str_eq(segments[0].name.as_str(), "{{root}}") {
        proof {
            reveal_strlit("{{root}}");
        }
        Some(&segments[1])
    } else if segments.len() >= 1 {
        proof {
            reveal_strlit("{{root}}");
        }
        Some(&segments[0])
    } else {
        None
    }
}

/// The generic arguments of a path segment formatted as `::<A, B>`, or nothing when none are
/// written.
pub fn generic_args_snippet(generics_text: &Option<String>) -> (r: String)
    ensures
        r@ == match generics_text {
            Some(t) => "::"@ + t@,
            None => Seq::<char>::empty(),
        },
{
    match generics_text {
        Some(t) => {
            let r = concat(&["::", t.as_str()]);
            proof {
                reveal_with_fuel(crate::text::concat_all, 3);
            }
            r
        },
        None => {
            let r = to_owned("");
            proof {
                reveal_strlit("");
            }
            r
        },
    }
}

/// A path as the lint sees it.
pub struct PathNode {
    /// The path resolves to a struct.
    pub resolves_to_struct: bool,
    /// The path's segments, in order.
    pub segments: Vec<PathSegmentNode>,
    /// The path comes from the expansion of an external macro.
    pub in_external_macro: bool,
}

/// The description of the lint, which is also its message.
pub fn platform_alternative_description() -> (r: &'static str)
    ensures
        r@ == "Used type from the `std` that has an existing alternative from `bevy_platform`"@,
{
    "Used type from the `std` that has an existing alternative from `bevy_platform`"
}

/// The lint's finding, at the path: the help message, the text that replaces the path, and the
/// replacement's applicability.
pub struct PlatformFinding {
    pub help: String,
    pub suggestion: String,
    pub applicability: Applicability,
}

/// The generic arguments written on the last segment, formatted as `::<A, B>`.
pub open spec fn spec_last_generics(segments: Seq<PathSegmentNode>) -> Seq<char> {
    match segments.last().generics_text {
        Some(t) => "::"@ + t@,
        None => Seq::<char>::empty(),
    }
}

/// The path is one that the lint inspects: it resolves to a struct, does not come from a macro,
/// and its first named segment is the crate root `std`.
pub open spec fn spec_checked(path: PathNode, from_proc_macro: bool) -> bool {
    &&& path.resolves_to_struct
    &&& !path.in_external_macro
    &&& !from_proc_macro
    &&& match spec_first_segment(segment_names(path.segments@)) {
        Some(i) => path.segments@[i].name@ == "std"@ && path.segments@[i].res == SegmentRes::CrateRoot,
        None => false,
    }
}

/// The finding for a path, by the rules of the lint. `from_proc_macro` tells whether the first
/// named segment likely comes from a procedural macro; `alternative` is the `bevy_platform`
/// type that replaces the type the path resolves to, if any; `path_text` is the path's source
/// text.
pub fn bevy_platform_alternative_exists(
    path: &PathNode,
    from_proc_macro: bool,
    alternative: Option<BevyPlatformType>,
    path_text: &str,
) -> (r: Option<PlatformFinding>)
    ensures
        match r {
            Some(f) => spec_checked(*path, from_proc_macro) && (alternative matches Some(a)
                && f.suggestion@ == a.spec_full_path() + spec_last_generics(path.segments@)
                && f.help@ == "the type `"@ + path_text@
                + "` can be replaced with the `no_std` compatible type "@ + a.spec_full_path()
                + spec_last_generics(path.segments@)) && f.applicability
                == Applicability::MachineApplicable,
            None => !spec_checked(*path, from_proc_macro) || alternative is None,
        },
{
    if !path.resolves_to_struct || path.in_external_macro || from_proc_macro {
        return None;
    }
    let first = match get_first_segment(path.segments.as_slice()) {
        Some(s) => s,
        None => {
            return None;
        },
    };
    if !str_eq(first.name.as_str(), "std") || first.res != SegmentRes::CrateRoot {
        return None;
    }
    let n = path.segments.len();
    let generic_args = generic_args_snippet(&path.segments[n - 1].generics_text);
    let a = match alternative {
        Some(a) => a,
        None => {
            return None;
        },
    };
    let help = concat(
        &[
            "the type `",
            path_text,
            "` can be replaced with the `no_std` compatible type ",
            a.full_path(),
            generic_args.as_str(),
        ],
    );
    let suggestion = concat(&[a.full_path(), generic_args.as_str()]);
    proof {
        reveal_with_fuel(crate::text::concat_all, 6);
    }
    Some(PlatformFinding { help, suggestion, applicability: Applicability::MachineApplicable })
}

} // verus!
