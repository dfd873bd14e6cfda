//! The lints that the linter offers, the groups they belong to, and how the groups are
//! registered with the compiler.

use vstd::prelude::*;

verus! {

/// The default level of a lint or lint group, as the compiler's `--allow`, `--warn` and
/// `--deny` flags set it.
#[derive(Clone, Copy, Debug, PartialEq, Eq, Structural)]
pub enum DefaultLevel {
    Allow,
    Warn,
    Deny,
}

/// The lint groups. Each lint belongs to exactly one, and starts at the group's level.
#[derive(Clone, Copy, Debug, PartialEq, Eq, Structural)]
pub enum Group {
    Correctness,
    Suspicious,
    Complexity,
    Performance,
    Style,
    Pedantic,
    Restriction,
    Nursery,
}

impl Group {
    /// The group's name, as users write it in `#![warn(..)]`.
    pub open spec fn spec_name(self) -> Seq<char> {
        match self {
            Group::Correctness => "bevy::correctness"@,
            Group::Suspicious => "bevy::suspicious"@,
            Group::Complexity => "bevy::complexity"@,
            Group::Performance => "bevy::performance"@,
            Group::Style => "bevy::style"@,
            Group::Pedantic => "bevy::pedantic"@,
            Group::Restriction => "bevy::restriction"@,
            Group::Nursery => "bevy::nursery"@,
        }
    }

    /// The group's default level: code that is outright wrong is denied, likely mistakes and
    /// style are warned about, and the rest is opt-in.
    pub open spec fn spec_level(self) -> DefaultLevel {
        match self {
            Group::Correctness => DefaultLevel::Deny,
            Group::Suspicious | Group::Complexity | Group::Performance | Group::Style => DefaultLevel::Warn,
            Group::Pedantic | Group::Restriction | Group::Nursery => DefaultLevel::Allow,
        }
    }

    /// The group's name.
    pub fn name(&self) -> (r: &'static str)
        ensures
            r@ == self.spec_name(),
    {
        match self {
            Group::Correctness => "bevy::correctness",
            Group::Suspicious => "bevy::suspicious",
            Group::Complexity => "bevy::complexity",
            Group::Performance => "bevy::performance",
            Group::Style => "bevy::style",
            Group::Pedantic => "bevy::pedantic",
            Group::Restriction => "bevy::restriction",
            Group::Nursery => "bevy::nursery",
        }
    }

    /// The group's default level.
    pub fn level(&self) -> (r: DefaultLevel)
        ensures
            r == self.spec_level(),
    {
        match self {
            Group::Correctness => DefaultLevel::Deny,
            Group::Suspicious | Group::Complexity | Group::Performance | Group::Style => DefaultLevel::Warn,
            Group::Pedantic | Group::Restriction | Group::Nursery => DefaultLevel::Allow,
        }
    }
}

/// All groups, in the order they are registered.
pub open spec fn spec_groups() -> Seq<Group> {
    seq![
        Group::Correctness,
        Group::Suspicious,
        Group::Complexity,
        Group::Performance,
        Group::Style,
        Group::Pedantic,
        Group::Restriction,
        Group::Nursery,
    ]
}

/// All groups, in the order they are registered.
pub fn groups() -> (r: Vec<Group>)
    ensures
        r@ == spec_groups(),
{
    let r = vec![
        Group::Correctness,
        Group::Suspicious,
        Group::Complexity,
        Group::Performance,
        Group::Style,
        Group::Pedantic,
        Group::Restriction,
        Group::Nursery,
    ];
    assert(r@ =~= spec_groups());
    r
}

/// A lint that the linter offers.
#[derive(Clone, Copy, Debug, PartialEq, Eq, Structural)]
pub enum BevyLintId {
    InsertEventResource,
    IterCurrentUpdateEvents,
    UnitInBundle,
    InsertUnitBundle,
    UnitComponentInsertion,
    UnconventionalNaming,
    BevyPlatformAlternativeExists,
    BorrowedReborrowable,
    MainReturnWithoutAppExit,
    UnusedAppExit,
    MissingReflect,
    PanickingMethods,
    MissingDefault,
    MissingClone,
    MissingCopy,
    UpdateSchedule,
    FixedUpdateSchedule,
    CameraModificationInFixedUpdate,
    DuplicateBevyDependencies,
    ZstQuery,
}

impl BevyLintId {
    /// The lint's full name.
    pub open spec fn spec_name(self) -> Seq<char> {
        match self {
            BevyLintId::InsertEventResource => "bevy::insert_event_resource"@,
            BevyLintId::IterCurrentUpdateEvents => "bevy::iter_current_update_events"@,
            BevyLintId::UnitInBundle => "bevy::unit_in_bundle"@,
            BevyLintId::InsertUnitBundle => "bevy::insert_unit_bundle"@,
            BevyLintId::UnitComponentInsertion => "bevy::unit_component_insertion"@,
            BevyLintId::UnconventionalNaming => "bevy::unconventional_naming"@,
            BevyLintId::BevyPlatformAlternativeExists => "bevy::bevy_platform_alternative_exists"@,
            BevyLintId::BorrowedReborrowable => "bevy::borrowed_reborrowable"@,
            BevyLintId::MainReturnWithoutAppExit => "bevy::main_return_without_appexit"@,
            BevyLintId::UnusedAppExit => "bevy::unused_appexit"@,
            BevyLintId::MissingReflect => "bevy::missing_reflect"@,
            BevyLintId::PanickingMethods => "bevy::panicking_methods"@,
            BevyLintId::MissingDefault => "bevy::missing_default"@,
            BevyLintId::MissingClone => "bevy::missing_clone"@,
            BevyLintId::MissingCopy => "bevy::missing_copy"@,
            BevyLintId::UpdateSchedule => "bevy::update_schedule"@,
            BevyLintId::FixedUpdateSchedule => "bevy::fixed_update_schedule"@,
            BevyLintId::CameraModificationInFixedUpdate => "bevy::camera_modification_in_fixed_update"@,
            BevyLintId::DuplicateBevyDependencies => "bevy::duplicate_bevy_dependencies"@,
            BevyLintId::ZstQuery => "bevy::zst_query"@,
        }
    }

    /// The group the lint belongs to.
    pub open spec fn spec_group(self) -> Group {
        match self {
            BevyLintId::InsertEventResource => Group::Suspicious,
            BevyLintId::IterCurrentUpdateEvents => Group::Suspicious,
            BevyLintId::UnitInBundle => Group::Suspicious,
            BevyLintId::InsertUnitBundle => Group::Suspicious,
            BevyLintId::UnitComponentInsertion => Group::Suspicious,
            BevyLintId::UnconventionalNaming => Group::Style,
            BevyLintId::BevyPlatformAlternativeExists => Group::Style,
            BevyLintId::BorrowedReborrowable => Group::Pedantic,
            BevyLintId::MainReturnWithoutAppExit => Group::Pedantic,
            BevyLintId::UnusedAppExit => Group::Pedantic,
            BevyLintId::MissingReflect => Group::Restriction,
            BevyLintId::PanickingMethods => Group::Restriction,
            BevyLintId::MissingDefault => Group::Restriction,
            BevyLintId::MissingClone => Group::Restriction,
            BevyLintId::MissingCopy => Group::Restriction,
            BevyLintId::UpdateSchedule => Group::Restriction,
            BevyLintId::FixedUpdateSchedule => Group::Restriction,
            BevyLintId::CameraModificationInFixedUpdate => Group::Nursery,
            BevyLintId::DuplicateBevyDependencies => Group::Nursery,
            BevyLintId::ZstQuery => Group::Nursery,
        }
    }

    /// The lint's short description.
    pub open spec fn spec_description(self) -> Seq<char> {
        match self {
            BevyLintId::InsertEventResource => "called `App::insert_resource(Events<T>)` or `App::init_resource::<Events<T>>()` instead of `App::add_event::<T>()`"@,
            BevyLintId::IterCurrentUpdateEvents => "called `Events::<T>::iter_current_update_events()`"@,
            BevyLintId::UnitInBundle => "created a `Bundle` containing a unit `()`"@,
            BevyLintId::InsertUnitBundle => "inserted a `Bundle` containing a unit `()` type"@,
            BevyLintId::UnitComponentInsertion => "method returns `unit` and will be inserted as a component"@,
            BevyLintId::UnconventionalNaming => "unconventional type name for a `Plugin` or `SystemSet`"@,
            BevyLintId::BevyPlatformAlternativeExists => "Used type from the `std` that has an existing alternative from `bevy_platform`"@,
            BevyLintId::BorrowedReborrowable => "function parameter takes a mutable reference to a re-borrowable type"@,
            BevyLintId::MainReturnWithoutAppExit => "an entrypoint that calls `App::run()` does not return `AppExit`"@,
            BevyLintId::UnusedAppExit => "called `App::run()` without handling the returned `AppExit`"@,
            BevyLintId::MissingReflect => "defined a component, resource, or event without a `Reflect` implementation"@,
            BevyLintId::PanickingMethods => "called a method that can panic when a non-panicking alternative exists"@,
            BevyLintId::MissingDefault => "defined a unit component without a `Default` implementation"@,
            BevyLintId::MissingClone => "defined a unit component without a `Clone` implementation"@,
            BevyLintId::MissingCopy => "defined a unit component without a `Copy` implementation"@,
            BevyLintId::UpdateSchedule => "defined a system in the `Update` schedule"@,
            BevyLintId::FixedUpdateSchedule => "defined a system in the `FixedUpdate` schedule"@,
            BevyLintId::CameraModificationInFixedUpdate => "Camera modification in FixedUpdate schedule"@,
            BevyLintId::DuplicateBevyDependencies => "multiple versions of the `bevy` crate found"@,
            BevyLintId::ZstQuery => "queried a zero-sized type"@,
        }
    }

    /// The lint's default level: that of its group.
    pub open spec fn spec_default_level(self) -> DefaultLevel {
        self.spec_group().spec_level()
    }

    /// The lint's full name, as users write it in `#![warn(..)]`.
    pub fn name(&self) -> (r: &'static str)
        ensures
            r@ == self.spec_name(),
    {
        match self {
            BevyLintId::InsertEventResource => "bevy::insert_event_resource",
            BevyLintId::IterCurrentUpdateEvents => "bevy::iter_current_update_events",
            BevyLintId::UnitInBundle => "bevy::unit_in_bundle",
            BevyLintId::InsertUnitBundle => "bevy::insert_unit_bundle",
            BevyLintId::UnitComponentInsertion => "bevy::unit_component_insertion",
            BevyLintId::UnconventionalNaming => "bevy::unconventional_naming",
            BevyLintId::BevyPlatformAlternativeExists => "bevy::bevy_platform_alternative_exists",
            BevyLintId::BorrowedReborrowable => "bevy::borrowed_reborrowable",
            BevyLintId::MainReturnWithoutAppExit => "bevy::main_return_without_appexit",
            BevyLintId::UnusedAppExit => "bevy::unused_appexit",
            BevyLintId::MissingReflect => "bevy::missing_reflect",
            BevyLintId::PanickingMethods => "bevy::panicking_methods",
            BevyLintId::MissingDefault => "bevy::missing_default",
            BevyLintId::MissingClone => "bevy::missing_clone",
            BevyLintId::MissingCopy => "bevy::missing_copy",
            BevyLintId::UpdateSchedule => "bevy::update_schedule",
            BevyLintId::FixedUpdateSchedule => "bevy::fixed_update_schedule",
            BevyLintId::CameraModificationInFixedUpdate => "bevy::camera_modification_in_fixed_update",
            BevyLintId::DuplicateBevyDependencies => "bevy::duplicate_bevy_dependencies",
            BevyLintId::ZstQuery => "bevy::zst_query",
        }
    }

    /// The group the lint belongs to.
    pub fn group(&self) -> (r: Group)
        ensures
            r == self.spec_group(),
    {
        match self {
            BevyLintId::InsertEventResource => Group::Suspicious,
            BevyLintId::IterCurrentUpdateEvents => Group::Suspicious,
            BevyLintId::UnitInBundle => Group::Suspicious,
            BevyLintId::InsertUnitBundle => Group::Suspicious,
            BevyLintId::UnitComponentInsertion => Group::Suspicious,
            BevyLintId::UnconventionalNaming => Group::Style,
            BevyLintId::BevyPlatformAlternativeExists => Group::Style,
            BevyLintId::BorrowedReborrowable => Group::Pedantic,
            BevyLintId::MainReturnWithoutAppExit => Group::Pedantic,
            BevyLintId::UnusedAppExit => Group::Pedantic,
            BevyLintId::MissingReflect => Group::Restriction,
            BevyLintId::PanickingMethods => Group::Restriction,
            BevyLintId::MissingDefault => Group::Restriction,
            BevyLintId::MissingClone => Group::Restriction,
            BevyLintId::MissingCopy => Group::Restriction,
            BevyLintId::UpdateSchedule => Group::Restriction,
            BevyLintId::FixedUpdateSchedule => Group::Restriction,
            BevyLintId::CameraModificationInFixedUpdate => Group::Nursery,
            BevyLintId::DuplicateBevyDependencies => Group::Nursery,
            BevyLintId::ZstQuery => Group::Nursery,
        }
    }

    /// The lint's short description, printed by `-W help` and in some diagnostics.
    pub fn description(&self) -> (r: &'static str)
        ensures
            r@ == self.spec_description(),
    {
        match self {
            BevyLintId::InsertEventResource => "called `App::insert_resource(Events<T>)` or `App::init_resource::<Events<T>>()` instead of `App::add_event::<T>()`",
            BevyLintId::IterCurrentUpdateEvents => "called `Events::<T>::iter_current_update_events()`",
            BevyLintId::UnitInBundle => "created a `Bundle` containing a unit `()`",
            BevyLintId::InsertUnitBundle => "inserted a `Bundle` containing a unit `()` type",
            BevyLintId::UnitComponentInsertion => "method returns `unit` and will be inserted as a component",
            BevyLintId::UnconventionalNaming => "unconventional type name for a `Plugin` or `SystemSet`",
            BevyLintId::BevyPlatformAlternativeExists => "Used type from the `std` that has an existing alternative from `bevy_platform`",
            BevyLintId::BorrowedReborrowable => "function parameter takes a mutable reference to a re-borrowable type",
            BevyLintId::MainReturnWithoutAppExit => "an entrypoint that calls `App::run()` does not return `AppExit`",
            BevyLintId::UnusedAppExit => "called `App::run()` without handling the returned `AppExit`",
            BevyLintId::MissingReflect => "defined a component, resource, or event without a `Reflect` implementation",
            BevyLintId::PanickingMethods => "called a method that can panic when a non-panicking alternative exists",
            BevyLintId::MissingDefault => "defined a unit component without a `Default` implementation",
            BevyLintId::MissingClone => "defined a unit component without a `Clone` implementation",
            BevyLintId::MissingCopy => "defined a unit component without a `Copy` implementation",
            BevyLintId::UpdateSchedule => "defined a system in the `Update` schedule",
            BevyLintId::FixedUpdateSchedule => "defined a system in the `FixedUpdate` schedule",
            BevyLintId::CameraModificationInFixedUpdate => "Camera modification in FixedUpdate schedule",
            BevyLintId::DuplicateBevyDependencies => "multiple versions of the `bevy` crate found",
            BevyLintId::ZstQuery => "queried a zero-sized type",
        }
    }

    /// The lint's default level, which is its group's.
    pub fn default_level(&self) -> (r: DefaultLevel)
        ensures
            r == self.spec_default_level(),
    {
        self.group().level()
    }
}

/// All lints, in the order they are registered.
pub open spec fn spec_lints() -> Seq<BevyLintId> {
    seq![
        BevyLintId::InsertEventResource,
        BevyLintId::IterCurrentUpdateEvents,
        BevyLintId::UnitInBundle,
        BevyLintId::InsertUnitBundle,
        BevyLintId::UnitComponentInsertion,
        BevyLintId::UnconventionalNaming,
        BevyLintId::BevyPlatformAlternativeExists,
        BevyLintId::BorrowedReborrowable,
        BevyLintId::MainReturnWithoutAppExit,
        BevyLintId::UnusedAppExit,
        BevyLintId::MissingReflect,
        BevyLintId::PanickingMethods,
        BevyLintId::MissingDefault,
        BevyLintId::MissingClone,
        BevyLintId::MissingCopy,
        BevyLintId::UpdateSchedule,
        BevyLintId::FixedUpdateSchedule,
        BevyLintId::CameraModificationInFixedUpdate,
        BevyLintId::DuplicateBevyDependencies,
        BevyLintId::ZstQuery,
    ]
}

/// All lints, in the order they are registered.
pub fn lints() -> (r: Vec<BevyLintId>)
    ensures
        r@ == spec_lints(),
{
    let r = vec![
        BevyLintId::InsertEventResource,
        BevyLintId::IterCurrentUpdateEvents,
        BevyLintId::UnitInBundle,
        BevyLintId::InsertUnitBundle,
        BevyLintId::UnitComponentInsertion,
        BevyLintId::UnconventionalNaming,
        BevyLintId::BevyPlatformAlternativeExists,
        BevyLintId::BorrowedReborrowable,
        BevyLintId::MainReturnWithoutAppExit,
        BevyLintId::UnusedAppExit,
        BevyLintId::MissingReflect,
        BevyLintId::PanickingMethods,
        BevyLintId::MissingDefault,
        BevyLintId::MissingClone,
        BevyLintId::MissingCopy,
        BevyLintId::UpdateSchedule,
        BevyLintId::FixedUpdateSchedule,
        BevyLintId::CameraModificationInFixedUpdate,
        BevyLintId::DuplicateBevyDependencies,
        BevyLintId::ZstQuery,
    ];
    assert(r@ =~= spec_lints());
    r
}

/// The lints among the first `n` of `all` that belong to group `g`, in order.
pub open spec fn lints_in_group(all: Seq<BevyLintId>, g: Group, n: int) -> Seq<BevyLintId>
    decreases n,
{
    if n <= 0 {
        Seq::empty()
    } else {
        lints_in_group(all, g, n - 1) + if all[n - 1].spec_group() == g {
            seq![all[n - 1]]
        } else {
            Seq::empty()
        }
    }
}

/// The lints of a group, in the order of [`lints`].
pub fn group_lints(g: Group) -> (r: Vec<BevyLintId>)
    ensures
        r@ == lints_in_group(spec_lints(), g, spec_lints().len() as int),
{
    let all = lints();
    let mut out: Vec<BevyLintId> = Vec::new();
    let mut i: usize = 0;
    while i < all.len()
        invariant
            all@ == spec_lints(),
            i <= all@.len(),
            out@ == lints_in_group(all@, g, i as int),
        decreases all@.len() - i,
    {
        if all[i].group() == g {
            out.push(all[i]);
        }
        i = i + 1;
        assert(out@ =~= lints_in_group(all@, g, i as int));
    }
    out
}

/// The registrations of the lint groups with the compiler: each group's name with the names of
/// its lints, in the order of [`groups`].
pub fn group_registrations() -> (r: Vec<(Group, Vec<BevyLintId>)>)
    ensures
        r@.len() == spec_groups().len(),
        forall|i: int| 0 <= i < r@.len() ==> (#[trigger] r@[i]).0 == spec_groups()[i] && r@[i].1@
            == lints_in_group(spec_lints(), spec_groups()[i], spec_lints().len() as int),
{
    let gs = groups();
    let mut out: Vec<(Group, Vec<BevyLintId>)> = Vec::new();
    let mut i: usize = 0;
    while i < gs.len()
        invariant
            gs@ == spec_groups(),
            i <= gs@.len(),
            out@.len() == i,
            forall|j: int| 0 <= j < i ==> (#[trigger] out@[j]).0 == spec_groups()[j] && out@[j].1@
                == lints_in_group(spec_lints(), spec_groups()[j], spec_lints().len() as int),
        decreases gs@.len() - i,
    {
        let g = gs[i];
        out.push((g, group_lints(g)));
        i = i + 1;
    }
    out
}

/// A lint occurs in the list of its group's lints exactly when the group is its own.
proof fn lemma_lints_in_group_membership(all: Seq<BevyLintId>, g: Group, n: int, l: BevyLintId)
    requires
        0 <= n <= all.len(),
    ensures
        lints_in_group(all, g, n).contains(l) <==> (all.take(n).contains(l) && l.spec_group() == g),
    decreases n,
{
    if n > 0 {
        lemma_lints_in_group_membership(all, g, n - 1, l);
        assert(all.take(n) =~= all.take(n - 1).push(all[n - 1]));
        if all.take(n - 1).contains(l) {
            let i = choose|i: int| 0 <= i < all.take(n - 1).len() && #[trigger] all.take(n - 1)[i] == l;
            assert(all.take(n)[i] == l);
        }
        if all.take(n).contains(l) && !all.take(n - 1).contains(l) {
            let i = choose|i: int| 0 <= i < all.take(n).len() && #[trigger] all.take(n)[i] == l;
            if i < n - 1 {
                assert(all.take(n - 1)[i] == l);
            }
        }
        let prev = lints_in_group(all, g, n - 1);
        let add = if all[n - 1].spec_group() == g {
            seq![all[n - 1]]
        } else {
            Seq::<BevyLintId>::empty()
        };
        if (prev + add).contains(l) {
            let i = choose|i: int| 0 <= i < (prev + add).len() && #[trigger] (prev + add)[i] == l;
            if i < prev.len() {
                assert(prev[i] == l);
            }
        }
        if prev.contains(l) {
            let i = choose|i: int| 0 <= i < prev.len() && #[trigger] prev[i] == l;
            assert((prev + add)[i] == l);
        }
        if add.contains(l) {
            assert((prev + add)[prev.len() as int] == l);
        }
    }
}

/// Every lint is registered in exactly one group, its own, and its default level is that
/// group's level.
pub proof fn lemma_each_lint_in_one_group(l: BevyLintId, g: Group)
    requires
        spec_lints().contains(l),
    ensures
        lints_in_group(spec_lints(), g, spec_lints().len() as int).contains(l) <==> g == l.spec_group(),
        spec_groups().contains(l.spec_group()),
        l.spec_default_level() == l.spec_group().spec_level(),
{
    lemma_lints_in_group_membership(spec_lints(), g, spec_lints().len() as int, l);
    assert(spec_lints().take(spec_lints().len() as int) =~= spec_lints());
    let gs = spec_groups();
    match l.spec_group() {
        Group::Correctness => assert(gs[0] == l.spec_group()),
        Group::Suspicious => assert(gs[1] == l.spec_group()),
        Group::Complexity => assert(gs[2] == l.spec_group()),
        Group::Performance => assert(gs[3] == l.spec_group()),
        Group::Style => assert(gs[4] == l.spec_group()),
        Group::Pedantic => assert(gs[5] == l.spec_group()),
        Group::Restriction => assert(gs[6] == l.spec_group()),
        Group::Nursery => assert(gs[7] == l.spec_group()),
    }
}

/// Lints that were renamed: the old name, and the name of the lint that replaced it.
pub fn renamed_lints() -> (r: Vec<(&'static str, BevyLintId)>)
    ensures
        r@.len() == 1,
        r@[0].0@ == "bevy::plugin_not_ending_in_plugin"@,
        r@[0].1 == BevyLintId::UnconventionalNaming,
{
    vec![("bevy::plugin_not_ending_in_plugin", BevyLintId::UnconventionalNaming)]
}

} // verus!
