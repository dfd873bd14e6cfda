//! What the linter knows of a particular version of Bevy: where its items are defined.

use vstd::prelude::*;

use crate::lint::{group_registrations, lints, lints_in_group, spec_groups, spec_lints, BevyLintId, Group};
use crate::text::strs_view;

verus! {

/// The Bevy items whose definition paths changed between versions.
#[derive(Clone, Copy, Debug, PartialEq, Eq, Structural)]
pub enum BevyItem {
    App,
    Commands,
    Component,
    Deferred,
    DeferredWorld,
    EntityCommands,
    EntityMut,
    Event,
    Events,
    FilteredEntityMut,
    Mut,
    MutUntyped,
    NonSendMut,
    Plugin,
    PtrMut,
    Query,
    QueryState,
    Reflect,
    ResMut,
    Resource,
    World,
}

/// Bevy 0.15.
#[allow(non_camel_case_types)]
#[derive(Clone, Copy, Debug, PartialEq, Eq, Structural)]
pub struct V0_15;

/// A version of Bevy that the linter supports.
#[allow(non_camel_case_types)]
#[derive(Clone, Copy, Debug, PartialEq, Eq, Structural)]
pub enum BevyVersion {
    V0_15(V0_15),
}

impl V0_15 {
    /// The definition path of an item in Bevy 0.15, crate name first.
    pub open spec fn spec_path(item: BevyItem) -> Seq<Seq<char>> {
        match item {
            BevyItem::App => seq!["bevy_app"@, "app"@, "App"@],
            BevyItem::Commands => seq!["bevy_ecs"@, "system"@, "commands"@, "Commands"@],
            BevyItem::Component => seq!["bevy_ecs"@, "component"@, "Component"@],
            BevyItem::Deferred => seq!["bevy_ecs"@, "system"@, "system_param"@, "Deferred"@],
            BevyItem::DeferredWorld => seq!["bevy_ecs"@, "world"@, "deferred_world"@, "DeferredWorld"@],
            BevyItem::EntityCommands => seq!["bevy_ecs"@, "system"@, "commands"@, "EntityCommands"@],
            BevyItem::EntityMut => seq!["bevy_ecs"@, "world"@, "entity_ref"@, "EntityMut"@],
            BevyItem::Event => seq!["bevy_ecs"@, "event"@, "base"@, "Event"@],
            BevyItem::Events => seq!["bevy_ecs"@, "event"@, "collections"@, "Events"@],
            BevyItem::FilteredEntityMut => seq!["bevy_ecs"@, "world"@, "entity_ref"@, "FilteredEntityMut"@],
            BevyItem::Mut => seq!["bevy_ecs"@, "change_detection"@, "Mut"@],
            BevyItem::MutUntyped => seq!["bevy_ecs"@, "change_detection"@, "MutUntyped"@],
            BevyItem::NonSendMut => seq!["bevy_ecs"@, "change_detection"@, "NonSendMut"@],
            BevyItem::Plugin => seq!["bevy_app"@, "plugin"@, "Plugin"@],
            BevyItem::PtrMut => seq!["bevy_ptr"@, "PtrMut"@],
            BevyItem::Query => seq!["bevy_ecs"@, "system"@, "query"@, "Query"@],
            BevyItem::QueryState => seq!["bevy_ecs"@, "query"@, "state"@, "QueryState"@],
            BevyItem::Reflect => seq!["bevy_reflect"@, "reflect"@, "Reflect"@],
            BevyItem::ResMut => seq!["bevy_ecs"@, "change_detection"@, "ResMut"@],
            BevyItem::Resource => seq!["bevy_ecs"@, "system"@, "system_param"@, "Resource"@],
            BevyItem::World => seq!["bevy_ecs"@, "world"@, "World"@],
        }
    }

    /// The definition path of an item in Bevy 0.15, crate name first.
    pub fn path(item: BevyItem) -> (r: Vec<&'static str>)
        ensures
            strs_view(r@) == Self::spec_path(item),
    {
        let r = match item {
            BevyItem::App => vec!["bevy_app", "app", "App"],
            BevyItem::Commands => vec!["bevy_ecs", "system", "commands", "Commands"],
            BevyItem::Component => vec!["bevy_ecs", "component", "Component"],
            BevyItem::Deferred => vec!["bevy_ecs", "system", "system_param", "Deferred"],
            BevyItem::DeferredWorld => vec!["bevy_ecs", "world", "deferred_world", "DeferredWorld"],
            BevyItem::EntityCommands => vec!["bevy_ecs", "system", "commands", "EntityCommands"],
            BevyItem::EntityMut => vec!["bevy_ecs", "world", "entity_ref", "EntityMut"],
            BevyItem::Event => vec!["bevy_ecs", "event", "base", "Event"],
            BevyItem::Events => vec!["bevy_ecs", "event", "collections", "Events"],
            BevyItem::FilteredEntityMut => vec!["bevy_ecs", "world", "entity_ref", "FilteredEntityMut"],
            BevyItem::Mut => vec!["bevy_ecs", "change_detection", "Mut"],
            BevyItem::MutUntyped => vec!["bevy_ecs", "change_detection", "MutUntyped"],
            BevyItem::NonSendMut => vec!["bevy_ecs", "change_detection", "NonSendMut"],
            BevyItem::Plugin => vec!["bevy_app", "plugin", "Plugin"],
            BevyItem::PtrMut => vec!["bevy_ptr", "PtrMut"],
            BevyItem::Query => vec!["bevy_ecs", "system", "query", "Query"],
            BevyItem::QueryState => vec!["bevy_ecs", "query", "state", "QueryState"],
            BevyItem::Reflect => vec!["bevy_reflect", "reflect", "Reflect"],
            BevyItem::ResMut => vec!["bevy_ecs", "change_detection", "ResMut"],
            BevyItem::Resource => vec!["bevy_ecs", "system", "system_param", "Resource"],
            BevyItem::World => vec!["bevy_ecs", "world", "World"],
        };
        assert(strs_view(r@) =~= Self::spec_path(item));
        r
    }

    /// The lints to register for this version: all of them.
    pub fn register_lints() -> (r: Vec<BevyLintId>)
        ensures
            r@ == spec_lints(),
    {
        lints()
    }

    /// The lint groups to register for this version, each with its lints.
    pub fn register_groups() -> (r: Vec<(Group, Vec<BevyLintId>)>)
        ensures
            r@.len() == spec_groups().len(),
            forall|i: int| 0 <= i < r@.len() ==> (#[trigger] r@[i]).0 == spec_groups()[i] && r@[i].1@
                == lints_in_group(spec_lints(), spec_groups()[i], spec_lints().len() as int),
    {
        group_registrations()
    }
}

impl BevyVersion {
    /// The definition path of an item in this version of Bevy.
    pub open spec fn spec_path(self, item: BevyItem) -> Seq<Seq<char>> {
        match self {
            BevyVersion::V0_15(_) => V0_15::spec_path(item),
        }
    }

    /// The definition path of an item in this version of Bevy, crate name first.
    pub fn path(&self, item: BevyItem) -> (r: Vec<&'static str>)
        ensures
            strs_view(r@) == self.spec_path(item),
    {
        match self {
            BevyVersion::V0_15(_) => V0_15::path(item),
        }
    }
}

} // verus!
