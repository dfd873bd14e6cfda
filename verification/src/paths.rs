//! Definition paths of the Bevy items that the linter recognises.
//!
//! Bevy is a third-party crate, so its items carry no diagnostic names in the compiler. Each item
//! is recognised by its definition path instead, crate name first.

use vstd::prelude::*;

verus! {

/// A Bevy item that some lint looks for.
#[derive(Clone, Copy, Debug, PartialEq, Eq, Structural)]
pub enum BevyPath {
    App,
    Bundle,
    Camera,
    Commands,
    Component,
    DeferredWorld,
    Deferred,
    EntityCommands,
    EntityMut,
    Event,
    Events,
    FilteredEntityMut,
    FixedUpdate,
    Message,
    MutUntyped,
    Mut,
    NonSendMut,
    PartialReflect,
    Plugin,
    PtrMut,
    Query,
    Reflect,
    RelatedSpawner,
    RelatedSpawnerCommands,
    ResMut,
    Resource,
    SystemSet,
    Update,
    With,
    World,
}

impl BevyPath {
    /// The definition path of the item, crate name first.
    pub open spec fn spec_segments(self) -> Seq<Seq<char>> {
        match self {
            BevyPath::App => seq!["bevy_app"@, "app"@, "App"@],
            BevyPath::Bundle => seq!["bevy_ecs"@, "bundle"@, "Bundle"@],
            BevyPath::Camera => seq!["bevy_camera"@, "camera"@, "Camera"@],
            BevyPath::Commands => seq!["bevy_ecs"@, "system"@, "commands"@, "Commands"@],
            BevyPath::Component => seq!["bevy_ecs"@, "component"@, "Component"@],
            BevyPath::DeferredWorld => seq!["bevy_ecs"@, "world"@, "deferred_world"@, "DeferredWorld"@],
            BevyPath::Deferred => seq!["bevy_ecs"@, "system"@, "system_param"@, "Deferred"@],
            BevyPath::EntityCommands => seq![
                "bevy_ecs"@,
                "system"@,
                "commands"@,
                "entity_command"@,
                "EntityCommands"@,
            ],
            BevyPath::EntityMut => seq!["bevy_ecs"@, "world"@, "entity_ref"@, "EntityMut"@],
            BevyPath::Event => seq!["bevy_ecs"@, "event"@, "Event"@],
            BevyPath::Events => seq!["bevy_ecs"@, "event"@, "Events"@],
            BevyPath::FilteredEntityMut => seq![
                "bevy_ecs"@,
                "world"@,
                "entity_ref"@,
                "FilteredEntityMut"@,
            ],
            BevyPath::FixedUpdate => seq!["bevy_app"@, "main_schedule"@, "FixedUpdate"@],
            BevyPath::Message => seq!["bevy_ecs"@, "message"@, "Message"@],
            BevyPath::MutUntyped => seq!["bevy_ecs"@, "change_detection"@, "MutUntyped"@],
            BevyPath::Mut => seq!["bevy_ecs"@, "change_detection"@, "Mut"@],
            BevyPath::NonSendMut => seq!["bevy_ecs"@, "change_detection"@, "NonSendMut"@],
            BevyPath::PartialReflect => seq!["bevy_reflect"@, "reflect"@, "PartialReflect"@],
            BevyPath::Plugin => seq!["bevy_app"@, "plugin"@, "Plugin"@],
            BevyPath::PtrMut => seq!["bevy_ptr"@, "PtrMut"@],
            BevyPath::Query => seq!["bevy_ecs"@, "system"@, "query"@, "Query"@],
            BevyPath::Reflect => seq!["bevy_reflect"@, "reflect"@, "Reflect"@],
            BevyPath::RelatedSpawner => seq![
                "bevy_ecs"@,
                "relationship"@,
                "related_methods"@,
                "RelatedSpawner"@,
            ],
            BevyPath::RelatedSpawnerCommands => seq![
                "bevy_ecs"@,
                "relationship"@,
                "related_methods"@,
                "RelatedSpawnerCommands"@,
            ],
            BevyPath::ResMut => seq!["bevy_ecs"@, "change_detection"@, "ResMut"@],
            BevyPath::Resource => seq!["bevy_ecs"@, "resource"@, "Resource"@],
            BevyPath::SystemSet => seq!["bevy_ecs"@, "schedule"@, "set"@, "SystemSet"@],
            BevyPath::Update => seq!["bevy_app"@, "main_schedule"@, "Update"@],
            BevyPath::With => seq!["bevy_ecs"@, "query"@, "filter"@, "With"@],
            BevyPath::World => seq!["bevy_ecs"@, "world"@, "World"@],
        }
    }

    /// The definition path of the item, crate name first.
    pub fn segments(self) -> (r: Vec<&'static str>)
        ensures
            r@.map_values(|s: &str| s@) == self.spec_segments(),
    {
        let r = match self {
            BevyPath::App => vec!["bevy_app", "app", "App"],
            BevyPath::Bundle => vec!["bevy_ecs", "bundle", "Bundle"],
            BevyPath::Camera => vec!["bevy_camera", "camera", "Camera"],
            BevyPath::Commands => vec!["bevy_ecs", "system", "commands", "Commands"],
            BevyPath::Component => vec!["bevy_ecs", "component", "Component"],
            BevyPath::DeferredWorld => vec!["bevy_ecs", "world", "deferred_world", "DeferredWorld"],
            BevyPath::Deferred => vec!["bevy_ecs", "system", "system_param", "Deferred"],
            BevyPath::EntityCommands => vec![
                "bevy_ecs",
                "system",
                "commands",
                "entity_command",
                "EntityCommands",
            ],
            BevyPath::EntityMut => vec!["bevy_ecs", "world", "entity_ref", "EntityMut"],
            BevyPath::Event => vec!["bevy_ecs", "event", "Event"],
            BevyPath::Events => vec!["bevy_ecs", "event", "Events"],
            BevyPath::FilteredEntityMut => vec![
                "bevy_ecs",
                "world",
                "entity_ref",
                "FilteredEntityMut",
            ],
            BevyPath::FixedUpdate => vec!["bevy_app", "main_schedule", "FixedUpdate"],
            BevyPath::Message => vec!["bevy_ecs", "message", "Message"],
            BevyPath::MutUntyped => vec!["bevy_ecs", "change_detection", "MutUntyped"],
            BevyPath::Mut => vec!["bevy_ecs", "change_detection", "Mut"],
            BevyPath::NonSendMut => vec!["bevy_ecs", "change_detection", "NonSendMut"],
            BevyPath::PartialReflect => vec!["bevy_reflect", "reflect", "PartialReflect"],
            BevyPath::Plugin => vec!["bevy_app", "plugin", "Plugin"],
            BevyPath::PtrMut => vec!["bevy_ptr", "PtrMut"],
            BevyPath::Query => vec!["bevy_ecs", "system", "query", "Query"],
            BevyPath::Reflect => vec!["bevy_reflect", "reflect", "Reflect"],
            BevyPath::RelatedSpawner => vec![
                "bevy_ecs",
                "relationship",
                "related_methods",
                "RelatedSpawner",
            ],
            BevyPath::RelatedSpawnerCommands => vec![
                "bevy_ecs",
                "relationship",
                "related_methods",
                "RelatedSpawnerCommands",
            ],
            BevyPath::ResMut => vec!["bevy_ecs", "change_detection", "ResMut"],
            BevyPath::Resource => vec!["bevy_ecs", "resource", "Resource"],
            BevyPath::SystemSet => vec!["bevy_ecs", "schedule", "set", "SystemSet"],
            BevyPath::Update => vec!["bevy_app", "main_schedule", "Update"],
            BevyPath::With => vec!["bevy_ecs", "query", "filter", "With"],
            BevyPath::World => vec!["bevy_ecs", "world", "World"],
        };
        assert(r@.map_values(|s: &str| s@) =~= self.spec_segments());
        r
    }
}

/// The item whose definition path ends in the name `n`.
pub open spec fn item_named(n: Seq<char>) -> Option<BevyPath> {
    if n == "App"@ {
        Some(BevyPath::App)
    } else if n == "Bundle"@ {
        Some(BevyPath::Bundle)
    } else if n == "Camera"@ {
        Some(BevyPath::Camera)
    } else if n == "Commands"@ {
        Some(BevyPath::Commands)
    } else if n == "Component"@ {
        Some(BevyPath::Component)
    } else if n == "DeferredWorld"@ {
        Some(BevyPath::DeferredWorld)
    } else if n == "Deferred"@ {
        Some(BevyPath::Deferred)
    } else if n == "EntityCommands"@ {
        Some(BevyPath::EntityCommands)
    } else if n == "EntityMut"@ {
        Some(BevyPath::EntityMut)
    } else if n == "Event"@ {
        Some(BevyPath::Event)
    } else if n == "Events"@ {
        Some(BevyPath::Events)
    } else if n == "FilteredEntityMut"@ {
        Some(BevyPath::FilteredEntityMut)
    } else if n == "FixedUpdate"@ {
        Some(BevyPath::FixedUpdate)
    } else if n == "Message"@ {
        Some(BevyPath::Message)
    } else if n == "MutUntyped"@ {
        Some(BevyPath::MutUntyped)
    } else if n == "Mut"@ {
        Some(BevyPath::Mut)
    } else if n == "NonSendMut"@ {
        Some(BevyPath::NonSendMut)
    } else if n == "PartialReflect"@ {
        Some(BevyPath::PartialReflect)
    } else if n == "Plugin"@ {
        Some(BevyPath::Plugin)
    } else if n == "PtrMut"@ {
        Some(BevyPath::PtrMut)
    } else if n == "Query"@ {
        Some(BevyPath::Query)
    } else if n == "Reflect"@ {
        Some(BevyPath::Reflect)
    } else if n == "RelatedSpawner"@ {
        Some(BevyPath::RelatedSpawner)
    } else if n == "RelatedSpawnerCommands"@ {
        Some(BevyPath::RelatedSpawnerCommands)
    } else if n == "ResMut"@ {
        Some(BevyPath::ResMut)
    } else if n == "Resource"@ {
        Some(BevyPath::Resource)
    } else if n == "SystemSet"@ {
        Some(BevyPath::SystemSet)
    } else if n == "Update"@ {
        Some(BevyPath::Update)
    } else if n == "With"@ {
        Some(BevyPath::With)
    } else if n == "World"@ {
        Some(BevyPath::World)
    } else {
        None
    }
}

/// Each item's definition path ends in a name of its own.
pub proof fn lemma_last_segment_names_item(p: BevyPath)
    ensures
        p.spec_segments().len() > 0,
        item_named(p.spec_segments().last()) == Some(p),
{
    reveal_strlit("App");
    reveal_strlit("Bundle");
    reveal_strlit("Camera");
    reveal_strlit("Commands");
    reveal_strlit("Component");
    reveal_strlit("DeferredWorld");
    reveal_strlit("Deferred");
    reveal_strlit("EntityCommands");
    reveal_strlit("EntityMut");
    reveal_strlit("Event");
    reveal_strlit("Events");
    reveal_strlit("FilteredEntityMut");
    reveal_strlit("FixedUpdate");
    reveal_strlit("Message");
    reveal_strlit("MutUntyped");
    reveal_strlit("Mut");
    reveal_strlit("NonSendMut");
    reveal_strlit("PartialReflect");
    reveal_strlit("Plugin");
    reveal_strlit("PtrMut");
    reveal_strlit("Query");
    reveal_strlit("Reflect");
    reveal_strlit("RelatedSpawner");
    reveal_strlit("RelatedSpawnerCommands");
    reveal_strlit("ResMut");
    reveal_strlit("Resource");
    reveal_strlit("SystemSet");
    reveal_strlit("Update");
    reveal_strlit("With");
    reveal_strlit("World");
    match p {
        BevyPath::App => {
            assert(p.spec_segments().last() == "App"@);
        },
        BevyPath::Bundle => {
            assert(p.spec_segments().last() == "Bundle"@);
        },
        BevyPath::Camera => {
            assert(p.spec_segments().last() == "Camera"@);
            assert("Camera"@[0] != "Bundle"@[0]);
        },
        BevyPath::Commands => {
            assert(p.spec_segments().last() == "Commands"@);
        },
        BevyPath::Component => {
            assert(p.spec_segments().last() == "Component"@);
        },
        BevyPath::DeferredWorld => {
            assert(p.spec_segments().last() == "DeferredWorld"@);
        },
        BevyPath::Deferred => {
            assert(p.spec_segments().last() == "Deferred"@);
            assert("Deferred"@[0] != "Commands"@[0]);
        },
        BevyPath::EntityCommands => {
            assert(p.spec_segments().last() == "EntityCommands"@);
        },
        BevyPath::EntityMut => {
            assert(p.spec_segments().last() == "EntityMut"@);
            assert("EntityMut"@[0] != "Component"@[0]);
        },
        BevyPath::Event => {
            assert(p.spec_segments().last() == "Event"@);
        },
        BevyPath::Events => {
            assert(p.spec_segments().last() == "Events"@);
            assert("Events"@[0] != "Bundle"@[0]);
            assert("Events"@[0] != "Camera"@[0]);
        },
        BevyPath::FilteredEntityMut => {
            assert(p.spec_segments().last() == "FilteredEntityMut"@);
        },
        BevyPath::FixedUpdate => {
            assert(p.spec_segments().last() == "FixedUpdate"@);
        },
        BevyPath::Message => {
            assert(p.spec_segments().last() == "Message"@);
        },
        BevyPath::MutUntyped => {
            assert(p.spec_segments().last() == "MutUntyped"@);
        },
        BevyPath::Mut => {
            assert(p.spec_segments().last() == "Mut"@);
            assert("Mut"@[0] != "App"@[0]);
        },
        BevyPath::NonSendMut => {
            assert(p.spec_segments().last() == "NonSendMut"@);
            assert("NonSendMut"@[0] != "MutUntyped"@[0]);
        },
        BevyPath::PartialReflect => {
            assert(p.spec_segments().last() == "PartialReflect"@);
            assert("PartialReflect"@[0] != "EntityCommands"@[0]);
        },
        BevyPath::Plugin => {
            assert(p.spec_segments().last() == "Plugin"@);
            assert("Plugin"@[0] != "Bundle"@[0]);
            assert("Plugin"@[0] != "Camera"@[0]);
            assert("Plugin"@[0] != "Events"@[0]);
        },
        BevyPath::PtrMut => {
            assert(p.spec_segments().last() == "PtrMut"@);
            assert("PtrMut"@[0] != "Bundle"@[0]);
            assert("PtrMut"@[0] != "Camera"@[0]);
            assert("PtrMut"@[0] != "Events"@[0]);
            assert("PtrMut"@[1] != "Plugin"@[1]);
        },
        BevyPath::Query => {
            assert(p.spec_segments().last() == "Query"@);
            assert("Query"@[0] != "Event"@[0]);
        },
        BevyPath::Reflect => {
            assert(p.spec_segments().last() == "Reflect"@);
            assert("Reflect"@[0] != "Message"@[0]);
        },
        BevyPath::RelatedSpawner => {
            assert(p.spec_segments().last() == "RelatedSpawner"@);
            assert("RelatedSpawner"@[0] != "EntityCommands"@[0]);
            assert("RelatedSpawner"@[0] != "PartialReflect"@[0]);
        },
        BevyPath::RelatedSpawnerCommands => {
            assert(p.spec_segments().last() == "RelatedSpawnerCommands"@);
        },
        BevyPath::ResMut => {
            assert(p.spec_segments().last() == "ResMut"@);
            assert("ResMut"@[0] != "Bundle"@[0]);
            assert("ResMut"@[0] != "Camera"@[0]);
            assert("ResMut"@[0] != "Events"@[0]);
            assert("ResMut"@[0] != "Plugin"@[0]);
            assert("ResMut"@[0] != "PtrMut"@[0]);
        },
        BevyPath::Resource => {
            assert(p.spec_segments().last() == "Resource"@);
            assert("Resource"@[0] != "Commands"@[0]);
            assert("Resource"@[0] != "Deferred"@[0]);
        },
        BevyPath::SystemSet => {
            assert(p.spec_segments().last() == "SystemSet"@);
            assert("SystemSet"@[0] != "Component"@[0]);
            assert("SystemSet"@[0] != "EntityMut"@[0]);
        },
        BevyPath::Update => {
            assert(p.spec_segments().last() == "Update"@);
            assert("Update"@[0] != "Bundle"@[0]);
            assert("Update"@[0] != "Camera"@[0]);
            assert("Update"@[0] != "Events"@[0]);
            assert("Update"@[0] != "Plugin"@[0]);
            assert("Update"@[0] != "PtrMut"@[0]);
            assert("Update"@[0] != "ResMut"@[0]);
        },
        BevyPath::With => {
            assert(p.spec_segments().last() == "With"@);
        },
        BevyPath::World => {
            assert(p.spec_segments().last() == "World"@);
            assert("World"@[0] != "Event"@[0]);
            assert("World"@[0] != "Query"@[0]);
        },
    }
}

/// Two different items have different definition paths, so a type is at most one of them.
pub proof fn lemma_segments_distinct(a: BevyPath, b: BevyPath)
    ensures
        a != b ==> a.spec_segments() != b.spec_segments(),
{
    lemma_last_segment_names_item(a);
    lemma_last_segment_names_item(b);
}

} // verus!
