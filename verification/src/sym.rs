//! The strings that the linter interns ahead of time, and the order they are kept in.
//!
//! The compiler hands out symbol numbers in the order strings are interned, and the third-party
//! linting library expects its own symbols to come right after the compiler's. The linter's own
//! strings therefore come last, and are kept sorted so that they can be searched by bisection.

use vstd::prelude::*;

use crate::text::{lt_from, seq_lt, str_lt, strs_view};

verus! {

/// The linter's own pre-interned strings, in order.
pub open spec fn spec_bevy_symbols() -> Seq<Seq<char>> {
    seq![
        "App"@,
        "Bundle"@,
        "Camera"@,
        "Commands"@,
        "Component"@,
        "Deferred"@,
        "DeferredWorld"@,
        "EntityCommands"@,
        "EntityMut"@,
        "Event"@,
        "FilteredEntityMut"@,
        "FixedUpdate"@,
        "Message"@,
        "Messages"@,
        "Mut"@,
        "MutUntyped"@,
        "NonSendMut"@,
        "PartialReflect"@,
        "Plugin"@,
        "PtrMut"@,
        "Query"@,
        "Reflect"@,
        "RelatedSpawner"@,
        "RelatedSpawnerCommands"@,
        "ResMut"@,
        "Resource"@,
        "SystemSet"@,
        "Update"@,
        "With"@,
        "World"@,
        "add_systems"@,
        "bevy"@,
        "bevy_app"@,
        "bevy_camera"@,
        "bevy_ptr"@,
        "bevy_reflect"@,
        "camera"@,
        "change_detection"@,
        "commands"@,
        "component"@,
        "deferred_world"@,
        "entity_access"@,
        "event"@,
        "init_resource"@,
        "insert_resource"@,
        "iter_current_update_messages"@,
        "main_schedule"@,
        "params"@,
        "query"@,
        "related_methods"@,
        "relationship"@,
        "resource"@,
        "run"@,
        "schedule"@,
        "set"@,
        "spawn"@,
        "system"@,
        "system_param"@,
        "world"@,
    ]
}

/// The linter's own pre-interned strings, in order.
pub fn bevy_symbols() -> (r: Vec<&'static str>)
    ensures
        strs_view(r@) == spec_bevy_symbols(),
{
    let r = vec![
        "App",
        "Bundle",
        "Camera",
        "Commands",
        "Component",
        "Deferred",
        "DeferredWorld",
        "EntityCommands",
        "EntityMut",
        "Event",
        "FilteredEntityMut",
        "FixedUpdate",
        "Message",
        "Messages",
        "Mut",
        "MutUntyped",
        "NonSendMut",
        "PartialReflect",
        "Plugin",
        "PtrMut",
        "Query",
        "Reflect",
        "RelatedSpawner",
        "RelatedSpawnerCommands",
        "ResMut",
        "Resource",
        "SystemSet",
        "Update",
        "With",
        "World",
        "add_systems",
        "bevy",
        "bevy_app",
        "bevy_camera",
        "bevy_ptr",
        "bevy_reflect",
        "camera",
        "change_detection",
        "commands",
        "component",
        "deferred_world",
        "entity_access",
        "event",
        "init_resource",
        "insert_resource",
        "iter_current_update_messages",
        "main_schedule",
        "params",
        "query",
        "related_methods",
        "relationship",
        "resource",
        "run",
        "schedule",
        "set",
        "spawn",
        "system",
        "system_param",
        "world",
    ];
    assert(strs_view(r@) =~= spec_bevy_symbols());
    r
}

/// Every entry comes strictly before the next one.
pub open spec fn adjacent_sorted(s: Seq<Seq<char>>) -> bool {
    forall|i: int| 0 <= i < s.len() - 1 ==> seq_lt(#[trigger] s[i], s[i + 1])
}

/// Every entry comes strictly before every later one: the sequence is sorted and holds no
/// string twice.
pub open spec fn strictly_sorted(s: Seq<Seq<char>>) -> bool {
    forall|i: int, j: int| 0 <= i < j < s.len() ==> seq_lt(#[trigger] s[i], #[trigger] s[j])
}

proof fn lemma_chain(s: Seq<Seq<char>>, i: int, j: int)
    requires
        adjacent_sorted(s),
        0 <= i < j < s.len(),
    ensures
        seq_lt(s[i], s[j]),
    decreases j - i,
{
    if j > i + 1 {
        lemma_chain(s, i, j - 1);
        assert(seq_lt(s[j - 1], s[j]));
        crate::text::lemma_seq_lt_strict_total_order(s[i], s[j - 1], s[j]);
    }
}

/// A sequence in which each entry comes before the next is strictly sorted.
pub proof fn lemma_sorted_from_adjacent(s: Seq<Seq<char>>)
    requires
        adjacent_sorted(s),
    ensures
        strictly_sorted(s),
{
    assert forall|i: int, j: int| 0 <= i < j < s.len() implies seq_lt(s[i], s[j]) by {
        lemma_chain(s, i, j);
    }
}

proof fn lemma_bevy_symbols_adjacent()
    ensures
        adjacent_sorted(spec_bevy_symbols()),
{
    assert(seq_lt("App"@, "Bundle"@)) by {
        reveal_strlit("App");
        reveal_strlit("Bundle");
        reveal_with_fuel(lt_from, 2);
    }
    assert(seq_lt("Bundle"@, "Camera"@)) by {
        reveal_strlit("Bundle");
        reveal_strlit("Camera");
        reveal_with_fuel(lt_from, 2);
    }
    assert(seq_lt("Camera"@, "Commands"@)) by {
        reveal_strlit("Camera");
        reveal_strlit("Commands");
        reveal_with_fuel(lt_from, 3);
    }
    assert(seq_lt("Commands"@, "Component"@)) by {
        reveal_strlit("Commands");
        reveal_strlit("Component");
        reveal_with_fuel(lt_from, 5);
    }
    assert(seq_lt("Component"@, "Deferred"@)) by {
        reveal_strlit("Component");
        reveal_strlit("Deferred");
        reveal_with_fuel(lt_from, 2);
    }
    assert(seq_lt("Deferred"@, "DeferredWorld"@)) by {
        reveal_strlit("Deferred");
        reveal_strlit("DeferredWorld");
        reveal_with_fuel(lt_from, 10);
    }
    assert(seq_lt("DeferredWorld"@, "EntityCommands"@)) by {
        reveal_strlit("DeferredWorld");
        reveal_strlit("EntityCommands");
        reveal_with_fuel(lt_from, 2);
    }
    assert(seq_lt("EntityCommands"@, "EntityMut"@)) by {
        reveal_strlit("EntityCommands");
        reveal_strlit("EntityMut");
        reveal_with_fuel(lt_from, 8);
    }
    assert(seq_lt("EntityMut"@, "Event"@)) by {
        reveal_strlit("EntityMut");
        reveal_strlit("Event");
        reveal_with_fuel(lt_from, 3);
    }
    assert(seq_lt("Event"@, "FilteredEntityMut"@)) by {
        reveal_strlit("Event");
        reveal_strlit("FilteredEntityMut");
        reveal_with_fuel(lt_from, 2);
    }
    assert(seq_lt("FilteredEntityMut"@, "FixedUpdate"@)) by {
        reveal_strlit("FilteredEntityMut");
        reveal_strlit("FixedUpdate");
        reveal_with_fuel(lt_from, 4);
    }
    assert(seq_lt("FixedUpdate"@, "Message"@)) by {
        reveal_strlit("FixedUpdate");
        reveal_strlit("Message");
        reveal_with_fuel(lt_from, 2);
    }
    assert(seq_lt("Message"@, "Messages"@)) by {
        reveal_strlit("Message");
        reveal_strlit("Messages");
        reveal_with_fuel(lt_from, 9);
    }
    assert(seq_lt("Messages"@, "Mut"@)) by {
        reveal_strlit("Messages");
        reveal_strlit("Mut");
        reveal_with_fuel(lt_from, 3);
    }
    assert(seq_lt("Mut"@, "MutUntyped"@)) by {
        reveal_strlit("Mut");
        reveal_strlit("MutUntyped");
        reveal_with_fuel(lt_from, 5);
    }
    assert(seq_lt("MutUntyped"@, "NonSendMut"@)) by {
        reveal_strlit("MutUntyped");
        reveal_strlit("NonSendMut");
        reveal_with_fuel(lt_from, 2);
    }
    assert(seq_lt("NonSendMut"@, "PartialReflect"@)) by {
        reveal_strlit("NonSendMut");
        reveal_strlit("PartialReflect");
        reveal_with_fuel(lt_from, 2);
    }
    assert(seq_lt("PartialReflect"@, "Plugin"@)) by {
        reveal_strlit("PartialReflect");
        reveal_strlit("Plugin");
        reveal_with_fuel(lt_from, 3);
    }
    assert(seq_lt("Plugin"@, "PtrMut"@)) by {
        reveal_strlit("Plugin");
        reveal_strlit("PtrMut");
        reveal_with_fuel(lt_from, 3);
    }
    assert(seq_lt("PtrMut"@, "Query"@)) by {
        reveal_strlit("PtrMut");
        reveal_strlit("Query");
        reveal_with_fuel(lt_from, 2);
    }
    assert(seq_lt("Query"@, "Reflect"@)) by {
        reveal_strlit("Query");
        reveal_strlit("Reflect");
        reveal_with_fuel(lt_from, 2);
    }
    assert(seq_lt("Reflect"@, "RelatedSpawner"@)) by {
        reveal_strlit("Reflect");
        reveal_strlit("RelatedSpawner");
        reveal_with_fuel(lt_from, 4);
    }
    assert(seq_lt("RelatedSpawner"@, "RelatedSpawnerCommands"@)) by {
        reveal_strlit("RelatedSpawner");
        reveal_strlit("RelatedSpawnerCommands");
        reveal_with_fuel(lt_from, 16);
    }
    assert(seq_lt("RelatedSpawnerCommands"@, "ResMut"@)) by {
        reveal_strlit("RelatedSpawnerCommands");
        reveal_strlit("ResMut");
        reveal_with_fuel(lt_from, 4);
    }
    assert(seq_lt("ResMut"@, "Resource"@)) by {
        reveal_strlit("ResMut");
        reveal_strlit("Resource");
        reveal_with_fuel(lt_from, 5);
    }
    assert(seq_lt("Resource"@, "SystemSet"@)) by {
        reveal_strlit("Resource");
        reveal_strlit("SystemSet");
        reveal_with_fuel(lt_from, 2);
    }
    assert(seq_lt("SystemSet"@, "Update"@)) by {
        reveal_strlit("SystemSet");
        reveal_strlit("Update");
        reveal_with_fuel(lt_from, 2);
    }
    assert(seq_lt("Update"@, "With"@)) by {
        reveal_strlit("Update");
        reveal_strlit("With");
        reveal_with_fuel(lt_from, 2);
    }
    assert(seq_lt("With"@, "World"@)) by {
        reveal_strlit("With");
        reveal_strlit("World");
        reveal_with_fuel(lt_from, 3);
    }
    assert(seq_lt("World"@, "add_systems"@)) by {
        reveal_strlit("World");
        reveal_strlit("add_systems");
        reveal_with_fuel(lt_from, 2);
    }
    assert(seq_lt("add_systems"@, "bevy"@)) by {
        reveal_strlit("add_systems");
        reveal_strlit("bevy");
        reveal_with_fuel(lt_from, 2);
    }
    assert(seq_lt("bevy"@, "bevy_app"@)) by {
        reveal_strlit("bevy");
        reveal_strlit("bevy_app");
        reveal_with_fuel(lt_from, 6);
    }
    assert(seq_lt("bevy_app"@, "bevy_camera"@)) by {
        reveal_strlit("bevy_app");
        reveal_strlit("bevy_camera");
        reveal_with_fuel(lt_from, 7);
    }
    assert(seq_lt("bevy_camera"@, "bevy_ptr"@)) by {
        reveal_strlit("bevy_camera");
        reveal_strlit("bevy_ptr");
        reveal_with_fuel(lt_from, 7);
    }
    assert(seq_lt("bevy_ptr"@, "bevy_reflect"@)) by {
        reveal_strlit("bevy_ptr");
        reveal_strlit("bevy_reflect");
        reveal_with_fuel(lt_from, 7);
    }
    assert(seq_lt("bevy_reflect"@, "camera"@)) by {
        reveal_strlit("bevy_reflect");
        reveal_strlit("camera");
        reveal_with_fuel(lt_from, 2);
    }
    assert(seq_lt("camera"@, "change_detection"@)) by {
        reveal_strlit("camera");
        reveal_strlit("change_detection");
        reveal_with_fuel(lt_from, 3);
    }
    assert(seq_lt("change_detection"@, "commands"@)) by {
        reveal_strlit("change_detection");
        reveal_strlit("commands");
        reveal_with_fuel(lt_from, 3);
    }
    assert(seq_lt("commands"@, "component"@)) by {
        reveal_strlit("commands");
        reveal_strlit("component");
        reveal_with_fuel(lt_from, 5);
    }
    assert(seq_lt("component"@, "deferred_world"@)) by {
        reveal_strlit("component");
        reveal_strlit("deferred_world");
        reveal_with_fuel(lt_from, 2);
    }
    assert(seq_lt("deferred_world"@, "entity_access"@)) by {
        reveal_strlit("deferred_world");
        reveal_strlit("entity_access");
        reveal_with_fuel(lt_from, 2);
    }
    assert(seq_lt("entity_access"@, "event"@)) by {
        reveal_strlit("entity_access");
        reveal_strlit("event");
        reveal_with_fuel(lt_from, 3);
    }
    assert(seq_lt("event"@, "init_resource"@)) by {
        reveal_strlit("event");
        reveal_strlit("init_resource");
        reveal_with_fuel(lt_from, 2);
    }
    assert(seq_lt("init_resource"@, "insert_resource"@)) by {
        reveal_strlit("init_resource");
        reveal_strlit("insert_resource");
        reveal_with_fuel(lt_from, 4);
    }
    assert(seq_lt("insert_resource"@, "iter_current_update_messages"@)) by {
        reveal_strlit("insert_resource");
        reveal_strlit("iter_current_update_messages");
        reveal_with_fuel(lt_from, 3);
    }
    assert(seq_lt("iter_current_update_messages"@, "main_schedule"@)) by {
        reveal_strlit("iter_current_update_messages");
        reveal_strlit("main_schedule");
        reveal_with_fuel(lt_from, 2);
    }
    assert(seq_lt("main_schedule"@, "params"@)) by {
        reveal_strlit("main_schedule");
        reveal_strlit("params");
        reveal_with_fuel(lt_from, 2);
    }
    assert(seq_lt("params"@, "query"@)) by {
        reveal_strlit("params");
        reveal_strlit("query");
        reveal_with_fuel(lt_from, 2);
    }
    assert(seq_lt("query"@, "related_methods"@)) by {
        reveal_strlit("query");
        reveal_strlit("related_methods");
        reveal_with_fuel(lt_from, 2);
    }
    assert(seq_lt("related_methods"@, "relationship"@)) by {
        reveal_strlit("related_methods");
        reveal_strlit("relationship");
        reveal_with_fuel(lt_from, 7);
    }
    assert(seq_lt("relationship"@, "resource"@)) by {
        reveal_strlit("relationship");
        reveal_strlit("resource");
        reveal_with_fuel(lt_from, 4);
    }
    assert(seq_lt("resource"@, "run"@)) by {
        reveal_strlit("resource");
        reveal_strlit("run");
        reveal_with_fuel(lt_from, 3);
    }
    assert(seq_lt("run"@, "schedule"@)) by {
        reveal_strlit("run");
        reveal_strlit("schedule");
        reveal_with_fuel(lt_from, 2);
    }
    assert(seq_lt("schedule"@, "set"@)) by {
        reveal_strlit("schedule");
        reveal_strlit("set");
        reveal_with_fuel(lt_from, 3);
    }
    assert(seq_lt("set"@, "spawn"@)) by {
        reveal_strlit("set");
        reveal_strlit("spawn");
        reveal_with_fuel(lt_from, 3);
    }
    assert(seq_lt("spawn"@, "system"@)) by {
        reveal_strlit("spawn");
        reveal_strlit("system");
        reveal_with_fuel(lt_from, 3);
    }
    assert(seq_lt("system"@, "system_param"@)) by {
        reveal_strlit("system");
        reveal_strlit("system_param");
        reveal_with_fuel(lt_from, 8);
    }
    assert(seq_lt("system_param"@, "world"@)) by {
        reveal_strlit("system_param");
        reveal_strlit("world");
        reveal_with_fuel(lt_from, 2);
    }
    let s = spec_bevy_symbols();
    assert forall|i: int| 0 <= i < s.len() - 1 implies seq_lt(#[trigger] s[i], s[i + 1]) by {
    }
}

/// The pre-interned strings are sorted and none occurs twice, as bisection needs.
pub proof fn lemma_bevy_symbols_sorted()
    ensures
        strictly_sorted(spec_bevy_symbols()),
{
    lemma_bevy_symbols_adjacent();
    lemma_sorted_from_adjacent(spec_bevy_symbols());
}

/// The strings to pre-intern: the linting library's own symbols first, then the linter's, so
/// that each keeps the symbol numbers it expects.
pub fn extra_symbols(library_symbols: &[&'static str]) -> (r: Vec<&'static str>)
    ensures
        strs_view(r@) == strs_view(library_symbols@) + spec_bevy_symbols(),
{
    let mut out: Vec<&'static str> = Vec::new();
    let mut i: usize = 0;
    while i < library_symbols.len()
        invariant
            i <= library_symbols@.len(),
            out@ == library_symbols@.take(i as int),
        decreases library_symbols@.len() - i,
    {
        out.push(library_symbols[i]);
        i = i + 1;
        assert(out@ =~= library_symbols@.take(i as int));
    }
    let own = bevy_symbols();
    let mut k: usize = 0;
    while k < own.len()
        invariant
            k <= own@.len(),
            out@ == library_symbols@ + own@.take(k as int),
        decreases own@.len() - k,
    {
        out.push(own[k]);
        k = k + 1;
        assert(out@ =~= library_symbols@ + own@.take(k as int));
    }
    assert(own@.take(own@.len() as int) =~= own@);
    assert(strs_view(out@) =~= strs_view(library_symbols@) + strs_view(own@));
    out
}

/// Whether `name` is one of the linter's pre-interned strings, found by bisection over the
/// sorted list.
pub fn is_bevy_symbol(name: &str) -> (r: bool)
    ensures
        r == spec_bevy_symbols().contains(name@),
{
    let symbols = bevy_symbols();
    proof {
        lemma_bevy_symbols_sorted();
    }
    let ghost s = spec_bevy_symbols();
    let mut lo: usize = 0;
    let mut hi: usize = symbols.len();
    while lo < hi
        invariant
            s == spec_bevy_symbols(),
            strs_view(symbols@) == s,
            strictly_sorted(s),
            lo <= hi <= s.len(),
            forall|i: int| 0 <= i < lo ==> seq_lt(#[trigger] s[i], name@),
            forall|i: int| hi <= i < s.len() ==> seq_lt(name@, #[trigger] s[i]),
        decreases hi - lo,
    {
        let mid = lo + (hi - lo) / 2;
        let entry = symbols[mid];
        assert(s[mid as int] == entry@);
        if str_lt(entry, name) {
            assert forall|i: int| 0 <= i < mid + 1 implies seq_lt(#[trigger] s[i], name@) by {
                if i < mid {
                    crate::text::lemma_seq_lt_strict_total_order(s[i], s[mid as int], name@);
                }
            }
            lo = mid + 1;
        } else if str_lt(name, entry) {
            assert forall|i: int| mid <= i < s.len() implies seq_lt(name@, #[trigger] s[i]) by {
                if i > mid {
                    crate::text::lemma_seq_lt_strict_total_order(name@, s[mid as int], s[i]);
                }
            }
            hi = mid;
        } else {
            proof {
                crate::text::lemma_seq_lt_strict_total_order(entry@, name@, name@);
            }
            assert(s[mid as int] == name@);
            assert(s.contains(name@));
            return true;
        }
    }
    assert forall|i: int| 0 <= i < s.len() implies s[i] != name@ by {
        crate::text::lemma_seq_lt_strict_total_order(s[i], name@, name@);
    }
    false
}

} // verus!
