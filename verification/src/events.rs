//! Lints on the misuse of the `Events<T>` resource: inserting it by hand instead of registering
//! the event, and reading it with `iter_current_update_events()`.

use vstd::prelude::*;

use crate::diag::Applicability;
use crate::expr::{MethodCall, Span};
use crate::paths::BevyPath;
use crate::text::{concat, str_eq, to_owned};
use crate::ty::Ty;

verus! {

/// A generic argument written on a method's path segment, as in `init_resource::<A>()`.
pub enum GenericArgNode {
    /// A type argument. `ty` is its type; `inner_text` is the source text of `T` when the
    /// argument is written as a path whose last segment carries exactly one type argument `T`
    /// (as in `Events<T>`) and that text can be read, and `None` otherwise.
    Type { ty: Ty, inner_text: Option<String> },
    /// A lifetime or constant argument.
    Other,
}

/// The two ways of inserting an `Events<T>` resource by hand.
#[derive(Clone, Copy, Debug, PartialEq, Eq, Structural)]
pub enum EventsInsertion {
    /// `App::insert_resource(Events<T>)`.
    InsertResource,
    /// `App::init_resource::<Events<T>>()`.
    InitResource,
}

impl EventsInsertion {
    /// The lint message for this kind of insertion.
    pub open spec fn spec_message(self) -> Seq<char> {
        match self {
            EventsInsertion::InsertResource => "called `App::insert_resource(Events<T>)` instead of `App::add_event::<T>()`"@,
            EventsInsertion::InitResource => "called `App::init_resource::<Events<T>>()` instead of `App::add_event::<T>()`"@,
        }
    }

    /// The lint message for this kind of insertion.
    pub fn message(&self) -> (r: &'static str)
        ensures
            r@ == self.spec_message(),
    {
        match self {
            EventsInsertion::InsertResource => "called `App::insert_resource(Events<T>)` instead of `App::add_event::<T>()`",
            EventsInsertion::InitResource => "called `App::init_resource::<Events<T>>()` instead of `App::add_event::<T>()`",
        }
    }
}

/// The help text shared by both kinds of insertion.
pub fn insert_event_resource_help() -> (r: &'static str)
    ensures
        r@ == "inserting an `Events` resource does not fully setup that event"@,
{
    "inserting an `Events` resource does not fully setup that event"
}

/// The description of the `insert_event_resource` lint.
pub fn insert_event_resource_description() -> (r: &'static str)
    ensures
        r@ == "called `App::insert_resource(Events<T>)` or `App::init_resource::<Events<T>>()` instead of `App::add_event::<T>()`"@,
{
    "called `App::insert_resource(Events<T>)` or `App::init_resource::<Events<T>>()` instead of `App::add_event::<T>()`"
}

/// A hand-made insertion of an `Events<T>` resource and the fix for it: replace the method call
/// at `span` by `suggestion`.
pub struct EventsFinding {
    pub kind: EventsInsertion,
    pub span: Span,
    pub suggestion: String,
    pub applicability: Applicability,
}

/// The text of `T` in `Events<T>`, taken from the type of the inserted value: the compiler's
/// printing of its first generic argument, or the placeholder `T` when the type has none.
pub open spec fn spec_ty_event_snippet(events_ty: Ty, printed: Seq<char>) -> (Seq<char>, Applicability) {
    match events_ty {
        Ty::Adt { args, .. } => if args@.len() > 0 {
            (printed, Applicability::MachineApplicable)
        } else {
            ("T"@, Applicability::HasPlaceholders)
        },
        _ => ("T"@, Applicability::HasPlaceholders),
    }
}

/// The text of `T` in `Events<T>` as written in a turbofish, or the placeholder `T`.
pub open spec fn spec_hir_event_snippet(inner_text: Option<Seq<char>>) -> (Seq<char>, Applicability) {
    match inner_text {
        Some(t) => (t, Applicability::MachineApplicable),
        None => ("T"@, Applicability::HasPlaceholders),
    }
}

/// The text of `T` for the type `Events<T>` of an inserted value. `printed` is the compiler's
/// printing of the type's first generic argument.
pub fn extract_ty_event_snippet(events_ty: &Ty, printed: &str) -> (r: (String, Applicability))
    ensures
        (r.0@, r.1) == spec_ty_event_snippet(*events_ty, printed@),
{
    match events_ty {
        Ty::Adt { args, .. } => if args.len() > 0 {
            (to_owned(printed), Applicability::MachineApplicable)
        } else {
            (to_owned("T"), Applicability::HasPlaceholders)
        },
        _ => (to_owned("T"), Applicability::HasPlaceholders),
    }
}

/// The text of `T` for a turbofish argument written `Events<T>`.
pub fn extract_hir_event_snippet(inner_text: &Option<String>) -> (r: (String, Applicability))
    ensures
        (r.0@, r.1) == spec_hir_event_snippet(
            match inner_text {
                Some(t) => Some(t@),
                None => None,
            },
        ),
{
    match inner_text {
        Some(t) => (to_owned(t.as_str()), Applicability::MachineApplicable),
        None => (to_owned("T"), Applicability::HasPlaceholders),
    }
}

/// The suggested replacement call: "add_event::<{T}>()".
pub open spec fn spec_add_event(snippet: Seq<char>) -> Seq<char> {
    "add_event::<"@ + snippet + ">()"@
}

/// The finding for a method call, by the rules of the `insert_event_resource` lint, as
/// (kind, span, suggestion, applicability).
pub open spec fn spec_insert_event_resource(
    parts: (Seq<char>, crate::expr::Expr, Seq<crate::expr::Expr>, Span, bool),
    generic_args: Seq<GenericArgNode>,
    printed: Seq<char>,
) -> Option<(EventsInsertion, Span, Seq<char>, Applicability)> {
    if parts.4 || !parts.1.ty.peeled().is_bevy(BevyPath::App) {
        None
    } else if parts.0 == "insert_resource"@ {
        if parts.2.len() == 1 && parts.2[0].ty.is_bevy(BevyPath::Events) {
            let s = spec_ty_event_snippet(parts.2[0].ty, printed);
            Some((EventsInsertion::InsertResource, parts.3, spec_add_event(s.0), s.1))
        } else {
            None
        }
    } else if parts.0 == "init_resource"@ {
        if generic_args.len() == 1 {
            match generic_args[0] {
                GenericArgNode::Type { ty, inner_text } => if ty.is_bevy(BevyPath::Events) {
                    let s = spec_hir_event_snippet(
                        match inner_text {
                            Some(t) => Some(t@),
                            None => None,
                        },
                    );
                    Some((EventsInsertion::InitResource, parts.3, spec_add_event(s.0), s.1))
                } else {
                    None
                },
                GenericArgNode::Other => None,
            }
        } else {
            None
        }
    } else {
        None
    }
}

/// The receiver is `App` or a reference to `App` (as in a plugin's `build(&self, app: &mut App)`).
pub open spec fn receives_app(receiver: crate::expr::Expr) -> bool {
    receiver.ty.is_bevy(BevyPath::App) || (receiver.ty matches Ty::Ref { inner, .. }
        && inner.is_bevy(BevyPath::App))
}

/// The lint looks at the receiver's type only with its references removed: a receiver of type
/// `&T` or `&mut T` gives the same answer as one of type `T`.
pub proof fn lemma_receiver_references_ignored(
    method: Seq<char>,
    receiver: crate::expr::Expr,
    args: Seq<crate::expr::Expr>,
    span: Span,
    fully_qualified: bool,
    generic_args: Seq<GenericArgNode>,
    printed: Seq<char>,
    mutable: bool,
)
    ensures
        spec_insert_event_resource(
            (
                method,
                crate::expr::Expr { ty: Ty::Ref { mutable, inner: Box::new(receiver.ty) }, ..receiver },
                args,
                span,
                fully_qualified,
            ),
            generic_args,
            printed,
        ) == spec_insert_event_resource(
            (method, receiver, args, span, fully_qualified),
            generic_args,
            printed,
        ),
{
}

/// On `app.insert_resource(value)` with `app` of type `App` or `&mut App` and `value` of type
/// `Events<T>`, the lint reports the call, at its span, suggesting `add_event::<T>()` with the
/// compiler's printing of `T`, machine-applicable. On `app.init_resource::<Events<T>>()` it does
/// the same with `T` as written. The fully qualified form `App::insert_resource(..)` is never
/// reported.
pub proof fn lemma_events_insertions_reported(
    receiver: crate::expr::Expr,
    args: Seq<crate::expr::Expr>,
    span: Span,
    generic_args: Seq<GenericArgNode>,
    printed: Seq<char>,
)
    ensures
        receives_app(receiver) && args.len() == 1 && args[0].ty.is_bevy(BevyPath::Events) && (
        args[0].ty matches Ty::Adt { args: targs, .. } && targs@.len() > 0) ==> spec_insert_event_resource(
            ("insert_resource"@, receiver, args, span, false),
            generic_args,
            printed,
        ) == Some(
            (
                EventsInsertion::InsertResource,
                span,
                "add_event::<"@ + printed + ">()"@,
                Applicability::MachineApplicable,
            ),
        ),
        receives_app(receiver) && generic_args.len() == 1 && (generic_args[0] matches GenericArgNode::Type {
            ty,
            inner_text: Some(t),
        } && ty.is_bevy(BevyPath::Events)) ==> spec_insert_event_resource(
            ("init_resource"@, receiver, args, span, false),
            generic_args,
            printed,
        ) == Some(
            (
                EventsInsertion::InitResource,
                span,
                "add_event::<"@ + (generic_args[0]->inner_text)->0@ + ">()"@,
                Applicability::MachineApplicable,
            ),
        ),
        forall|method: Seq<char>|
            spec_insert_event_resource(
                (method, receiver, args, span, true),
                generic_args,
                printed,
            ) is None,
{
    reveal_strlit("insert_resource");
    reveal_strlit("init_resource");
    assert("init_resource"@ != "insert_resource"@) by {
        assert("init_resource"@.len() != "insert_resource"@.len());
    }
    if let Ty::Ref { inner, .. } = receiver.ty {
        assert(receiver.ty.peeled() == (*inner).peeled());
        if inner.is_bevy(BevyPath::App) {
            assert((*inner).peeled() == *inner);
        }
    }
    if receives_app(receiver) {
        assert(receiver.ty.peeled().is_bevy(BevyPath::App));
    }
}

/// The finding's parts, in the shape of [`spec_insert_event_resource`].
pub open spec fn finding_parts(f: EventsFinding) -> (EventsInsertion, Span, Seq<char>, Applicability) {
    (f.kind, f.span, f.suggestion@, f.applicability)
}

/// Recognises `app.insert_resource(Events<T>)` and `app.init_resource::<Events<T>>()`, by the
/// rules of the `insert_event_resource` lint. Only the method-call form `app.method(..)` is
/// inspected. `generic_args` are the generic arguments written on the method, and `printed` is
/// the compiler's printing of the first generic argument of the inserted value's type.
pub fn insert_event_resource(call: &MethodCall, generic_args: &Vec<GenericArgNode>, printed: &str) -> (r:
    Option<EventsFinding>)
    ensures
        match r {
            Some(f) => spec_insert_event_resource(call.parts(), generic_args@, printed@) == Some(
                finding_parts(f),
            ),
            None => spec_insert_event_resource(call.parts(), generic_args@, printed@) is None,
        },
{
    if call.is_fully_qualified || !call.receiver.ty.peel_refs().matches(BevyPath::App) {
        return None;
    }
    let name = call.method_name.as_str();
    if str_eq(name, "insert_resource") {
        if call.args.len() != 1 || !call.args[0].ty.matches(BevyPath::Events) {
            return None;
        }
        let (snippet, applicability) = extract_ty_event_snippet(&call.args[0].ty, printed);
        let suggestion = concat(&["add_event::<", snippet.as_str(), ">()"]);
        proof {
            reveal_with_fuel(crate::text::concat_all, 4);
        }
        Some(
            EventsFinding {
                kind: EventsInsertion::InsertResource,
                span: call.span,
                suggestion,
                applicability,
            },
        )
    } else if str_eq(name, "init_resource") {
        if generic_args.len() != 1 {
            return None;
        }
        match &generic_args[0] {
            GenericArgNode::Type { ty, inner_text } => {
                if !ty.matches(BevyPath::Events) {
                    return None;
                }
                let (snippet, applicability) = extract_hir_event_snippet(inner_text);
                let suggestion = concat(&["add_event::<", snippet.as_str(), ">()"]);
                proof {
                    reveal_with_fuel(crate::text::concat_all, 4);
                }
                Some(
                    EventsFinding {
                        kind: EventsInsertion::InitResource,
                        span: call.span,
                        suggestion,
                        applicability,
                    },
                )
            },
            GenericArgNode::Other => None,
        }
    } else {
        None
    }
}

/// The description of the `init_event_resource` lint, which is also its message.
pub fn init_event_resource_description() -> (r: &'static str)
    ensures
        r@ == "called `App::init_resource::<Events<T>>() instead of `App::add_event::<T>()`"@,
{
    "called `App::init_resource::<Events<T>>() instead of `App::add_event::<T>()`"
}

/// Whether a method call is `app.init_resource::<Events<T>>()` on a receiver whose type is `App`
/// itself, by the rules of the `init_event_resource` lint.
pub fn init_event_resource(call: &MethodCall, generic_args: &Vec<GenericArgNode>) -> (r: bool)
    ensures
        r == (!call.is_fully_qualified && call.method_name@ == "init_resource"@
            && call.receiver.ty.is_bevy(BevyPath::App) && generic_args@.len() == 1
            && (generic_args@[0] matches GenericArgNode::Type { ty, .. } && ty.is_bevy(
            BevyPath::Events,
        ))),
{
    if call.is_fully_qualified || !str_eq(call.method_name.as_str(), "init_resource") {
        return false;
    }
    if !call.receiver.ty.matches(BevyPath::App) || generic_args.len() != 1 {
        return false;
    }
    match &generic_args[0] {
        GenericArgNode::Type { ty, .. } => ty.matches(BevyPath::Events),
        GenericArgNode::Other => false,
    }
}

/// The description of the `iter_current_update_events` lint, which is also its message.
pub fn iter_current_update_events_description() -> (r: &'static str)
    ensures
        r@ == "called `Events::<T>::iter_current_update_events()`"@,
{
    "called `Events::<T>::iter_current_update_events()`"
}

/// The help of the `iter_current_update_events` lint.
pub fn iter_current_update_events_help() -> (r: &'static str)
    ensures
        r@ == "`iter_current_update_events()` does not track which events have already been seen, consider using `EventReader<T>` instead"@,
{
    "`iter_current_update_events()` does not track which events have already been seen, consider using `EventReader<T>` instead"
}

/// Where `Events::<T>::iter_current_update_events()` is called, by the rules of the
/// `iter_current_update_events` lint: the receiver's adjusted type is (a reference to) `Events`,
/// so that `Res<Events<T>>` counts too.
pub fn iter_current_update_events(call: &MethodCall) -> (r: Option<Span>)
    ensures
        r == if call.receiver.adjusted_ty.peeled().is_bevy(BevyPath::Events)
            && call.method_name@ == "iter_current_update_events"@ {
            Some(call.span)
        } else {
            None
        },
{
    if call.receiver.adjusted_ty.peel_refs().matches(BevyPath::Events) && str_eq(
        call.method_name.as_str(),
        "iter_current_update_events",
    ) {
        Some(call.span)
    } else {
        None
    }
}

} // verus!
