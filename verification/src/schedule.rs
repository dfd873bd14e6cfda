//! The `update_schedule` and `fixed_update_schedule` lints: systems added to a schedule that a
//! module has chosen to deny.

use vstd::prelude::*;

use crate::diag::Applicability;
use crate::expr::{MethodCall, Span};
use crate::paths::BevyPath;
use crate::text::{concat, str_eq};
use crate::ty::Ty;

verus! {

/// The two schedules that these lints can deny.
#[derive(Clone, Copy, Debug, PartialEq, Eq, Structural)]
pub enum ScheduleType {
    FixedUpdate,
    Update,
}

impl ScheduleType {
    /// The schedule that a type names, `FixedUpdate` tried first.
    pub open spec fn spec_try_from_ty(ty: Ty) -> Option<ScheduleType> {
        if ty.is_bevy(BevyPath::FixedUpdate) {
            Some(ScheduleType::FixedUpdate)
        } else if ty.is_bevy(BevyPath::Update) {
            Some(ScheduleType::Update)
        } else {
            None
        }
    }

    /// The schedule's name.
    pub open spec fn spec_name(self) -> Seq<char> {
        match self {
            ScheduleType::FixedUpdate => "FixedUpdate"@,
            ScheduleType::Update => "Update"@,
        }
    }

    /// The other schedule: the one to use in place of this one.
    pub open spec fn spec_suggestion(self) -> ScheduleType {
        match self {
            ScheduleType::FixedUpdate => ScheduleType::Update,
            ScheduleType::Update => ScheduleType::FixedUpdate,
        }
    }

    /// The schedule that a type names, if it is one of the two.
    pub fn try_from_ty(ty: &Ty) -> (r: Option<ScheduleType>)
        ensures
            r == Self::spec_try_from_ty(*ty),
    {
        if ty.matches(BevyPath::FixedUpdate) {
            Some(ScheduleType::FixedUpdate)
        } else if ty.matches(BevyPath::Update) {
            Some(ScheduleType::Update)
        } else {
            None
        }
    }

    /// The schedule's name.
    pub fn name(&self) -> (r: &'static str)
        ensures
            r@ == self.spec_name(),
    {
        match self {
            ScheduleType::FixedUpdate => "FixedUpdate",
            ScheduleType::Update => "Update",
        }
    }

    /// The name of the schedule to use instead.
    pub fn suggestion(&self) -> (r: &'static str)
        ensures
            r@ == self.spec_suggestion().spec_name(),
    {
        match self {
            ScheduleType::FixedUpdate => "Update",
            ScheduleType::Update => "FixedUpdate",
        }
    }

    /// The name of the lint that denies this schedule.
    pub fn lint_name(&self) -> (r: &'static str)
        ensures
            r@ == match self {
                ScheduleType::FixedUpdate => "bevy::fixed_update_schedule"@,
                ScheduleType::Update => "bevy::update_schedule"@,
            },
    {
        match self {
            ScheduleType::FixedUpdate => "bevy::fixed_update_schedule",
            ScheduleType::Update => "bevy::update_schedule",
        }
    }

    /// The description of the lint that denies this schedule: "defined a system in the
    /// `{name}` schedule".
    pub fn lint_description(&self) -> (r: &'static str)
        ensures
            r@ == match self {
                ScheduleType::FixedUpdate => "defined a system in the `FixedUpdate` schedule"@,
                ScheduleType::Update => "defined a system in the `Update` schedule"@,
            },
    {
        match self {
            ScheduleType::FixedUpdate => "defined a system in the `FixedUpdate` schedule",
            ScheduleType::Update => "defined a system in the `Update` schedule",
        }
    }

    /// "the `{name}` schedule is disallowed"
    pub fn message(&self) -> (r: String)
        ensures
            r@ == "the `"@ + self.spec_name() + "` schedule is disallowed"@,
    {
        let r = concat(&["the `", self.name(), "` schedule is disallowed"]);
        proof {
            reveal_with_fuel(crate::text::concat_all, 4);
        }
        r
    }

    /// "use the `{other}` schedule instead"
    pub fn help(&self) -> (r: String)
        ensures
            r@ == "use the `"@ + self.spec_suggestion().spec_name() + "` schedule instead"@,
    {
        let r = concat(&["use the `", self.suggestion(), "` schedule instead"]);
        proof {
            reveal_with_fuel(crate::text::concat_all, 4);
        }
        r
    }
}

/// Suggesting the other schedule twice comes back to the first, and the suggestion is never the
/// schedule that was denied.
pub proof fn lemma_suggestion_involution(s: ScheduleType)
    ensures
        s.spec_suggestion().spec_suggestion() == s,
        s.spec_suggestion() != s,
        s.spec_suggestion().spec_name() != s.spec_name(),
{
    reveal_strlit("Update");
    reveal_strlit("FixedUpdate");
    assert("Update"@.len() != "FixedUpdate"@.len());
}

/// Where a denied schedule was named: which schedule, and the label argument's id and span.
/// The lint points at the label and suggests replacing it with the other schedule's name
/// ([`ScheduleType::suggestion`], with [`ScheduleType::help`] as the message), a suggestion
/// that can be applied as it is.
#[derive(Clone, Copy, Debug, PartialEq, Eq, Structural)]
pub struct ScheduleFinding {
    pub schedule: ScheduleType,
    pub label_id: u64,
    pub label_span: Span,
    /// The applicability of the suggested replacement of the label.
    pub applicability: Applicability,
}

/// The finding for a method call, by the rules of the schedule lints: the call is
/// `App::add_systems(label, ..)` on a receiver whose adjusted type is (a reference to) `App`,
/// and the label's adjusted type is `FixedUpdate` or `Update`.
pub open spec fn spec_schedule_finding(
    parts: (Seq<char>, crate::expr::Expr, Seq<crate::expr::Expr>, Span, bool),
    in_external_macro: bool,
) -> Option<ScheduleFinding> {
    if in_external_macro || !parts.1.adjusted_ty.peeled().is_bevy(BevyPath::App) || parts.0
        != "add_systems"@ || parts.2.len() == 0 {
        None
    } else {
        match ScheduleType::spec_try_from_ty(parts.2[0].adjusted_ty) {
            None => None,
            Some(s) => Some(
                ScheduleFinding {
                    schedule: s,
                    label_id: parts.2[0].id,
                    label_span: parts.2[0].span,
                    applicability: Applicability::MachineApplicable,
                },
            ),
        }
    }
}

/// Which calls the schedule lints report: `app.add_systems(label, ..)` whose receiver's adjusted
/// type, references removed, is `App` and whose label's adjusted type is `FixedUpdate` or
/// `Update`, outside external macros. The finding names the label's own schedule (a
/// `FixedUpdate` label is reported as `FixedUpdate`, never as `Update`), points at the label,
/// and its suggestion (the other schedule) is machine-applicable.
pub proof fn lemma_schedule_findings(
    method: Seq<char>,
    receiver: crate::expr::Expr,
    args: Seq<crate::expr::Expr>,
    span: Span,
    fully_qualified: bool,
    in_external_macro: bool,
)
    ensures
        spec_schedule_finding((method, receiver, args, span, fully_qualified), in_external_macro) is Some
            <==> (!in_external_macro && receiver.adjusted_ty.peeled().is_bevy(BevyPath::App) && method
            == "add_systems"@ && args.len() > 0 && (args[0].adjusted_ty.is_bevy(BevyPath::FixedUpdate)
            || args[0].adjusted_ty.is_bevy(BevyPath::Update))),
        spec_schedule_finding((method, receiver, args, span, fully_qualified), in_external_macro) matches Some(f)
            ==> f.label_id == args[0].id && f.label_span == args[0].span && f.applicability
            == Applicability::MachineApplicable && (f.schedule == ScheduleType::FixedUpdate <==> args[0].adjusted_ty.is_bevy(
            BevyPath::FixedUpdate,
        )) && (f.schedule == ScheduleType::Update <==> args[0].adjusted_ty.is_bevy(BevyPath::Update)),
{
    if args.len() > 0 {
        crate::ty::lemma_is_bevy_unique(args[0].adjusted_ty);
    }
}

/// Recognises `app.add_systems(Update, ..)` or `app.add_systems(FixedUpdate, ..)`.
/// `in_external_macro` tells whether the expression comes from the expansion of an external
/// macro.
pub fn disallowed_schedule(call: &MethodCall, in_external_macro: bool) -> (r: Option<
    ScheduleFinding,
>)
    ensures
        r == spec_schedule_finding(call.parts(), in_external_macro),
{
    if in_external_macro {
        return None;
    }
    if !call.receiver.adjusted_ty.peel_refs().matches(BevyPath::App) || !str_eq(
        call.method_name.as_str(),
        "add_systems",
    ) {
        return None;
    }
    if call.args.len() == 0 {
        return None;
    }
    let label = &call.args[0];
    match ScheduleType::try_from_ty(&label.adjusted_ty) {
        None => None,
        Some(s) => Some(
            ScheduleFinding {
                schedule: s,
                label_id: label.id,
                label_span: label.span,
                applicability: Applicability::MachineApplicable,
            },
        ),
    }
}

} // verus!
