//! Finds calls of `App::run()` whose returned `AppExit` is dropped.

use vstd::prelude::*;

use crate::diag::Applicability;
use crate::expr::{MethodCall, Span};
use crate::paths::BevyPath;
use crate::text::{concat2, str_eq};
use crate::ty::Ty;

verus! {

/// How an entrypoint declares its return type.
#[derive(Clone, Copy, Debug, PartialEq, Eq, Structural)]
pub enum MainReturn {
    /// `fn main()`; the span is where a return type would go.
    Default { span: Span },
    /// `fn main() -> ()`; the span is that of `()`.
    Unit { span: Span },
    /// Any other return type.
    Other,
}

/// Where to write what in an entrypoint's signature so that it returns `AppExit`: " -> AppExit"
/// after the parameters of `fn main()`, or "AppExit" in place of the `()` of `fn main() -> ()`.
pub open spec fn spec_appexit_fix(ret: MainReturn) -> Option<(Span, Seq<char>)> {
    match ret {
        MainReturn::Default { span } => Some((span, " -> AppExit"@)),
        MainReturn::Unit { span } => Some((span, "AppExit"@)),
        MainReturn::Other => None,
    }
}

/// The fix for an entrypoint's signature: where to write what so that it returns `AppExit`,
/// and its applicability, `MaybeIncorrect`, since the body must then return the `AppExit`.
pub fn appexit_suggestion(ret: MainReturn) -> (r: Option<(Span, &'static str, Applicability)>)
    ensures
        match spec_appexit_fix(ret) {
            Some((span, text)) => r matches Some((s, t, a)) && s == span && t@ == text && a
                == Applicability::MaybeIncorrect,
            None => r is None,
        },
{
    match ret {
        MainReturn::Default { span } => Some((span, " -> AppExit", Applicability::MaybeIncorrect)),
        MainReturn::Unit { span } => Some((span, "AppExit", Applicability::MaybeIncorrect)),
        MainReturn::Other => None,
    }
}

/// A method call within an entrypoint's body.
pub struct CallSite {
    /// The identity of the call expression.
    pub call_id: u64,
    /// The span of the method call, from the method's name to the end of its arguments.
    pub span: Span,
    /// The called method's name.
    pub method_name: String,
    /// The call comes from the expansion of an external macro.
    pub in_external_macro: bool,
    /// The receiver's type after automatic dereferencing.
    pub receiver_ty: Ty,
    /// The call's result is used or unified with another value.
    pub result_used: bool,
}

/// The call is `App::run()` and drops its result.
pub open spec fn drops_appexit(c: CallSite) -> bool {
    &&& c.method_name@ == "run"@
    &&& !c.in_external_macro
    &&& c.receiver_ty.peeled().is_bevy(BevyPath::App)
    &&& !c.result_used
}

/// The first `n` calls that drop an `AppExit`, in order, each by its id and span.
pub open spec fn dropping_calls(cs: Seq<CallSite>, n: int) -> Seq<(u64, Span)>
    decreases n,
{
    if n <= 0 {
        Seq::empty()
    } else {
        dropping_calls(cs, n - 1) + if drops_appexit(cs[n - 1]) {
            seq![(cs[n - 1].call_id, cs[n - 1].span)]
        } else {
            Seq::empty()
        }
    }
}

/// The call is `run()` on a receiver whose type, references removed, is `App`, outside
/// external macros, and its result is unused.
pub open spec fn unused_run_of_app(c: CallSite) -> bool {
    &&& c.method_name@ == "run"@
    &&& !c.in_external_macro
    &&& c.receiver_ty.peeled().is_bevy(BevyPath::App)
    &&& !c.result_used
}

/// The report `(id, span)` names some call among the first `n` that is such a call.
pub open spec fn reports_unused_run(cs: Seq<CallSite>, n: int, report: (u64, Span)) -> bool {
    exists|i: int|
        0 <= i < n && unused_run_of_app(#[trigger] cs[i]) && report.0 == cs[i].call_id && report.1
            == cs[i].span
}

/// Among the first `n` calls, each call of `run()` on a receiver whose type, references
/// removed, is `App`, not from an external macro and whose result is unused, is reported by its
/// id and span; and every call reported is such a call.
pub proof fn lemma_dropping_calls_exact(cs: Seq<CallSite>, n: int)
    requires
        0 <= n <= cs.len(),
    ensures
        forall|i: int|
            0 <= i < n && unused_run_of_app(#[trigger] cs[i]) ==> dropping_calls(cs, n).contains(
                (cs[i].call_id, cs[i].span),
            ),
        forall|x: int|
            0 <= x < dropping_calls(cs, n).len() ==> reports_unused_run(
                cs,
                n,
                #[trigger] dropping_calls(cs, n)[x],
            ),
    decreases n,
{
    if n > 0 {
        lemma_dropping_calls_exact(cs, n - 1);
        let d = dropping_calls(cs, n - 1);
        let f = dropping_calls(cs, n);
        assert forall|i: int| 0 <= i < n && unused_run_of_app(#[trigger] cs[i]) implies f.contains(
            (cs[i].call_id, cs[i].span),
        ) by {
            if i < n - 1 {
                let x = choose|x: int| 0 <= x < d.len() && d[x] == (cs[i].call_id, cs[i].span);
                assert(f[x] == d[x]);
            } else {
                assert(f[d.len() as int] == (cs[i].call_id, cs[i].span));
            }
        }
        assert forall|x: int| 0 <= x < f.len() implies reports_unused_run(cs, n, #[trigger] f[x]) by {
            if x < d.len() {
                assert(f[x] == d[x]);
                assert(reports_unused_run(cs, n - 1, d[x]));
                let i = choose|i: int|
                    0 <= i < n - 1 && unused_run_of_app(#[trigger] cs[i]) && d[x].0 == cs[i].call_id
                        && d[x].1 == cs[i].span;
                assert(0 <= i < n && unused_run_of_app(cs[i]));
            } else {
                assert(unused_run_of_app(cs[n - 1]));
                assert(f[x] == (cs[n - 1].call_id, cs[n - 1].span));
            }
        }
    }
}

/// A report of the `main_return_without_appexit` lint.
#[derive(Clone, Copy, Debug, PartialEq, Eq)]
pub struct AppExitFinding {
    /// The identity of the `App::run()` call.
    pub call_id: u64,
    /// The span of the call, where the lint points.
    pub span: Span,
    /// Where the suggested return type goes in the entrypoint's signature.
    pub fix_span: Span,
    /// The text suggested there.
    pub fix: &'static str,
    /// The suggestion's applicability.
    pub applicability: Applicability,
}

/// A finding as plain values: (call id, span, fix span, fix, applicability).
pub open spec fn finding_view(f: AppExitFinding) -> (u64, Span, Span, Seq<char>, Applicability) {
    (f.call_id, f.span, f.fix_span, f.fix@, f.applicability)
}

/// The findings for the dropping calls, each with the entrypoint's fix.
pub open spec fn with_fix(calls: Seq<(u64, Span)>, fix: (Span, Seq<char>)) -> Seq<
    (u64, Span, Span, Seq<char>, Applicability),
> {
    calls.map_values(
        |c: (u64, Span)| (c.0, c.1, fix.0, fix.1, Applicability::MaybeIncorrect),
    )
}

fn drops_appexit_exec(c: &CallSite) -> (r: bool)
    ensures
        r == drops_appexit(*c),
{
    str_eq(c.method_name.as_str(), "run") && !c.in_external_macro
        && c.receiver_ty.peel_refs().matches(BevyPath::App) && !c.result_used
}

/// What the `main_return_without_appexit` lint reports: within an entrypoint that returns
/// nothing or `()`, each call of `App::run()` that drops the returned `AppExit`, at the call,
/// with the fix of the signature (see [`appexit_suggestion`]), which may be incorrect.
pub fn main_return_without_appexit(is_entrypoint: bool, ret: MainReturn, calls: &Vec<CallSite>) -> (r:
    Vec<AppExitFinding>)
    ensures
        r@.map_values(|f: AppExitFinding| finding_view(f)) == match spec_appexit_fix(ret) {
            Some(fix) => if is_entrypoint {
                with_fix(dropping_calls(calls@, calls@.len() as int), fix)
            } else {
                Seq::empty()
            },
            None => Seq::empty(),
        },
{
    let mut out: Vec<AppExitFinding> = Vec::new();
    if !is_entrypoint {
        assert(out@.map_values(|f: AppExitFinding| finding_view(f)) =~= Seq::empty());
        return out;
    }
    let (fix_span, fix, applicability) = match appexit_suggestion(ret) {
        Some(s) => s,
        None => {
            assert(out@.map_values(|f: AppExitFinding| finding_view(f)) =~= Seq::empty());
            return out;
        },
    };
    let ghost fixv = (fix_span, fix@);
    let mut i: usize = 0;
    while i < calls.len()
        invariant
            i <= calls@.len(),
            spec_appexit_fix(ret) == Some(fixv),
            fixv == (fix_span, fix@),
            applicability == Applicability::MaybeIncorrect,
            out@.map_values(|f: AppExitFinding| finding_view(f)) == with_fix(
                dropping_calls(calls@, i as int),
                fixv,
            ),
        decreases calls@.len() - i,
    {
        let ghost prev = out@;
        let ghost d = dropping_calls(calls@, i as int);
        if drops_appexit_exec(&calls[i]) {
            let f = AppExitFinding {
                call_id: calls[i].call_id,
                span: calls[i].span,
                fix_span,
                fix,
                applicability,
            };
            out.push(f);
            proof {
                let d2 = dropping_calls(calls@, i + 1);
                assert(d2 =~= d.push((f.call_id, f.span)));
                assert(out@.map_values(|f: AppExitFinding| finding_view(f)) =~= prev.map_values(
                    |f: AppExitFinding| finding_view(f),
                ).push(finding_view(f)));
                assert(with_fix(d2, fixv) =~= with_fix(d, fixv).push(finding_view(f)));
            }
        } else {
            assert(dropping_calls(calls@, i + 1) =~= d);
        }
        i = i + 1;
    }
    out
}

/// The note of the `main_return_without_appexit` lint.
pub fn appexit_note() -> (r: &'static str)
    ensures
        r@ == "`App::run()` returns `AppExit`, which can be used to determine whether the app exited successfully or not"@,
{
    "`App::run()` returns `AppExit`, which can be used to determine whether the app exited successfully or not"
}

/// Whether a method call is `App::run()` written as `app.run()` with its `AppExit` dropped, by
/// the rules of the `unused_appexit` lint.
pub fn unused_appexit(call: &MethodCall, result_used: bool) -> (r: bool)
    ensures
        r == (!call.is_fully_qualified && call.method_name@ == "run"@
            && call.receiver.ty.peeled().is_bevy(BevyPath::App) && !result_used),
{
    !call.is_fully_qualified && str_eq(call.method_name.as_str(), "run")
        && call.receiver.ty.peel_refs().matches(BevyPath::App) && !result_used
}

/// The statement suggested in place of a dropped `App::run()` call: "let _app_exit = {call}".
pub fn bind_appexit(call_source: &str) -> (r: String)
    ensures
        r@ == "let _app_exit = "@ + call_source@,
{
    concat2("let _app_exit = ", call_source)
}

} // verus!
