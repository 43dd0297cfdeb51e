//! The readiness procedure as a state machine.
//!
//! The caller performs each requested action and answers it with one
//! boolean: whether the process is managed by a booted service manager, or
//! whether the requested call succeeded. Failures never end the procedure
//! early and never reach the caller as an error: they are recorded in the
//! final [`Outcome`].

use crate::environment::{context_assignments, environment_assignments, ServiceContext};
use vstd::prelude::*;

verus! {

/// How the procedure ended.
#[derive(Clone, Copy, Debug, PartialEq, Eq, Structural)]
pub enum Outcome {
    /// No booted service manager manages the process; nothing was sent.
    Unmanaged,
    /// Both calls were attempted, with these results.
    Reported { environment_set: bool, ready_sent: bool },
}

/// Where the procedure stands.
#[derive(Clone, Copy, Debug, PartialEq, Eq, Structural)]
pub enum Phase {
    /// Waiting to learn whether a booted service manager manages the process.
    Detect,
    /// Waiting for the result of setting the service manager's environment.
    Propagate,
    /// Waiting for the result of the readiness notification.
    Notify { environment_set: bool },
    /// Done.
    Finished(Outcome),
}

/// What the caller is asked to do next.
#[derive(Debug)]
pub enum Action {
    /// Find out whether a booted service manager manages the process.
    QueryManaged,
    /// Set these assignments in the service manager's environment.
    SetEnvironment(Vec<String>),
    /// Notify the service manager that startup has completed.
    NotifyReady,
    /// Stop; the outcome is for information only.
    Finish(Outcome),
}

/// An action with its assignments as text.
pub ghost enum ActionView {
    QueryManaged,
    SetEnvironment(Seq<Seq<char>>),
    NotifyReady,
    Finish(Outcome),
}

impl View for Action {
    type V = ActionView;

    open spec fn view(&self) -> ActionView {
        match self {
            Action::QueryManaged => ActionView::QueryManaged,
            Action::SetEnvironment(a) => ActionView::SetEnvironment(a.deep_view()),
            Action::NotifyReady => ActionView::NotifyReady,
            Action::Finish(o) => ActionView::Finish(*o),
        }
    }
}

/// One step: the phase that follows `phase` once `answer` came back for its
/// request, and the action that the new phase requests.
pub open spec fn step_spec(phase: Phase, answer: bool, ctx: ServiceContext) -> (Phase, ActionView) {
    match phase {
        Phase::Detect => if answer {
            (Phase::Propagate, ActionView::SetEnvironment(context_assignments(ctx)))
        } else {
            (Phase::Finished(Outcome::Unmanaged), ActionView::Finish(Outcome::Unmanaged))
        },
        Phase::Propagate => (Phase::Notify { environment_set: answer }, ActionView::NotifyReady),
        Phase::Notify { environment_set } => {
            let o = Outcome::Reported { environment_set, ready_sent: answer };
            (Phase::Finished(o), ActionView::Finish(o))
        },
        Phase::Finished(o) => (Phase::Finished(o), ActionView::Finish(o)),
    }
}

/// The procedure begins by asking whether a service manager is present.
pub fn start() -> (r: (Phase, Action))
    ensures
        r.0 == Phase::Detect,
        r.1@ == ActionView::QueryManaged,
{
    (Phase::Detect, Action::QueryManaged)
}

/// Advances the procedure by one answer.
pub fn step(phase: Phase, answer: bool, ctx: &ServiceContext) -> (r: (Phase, Action))
    ensures
        (r.0, r.1@) == step_spec(phase, answer, *ctx),
{
    match phase {
        Phase::Detect => if answer {
            (Phase::Propagate, Action::SetEnvironment(environment_assignments(ctx)))
        } else {
            (Phase::Finished(Outcome::Unmanaged), Action::Finish(Outcome::Unmanaged))
        },
        Phase::Propagate => (Phase::Notify { environment_set: answer }, Action::NotifyReady),
        Phase::Notify { environment_set } => {
            let o = Outcome::Reported { environment_set, ready_sent: answer };
            (Phase::Finished(o), Action::Finish(o))
        },
        Phase::Finished(o) => (Phase::Finished(o), Action::Finish(o)),
    }
}

/// The answer that a caller gives to `action` where the process is managed
/// or not as `managed` says, and the two calls succeed or fail as
/// `environment_ok` and `ready_ok` say.
pub open spec fn answer_of(action: ActionView, managed: bool, environment_ok: bool, ready_ok: bool) -> bool {
    match action {
        ActionView::QueryManaged => managed,
        ActionView::SetEnvironment(_) => environment_ok,
        ActionView::NotifyReady => ready_ok,
        ActionView::Finish(_) => false,
    }
}

/// The actions requested from `phase` on, `action` first, until a `Finish`
/// or until `fuel` steps are spent.
pub open spec fn trace(
    phase: Phase,
    action: ActionView,
    ctx: ServiceContext,
    managed: bool,
    environment_ok: bool,
    ready_ok: bool,
    fuel: nat,
) -> Seq<ActionView>
    decreases fuel,
{
    if fuel == 0 || action is Finish {
        seq![action]
    } else {
        let next = step_spec(phase, answer_of(action, managed, environment_ok, ready_ok), ctx);
        seq![action] + trace(next.0, next.1, ctx, managed, environment_ok, ready_ok, (fuel - 1) as nat)
    }
}

/// The actions of a whole run from [`start`], driven by a caller that
/// answers as `managed`, `environment_ok` and `ready_ok` say.
pub open spec fn run(ctx: ServiceContext, managed: bool, environment_ok: bool, ready_ok: bool) -> Seq<ActionView> {
    trace(Phase::Detect, ActionView::QueryManaged, ctx, managed, environment_ok, ready_ok, 4)
}

/// Where a booted service manager manages the process, the run asks for the
/// environment to be set with the context's assignments, then for the
/// readiness notification, whatever came of the first call, then stops.
pub proof fn lemma_managed_run(ctx: ServiceContext, environment_ok: bool, ready_ok: bool)
    ensures
        run(ctx, true, environment_ok, ready_ok) == seq![
            ActionView::QueryManaged,
            ActionView::SetEnvironment(context_assignments(ctx)),
            ActionView::NotifyReady,
            ActionView::Finish(Outcome::Reported { environment_set: environment_ok, ready_sent: ready_ok }),
        ],
{
    reveal_with_fuel(trace, 5);
    assert(run(ctx, true, environment_ok, ready_ok) =~= seq![
        ActionView::QueryManaged,
        ActionView::SetEnvironment(context_assignments(ctx)),
        ActionView::NotifyReady,
        ActionView::Finish(Outcome::Reported { environment_set: environment_ok, ready_sent: ready_ok }),
    ]);
}

/// Where no booted service manager manages the process, the run neither
/// sets the environment nor notifies: it stops right after the query.
pub proof fn lemma_unmanaged_sends_nothing(ctx: ServiceContext, environment_ok: bool, ready_ok: bool)
    ensures
        run(ctx, false, environment_ok, ready_ok) == seq![
            ActionView::QueryManaged,
            ActionView::Finish(Outcome::Unmanaged),
        ],
        forall|i: int| 0 <= i < run(ctx, false, environment_ok, ready_ok).len() ==>
            !(run(ctx, false, environment_ok, ready_ok)[i] is SetEnvironment)
            && !(run(ctx, false, environment_ok, ready_ok)[i] is NotifyReady),
{
    reveal_with_fuel(trace, 3);
    assert(run(ctx, false, environment_ok, ready_ok) =~= seq![
        ActionView::QueryManaged,
        ActionView::Finish(Outcome::Unmanaged),
    ]);
}

/// Where setting the environment fails, the readiness notification is still
/// requested, exactly once, after that call.
pub proof fn lemma_ready_after_failed_environment(ctx: ServiceContext, ready_ok: bool)
    ensures
        run(ctx, true, false, ready_ok)[1] is SetEnvironment,
        forall|i: int| 0 <= i < run(ctx, true, false, ready_ok).len() ==>
            (run(ctx, true, false, ready_ok)[i] == ActionView::NotifyReady <==> i == 2),
{
    lemma_managed_run(ctx, false, ready_ok);
}

/// Whatever the answers, every run ends in a `Finish` and in no error: the
/// failures are only recorded in the outcome.
pub proof fn lemma_run_finishes(ctx: ServiceContext, managed: bool, environment_ok: bool, ready_ok: bool)
    ensures
        run(ctx, managed, environment_ok, ready_ok).last() == ActionView::Finish(
            if managed {
                Outcome::Reported { environment_set: environment_ok, ready_sent: ready_ok }
            } else {
                Outcome::Unmanaged
            },
        ),
        forall|i: int| 0 <= i < run(ctx, managed, environment_ok, ready_ok).len() - 1 ==>
            !(run(ctx, managed, environment_ok, ready_ok)[i] is Finish),
{
    if managed {
        lemma_managed_run(ctx, environment_ok, ready_ok);
    } else {
        lemma_unmanaged_sends_nothing(ctx, environment_ok, ready_ok);
    }
}

} // verus!
