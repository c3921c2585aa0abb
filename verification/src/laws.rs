use vstd::prelude::*;

use crate::executor::{
    model_step, state_wf, valid_event, ActionView, EventView, ExecStateView, ExecutorView,
};
use crate::plan::processors_changed;
use crate::strutil::trim_spec;

verus! {

/// The actions the workflow issues while consuming `events` from state `s`.
pub open spec fn model_trace(ex: ExecutorView, s: ExecStateView, events: Seq<EventView>) -> Seq<
    ActionView,
>
    decreases events.len(),
{
    if events.len() == 0 {
        seq![]
    } else {
        seq![model_step(ex, s, events[0]).1] + model_trace(
            ex,
            model_step(ex, s, events[0]).0,
            events.drop_first(),
        )
    }
}

/// The state the workflow reaches after consuming `events` from state `s`.
pub open spec fn model_run(ex: ExecutorView, s: ExecStateView, events: Seq<EventView>)
    -> ExecStateView
    decreases events.len(),
{
    if events.len() == 0 {
        s
    } else {
        model_run(ex, model_step(ex, s, events[0]).0, events.drop_first())
    }
}

/// An action that changes the local working copy or the remote: any
/// version-control command but the two queries, a file write, or opening a
/// pull request.
pub open spec fn mutating_action(a: ActionView) -> bool {
    match a {
        ActionView::Git { cmd } => !(cmd is CurrentBranch || cmd is LastCommitMessage),
        ActionView::WriteFile { .. } => true,
        ActionView::OpenPr { .. } => true,
        _ => false,
    }
}

/// An action that publishes work: a commit, a push, or opening a pull
/// request.
pub open spec fn publishing_action(a: ActionView) -> bool {
    match a {
        ActionView::Git { cmd } => cmd is CommitAll || cmd is ForcePush,
        ActionView::OpenPr { .. } => true,
        _ => false,
    }
}

/// Every event of the sequence answers the state that consumes it.
pub open spec fn events_valid(ex: ExecutorView, s: ExecStateView, events: Seq<EventView>) -> bool
    decreases events.len(),
{
    if events.len() == 0 {
        true
    } else {
        valid_event(s, events[0]) && events_valid(
            ex,
            model_step(ex, s, events[0]).0,
            events.drop_first(),
        )
    }
}

/// Every file the driver hands back is left untouched by every operation's
/// processors.
pub open spec fn no_change_event(ex: ExecutorView, e: EventView) -> bool {
    match e {
        EventView::FileRead { text } => forall|i: int|
            0 <= i < ex.plan.file_operations.len() ==> !processors_changed(
                #[trigger] ex.plan.file_operations[i].processors,
                text,
            ),
        _ => true,
    }
}

/// A state from which no publishing action can have happened yet: nothing has
/// been found changed, and the workflow has not entered commit, push or
/// pull-request territory.
pub open spec fn quiet_state(s: ExecStateView) -> bool {
    match s {
        ExecStateView::Listing { changed, .. } => !changed,
        ExecStateView::Reading { changed, .. } => !changed,
        ExecStateView::Writing { .. } => false,
        ExecStateView::CommitCheck => false,
        ExecStateView::Committing => false,
        ExecStateView::Pushing => false,
        ExecStateView::PrCheck => false,
        ExecStateView::PrOpening => false,
        ExecStateView::Done { changed } => !changed,
        _ => true,
    }
}

/// One step preserves well-formed states.
pub proof fn lemma_step_wf(ex: ExecutorView, s: ExecStateView, e: EventView)
    requires
        state_wf(ex, s),
        valid_event(s, e),
    ensures
        state_wf(ex, model_step(ex, s, e).0),
{
}

/// One quiet step stays quiet and publishes nothing: if nothing has changed
/// and the event reports no change either, the next action is neither a
/// commit, a push, a file write nor a pull request.
pub proof fn lemma_quiet_step(ex: ExecutorView, s: ExecStateView, e: EventView)
    requires
        state_wf(ex, s),
        quiet_state(s),
        valid_event(s, e),
        no_change_event(ex, e),
    ensures
        quiet_state(model_step(ex, s, e).0),
        !publishing_action(model_step(ex, s, e).1),
        !(model_step(ex, s, e).1 is WriteFile),
{
}

/// If no file matches any operation's glob, or every processor is a no-op on
/// every matched file, the workflow never commits, never pushes, never
/// rewrites a file and never asks for a pull request; and if it finishes, it
/// finishes reporting no change.
pub proof fn lemma_no_change_no_publish(
    ex: ExecutorView,
    s: ExecStateView,
    events: Seq<EventView>,
)
    requires
        state_wf(ex, s),
        quiet_state(s),
        events_valid(ex, s, events),
        forall|k: int| 0 <= k < events.len() ==> no_change_event(ex, #[trigger] events[k]),
    ensures
        forall|k: int|
            0 <= k < model_trace(ex, s, events).len() ==> !publishing_action(
                #[trigger] model_trace(ex, s, events)[k],
            ) && !(model_trace(ex, s, events)[k] is WriteFile),
        quiet_state(model_run(ex, s, events)),
    decreases events.len(),
{
    if events.len() > 0 {
        let e = events[0];
        let s2 = model_step(ex, s, e).0;
        let a = model_step(ex, s, e).1;
        lemma_quiet_step(ex, s, e);
        lemma_step_wf(ex, s, e);
        let rest = events.drop_first();
        assert(forall|k: int| 0 <= k < rest.len() ==> no_change_event(ex, #[trigger] rest[k]));
        lemma_no_change_no_publish(ex, s2, rest);
        assert forall|k: int| 0 <= k < model_trace(ex, s, events).len() implies !publishing_action(
            #[trigger] model_trace(ex, s, events)[k],
        ) && !(model_trace(ex, s, events)[k] is WriteFile) by {
            if k > 0 {
                assert(model_trace(ex, s, events)[k] == model_trace(ex, s2, rest)[k - 1]);
            }
        }
    }
}

/// The environment a second run sees after a successful first run against an
/// unchanged remote: the working directory exists, the branch query succeeds
/// and reports the working branch, every file is already transformed, and
/// nothing fails.
pub open spec fn converged_event(ex: ExecutorView, e: EventView) -> bool {
    match e {
        EventView::Dir { exists } => exists,
        EventView::Git { success, stdout, .. } => success && trim_spec(stdout)
            == ex.plan.branch_name,
        EventView::FileRead { text } => forall|i: int|
            0 <= i < ex.plan.file_operations.len() ==> !processors_changed(
                #[trigger] ex.plan.file_operations[i].processors,
                text,
            ),
        EventView::Fail { .. } => false,
        _ => true,
    }
}

/// A state a second run can be in: nothing cloned, reset, checked out,
/// written, committed, pushed or opened.
pub open spec fn converged_state(s: ExecStateView) -> bool {
    match s {
        ExecStateView::Start => true,
        ExecStateView::CloneCheck => true,
        ExecStateView::BranchCheck => true,
        ExecStateView::Listing { changed, .. } => !changed,
        ExecStateView::Reading { changed, .. } => !changed,
        ExecStateView::Done { changed } => !changed,
        _ => false,
    }
}

/// One step of a second run mutates nothing and stays converged.
pub proof fn lemma_converged_step(ex: ExecutorView, s: ExecStateView, e: EventView)
    requires
        state_wf(ex, s),
        converged_state(s),
        valid_event(s, e),
        converged_event(ex, e),
    ensures
        converged_state(model_step(ex, s, e).0),
        !mutating_action(model_step(ex, s, e).1),
{
}

/// A full run against an unchanged, already-converged working copy makes no
/// mutating call at all: no clone, no reset, no checkout, no pull, no write,
/// no commit, no push, no pull request. Every action it issues only inspects,
/// so the final state of the working copy and of the remote is the state the
/// first run left; and if the run finishes, it reports no change.
pub proof fn lemma_second_run_no_mutation(ex: ExecutorView, events: Seq<EventView>)
    requires
        events_valid(ex, ExecStateView::Start, events),
        forall|k: int| 0 <= k < events.len() ==> converged_event(ex, #[trigger] events[k]),
    ensures
        forall|k: int|
            0 <= k < model_trace(ex, ExecStateView::Start, events).len() ==> !mutating_action(
                #[trigger] model_trace(ex, ExecStateView::Start, events)[k],
            ),
        converged_state(model_run(ex, ExecStateView::Start, events)),
{
    lemma_converged_run(ex, ExecStateView::Start, events);
}

proof fn lemma_converged_run(ex: ExecutorView, s: ExecStateView, events: Seq<EventView>)
    requires
        state_wf(ex, s),
        converged_state(s),
        events_valid(ex, s, events),
        forall|k: int| 0 <= k < events.len() ==> converged_event(ex, #[trigger] events[k]),
    ensures
        forall|k: int|
            0 <= k < model_trace(ex, s, events).len() ==> !mutating_action(
                #[trigger] model_trace(ex, s, events)[k],
            ),
        converged_state(model_run(ex, s, events)),
    decreases events.len(),
{
    if events.len() > 0 {
        let e = events[0];
        let s2 = model_step(ex, s, e).0;
        lemma_converged_step(ex, s, e);
        lemma_step_wf(ex, s, e);
        let rest = events.drop_first();
        assert(forall|k: int| 0 <= k < rest.len() ==> converged_event(ex, #[trigger] rest[k]));
        lemma_converged_run(ex, s2, rest);
        assert forall|k: int|
            0 <= k < model_trace(ex, s, events).len() implies !mutating_action(
            #[trigger] model_trace(ex, s, events)[k],
        ) by {
            if k > 0 {
                assert(model_trace(ex, s, events)[k] == model_trace(ex, s2, rest)[k - 1]);
            }
        }
    }
}

} // verus!
