//! Whole runs of the pipeline: what it asks for, one outcome after the other,
//! and what holds of every run.

use crate::commands::configure::ConfigureCommandView;
use crate::commands::format::rustfmt_step;
use crate::error::{error_of, DevtoolErrorView};
use crate::pipeline::{
    fail, finish, next, task_selector, ActionView, CompletionView, FileTaskView, PipelineView,
};
use crate::selection::selection_of;
use crate::tool::{result_of, ProcessOutcomeView, StepView};
use vstd::prelude::*;

verus! {

/// The state in which `pipeline` is after it took `outcomes` in their order.
pub open spec fn state_after(
    pipeline: PipelineView,
    outcomes: Seq<ProcessOutcomeView>,
) -> PipelineView
    decreases outcomes.len(),
{
    if outcomes.len() == 0 {
        pipeline
    } else {
        state_after(next(pipeline, outcomes[0]).0, outcomes.drop_first())
    }
}

/// What `pipeline` asks of the driver as it takes `outcomes` in their order:
/// one action for each outcome.
pub open spec fn actions(pipeline: PipelineView, outcomes: Seq<ProcessOutcomeView>) -> Seq<
    ActionView,
>
    decreases outcomes.len(),
{
    if outcomes.len() == 0 {
        Seq::empty()
    } else {
        seq![next(pipeline, outcomes[0]).1] + actions(
            next(pipeline, outcomes[0]).0,
            outcomes.drop_first(),
        )
    }
}

/// `pipeline` has ended.
pub open spec fn ended(pipeline: PipelineView) -> bool {
    pipeline is Done || pipeline is Failed
}

/// How `pipeline` ended, where it has ended.
pub open spec fn verdict_of(pipeline: PipelineView) -> Result<CompletionView, DevtoolErrorView> {
    match pipeline {
        PipelineView::Failed(error) => Err(error),
        PipelineView::Done(completion) => Ok(completion),
        _ => arbitrary(),
    }
}

/// `action` asks for a run of the executable `name`.
pub open spec fn runs(action: ActionView, name: Seq<char>) -> bool {
    action matches ActionView::Run(tool) && tool.executable == name
}

/// `step` succeeded when it came out as `outcome`.
pub open spec fn succeeded(step: StepView, outcome: ProcessOutcomeView) -> bool {
    result_of(step.tool.stream_output, step.inspect, outcome) is Success
}

/// The requests for the tools of `chain`, one after the other.
pub open spec fn requests(chain: Seq<StepView>) -> Seq<ActionView> {
    chain.map_values(|step: StepView| ActionView::Run(step.tool))
}

/// The pipeline answers each outcome with one action.
pub proof fn lemma_one_action_for_each_outcome(
    pipeline: PipelineView,
    outcomes: Seq<ProcessOutcomeView>,
)
    ensures
        actions(pipeline, outcomes).len() == outcomes.len(),
    decreases outcomes.len(),
{
    if outcomes.len() > 0 {
        lemma_one_action_for_each_outcome(next(pipeline, outcomes[0]).0, outcomes.drop_first());
    }
}

/// A run that has ended stays ended: whatever is reported to it, the state
/// does not change, no tool is asked for, and each answer names the same end.
pub proof fn lemma_ended_stays_ended(pipeline: PipelineView, outcomes: Seq<ProcessOutcomeView>)
    requires
        ended(pipeline),
    ensures
        state_after(pipeline, outcomes) == pipeline,
        actions(pipeline, outcomes).len() == outcomes.len(),
        forall|i: int|
            0 <= i < outcomes.len() ==> #[trigger] actions(pipeline, outcomes)[i]
                == ActionView::Exit(verdict_of(pipeline)),
    decreases outcomes.len(),
{
    if outcomes.len() > 0 {
        lemma_ended_stays_ended(pipeline, outcomes.drop_first());
    }
}

/// Fail-fast. When the invocation that was handed out does not succeed, the
/// run fails with the error of that invocation, and from then on no tool is
/// asked for: not one of the invocations that waited is ever started,
/// whatever is reported later.
pub proof fn lemma_fail_fast(
    current: StepView,
    rest: Seq<StepView>,
    outcome: ProcessOutcomeView,
    later: Seq<ProcessOutcomeView>,
)
    requires
        !succeeded(current, outcome),
    ensures
        ({
            let pipeline = PipelineView::Invoking { current, rest };
            let outcomes = seq![outcome] + later;
            let error = error_of(
                current.label,
                result_of(current.tool.stream_output, current.inspect, outcome),
            );
            &&& error is Some
            &&& next(pipeline, outcome) == fail(error->0)
            &&& state_after(pipeline, outcomes) == PipelineView::Failed(error->0)
            &&& actions(pipeline, outcomes).len() == outcomes.len()
            &&& forall|i: int|
                0 <= i < outcomes.len() ==> #[trigger] actions(pipeline, outcomes)[i]
                    == ActionView::Exit(Err(error->0))
        }),
{
    let outcomes = seq![outcome] + later;
    let error = error_of(
        current.label,
        result_of(current.tool.stream_output, current.inspect, outcome),
    );
    assert(outcomes.drop_first() == later);
    lemma_ended_stays_ended(PipelineView::Failed(error->0), later);
}

/// A chain of which every invocation succeeds is run to its end: each of the
/// invocations that waited is asked for once, in the order of the chain, and
/// after the last the run ends well.
pub proof fn lemma_chain_runs_in_order(
    current: StepView,
    rest: Seq<StepView>,
    outcomes: Seq<ProcessOutcomeView>,
)
    requires
        outcomes.len() == rest.len() + 1,
        succeeded(current, outcomes[0]),
        forall|i: int| 0 <= i < rest.len() ==> succeeded(#[trigger] rest[i], outcomes[i + 1]),
    ensures
        actions(PipelineView::Invoking { current, rest }, outcomes) == requests(rest).push(
            ActionView::Exit(Ok(CompletionView::AllSucceeded)),
        ),
        state_after(PipelineView::Invoking { current, rest }, outcomes) == PipelineView::Done(
            CompletionView::AllSucceeded,
        ),
    decreases rest.len(),
{
    let pipeline = PipelineView::Invoking { current, rest };
    let after = next(pipeline, outcomes[0]).0;
    let tail = outcomes.drop_first();
    if rest.len() == 0 {
        assert(actions(after, tail) =~= Seq::<ActionView>::empty());
        assert(state_after(after, tail) == after);
    } else {
        lemma_chain_runs_in_order(rest[0], rest.drop_first(), tail);
    }
}

/// A chain ends well only if every one of its invocations succeeded: where
/// the run of a chain has ended well, an outcome was reported for each
/// invocation and each of them was a success.
pub proof fn lemma_success_needs_every_success(
    current: StepView,
    rest: Seq<StepView>,
    outcomes: Seq<ProcessOutcomeView>,
)
    requires
        state_after(PipelineView::Invoking { current, rest }, outcomes) is Done,
    ensures
        state_after(PipelineView::Invoking { current, rest }, outcomes) == PipelineView::Done(
            CompletionView::AllSucceeded,
        ),
        outcomes.len() > rest.len(),
        succeeded(current, outcomes[0]),
        forall|i: int| 0 <= i < rest.len() ==> succeeded(#[trigger] rest[i], outcomes[i + 1]),
    decreases outcomes.len(),
{
    let pipeline = PipelineView::Invoking { current, rest };
    let after = next(pipeline, outcomes[0]).0;
    let tail = outcomes.drop_first();
    if !succeeded(current, outcomes[0]) {
        lemma_fail_fast(current, rest, outcomes[0], tail);
        assert(seq![outcomes[0]] + tail =~= outcomes);
    } else if rest.len() == 0 {
        lemma_ended_stays_ended(after, tail);
    } else {
        lemma_success_needs_every_success(rest[0], rest.drop_first(), tail);
        assert forall|i: int| 0 <= i < rest.len() implies succeeded(
            #[trigger] rest[i],
            outcomes[i + 1],
        ) by {
            if i > 0 {
                assert(rest.drop_first()[i - 1] == rest[i]);
            }
        }
    }
}

/// No invocation is started twice, none out of turn, and none after the end.
/// In every run of a chain, the tools asked for are the first `started` of the
/// invocations that waited, in their order and once each; every later answer
/// names the end of the run.
pub proof fn lemma_run_follows_the_chain(
    current: StepView,
    rest: Seq<StepView>,
    outcomes: Seq<ProcessOutcomeView>,
) -> (started: int)
    ensures
        0 <= started <= rest.len(),
        started <= outcomes.len(),
        actions(PipelineView::Invoking { current, rest }, outcomes).len() == outcomes.len(),
        forall|i: int|
            0 <= i < started ==> #[trigger] actions(
                PipelineView::Invoking { current, rest },
                outcomes,
            )[i] == ActionView::Run(rest[i].tool),
        forall|i: int|
            started <= i < outcomes.len() ==> #[trigger] actions(
                PipelineView::Invoking { current, rest },
                outcomes,
            )[i] is Exit,
    decreases outcomes.len(),
{
    let pipeline = PipelineView::Invoking { current, rest };
    lemma_one_action_for_each_outcome(pipeline, outcomes);
    if outcomes.len() == 0 {
        0
    } else {
        let after = next(pipeline, outcomes[0]).0;
        let tail = outcomes.drop_first();
        if succeeded(current, outcomes[0]) && rest.len() > 0 {
            let more = lemma_run_follows_the_chain(rest[0], rest.drop_first(), tail);
            more + 1
        } else {
            lemma_ended_stays_ended(after, tail);
            0
        }
    }
}

/// The listing of the presets ends the run well exactly when the build tool
/// ran and reported success; every other outcome ends the run with an error.
pub proof fn lemma_listing_needs_success(command: ConfigureCommandView, outcome: ProcessOutcomeView)
    ensures
        ({
            let after = next(PipelineView::ListingPresets(command), outcome);
            let well = outcome matches ProcessOutcomeView::Exited { success, .. } && success;
            &&& after.1 is Exit
            &&& well ==> after.0 is Done && after.1->Exit_0 is Ok
            &&& !well ==> after.0 is Failed && after.1->Exit_0 is Err
        }),
{
}

/// Nothing to do. When the files of a task are selected and none is left,
/// the tool that works on files is not asked for at that point nor at any
/// later one. The tidy task ends well at once, without any invocation; the
/// format task goes on to the formatter of the toolchain, which names no
/// file, and asks for nothing after it.
pub proof fn lemma_nothing_selected(
    task: FileTaskView,
    outcome: ProcessOutcomeView,
    later: Seq<ProcessOutcomeView>,
)
    requires
        selection_of(task_selector(task), outcome) matches Ok(files) && files.len() == 0,
    ensures
        ({
            let pipeline = PipelineView::SelectingFiles(task);
            let outcomes = seq![outcome] + later;
            &&& task is Tidy ==> next(pipeline, outcome) == finish(CompletionView::NothingToDo)
            &&& task matches FileTaskView::Format(command) ==> next(pipeline, outcome) == (
                PipelineView::Invoking { current: rustfmt_step(command), rest: Seq::empty() },
                ActionView::Run(rustfmt_step(command).tool),
            )
            &&& actions(pipeline, outcomes).len() == outcomes.len()
            &&& forall|i: int|
                1 <= i < outcomes.len() ==> #[trigger] actions(pipeline, outcomes)[i] is Exit
            &&& forall|i: int|
                0 <= i < outcomes.len() ==> !runs(
                    #[trigger] actions(pipeline, outcomes)[i],
                    "clang-format"@,
                ) && !runs(actions(pipeline, outcomes)[i], "clang-tidy"@)
        }),
{
    reveal_strlit("cargo");
    reveal_strlit("clang-format");
    reveal_strlit("clang-tidy");
    let pipeline = PipelineView::SelectingFiles(task);
    let outcomes = seq![outcome] + later;
    let after = next(pipeline, outcome).0;
    assert(outcomes.drop_first() == later);
    lemma_one_action_for_each_outcome(pipeline, outcomes);
    match task {
        FileTaskView::Tidy(command) => {
            lemma_ended_stays_ended(after, later);
        },
        FileTaskView::Format(command) => {
            assert(seq![rustfmt_step(command)].drop_first() =~= Seq::<StepView>::empty());
            lemma_run_follows_the_chain(rustfmt_step(command), Seq::<StepView>::empty(), later);
        },
    }
    assert("clang-format"@.len() == 12);
    assert("clang-tidy"@.len() == 10);
}

/// The format task with no file selected ends well as soon as the formatter
/// of the toolchain has succeeded.
pub proof fn lemma_format_without_files(
    task: FileTaskView,
    outcome: ProcessOutcomeView,
    second: ProcessOutcomeView,
)
    requires
        task is Format,
        selection_of(task_selector(task), outcome) matches Ok(files) && files.len() == 0,
        second matches ProcessOutcomeView::Exited { success, .. } && success,
    ensures
        actions(PipelineView::SelectingFiles(task), seq![outcome, second]) == seq![
            ActionView::Run(rustfmt_step(task->Format_0).tool),
            ActionView::Exit(Ok(CompletionView::AllSucceeded)),
        ],
{
    let pipeline = PipelineView::SelectingFiles(task);
    let outcomes = seq![outcome, second];
    let after = next(pipeline, outcomes[0]).0;
    let tail = outcomes.drop_first();
    assert(actions(next(after, tail[0]).0, tail.drop_first()) == Seq::<ActionView>::empty());
    assert(actions(after, tail) =~= seq![next(after, tail[0]).1]);
}

} // verus!
