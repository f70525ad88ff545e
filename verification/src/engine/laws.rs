//! Laws over any sequence of engine operations.
use vstd::prelude::*;
use super::{click_is_due, EngineCommand, EngineStep, EngineView, step_taken};
use super::clicks::counted_delay;

verus! {

/// `states[i]` is the engine before `steps[i]` and `states[i + 1]` after it.
pub open spec fn valid_trace(states: Seq<EngineView>, steps: Seq<EngineStep>) -> bool {
    &&& states.len() == steps.len() + 1
    &&& forall|i: int| 0 <= i < steps.len() ==> step_taken(states[i], #[trigger] steps[i], states[i + 1])
}

/// A command that starts listening.
pub open spec fn is_listen_command(step: EngineStep) -> bool {
    match step {
        EngineStep::Command(EngineCommand::StartListeningGlobal, _, _) => true,
        EngineStep::Command(EngineCommand::StartListeningSpecific(_), _, _) => true,
        _ => false,
    }
}

/// The stop-listening command.
pub open spec fn is_stop_listening(step: EngineStep) -> bool {
    match step {
        EngineStep::Command(EngineCommand::StopListening, _, _) => true,
        _ => false,
    }
}

/// A step that reports a detected key press.
pub open spec fn is_detection(step: EngineStep) -> bool {
    match step {
        EngineStep::KeyPressDetected(_, _, _) => true,
        EngineStep::DetectKeyPress(_, event) => event is Some,
        _ => false,
    }
}

/// The command that arms the runners.
pub open spec fn is_arm_command(step: EngineStep) -> bool {
    match step {
        EngineStep::Command(EngineCommand::SetMasterState(true), _, _) => true,
        _ => false,
    }
}

/// The command that disarms the runners.
pub open spec fn is_disarm_command(step: EngineStep) -> bool {
    match step {
        EngineStep::Command(EngineCommand::SetMasterState(false), _, _) => true,
        _ => false,
    }
}

/// A runner step that found a click due.
pub open spec fn is_due_click(step: EngineStep) -> bool {
    match step {
        EngineStep::RunnerStep(_, _, _, due) => due,
        _ => false,
    }
}

/// Only the two listen commands start listening; a detection needs
/// listening and ends it; stopping ends it.
pub proof fn lemma_listening_step(before: EngineView, step: EngineStep, after: EngineView)
    requires
        step_taken(before, step, after),
    ensures
        after.is_listening && !is_listen_command(step) ==> before.is_listening,
        is_detection(step) ==> before.is_listening && !after.is_listening,
        is_stop_listening(step) ==> !after.is_listening,
{
}

/// Only the arming command arms; disarming disarms; a runner steps only
/// while armed and not listening.
pub proof fn lemma_arming_step(before: EngineView, step: EngineStep, after: EngineView)
    requires
        step_taken(before, step, after),
    ensures
        after.is_master_active && !is_arm_command(step) ==> before.is_master_active,
        is_disarm_command(step) ==> !after.is_master_active,
        step is RunnerStep ==> before.runs_clickers(),
{
}

proof fn lemma_listening_started_between(states: Seq<EngineView>, steps: Seq<EngineStep>, a: int, m: int)
    requires
        valid_trace(states, steps),
        0 <= a < m <= steps.len(),
        !states[a].is_listening,
        states[m].is_listening,
    ensures
        exists|k: int| a <= k < m && is_listen_command(#[trigger] steps[k]),
    decreases m - a,
{
    lemma_listening_step(states[m - 1], steps[m - 1], states[m]);
    if !is_listen_command(steps[m - 1]) {
        lemma_listening_started_between(states, steps, a, m - 1);
        let k = choose|k: int| a <= k < m - 1 && is_listen_command(#[trigger] steps[k]);
        assert(a <= k < m && is_listen_command(steps[k]));
    }
}

proof fn lemma_armed_between(states: Seq<EngineView>, steps: Seq<EngineStep>, a: int, m: int)
    requires
        valid_trace(states, steps),
        0 <= a < m <= steps.len(),
        !states[a].is_master_active,
        states[m].is_master_active,
    ensures
        exists|k: int| a <= k < m && is_arm_command(#[trigger] steps[k]),
    decreases m - a,
{
    lemma_arming_step(states[m - 1], steps[m - 1], states[m]);
    if !is_arm_command(steps[m - 1]) {
        lemma_armed_between(states, steps, a, m - 1);
        let k = choose|k: int| a <= k < m - 1 && is_arm_command(#[trigger] steps[k]);
        assert(a <= k < m && is_arm_command(steps[k]));
    }
}

/// At most one key press is reported per listening session: between two
/// reports the engine was told to listen again.
pub proof fn lemma_one_detection_per_session(states: Seq<EngineView>, steps: Seq<EngineStep>, i: int, j: int)
    requires
        valid_trace(states, steps),
        0 <= i < j < steps.len(),
        is_detection(steps[i]),
        is_detection(steps[j]),
    ensures
        exists|k: int| i < k < j && is_listen_command(#[trigger] steps[k]),
{
    lemma_listening_step(states[i], steps[i], states[i + 1]);
    lemma_listening_step(states[j], steps[j], states[j + 1]);
    lemma_listening_started_between(states, steps, i + 1, j);
}

/// After the engine is told to stop listening, no key press is reported
/// until it is told to listen again.
pub proof fn lemma_no_detection_after_stop(states: Seq<EngineView>, steps: Seq<EngineStep>, i: int, j: int)
    requires
        valid_trace(states, steps),
        0 <= i < j < steps.len(),
        is_stop_listening(steps[i]),
        is_detection(steps[j]),
    ensures
        exists|k: int| i < k < j && is_listen_command(#[trigger] steps[k]),
{
    lemma_listening_step(states[i], steps[i], states[i + 1]);
    lemma_listening_step(states[j], steps[j], states[j + 1]);
    lemma_listening_started_between(states, steps, i + 1, j);
}

/// Runners read their triggers and click only while the engine is armed and
/// not listening; after disarming, no click is due until the engine is
/// armed again.
pub proof fn lemma_no_click_while_disarmed(states: Seq<EngineView>, steps: Seq<EngineStep>, i: int, j: int)
    requires
        valid_trace(states, steps),
        0 <= i < j < steps.len(),
        is_disarm_command(steps[i]),
        is_due_click(steps[j]),
    ensures
        states[j].runs_clickers(),
        exists|k: int| i < k < j && is_arm_command(#[trigger] steps[k]),
{
    lemma_arming_step(states[i], steps[i], states[i + 1]);
    lemma_arming_step(states[j], steps[j], states[j + 1]);
    lemma_armed_between(states, steps, i + 1, j);
}

/// Every runner step happens while armed and not listening.
pub proof fn lemma_runner_steps_only_when_running(states: Seq<EngineView>, steps: Seq<EngineStep>, j: int)
    requires
        valid_trace(states, steps),
        0 <= j < steps.len(),
        steps[j] is RunnerStep,
    ensures
        states[j].runs_clickers(),
{
    lemma_arming_step(states[j], steps[j], states[j + 1]);
}

/// One click cycle of a runner: the runner step finds the click due (the
/// runner clicks and its wait since the last click is over); the interval
/// then restarts from the time given, with the click counted as the delay
/// plan says; and the next wait is the one set. Nothing else changes.
pub proof fn lemma_click_cycle(
    states: Seq<EngineView>,
    steps: Seq<EngineStep>,
    j: int,
    index: usize,
    now: u64,
    clicked_at: u64,
    delay: u64,
)
    requires
        valid_trace(states, steps),
        0 <= j && j + 2 < steps.len(),
        steps[j] matches EngineStep::RunnerStep(i, _, t, true) && i == index && t == now,
        steps[j + 1] matches EngineStep::StartNextInterval(i, t, _) && i == index && t == clicked_at,
        steps[j + 2] == EngineStep::SetNextDelay(index, delay),
    ensures
        states[j].runs_clickers(),
        click_is_due(states[j + 1].active_runners[index as int], now),
        ({
            let due = states[j + 1].active_runners[index as int];
            let counter = states[j + 3].active_runners[index as int].click_counter;
            &&& states[j + 3] == states[j + 1].with_runner(
                index as int,
                due.with_click_at(clicked_at, counter).with_next_delay(delay),
            )
            &&& steps[j + 1] matches EngineStep::StartNextInterval(_, _, plan) && counted_delay(
                due.config.click_mode,
                due.click_counter,
                counter,
                plan,
            )
        }),
{
    assert(step_taken(states[j], steps[j], states[j + 1]));
    assert(step_taken(states[j + 1], steps[j + 1], states[j + 2]));
    assert(step_taken(states[j + 2], steps[j + 2], states[j + 3]));
    let due = states[j + 1].active_runners[index as int];
    let counter = states[j + 2].active_runners[index as int].click_counter;
    assert(states[j + 3].active_runners =~= states[j + 1].with_runner(
        index as int,
        due.with_click_at(clicked_at, counter).with_next_delay(delay),
    ).active_runners);
}

} // verus!
