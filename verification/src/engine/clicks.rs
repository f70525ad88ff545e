//! What one click consists of, and how long a runner waits before the next.
use vstd::prelude::*;
use crate::config::{AppConfig, ClickMode};
use super::random::{random_in_range, RandomDraws};

verus! {

/// How long a key stays pressed within one click.
pub const PRESS_HOLD_MS: u64 = 5;

/// Humanized clicking pauses after a run of more than a random threshold of
/// clicks; the threshold is drawn from `PAUSE_AFTER_LOW..PAUSE_AFTER_HIGH`.
pub const PAUSE_AFTER_LOW: u64 = 40;

/// Upper (excluded) bound of the pause threshold.
pub const PAUSE_AFTER_HIGH: u64 = 70;

/// The shortest jittered interval, in milliseconds.
pub const MIN_JITTER_MS: u64 = 10;

/// One step of emitting a click on the virtual device.
#[derive(Debug, Clone, Copy, PartialEq, Eq, Structural)]
pub enum ClickStep {
    /// Emit a key event with this code and value, followed by a
    /// synchronization marker.
    Key { code: u16, value: i32 },
    /// Wait this many milliseconds.
    Wait { ms: u64 },
}

/// Press, hold briefly, release.
pub open spec fn single_click(code: u16) -> Seq<ClickStep> {
    seq![
        ClickStep::Key { code, value: 1 },
        ClickStep::Wait { ms: PRESS_HOLD_MS },
        ClickStep::Key { code, value: 0 },
    ]
}

/// The steps of one click cycle: a single click, or for double clicks two
/// single clicks separated by the configured delay.
pub open spec fn click_steps(mode: ClickMode, code: u16, double_click_delay_ms: u64) -> Seq<ClickStep> {
    match mode {
        ClickMode::DoubleClick => single_click(code) + seq![ClickStep::Wait { ms: double_click_delay_ms }]
            + single_click(code),
        _ => single_click(code),
    }
}

fn push_single_click(plan: &mut Vec<ClickStep>, code: u16)
    ensures
        final(plan)@ == old(plan)@ + single_click(code),
{
    plan.push(ClickStep::Key { code, value: 1 });
    plan.push(ClickStep::Wait { ms: PRESS_HOLD_MS });
    plan.push(ClickStep::Key { code, value: 0 });
    assert(plan@ =~= old(plan)@ + single_click(code));
}

/// The steps that emit one click cycle of the action key.
pub fn click_plan(mode: ClickMode, action_code: u16, double_click_delay_ms: u64) -> (plan: Vec<ClickStep>)
    ensures
        plan@ == click_steps(mode, action_code, double_click_delay_ms),
{
    let mut plan: Vec<ClickStep> = Vec::new();
    push_single_click(&mut plan, action_code);
    match mode {
        ClickMode::DoubleClick => {
            plan.push(ClickStep::Wait { ms: double_click_delay_ms });
            push_single_click(&mut plan, action_code);
        },
        _ => {},
    }
    assert(plan@ =~= click_steps(mode, action_code, double_click_delay_ms));
    plan
}

/// What kind of wait follows a click.
#[derive(Debug, Clone, Copy, PartialEq, Eq, Structural)]
pub enum DelayPlan {
    /// The base interval: one second divided by the effective clicks per second.
    BaseInterval,
    /// A longer random pause, between 180 and 380 milliseconds.
    RandomPause,
    /// A normally distributed interval around the base interval, at least
    /// `MIN_JITTER_MS` long.
    Jittered,
}

/// The clicks-per-second rate actually used: the configured one, or one
/// when none is configured.
pub open spec fn effective_cps_of(cps: u32) -> u32 {
    if cps == 0 {
        1
    } else {
        cps
    }
}

/// The clicks-per-second rate actually used for `cps`.
pub fn effective_cps(cps: u32) -> (rate: u32)
    ensures
        rate == effective_cps_of(cps),
        cps > 0 ==> rate == cps,
        cps == 0 ==> rate == 1,
{
    if cps == 0 {
        1
    } else {
        cps
    }
}

/// The configured clicks-per-second rate is used as it is whenever one is
/// configured; an unset (zero) rate counts as one click per second. So the
/// rate is never capped, and is always at least one.
pub proof fn lemma_effective_cps_keeps_configured_rate(cps: u32)
    ensures
        cps > 0 ==> effective_cps_of(cps) == cps,
        cps == 0 ==> effective_cps_of(cps) == 1,
        effective_cps_of(cps) >= 1,
        effective_cps_of(cps) >= cps,
{
}

/// A jittered interval in whole milliseconds, from the sampled one: never
/// below `MIN_JITTER_MS`.
pub fn jitter_millis(sampled_ms: u64) -> (ms: u64)
    ensures
        ms == if sampled_ms < MIN_JITTER_MS {
            MIN_JITTER_MS
        } else {
            sampled_ms
        },
{
    if sampled_ms < MIN_JITTER_MS {
        MIN_JITTER_MS
    } else {
        sampled_ms
    }
}

/// The counter and wait after a humanized click, given the click count so
/// far and the drawn pause threshold: past the threshold the count restarts
/// and a random pause follows, otherwise a jittered interval.
pub open spec fn humanized_outcome(counter: u64, threshold: u64) -> (u64, DelayPlan) {
    if counter > threshold {
        (0, DelayPlan::RandomPause)
    } else {
        (counter, DelayPlan::Jittered)
    }
}

/// The counter and wait after a humanized click, for a drawn threshold.
pub fn humanized_plan(counter: u64, threshold: u64) -> (outcome: (u64, DelayPlan))
    ensures
        outcome == humanized_outcome(counter, threshold),
{
    if counter > threshold {
        (0, DelayPlan::RandomPause)
    } else {
        (counter, DelayPlan::Jittered)
    }
}

/// How a click count and wait may follow from one another: fixed and double
/// clicks count the click and wait the base interval; humanized clicks count
/// it and then follow `humanized_outcome` for some threshold in
/// `PAUSE_AFTER_LOW..PAUSE_AFTER_HIGH`.
pub open spec fn counted_delay(mode: ClickMode, before: u64, after: u64, plan: DelayPlan) -> bool {
    match mode {
        ClickMode::Humanized => exists|threshold: u64|
            PAUSE_AFTER_LOW <= threshold < PAUSE_AFTER_HIGH && (after, plan)
                == #[trigger] humanized_outcome((before + 1) as u64, threshold),
        _ => after == before + 1 && plan == DelayPlan::BaseInterval,
    }
}

/// The record of random draws after one click: a humanized click draws its
/// pause threshold from `PAUSE_AFTER_LOW..PAUSE_AFTER_HIGH`; other clicks
/// draw nothing.
pub open spec fn pause_draw_logged(mode: ClickMode, before: Seq<(u64, u64)>, after: Seq<(u64, u64)>) -> bool {
    match mode {
        ClickMode::Humanized => after == before.push((PAUSE_AFTER_LOW, PAUSE_AFTER_HIGH)),
        _ => after == before,
    }
}

/// Counts the click and decides what kind of wait follows it. Fixed and
/// double clicks always wait the base interval; humanized clicks draw a
/// pause threshold uniformly from `PAUSE_AFTER_LOW..PAUSE_AFTER_HIGH` and
/// wait as `humanized_outcome` says for it.
pub fn calculate_runner_delay(config: &AppConfig, click_counter: &mut u64, draws: &mut RandomDraws) -> (plan: DelayPlan)
    requires
        *old(click_counter) < u64::MAX,
    ensures
        counted_delay(config.click_mode, *old(click_counter), *final(click_counter), plan),
        pause_draw_logged(config.click_mode, old(draws)@, final(draws)@),
{
    *click_counter = *click_counter + 1;
    match config.click_mode {
        ClickMode::Humanized => {
            let threshold = random_in_range(PAUSE_AFTER_LOW, PAUSE_AFTER_HIGH, draws);
            let (counter, plan) = humanized_plan(*click_counter, threshold);
            *click_counter = counter;
            plan
        },
        _ => DelayPlan::BaseInterval,
    }
}

/// Humanized clicking never pauses within the first `PAUSE_AFTER_LOW`
/// clicks of a run, and always pauses once a run reaches
/// `PAUSE_AFTER_HIGH` clicks; a pause restarts the count.
pub proof fn lemma_humanized_pause_window(counter: u64, threshold: u64)
    requires
        PAUSE_AFTER_LOW <= threshold < PAUSE_AFTER_HIGH,
    ensures
        counter <= PAUSE_AFTER_LOW ==> humanized_outcome(counter, threshold) == (
        counter,
        DelayPlan::Jittered,
        ),
        counter >= PAUSE_AFTER_HIGH ==> humanized_outcome(counter, threshold) == (
        0u64,
        DelayPlan::RandomPause,
        ),
{
}

} // verus!
