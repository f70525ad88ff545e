//! Reading input events: detecting a pressed key while the wizard listens,
//! and switching a runner's clicking on and off from its trigger key.
use vstd::prelude::*;
use crate::config::{AppConfig, TriggerType};

verus! {

/// Event type of synchronization markers.
pub const EV_SYN: u16 = 0;

/// Event type of key and button changes.
pub const EV_KEY: u16 = 1;

/// Time after arming during which trigger events are ignored.
pub const ARMING_DELAY_NS: u64 = 500_000_000;

/// One input event as a device reports it.
#[derive(Debug, Clone, Copy, PartialEq, Eq, Structural)]
pub struct InputEventData {
    pub event_type: u16,
    pub code: u16,
    pub value: i32,
}

/// A key or button going down.
pub open spec fn is_key_press(event: InputEventData) -> bool {
    event.event_type == EV_KEY && event.value == 1
}

/// The code of the first key press among `events` from position `start`
/// on, if there is one.
pub open spec fn first_press_from(events: Seq<InputEventData>, start: int) -> Option<u16>
    decreases events.len() - start,
{
    if start < 0 || start >= events.len() {
        None
    } else if is_key_press(events[start]) {
        Some(events[start].code)
    } else {
        first_press_from(events, start + 1)
    }
}

/// What the first key press from position `start` on is: there is none
/// exactly when no event from there is a press, and otherwise it is the code
/// of a press with no press between `start` and it.
pub proof fn lemma_first_press_from(events: Seq<InputEventData>, start: int)
    requires
        0 <= start <= events.len(),
    ensures
        first_press_from(events, start) is None <==> forall|j: int|
            start <= j < events.len() ==> !is_key_press(#[trigger] events[j]),
        first_press_from(events, start) is Some ==> exists|j: int|
            start <= j < events.len() && is_key_press(events[j]) && events[j].code == first_press_from(
                events,
                start,
            )->0 && forall|l: int| start <= l < j ==> !is_key_press(#[trigger] events[l]),
    decreases events.len() - start,
{
    if start < events.len() {
        lemma_first_press_from(events, start + 1);
        if !is_key_press(events[start]) {
            if first_press_from(events, start) is Some {
                let j = choose|j: int|
                    start + 1 <= j < events.len() && is_key_press(events[j]) && events[j].code
                        == first_press_from(events, start + 1)->0 && forall|l: int|
                        start + 1 <= l < j ==> !is_key_press(#[trigger] events[l]);
                assert forall|l: int| start <= l < j implies !is_key_press(#[trigger] events[l]) by {
                    if l > start {
                    }
                }
            }
        } else {
            assert forall|l: int| start <= l < start implies !is_key_press(#[trigger] events[l]) by {}
        }
    }
}

/// The code of the first key press among `events`, if there is one.
pub fn first_key_press(events: &Vec<InputEventData>) -> (code: Option<u16>)
    ensures
        code == first_press_from(events@, 0),
        match code {
            Some(c) => exists|i: int|
                0 <= i < events@.len() && is_key_press(events@[i]) && events@[i].code == c && (
                forall|j: int| 0 <= j < i ==> !is_key_press(#[trigger] events@[j])),
            None => forall|j: int| 0 <= j < events@.len() ==> !is_key_press(#[trigger] events@[j]),
        },
{
    let mut i: usize = 0;
    while i < events.len()
        invariant
            i <= events@.len(),
            forall|j: int| 0 <= j < i ==> !is_key_press(#[trigger] events@[j]),
            first_press_from(events@, 0) == first_press_from(events@, i as int),
        decreases events.len() - i,
    {
        let event = events[i];
        if event.event_type == EV_KEY && event.value == 1 {
            assert(is_key_press(events@[i as int]));
            return Some(event.code);
        }
        i = i + 1;
    }
    None
}

/// Time elapsed from `since` to `now`, or zero if `now` is earlier.
pub open spec fn elapsed_ns(since: u64, now: u64) -> u64 {
    if now >= since {
        (now - since) as u64
    } else {
        0
    }
}

/// Whether a runner armed at `arm_time` may react to its trigger at `now`:
/// only once more than the arming delay has passed.
pub open spec fn may_trigger(arm_time: Option<u64>, now: u64) -> bool {
    match arm_time {
        Some(t) => elapsed_ns(t, now) > ARMING_DELAY_NS,
        None => true,
    }
}

/// Time elapsed from `since` to `now`, saturating at zero.
pub fn elapsed_between(since: u64, now: u64) -> (elapsed: u64)
    ensures
        elapsed == elapsed_ns(since, now),
{
    if now >= since {
        now - since
    } else {
        0
    }
}

/// Whether a runner armed at `arm_time` may react to its trigger at `now`.
pub fn can_trigger(arm_time: Option<u64>, now: u64) -> (may: bool)
    ensures
        may == may_trigger(arm_time, now),
        arm_time is None ==> may,
        arm_time is Some ==> (may <==> now - arm_time->0 > ARMING_DELAY_NS),
{
    match arm_time {
        Some(t) => elapsed_between(t, now) > ARMING_DELAY_NS,
        None => true,
    }
}

/// A runner may react to its trigger exactly once more than the arming
/// delay has passed since it was armed (and always when it was never armed):
/// before that, and at any time not after arming, it may not.
pub proof fn lemma_trigger_allowed_after_arming_delay(arm: u64, now: u64)
    ensures
        may_trigger(Some(arm), now) <==> now - arm > ARMING_DELAY_NS,
        may_trigger(None, now),
        forall|later: u64| now <= later && may_trigger(Some(arm), now) ==> #[trigger] may_trigger(
            Some(arm),
            later,
        ),
{
}

/// An event of the profile's trigger key.
pub open spec fn is_trigger_event(config: AppConfig, event: InputEventData) -> bool {
    event.event_type == EV_KEY && event.code == config.trigger_code
}

/// Clicking after one event: a hold trigger follows the key's state, a
/// toggle trigger flips on each press; other events change nothing.
pub open spec fn trigger_step(config: AppConfig, clicking: bool, event: InputEventData) -> bool {
    if is_trigger_event(config, event) {
        match config.trigger_type {
            TriggerType::Hold => event.value != 0,
            TriggerType::Toggle => if event.value == 1 {
                !clicking
            } else {
                clicking
            },
        }
    } else {
        clicking
    }
}

/// Clicking after the events, in order, starting from `clicking`.
pub open spec fn triggered_state(config: AppConfig, clicking: bool, events: Seq<InputEventData>) -> bool
    decreases events.len(),
{
    if events.len() == 0 {
        clicking
    } else {
        trigger_step(config, triggered_state(config, clicking, events.drop_last()), events.last())
    }
}

/// Applies a batch of events to a runner's clicking state.
pub fn apply_trigger_events(config: &AppConfig, clicking: bool, events: &Vec<InputEventData>) -> (after: bool)
    ensures
        after == triggered_state(*config, clicking, events@),
{
    let mut state = clicking;
    let mut i: usize = 0;
    while i < events.len()
        invariant
            i <= events@.len(),
            state == triggered_state(*config, clicking, events@.subrange(0, i as int)),
        decreases events.len() - i,
    {
        let event = events[i];
        assert(events@.subrange(0, i + 1).drop_last() =~= events@.subrange(0, i as int));
        if event.event_type == EV_KEY && event.code == config.trigger_code {
            match config.trigger_type {
                TriggerType::Hold => {
                    state = event.value != 0;
                },
                TriggerType::Toggle => {
                    if event.value == 1 {
                        state = !state;
                    }
                },
            }
        }
        i = i + 1;
    }
    assert(events@.subrange(0, events@.len() as int) =~= events@);
    state
}

/// Number of presses of the trigger key among `events`.
pub open spec fn trigger_presses(config: AppConfig, events: Seq<InputEventData>) -> nat
    decreases events.len(),
{
    if events.len() == 0 {
        0
    } else {
        trigger_presses(config, events.drop_last()) + if is_trigger_event(config, events.last())
            && events.last().value == 1 {
            1nat
        } else {
            0nat
        }
    }
}

/// With a toggle trigger, clicking flips once per press of the trigger key:
/// it ends as it began exactly when the number of presses is even.
pub proof fn lemma_toggle_flips_per_press(config: AppConfig, clicking: bool, events: Seq<InputEventData>)
    requires
        config.trigger_type == TriggerType::Toggle,
    ensures
        triggered_state(config, clicking, events) == (clicking != (trigger_presses(config, events) % 2
            == 1)),
    decreases events.len(),
{
    if events.len() > 0 {
        lemma_toggle_flips_per_press(config, clicking, events.drop_last());
    }
}

/// With a hold trigger, clicking follows the last event of the trigger key
/// (clicking while its value is non-zero), and is unchanged when the batch
/// holds no event of the trigger key.
pub proof fn lemma_hold_follows_last_trigger_event(
    config: AppConfig,
    clicking: bool,
    events: Seq<InputEventData>,
)
    requires
        config.trigger_type == TriggerType::Hold,
    ensures
        forall|i: int|
            0 <= i < events.len() && is_trigger_event(config, #[trigger] events[i]) && (forall|j: int|
                i < j < events.len() ==> !is_trigger_event(config, events[j])) ==> triggered_state(
                config,
                clicking,
                events,
            ) == (events[i].value != 0),
        (forall|j: int| 0 <= j < events.len() ==> !is_trigger_event(config, #[trigger] events[j]))
            ==> triggered_state(config, clicking, events) == clicking,
    decreases events.len(),
{
    if events.len() > 0 {
        let rest = events.drop_last();
        lemma_hold_follows_last_trigger_event(config, clicking, rest);
        assert forall|i: int|
            0 <= i < events.len() && is_trigger_event(config, #[trigger] events[i]) && (forall|j: int|
                i < j < events.len() ==> !is_trigger_event(config, events[j])) implies triggered_state(
            config,
            clicking,
            events,
        ) == (events[i].value != 0) by {
            if i < events.len() - 1 {
                assert(!is_trigger_event(config, events[events.len() - 1]));
                assert(rest[i] == events[i]);
                assert forall|j: int| i < j < rest.len() implies !is_trigger_event(config, rest[j]) by {
                    assert(rest[j] == events[j]);
                }
            }
        }
        if forall|j: int| 0 <= j < events.len() ==> !is_trigger_event(config, #[trigger] events[j]) {
            assert forall|j: int| 0 <= j < rest.len() implies !is_trigger_event(config, #[trigger] rest[j]) by {
                assert(rest[j] == events[j]);
            }
            assert(!is_trigger_event(config, events[events.len() - 1]));
        }
    }
}

} // verus!
