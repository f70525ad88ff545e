//! The click engine's decision logic. The engine keeps, for each active
//! profile, a runner that follows its trigger key and decides when to click;
//! while the profile wizard listens, it reports the first key pressed.
//! Opening devices, reading and emitting events and keeping time are left to
//! the caller, which performs the actions the engine asks for.
pub mod clicks;
pub mod devices;
pub mod laws;
pub mod random;
pub mod trigger;

use vstd::prelude::*;
use crate::config::AppConfig;
pub use self::devices::{scan_devices, DeviceInfo};
use self::clicks::{calculate_runner_delay, counted_delay, pause_draw_logged, DelayPlan};
use self::random::RandomDraws;
use self::trigger::{
    first_key_press, first_press_from, is_key_press, lemma_first_press_from, apply_trigger_events, can_trigger, elapsed_between, elapsed_ns, may_trigger, triggered_state,
    InputEventData,
};

verus! {

/// What the engine reports to the interface.
#[derive(Debug)]
pub enum EngineEvent {
    /// While listening, a key was pressed on a device.
    EventDetected { key_code: u16, device_name: String, device_path: String },
}

impl Clone for EngineEvent {
    fn clone(&self) -> (copy: Self)
        ensures
            copy == *self,
    {
        match self {
            EngineEvent::EventDetected { key_code, device_name, device_path } => {
                EngineEvent::EventDetected {
                    key_code: *key_code,
                    device_name: device_name.clone(),
                    device_path: device_path.clone(),
                }
            },
        }
    }
}

/// What the interface asks of the engine.
#[derive(Debug)]
pub enum EngineCommand {
    /// Replace the configurations of the active profiles.
    UpdateActiveConfigs(Vec<AppConfig>),
    /// Arm (true) or disarm (false) all runners.
    SetMasterState(bool),
    /// Listen for a key press on every input device.
    StartListeningGlobal,
    /// Listen for a key press on the device with this node.
    StartListeningSpecific(String),
    /// Stop listening.
    StopListening,
}

/// What the caller must do to the devices after a command.
#[derive(Debug)]
pub enum EngineAction {
    /// Nothing.
    Idle,
    /// Release any runner devices and open, for each runner in order, its
    /// trigger device (if its configuration names one) and a virtual
    /// clicking device.
    OpenRunnerDevices,
    /// Release all runner devices.
    CloseRunnerDevices,
    /// Release the listened devices, scan all input devices and listen on
    /// each that opens.
    ListenOnAllDevices,
    /// Release the listened devices and listen on the device with this node,
    /// if it opens.
    ListenOnDevice(String),
    /// Release the listened devices.
    CloseListeningDevices,
}

/// Wait before a fresh runner's first click may come.
pub const INITIAL_DELAY_NS: u64 = 100_000_000;

/// A device the engine listens to while the wizard waits for a key.
#[derive(Debug)]
pub struct ListeningDevice {
    pub path: String,
    pub name: String,
}

/// The state of one armed profile. Times are nanoseconds on the caller's
/// monotonic clock.
#[derive(Debug)]
pub struct RunnerState {
    pub config: AppConfig,
    pub is_clicking: bool,
    pub click_counter: u64,
    pub last_click_ns: u64,
    pub next_delay_ns: u64,
    pub arm_time_ns: Option<u64>,
}

/// A runner armed at `now`: not clicking, no clicks counted, first click
/// allowed after the initial delay.
pub open spec fn fresh_runner(config: AppConfig, now: u64) -> RunnerState {
    RunnerState {
        config,
        is_clicking: false,
        click_counter: 0,
        last_click_ns: now,
        next_delay_ns: INITIAL_DELAY_NS,
        arm_time_ns: Some(now),
    }
}

/// One fresh runner per configuration, in order, all armed at `now`.
pub open spec fn runners_fresh(runners: Seq<RunnerState>, configs: Seq<AppConfig>, now: u64) -> bool {
    &&& runners.len() == configs.len()
    &&& forall|i: int| 0 <= i < runners.len() ==> #[trigger] runners[i] == fresh_runner(configs[i], now)
}

/// The engine's state as a value.
pub struct EngineView {
    pub active_configs: Seq<AppConfig>,
    pub active_runners: Seq<RunnerState>,
    pub is_master_active: bool,
    pub is_listening: bool,
    pub listening_devices: Seq<ListeningDevice>,
}

impl EngineView {
    /// Runners exist only while armed, one per active configuration and in
    /// its order; devices are listened to only while listening.
    pub open spec fn well_formed(self) -> bool {
        &&& !self.is_master_active ==> self.active_runners.len() == 0
        &&& self.is_master_active ==> self.active_runners.len() == self.active_configs.len()
        &&& self.is_master_active ==> forall|i: int|
            0 <= i < self.active_runners.len() ==> (#[trigger] self.active_runners[i]).config
                == self.active_configs[i]
        &&& !self.is_listening ==> self.listening_devices.len() == 0
    }

    /// Whether the runners act: armed and not listening for the wizard.
    pub open spec fn runs_clickers(self) -> bool {
        self.is_master_active && !self.is_listening
    }

    /// This state with one more listened device.
    pub open spec fn with_listening_device(self, path: String, name: String) -> EngineView {
        EngineView {
            listening_devices: self.listening_devices.push(ListeningDevice { path, name }),
            ..self
        }
    }

    /// This state with listening started or stopped and no device listened to.
    pub open spec fn with_listening(self, listening: bool) -> EngineView {
        EngineView { is_listening: listening, listening_devices: Seq::empty(), ..self }
    }

    /// This state with the runner at `index` replaced.
    pub open spec fn with_runner(self, index: int, runner: RunnerState) -> EngineView {
        EngineView { active_runners: self.active_runners.update(index, runner), ..self }
    }

    /// The report of a key press with this code on the listened device at `index`.
    pub open spec fn detected_event(self, index: int, key_code: u16) -> EngineEvent {
        EngineEvent::EventDetected {
            key_code,
            device_name: self.listening_devices[index].name,
            device_path: self.listening_devices[index].path,
        }
    }
}

impl RunnerState {
    /// This runner with its clicking state set.
    pub open spec fn with_clicking(self, clicking: bool) -> RunnerState {
        RunnerState { is_clicking: clicking, ..self }
    }

    /// This runner after a click finishing at `now`, with this click count.
    pub open spec fn with_click_at(self, now: u64, counter: u64) -> RunnerState {
        RunnerState { last_click_ns: now, click_counter: counter, ..self }
    }

    /// This runner with its next wait set.
    pub open spec fn with_next_delay(self, delay: u64) -> RunnerState {
        RunnerState { next_delay_ns: delay, ..self }
    }
}

/// The view of an optional batch of events.
pub open spec fn events_view(events: Option<Vec<InputEventData>>) -> Option<Seq<InputEventData>> {
    match events {
        Some(evs) => Some(evs@),
        None => None,
    }
}

/// The state after a command, and the action the caller must perform.
pub open spec fn command_outcome(
    before: EngineView,
    command: EngineCommand,
    now: u64,
    after: EngineView,
    action: EngineAction,
) -> bool {
    match command {
        EngineCommand::UpdateActiveConfigs(configs) => {
            &&& after.active_configs == configs@
            &&& after.is_master_active == before.is_master_active
            &&& after.is_listening == before.is_listening
            &&& after.listening_devices == before.listening_devices
            &&& if before.is_master_active {
                runners_fresh(after.active_runners, configs@, now) && action
                    == EngineAction::OpenRunnerDevices
            } else {
                after.active_runners == before.active_runners && action == EngineAction::Idle
            }
        },
        EngineCommand::SetMasterState(active) => {
            &&& after.active_configs == before.active_configs
            &&& after.is_master_active == active
            &&& after.is_listening == before.is_listening
            &&& after.listening_devices == before.listening_devices
            &&& if active {
                runners_fresh(after.active_runners, before.active_configs, now) && action
                    == EngineAction::OpenRunnerDevices
            } else {
                after.active_runners.len() == 0 && action == EngineAction::CloseRunnerDevices
            }
        },
        EngineCommand::StartListeningGlobal => {
            &&& after == before.with_listening(true)
            &&& action == EngineAction::ListenOnAllDevices
        },
        EngineCommand::StartListeningSpecific(path) => {
            &&& after == before.with_listening(true)
            &&& action == EngineAction::ListenOnDevice(path)
        },
        EngineCommand::StopListening => {
            &&& after == before.with_listening(false)
            &&& action == EngineAction::CloseListeningDevices
        },
    }
}

/// A runner's clicking state after a batch of trigger events read at `now`
/// (`None` when nothing could be read): the events count only once the
/// arming delay has passed.
pub open spec fn clicking_after(runner: RunnerState, events: Option<Seq<InputEventData>>, now: u64) -> bool {
    match events {
        Some(evs) => if may_trigger(runner.arm_time_ns, now) {
            triggered_state(runner.config, runner.is_clicking, evs)
        } else {
            runner.is_clicking
        },
        None => runner.is_clicking,
    }
}

/// Whether a runner in this state clicks at `now`: it is clicking and its
/// wait since the last click is over.
pub open spec fn click_is_due(runner: RunnerState, now: u64) -> bool {
    runner.is_clicking && elapsed_ns(runner.last_click_ns, now) >= runner.next_delay_ns
}

/// Once more than the arming delay has passed since a runner was armed, every
/// batch of trigger events it reads counts: its clicking state becomes what
/// the events make of it.
pub proof fn lemma_trigger_counts_after_arming(runner: RunnerState, events: Seq<InputEventData>, now: u64)
    requires
        runner.arm_time_ns is Some,
        now - runner.arm_time_ns->0 > self::trigger::ARMING_DELAY_NS,
    ensures
        clicking_after(runner, Some(events), now) == triggered_state(
            runner.config,
            runner.is_clicking,
            events,
        ),
{
}

/// A runner ignores its trigger during the arming delay: whatever events it
/// reads then, its clicking state stays as it was.
pub proof fn lemma_arming_guard(runner: RunnerState, events: Option<Seq<InputEventData>>, now: u64)
    requires
        runner.arm_time_ns is Some,
        elapsed_ns(runner.arm_time_ns->0, now) <= self::trigger::ARMING_DELAY_NS,
    ensures
        clicking_after(runner, events, now) == runner.is_clicking,
{
}

/// A freshly armed runner neither clicks nor starts clicking during the
/// arming delay.
pub proof fn lemma_fresh_runner_stays_idle(
    config: AppConfig,
    armed_at: u64,
    events: Option<Seq<InputEventData>>,
    now: u64,
)
    requires
        elapsed_ns(armed_at, now) <= self::trigger::ARMING_DELAY_NS,
    ensures
        !clicking_after(fresh_runner(config, armed_at), events, now),
        !click_is_due(fresh_runner(config, armed_at).with_clicking(false), now),
{
}

/// The views of batches of events read from the listened devices, one per
/// device (`None` where nothing could be read).
pub open spec fn batches_view(batches: Seq<Option<Vec<InputEventData>>>) -> Seq<Option<Seq<InputEventData>>> {
    batches.map_values(|b: Option<Vec<InputEventData>>| events_view(b))
}

/// The first listened device, from position `start` on, whose batch holds a
/// key press, with that press's code.
pub open spec fn first_detection_from(batches: Seq<Option<Seq<InputEventData>>>, start: int) -> Option<(int, u16)>
    decreases batches.len() - start,
{
    if start < 0 || start >= batches.len() {
        None
    } else {
        match batches[start] {
            Some(events) => match first_press_from(events, 0) {
                Some(code) => Some((start, code)),
                None => first_detection_from(batches, start + 1),
            },
            None => first_detection_from(batches, start + 1),
        }
    }
}

/// A batch of events that holds a key press.
pub open spec fn batch_has_press(batch: Option<Seq<InputEventData>>) -> bool {
    match batch {
        Some(events) => exists|j: int| 0 <= j < events.len() && is_key_press(#[trigger] events[j]),
        None => false,
    }
}

/// The device `index` is the first whose batch holds a key press, and
/// `code` is the code of the first press in its batch.
pub open spec fn first_pressed_device(batches: Seq<Option<Seq<InputEventData>>>, index: int, code: u16) -> bool {
    &&& 0 <= index < batches.len()
    &&& batch_has_press(batches[index])
    &&& forall|k: int| 0 <= k < index ==> !batch_has_press(#[trigger] batches[k])
    &&& exists|j: int|
        0 <= j < batches[index]->0.len() && is_key_press(batches[index]->0[j])
            && batches[index]->0[j].code == code && forall|l: int|
            0 <= l < j ==> !is_key_press(#[trigger] batches[index]->0[l])
}

/// Every listened device is considered, the first one included: no device
/// is reported exactly when no batch holds a key press, and otherwise the
/// device reported is the first whose batch holds one, with the code of the
/// first press in it.
pub proof fn lemma_first_detection(batches: Seq<Option<Seq<InputEventData>>>, start: int)
    requires
        0 <= start <= batches.len(),
    ensures
        first_detection_from(batches, start) is None <==> forall|i: int|
            start <= i < batches.len() ==> !batch_has_press(#[trigger] batches[i]),
        first_detection_from(batches, start) matches Some((index, code)) ==> {
            &&& start <= index < batches.len()
            &&& batch_has_press(batches[index])
            &&& forall|k: int| start <= k < index ==> !batch_has_press(#[trigger] batches[k])
            &&& exists|j: int|
                0 <= j < batches[index]->0.len() && is_key_press(batches[index]->0[j])
                    && batches[index]->0[j].code == code && forall|l: int|
                    0 <= l < j ==> !is_key_press(#[trigger] batches[index]->0[l])
        },
    decreases batches.len() - start,
{
    if start < batches.len() {
        lemma_first_detection(batches, start + 1);
        match batches[start] {
            Some(events) => {
                lemma_first_press_from(events, 0);
            },
            None => {},
        }
        if first_detection_from(batches, start) is Some {
            let (index, _code) = first_detection_from(batches, start)->0;
            if index > start {
                assert forall|k: int| start <= k < index implies !batch_has_press(
                    #[trigger] batches[k],
                ) by {
                    if k == start {
                        match batches[start] {
                            Some(events) => {
                                lemma_first_press_from(events, 0);
                            },
                            None => {},
                        }
                    }
                }
            }
        }
    }
}

/// The state and report after reading one batch per listened device: the
/// first device whose batch holds a key press is reported and listening
/// stops; without a press nothing changes.
pub open spec fn detection_outcome(
    before: EngineView,
    batches: Seq<Option<Seq<InputEventData>>>,
    after: EngineView,
    event: Option<EngineEvent>,
) -> bool {
    match first_detection_from(batches, 0) {
        Some((index, code)) => event == Some(before.detected_event(index, code)) && after
            == before.with_listening(false),
        None => event is None && after == before,
    }
}

/// One call of the engine's operations, with what it returned.
pub enum EngineStep {
    /// `apply_command(command, now)` answered `action`.
    Command(EngineCommand, u64, EngineAction),
    /// `add_listening_device(path, name)`.
    AddListeningDevice(String, String),
    /// `key_press_detected(index, code)` reported `event`.
    KeyPressDetected(usize, u16, EngineEvent),
    /// `detect_key_press(batches)` reported `event`, if any.
    DetectKeyPress(Seq<Option<Seq<InputEventData>>>, Option<EngineEvent>),
    /// `runner_step(index, events, now)` answered whether a click is due.
    RunnerStep(usize, Option<Seq<InputEventData>>, u64, bool),
    /// `start_next_interval(index, now)` answered `plan`.
    StartNextInterval(usize, u64, DelayPlan),
    /// `set_next_delay(index, delay)`.
    SetNextDelay(usize, u64),
}

/// `step` can take the engine from `before` to `after`: the operation's
/// precondition held and its postcondition relates the two states.
pub open spec fn step_taken(before: EngineView, step: EngineStep, after: EngineView) -> bool {
    &&& before.well_formed()
    &&& match step {
        EngineStep::Command(command, now, action) => command_outcome(before, command, now, after, action),
        EngineStep::AddListeningDevice(path, name) => {
            &&& before.is_listening
            &&& after == before.with_listening_device(path, name)
        },
        EngineStep::KeyPressDetected(index, code, event) => {
            &&& before.is_listening
            &&& index < before.listening_devices.len()
            &&& event == before.detected_event(index as int, code)
            &&& after == before.with_listening(false)
        },
        EngineStep::DetectKeyPress(batches, event) => {
            &&& before.is_listening
            &&& batches.len() == before.listening_devices.len()
            &&& detection_outcome(before, batches, after, event)
        },
        EngineStep::RunnerStep(index, events, now, due) => {
            let runner = before.active_runners[index as int];
            &&& before.runs_clickers()
            &&& index < before.active_runners.len()
            &&& after == before.with_runner(
                index as int,
                runner.with_clicking(clicking_after(runner, events, now)),
            )
            &&& due == click_is_due(after.active_runners[index as int], now)
        },
        EngineStep::StartNextInterval(index, now, plan) => {
            let runner = before.active_runners[index as int];
            let counter = after.active_runners[index as int].click_counter;
            &&& index < before.active_runners.len()
            &&& runner.click_counter < u64::MAX
            &&& after == before.with_runner(index as int, runner.with_click_at(now, counter))
            &&& counted_delay(runner.config.click_mode, runner.click_counter, counter, plan)
        },
        EngineStep::SetNextDelay(index, delay) => {
            &&& index < before.active_runners.len()
            &&& after == before.with_runner(
                index as int,
                before.active_runners[index as int].with_next_delay(delay),
            )
        },
    }
}

/// The engine's logical state.
pub struct AutoClickerEngine {
    active_configs: Vec<AppConfig>,
    active_runners: Vec<RunnerState>,
    is_master_active: bool,
    is_listening: bool,
    listening_devices: Vec<ListeningDevice>,
}

impl View for AutoClickerEngine {
    type V = EngineView;

    closed spec fn view(&self) -> EngineView {
        EngineView {
            active_configs: self.active_configs@,
            active_runners: self.active_runners@,
            is_master_active: self.is_master_active,
            is_listening: self.is_listening,
            listening_devices: self.listening_devices@,
        }
    }
}

fn fresh_runners(configs: &Vec<AppConfig>, now_ns: u64) -> (runners: Vec<RunnerState>)
    ensures
        runners_fresh(runners@, configs@, now_ns),
{
    let mut runners: Vec<RunnerState> = Vec::new();
    let mut i: usize = 0;
    while i < configs.len()
        invariant
            i <= configs@.len(),
            runners@.len() == i,
            forall|j: int| 0 <= j < i ==> #[trigger] runners@[j] == fresh_runner(configs@[j], now_ns),
        decreases configs.len() - i,
    {
        runners.push(
            RunnerState {
                config: configs[i].clone(),
                is_clicking: false,
                click_counter: 0,
                last_click_ns: now_ns,
                next_delay_ns: INITIAL_DELAY_NS,
                arm_time_ns: Some(now_ns),
            },
        );
        i = i + 1;
    }
    runners
}

impl AutoClickerEngine {
    /// A disarmed engine with no active profiles that is not listening.
    pub fn new() -> (engine: Self)
        ensures
            engine@.well_formed(),
            engine@.active_configs.len() == 0,
            engine@.active_runners.len() == 0,
            !engine@.is_master_active,
            !engine@.is_listening,
            engine@.listening_devices.len() == 0,
    {
        AutoClickerEngine {
            active_configs: Vec::new(),
            active_runners: Vec::new(),
            is_master_active: false,
            is_listening: false,
            listening_devices: Vec::new(),
        }
    }

    /// Applies a command received at `now_ns` and says what the caller must
    /// do to the devices.
    pub fn apply_command(&mut self, command: EngineCommand, now_ns: u64) -> (action: EngineAction)
        requires
            old(self)@.well_formed(),
        ensures
            final(self)@.well_formed(),
            command_outcome(old(self)@, command, now_ns, final(self)@, action),
            step_taken(old(self)@, EngineStep::Command(command, now_ns, action), final(self)@),
    {
        match command {
            EngineCommand::UpdateActiveConfigs(configs) => {
                self.active_configs = configs;
                if self.is_master_active {
                    self.active_runners = fresh_runners(&self.active_configs, now_ns);
                    EngineAction::OpenRunnerDevices
                } else {
                    EngineAction::Idle
                }
            },
            EngineCommand::SetMasterState(active) => {
                self.is_master_active = active;
                if active {
                    self.active_runners = fresh_runners(&self.active_configs, now_ns);
                    EngineAction::OpenRunnerDevices
                } else {
                    self.active_runners = Vec::new();
                    EngineAction::CloseRunnerDevices
                }
            },
            EngineCommand::StartListeningGlobal => {
                self.is_listening = true;
                self.listening_devices = Vec::new();
                EngineAction::ListenOnAllDevices
            },
            EngineCommand::StartListeningSpecific(path) => {
                self.is_listening = true;
                self.listening_devices = Vec::new();
                EngineAction::ListenOnDevice(path)
            },
            EngineCommand::StopListening => {
                self.is_listening = false;
                self.listening_devices = Vec::new();
                EngineAction::CloseListeningDevices
            },
        }
    }

    /// Records a device that opened for listening.
    pub fn add_listening_device(&mut self, path: String, name: String)
        requires
            old(self)@.well_formed(),
            old(self)@.is_listening,
        ensures
            final(self)@.well_formed(),
            final(self)@ == old(self)@.with_listening_device(path, name),
            step_taken(old(self)@, EngineStep::AddListeningDevice(path, name), final(self)@),
    {
        self.listening_devices.push(ListeningDevice { path, name });
    }

    /// A key with this code was pressed on the listened device at `index`:
    /// reports it and stops listening.
    pub fn key_press_detected(&mut self, index: usize, key_code: u16) -> (event: EngineEvent)
        requires
            old(self)@.well_formed(),
            old(self)@.is_listening,
            index < old(self)@.listening_devices.len(),
        ensures
            final(self)@.well_formed(),
            event == old(self)@.detected_event(index as int, key_code),
            final(self)@ == old(self)@.with_listening(false),
            step_taken(old(self)@, EngineStep::KeyPressDetected(index, key_code, event), final(self)@),
    {
        let device_name = self.listening_devices[index].name.clone();
        let device_path = self.listening_devices[index].path.clone();
        self.is_listening = false;
        self.listening_devices = Vec::new();
        EngineEvent::EventDetected { key_code, device_name, device_path }
    }

    /// Takes one batch of events per listened device, in the devices' order
    /// (`None` where a device gave none): the first device whose batch holds
    /// a key press is reported, with that press's code, and listening stops.
    pub fn detect_key_press(&mut self, batches: Vec<Option<Vec<InputEventData>>>) -> (event: Option<EngineEvent>)
        requires
            old(self)@.well_formed(),
            old(self)@.is_listening,
            batches@.len() == old(self)@.listening_devices.len(),
        ensures
            final(self)@.well_formed(),
            detection_outcome(old(self)@, batches_view(batches@), final(self)@, event),
            event is None <==> forall|i: int|
                0 <= i < batches@.len() ==> !batch_has_press(#[trigger] batches_view(batches@)[i]),
            event is None ==> final(self)@ == old(self)@,
            event is Some ==> !final(self)@.is_listening && final(self)@.listening_devices.len() == 0,
            forall|i: int, code: u16|
                #[trigger] first_pressed_device(batches_view(batches@), i, code) ==> event == Some(
                    old(self)@.detected_event(i, code),
                ),
            step_taken(
                old(self)@,
                EngineStep::DetectKeyPress(batches_view(batches@), event),
                final(self)@,
            ),
    {
        let ghost views = batches_view(batches@);
        proof {
            lemma_first_detection(views, 0);
            assert forall|i: int, code: u16| #[trigger] first_pressed_device(views, i, code) implies first_detection_from(
                views,
                0,
            ) == Some((i, code)) by {
                let (i2, c2) = first_detection_from(views, 0)->0;
                if i2 < i {
                    assert(!batch_has_press(views[i2]));
                } else if i < i2 {
                    assert(!batch_has_press(views[i]));
                } else {
                    let j = choose|j: int|
                        0 <= j < views[i]->0.len() && is_key_press(views[i]->0[j]) && views[i]->0[j].code
                            == code && forall|l: int| 0 <= l < j ==> !is_key_press(#[trigger] views[i]->0[l]);
                    let j2 = choose|j: int|
                        0 <= j < views[i]->0.len() && is_key_press(views[i]->0[j]) && views[i]->0[j].code
                            == c2 && forall|l: int| 0 <= l < j ==> !is_key_press(#[trigger] views[i]->0[l]);
                    if j < j2 {
                        assert(!is_key_press(views[i]->0[j]));
                    } else if j2 < j {
                        assert(!is_key_press(views[i]->0[j2]));
                    }
                }
            }
        }
        let mut i: usize = 0;
        while i < batches.len()
            invariant
                i <= batches@.len(),
                views == batches_view(batches@),
                batches@.len() == self@.listening_devices.len(),
                *self == *old(self),
                self@.well_formed(),
                self@.is_listening,
                first_detection_from(views, 0) == first_detection_from(views, i as int),
                forall|d: int, code: u16|
                    #[trigger] first_pressed_device(views, d, code) ==> first_detection_from(views, 0)
                        == Some((d, code)),
            decreases batches.len() - i,
        {
            assert(views[i as int] == events_view(batches@[i as int]));
            match &batches[i] {
                Some(events) => {
                    match first_key_press(events) {
                        Some(code) => {
                            return Some(self.key_press_detected(i, code));
                        },
                        None => {},
                    }
                },
                None => {},
            }
            i = i + 1;
        }
        None
    }

    /// Whether the engine is listening for the wizard.
    pub fn is_listening(&self) -> (listening: bool)
        ensures
            listening == self@.is_listening,
    {
        self.is_listening
    }

    /// Whether the runners act: armed and not listening.
    pub fn runs_clickers(&self) -> (runs: bool)
        ensures
            runs == self@.runs_clickers(),
    {
        self.is_master_active && !self.is_listening
    }

    /// Number of devices listened to.
    pub fn listening_device_count(&self) -> (count: usize)
        ensures
            count == self@.listening_devices.len(),
    {
        self.listening_devices.len()
    }

    /// Number of runners.
    pub fn runner_count(&self) -> (count: usize)
        ensures
            count == self@.active_runners.len(),
    {
        self.active_runners.len()
    }

    /// The runner at `index`.
    pub fn runner(&self, index: usize) -> (runner: &RunnerState)
        requires
            index < self@.active_runners.len(),
        ensures
            *runner == self@.active_runners[index as int],
    {
        &self.active_runners[index]
    }

    /// Feeds the trigger events read at `now_ns` for the runner at `index`
    /// (`None` when its trigger device gave none) and says whether it must
    /// click now.
    pub fn runner_step(
        &mut self,
        index: usize,
        trigger_events: Option<Vec<InputEventData>>,
        now_ns: u64,
    ) -> (click_due: bool)
        requires
            old(self)@.well_formed(),
            old(self)@.runs_clickers(),
            index < old(self)@.active_runners.len(),
        ensures
            final(self)@.well_formed(),
            final(self)@ == old(self)@.with_runner(
                index as int,
                old(self)@.active_runners[index as int].with_clicking(
                    clicking_after(
                        old(self)@.active_runners[index as int],
                        events_view(trigger_events),
                        now_ns,
                    ),
                ),
            ),
            click_due == click_is_due(final(self)@.active_runners[index as int], now_ns),
            ({
                let runner = old(self)@.active_runners[index as int];
                (runner.arm_time_ns is None || now_ns - runner.arm_time_ns->0
                    > self::trigger::ARMING_DELAY_NS) && trigger_events is Some
                    ==> final(self)@.active_runners[index as int].is_clicking == triggered_state(
                    runner.config,
                    runner.is_clicking,
                    trigger_events->0@,
                )
            }),
            trigger_events is None ==> final(self)@.active_runners[index as int].is_clicking
                == old(self)@.active_runners[index as int].is_clicking,
            step_taken(
                old(self)@,
                EngineStep::RunnerStep(index, events_view(trigger_events), now_ns, click_due),
                final(self)@,
            ),
    {
        let runner = &self.active_runners[index];
        let clicking = match &trigger_events {
            Some(events) => {
                if can_trigger(runner.arm_time_ns, now_ns) {
                    apply_trigger_events(&runner.config, runner.is_clicking, events)
                } else {
                    runner.is_clicking
                }
            },
            None => runner.is_clicking,
        };
        let due = clicking && elapsed_between(runner.last_click_ns, now_ns) >= runner.next_delay_ns;
        self.active_runners[index].is_clicking = clicking;
        due
    }

    /// The runner at `index` clicked, finishing at `now_ns`: counts the click,
    /// restarts its wait from now and says what kind of wait follows; a
    /// humanized click records its threshold draw in `draws`.
    pub fn start_next_interval(&mut self, index: usize, now_ns: u64, draws: &mut RandomDraws) -> (plan: DelayPlan)
        requires
            old(self)@.well_formed(),
            index < old(self)@.active_runners.len(),
            old(self)@.active_runners[index as int].click_counter < u64::MAX,
        ensures
            final(self)@.well_formed(),
            final(self)@ == old(self)@.with_runner(
                index as int,
                old(self)@.active_runners[index as int].with_click_at(
                    now_ns,
                    final(self)@.active_runners[index as int].click_counter,
                ),
            ),
            counted_delay(
                old(self)@.active_runners[index as int].config.click_mode,
                old(self)@.active_runners[index as int].click_counter,
                final(self)@.active_runners[index as int].click_counter,
                plan,
            ),
            pause_draw_logged(
                old(self)@.active_runners[index as int].config.click_mode,
                old(draws)@,
                final(draws)@,
            ),
            step_taken(old(self)@, EngineStep::StartNextInterval(index, now_ns, plan), final(self)@),
    {
        let mut counter = self.active_runners[index].click_counter;
        let plan = calculate_runner_delay(&self.active_runners[index].config, &mut counter, draws);
        self.active_runners[index].click_counter = counter;
        self.active_runners[index].last_click_ns = now_ns;
        assert(self@.active_runners =~= old(self)@.active_runners.update(
            index as int,
            old(self)@.active_runners[index as int].with_click_at(now_ns, counter),
        ));
        plan
    }

    /// Sets how long the runner at `index` waits before its next click.
    pub fn set_next_delay(&mut self, index: usize, delay_ns: u64)
        requires
            old(self)@.well_formed(),
            index < old(self)@.active_runners.len(),
        ensures
            final(self)@.well_formed(),
            final(self)@ == old(self)@.with_runner(
                index as int,
                old(self)@.active_runners[index as int].with_next_delay(delay_ns),
            ),
            step_taken(old(self)@, EngineStep::SetNextDelay(index, delay_ns), final(self)@),
    {
        self.active_runners[index].next_delay_ns = delay_ns;
    }
}

} // verus!
