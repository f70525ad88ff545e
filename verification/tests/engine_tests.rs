use autoclicker::engine::random::RandomDraws;
use autoclicker::config::{AppConfig, ClickMode, TriggerType};
use autoclicker::engine::clicks::DelayPlan;
use autoclicker::engine::trigger::{InputEventData, EV_KEY};
use autoclicker::engine::{AutoClickerEngine, EngineAction, EngineCommand, EngineEvent, INITIAL_DELAY_NS};

const MS: u64 = 1_000_000;

fn config(trigger: TriggerType, mode: ClickMode) -> AppConfig {
    let mut c = AppConfig::default();
    c.trigger_type = trigger;
    c.click_mode = mode;
    c
}

fn trigger(value: i32) -> InputEventData {
    InputEventData { event_type: EV_KEY, code: 275, value }
}

#[test]
fn new_engine_is_idle() {
    let engine = AutoClickerEngine::new();
    assert!(!engine.is_listening());
    assert!(!engine.runs_clickers());
    assert_eq!(engine.runner_count(), 0);
    assert_eq!(engine.listening_device_count(), 0);
}

#[test]
fn configs_wait_until_armed() {
    let mut engine = AutoClickerEngine::new();
    let action = engine.apply_command(
        EngineCommand::UpdateActiveConfigs(vec![AppConfig::default(), AppConfig::default()]),
        0,
    );
    assert!(matches!(action, EngineAction::Idle));
    assert_eq!(engine.runner_count(), 0);
    let action = engine.apply_command(EngineCommand::SetMasterState(true), 7 * MS);
    assert!(matches!(action, EngineAction::OpenRunnerDevices));
    assert!(engine.runs_clickers());
    assert_eq!(engine.runner_count(), 2);
    let runner = engine.runner(1);
    assert!(!runner.is_clicking);
    assert_eq!(runner.click_counter, 0);
    assert_eq!(runner.last_click_ns, 7 * MS);
    assert_eq!(runner.next_delay_ns, INITIAL_DELAY_NS);
    assert_eq!(runner.arm_time_ns, Some(7 * MS));
}

#[test]
fn disarming_drops_runners() {
    let mut engine = AutoClickerEngine::new();
    engine.apply_command(EngineCommand::SetMasterState(true), 0);
    engine.apply_command(EngineCommand::UpdateActiveConfigs(vec![AppConfig::default()]), 0);
    assert_eq!(engine.runner_count(), 1);
    let action = engine.apply_command(EngineCommand::SetMasterState(false), 0);
    assert!(matches!(action, EngineAction::CloseRunnerDevices));
    assert_eq!(engine.runner_count(), 0);
    assert!(!engine.runs_clickers());
}

#[test]
fn listening_detects_first_press_and_stops() {
    let mut engine = AutoClickerEngine::new();
    let action = engine.apply_command(EngineCommand::StartListeningGlobal, 0);
    assert!(matches!(action, EngineAction::ListenOnAllDevices));
    assert!(engine.is_listening());
    engine.add_listening_device("/dev/input/event1".to_string(), "Keyboard".to_string());
    engine.add_listening_device("/dev/input/event2".to_string(), "Mouse".to_string());
    assert_eq!(engine.listening_device_count(), 2);
    let event = engine.key_press_detected(1, 272);
    match event {
        EngineEvent::EventDetected { key_code, device_name, device_path } => {
            assert_eq!(key_code, 272);
            assert_eq!(device_name, "Mouse");
            assert_eq!(device_path, "/dev/input/event2");
        }
    }
    assert!(!engine.is_listening());
    assert_eq!(engine.listening_device_count(), 0);
}

#[test]
fn listening_on_one_device_and_stopping() {
    let mut engine = AutoClickerEngine::new();
    let action = engine.apply_command(EngineCommand::StartListeningSpecific("/dev/input/event5".to_string()), 0);
    match action {
        EngineAction::ListenOnDevice(path) => assert_eq!(path, "/dev/input/event5"),
        other => panic!("unexpected action {:?}", other),
    }
    engine.add_listening_device("/dev/input/event5".to_string(), "Pad".to_string());
    let action = engine.apply_command(EngineCommand::StopListening, 0);
    assert!(matches!(action, EngineAction::CloseListeningDevices));
    assert!(!engine.is_listening());
    assert_eq!(engine.listening_device_count(), 0);
}

#[test]
fn listening_pauses_clickers() {
    let mut engine = AutoClickerEngine::new();
    engine.apply_command(EngineCommand::SetMasterState(true), 0);
    engine.apply_command(EngineCommand::StartListeningGlobal, 0);
    assert!(!engine.runs_clickers());
    engine.apply_command(EngineCommand::StopListening, 0);
    assert!(engine.runs_clickers());
}

#[test]
fn hold_runner_clicks_while_held_after_arming() {
    let mut engine = AutoClickerEngine::new();
    engine.apply_command(
        EngineCommand::UpdateActiveConfigs(vec![config(TriggerType::Hold, ClickMode::Fixed)]),
        0,
    );
    engine.apply_command(EngineCommand::SetMasterState(true), 0);
    // Within the arming delay the press is ignored.
    assert!(!engine.runner_step(0, Some(vec![trigger(1)]), 200 * MS));
    assert!(!engine.runner(0).is_clicking);
    // After it, the press starts clicking; the first wait has long passed.
    assert!(engine.runner_step(0, Some(vec![trigger(1)]), 600 * MS));
    assert!(engine.runner(0).is_clicking);
    let plan = engine.start_next_interval(0, 605 * MS, &mut RandomDraws::new());
    assert_eq!(plan, DelayPlan::BaseInterval);
    assert_eq!(engine.runner(0).click_counter, 1);
    assert_eq!(engine.runner(0).last_click_ns, 605 * MS);
    engine.set_next_delay(0, 100 * MS);
    // Not yet due; no events read keeps clicking.
    assert!(!engine.runner_step(0, None, 650 * MS));
    assert!(engine.runner_step(0, None, 705 * MS));
    // Release stops clicking.
    assert!(!engine.runner_step(0, Some(vec![trigger(0)]), 800 * MS));
    assert!(!engine.runner(0).is_clicking);
}

#[test]
fn toggle_runner_flips_on_press() {
    let mut engine = AutoClickerEngine::new();
    engine.apply_command(
        EngineCommand::UpdateActiveConfigs(vec![config(TriggerType::Toggle, ClickMode::Humanized)]),
        0,
    );
    engine.apply_command(EngineCommand::SetMasterState(true), 0);
    assert!(engine.runner_step(0, Some(vec![trigger(1), trigger(0)]), 600 * MS));
    assert!(engine.runner(0).is_clicking);
    assert!(!engine.runner_step(0, Some(vec![trigger(1)]), 700 * MS));
    assert!(!engine.runner(0).is_clicking);
}

fn press(code: u16) -> InputEventData {
    InputEventData { event_type: EV_KEY, code, value: 1 }
}

#[test]
fn detection_reports_the_first_device_with_a_press() {
    let mut engine = AutoClickerEngine::new();
    engine.apply_command(EngineCommand::StartListeningGlobal, 0);
    engine.add_listening_device("/dev/input/event1".to_string(), "Keyboard".to_string());
    engine.add_listening_device("/dev/input/event2".to_string(), "Mouse".to_string());
    engine.add_listening_device("/dev/input/event3".to_string(), "Pad".to_string());
    let batches = vec![None, Some(vec![trigger(0)]), Some(vec![press(304)])];
    let batches_again = vec![None, Some(vec![press(272)]), Some(vec![press(304)])];
    match engine.detect_key_press(batches) {
        Some(EngineEvent::EventDetected { key_code, device_name, device_path }) => {
            assert_eq!(key_code, 304);
            assert_eq!(device_name, "Pad");
            assert_eq!(device_path, "/dev/input/event3");
        }
        None => panic!("expected a detection"),
    }
    assert!(!engine.is_listening());
    // A second session picks the earlier device.
    engine.apply_command(EngineCommand::StartListeningGlobal, 0);
    engine.add_listening_device("/dev/input/event1".to_string(), "Keyboard".to_string());
    engine.add_listening_device("/dev/input/event2".to_string(), "Mouse".to_string());
    engine.add_listening_device("/dev/input/event3".to_string(), "Pad".to_string());
    match engine.detect_key_press(batches_again) {
        Some(EngineEvent::EventDetected { key_code, device_name, .. }) => {
            assert_eq!(key_code, 272);
            assert_eq!(device_name, "Mouse");
        }
        None => panic!("expected a detection"),
    }
}

#[test]
fn detection_without_a_press_keeps_listening() {
    let mut engine = AutoClickerEngine::new();
    engine.apply_command(EngineCommand::StartListeningGlobal, 0);
    engine.add_listening_device("/dev/input/event1".to_string(), "Keyboard".to_string());
    assert!(engine.detect_key_press(vec![Some(vec![trigger(0)])]).is_none());
    assert!(engine.is_listening());
    assert_eq!(engine.listening_device_count(), 1);
}
