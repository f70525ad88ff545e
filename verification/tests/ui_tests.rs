use autoclicker::config::{AppConfig, ClickMode, TriggerType};
use autoclicker::engine::{EngineCommand, EngineEvent};
use autoclicker::profiles::Profile;
use autoclicker::ui::labels::{format_action_label, format_profile_desc, format_trigger_label};
use autoclicker::ui::{
    active_configs, AppModel, AppMsg, ProfileRow, ProfileRowMsg, UiEffect, ViewState, WizardStep,
};

fn profile(name: &str, enabled: bool, cps: u32) -> Profile {
    let mut config = AppConfig::default();
    config.target_cps = cps;
    Profile { name: name.to_string(), enabled, config }
}

fn model_with(profiles: Vec<Profile>) -> AppModel {
    AppModel::new(profiles, true, true)
}

fn sent_configs(effect: &UiEffect) -> Vec<u32> {
    match effect {
        UiEffect::Send(EngineCommand::UpdateActiveConfigs(configs)) => {
            configs.iter().map(|c| c.target_cps).collect()
        }
        other => panic!("expected a configuration update, got {:?}", other),
    }
}

#[test]
fn profile_description_text() {
    let p = profile("P", true, 10);
    assert_eq!(format_profile_desc(&p), "⚡ 10 CPS (Humanizado) • Gatilho: Qualquer (Segurar)");
    let mut q = profile("Q", true, 125);
    q.config.click_mode = ClickMode::DoubleClick;
    q.config.trigger_type = TriggerType::Toggle;
    q.config.trigger_device_name = "Razer Mouse".to_string();
    assert_eq!(format_profile_desc(&q), "⚡ 125 CPS (Duplo Clique) • Gatilho: Razer Mouse (Alternar)");
    q.config.click_mode = ClickMode::Fixed;
    assert_eq!(format_profile_desc(&q), "⚡ 125 CPS (Fixo) • Gatilho: Razer Mouse (Alternar)");
}

#[test]
fn wizard_labels() {
    assert_eq!(format_action_label(272), "Código da Tecla/Botão: 272");
    assert_eq!(format_trigger_label("Mouse", 275), "Mouse (Código 275)");
}

#[test]
fn start_up_state() {
    let model = AppModel::new(vec![profile("A", true, 5)], true, false);
    assert!(!model.is_active);
    assert_eq!(model.view_state, ViewState::Main);
    assert_eq!(model.wizard_step, WizardStep::DetectTargetDevice);
    assert_eq!(model.wizard_profile_name, "Meu Perfil");
    assert!(model.permissions_missing());
    let mut model = model;
    model.set_permissions(true, true);
    assert!(!model.permissions_missing());
}

#[test]
fn only_enabled_profiles_reach_the_engine() {
    let profiles = vec![profile("A", true, 5), profile("B", false, 6), profile("C", true, 7)];
    let cps: Vec<u32> = active_configs(&profiles).iter().map(|c| c.target_cps).collect();
    assert_eq!(cps, vec![5, 7]);
}

#[test]
fn toggling_master_on_sends_state_and_configs() {
    let mut model = model_with(vec![profile("A", true, 5), profile("B", false, 6)]);
    let effects = model.update(AppMsg::ToggleMaster(true));
    assert!(model.is_active);
    assert_eq!(effects.len(), 2);
    assert!(matches!(effects[0], UiEffect::Send(EngineCommand::SetMasterState(true))));
    assert_eq!(sent_configs(&effects[1]), vec![5]);
    let effects = model.update(AppMsg::ToggleMaster(false));
    assert!(!model.is_active);
    assert_eq!(effects.len(), 1);
    assert!(matches!(effects[0], UiEffect::Send(EngineCommand::SetMasterState(false))));
}

#[test]
fn wizard_walkthrough() {
    let mut model = model_with(Vec::new());
    model.wizard_target_device_name = "stale".to_string();
    let effects = model.update(AppMsg::StartWizard);
    assert_eq!(model.view_state, ViewState::Wizard);
    assert_eq!(model.wizard_target_device_name, "");
    assert!(matches!(effects[..], [UiEffect::Send(EngineCommand::StartListeningGlobal)]));

    let effects = model.update(AppMsg::EngineEvent(EngineEvent::EventDetected {
        key_code: 272,
        device_name: "Mouse".to_string(),
        device_path: "/dev/input/event3".to_string(),
    }));
    assert!(effects.is_empty());
    assert_eq!(model.wizard_target_device_name, "Mouse");
    assert_eq!(model.wizard_config.target_device_path.as_deref(), Some("/dev/input/event3"));
    assert_eq!(model.wizard_config.target_device_name, "Mouse");

    let effects = model.update(AppMsg::NextWizardStep);
    assert_eq!(model.wizard_step, WizardStep::DetectTargetAction);
    match &effects[..] {
        [UiEffect::Send(EngineCommand::StartListeningSpecific(path))] => {
            assert_eq!(path, "/dev/input/event3")
        }
        other => panic!("unexpected effects {:?}", other),
    }

    model.update(AppMsg::EngineEvent(EngineEvent::EventDetected {
        key_code: 273,
        device_name: "Mouse".to_string(),
        device_path: "/dev/input/event3".to_string(),
    }));
    assert_eq!(model.wizard_config.target_action_code, 273);
    assert_eq!(model.wizard_action_name, "Código da Tecla/Botão: 273");

    let effects = model.update(AppMsg::NextWizardStep);
    assert_eq!(model.wizard_step, WizardStep::DetectTrigger);
    assert!(matches!(effects[..], [UiEffect::Send(EngineCommand::StartListeningGlobal)]));

    model.update(AppMsg::EngineEvent(EngineEvent::EventDetected {
        key_code: 58,
        device_name: "Keyboard".to_string(),
        device_path: "/dev/input/event1".to_string(),
    }));
    assert_eq!(model.wizard_config.trigger_code, 58);
    assert_eq!(model.wizard_config.trigger_device_path.as_deref(), Some("/dev/input/event1"));
    assert_eq!(model.wizard_config.trigger_device_name, "Keyboard");
    assert_eq!(model.wizard_trigger_name, "Keyboard (Código 58)");

    let effects = model.update(AppMsg::NextWizardStep);
    assert_eq!(model.wizard_step, WizardStep::SelectModeAndSpeed);
    assert!(effects.is_empty());

    model.update(AppMsg::WizardSetMode(TriggerType::Toggle));
    model.update(AppMsg::WizardSetClickMode(ClickMode::Fixed));
    model.update(AppMsg::WizardSetCps(42));
    model.update(AppMsg::WizardSetName("Farm".to_string()));
    let effects = model.update(AppMsg::FinishWizard);
    assert_eq!(model.view_state, ViewState::Main);
    assert_eq!(effects.len(), 5);
    match &effects[0] {
        UiEffect::SaveProfile(p) => {
            assert_eq!(p.name, "Farm");
            assert!(p.enabled);
            assert_eq!(p.config.target_cps, 42);
            assert_eq!(p.config.click_mode, ClickMode::Fixed);
            assert_eq!(p.config.trigger_type, TriggerType::Toggle);
            assert_eq!(p.config.trigger_code, 58);
            assert_eq!(p.config.target_action_code, 273);
        }
        other => panic!("unexpected effect {:?}", other),
    }
    assert!(matches!(effects[1], UiEffect::ReloadProfiles));
    assert!(matches!(&effects[2], UiEffect::AppendProfileName(n) if n == "Farm"));
    assert!(matches!(effects[3], UiEffect::RefreshProfileRows));
    assert!(matches!(effects[4], UiEffect::RefreshEngineConfigs));
}

#[test]
fn wizard_back_and_retry() {
    let mut model = model_with(Vec::new());
    model.update(AppMsg::StartWizard);
    // Back from the first step does nothing.
    let effects = model.update(AppMsg::PrevWizardStep);
    assert!(effects.is_empty());
    assert_eq!(model.wizard_step, WizardStep::DetectTargetDevice);
    // Without a chosen device, the action step listens nowhere.
    let effects = model.update(AppMsg::NextWizardStep);
    assert!(effects.is_empty());
    let effects = model.update(AppMsg::NextWizardStep);
    assert_eq!(model.wizard_step, WizardStep::DetectTrigger);
    assert_eq!(effects.len(), 1);
    let effects = model.update(AppMsg::PrevWizardStep);
    assert_eq!(model.wizard_step, WizardStep::DetectTargetAction);
    assert!(effects.is_empty());
    let effects = model.update(AppMsg::PrevWizardStep);
    assert_eq!(model.wizard_step, WizardStep::DetectTargetDevice);
    assert!(matches!(effects[..], [UiEffect::Send(EngineCommand::StartListeningGlobal)]));

    model.update(AppMsg::EngineEvent(EngineEvent::EventDetected {
        key_code: 1,
        device_name: "Mouse".to_string(),
        device_path: "/dev/input/event3".to_string(),
    }));
    let effects = model.update(AppMsg::RetryDetection);
    assert_eq!(model.wizard_target_device_name, "");
    assert_eq!(model.wizard_config.target_device_path, None);
    assert!(matches!(effects[..], [UiEffect::Send(EngineCommand::StartListeningGlobal)]));

    let effects = model.update(AppMsg::CancelWizard);
    assert_eq!(model.view_state, ViewState::Main);
    assert!(matches!(effects[..], [UiEffect::Send(EngineCommand::StopListening)]));
}

#[test]
fn deleting_a_profile() {
    let mut model = model_with(vec![profile("A", true, 5), profile("B", true, 6)]);
    let effects = model.update(AppMsg::AskDeleteProfile(1));
    assert!(effects.is_empty());
    assert_eq!(model.view_state, ViewState::ConfirmDelete);
    let effects = model.update(AppMsg::ConfirmDelete);
    assert_eq!(model.view_state, ViewState::Main);
    assert_eq!(effects.len(), 5);
    assert!(matches!(&effects[0], UiEffect::DeleteProfile(n) if n == "B"));
    assert!(matches!(effects[1], UiEffect::ReloadProfiles));
    assert!(matches!(effects[2], UiEffect::RemoveProfileName(1)));
    assert!(matches!(effects[3], UiEffect::RefreshProfileRows));
    assert!(matches!(effects[4], UiEffect::RefreshEngineConfigs));

    let mut empty = model_with(Vec::new());
    empty.update(AppMsg::AskDeleteProfile(0));
    let effects = empty.update(AppMsg::ConfirmDelete);
    assert!(effects.is_empty());
    assert_eq!(empty.view_state, ViewState::Main);

    let mut cancelled = model_with(vec![profile("A", true, 5)]);
    cancelled.update(AppMsg::AskDeleteProfile(0));
    assert!(cancelled.update(AppMsg::CancelDelete).is_empty());
    assert_eq!(cancelled.view_state, ViewState::Main);
}

#[test]
fn toggling_a_profile_saves_it_and_refreshes_the_engine() {
    let mut model = model_with(vec![profile("A", true, 5), profile("B", false, 6)]);
    let effects = model.update(AppMsg::ToggleProfile(1, true));
    assert!(model.profiles[1].enabled);
    assert_eq!(effects.len(), 1);
    assert!(matches!(&effects[0], UiEffect::SaveProfile(p) if p.name == "B" && p.enabled));

    model.update(AppMsg::ToggleMaster(true));
    let effects = model.update(AppMsg::ToggleProfile(0, false));
    assert_eq!(effects.len(), 2);
    assert_eq!(sent_configs(&effects[1]), vec![6]);

    let effects = model.update(AppMsg::ToggleProfile(9, false));
    assert!(effects.is_empty());
}

#[test]
fn reloading_profiles_refreshes_the_engine_when_active() {
    let mut model = model_with(Vec::new());
    model.profiles_reloaded(vec![profile("A", true, 5)]);
    assert_eq!(model.profiles.len(), 1);
    assert!(model.update_engine_configs().is_none());
    model.update(AppMsg::ToggleMaster(true));
    model.profiles_reloaded(vec![profile("A", true, 5), profile("B", true, 8)]);
    match model.update_engine_configs() {
        Some(EngineCommand::UpdateActiveConfigs(configs)) => {
            assert_eq!(configs.iter().map(|c| c.target_cps).collect::<Vec<_>>(), vec![5, 8])
        }
        other => panic!("unexpected command {:?}", other),
    }
    let rows = model.profile_list_rows();
    assert_eq!(rows.len(), 2);
    assert_eq!(rows[1].0, "B");
    assert!(rows[1].1);
    assert_eq!(rows[1].2, "⚡ 8 CPS (Humanizado) • Gatilho: Qualquer (Segurar)");
}

#[test]
fn permission_check_message() {
    let mut model = model_with(Vec::new());
    let effects = model.update(AppMsg::CheckPermissions);
    assert!(matches!(effects[..], [UiEffect::CheckPermissions]));
}

#[test]
fn profile_rows_forward_their_index() {
    let mut row = ProfileRow::new(("A".to_string(), false, "desc".to_string()));
    let out = row.update(ProfileRowMsg::Toggle(true), 3);
    assert!(row.enabled);
    assert!(matches!(out, AppMsg::ToggleProfile(3, true)));
    let out = row.update(ProfileRowMsg::Delete, 2);
    assert!(matches!(out, AppMsg::AskDeleteProfile(2)));
}
