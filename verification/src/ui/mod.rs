//! The interface's state machine: which page is shown, where the profile
//! wizard stands, and what each message asks the engine, the profile store
//! and the widgets to do.
pub mod labels;

use vstd::prelude::*;
use crate::config::{AppConfig, ClickMode, TriggerType};
use crate::engine::{EngineCommand, EngineEvent};
use crate::profiles::Profile;
use self::labels::{
    action_label, format_action_label, format_profile_desc, format_trigger_label,
    profile_description, trigger_label,
};

verus! {

/// The page on screen.
#[derive(Debug, Clone, Copy, PartialEq, Eq, Structural)]
pub enum ViewState {
    Main,
    Wizard,
    ConfirmDelete,
}

/// The step the profile wizard is at.
#[derive(Debug, Clone, Copy, PartialEq, Eq, Structural)]
pub enum WizardStep {
    DetectTargetDevice,
    DetectTargetAction,
    DetectTrigger,
    SelectModeAndSpeed,
}

/// What the widgets and the engine tell the interface.
#[derive(Debug)]
pub enum AppMsg {
    ToggleMaster(bool),
    StartWizard,
    CancelWizard,
    NextWizardStep,
    PrevWizardStep,
    RetryDetection,
    FinishWizard,
    AskDeleteProfile(usize),
    CancelDelete,
    ConfirmDelete,
    ToggleProfile(usize, bool),
    WizardSetMode(TriggerType),
    WizardSetClickMode(ClickMode),
    WizardSetCps(u32),
    WizardSetName(String),
    CheckPermissions,
    EngineEvent(EngineEvent),
}

/// What the caller must do after a message, in order.
#[derive(Debug)]
pub enum UiEffect {
    /// Send this command to the engine.
    Send(EngineCommand),
    /// Store this profile.
    SaveProfile(Profile),
    /// Delete the stored profile with this name.
    DeleteProfile(String),
    /// List the stored profiles again and hand them to `profiles_reloaded`.
    ReloadProfiles,
    /// Rebuild the profile list from `profile_list_rows`.
    RefreshProfileRows,
    /// Send the engine the command `update_engine_configs` gives, if any.
    RefreshEngineConfigs,
    /// Append this name to the list of profile names.
    AppendProfileName(String),
    /// Remove the entry at this position from the list of profile names.
    RemoveProfileName(usize),
    /// Check device permissions again and hand the answers to `set_permissions`.
    CheckPermissions,
}

/// The interface's state.
#[derive(Debug)]
pub struct AppModel {
    pub is_active: bool,
    pub profiles: Vec<Profile>,
    pub selected_profile_index: usize,
    pub has_uinput_permission: bool,
    pub has_input_permission: bool,
    pub view_state: ViewState,
    pub wizard_step: WizardStep,
    pub wizard_config: AppConfig,
    pub wizard_target_device_name: String,
    pub wizard_action_name: String,
    pub wizard_trigger_name: String,
    pub wizard_profile_name: String,
}

/// The configurations of the enabled profiles, in order.
pub open spec fn enabled_configs(profiles: Seq<Profile>) -> Seq<AppConfig>
    decreases profiles.len(),
{
    if profiles.len() == 0 {
        Seq::empty()
    } else {
        let rest = enabled_configs(profiles.drop_last());
        if profiles.last().enabled {
            rest.push(profiles.last().config)
        } else {
            rest
        }
    }
}

/// The command that hands the engine the enabled profiles' configurations.
pub open spec fn is_config_update(command: EngineCommand, profiles: Seq<Profile>) -> bool {
    match command {
        EngineCommand::UpdateActiveConfigs(configs) => configs@ == enabled_configs(profiles),
        _ => false,
    }
}

/// An effect that hands the engine the enabled profiles' configurations.
pub open spec fn is_config_update_effect(effect: UiEffect, profiles: Seq<Profile>) -> bool {
    match effect {
        UiEffect::Send(command) => is_config_update(command, profiles),
        _ => false,
    }
}

/// The effects that bring the engine up to date with the profiles: one
/// configuration update while the clicker is active, none otherwise.
pub open spec fn engine_refresh(effects: Seq<UiEffect>, active: bool, profiles: Seq<Profile>) -> bool {
    if active {
        effects.len() == 1 && is_config_update_effect(effects[0], profiles)
    } else {
        effects.len() == 0
    }
}

/// Listening on the chosen target device, if one was chosen.
pub open spec fn listen_on_target(config: AppConfig) -> Seq<UiEffect> {
    match config.target_device_path {
        Some(path) => seq![UiEffect::Send(EngineCommand::StartListeningSpecific(path))],
        None => Seq::empty(),
    }
}

/// Listening on every device.
pub open spec fn listen_everywhere() -> Seq<UiEffect> {
    seq![UiEffect::Send(EngineCommand::StartListeningGlobal)]
}

/// The wizard step after "next".
pub open spec fn next_step(step: WizardStep) -> WizardStep {
    match step {
        WizardStep::DetectTargetDevice => WizardStep::DetectTargetAction,
        WizardStep::DetectTargetAction => WizardStep::DetectTrigger,
        _ => WizardStep::SelectModeAndSpeed,
    }
}

/// The wizard step after "back".
pub open spec fn prev_step(step: WizardStep) -> WizardStep {
    match step {
        WizardStep::SelectModeAndSpeed => WizardStep::DetectTrigger,
        WizardStep::DetectTrigger => WizardStep::DetectTargetAction,
        _ => WizardStep::DetectTargetDevice,
    }
}

/// What the engine is asked after moving the wizard to `step`: listen for
/// the next thing that step detects.
pub open spec fn listening_for_step(step: WizardStep, config: AppConfig) -> Seq<UiEffect> {
    match step {
        WizardStep::DetectTargetDevice => listen_everywhere(),
        WizardStep::DetectTargetAction => listen_on_target(config),
        WizardStep::DetectTrigger => listen_everywhere(),
        WizardStep::SelectModeAndSpeed => Seq::empty(),
    }
}

/// The profile the wizard creates.
pub open spec fn wizard_profile(model: AppModel) -> Profile {
    Profile { name: model.wizard_profile_name, enabled: true, config: model.wizard_config }
}

impl AppModel {
    /// This state on another page.
    pub open spec fn on_page(self, page: ViewState) -> AppModel {
        AppModel { view_state: page, ..self }
    }

    /// This state with another wizard configuration.
    pub open spec fn with_wizard_config(self, config: AppConfig) -> AppModel {
        AppModel { wizard_config: config, ..self }
    }

    /// The state after the wizard restarts: on the wizard page at its first
    /// step, with a default configuration and nothing detected yet.
    pub open spec fn wizard_restarted(self, after: AppModel) -> bool {
        &&& after == AppModel {
            view_state: ViewState::Wizard,
            wizard_step: WizardStep::DetectTargetDevice,
            wizard_config: after.wizard_config,
            wizard_target_device_name: after.wizard_target_device_name,
            wizard_action_name: after.wizard_action_name,
            wizard_trigger_name: after.wizard_trigger_name,
            ..self
        }
        &&& after.wizard_config.is_default()
        &&& after.wizard_target_device_name@.len() == 0
        &&& after.wizard_action_name@.len() == 0
        &&& after.wizard_trigger_name@.len() == 0
    }

    /// The state and effects after "try again" at the current step: what
    /// that step detected is forgotten and the engine listens again.
    pub open spec fn retried(self, after: AppModel, effects: Seq<UiEffect>) -> bool {
        match self.wizard_step {
            WizardStep::DetectTargetDevice => {
                &&& after == AppModel {
                    wizard_target_device_name: after.wizard_target_device_name,
                    wizard_config: AppConfig { target_device_path: None, ..self.wizard_config },
                    ..self
                }
                &&& after.wizard_target_device_name@.len() == 0
                &&& effects == listen_everywhere()
            },
            WizardStep::DetectTargetAction => {
                &&& after == AppModel { wizard_action_name: after.wizard_action_name, ..self }
                &&& after.wizard_action_name@.len() == 0
                &&& effects == listen_on_target(self.wizard_config)
            },
            WizardStep::DetectTrigger => {
                &&& after == AppModel {
                    wizard_trigger_name: after.wizard_trigger_name,
                    wizard_config: AppConfig { trigger_device_path: None, ..self.wizard_config },
                    ..self
                }
                &&& after.wizard_trigger_name@.len() == 0
                &&& effects == listen_everywhere()
            },
            WizardStep::SelectModeAndSpeed => after == self && effects.len() == 0,
        }
    }

    /// The state after the engine detected a key press on a device, at the
    /// current wizard step: the first step takes the device, the second the
    /// action key, the third the trigger device and key.
    pub open spec fn detected(self, event: EngineEvent, after: AppModel) -> bool {
        match event {
            EngineEvent::EventDetected { key_code, device_name, device_path } => match self.wizard_step {
                WizardStep::DetectTargetDevice => after == AppModel {
                    wizard_target_device_name: device_name,
                    wizard_config: AppConfig {
                        target_device_path: Some(device_path),
                        target_device_name: device_name,
                        ..self.wizard_config
                    },
                    ..self
                },
                WizardStep::DetectTargetAction => {
                    &&& after == AppModel {
                        wizard_action_name: after.wizard_action_name,
                        wizard_config: AppConfig { target_action_code: key_code, ..self.wizard_config },
                        ..self
                    }
                    &&& after.wizard_action_name@ == action_label(key_code)
                },
                WizardStep::DetectTrigger => {
                    &&& after == AppModel {
                        wizard_trigger_name: after.wizard_trigger_name,
                        wizard_config: AppConfig {
                            trigger_device_path: Some(device_path),
                            trigger_code: key_code,
                            trigger_device_name: device_name,
                            ..self.wizard_config
                        },
                        ..self
                    }
                    &&& after.wizard_trigger_name@ == trigger_label(device_name@, key_code)
                },
                WizardStep::SelectModeAndSpeed => after == self,
            },
        }
    }

    /// Messages the interface can take in this state: deletion needs the
    /// selected profile to exist when there is any profile.
    pub open spec fn accepts(self, msg: AppMsg) -> bool {
        msg is ConfirmDelete && self.profiles@.len() > 0 ==> self.selected_profile_index
            < self.profiles@.len()
    }

    /// The state and effects after a message.
    pub open spec fn update_outcome(self, msg: AppMsg, after: AppModel, effects: Seq<UiEffect>) -> bool {
        match msg {
            AppMsg::ToggleMaster(active) => {
                &&& after == AppModel { is_active: active, ..self }
                &&& effects.len() >= 1
                &&& effects[0] == UiEffect::Send(EngineCommand::SetMasterState(active))
                &&& engine_refresh(effects.drop_first(), active, self.profiles@)
            },
            AppMsg::StartWizard => self.wizard_restarted(after) && effects == listen_everywhere(),
            AppMsg::CancelWizard => {
                &&& after == self.on_page(ViewState::Main)
                &&& effects == seq![UiEffect::Send(EngineCommand::StopListening)]
            },
            AppMsg::NextWizardStep => {
                &&& after == AppModel { wizard_step: next_step(self.wizard_step), ..self }
                &&& effects == if self.wizard_step == WizardStep::SelectModeAndSpeed {
                    Seq::empty()
                } else {
                    listening_for_step(next_step(self.wizard_step), self.wizard_config)
                }
            },
            AppMsg::PrevWizardStep => {
                &&& after == AppModel { wizard_step: prev_step(self.wizard_step), ..self }
                &&& effects == if self.wizard_step == WizardStep::DetectTargetDevice {
                    Seq::empty()
                } else {
                    listening_for_step(prev_step(self.wizard_step), self.wizard_config)
                }
            },
            AppMsg::RetryDetection => self.retried(after, effects),
            AppMsg::FinishWizard => {
                &&& after == self.on_page(ViewState::Main)
                &&& effects == seq![
                    UiEffect::SaveProfile(wizard_profile(self)),
                    UiEffect::ReloadProfiles,
                    UiEffect::AppendProfileName(self.wizard_profile_name),
                    UiEffect::RefreshProfileRows,
                    UiEffect::RefreshEngineConfigs,
                ]
            },
            AppMsg::AskDeleteProfile(index) => {
                &&& after == AppModel {
                    selected_profile_index: index,
                    view_state: ViewState::ConfirmDelete,
                    ..self
                }
                &&& effects.len() == 0
            },
            AppMsg::CancelDelete => after == self.on_page(ViewState::Main) && effects.len() == 0,
            AppMsg::ConfirmDelete => {
                &&& after == self.on_page(ViewState::Main)
                &&& effects == if self.profiles@.len() == 0 {
                    Seq::empty()
                } else {
                    seq![
                        UiEffect::DeleteProfile(self.profiles@[self.selected_profile_index as int].name),
                        UiEffect::ReloadProfiles,
                        UiEffect::RemoveProfileName(self.selected_profile_index),
                        UiEffect::RefreshProfileRows,
                        UiEffect::RefreshEngineConfigs,
                    ]
                }
            },
            AppMsg::ToggleProfile(index, enabled) => if index < self.profiles@.len() {
                let changed = self.profiles@[index as int].with_enabled(enabled);
                &&& after == AppModel { profiles: after.profiles, ..self }
                &&& after.profiles@ == self.profiles@.update(index as int, changed)
                &&& effects.len() >= 1
                &&& effects[0] == UiEffect::SaveProfile(changed)
                &&& engine_refresh(effects.drop_first(), self.is_active, after.profiles@)
            } else {
                after == self && effects.len() == 0
            },
            AppMsg::WizardSetMode(trigger) => {
                &&& after == self.with_wizard_config(
                    AppConfig { trigger_type: trigger, ..self.wizard_config },
                )
                &&& effects.len() == 0
            },
            AppMsg::WizardSetClickMode(mode) => {
                &&& after == self.with_wizard_config(AppConfig { click_mode: mode, ..self.wizard_config })
                &&& effects.len() == 0
            },
            AppMsg::WizardSetCps(cps) => {
                &&& after == self.with_wizard_config(AppConfig { target_cps: cps, ..self.wizard_config })
                &&& effects.len() == 0
            },
            AppMsg::WizardSetName(name) => {
                &&& after == AppModel { wizard_profile_name: name, ..self }
                &&& effects.len() == 0
            },
            AppMsg::CheckPermissions => after == self && effects == seq![UiEffect::CheckPermissions],
            AppMsg::EngineEvent(event) => self.detected(event, after) && effects.len() == 0,
        }
    }
}

/// The configurations of the enabled profiles, in order.
pub fn active_configs(profiles: &Vec<Profile>) -> (configs: Vec<AppConfig>)
    ensures
        configs@ == enabled_configs(profiles@),
{
    let mut configs: Vec<AppConfig> = Vec::new();
    let mut i: usize = 0;
    while i < profiles.len()
        invariant
            i <= profiles@.len(),
            configs@ == enabled_configs(profiles@.subrange(0, i as int)),
        decreases profiles.len() - i,
    {
        assert(profiles@.subrange(0, i + 1).drop_last() =~= profiles@.subrange(0, i as int));
        if profiles[i].enabled {
            configs.push(profiles[i].config.clone());
        }
        i = i + 1;
    }
    assert(profiles@.subrange(0, profiles@.len() as int) =~= profiles@);
    configs
}

/// What a row of the profile list is built from: name, switch state and
/// summary.
pub type ProfileRowInit = (String, bool, String);

/// The rows of the profile list, one per profile in order.
pub fn profile_rows(profiles: &Vec<Profile>) -> (rows: Vec<ProfileRowInit>)
    ensures
        rows@.len() == profiles@.len(),
        forall|i: int|
            0 <= i < rows@.len() ==> (#[trigger] rows@[i]).0 == profiles@[i].name && rows@[i].1
                == profiles@[i].enabled && rows@[i].2@ == profile_description(profiles@[i]),
{
    let mut rows: Vec<ProfileRowInit> = Vec::new();
    let mut i: usize = 0;
    while i < profiles.len()
        invariant
            i <= profiles@.len(),
            rows@.len() == i,
            forall|j: int|
                0 <= j < i ==> (#[trigger] rows@[j]).0 == profiles@[j].name && rows@[j].1
                    == profiles@[j].enabled && rows@[j].2@ == profile_description(profiles@[j]),
        decreases profiles.len() - i,
    {
        let profile = &profiles[i];
        rows.push((profile.name.clone(), profile.enabled, format_profile_desc(profile)));
        i = i + 1;
    }
    rows
}

fn listen_on_target_effects(config: &AppConfig) -> (effects: Vec<UiEffect>)
    ensures
        effects@ == listen_on_target(*config),
{
    let mut effects = Vec::new();
    match &config.target_device_path {
        Some(path) => {
            effects.push(UiEffect::Send(EngineCommand::StartListeningSpecific(path.clone())));
        },
        None => {},
    }
    assert(effects@ =~= listen_on_target(*config));
    effects
}

fn listen_everywhere_effects() -> (effects: Vec<UiEffect>)
    ensures
        effects@ == listen_everywhere(),
{
    let mut effects = Vec::new();
    effects.push(UiEffect::Send(EngineCommand::StartListeningGlobal));
    assert(effects@ =~= listen_everywhere());
    effects
}

fn listening_for_step_effects(step: WizardStep, config: &AppConfig) -> (effects: Vec<UiEffect>)
    ensures
        effects@ == listening_for_step(step, *config),
{
    match step {
        WizardStep::DetectTargetDevice => listen_everywhere_effects(),
        WizardStep::DetectTargetAction => listen_on_target_effects(config),
        WizardStep::DetectTrigger => listen_everywhere_effects(),
        WizardStep::SelectModeAndSpeed => {
            let effects = Vec::new();
            assert(effects@ =~= listening_for_step(step, *config));
            effects
        },
    }
}

fn next_wizard_step(step: WizardStep) -> (next: WizardStep)
    ensures
        next == next_step(step),
{
    match step {
        WizardStep::DetectTargetDevice => WizardStep::DetectTargetAction,
        WizardStep::DetectTargetAction => WizardStep::DetectTrigger,
        _ => WizardStep::SelectModeAndSpeed,
    }
}

fn prev_wizard_step(step: WizardStep) -> (prev: WizardStep)
    ensures
        prev == prev_step(step),
{
    match step {
        WizardStep::SelectModeAndSpeed => WizardStep::DetectTrigger,
        WizardStep::DetectTrigger => WizardStep::DetectTargetAction,
        _ => WizardStep::DetectTargetDevice,
    }
}

impl AppModel {
    /// The state at start-up, with the stored profiles and the permission
    /// checks' answers: inactive, on the main page, with a default wizard
    /// configuration and "Meu Perfil" as the suggested profile name.
    pub fn new(profiles: Vec<Profile>, has_uinput_permission: bool, has_input_permission: bool) -> (model: Self)
        ensures
            model.profiles == profiles,
            model.has_uinput_permission == has_uinput_permission,
            model.has_input_permission == has_input_permission,
            !model.is_active,
            model.selected_profile_index == 0,
            model.view_state == ViewState::Main,
            model.wizard_step == WizardStep::DetectTargetDevice,
            model.wizard_config.is_default(),
            model.wizard_target_device_name@.len() == 0,
            model.wizard_action_name@.len() == 0,
            model.wizard_trigger_name@.len() == 0,
            model.wizard_profile_name@ == "Meu Perfil"@,
    {
        AppModel {
            is_active: false,
            profiles,
            selected_profile_index: 0,
            has_uinput_permission,
            has_input_permission,
            view_state: ViewState::Main,
            wizard_step: WizardStep::DetectTargetDevice,
            wizard_config: AppConfig::default(),
            wizard_target_device_name: String::new(),
            wizard_action_name: String::new(),
            wizard_trigger_name: String::new(),
            wizard_profile_name: String::from_str("Meu Perfil"),
        }
    }

    /// Whether the permission warning is shown: some device access is missing.
    pub fn permissions_missing(&self) -> (missing: bool)
        ensures
            missing == (!self.has_uinput_permission || !self.has_input_permission),
    {
        !self.has_uinput_permission || !self.has_input_permission
    }

    /// Takes the answers of the permission checks.
    pub fn set_permissions(&mut self, has_uinput_permission: bool, has_input_permission: bool)
        ensures
            *final(self) == (AppModel { has_uinput_permission, has_input_permission, ..*old(self) }),
    {
        self.has_uinput_permission = has_uinput_permission;
        self.has_input_permission = has_input_permission;
    }

    /// The command that hands the engine the enabled profiles'
    /// configurations, while the clicker is active.
    pub fn update_engine_configs(&self) -> (command: Option<EngineCommand>)
        ensures
            match command {
                Some(c) => self.is_active && is_config_update(c, self.profiles@),
                None => !self.is_active,
            },
    {
        if self.is_active {
            Some(EngineCommand::UpdateActiveConfigs(active_configs(&self.profiles)))
        } else {
            None
        }
    }

    /// Takes the profiles listed again after a change.
    pub fn profiles_reloaded(&mut self, profiles: Vec<Profile>)
        ensures
            *final(self) == (AppModel { profiles, ..*old(self) }),
    {
        self.profiles = profiles;
    }

    /// The rows of the profile list.
    pub fn profile_list_rows(&self) -> (rows: Vec<ProfileRowInit>)
        ensures
            rows@.len() == self.profiles@.len(),
            forall|i: int|
                0 <= i < rows@.len() ==> (#[trigger] rows@[i]).0 == self.profiles@[i].name
                    && rows@[i].1 == self.profiles@[i].enabled && rows@[i].2@ == profile_description(
                    self.profiles@[i],
                ),
    {
        profile_rows(&self.profiles)
    }

    fn push_engine_refresh(&self, effects: &mut Vec<UiEffect>)
        ensures
            final(effects)@.len() >= old(effects)@.len(),
            final(effects)@.subrange(0, old(effects)@.len() as int) == old(effects)@,
            engine_refresh(
                final(effects)@.subrange(old(effects)@.len() as int, final(effects)@.len() as int),
                self.is_active,
                self.profiles@,
            ),
    {
        let ghost before = effects@;
        match self.update_engine_configs() {
            Some(command) => {
                effects.push(UiEffect::Send(command));
                assert(effects@.subrange(0, before.len() as int) =~= before);
                assert(effects@.subrange(before.len() as int, effects@.len() as int)[0] == effects@[before.len() as int]);
            },
            None => {
                assert(effects@.subrange(0, before.len() as int) =~= before);
            },
        }
    }

    /// Handles a message: updates the state and returns, in order, what the
    /// caller must do.
    pub fn update(&mut self, msg: AppMsg) -> (effects: Vec<UiEffect>)
        requires
            old(self).accepts(msg),
        ensures
            old(self).update_outcome(msg, *final(self), effects@),
            msg is RetryDetection && old(self).wizard_step != WizardStep::SelectModeAndSpeed
                ==> effects@ == listening_for_step(old(self).wizard_step, old(self).wizard_config),
            msg is RetryDetection && old(self).wizard_step == WizardStep::DetectTrigger ==> effects@
                == seq![UiEffect::Send(EngineCommand::StartListeningGlobal)],
            msg is RetryDetection && old(self).wizard_step == WizardStep::DetectTargetDevice
                ==> effects@ == seq![UiEffect::Send(EngineCommand::StartListeningGlobal)],
    {
        let ghost before = *self;
        let mut effects: Vec<UiEffect> = Vec::new();
        match msg {
            AppMsg::ToggleMaster(active) => {
                self.is_active = active;
                effects.push(UiEffect::Send(EngineCommand::SetMasterState(active)));
                if active {
                    self.push_engine_refresh(&mut effects);
                    assert(effects@[0] == effects@.subrange(0, 1)[0]);
                }
                assert(effects@.drop_first() =~= effects@.subrange(1, effects@.len() as int));
            },
            AppMsg::StartWizard => {
                self.view_state = ViewState::Wizard;
                self.wizard_step = WizardStep::DetectTargetDevice;
                self.wizard_config = AppConfig::default();
                self.wizard_target_device_name = String::new();
                self.wizard_action_name = String::new();
                self.wizard_trigger_name = String::new();
                effects = listen_everywhere_effects();
            },
            AppMsg::CancelWizard => {
                self.view_state = ViewState::Main;
                effects.push(UiEffect::Send(EngineCommand::StopListening));
                assert(effects@ =~= seq![UiEffect::Send(EngineCommand::StopListening)]);
            },
            AppMsg::NextWizardStep => {
                let step = self.wizard_step;
                self.wizard_step = next_wizard_step(step);
                if step != WizardStep::SelectModeAndSpeed {
                    effects = listening_for_step_effects(self.wizard_step, &self.wizard_config);
                }
            },
            AppMsg::PrevWizardStep => {
                let step = self.wizard_step;
                self.wizard_step = prev_wizard_step(step);
                if step != WizardStep::DetectTargetDevice {
                    effects = listening_for_step_effects(self.wizard_step, &self.wizard_config);
                }
            },
            AppMsg::RetryDetection => {
                match self.wizard_step {
                    WizardStep::DetectTargetDevice => {
                        self.wizard_target_device_name = String::new();
                        self.wizard_config.target_device_path = None;
                        effects = listen_everywhere_effects();
                    },
                    WizardStep::DetectTargetAction => {
                        self.wizard_action_name = String::new();
                        effects = listen_on_target_effects(&self.wizard_config);
                    },
                    WizardStep::DetectTrigger => {
                        self.wizard_trigger_name = String::new();
                        self.wizard_config.trigger_device_path = None;
                        effects = listen_everywhere_effects();
                    },
                    WizardStep::SelectModeAndSpeed => {},
                }
            },
            AppMsg::FinishWizard => {
                let profile = Profile {
                    name: self.wizard_profile_name.clone(),
                    enabled: true,
                    config: self.wizard_config.clone(),
                };
                effects.push(UiEffect::SaveProfile(profile));
                effects.push(UiEffect::ReloadProfiles);
                effects.push(UiEffect::AppendProfileName(self.wizard_profile_name.clone()));
                effects.push(UiEffect::RefreshProfileRows);
                effects.push(UiEffect::RefreshEngineConfigs);
                self.view_state = ViewState::Main;
                assert(effects@ =~= seq![
                    UiEffect::SaveProfile(wizard_profile(before)),
                    UiEffect::ReloadProfiles,
                    UiEffect::AppendProfileName(before.wizard_profile_name),
                    UiEffect::RefreshProfileRows,
                    UiEffect::RefreshEngineConfigs,
                ]);
            },
            AppMsg::AskDeleteProfile(index) => {
                self.selected_profile_index = index;
                self.view_state = ViewState::ConfirmDelete;
            },
            AppMsg::CancelDelete => {
                self.view_state = ViewState::Main;
            },
            AppMsg::ConfirmDelete => {
                if self.profiles.len() > 0 {
                    let index = self.selected_profile_index;
                    let name = self.profiles[index].name.clone();
                    effects.push(UiEffect::DeleteProfile(name));
                    effects.push(UiEffect::ReloadProfiles);
                    effects.push(UiEffect::RemoveProfileName(index));
                    effects.push(UiEffect::RefreshProfileRows);
                    effects.push(UiEffect::RefreshEngineConfigs);
                    assert(effects@ =~= seq![
                        UiEffect::DeleteProfile(before.profiles@[index as int].name),
                        UiEffect::ReloadProfiles,
                        UiEffect::RemoveProfileName(index),
                        UiEffect::RefreshProfileRows,
                        UiEffect::RefreshEngineConfigs,
                    ]);
                } else {
                    assert(effects@ =~= Seq::empty());
                }
                self.view_state = ViewState::Main;
            },
            AppMsg::ToggleProfile(index, enabled) => {
                if index < self.profiles.len() {
                    self.profiles[index].enabled = enabled;
                    let saved = self.profiles[index].clone();
                    effects.push(UiEffect::SaveProfile(saved));
                    self.push_engine_refresh(&mut effects);
                    assert(effects@[0] == effects@.subrange(0, 1)[0]);
                    assert(self.profiles@ =~= before.profiles@.update(
                        index as int,
                        before.profiles@[index as int].with_enabled(enabled),
                    ));
                    assert(effects@.drop_first() =~= effects@.subrange(1, effects@.len() as int));
                }
            },
            AppMsg::WizardSetMode(trigger) => {
                self.wizard_config.trigger_type = trigger;
            },
            AppMsg::WizardSetClickMode(mode) => {
                self.wizard_config.click_mode = mode;
            },
            AppMsg::WizardSetCps(cps) => {
                self.wizard_config.target_cps = cps;
            },
            AppMsg::WizardSetName(name) => {
                self.wizard_profile_name = name;
            },
            AppMsg::CheckPermissions => {
                effects.push(UiEffect::CheckPermissions);
                assert(effects@ =~= seq![UiEffect::CheckPermissions]);
            },
            AppMsg::EngineEvent(event) => {
                match event {
                    EngineEvent::EventDetected { key_code, device_name, device_path } => {
                        match self.wizard_step {
                            WizardStep::DetectTargetDevice => {
                                self.wizard_config.target_device_path = Some(device_path);
                                self.wizard_target_device_name = device_name.clone();
                                self.wizard_config.target_device_name = device_name;
                            },
                            WizardStep::DetectTargetAction => {
                                self.wizard_config.target_action_code = key_code;
                                self.wizard_action_name = format_action_label(key_code);
                            },
                            WizardStep::DetectTrigger => {
                                self.wizard_config.trigger_device_path = Some(device_path);
                                self.wizard_config.trigger_code = key_code;
                                self.wizard_trigger_name = format_trigger_label(
                                    device_name.as_str(),
                                    key_code,
                                );
                                self.wizard_config.trigger_device_name = device_name;
                            },
                            WizardStep::SelectModeAndSpeed => {},
                        }
                    },
                }
            },
        }
        effects
    }
}

/// Going forward and then back in the wizard returns to the step left, from
/// every step but the last; going back and then forward does too, from every
/// step but the first.
pub proof fn lemma_wizard_next_then_back(step: WizardStep)
    ensures
        step != WizardStep::SelectModeAndSpeed ==> prev_step(next_step(step)) == step,
        step != WizardStep::DetectTargetDevice ==> next_step(prev_step(step)) == step,
{
}

/// Entering a detection step, forward or back, makes the engine listen for
/// what that step detects: anywhere for the target device and the trigger,
/// on the chosen device for the action key.
pub proof fn lemma_wizard_listens_on_entry(model: AppModel, msg: AppMsg, after: AppModel, effects: Seq<UiEffect>)
    requires
        msg is NextWizardStep || msg is PrevWizardStep,
        model.update_outcome(msg, after, effects),
        after.wizard_step != model.wizard_step,
    ensures
        effects == listening_for_step(after.wizard_step, model.wizard_config),
{
}

/// Retrying a detection step makes the engine listen again for what that
/// step detects, just as entering the step does: anywhere for the target
/// device and the trigger, on the chosen device for the action key. Only
/// what the step detected is forgotten.
pub proof fn lemma_retry_listens_again(model: AppModel, after: AppModel, effects: Seq<UiEffect>)
    requires
        model.update_outcome(AppMsg::RetryDetection, after, effects),
        model.wizard_step != WizardStep::SelectModeAndSpeed,
    ensures
        effects == listening_for_step(model.wizard_step, model.wizard_config),
        model.wizard_step != WizardStep::DetectTargetAction ==> effects == seq![
            UiEffect::Send(EngineCommand::StartListeningGlobal),
        ],
        after.wizard_step == model.wizard_step,
        after.view_state == model.view_state,
        after.profiles == model.profiles,
        after.is_active == model.is_active,
{
}

/// The interface asks the engine to click for exactly the enabled profiles:
/// every configuration it hands over belongs to an enabled profile, and
/// every enabled profile's configuration is handed over, in order.
pub proof fn lemma_enabled_configs_are_enabled_profiles(profiles: Seq<Profile>)
    ensures
        enabled_configs(profiles).len() <= profiles.len(),
        forall|i: int|
            0 <= i < enabled_configs(profiles).len() ==> exists|j: int|
                0 <= j < profiles.len() && profiles[j].enabled && #[trigger] enabled_configs(
                    profiles,
                )[i] == profiles[j].config,
        (forall|j: int| 0 <= j < profiles.len() ==> #[trigger] profiles[j].enabled) ==> enabled_configs(
            profiles,
        ) == profiles.map_values(|p: Profile| p.config),
    decreases profiles.len(),
{
    if profiles.len() > 0 {
        let rest = profiles.drop_last();
        lemma_enabled_configs_are_enabled_profiles(rest);
        assert forall|i: int|
            0 <= i < enabled_configs(profiles).len() implies exists|j: int|
                0 <= j < profiles.len() && profiles[j].enabled && #[trigger] enabled_configs(
                    profiles,
                )[i] == profiles[j].config by {
            if i < enabled_configs(rest).len() {
                let j = choose|j: int|
                    0 <= j < rest.len() && rest[j].enabled && #[trigger] enabled_configs(rest)[i]
                        == rest[j].config;
                assert(profiles[j] == rest[j]);
            } else {
                assert(profiles[profiles.len() - 1].enabled);
            }
        }
        if forall|j: int| 0 <= j < profiles.len() ==> #[trigger] profiles[j].enabled {
            assert forall|j: int| 0 <= j < rest.len() implies #[trigger] rest[j].enabled by {
                assert(rest[j] == profiles[j]);
            }
            assert(profiles[profiles.len() - 1].enabled);
            assert(enabled_configs(profiles) =~= profiles.map_values(|p: Profile| p.config));
        }
    }
}

/// What a row of the profile list tells it.
#[derive(Debug, Clone, Copy, PartialEq, Eq, Structural)]
pub enum ProfileRowMsg {
    Toggle(bool),
    Delete,
}

/// One row of the profile list: a profile's name, switch and summary.
#[derive(Debug)]
pub struct ProfileRow {
    pub name: String,
    pub enabled: bool,
    pub description: String,
}

impl ProfileRow {
    /// A row built from a profile's name, switch state and summary.
    pub fn new(init: ProfileRowInit) -> (row: Self)
        ensures
            row == (ProfileRow { name: init.0, enabled: init.1, description: init.2 }),
    {
        ProfileRow { name: init.0, enabled: init.1, description: init.2 }
    }

    /// Handles a row message for the row now at `index` and returns the
    /// message it sends on to the interface.
    pub fn update(&mut self, msg: ProfileRowMsg, index: usize) -> (out: AppMsg)
        ensures
            match msg {
                ProfileRowMsg::Toggle(value) => *final(self) == (ProfileRow { enabled: value, ..*old(self) })
                    && out == AppMsg::ToggleProfile(index, value),
                ProfileRowMsg::Delete => *final(self) == *old(self) && out == AppMsg::AskDeleteProfile(
                    index,
                ),
            },
    {
        match msg {
            ProfileRowMsg::Toggle(value) => {
                self.enabled = value;
                AppMsg::ToggleProfile(index, value)
            },
            ProfileRowMsg::Delete => AppMsg::AskDeleteProfile(index),
        }
    }
}

} // verus!
