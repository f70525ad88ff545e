//! Texts the interface shows for profiles and for what the wizard detected.
use vstd::prelude::*;
use crate::config::{ClickMode, TriggerType};
use crate::profiles::Profile;
use crate::text::{decimal_digits, decimal_text};

verus! {

/// The label of a click mode.
pub open spec fn click_mode_label(mode: ClickMode) -> Seq<char> {
    match mode {
        ClickMode::Humanized => "Humanizado"@,
        ClickMode::Fixed => "Fixo"@,
        ClickMode::DoubleClick => "Duplo Clique"@,
    }
}

/// The label of a trigger type.
pub open spec fn trigger_type_label(trigger: TriggerType) -> Seq<char> {
    match trigger {
        TriggerType::Hold => "Segurar"@,
        TriggerType::Toggle => "Alternar"@,
    }
}

fn click_mode_text(mode: ClickMode) -> (label: &'static str)
    ensures
        label@ == click_mode_label(mode),
{
    match mode {
        ClickMode::Humanized => "Humanizado",
        ClickMode::Fixed => "Fixo",
        ClickMode::DoubleClick => "Duplo Clique",
    }
}

fn trigger_type_text(trigger: TriggerType) -> (label: &'static str)
    ensures
        label@ == trigger_type_label(trigger),
{
    match trigger {
        TriggerType::Hold => "Segurar",
        TriggerType::Toggle => "Alternar",
    }
}

/// The one-line summary of a profile: its rate and click mode, and its
/// trigger device and trigger type.
pub open spec fn profile_description(profile: Profile) -> Seq<char> {
    "⚡ "@ + decimal_digits(profile.config.target_cps as nat) + " CPS ("@ + click_mode_label(
        profile.config.click_mode,
    ) + ") • Gatilho: "@ + profile.config.trigger_device_name@ + " ("@ + trigger_type_label(
        profile.config.trigger_type,
    ) + ")"@
}

/// The one-line summary of a profile.
pub fn format_profile_desc(profile: &Profile) -> (description: String)
    ensures
        description@ == profile_description(*profile),
{
    let mut description = String::from_str("⚡ ");
    let rate = decimal_text(profile.config.target_cps as u64);
    description.append(rate.as_str());
    description.append(" CPS (");
    description.append(click_mode_text(profile.config.click_mode));
    description.append(") • Gatilho: ");
    description.append(profile.config.trigger_device_name.as_str());
    description.append(" (");
    description.append(trigger_type_text(profile.config.trigger_type));
    description.append(")");
    description
}

/// What the wizard shows for a detected action key.
pub open spec fn action_label(key_code: u16) -> Seq<char> {
    "Código da Tecla/Botão: "@ + decimal_digits(key_code as nat)
}

/// What the wizard shows for a detected trigger on a device.
pub open spec fn trigger_label(device_name: Seq<char>, key_code: u16) -> Seq<char> {
    device_name + " (Código "@ + decimal_digits(key_code as nat) + ")"@
}

/// What the wizard shows for a detected action key.
pub fn format_action_label(key_code: u16) -> (label: String)
    ensures
        label@ == action_label(key_code),
{
    let mut label = String::from_str("Código da Tecla/Botão: ");
    let code = decimal_text(key_code as u64);
    label.append(code.as_str());
    label
}

/// What the wizard shows for a detected trigger on a device.
pub fn format_trigger_label(device_name: &str, key_code: u16) -> (label: String)
    ensures
        label@ == trigger_label(device_name@, key_code),
{
    let mut label = String::from_str(device_name);
    label.append(" (Código ");
    let code = decimal_text(key_code as u64);
    label.append(code.as_str());
    label.append(")");
    label
}

} // verus!
