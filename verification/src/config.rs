use vstd::prelude::*;

verus! {

/// How a runner spaces and shapes its clicks.
#[derive(Debug, Clone, Copy, PartialEq, Eq, Structural)]
pub enum ClickMode {
    /// Statistically jittered intervals with occasional longer pauses.
    Humanized,
    /// A constant interval derived from the target clicks per second.
    Fixed,
    /// Two clicks per cycle, separated by a configurable delay.
    DoubleClick,
}

/// How the trigger key switches clicking on and off.
#[derive(Debug, Clone, Copy, PartialEq, Eq, Structural)]
pub enum TriggerType {
    /// Click while the trigger is held down.
    Hold,
    /// Each press of the trigger flips clicking on or off.
    Toggle,
}

/// Key code of the left mouse button.
pub const BTN_LEFT: u16 = 272;

/// Key code of the side mouse button (often labelled M4).
pub const BTN_SIDE: u16 = 275;

/// One profile's configuration: which key to repeat on which device,
/// which key triggers it, and at what pace.
#[derive(Debug)]
pub struct AppConfig {
    pub target_device_path: Option<String>,
    pub target_device_name: String,
    pub target_action_code: u16,
    pub trigger_device_path: Option<String>,
    pub trigger_device_name: String,
    pub trigger_code: u16,
    pub click_mode: ClickMode,
    pub trigger_type: TriggerType,
    pub target_cps: u32,
    pub double_click_delay_ms: u64,
}

/// The device name shown when no particular device is chosen.
pub open spec fn any_device_name() -> Seq<char> {
    seq!['Q', 'u', 'a', 'l', 'q', 'u', 'e', 'r']
}

impl AppConfig {
    /// The configuration a new profile starts from: any device, left button
    /// as the action, side button as a hold trigger, ten humanized clicks per
    /// second and a thirty millisecond gap inside double clicks.
    pub open spec fn is_default(self) -> bool {
        &&& self.target_device_path is None
        &&& self.target_device_name@ == any_device_name()
        &&& self.target_action_code == BTN_LEFT
        &&& self.trigger_device_path is None
        &&& self.trigger_device_name@ == any_device_name()
        &&& self.trigger_code == BTN_SIDE
        &&& self.click_mode == ClickMode::Humanized
        &&& self.trigger_type == TriggerType::Hold
        &&& self.target_cps == 10
        &&& self.double_click_delay_ms == 30
    }
}

pub fn clone_optional_text(text: &Option<String>) -> (copy: Option<String>)
    ensures
        copy == *text,
{
    match text {
        Some(s) => Some(s.clone()),
        None => None,
    }
}

impl Clone for AppConfig {
    fn clone(&self) -> (copy: Self)
        ensures
            copy == *self,
    {
        AppConfig {
            target_device_path: clone_optional_text(&self.target_device_path),
            target_device_name: self.target_device_name.clone(),
            target_action_code: self.target_action_code,
            trigger_device_path: clone_optional_text(&self.trigger_device_path),
            trigger_device_name: self.trigger_device_name.clone(),
            trigger_code: self.trigger_code,
            click_mode: self.click_mode,
            trigger_type: self.trigger_type,
            target_cps: self.target_cps,
            double_click_delay_ms: self.double_click_delay_ms,
        }
    }
}

impl Default for AppConfig {
    fn default() -> (config: Self)
        ensures
            config.is_default(),
    {
        let any = "Qualquer";
        proof {
            reveal_strlit("Qualquer");
            assert(any@ =~= any_device_name());
        }
        AppConfig {
            target_device_path: None,
            target_device_name: String::from_str(any),
            target_action_code: BTN_LEFT,
            trigger_device_path: None,
            trigger_device_name: String::from_str(any),
            trigger_code: BTN_SIDE,
            click_mode: ClickMode::Humanized,
            trigger_type: TriggerType::Hold,
            target_cps: 10,
            double_click_delay_ms: 30,
        }
    }
}

} // verus!
