//! The configuration snapshot that the control loop reads once per tick and
//! that its owner replaces as a whole.
//!
//! The analog tuning values are single-precision numbers. The library stores
//! and replaces them but never computes on them, so it carries each one as its
//! IEEE-754 bit pattern; the host turns a pattern back into a number where it
//! runs the analog stages.

use crate::text::join;
use vstd::prelude::*;

verus! {

/// Bit pattern of the default pointer sensitivity, 60.
pub const DEFAULT_MOUSE_SENSITIVITY_BITS: u32 = 0x4270_0000;

/// Bit pattern of the default dead zone, 0.03.
pub const DEFAULT_DEAD_ZONE_BITS: u32 = 0x3cf5_c28f;

/// Bit pattern of the default scroll sensitivity, 3.
pub const DEFAULT_SCROLL_SENSITIVITY_BITS: u32 = 0x4040_0000;

/// Bit pattern of the default acceleration exponent, 1.4.
pub const DEFAULT_MOUSE_ACCELERATION_BITS: u32 = 0x3fb3_3333;

/// Settings of the control loop.
#[derive(Debug, PartialEq, Eq)]
pub struct Config {
    /// Pointer sensitivity, as a bit pattern.
    pub mouse_sensitivity: u32,
    /// Stick deflection below which input is ignored, as a bit pattern.
    pub dead_zone: u32,
    /// Scroll sensitivity, as a bit pattern.
    pub scroll_sensitivity: u32,
    /// Exponent of the pointer response curve, as a bit pattern.
    pub mouse_acceleration: u32,
    /// Name of the button bound to the left pointer button.
    pub left_click_button: String,
    /// Name of the button bound to the right pointer button.
    pub right_click_button: String,
    /// Name of the button bound to the middle pointer button.
    pub middle_click_button: String,
    /// Name of the button bound to a double click of the left pointer button.
    pub double_click_button: String,
    /// Whether horizontal pointer motion is mirrored.
    pub invert_x_axis: bool,
    /// Whether vertical pointer motion is mirrored.
    pub invert_y_axis: bool,
    /// Whether the left stick moves the pointer; the other stick then scrolls.
    pub use_left_stick_for_mouse: bool,
    /// Name of the button that slows the pointer while held.
    pub precision_mode_button: String,
    /// Name of the button that speeds the pointer up while held.
    pub turbo_mode_button: String,
    /// Whether the host starts without showing its window.
    pub start_minimized: bool,
    /// Whether the host starts together with the system.
    pub start_with_system: bool,
    /// Whether the host shows notifications.
    pub show_notification: bool,
}

/// What a configuration holds, with each binding as a sequence of characters.
pub struct ConfigView {
    pub mouse_sensitivity: u32,
    pub dead_zone: u32,
    pub scroll_sensitivity: u32,
    pub mouse_acceleration: u32,
    pub left_click_button: Seq<char>,
    pub right_click_button: Seq<char>,
    pub middle_click_button: Seq<char>,
    pub double_click_button: Seq<char>,
    pub invert_x_axis: bool,
    pub invert_y_axis: bool,
    pub use_left_stick_for_mouse: bool,
    pub precision_mode_button: Seq<char>,
    pub turbo_mode_button: Seq<char>,
    pub start_minimized: bool,
    pub start_with_system: bool,
    pub show_notification: bool,
}

impl ConfigView {
    /// The settings of a fresh installation.
    pub open spec fn defaults() -> ConfigView {
        ConfigView {
            mouse_sensitivity: DEFAULT_MOUSE_SENSITIVITY_BITS,
            dead_zone: DEFAULT_DEAD_ZONE_BITS,
            scroll_sensitivity: DEFAULT_SCROLL_SENSITIVITY_BITS,
            mouse_acceleration: DEFAULT_MOUSE_ACCELERATION_BITS,
            left_click_button: "South"@,
            right_click_button: "East"@,
            middle_click_button: "West"@,
            double_click_button: "North"@,
            invert_x_axis: false,
            invert_y_axis: false,
            use_left_stick_for_mouse: true,
            precision_mode_button: "LeftTrigger2"@,
            turbo_mode_button: "RightTrigger2"@,
            start_minimized: false,
            start_with_system: false,
            show_notification: true,
        }
    }
}

impl View for Config {
    type V = ConfigView;

    open spec fn view(&self) -> ConfigView {
        ConfigView {
            mouse_sensitivity: self.mouse_sensitivity,
            dead_zone: self.dead_zone,
            scroll_sensitivity: self.scroll_sensitivity,
            mouse_acceleration: self.mouse_acceleration,
            left_click_button: self.left_click_button@,
            right_click_button: self.right_click_button@,
            middle_click_button: self.middle_click_button@,
            double_click_button: self.double_click_button@,
            invert_x_axis: self.invert_x_axis,
            invert_y_axis: self.invert_y_axis,
            use_left_stick_for_mouse: self.use_left_stick_for_mouse,
            precision_mode_button: self.precision_mode_button@,
            turbo_mode_button: self.turbo_mode_button@,
            start_minimized: self.start_minimized,
            start_with_system: self.start_with_system,
            show_notification: self.show_notification,
        }
    }
}

impl Default for Config {
    /// The settings of a fresh installation.
    fn default() -> (config: Self)
        ensures
            config@ == ConfigView::defaults(),
    {
        Config {
            mouse_sensitivity: DEFAULT_MOUSE_SENSITIVITY_BITS,
            dead_zone: DEFAULT_DEAD_ZONE_BITS,
            scroll_sensitivity: DEFAULT_SCROLL_SENSITIVITY_BITS,
            mouse_acceleration: DEFAULT_MOUSE_ACCELERATION_BITS,
            left_click_button: "South".to_owned(),
            right_click_button: "East".to_owned(),
            middle_click_button: "West".to_owned(),
            double_click_button: "North".to_owned(),
            invert_x_axis: false,
            invert_y_axis: false,
            use_left_stick_for_mouse: true,
            precision_mode_button: "LeftTrigger2".to_owned(),
            turbo_mode_button: "RightTrigger2".to_owned(),
            start_minimized: false,
            start_with_system: false,
            show_notification: true,
        }
    }
}

impl Clone for Config {
    /// A copy with the same settings.
    fn clone(&self) -> (copy: Self)
        ensures
            copy@ == self@,
    {
        Config {
            mouse_sensitivity: self.mouse_sensitivity,
            dead_zone: self.dead_zone,
            scroll_sensitivity: self.scroll_sensitivity,
            mouse_acceleration: self.mouse_acceleration,
            left_click_button: self.left_click_button.clone(),
            right_click_button: self.right_click_button.clone(),
            middle_click_button: self.middle_click_button.clone(),
            double_click_button: self.double_click_button.clone(),
            invert_x_axis: self.invert_x_axis,
            invert_y_axis: self.invert_y_axis,
            use_left_stick_for_mouse: self.use_left_stick_for_mouse,
            precision_mode_button: self.precision_mode_button.clone(),
            turbo_mode_button: self.turbo_mode_button.clone(),
            start_minimized: self.start_minimized,
            start_with_system: self.start_with_system,
            show_notification: self.show_notification,
        }
    }
}

/// Where the settings are kept, below the directory `base`.
pub open spec fn config_path_in(base: Seq<char>) -> Seq<char> {
    base + "/gamepad-mouse-control/config.json"@
}

/// The path of the settings file below the directory `base`.
pub fn config_path(base: &str) -> (path: String)
    ensures
        path@ == config_path_in(base@),
{
    join(base, "/gamepad-mouse-control/config.json")
}

/// The step of saving the settings that failed, with the reason that the host
/// was given.
#[derive(Debug, PartialEq, Eq)]
pub enum SaveFailure {
    /// The directory of the settings file could not be created.
    CreateDirectory(String),
    /// The settings file could not be written.
    WriteFile(String),
    /// The settings could not be turned into text.
    Serialize(String),
}

impl SaveFailure {
    /// The message for the failed step, ending in the host's reason.
    pub open spec fn message_of(self) -> Seq<char> {
        match self {
            SaveFailure::CreateDirectory(reason) => "无法创建配置目录: "@ + reason@,
            SaveFailure::WriteFile(reason) => "无法写入配置文件: "@ + reason@,
            SaveFailure::Serialize(reason) => "配置序列化失败: "@ + reason@,
        }
    }

    /// The message that the caller of a failed save is given.
    pub fn message(&self) -> (text: String)
        ensures
            text@ == self.message_of(),
    {
        match self {
            SaveFailure::CreateDirectory(reason) => join("无法创建配置目录: ", reason.as_str()),
            SaveFailure::WriteFile(reason) => join("无法写入配置文件: ", reason.as_str()),
            SaveFailure::Serialize(reason) => join("配置序列化失败: ", reason.as_str()),
        }
    }
}

impl Config {
    /// The settings to run with, given what was read from the settings file:
    /// the stored settings where the file was found and could be read, and the
    /// defaults otherwise.
    pub fn load(stored: Option<Config>) -> (config: Config)
        ensures
            config@ == match stored {
                Some(found) => found@,
                None => ConfigView::defaults(),
            },
    {
        match stored {
            Some(found) => found,
            None => Config::default(),
        }
    }

    /// The path of the settings file below the platform's configuration
    /// directory, where the platform names one.
    pub fn get_config_path() -> (path: Option<String>)
        ensures
            path matches Some(text) ==> exists|base: Seq<char>| text@ == config_path_in(base),
    {
        match platform_config_dir() {
            Some(base) => Some(config_path(base.as_str())),
            None => None,
        }
    }
}

/// The user's configuration directory as `dirs::config_dir` finds it, with its
/// path turned into text. Nothing is claimed of the result: it depends on the
/// platform and on the environment of the process.
#[verifier::external_body]
fn platform_config_dir() -> (dir: Option<String>) {
    match dirs::config_dir() {
        Some(path) => Some(path.to_string_lossy().to_string()),
        None => None,
    }
}

} // verus!
