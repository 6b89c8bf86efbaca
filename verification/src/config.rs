//! The persisted configuration as a value: its defaults, the version it must
//! carry, and how one change is applied to it. Reading and writing the file
//! is left to the caller.

use crate::downscale::{
    downscale_index_to_filter, filter_to_downscale_index, index_of_method, method_of_index,
    DownscaleMethod,
};
use crate::settings::{CaptureSettings, SettingsView};
use vstd::prelude::*;

verus! {

/// The version of the configuration format that this crate reads and writes.
pub const CONFIG_VERSION: u8 = 3;

/// The persisted configuration.
#[derive(Clone, Copy, Debug, PartialEq, Eq)]
pub struct Config {
    pub config_version: u8,
    pub brightness: u8,
    pub reduce_bright_effects: bool,
    pub screen: usize,
    pub display_rgb_preview: bool,
    pub downscale_method_index: u8,
    /// Frames per second of the interface and of the capture loop.
    pub frame_limit: (u8, u8),
    pub red_shift_fix: bool,
    pub highlight_wasd: bool,
    pub dark_mode: bool,
    pub check_updates: bool,
}

/// One change to the persisted configuration.
#[derive(Debug)]
pub enum ConfigChange {
    MultipleConfigOptions(Vec<ConfigChange>),
    AllConfigOptions(Config),
    Brightness(u8),
    ReduceBrightEffects(bool),
    Screen(usize),
    DisplayRgbPreview(bool),
    DownscaleMethod(DownscaleMethod),
    FrameLimit((u8, u8)),
    RedShiftFix(bool),
    HighlightWASD(bool),
    Darkmode(bool),
    CheckUpdates(bool),
}

/// The configuration of a first start.
pub open spec fn default_config() -> Config {
    Config {
        config_version: 3,
        brightness: 100,
        reduce_bright_effects: false,
        screen: 0,
        display_rgb_preview: true,
        downscale_method_index: 1,
        frame_limit: (60u8, 15u8),
        red_shift_fix: false,
        highlight_wasd: false,
        dark_mode: true,
        check_updates: true,
    }
}

/// Builds the configuration of a first start.
pub fn gen_config() -> (out: Config)
    ensures
        out == default_config(),
{
    Config {
        config_version: CONFIG_VERSION,
        brightness: 100,
        reduce_bright_effects: false,
        screen: 0,
        display_rgb_preview: true,
        downscale_method_index: 1,
        frame_limit: (60, 15),
        red_shift_fix: false,
        highlight_wasd: false,
        dark_mode: true,
        check_updates: true,
    }
}

/// Accepts what was read from the configuration file: `None` where nothing
/// could be read, or where it carries another version than
/// [`CONFIG_VERSION`].
pub fn read_config(loaded: Option<Config>) -> (out: Option<Config>)
    ensures
        out == match loaded {
            Some(config) if config.config_version == 3 => Some(config),
            _ => None,
        },
{
    match loaded {
        Some(config) => {
            if config.config_version == CONFIG_VERSION {
                Some(config)
            } else {
                None
            }
        },
        None => None,
    }
}

/// The configuration to write after one change to `data`. A list of changes
/// leaves `data` as it is: each change of the list is saved on its own.
pub open spec fn changed(data: Config, change: ConfigChange) -> Config {
    match change {
        ConfigChange::MultipleConfigOptions(_) => data,
        ConfigChange::AllConfigOptions(all) => all,
        ConfigChange::Brightness(x) => Config { brightness: x, ..data },
        ConfigChange::ReduceBrightEffects(x) => Config { reduce_bright_effects: x, ..data },
        ConfigChange::Screen(x) => Config { screen: x, ..data },
        ConfigChange::DisplayRgbPreview(x) => Config { display_rgb_preview: x, ..data },
        ConfigChange::DownscaleMethod(x) => Config {
            downscale_method_index: index_of_method(x),
            ..data
        },
        ConfigChange::FrameLimit(x) => Config { frame_limit: x, ..data },
        ConfigChange::RedShiftFix(x) => Config { red_shift_fix: x, ..data },
        ConfigChange::HighlightWASD(x) => Config { highlight_wasd: x, ..data },
        ConfigChange::Darkmode(x) => Config { dark_mode: x, ..data },
        ConfigChange::CheckUpdates(x) => Config { check_updates: x, ..data },
    }
}

/// Applies one change to the configuration that was read, and returns the
/// configuration to write.
///
/// For a list of changes the caller saves each change of the list on its
/// own, in order, and then writes what this function returns: the
/// configuration as it was read before the list.
pub fn save_config_option(data: Config, new: &ConfigChange) -> (out: Config)
    ensures
        out == changed(data, *new),
{
    let mut data = data;
    match new {
        ConfigChange::MultipleConfigOptions(_) => {},
        ConfigChange::AllConfigOptions(x) => data = *x,
        ConfigChange::Brightness(x) => data.brightness = *x,
        ConfigChange::ReduceBrightEffects(x) => data.reduce_bright_effects = *x,
        ConfigChange::Screen(x) => data.screen = *x,
        ConfigChange::DisplayRgbPreview(x) => data.display_rgb_preview = *x,
        ConfigChange::DownscaleMethod(x) => data.downscale_method_index =
            filter_to_downscale_index(*x),
        ConfigChange::FrameLimit(x) => data.frame_limit = *x,
        ConfigChange::RedShiftFix(x) => data.red_shift_fix = *x,
        ConfigChange::HighlightWASD(x) => data.highlight_wasd = *x,
        ConfigChange::Darkmode(x) => data.dark_mode = *x,
        ConfigChange::CheckUpdates(x) => data.check_updates = *x,
    }
    data
}

/// The capture settings that a configuration and a device amount to. A
/// device without a known grid gives the grid `(0, 0)`.
pub open spec fn settings_of(
    config: Config,
    device_name: Seq<char>,
    rgb_size: Option<(u32, u32)>,
) -> SettingsView {
    SettingsView {
        screen_index: config.screen,
        downscale_method: method_of_index(config.downscale_method_index),
        capture_frame_limit: config.frame_limit.1 as u32,
        reduce_bright_effects: config.reduce_bright_effects,
        red_shift_fix: config.red_shift_fix,
        highlight_wasd: config.highlight_wasd,
        brightness: config.brightness,
        device_name,
        rgb_size: match rgb_size {
            Some(size) => size,
            None => (0u32, 0u32),
        },
        display_rgb_preview: config.display_rgb_preview,
    }
}

/// Builds the capture settings for a configuration and a device.
pub fn capture_settings(config: &Config, device_name: &str, rgb_size: Option<(u32, u32)>) -> (out:
    CaptureSettings)
    ensures
        out@ == settings_of(*config, device_name@, rgb_size),
{
    CaptureSettings {
        screen_index: config.screen,
        downscale_method: downscale_index_to_filter(config.downscale_method_index),
        capture_frame_limit: config.frame_limit.1 as u32,
        reduce_bright_effects: config.reduce_bright_effects,
        red_shift_fix: config.red_shift_fix,
        highlight_wasd: config.highlight_wasd,
        brightness: config.brightness,
        device_name: device_name.to_owned(),
        rgb_size: match rgb_size {
            Some(size) => size,
            None => (0, 0),
        },
        display_rgb_preview: config.display_rgb_preview,
    }
}

/// The configuration of a first start is accepted when it is read back.
pub proof fn lemma_default_is_accepted()
    ensures
        default_config().config_version == 3,
        method_of_index(default_config().downscale_method_index) == DownscaleMethod::Triangle,
{
}

/// A change touches only what it names: applying the same change twice is
/// the same as applying it once, and no change but a full replacement
/// touches the version.
pub proof fn lemma_change_is_idempotent(data: Config, change: ConfigChange)
    ensures
        changed(changed(data, change), change) == changed(data, change),
        !(change is AllConfigOptions) ==> changed(data, change).config_version
            == data.config_version,
{
}

} // verus!
