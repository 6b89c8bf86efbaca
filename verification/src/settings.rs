//! The capture configuration and the store through which it is shared.

use crate::device::{get_rgb_size, reconnect_device, reconnect_ops, rgb_size_of, DeviceOp};
use crate::downscale::DownscaleMethod;
use vstd::prelude::*;

verus! {

/// The configuration that one iteration of the capture loop works from.
#[derive(Debug)]
pub struct CaptureSettings {
    /// Which display to sample.
    pub screen_index: usize,
    pub downscale_method: DownscaleMethod,
    /// Target number of frames per second.
    pub capture_frame_limit: u32,
    /// Dim very bright scenes.
    pub reduce_bright_effects: bool,
    /// Correct the red and blue channels.
    pub red_shift_fix: bool,
    /// Show the W, A, S and D keys in pure red.
    pub highlight_wasd: bool,
    /// Brightness in percent.
    pub brightness: u8,
    /// Model name of the device in use.
    pub device_name: String,
    /// LED grid of the device as `(width, height)`; `(0, 0)` while unknown.
    pub rgb_size: (u32, u32),
    /// Publish each downscaled frame as a preview.
    pub display_rgb_preview: bool,
}

/// The mathematical content of [`CaptureSettings`].
pub struct SettingsView {
    pub screen_index: usize,
    pub downscale_method: DownscaleMethod,
    pub capture_frame_limit: u32,
    pub reduce_bright_effects: bool,
    pub red_shift_fix: bool,
    pub highlight_wasd: bool,
    pub brightness: u8,
    pub device_name: Seq<char>,
    pub rgb_size: (u32, u32),
    pub display_rgb_preview: bool,
}

impl View for CaptureSettings {
    type V = SettingsView;

    open spec fn view(&self) -> SettingsView {
        SettingsView {
            screen_index: self.screen_index,
            downscale_method: self.downscale_method,
            capture_frame_limit: self.capture_frame_limit,
            reduce_bright_effects: self.reduce_bright_effects,
            red_shift_fix: self.red_shift_fix,
            highlight_wasd: self.highlight_wasd,
            brightness: self.brightness,
            device_name: self.device_name@,
            rgb_size: self.rgb_size,
            display_rgb_preview: self.display_rgb_preview,
        }
    }
}

impl SettingsView {
    /// The settings that hold before anything was configured: the first
    /// display, the triangle filter, ten frames per second, full brightness,
    /// every effect off, no device.
    pub open spec fn initial() -> SettingsView {
        SettingsView {
            screen_index: 0,
            downscale_method: DownscaleMethod::Triangle,
            capture_frame_limit: 10,
            reduce_bright_effects: false,
            red_shift_fix: false,
            highlight_wasd: false,
            brightness: 100,
            device_name: Seq::empty(),
            rgb_size: (0u32, 0u32),
            display_rgb_preview: false,
        }
    }

    /// Whether the device is resolved: neither side of its grid is zero.
    pub open spec fn device_resolved(self) -> bool {
        self.rgb_size.0 != 0 && self.rgb_size.1 != 0
    }

    /// These settings bound to the device with the given model name. A model
    /// that the geometry table does not hold leaves the grid at `(0, 0)`.
    pub open spec fn with_device(self, model_name: Seq<char>) -> SettingsView {
        SettingsView {
            device_name: model_name,
            rgb_size: match rgb_size_of(model_name) {
                Some(size) => size,
                None => (0u32, 0u32),
            },
            ..self
        }
    }
}

impl CaptureSettings {
    /// A copy of the settings.
    pub fn snapshot(&self) -> (out: CaptureSettings)
        ensures
            out@ == self@,
    {
        CaptureSettings {
            screen_index: self.screen_index,
            downscale_method: self.downscale_method,
            capture_frame_limit: self.capture_frame_limit,
            reduce_bright_effects: self.reduce_bright_effects,
            red_shift_fix: self.red_shift_fix,
            highlight_wasd: self.highlight_wasd,
            brightness: self.brightness,
            device_name: self.device_name.clone(),
            rgb_size: self.rgb_size,
            display_rgb_preview: self.display_rgb_preview,
        }
    }

    /// Binds the settings to the device with the given model name.
    pub fn bind_device(&mut self, model_name: &str)
        ensures
            final(self)@ == old(self)@.with_device(model_name@),
    {
        self.device_name = model_name.to_owned();
        self.rgb_size = match get_rgb_size(model_name) {
            Some(size) => size,
            None => (0, 0),
        };
    }
}

impl Default for CaptureSettings {
    fn default() -> (out: CaptureSettings)
        ensures
            out@ == SettingsView::initial(),
    {
        CaptureSettings {
            screen_index: 0,
            downscale_method: DownscaleMethod::Triangle,
            capture_frame_limit: 10,
            reduce_bright_effects: false,
            red_shift_fix: false,
            highlight_wasd: false,
            brightness: 100,
            device_name: String::new(),
            rgb_size: (0, 0),
            display_rgb_preview: false,
        }
    }
}

/// The mathematical content of a [`SettingsStore`].
pub struct StoreView {
    pub settings: SettingsView,
    /// The settings changed since the loop last took them.
    pub dirty: bool,
    /// The loop must not touch the device.
    pub paused: bool,
}

impl StoreView {
    /// The store with its settings replaced.
    pub open spec fn updated(self, new: SettingsView) -> StoreView {
        StoreView { settings: new, ..self }
    }

    /// The store with the dirty flag set.
    pub open spec fn reload_requested(self) -> StoreView {
        StoreView { dirty: true, ..self }
    }

    /// The store with the dirty flag cleared.
    pub open spec fn reload_taken(self) -> StoreView {
        StoreView { dirty: false, ..self }
    }

    /// The store with the pause flag set.
    pub open spec fn paused_now(self) -> StoreView {
        StoreView { paused: true, ..self }
    }

    /// The store with the pause flag cleared.
    pub open spec fn resumed(self) -> StoreView {
        StoreView { paused: false, ..self }
    }

    /// The store after a device refresh found the given model: the settings
    /// are bound to it, the change is flagged, and the pause flag is cleared.
    pub open spec fn refreshed(self, model_name: Seq<char>) -> StoreView {
        StoreView { settings: self.settings.with_device(model_name), dirty: true, paused: false }
    }
}

/// The register shared between the capture loop and whoever configures it:
/// the settings, a flag that says they changed, and a pause flag that keeps the
/// loop off the device. The last write wins.
#[derive(Debug)]
pub struct SettingsStore {
    settings: CaptureSettings,
    dirty: bool,
    paused: bool,
}

impl View for SettingsStore {
    type V = StoreView;

    closed spec fn view(&self) -> StoreView {
        StoreView { settings: self.settings@, dirty: self.dirty, paused: self.paused }
    }
}

impl SettingsStore {
    /// A store with the initial settings, nothing to reload, and the pause flag
    /// set: the loop waits until it is resumed.
    pub fn new() -> (out: SettingsStore)
        ensures
            out@ == (StoreView { settings: SettingsView::initial(), dirty: false, paused: true }),
    {
        SettingsStore { settings: CaptureSettings::default(), dirty: false, paused: true }
    }

    /// Replaces the settings. The flags stay as they are.
    pub fn update_settings(&mut self, new: CaptureSettings)
        ensures
            final(self)@ == old(self)@.updated(new@),
    {
        self.settings = new;
    }

    /// Flags the settings as changed.
    pub fn request_reload(&mut self)
        ensures
            final(self)@ == old(self)@.reload_requested(),
    {
        self.dirty = true;
    }

    /// Whether the settings changed since they were last taken.
    pub fn is_dirty(&self) -> (out: bool)
        ensures
            out == self@.dirty,
    {
        self.dirty
    }

    /// Clears the flag that says the settings changed.
    pub fn clear_dirty(&mut self)
        ensures
            final(self)@ == old(self)@.reload_taken(),
    {
        self.dirty = false;
    }

    /// Sets the pause flag: the loop does nothing but wait from its next iteration on.
    pub fn pause_capture(&mut self)
        ensures
            final(self)@ == old(self)@.paused_now(),
    {
        self.paused = true;
    }

    /// Clears the pause flag.
    pub fn resume_capture(&mut self)
        ensures
            final(self)@ == old(self)@.resumed(),
    {
        self.paused = false;
    }

    /// Whether the pause flag is set.
    pub fn is_paused(&self) -> (out: bool)
        ensures
            out == self@.paused,
    {
        self.paused
    }

    /// The settings as they stand.
    pub fn settings(&self) -> (out: &CaptureSettings)
        ensures
            out@ == self@.settings,
    {
        &self.settings
    }

    /// Takes the settings if they changed: a copy of them, with the flag
    /// cleared, or `None` and nothing changed.
    pub fn take_reload(&mut self) -> (out: Option<CaptureSettings>)
        ensures
            out is Some <==> old(self)@.dirty,
            out matches Some(taken) ==> taken@ == old(self)@.settings,
            final(self)@ == old(self)@.reload_taken(),
    {
        if self.dirty {
            self.dirty = false;
            Some(self.settings.snapshot())
        } else {
            None
        }
    }

    /// Binds the stored settings to a device. The flags stay as they are.
    pub fn bind_device(&mut self, model_name: &str)
        ensures
            final(self)@ == old(self)@.updated(old(self)@.settings.with_device(model_name@)),
    {
        self.settings.bind_device(model_name);
    }

    /// Starts a device refresh from outside the loop: sets the pause flag and
    /// returns the operations of a reconnect.
    pub fn begin_device_refresh(&mut self) -> (ops: Vec<DeviceOp>)
        ensures
            final(self)@ == old(self)@.paused_now(),
            ops@ == reconnect_ops(),
    {
        self.paused = true;
        reconnect_device()
    }

    /// Ends a device refresh: binds the settings to the model that was found,
    /// flags them as changed, and clears the pause flag.
    pub fn end_device_refresh(&mut self, model_name: &str)
        ensures
            final(self)@ == old(self)@.refreshed(model_name@),
    {
        self.settings.bind_device(model_name);
        self.dirty = true;
        self.paused = false;
    }
}

} // verus!
