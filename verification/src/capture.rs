//! The capture loop as a state machine: each call of [`capture`] takes what
//! just happened and says what to do next. The caller owns the waiting, the
//! screen and the device.

use crate::color::{guard_brightness, guarded_brightness, round_div, Rgb};
use crate::device::{
    draw_rgb, drawn, is_split_zone, reconnect_device, reconnect_ops, DeviceOp,
};
use crate::downscale::{average_color, downscale, resize_fits};
use crate::frame::{Frame, FrameView};
use crate::settings::{CaptureSettings, SettingsStore, SettingsView, StoreView};
use vstd::prelude::*;

verus! {

/// How long the loop waits before it looks at the pause flag again.
pub const PAUSE_POLL_MILLIS: u64 = 10;

/// Milliseconds between two frames at a frame limit: `1000 / limit` rounded
/// to the nearest integer. A limit of zero never comes round again.
pub open spec fn frame_interval(limit: u32) -> int {
    if limit == 0 {
        u64::MAX as int
    } else {
        round_div(1000, limit as int)
    }
}

/// Milliseconds to sleep at the end of an iteration: the frame interval less
/// one millisecond of margin, and nothing where the interval is shorter.
pub open spec fn pacing(limit: u32) -> u64 {
    if frame_interval(limit) >= 1 {
        (frame_interval(limit) - 1) as u64
    } else {
        0
    }
}

/// Computes [`pacing`].
pub fn pace_millis(limit: u32) -> (out: u64)
    ensures
        out == pacing(limit),
{
    if limit == 0 {
        u64::MAX - 1
    } else {
        let interval: u64 = (2000 + limit as u64) / (2 * limit as u64);
        if interval >= 1 {
            interval - 1
        } else {
            0
        }
    }
}

/// The mathematical content of a [`CaptureLoop`].
pub struct LoopView {
    /// The snapshot of the settings that the loop works from.
    pub working: SettingsView,
    /// The frame captured last.
    pub last_frame: FrameView,
}

/// What the loop is doing, as seen from outside.
#[derive(Clone, Copy, Debug, PartialEq, Eq, Structural)]
pub enum LoopMode {
    /// The pause flag is set: the loop only waits.
    Paused,
    /// The device is resolved: the loop draws.
    Normal,
    /// The grid of the device is unknown: the loop tries to reconnect.
    DeviceMissing,
}

/// The mode of a loop beside a store.
pub open spec fn mode_of(state: LoopView, store: StoreView) -> LoopMode {
    if store.paused {
        LoopMode::Paused
    } else if state.working.device_resolved() {
        LoopMode::Normal
    } else {
        LoopMode::DeviceMissing
    }
}

/// What happened since the loop last decided.
#[derive(Debug)]
pub enum LoopEvent {
    /// An iteration starts.
    Tick,
    /// The screen was captured.
    Captured(Frame),
    /// The screen could not be captured.
    CaptureFailed,
    /// A reconnect ended and the device gave this model name.
    DeviceFound(String),
}

/// The mathematical content of a [`LoopEvent`].
pub enum EventView {
    Tick,
    Captured(FrameView),
    CaptureFailed,
    DeviceFound(Seq<char>),
}

impl View for LoopEvent {
    type V = EventView;

    open spec fn view(&self) -> EventView {
        match self {
            LoopEvent::Tick => EventView::Tick,
            LoopEvent::Captured(frame) => EventView::Captured(frame@),
            LoopEvent::CaptureFailed => EventView::CaptureFailed,
            LoopEvent::DeviceFound(name) => EventView::DeviceFound(name@),
        }
    }
}

/// What the caller does next. After `Poll`, `Sleep` and `Draw` the next event
/// is `Tick`; after `Capture` it is `Captured` or `CaptureFailed`; after
/// `Reconnect` it is `DeviceFound`.
#[derive(Debug)]
pub enum LoopAction {
    /// The pause flag is set: wait, then start over.
    Poll { millis: u64 },
    /// Capture the display with this index.
    Capture { screen_index: usize },
    /// Nothing to draw: wait out the frame.
    Sleep { millis: u64 },
    /// Publish the preview if there is one, run the operations on the
    /// device, then wait out the frame.
    Draw { ops: Vec<DeviceOp>, preview: Option<Frame>, millis: u64 },
    /// Publish the preview if there is one, run the operations on the
    /// device and report the model name that it gives.
    Reconnect { ops: Vec<DeviceOp>, preview: Option<Frame> },
}

/// The mathematical content of a [`LoopAction`].
pub enum ActionView {
    Poll { millis: u64 },
    Capture { screen_index: usize },
    Sleep { millis: u64 },
    Draw { ops: Seq<DeviceOp>, preview: Option<FrameView>, millis: u64 },
    Reconnect { ops: Seq<DeviceOp>, preview: Option<FrameView> },
}

/// The view of an optional frame.
pub open spec fn preview_view(preview: Option<Frame>) -> Option<FrameView> {
    match preview {
        Some(frame) => Some(frame@),
        None => None,
    }
}

impl View for LoopAction {
    type V = ActionView;

    open spec fn view(&self) -> ActionView {
        match self {
            LoopAction::Poll { millis } => ActionView::Poll { millis: *millis },
            LoopAction::Capture { screen_index } => ActionView::Capture {
                screen_index: *screen_index,
            },
            LoopAction::Sleep { millis } => ActionView::Sleep { millis: *millis },
            LoopAction::Draw { ops, preview, millis } => ActionView::Draw {
                ops: ops@,
                preview: preview_view(*preview),
                millis: *millis,
            },
            LoopAction::Reconnect { ops, preview } => ActionView::Reconnect {
                ops: ops@,
                preview: preview_view(*preview),
            },
        }
    }
}

impl ActionView {
    /// The operations that an action runs on the device.
    pub open spec fn device_ops(self) -> Seq<DeviceOp> {
        match self {
            ActionView::Draw { ops, .. } => ops,
            ActionView::Reconnect { ops, .. } => ops,
            _ => Seq::empty(),
        }
    }
}

/// The start of an iteration. A set pause flag leaves everything as it is and asks
/// to look again shortly. Otherwise the loop takes the stored settings if
/// they changed, clears the flag, and asks for a capture of the display that
/// its snapshot names.
pub open spec fn tick_of(state: LoopView, store: StoreView) -> (LoopView, StoreView, ActionView) {
    if store.paused {
        (state, store, ActionView::Poll { millis: 10 })
    } else {
        let working = if store.dirty {
            store.settings
        } else {
            state.working
        };
        (
            LoopView { working, ..state },
            store.reload_taken(),
            ActionView::Capture { screen_index: working.screen_index },
        )
    }
}

/// The brightness that a frame is drawn with: the configured one, guarded by
/// the average of the frame where the guard is on and an average was found.
pub open spec fn frame_brightness(working: SettingsView, average: Option<Rgb>) -> u8 {
    match average {
        Some(scene) if working.reduce_bright_effects => guarded_brightness(
            scene,
            working.brightness,
        ),
        _ => working.brightness,
    }
}

/// What follows from a downscaled frame and its average: the preview is the
/// frame itself where previews are on; an unresolved device is reconnected,
/// a resolved one is drawn on.
pub open spec fn rendered(working: SettingsView, small: FrameView, average: Option<Rgb>) -> ActionView {
    let preview = if working.display_rgb_preview {
        Some(small)
    } else {
        None
    };
    if working.device_resolved() {
        ActionView::Draw {
            ops: drawn(
                small,
                frame_brightness(working, average),
                working.red_shift_fix,
                working.highlight_wasd,
                is_split_zone(working.device_name),
            ),
            preview,
            millis: pacing(working.capture_frame_limit),
        }
    } else {
        ActionView::Reconnect { ops: reconnect_ops(), preview }
    }
}

/// What a captured frame leads to, given what the resize gave back. A frame
/// equal to the last one changes nothing and is slept over. Any other frame
/// becomes the last frame; it is slept over if it could not be resized, and
/// rendered otherwise.
pub open spec fn frame_step(
    state: LoopView,
    frame: FrameView,
    small: Option<FrameView>,
    average: Option<Rgb>,
) -> (LoopView, ActionView) {
    if frame == state.last_frame {
        (state, ActionView::Sleep { millis: pacing(state.working.capture_frame_limit) })
    } else {
        let next = LoopView { last_frame: frame, ..state };
        match small {
            Some(grid) => (next, rendered(state.working, grid, average)),
            None => (next, ActionView::Sleep { millis: pacing(state.working.capture_frame_limit) }),
        }
    }
}

/// What a resize of `frame` for these settings can give back: a frame of the
/// size of the grid exactly when that size can be allocated, equal to `frame`
/// where the sizes agree; and an average exactly for a resized frame with
/// pixels that can itself be resized to one, the pixel itself where there is
/// only one.
pub open spec fn resize_outcome(
    frame: FrameView,
    working: SettingsView,
    small: Option<FrameView>,
    average: Option<Rgb>,
) -> bool {
    &&& small is Some <==> resize_fits(
        frame.width,
        working.rgb_size.0 as nat,
        working.rgb_size.1 as nat,
    )
    &&& small matches Some(grid) ==> {
        &&& grid.wf()
        &&& grid.width == working.rgb_size.0
        &&& grid.height == working.rgb_size.1
        &&& (frame.width == grid.width && frame.height == grid.height ==> grid == frame)
        &&& (average is Some <==> grid.nonempty() && resize_fits(grid.width, 1, 1))
        &&& (grid.width == 1 && grid.height == 1 ==> average == Some(grid.rgb_at(0, 0)))
    }
}

/// The end of a reconnect: the snapshot and the stored settings are both
/// bound to the model that was found, and the frame is slept out.
pub open spec fn found_of(state: LoopView, store: StoreView, model_name: Seq<char>) -> (
    LoopView,
    StoreView,
    ActionView,
) {
    (
        LoopView { working: state.working.with_device(model_name), ..state },
        store.updated(store.settings.with_device(model_name)),
        ActionView::Sleep { millis: pacing(state.working.capture_frame_limit) },
    )
}

/// What a captured frame turns the loop into and which action it asks for:
/// the step for one of the outcomes that the resize can have.
pub open spec fn captured_step(
    state: LoopView,
    frame: FrameView,
    next_state: LoopView,
    action: ActionView,
) -> bool {
    exists|small: Option<FrameView>, average: Option<Rgb>|
        {
            &&& resize_outcome(frame, state.working, small, average)
            &&& (next_state, action) == #[trigger] frame_step(state, frame, small, average)
        }
}

/// One step of the loop: what `event` turns the loop and the store into, and
/// which action it asks for.
pub open spec fn capture_step(
    state: LoopView,
    store: StoreView,
    event: EventView,
    next_state: LoopView,
    next_store: StoreView,
    action: ActionView,
) -> bool {
    match event {
        EventView::Tick => (next_state, next_store, action) == tick_of(state, store),
        EventView::Captured(frame) => next_store == store && captured_step(
            state,
            frame,
            next_state,
            action,
        ),
        EventView::CaptureFailed => {
            &&& next_state == state
            &&& next_store == store
            &&& action == ActionView::Sleep { millis: pacing(state.working.capture_frame_limit) }
        },
        EventView::DeviceFound(model_name) => (next_state, next_store, action) == found_of(
            state,
            store,
            model_name,
        ),
    }
}

/// The state that the capture loop keeps between iterations.
#[derive(Debug)]
pub struct CaptureLoop {
    working: CaptureSettings,
    last_frame: Frame,
}

impl View for CaptureLoop {
    type V = LoopView;

    closed spec fn view(&self) -> LoopView {
        LoopView { working: self.working@, last_frame: self.last_frame@ }
    }
}

/// Turns a downscaled frame and its average into the next action.
pub fn render(working: &CaptureSettings, small: Frame, average: Option<Rgb>) -> (action:
    LoopAction)
    ensures
        action@ == rendered(working@, small@, average),
{
    let resolved = working.rgb_size.0 != 0 && working.rgb_size.1 != 0;
    if resolved {
        let brightness = match average {
            Some(scene) => {
                if working.reduce_bright_effects {
                    guard_brightness(scene, working.brightness)
                } else {
                    working.brightness
                }
            },
            None => working.brightness,
        };
        let ops = draw_rgb(
            &small,
            brightness,
            working.red_shift_fix,
            working.highlight_wasd,
            working.device_name.as_str(),
        );
        let millis = pace_millis(working.capture_frame_limit);
        let preview = if working.display_rgb_preview {
            Some(small)
        } else {
            None
        };
        LoopAction::Draw { ops, preview, millis }
    } else {
        let ops = reconnect_device();
        let preview = if working.display_rgb_preview {
            Some(small)
        } else {
            None
        };
        LoopAction::Reconnect { ops, preview }
    }
}

impl CaptureLoop {
    /// A loop that has seen nothing yet: the initial settings with the given
    /// device name, and a blank last frame.
    pub fn new(device_name: &str) -> (out: CaptureLoop)
        ensures
            out@ == (LoopView {
                working: SettingsView { device_name: device_name@, ..SettingsView::initial() },
                last_frame: FrameView { width: 1, height: 1, pixels: seq![0u8, 0u8, 0u8, 0u8] },
            }),
    {
        let mut working = CaptureSettings::default();
        working.device_name = device_name.to_owned();
        CaptureLoop { working, last_frame: Frame::blank() }
    }

    /// The snapshot of the settings that the loop works from.
    pub fn working(&self) -> (out: &CaptureSettings)
        ensures
            out@ == self@.working,
    {
        &self.working
    }

    /// The frame captured last.
    pub fn last_frame(&self) -> (out: &Frame)
        ensures
            out@ == self@.last_frame,
    {
        &self.last_frame
    }

    /// What the loop is doing beside the given store.
    pub fn mode(&self, store: &SettingsStore) -> (out: LoopMode)
        ensures
            out == mode_of(self@, store@),
    {
        if store.is_paused() {
            LoopMode::Paused
        } else if self.working.rgb_size.0 != 0 && self.working.rgb_size.1 != 0 {
            LoopMode::Normal
        } else {
            LoopMode::DeviceMissing
        }
    }

    /// Starts an iteration.
    pub fn begin_iteration(&mut self, store: &mut SettingsStore) -> (action: LoopAction)
        ensures
            (final(self)@, final(store)@, action@) == tick_of(old(self)@, old(store)@),
    {
        if store.is_paused() {
            return LoopAction::Poll { millis: PAUSE_POLL_MILLIS };
        }
        match store.take_reload() {
            Some(taken) => {
                self.working = taken;
            },
            None => {},
        }
        LoopAction::Capture { screen_index: self.working.screen_index }
    }

    /// Takes a captured frame.
    pub fn on_frame(&mut self, frame: Frame) -> (action: LoopAction)
        ensures
            captured_step(old(self)@, frame@, final(self)@, action@),
    {
        let ghost before = self@;
        let ghost shot = frame@;
        let millis = pace_millis(self.working.capture_frame_limit);
        let (source_width, source_height) = frame.dimensions();
        let (width, height) = self.working.rgb_size;
        if frame.same_as(&self.last_frame) {
            proof {
                let fits = resize_fits(source_width as nat, width as nat, height as nat);
                let grid = if source_width == width && source_height == height {
                    shot
                } else {
                    FrameView {
                        width: width as nat,
                        height: height as nat,
                        pixels: Seq::new((width as nat) * (height as nat) * 4, |i: int| 0u8),
                    }
                };
                let small = if fits {
                    Some(grid)
                } else {
                    None
                };
                let average = if grid.nonempty() && resize_fits(grid.width, 1, 1) {
                    Some(grid.rgb_at(0, 0))
                } else {
                    None
                };
                assert(resize_outcome(shot, before.working, small, average));
                assert((self@, ActionView::Sleep { millis }) == frame_step(
                    before,
                    shot,
                    small,
                    average,
                ));
            }
            return LoopAction::Sleep { millis };
        }
        let resized = downscale(&frame, width, height, self.working.downscale_method);
        self.last_frame = frame;
        match resized {
            Some(small) => {
                let ghost grid = small@;
                let (small_width, small_height) = small.dimensions();
                let average = if small_width != 0 && small_height != 0 {
                    average_color(&small)
                } else {
                    None
                };
                let action = render(&self.working, small, average);
                proof {
                    assert(resize_outcome(shot, before.working, Some(grid), average));
                    assert((self@, action@) == frame_step(before, shot, Some(grid), average));
                }
                action
            },
            None => {
                proof {
                    assert(resize_outcome(shot, before.working, None, None));
                    assert((self@, ActionView::Sleep { millis }) == frame_step(
                        before,
                        shot,
                        None,
                        None,
                    ));
                }
                LoopAction::Sleep { millis }
            },
        }
    }

    /// Takes the model name that a reconnect gave.
    pub fn on_device_found(&mut self, store: &mut SettingsStore, model_name: &str) -> (action:
        LoopAction)
        ensures
            (final(self)@, final(store)@, action@) == found_of(
                old(self)@,
                old(store)@,
                model_name@,
            ),
    {
        let millis = pace_millis(self.working.capture_frame_limit);
        self.working.bind_device(model_name);
        store.bind_device(model_name);
        LoopAction::Sleep { millis }
    }
}

/// Runs one step of the capture loop.
pub fn capture(state: &mut CaptureLoop, store: &mut SettingsStore, event: LoopEvent) -> (action:
    LoopAction)
    ensures
        capture_step(old(state)@, old(store)@, event@, final(state)@, final(store)@, action@),
{
    match event {
        LoopEvent::Tick => state.begin_iteration(store),
        LoopEvent::Captured(frame) => state.on_frame(frame),
        LoopEvent::CaptureFailed => LoopAction::Sleep {
            millis: pace_millis(state.working.capture_frame_limit),
        },
        LoopEvent::DeviceFound(model_name) => state.on_device_found(store, model_name.as_str()),
    }
}

/// A captured frame is remembered as the last frame, whatever it leads to,
/// and leaves the working settings as they are.
pub proof fn lemma_frame_is_remembered(
    state: LoopView,
    frame: FrameView,
    next_state: LoopView,
    action: ActionView,
)
    requires
        captured_step(state, frame, next_state, action),
    ensures
        next_state.last_frame == frame,
        next_state.working == state.working,
{
}

/// Settings change only at the start of an iteration or at the end of a
/// reconnect, never while a frame is worked on: a captured frame and a failed
/// capture leave the working settings and the store as they are.
pub proof fn lemma_settings_are_stable_within_an_iteration(
    state: LoopView,
    store: StoreView,
    event: EventView,
    next_state: LoopView,
    next_store: StoreView,
    action: ActionView,
)
    requires
        capture_step(state, store, event, next_state, next_store, action),
        event is Captured || event is CaptureFailed,
    ensures
        next_state.working == state.working,
        next_store == store,
{
}

/// Only a captured frame changes the last frame.
pub proof fn lemma_last_frame_is_kept(
    state: LoopView,
    store: StoreView,
    event: EventView,
    next_state: LoopView,
    next_store: StoreView,
    action: ActionView,
)
    requires
        capture_step(state, store, event, next_state, next_store, action),
        !(event is Captured),
    ensures
        next_state.last_frame == state.last_frame,
{
}

/// A frame equal to the last one is slept over: the loop stays as it is and
/// nothing is sent to the device.
pub proof fn lemma_same_frame_is_skipped(
    state: LoopView,
    frame: FrameView,
    next_state: LoopView,
    action: ActionView,
)
    requires
        state.last_frame == frame,
        captured_step(state, frame, next_state, action),
    ensures
        next_state == state,
        action == (ActionView::Sleep { millis: pacing(state.working.capture_frame_limit) }),
        action.device_ops() == Seq::<DeviceOp>::empty(),
{
}

/// Of two identical frames captured in consecutive iterations only the first
/// can reach the device: the second is slept over, whatever the settings
/// became in between.
pub proof fn lemma_repeated_frame_draws_once(
    state: LoopView,
    store: StoreView,
    frame: FrameView,
    after_first: LoopView,
    first: ActionView,
    after_second: LoopView,
    second: ActionView,
)
    requires
        captured_step(state, frame, after_first, first),
        captured_step(tick_of(after_first, store).0, frame, after_second, second),
    ensures
        second is Sleep,
        second.device_ops() == Seq::<DeviceOp>::empty(),
        after_second == tick_of(after_first, store).0,
{
    lemma_frame_is_remembered(state, frame, after_first, first);
    lemma_same_frame_is_skipped(tick_of(after_first, store).0, frame, after_second, second);
}

/// Settings that were written and flagged are what the next iteration works
/// from, unless the pause flag is set; the flag is cleared by then.
pub proof fn lemma_settings_reach_next_iteration(
    state: LoopView,
    store: StoreView,
    new: SettingsView,
)
    requires
        !store.paused,
    ensures
        tick_of(state, store.updated(new).reload_requested()).0.working == new,
        !tick_of(state, store.updated(new).reload_requested()).1.dirty,
        tick_of(state, store.updated(new).reload_requested()).1.settings == new,
        tick_of(state, store.updated(new).reload_requested()).2 == (ActionView::Capture {
            screen_index: new.screen_index,
        }),
{
}

/// While the pause flag is set an iteration changes nothing and sends nothing to
/// the device, and neither writing settings nor flagging them clears the pause flag.
pub proof fn lemma_pause_holds(state: LoopView, store: StoreView, new: SettingsView)
    requires
        store.paused,
    ensures
        tick_of(state, store) == (state, store, ActionView::Poll { millis: 10 }),
        tick_of(state, store).2.device_ops() == Seq::<DeviceOp>::empty(),
        store.updated(new).paused,
        store.reload_requested().paused,
        store.reload_taken().paused,
        mode_of(state, store) == LoopMode::Paused,
{
}

/// The brightness guard is local to a frame: a very bright scene is drawn
/// with the configured brightness less 50, and the configured brightness is
/// what it was afterwards.
pub proof fn lemma_guard_is_frame_local(
    state: LoopView,
    frame: FrameView,
    grid: FrameView,
    scene: Rgb,
)
    requires
        frame != state.last_frame,
        state.working.device_resolved(),
        state.working.reduce_bright_effects,
        crate::color::is_very_bright(scene),
        state.working.brightness >= 50,
    ensures
        frame_step(state, frame, Some(grid), Some(scene)).0.working == state.working,
        frame_brightness(state.working, Some(scene)) == state.working.brightness - 50,
        frame_step(state, frame, Some(grid), Some(scene)).1.device_ops() == drawn(
            grid,
            (state.working.brightness - 50) as u8,
            state.working.red_shift_fix,
            state.working.highlight_wasd,
            is_split_zone(state.working.device_name),
        ),
{
}

/// An unresolved device is never drawn on: the frame leads to a reconnect,
/// and a reconnect to nothing but the operations of one.
pub proof fn lemma_unresolved_device_reconnects(
    working: SettingsView,
    small: FrameView,
    average: Option<Rgb>,
)
    requires
        !working.device_resolved(),
    ensures
        rendered(working, small, average) is Reconnect,
        rendered(working, small, average).device_ops() == reconnect_ops(),
{
}

} // verus!
