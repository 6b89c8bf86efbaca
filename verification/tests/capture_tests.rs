use wootili_view::capture::{
    capture, pace_millis, render, CaptureLoop, LoopAction, LoopEvent, LoopMode,
};
use wootili_view::color::Rgb;
use wootili_view::device::{draw_rgb, reconnect_device, DeviceOp};
use wootili_view::downscale::DownscaleMethod;
use wootili_view::frame::Frame;
use wootili_view::settings::{CaptureSettings, SettingsStore};

fn solid(width: u32, height: u32, rgba: [u8; 4]) -> Frame {
    let mut pixels = Vec::new();
    for _ in 0..(width * height) {
        pixels.extend_from_slice(&rgba);
    }
    Frame::from_raw(width, height, pixels).unwrap()
}

fn settings_for(model: &str, size: (u32, u32)) -> CaptureSettings {
    CaptureSettings {
        screen_index: 1,
        downscale_method: DownscaleMethod::Triangle,
        capture_frame_limit: 15,
        reduce_bright_effects: false,
        red_shift_fix: false,
        highlight_wasd: false,
        brightness: 100,
        device_name: model.to_string(),
        rgb_size: size,
        display_rgb_preview: false,
    }
}

fn running(settings: CaptureSettings) -> (CaptureLoop, SettingsStore) {
    let mut state = CaptureLoop::new("");
    let mut store = SettingsStore::new();
    store.update_settings(settings);
    store.request_reload();
    store.resume_capture();
    match capture(&mut state, &mut store, LoopEvent::Tick) {
        LoopAction::Capture { .. } => {}
        other => panic!("expected a capture, got {:?}", other),
    }
    (state, store)
}

#[test]
fn pacing_of_common_limits() {
    assert_eq!(pace_millis(10), 99);
    assert_eq!(pace_millis(15), 66);
    assert_eq!(pace_millis(60), 16);
    assert_eq!(pace_millis(1), 999);
    assert_eq!(pace_millis(3), 332);
    assert_eq!(pace_millis(16), 62);
    assert_eq!(pace_millis(1000), 0);
    assert_eq!(pace_millis(2000), 0);
}

#[test]
fn pacing_never_underflows() {
    assert_eq!(pace_millis(2001), 0);
    assert_eq!(pace_millis(u32::MAX), 0);
}

#[test]
fn pacing_of_no_frames_at_all() {
    assert_eq!(pace_millis(0), u64::MAX - 1);
}

#[test]
fn pacing_agrees_with_float_formula() {
    for limit in 1u32..=144 {
        let expected = ((1.0 / limit as f32) * 1000.0).round() as u64 - 1;
        assert_eq!(pace_millis(limit), expected, "limit {}", limit);
    }
}

#[test]
fn new_loop_starts_from_the_initial_settings() {
    let state = CaptureLoop::new("Wooting Two");
    assert_eq!(state.working().screen_index, 0);
    assert_eq!(state.working().downscale_method, DownscaleMethod::Triangle);
    assert_eq!(state.working().capture_frame_limit, 10);
    assert_eq!(state.working().brightness, 100);
    assert_eq!(state.working().device_name, "Wooting Two");
    assert_eq!(state.working().rgb_size, (0, 0));
    assert!(!state.working().reduce_bright_effects);
    assert!(!state.working().red_shift_fix);
    assert!(!state.working().highlight_wasd);
    assert!(!state.working().display_rgb_preview);
    assert!(state.last_frame().same_as(&Frame::blank()));
}

#[test]
fn paused_loop_only_polls() {
    let mut state = CaptureLoop::new("");
    let mut store = SettingsStore::new();
    store.update_settings(settings_for("Wooting 60HE", (14, 5)));
    store.request_reload();
    assert_eq!(state.mode(&store), LoopMode::Paused);
    for _ in 0..3 {
        match capture(&mut state, &mut store, LoopEvent::Tick) {
            LoopAction::Poll { millis } => assert_eq!(millis, 10),
            other => panic!("expected a poll, got {:?}", other),
        }
    }
    assert!(store.is_dirty());
    assert!(store.is_paused());
    assert_eq!(state.working().rgb_size, (0, 0));
}

#[test]
fn settings_are_taken_at_the_next_iteration() {
    let mut state = CaptureLoop::new("");
    let mut store = SettingsStore::new();
    store.resume_capture();
    let mut settings = settings_for("Wooting 60HE", (14, 5));
    settings.screen_index = 2;
    settings.brightness = 77;
    store.update_settings(settings);
    store.request_reload();
    match capture(&mut state, &mut store, LoopEvent::Tick) {
        LoopAction::Capture { screen_index } => assert_eq!(screen_index, 2),
        other => panic!("expected a capture, got {:?}", other),
    }
    assert!(!store.is_dirty());
    assert_eq!(state.working().brightness, 77);
    assert_eq!(state.working().rgb_size, (14, 5));
    assert_eq!(state.working().device_name, "Wooting 60HE");
    assert_eq!(state.mode(&store), LoopMode::Normal);
}

#[test]
fn unflagged_settings_are_not_taken() {
    let mut state = CaptureLoop::new("");
    let mut store = SettingsStore::new();
    store.resume_capture();
    store.update_settings(settings_for("Wooting 60HE", (14, 5)));
    match capture(&mut state, &mut store, LoopEvent::Tick) {
        LoopAction::Capture { screen_index } => assert_eq!(screen_index, 0),
        other => panic!("expected a capture, got {:?}", other),
    }
    assert_eq!(state.working().rgb_size, (0, 0));
    assert_eq!(state.mode(&store), LoopMode::DeviceMissing);
}

#[test]
fn changed_frame_is_drawn() {
    let (mut state, mut store) = running(settings_for("Wooting 60HE", (14, 5)));
    let frame = solid(28, 10, [200, 100, 50, 255]);
    match capture(&mut state, &mut store, LoopEvent::Captured(frame)) {
        LoopAction::Draw { ops, preview, millis } => {
            assert_eq!(millis, 66);
            assert!(preview.is_none());
            assert_eq!(
                ops,
                draw_rgb(&solid(14, 5, [200, 100, 50, 255]), 100, false, false, "Wooting 60HE")
            );
        }
        other => panic!("expected a draw, got {:?}", other),
    }
    assert!(state.last_frame().same_as(&solid(28, 10, [200, 100, 50, 255])));
}

#[test]
fn repeated_frame_is_drawn_once() {
    let (mut state, mut store) = running(settings_for("Wooting 60HE", (14, 5)));
    let mut writes = 0;
    for _ in 0..2 {
        let frame = solid(28, 10, [200, 100, 50, 255]);
        match capture(&mut state, &mut store, LoopEvent::Captured(frame)) {
            LoopAction::Draw { .. } => writes += 1,
            LoopAction::Sleep { millis } => assert_eq!(millis, 66),
            other => panic!("unexpected action {:?}", other),
        }
        match capture(&mut state, &mut store, LoopEvent::Tick) {
            LoopAction::Capture { .. } => {}
            other => panic!("expected a capture, got {:?}", other),
        }
    }
    assert_eq!(writes, 1);
}

#[test]
fn first_frame_equal_to_the_blank_frame_is_skipped() {
    let (mut state, mut store) = running(settings_for("Wooting 60HE", (14, 5)));
    match capture(&mut state, &mut store, LoopEvent::Captured(Frame::blank())) {
        LoopAction::Sleep { millis } => assert_eq!(millis, 66),
        other => panic!("expected a sleep, got {:?}", other),
    }
}

#[test]
fn preview_is_the_downscaled_frame() {
    let mut settings = settings_for("Wooting 60HE", (14, 5));
    settings.display_rgb_preview = true;
    let (mut state, mut store) = running(settings);
    match capture(&mut state, &mut store, LoopEvent::Captured(solid(28, 10, [9, 8, 7, 255]))) {
        LoopAction::Draw { preview, .. } => {
            assert!(preview.unwrap().same_as(&solid(14, 5, [9, 8, 7, 255])));
        }
        other => panic!("expected a draw, got {:?}", other),
    }
}

#[test]
fn bright_scene_is_dimmed_for_one_frame_only() {
    let mut settings = settings_for("Wooting Two", (17, 6));
    settings.reduce_bright_effects = true;
    let (mut state, mut store) = running(settings);
    match capture(&mut state, &mut store, LoopEvent::Captured(solid(34, 12, [230, 10, 10, 255]))) {
        LoopAction::Draw { ops, .. } => {
            assert_eq!(
                ops,
                draw_rgb(&solid(17, 6, [230, 10, 10, 255]), 50, false, false, "Wooting Two")
            );
            assert_eq!(
                ops[0],
                DeviceOp::SetCell { row: 1, col: 0, color: Rgb { r: 115, g: 5, b: 5 } }
            );
        }
        other => panic!("expected a draw, got {:?}", other),
    }
    assert_eq!(state.working().brightness, 100);
    assert_eq!(store.settings().brightness, 100);
    match capture(&mut state, &mut store, LoopEvent::Captured(solid(34, 12, [100, 10, 10, 255]))) {
        LoopAction::Draw { ops, .. } => {
            assert_eq!(
                ops[0],
                DeviceOp::SetCell { row: 1, col: 0, color: Rgb { r: 100, g: 10, b: 10 } }
            );
        }
        other => panic!("expected a draw, got {:?}", other),
    }
}

#[test]
fn bright_scene_is_left_alone_without_the_guard() {
    let (mut state, mut store) = running(settings_for("Wooting Two", (17, 6)));
    match capture(&mut state, &mut store, LoopEvent::Captured(solid(34, 12, [230, 10, 10, 255]))) {
        LoopAction::Draw { ops, .. } => {
            assert_eq!(
                ops[0],
                DeviceOp::SetCell { row: 1, col: 0, color: Rgb { r: 230, g: 10, b: 10 } }
            );
        }
        other => panic!("expected a draw, got {:?}", other),
    }
}

#[test]
fn unresolved_device_is_reconnected_not_drawn() {
    let mut settings = settings_for("", (0, 0));
    settings.display_rgb_preview = true;
    let (mut state, mut store) = running(settings);
    assert_eq!(state.mode(&store), LoopMode::DeviceMissing);
    match capture(&mut state, &mut store, LoopEvent::Captured(solid(4, 4, [1, 2, 3, 4]))) {
        LoopAction::Reconnect { ops, preview } => {
            assert_eq!(ops, reconnect_device());
            assert_eq!(preview.unwrap().dimensions(), (0, 0));
        }
        other => panic!("expected a reconnect, got {:?}", other),
    }
    match capture(&mut state, &mut store, LoopEvent::DeviceFound("Wooting 60HE".to_string())) {
        LoopAction::Sleep { millis } => assert_eq!(millis, 66),
        other => panic!("expected a sleep, got {:?}", other),
    }
    assert_eq!(state.working().device_name, "Wooting 60HE");
    assert_eq!(state.working().rgb_size, (14, 5));
    assert_eq!(store.settings().device_name, "Wooting 60HE");
    assert_eq!(store.settings().rgb_size, (14, 5));
    assert_eq!(state.mode(&store), LoopMode::Normal);
}

#[test]
fn half_known_grid_counts_as_unresolved() {
    let (mut state, mut store) = running(settings_for("", (14, 0)));
    match capture(&mut state, &mut store, LoopEvent::Captured(solid(4, 4, [1, 2, 3, 4]))) {
        LoopAction::Reconnect { .. } => {}
        other => panic!("expected a reconnect, got {:?}", other),
    }
}

#[test]
fn unsupported_device_stays_missing() {
    let (mut state, mut store) = running(settings_for("", (0, 0)));
    match capture(&mut state, &mut store, LoopEvent::DeviceFound("Other Board".to_string())) {
        LoopAction::Sleep { .. } => {}
        other => panic!("expected a sleep, got {:?}", other),
    }
    assert_eq!(state.working().device_name, "Other Board");
    assert_eq!(state.working().rgb_size, (0, 0));
    assert_eq!(state.mode(&store), LoopMode::DeviceMissing);
}

#[test]
fn failed_capture_is_slept_over() {
    let (mut state, mut store) = running(settings_for("Wooting 60HE", (14, 5)));
    match capture(&mut state, &mut store, LoopEvent::CaptureFailed) {
        LoopAction::Sleep { millis } => assert_eq!(millis, 66),
        other => panic!("expected a sleep, got {:?}", other),
    }
    assert!(state.last_frame().same_as(&Frame::blank()));
}

#[test]
fn frame_too_large_to_resize_is_slept_over() {
    let (mut state, mut store) = running(settings_for("", (u32::MAX, u32::MAX)));
    match capture(&mut state, &mut store, LoopEvent::Captured(solid(2, 2, [1, 2, 3, 4]))) {
        LoopAction::Sleep { millis } => assert_eq!(millis, 66),
        other => panic!("expected a sleep, got {:?}", other),
    }
    assert!(state.last_frame().same_as(&solid(2, 2, [1, 2, 3, 4])));
}

#[test]
fn render_draws_with_the_given_average() {
    let mut settings = settings_for("Wooting UwU RGB", (6, 4));
    settings.reduce_bright_effects = true;
    settings.brightness = 120;
    let small = solid(6, 4, [10, 20, 30, 255]);
    match render(&settings, small, Some(Rgb { r: 0, g: 0, b: 221 })) {
        LoopAction::Draw { ops, preview, millis } => {
            assert_eq!(millis, 66);
            assert!(preview.is_none());
            assert_eq!(
                ops,
                draw_rgb(&solid(6, 4, [10, 20, 30, 255]), 70, false, false, "Wooting UwU RGB")
            );
        }
        other => panic!("expected a draw, got {:?}", other),
    }
    match render(&settings, solid(6, 4, [10, 20, 30, 255]), None) {
        LoopAction::Draw { ops, .. } => {
            assert_eq!(
                ops,
                draw_rgb(&solid(6, 4, [10, 20, 30, 255]), 120, false, false, "Wooting UwU RGB")
            );
        }
        other => panic!("expected a draw, got {:?}", other),
    }
}
