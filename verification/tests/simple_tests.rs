use mandelbrot::events::{InputEvent, KeyCode, ScrollDelta};
use mandelbrot::simple::SimpleCameraController;

const SCALE: i64 = 1_000_000_000_000;

fn fresh() -> SimpleCameraController {
    SimpleCameraController::new(20_000_000_000, 800, 600)
}

#[test]
fn simple_defaults_on_construction() {
    let c = fresh();
    assert_eq!(c.center_x, -750_000_000_000);
    assert_eq!(c.center_y, 0);
    assert_eq!(c.zoom, 2_400_000_000_000);
    assert_eq!(c.aspect, SCALE);
    assert!(!c.hold_left && !c.hold_right && !c.hold_up && !c.hold_down);
    assert!(!c.hold_zoom_in && !c.hold_zoom_out);
}

#[test]
fn held_key_integrates_every_frame() {
    let mut c = fresh();
    let press = InputEvent::Keyboard { key: KeyCode::H, pressed: true };
    let release = InputEvent::Keyboard { key: KeyCode::H, pressed: false };

    assert!(c.process_events(&press));
    assert!(c.hold_left);
    // 0.02 * 2.4 = 0.048 per integrated frame.
    c.update_camera();
    assert_eq!(c.center_x, -798_000_000_000);
    c.update_camera();
    assert_eq!(c.center_x, -846_000_000_000);

    // Releases report a transition too, and stop the motion.
    assert!(c.process_events(&release));
    assert!(!c.hold_left);
    c.update_camera();
    assert_eq!(c.center_x, -846_000_000_000);
}

#[test]
fn opposite_keys_cancel() {
    let mut c = fresh();
    c.process_events(&InputEvent::Keyboard { key: KeyCode::Left, pressed: true });
    c.process_events(&InputEvent::Keyboard { key: KeyCode::Right, pressed: true });
    c.update_camera();
    assert_eq!(c.center_x, -750_000_000_000);
}

#[test]
fn held_zoom_in_shrinks_zoom() {
    let mut c = fresh();
    assert!(c.process_events(&InputEvent::Keyboard { key: KeyCode::S, pressed: true }));
    c.update_camera();
    assert_eq!(c.zoom, 2_352_000_000_000);
}

#[test]
fn held_zoom_out_clamps_at_ceiling() {
    let mut c = fresh();
    c.zoom = 4_990_000_000_000;
    assert!(c.process_events(&InputEvent::Keyboard { key: KeyCode::A, pressed: true }));
    c.update_camera();
    // 4.99 + 0.02 * 4.99 = 5.0898, clamped at 5.0.
    assert_eq!(c.zoom, 5_000_000_000_000);
    c.update_camera();
    assert_eq!(c.zoom, 5_000_000_000_000);
}

#[test]
fn vertical_keys_move_y() {
    let mut c = fresh();
    c.process_events(&InputEvent::Keyboard { key: KeyCode::Up, pressed: true });
    c.update_camera();
    assert_eq!(c.center_y, 48_000_000_000);
    c.process_events(&InputEvent::Keyboard { key: KeyCode::Up, pressed: false });
    c.process_events(&InputEvent::Keyboard { key: KeyCode::Down, pressed: true });
    c.update_camera();
    c.update_camera();
    assert_eq!(c.center_y, -48_000_000_000);
}

#[test]
fn drag_pans_unamplified() {
    let mut c = fresh();
    assert!(!c.process_events(&InputEvent::MouseLeft { pressed: true }));
    // Pixel (200, 150) in an 800 x 600 window: normalized (-0.5, 0.5).
    assert!(c.process_events(&InputEvent::CursorMoved { x: 200 * SCALE, y: 150 * SCALE }));
    // Pan: (dx * zoom, dy * zoom) with zoom 2.4, no doubling.
    assert_eq!(c.center_x, -750_000_000_000 - 1_200_000_000_000);
    assert_eq!(c.center_y, 1_200_000_000_000);
    assert_eq!(c.zoom, 2_400_000_000_000);
}

#[test]
fn wheel_zooms_toward_pointer() {
    let mut c = fresh();
    // Pointer to normalized (0.5, 0.5).
    assert!(!c.process_events(&InputEvent::CursorMoved { x: 600 * SCALE, y: 150 * SCALE }));
    // 20 scroll pixels: delta 0.02 (a zoom-in here).
    let ev = InputEvent::MouseWheel { delta: ScrollDelta::Pixels { x: 0, y: 20 * SCALE } };
    assert!(c.process_events(&ev));
    // Pan (-0.5 * 0.02 * 2.4, 0.5 * 0.02 * 2.4) = (-0.024, 0.024).
    assert_eq!(c.center_x, -774_000_000_000);
    assert_eq!(c.center_y, 24_000_000_000);
    // zoom -= 0.02 * zoom.
    assert_eq!(c.zoom, 2_352_000_000_000);
}

#[test]
fn wheel_zoom_out_rejected_at_ceiling() {
    let mut c = fresh();
    c.zoom = 5_000_000_000_000;
    let before_x = c.center_x;
    let ev = InputEvent::MouseWheel { delta: ScrollDelta::Lines { x: 0, y: -SCALE } };
    assert!(!c.process_events(&ev));
    assert_eq!(c.zoom, 5_000_000_000_000);
    assert_eq!(c.center_x, before_x);
}

#[test]
fn wheel_zoom_out_grows_below_ceiling() {
    let mut c = fresh();
    let ev = InputEvent::MouseWheel { delta: ScrollDelta::Lines { x: 0, y: -SCALE } };
    assert!(c.process_events(&ev));
    // zoom -= (-0.11) * zoom: 2.4 * 1.11 = 2.664.
    assert_eq!(c.zoom, 2_664_000_000_000);
}

#[test]
fn space_resets_simple_view() {
    let mut c = fresh();
    c.process_events(&InputEvent::Keyboard { key: KeyCode::L, pressed: true });
    c.update_camera();
    c.update_window_size(1920, 1080);
    assert!(c.process_events(&InputEvent::Keyboard { key: KeyCode::Space, pressed: true }));
    assert_eq!(c.center_x, -750_000_000_000);
    assert_eq!(c.center_y, 0);
    assert_eq!(c.zoom, 2_400_000_000_000);
    assert_eq!(c.aspect, SCALE);
    // The hold flags survive a reset; only the view state returns.
    assert!(c.hold_right);
}

#[test]
fn resize_recomputes_aspect() {
    let mut c = fresh();
    c.update_window_size(1920, 1080);
    assert_eq!(c.aspect, 1_777_777_777_777);
}

#[test]
fn pinch_is_ignored_by_simple_variant() {
    let mut c = fresh();
    let before = c.zoom;
    assert!(!c.process_events(&InputEvent::TouchpadMagnify { delta: 100_000_000_000 }));
    assert_eq!(c.zoom, before);
}
