use mandelbrot::camera::{CameraController, Properties};
use mandelbrot::events::{InputEvent, KeyCode, ScrollDelta};

const SCALE: i64 = 1_000_000_000_000;

fn fresh() -> CameraController {
    CameraController::new(20_000_000_000, 800, 600)
}

#[test]
fn defaults_on_construction() {
    let c = fresh();
    let p = c.properties();
    assert_eq!(p.center_x, -750_000_000_000);
    assert_eq!(p.center_y, 0);
    assert_eq!(p.zoom, 1_200_000_000_000);
    // 800 / 600 in fixed point, truncated.
    assert_eq!(p.aspect, 1_333_333_333_333);
    assert_eq!(p.math64, 0);
    assert_eq!(c.mouse_position(), (0, 0));
}

#[test]
fn pan_key_press_release_press() {
    let mut c = fresh();
    let press = InputEvent::Keyboard { key: KeyCode::H, pressed: true };
    let release = InputEvent::Keyboard { key: KeyCode::H, pressed: false };

    assert!(c.process_events(&press));
    assert_eq!(c.properties().center_x, -774_000_000_000);
    assert_eq!(c.properties().zoom, 1_200_000_000_000);

    assert!(!c.process_events(&release));
    assert_eq!(c.properties().center_x, -774_000_000_000);

    assert!(c.process_events(&press));
    assert_eq!(c.properties().center_x, -798_000_000_000);
    assert_eq!(c.properties().zoom, 1_200_000_000_000);
}

#[test]
fn pan_keys_move_each_axis() {
    let mut c = fresh();
    assert!(c.process_events(&InputEvent::Keyboard { key: KeyCode::Left, pressed: true }));
    assert_eq!(c.properties().center_x, -774_000_000_000);
    assert!(c.process_events(&InputEvent::Keyboard { key: KeyCode::Right, pressed: true }));
    assert_eq!(c.properties().center_x, -750_000_000_000);
    assert!(c.process_events(&InputEvent::Keyboard { key: KeyCode::Down, pressed: true }));
    assert_eq!(c.properties().center_y, -24_000_000_000);
    assert!(c.process_events(&InputEvent::Keyboard { key: KeyCode::Up, pressed: true }));
    assert_eq!(c.properties().center_y, 0);
    assert!(c.process_events(&InputEvent::Keyboard { key: KeyCode::J, pressed: true }));
    assert_eq!(c.properties().center_y, -24_000_000_000);
    assert!(c.process_events(&InputEvent::Keyboard { key: KeyCode::K, pressed: true }));
    assert_eq!(c.properties().center_y, 0);
    assert!(c.process_events(&InputEvent::Keyboard { key: KeyCode::L, pressed: true }));
    assert_eq!(c.properties().center_x, -726_000_000_000);
}

#[test]
fn zoom_out_rejected_at_ceiling() {
    let mut c = fresh();
    c.properties = Properties {
        center_x: -750_000_000_000,
        center_y: 0,
        zoom: 5_000_000_000_000,
        aspect: SCALE,
        math64: 0,
    };
    let before = c.properties();
    assert!(!c.zoom(0, 0, 20_000_000_000));
    assert_eq!(c.properties(), before);

    // The zoom-out key reports the rejection too.
    assert!(!c.process_events(&InputEvent::Keyboard { key: KeyCode::A, pressed: true }));
    assert_eq!(c.properties(), before);
}

#[test]
fn zoom_at_origin_keeps_center() {
    let mut c = fresh();
    assert!(c.zoom(0, 0, -20_000_000_000));
    assert_eq!(c.properties().center_x, -750_000_000_000);
    assert_eq!(c.properties().center_y, 0);
    assert_eq!(c.properties().zoom, 1_176_000_000_000);
}

#[test]
fn zoom_in_key_scales_by_factor() {
    let mut c = fresh();
    assert!(c.process_events(&InputEvent::Keyboard { key: KeyCode::S, pressed: true }));
    assert_eq!(c.properties().zoom, 1_176_000_000_000);
    assert_eq!(c.properties().center_x, -750_000_000_000);
}

#[test]
fn zoom_out_key_scales_by_factor() {
    let mut c = fresh();
    assert!(c.process_events(&InputEvent::Keyboard { key: KeyCode::PageUp, pressed: true }));
    assert_eq!(c.properties().zoom, 1_224_000_000_000);
}

#[test]
fn math64_flag_clear_on_boundary_set_below() {
    let mut c = fresh();
    c.properties = Properties {
        center_x: 0,
        center_y: 0,
        zoom: 200_000_000,
        aspect: SCALE,
        math64: 0,
    };
    // 0.0002 * 0.5 = 0.0001: exactly the boundary stays in 32-bit range.
    assert!(c.zoom(0, 0, -500_000_000_000));
    assert_eq!(c.properties().zoom, 100_000_000);
    assert_eq!(c.properties().math64, 0);
    // One more halving goes strictly below the threshold.
    assert!(c.zoom(0, 0, -500_000_000_000));
    assert_eq!(c.properties().zoom, 50_000_000);
    assert_eq!(c.properties().math64, 1);
}

#[test]
fn zoom_never_drops_below_one_step() {
    let mut c = fresh();
    c.properties = Properties { center_x: 0, center_y: 0, zoom: 1, aspect: SCALE, math64: 1 };
    assert!(c.zoom(0, 0, -500_000_000_000));
    assert_eq!(c.properties().zoom, 1);
}

#[test]
fn space_resets_view_state() {
    let mut c = fresh();
    c.process_events(&InputEvent::Keyboard { key: KeyCode::L, pressed: true });
    c.process_events(&InputEvent::Keyboard { key: KeyCode::S, pressed: true });
    c.update_window_size(1024, 768);
    assert!(c.process_events(&InputEvent::Keyboard { key: KeyCode::Space, pressed: true }));
    let p = c.properties();
    assert_eq!(p.center_x, -750_000_000_000);
    assert_eq!(p.center_y, 0);
    assert_eq!(p.zoom, 1_200_000_000_000);
    assert_eq!(p.aspect, SCALE);
    assert_eq!(p.math64, 0);
}

#[test]
fn resize_recomputes_aspect_exactly() {
    let mut c = fresh();
    c.update_window_size(1920, 1080);
    assert_eq!(c.properties().aspect, 1_777_777_777_777);
    c.update_window_size(1, 1_000_000);
    assert_eq!(c.properties().aspect, 1_000_000);
}

#[test]
fn drag_pans_center_doubled() {
    let mut c = fresh();
    assert!(!c.process_events(&InputEvent::MouseLeft { pressed: true }));
    // Pixel (200, 150) in an 800 x 600 window: normalized (-0.5, 0.5).
    let moved = c.process_events(&InputEvent::CursorMoved { x: 200 * SCALE, y: 150 * SCALE });
    assert!(moved);
    assert_eq!(c.mouse_position(), (-SCALE / 2, SCALE / 2));
    // Pan: (-dx * zoom * 2, -dy * zoom * 2) from the previous (0, 0).
    assert_eq!(c.properties().center_x, 450_000_000_000);
    assert_eq!(c.properties().center_y, -1_200_000_000_000);
    assert_eq!(c.properties().zoom, 1_200_000_000_000);
}

#[test]
fn cursor_move_without_button_only_tracks() {
    let mut c = fresh();
    let before = c.properties();
    assert!(!c.process_events(&InputEvent::CursorMoved { x: 200 * SCALE, y: 150 * SCALE }));
    assert_eq!(c.properties(), before);
    assert_eq!(c.mouse_position(), (-SCALE / 2, SCALE / 2));
}

#[test]
fn wheel_zoom_anchored_at_pointer_end_to_end() {
    let mut c = fresh();
    // Pointer to pixel (600, 150): normalized (0.5, 0.5).
    assert!(!c.process_events(&InputEvent::CursorMoved { x: 600 * SCALE, y: 150 * SCALE }));
    assert_eq!(c.mouse_position(), (SCALE / 2, SCALE / 2));
    // 20 pixels of scroll become a 0.02 zoom-in anchored at the pointer.
    let ev = InputEvent::MouseWheel { delta: ScrollDelta::Pixels { x: 0, y: 20 * SCALE } };
    assert!(c.process_events(&ev));
    assert_eq!(c.properties().zoom, 1_176_000_000_000);
    assert_eq!(c.properties().center_x, -738_240_000_000);
    assert_eq!(c.properties().center_y, 11_760_000_000);
}

#[test]
fn wheel_line_delta_scales_by_eleven_hundredths() {
    let mut c = fresh();
    let ev = InputEvent::MouseWheel { delta: ScrollDelta::Lines { x: 0, y: SCALE } };
    assert!(c.process_events(&ev));
    // One line up is a 0.11 zoom-in: 1.2 * 0.89 = 1.068.
    assert_eq!(c.properties().zoom, 1_068_000_000_000);
}

#[test]
fn pinch_gesture_zooms_at_pointer() {
    let mut c = fresh();
    let ev = InputEvent::TouchpadMagnify { delta: 100_000_000_000 };
    assert!(c.process_events(&ev));
    // Zoom out by 0.1 anchored at the untouched origin pointer.
    assert_eq!(c.properties().zoom, 1_320_000_000_000);
    assert_eq!(c.properties().center_x, -750_000_000_000);
}

#[test]
fn unrecognized_input_is_ignored() {
    let mut c = fresh();
    let before = c.properties();
    assert!(!c.process_events(&InputEvent::Other));
    assert!(!c.process_events(&InputEvent::Keyboard { key: KeyCode::Other, pressed: true }));
    assert!(!c.process_events(&InputEvent::MouseLeft { pressed: false }));
    assert_eq!(c.properties(), before);
}

#[test]
fn projection_copies_fields_and_zeroes_flag() {
    let mut c = fresh();
    c.properties = Properties {
        center_x: -738_240_000_000,
        center_y: 11_760_000_000,
        zoom: 50_000_000,
        aspect: 1_333_333_333_333,
        math64: 1,
    };
    let p32 = c.properties32();
    assert_eq!(p32.center_x, -738_240_000_000);
    assert_eq!(p32.center_y, 11_760_000_000);
    assert_eq!(p32.zoom, 50_000_000);
    assert_eq!(p32.aspect, 1_333_333_333_333);
    assert_eq!(p32.math64, 0);
}

#[test]
fn projection_via_from() {
    let p = Properties {
        center_x: 1,
        center_y: 2,
        zoom: 3,
        aspect: 4,
        math64: 1,
    };
    let p32 = mandelbrot::camera::Properties32::from(p);
    assert_eq!(p32.center_x, 1);
    assert_eq!(p32.center_y, 2);
    assert_eq!(p32.zoom, 3);
    assert_eq!(p32.aspect, 4);
    assert_eq!(p32.math64, 0);
}

#[test]
fn default_properties() {
    let p = Properties::default();
    assert_eq!(p.center_x, -750_000_000_000);
    assert_eq!(p.center_y, 0);
    assert_eq!(p.zoom, 1_200_000_000_000);
    assert_eq!(p.aspect, SCALE);
    assert_eq!(p.math64, 0);
}
