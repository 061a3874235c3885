//! The library's laws: the general properties of the camera controllers
//! and the host state machine, each stated over the step functions the
//! executable code is proved to implement.

use vstd::prelude::*;

verus! {

use crate::camera::{
    CENTER_LIMIT, MATH64_THRESHOLD, ZOOM_CEILING, ZOOM_MAX, CameraModel, clamp_delta_s,
    cursor_step_s, default_props_s, model_wf, norm_coord_s, resize_s, step_s, zoom_step_s,
};
use crate::events::{InputEvent, KeyCode};
use crate::fixed::{SCALE, clamp_s, div_trunc_s, fx_mul_s, lemma_fx_mul_bound};
use crate::host::{HostAction, HostEvent, HostState, host_step_s};
use crate::simple::{SimpleModel, simple_cursor_s, simple_wf};
use vstd::arithmetic::div_mod::{lemma_div_nonincreasing, lemma_div_pos_is_pos};

/// Zero times anything is zero under the fixed-point product.
proof fn lemma_fx_mul_zero(b: int)
    ensures
        fx_mul_s(0, b) == 0,
{
    lemma_div_pos_is_pos(0, SCALE as int);
    lemma_div_nonincreasing(0, SCALE as int);
}

/// Pressing, releasing, and pressing a left-pan key again moves the center
/// by exactly `-speed * zoom` along x at each press, with the zoom held
/// fixed; the release changes nothing. (Stated away from the center's
/// saturation bound, where the pan is exact.)
pub proof fn lemma_pan_press_release_press(m: CameraModel, key: KeyCode)
    requires
        model_wf(m),
        key == KeyCode::H || key == KeyCode::Left,
        -(CENTER_LIMIT as int) + 2 * fx_mul_s(m.speed, m.props.zoom) <= m.props.center_x,
    ensures
        ({
            let d = fx_mul_s(m.speed, m.props.zoom);
            let press = InputEvent::Keyboard { key, pressed: true };
            let release = InputEvent::Keyboard { key, pressed: false };
            let (m1, c1) = step_s(m, press);
            let (m2, c2) = step_s(m1, release);
            let (m3, c3) = step_s(m2, press);
            &&& c1 && !c2 && c3
            &&& m1.props.center_x == m.props.center_x - d
            &&& m2 == m1
            &&& m3.props.center_x == m.props.center_x - 2 * d
            &&& m1.props.zoom == m.props.zoom
            &&& m3.props.zoom == m.props.zoom
            &&& m1.props.center_y == m.props.center_y
            &&& m3.props.center_y == m.props.center_y
        }),
{
    assert(m.speed * m.props.zoom >= 0) by (nonlinear_arith)
        requires
            m.speed >= 0,
            m.props.zoom >= 1,
    ;
    lemma_div_pos_is_pos(m.speed * m.props.zoom, SCALE as int);
}

/// A zoom-out (positive delta) requested at or past the 5.0 ceiling leaves
/// the whole state unchanged and reports "unchanged".
pub proof fn lemma_zoom_ceiling_rejects(m: CameraModel, ax: int, ay: int, delta: int)
    requires
        model_wf(m),
        m.props.zoom >= ZOOM_CEILING,
        delta > 0,
    ensures
        zoom_step_s(m, ax, ay, delta) == (m, false),
{
}

/// A zoom anchored at the origin never moves the center: the anchor term
/// `anchor * (1 - factor) * zoom'` vanishes, and only the zoom scalar
/// changes, scaled by the factor `1 + delta` (delta clamped; the scalar
/// never drops below one fixed-point step).
pub proof fn lemma_zoom_at_origin_keeps_center(m: CameraModel, delta: int)
    requires
        model_wf(m),
    ensures
        zoom_step_s(m, 0, 0, delta).0.props.center_x == m.props.center_x,
        zoom_step_s(m, 0, 0, delta).0.props.center_y == m.props.center_y,
        !(clamp_delta_s(delta) > 0 && m.props.zoom >= ZOOM_CEILING) ==> {
            let scaled = fx_mul_s(m.props.zoom, SCALE + clamp_delta_s(delta));
            zoom_step_s(m, 0, 0, delta).0.props.zoom == (if scaled < 1 {
                1int
            } else {
                scaled
            })
        },
        zoom_step_s(m, 0, 0, delta).0.mouse_x == m.mouse_x,
        zoom_step_s(m, 0, 0, delta).0.mouse_y == m.mouse_y,
{
    let d = clamp_delta_s(delta);
    if !(d > 0 && m.props.zoom >= ZOOM_CEILING) {
        let factor = SCALE + d;
        lemma_fx_mul_zero(SCALE - factor);
        let scaled = fx_mul_s(m.props.zoom, factor);
        let z = if scaled < 1 { 1int } else { scaled };
        lemma_fx_mul_zero(z);
    }
}

/// The 64-bit-arithmetic flag is set exactly when the zoom is strictly
/// below 0.0001; at the boundary itself it is clear. This holds in every
/// well-formed state, and every zoom step re-establishes it.
pub proof fn lemma_math64_flag(m: CameraModel, ax: int, ay: int, delta: int)
    requires
        model_wf(m),
    ensures
        m.props.math64 == 1 <==> m.props.zoom < MATH64_THRESHOLD,
        m.props.zoom == MATH64_THRESHOLD ==> m.props.math64 == 0,
        ({
            let z = zoom_step_s(m, ax, ay, delta).0.props.zoom;
            zoom_step_s(m, ax, ay, delta).0.props.math64 == (if z < MATH64_THRESHOLD {
                1int
            } else {
                0int
            })
        }),
{
}

/// Space restores the documented defaults — center (-0.75, 0), zoom 1.2,
/// aspect 1.0, 64-bit flag clear — from any prior view state.
pub proof fn lemma_reset_restores_defaults(m: CameraModel)
    requires
        model_wf(m),
    ensures
        step_s(m, InputEvent::Keyboard { key: KeyCode::Space, pressed: true }).0.props
            == default_props_s(),
        step_s(m, InputEvent::Keyboard { key: KeyCode::Space, pressed: true }).1,
{
}

/// Resizing stores the new dimensions and sets the aspect ratio to exactly
/// `width / height` (truncated fixed point), and the host orders the
/// reconfigure-and-reupload action before the next frame is presented.
pub proof fn lemma_resize_updates_aspect(h: HostState, c: CameraModel, width: u32, height: u32)
    requires
        1 <= width,
        1 <= height,
    ensures
        ({
            let (h1, c1, action) = host_step_s(h, c, HostEvent::Resized { width, height });
            &&& c1.props.aspect == div_trunc_s(width as int * SCALE as int, height as int)
            &&& c1.window_width == width as int
            &&& c1.window_height == height as int
            &&& h1.surface_width == width
            &&& h1.surface_height == height
            &&& action == HostAction::Reconfigure
        }),
{
}

/// A drag in the interactive camera: with the left button held, a cursor
/// move from stored normalized position P1 to new normalized position P2
/// pans the center by `(-(P2x - P1x) * zoom * 2, -(P2y - P1y) * zoom * 2)`.
/// (Stated away from the center's saturation bound, where the pan is
/// exact.)
pub proof fn lemma_interactive_drag(m: CameraModel, x: int, y: int)
    requires
        model_wf(m),
        m.dragging,
        -(CENTER_LIMIT as int) + 50_000_000_000_000 <= m.props.center_x <= CENTER_LIMIT as int
            - 50_000_000_000_000,
        -(CENTER_LIMIT as int) + 50_000_000_000_000 <= m.props.center_y <= CENTER_LIMIT as int
            - 50_000_000_000_000,
    ensures
        ({
            let p2x = norm_coord_s(x, m.window_width);
            let p2y = clamp_s(
                -(div_trunc_s(2 * y, m.window_height) - SCALE),
                -(SCALE as int),
                SCALE as int,
            );
            let (m1, changed) = cursor_step_s(m, x, y);
            &&& changed
            &&& m1.props.center_x == m.props.center_x - 2 * fx_mul_s(
                p2x - m.mouse_x,
                m.props.zoom,
            )
            &&& m1.props.center_y == m.props.center_y - 2 * fx_mul_s(
                p2y - m.mouse_y,
                m.props.zoom,
            )
            &&& m1.mouse_x == p2x
            &&& m1.mouse_y == p2y
            &&& m1.props.zoom == m.props.zoom
        }),
{
    let p2x = norm_coord_s(x, m.window_width);
    let p2y = clamp_s(
        -(div_trunc_s(2 * y, m.window_height) - SCALE),
        -(SCALE as int),
        SCALE as int,
    );
    lemma_fx_mul_bound(p2x - m.mouse_x, m.props.zoom, 2_000_000_000_000, ZOOM_MAX as int);
    lemma_fx_mul_bound(p2y - m.mouse_y, m.props.zoom, 2_000_000_000_000, ZOOM_MAX as int);
}

/// The same drag in the key-hold camera pans by the unamplified
/// `((P2x - P1x) * zoom, (P2y - P1y) * zoom)`.
pub proof fn lemma_simple_drag(m: SimpleModel, x: int, y: int)
    requires
        simple_wf(m),
        m.dragging,
        -(CENTER_LIMIT as int) + 50_000_000_000_000 <= m.center_x <= CENTER_LIMIT as int
            - 50_000_000_000_000,
        -(CENTER_LIMIT as int) + 50_000_000_000_000 <= m.center_y <= CENTER_LIMIT as int
            - 50_000_000_000_000,
    ensures
        ({
            let p2x = norm_coord_s(x, m.window_width);
            let p2y = clamp_s(
                -(div_trunc_s(2 * y, m.window_height) - SCALE),
                -(SCALE as int),
                SCALE as int,
            );
            let (m1, changed) = simple_cursor_s(m, x, y);
            &&& changed
            &&& m1.center_x == m.center_x + fx_mul_s(p2x - m.mouse_x, m.zoom)
            &&& m1.center_y == m.center_y + fx_mul_s(p2y - m.mouse_y, m.zoom)
            &&& m1.mouse_x == p2x
            &&& m1.mouse_y == p2y
            &&& m1.zoom == m.zoom
        }),
{
    let p2x = norm_coord_s(x, m.window_width);
    let p2y = clamp_s(
        -(div_trunc_s(2 * y, m.window_height) - SCALE),
        -(SCALE as int),
        SCALE as int,
    );
    lemma_fx_mul_bound(p2x - m.mouse_x, m.zoom, 2_000_000_000_000, ZOOM_MAX as int);
    lemma_fx_mul_bound(p2y - m.mouse_y, m.zoom, 2_000_000_000_000, ZOOM_MAX as int);
}

/// The host state after `n` consecutive "F11 is pressed" events with no
/// release in between.
pub open spec fn held_f11_s(h: HostState, c: CameraModel, n: nat) -> HostState
    decreases n,
{
    if n == 0 {
        h
    } else {
        host_step_s(held_f11_s(h, c, (n - 1) as nat), c, HostEvent::F11 { pressed: true }).0
    }
}

/// Fullscreen toggling is edge-triggered: any number of repeated
/// "pressed" events without an intervening release toggles fullscreen
/// exactly once, and only the first event orders a fullscreen change.
pub proof fn lemma_f11_held_toggles_once(h: HostState, c: CameraModel, n: nat)
    requires
        !h.f11_prev_pressed,
        n >= 1,
    ensures
        held_f11_s(h, c, n).fullscreen == !h.fullscreen,
        held_f11_s(h, c, n).f11_prev_pressed,
        host_step_s(h, c, HostEvent::F11 { pressed: true }).2 == (HostAction::SetFullscreen {
            on: !h.fullscreen,
        }),
        n >= 2 ==> host_step_s(held_f11_s(h, c, (n - 1) as nat), c, HostEvent::F11 {
            pressed: true,
        }).2 == HostAction::NoOp,
    decreases n,
{
    if n > 1 {
        lemma_f11_held_toggles_once(h, c, (n - 1) as nat);
    }
}

/// A resize leaves every other part of the camera unchanged: pointer
/// state, speed, center and zoom survive a window-size change.
pub proof fn lemma_resize_preserves_view(m: CameraModel, w: int, h: int)
    ensures
        resize_s(m, w, h).props.center_x == m.props.center_x,
        resize_s(m, w, h).props.center_y == m.props.center_y,
        resize_s(m, w, h).props.zoom == m.props.zoom,
        resize_s(m, w, h).props.math64 == m.props.math64,
        resize_s(m, w, h).mouse_x == m.mouse_x,
        resize_s(m, w, h).mouse_y == m.mouse_y,
        resize_s(m, w, h).speed == m.speed,
{
}

} // verus!
