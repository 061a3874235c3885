//! The key-hold camera: the earlier, discrete controller. Motion keys set
//! hold flags that `update_camera` integrates once per rendered frame;
//! drags pan by the raw normalized delta (no amplification) and the wheel
//! zooms toward the pointer by `zoom -= delta * zoom`.
//!
//! Like the interactive controller, the state is exact fixed point and
//! every transition is specified functionally.

use vstd::prelude::*;

verus! {

use crate::camera::{
    CENTER_LIMIT, DELTA_IN_MAX, DELTA_OUT_MAX, DIM_LIMIT, LINE_SCALE, PAN_LIMIT, PIXEL_SCALE,
    ZOOM_CEILING, ZOOM_MAX, norm_coord_s, wheel_delta_s,
};
use crate::events::{InputEvent, KeyCode, ScrollDelta, event_wf};
use crate::fixed::{
    SCALE, clamp, clamp_s, div_trunc, div_trunc_s, fx_mul, fx_mul_s, lemma_fx_mul_bound,
};

/// Default zoom of the key-hold camera (2.4).
pub const SIMPLE_DEFAULT_ZOOM: i64 = 2_400_000_000_000;

/// Default view center, x coordinate (-0.75).
pub const SIMPLE_DEFAULT_CENTER_X: i64 = -750_000_000_000;

/// The key-hold camera controller.
pub struct SimpleCameraController {
    pub window_width: u32,
    pub window_height: u32,
    pub center_x: i64,
    pub center_y: i64,
    pub zoom: i64,
    pub aspect: i64,
    pub speed: i64,
    pub mouse_x: i64,
    pub mouse_y: i64,
    pub is_mouse_left_pressed: bool,
    pub hold_left: bool,
    pub hold_right: bool,
    pub hold_up: bool,
    pub hold_down: bool,
    pub hold_zoom_in: bool,
    pub hold_zoom_out: bool,
}

/// Mathematical model of `SimpleCameraController`.
pub ghost struct SimpleModel {
    pub window_width: int,
    pub window_height: int,
    pub center_x: int,
    pub center_y: int,
    pub zoom: int,
    pub aspect: int,
    pub speed: int,
    pub mouse_x: int,
    pub mouse_y: int,
    pub dragging: bool,
    pub hold_left: bool,
    pub hold_right: bool,
    pub hold_up: bool,
    pub hold_down: bool,
    pub hold_zoom_in: bool,
    pub hold_zoom_out: bool,
}

impl View for SimpleCameraController {
    type V = SimpleModel;

    open spec fn view(&self) -> SimpleModel {
        SimpleModel {
            window_width: self.window_width as int,
            window_height: self.window_height as int,
            center_x: self.center_x as int,
            center_y: self.center_y as int,
            zoom: self.zoom as int,
            aspect: self.aspect as int,
            speed: self.speed as int,
            mouse_x: self.mouse_x as int,
            mouse_y: self.mouse_y as int,
            dragging: self.is_mouse_left_pressed,
            hold_left: self.hold_left,
            hold_right: self.hold_right,
            hold_up: self.hold_up,
            hold_down: self.hold_down,
            hold_zoom_in: self.hold_zoom_in,
            hold_zoom_out: self.hold_zoom_out,
        }
    }
}

/// Controller invariant.
pub open spec fn simple_wf(m: SimpleModel) -> bool {
    &&& 1 <= m.zoom <= ZOOM_MAX
    &&& -(CENTER_LIMIT as int) <= m.center_x <= CENTER_LIMIT as int
    &&& -(CENTER_LIMIT as int) <= m.center_y <= CENTER_LIMIT as int
    &&& 0 <= m.aspect <= crate::camera::ASPECT_LIMIT as int
    &&& 1 <= m.window_width <= DIM_LIMIT
    &&& 1 <= m.window_height <= DIM_LIMIT
    &&& 0 <= m.speed <= SCALE as int
    &&& -(SCALE as int) <= m.mouse_x <= SCALE as int
    &&& -(SCALE as int) <= m.mouse_y <= SCALE as int
}

/// Saturating center pan.
pub open spec fn simple_pan_s(m: SimpleModel, dx: int, dy: int) -> SimpleModel {
    SimpleModel {
        center_x: clamp_s(m.center_x + dx, -(CENTER_LIMIT as int), CENTER_LIMIT as int),
        center_y: clamp_s(m.center_y + dy, -(CENTER_LIMIT as int), CENTER_LIMIT as int),
        ..m
    }
}

/// The wheel zoom of the key-hold camera: a negative converted delta is a
/// zoom-out and is rejected at or past the 5.0 ceiling; otherwise the
/// center pans toward the pointer by `(-mouse_x * d * zoom,
/// mouse_y * d * zoom)` and the zoom becomes `zoom - d * zoom` (kept
/// positive), where `d` is the delta clamped into `[-1.0, 0.9]`.
pub open spec fn simple_wheel_s(m: SimpleModel, delta: int) -> (SimpleModel, bool) {
    let d = clamp_s(delta, -(DELTA_OUT_MAX as int), DELTA_IN_MAX as int);
    if d < 0 && m.zoom >= ZOOM_CEILING {
        (m, false)
    } else {
        let sx = -fx_mul_s(fx_mul_s(m.mouse_x, d), m.zoom);
        let sy = fx_mul_s(fx_mul_s(m.mouse_y, d), m.zoom);
        let z0 = m.zoom - fx_mul_s(d, m.zoom);
        let z = if z0 < 1 { 1int } else { z0 };
        (SimpleModel { zoom: z, ..simple_pan_s(m, sx, sy) }, true)
    }
}

/// A cursor move: store the new normalized position; while dragging, pan
/// by the raw normalized delta scaled by the zoom (no amplification).
pub open spec fn simple_cursor_s(m: SimpleModel, x: int, y: int) -> (SimpleModel, bool) {
    let nx = norm_coord_s(x, m.window_width);
    let ny = clamp_s(
        -(div_trunc_s(2 * y, m.window_height) - SCALE),
        -(SCALE as int),
        SCALE as int,
    );
    let dx = nx - m.mouse_x;
    let dy = ny - m.mouse_y;
    let m1 = SimpleModel { mouse_x: nx, mouse_y: ny, ..m };
    if m.dragging {
        (simple_pan_s(m1, fx_mul_s(dx, m.zoom), fx_mul_s(dy, m.zoom)), true)
    } else {
        (m1, false)
    }
}

/// Reset to the documented defaults: center (-0.75, 0), zoom 2.4,
/// aspect 1.0.
pub open spec fn simple_reset_s(m: SimpleModel) -> SimpleModel {
    SimpleModel {
        center_x: SIMPLE_DEFAULT_CENTER_X as int,
        center_y: 0,
        zoom: SIMPLE_DEFAULT_ZOOM as int,
        aspect: SCALE as int,
        ..m
    }
}

/// A key event: the six motion keys set their hold flag to the new key
/// state and report a change on every transition; Space resets on the
/// press edge.
pub open spec fn simple_key_s(m: SimpleModel, key: KeyCode, pressed: bool) -> (SimpleModel, bool) {
    match key {
        KeyCode::H | KeyCode::Left => (SimpleModel { hold_left: pressed, ..m }, true),
        KeyCode::L | KeyCode::Right => (SimpleModel { hold_right: pressed, ..m }, true),
        KeyCode::K | KeyCode::Up => (SimpleModel { hold_up: pressed, ..m }, true),
        KeyCode::J | KeyCode::Down => (SimpleModel { hold_down: pressed, ..m }, true),
        KeyCode::A | KeyCode::PageUp => (SimpleModel { hold_zoom_out: pressed, ..m }, true),
        KeyCode::S | KeyCode::PageDown => (SimpleModel { hold_zoom_in: pressed, ..m }, true),
        KeyCode::Space => if pressed {
            (simple_reset_s(m), true)
        } else {
            (m, false)
        },
        KeyCode::Other => (m, false),
    }
}

/// One controller step for an input event.
pub open spec fn simple_step_s(m: SimpleModel, e: InputEvent) -> (SimpleModel, bool) {
    match e {
        InputEvent::Keyboard { key, pressed } => simple_key_s(m, key, pressed),
        InputEvent::MouseLeft { pressed } => (SimpleModel { dragging: pressed, ..m }, false),
        InputEvent::CursorMoved { x, y } => simple_cursor_s(m, x as int, y as int),
        InputEvent::TouchpadMagnify { .. } => (m, false),
        InputEvent::MouseWheel { delta } => simple_wheel_s(m, wheel_delta_s(delta)),
        InputEvent::Other => (m, false),
    }
}

/// The per-frame integration of the six hold flags: each active flag adds
/// or subtracts `speed * zoom` on its axis; a held zoom-out clamps at the
/// 5.0 ceiling after the update, a held zoom-in never drops below one
/// fixed-point step.
pub open spec fn simple_update_s(m: SimpleModel) -> SimpleModel {
    let amt = fx_mul_s(m.speed, m.zoom);
    let dx = (if m.hold_left { -amt } else { 0int }) + (if m.hold_right { amt } else { 0int });
    let dy = (if m.hold_down { -amt } else { 0int }) + (if m.hold_up { amt } else { 0int });
    let m1 = simple_pan_s(m, dx, dy);
    let z1 = if m.hold_zoom_out {
        clamp_s(m1.zoom + fx_mul_s(m.speed, m1.zoom), 1, ZOOM_CEILING as int)
    } else {
        m1.zoom
    };
    let z2 = if m.hold_zoom_in {
        let shrunk = z1 - fx_mul_s(m.speed, z1);
        if shrunk < 1 {
            1int
        } else {
            shrunk
        }
    } else {
        z1
    };
    SimpleModel { zoom: z2, ..m1 }
}

impl SimpleCameraController {
    /// The controller invariant, stated on the model.
    pub open spec fn wf(self) -> bool {
        simple_wf(self@)
    }

    /// A fresh key-hold camera with all flags clear.
    pub fn new(speed: i64, width: u32, height: u32) -> (c: SimpleCameraController)
        requires
            0 <= speed <= SCALE,
            1 <= width <= DIM_LIMIT,
            1 <= height <= DIM_LIMIT,
        ensures
            c.wf(),
            c@ == (SimpleModel {
                window_width: width as int,
                window_height: height as int,
                center_x: SIMPLE_DEFAULT_CENTER_X as int,
                center_y: 0,
                zoom: SIMPLE_DEFAULT_ZOOM as int,
                aspect: SCALE as int,
                speed: speed as int,
                mouse_x: 0,
                mouse_y: 0,
                dragging: false,
                hold_left: false,
                hold_right: false,
                hold_up: false,
                hold_down: false,
                hold_zoom_in: false,
                hold_zoom_out: false,
            }),
    {
        SimpleCameraController {
            window_width: width,
            window_height: height,
            center_x: SIMPLE_DEFAULT_CENTER_X,
            center_y: 0,
            zoom: SIMPLE_DEFAULT_ZOOM,
            aspect: SCALE,
            speed,
            mouse_x: 0,
            mouse_y: 0,
            is_mouse_left_pressed: false,
            hold_left: false,
            hold_right: false,
            hold_up: false,
            hold_down: false,
            hold_zoom_in: false,
            hold_zoom_out: false,
        }
    }

    /// Saturating center pan.
    fn move_center(&mut self, dx: i64, dy: i64)
        requires
            old(self).wf(),
            -PAN_LIMIT <= dx <= PAN_LIMIT,
            -PAN_LIMIT <= dy <= PAN_LIMIT,
        ensures
            final(self)@ == simple_pan_s(old(self)@, dx as int, dy as int),
            final(self).wf(),
    {
        self.center_x = clamp(self.center_x + dx, -CENTER_LIMIT, CENTER_LIMIT);
        self.center_y = clamp(self.center_y + dy, -CENTER_LIMIT, CENTER_LIMIT);
    }

    /// Route one input event; the exact transition is `simple_step_s`.
    pub fn process_events(&mut self, event: &InputEvent) -> (changed: bool)
        requires
            old(self).wf(),
            event_wf(*event),
        ensures
            final(self)@ == simple_step_s(old(self)@, *event).0,
            changed == simple_step_s(old(self)@, *event).1,
            final(self).wf(),
    {
        match *event {
            InputEvent::Keyboard { key, pressed } => {
                match key {
                    KeyCode::H | KeyCode::Left => {
                        self.hold_left = pressed;
                        true
                    },
                    KeyCode::L | KeyCode::Right => {
                        self.hold_right = pressed;
                        true
                    },
                    KeyCode::K | KeyCode::Up => {
                        self.hold_up = pressed;
                        true
                    },
                    KeyCode::J | KeyCode::Down => {
                        self.hold_down = pressed;
                        true
                    },
                    KeyCode::A | KeyCode::PageUp => {
                        self.hold_zoom_out = pressed;
                        true
                    },
                    KeyCode::S | KeyCode::PageDown => {
                        self.hold_zoom_in = pressed;
                        true
                    },
                    KeyCode::Space => {
                        if pressed {
                            self.center_x = SIMPLE_DEFAULT_CENTER_X;
                            self.center_y = 0;
                            self.zoom = SIMPLE_DEFAULT_ZOOM;
                            self.aspect = SCALE;
                            true
                        } else {
                            false
                        }
                    },
                    KeyCode::Other => false,
                }
            },
            InputEvent::MouseLeft { pressed } => {
                self.is_mouse_left_pressed = pressed;
                false
            },
            InputEvent::CursorMoved { x, y } => {
                let nx: i64 = {
                    let raw: i64 = div_trunc(2 * x, self.window_width as i64) - SCALE;
                    clamp(raw, -SCALE, SCALE)
                };
                let raw_y: i64 = div_trunc(2 * y, self.window_height as i64) - SCALE;
                let ny: i64 = clamp(-raw_y, -SCALE, SCALE);
                let dx: i64 = nx - self.mouse_x;
                let dy: i64 = ny - self.mouse_y;
                let dragging: bool = self.is_mouse_left_pressed;
                self.mouse_x = nx;
                self.mouse_y = ny;
                if dragging {
                    proof {
                        lemma_fx_mul_bound(
                            dx as int,
                            self.zoom as int,
                            2_000_000_000_000,
                            ZOOM_MAX as int,
                        );
                        lemma_fx_mul_bound(
                            dy as int,
                            self.zoom as int,
                            2_000_000_000_000,
                            ZOOM_MAX as int,
                        );
                    }
                    let sx: i64 = fx_mul(dx, self.zoom);
                    let sy: i64 = fx_mul(dy, self.zoom);
                    self.move_center(sx, sy);
                    true
                } else {
                    false
                }
            },
            InputEvent::TouchpadMagnify { .. } => false,
            InputEvent::MouseWheel { delta } => {
                let d0: i64 = match delta {
                    ScrollDelta::Lines { x, y } => {
                        proof {
                            lemma_fx_mul_bound(
                                y as int,
                                LINE_SCALE as int,
                                crate::events::LINE_LIMIT as int,
                                LINE_SCALE as int,
                            );
                        }
                        fx_mul(y, LINE_SCALE)
                    },
                    ScrollDelta::Pixels { x, y } => {
                        proof {
                            lemma_fx_mul_bound(
                                y as int,
                                PIXEL_SCALE as int,
                                crate::events::CURSOR_LIMIT as int,
                                PIXEL_SCALE as int,
                            );
                        }
                        fx_mul(y, PIXEL_SCALE)
                    },
                };
                let d: i64 = clamp(d0, -DELTA_OUT_MAX, DELTA_IN_MAX);
                if d < 0 && self.zoom >= ZOOM_CEILING {
                    return false;
                }
                proof {
                    lemma_fx_mul_bound(self.mouse_x as int, d as int, SCALE as int, SCALE as int);
                    lemma_fx_mul_bound(self.mouse_y as int, d as int, SCALE as int, SCALE as int);
                }
                let px: i64 = fx_mul(self.mouse_x, d);
                let py: i64 = fx_mul(self.mouse_y, d);
                proof {
                    lemma_fx_mul_bound(px as int, self.zoom as int, SCALE as int, ZOOM_MAX as int);
                    lemma_fx_mul_bound(py as int, self.zoom as int, SCALE as int, ZOOM_MAX as int);
                    lemma_fx_mul_bound(d as int, self.zoom as int, SCALE as int, ZOOM_MAX as int);
                }
                let sx: i64 = -fx_mul(px, self.zoom);
                let sy: i64 = fx_mul(py, self.zoom);
                let shrink: i64 = fx_mul(d, self.zoom);
                let z0: i64 = self.zoom - shrink;
                let z: i64 = if z0 < 1 { 1 } else { z0 };
                proof {
                    lemma_zoom_shrink_bounds(self.zoom as int, d as int);
                }
                self.move_center(sx, sy);
                self.zoom = z;
                true
            },
            InputEvent::Other => false,
        }
    }

    /// Integrate the hold flags once per rendered frame; the exact
    /// transition is `simple_update_s`.
    pub fn update_camera(&mut self)
        requires
            old(self).wf(),
        ensures
            final(self)@ == simple_update_s(old(self)@),
            final(self).wf(),
    {
        proof {
            lemma_fx_mul_bound(self.speed as int, self.zoom as int, SCALE as int, ZOOM_MAX as int);
        }
        let amt: i64 = fx_mul(self.speed, self.zoom);
        let dx: i64 = (if self.hold_left { -amt } else { 0 }) + (if self.hold_right {
            amt
        } else {
            0
        });
        let dy: i64 = (if self.hold_down { -amt } else { 0 }) + (if self.hold_up { amt } else { 0 });
        self.move_center(dx, dy);
        if self.hold_zoom_out {
            proof {
                lemma_fx_mul_bound(
                    self.speed as int,
                    self.zoom as int,
                    SCALE as int,
                    ZOOM_MAX as int,
                );
            }
            let grow: i64 = fx_mul(self.speed, self.zoom);
            self.zoom = clamp(self.zoom + grow, 1, ZOOM_CEILING);
        }
        if self.hold_zoom_in {
            proof {
                lemma_fx_mul_bound(
                    self.speed as int,
                    self.zoom as int,
                    SCALE as int,
                    ZOOM_MAX as int,
                );
                lemma_speed_shrink_bounds(self.zoom as int, self.speed as int);
            }
            let shrink: i64 = fx_mul(self.speed, self.zoom);
            let z0: i64 = self.zoom - shrink;
            self.zoom = if z0 < 1 { 1 } else { z0 };
        }
    }

    /// Update the stored window size and recompute the aspect ratio.
    pub fn update_window_size(&mut self, width: u32, height: u32)
        requires
            old(self).wf(),
            1 <= width <= DIM_LIMIT,
            1 <= height <= DIM_LIMIT,
        ensures
            final(self)@ == (SimpleModel {
                window_width: width as int,
                window_height: height as int,
                aspect: div_trunc_s(width as int * SCALE as int, height as int),
                ..old(self)@
            }),
            final(self).wf(),
    {
        self.window_width = width;
        self.window_height = height;
        let num: i64 = (width as i64) * SCALE;
        let a: i64 = div_trunc(num, height as i64);
        proof {
            vstd::arithmetic::div_mod::lemma_div_pos_is_pos(num as int, height as int);
            vstd::arithmetic::div_mod::lemma_div_nonincreasing(num as int, height as int);
        }
        self.aspect = a;
    }
}

/// After a wheel zoom the new scalar `zoom - trunc(d * zoom)` stays within
/// the invariant's bounds: a clamped delta shrinks by strictly less than
/// the whole zoom and a ceiling-checked zoom-out at most doubles it.
proof fn lemma_zoom_shrink_bounds(zoom: int, d: int)
    requires
        1 <= zoom <= ZOOM_MAX as int,
        -(DELTA_OUT_MAX as int) <= d <= DELTA_IN_MAX as int,
        d < 0 ==> zoom < ZOOM_CEILING as int,
    ensures
        zoom - fx_mul_s(d, zoom) <= ZOOM_MAX as int,
        d >= 0 ==> fx_mul_s(d, zoom) < zoom,
{
    lemma_fx_mul_bound(d, zoom, DELTA_OUT_MAX as int, ZOOM_MAX as int);
    if d >= 0 {
        lemma_speed_shrink_bounds(zoom, d);
    } else {
        lemma_fx_mul_bound(d, zoom, DELTA_OUT_MAX as int, ZOOM_CEILING as int);
    }
}

/// A shrink step `trunc(s * zoom)` with `s` at most 1.0 removes at most
/// the whole zoom, and strictly less when `s` is below 1.0.
proof fn lemma_speed_shrink_bounds(zoom: int, s: int)
    requires
        1 <= zoom,
        0 <= s <= SCALE as int,
    ensures
        0 <= fx_mul_s(s, zoom) <= zoom,
        s < SCALE as int ==> fx_mul_s(s, zoom) < zoom,
{
    let p = s * zoom;
    assert(0 <= s * zoom && s * zoom <= (SCALE as int) * zoom && (s < SCALE as int ==> s * zoom
        < (SCALE as int) * zoom)) by (nonlinear_arith)
        requires
            1 <= zoom,
            0 <= s <= SCALE as int,
    ;
    vstd::arithmetic::div_mod::lemma_div_pos_is_pos(p, SCALE as int);
    vstd::arithmetic::div_mod::lemma_div_is_ordered(p, (SCALE as int) * zoom, SCALE as int);
    vstd::arithmetic::div_mod::lemma_div_multiples_vanish(zoom, SCALE as int);
    if s < SCALE as int {
        vstd::arithmetic::div_mod::lemma_multiply_divide_lt(p, SCALE as int, zoom);
    }
}

} // verus!
