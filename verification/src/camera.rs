//! The interactive camera: a double-width fixed-point view state plus the
//! rules that turn window input into pans and anchored zooms.
//!
//! Every transition is specified functionally: `step_s` maps the previous
//! model and an input event to the next model and the "changed" report, and
//! `process_events` is proved to implement it exactly.

use vstd::prelude::*;

verus! {

use crate::events::{InputEvent, KeyCode, ScrollDelta, event_wf};
use crate::fixed::{
    SCALE, FX_CAP, clamp, clamp_s, div_trunc, div_trunc_s, fx_mul, fx_mul_s, lemma_fx_mul_bound,
};
use vstd::arithmetic::div_mod::{lemma_div_nonincreasing, lemma_div_pos_is_pos};

/// Zoom-out requests are rejected once the zoom scalar has reached 5.0.
pub const ZOOM_CEILING: i64 = 5_000_000_000_000;

/// The zoom scalar never exceeds 10.0: a zoom-out starts below the 5.0
/// ceiling and at most doubles it.
pub const ZOOM_MAX: i64 = 10_000_000_000_000;

/// Below this zoom (0.0001, strictly) the shader needs 64-bit arithmetic.
pub const MATH64_THRESHOLD: i64 = 100_000_000;

/// Center coordinates saturate at a million units from the origin, far
/// outside the escape radius of every Mandelbrot point.
pub const CENTER_LIMIT: i64 = 1_000_000_000_000_000_000;

/// A single pan step never moves the center by more than eight million
/// units; keeps the saturating center addition inside `i64`.
pub const PAN_LIMIT: i64 = 8_000_000_000_000_000_000;

/// Zoom deltas are clamped into `[-DELTA_IN_MAX, DELTA_OUT_MAX]` so the
/// zoom factor stays within `[0.1, 2.0]` and the zoom scalar stays positive.
pub const DELTA_IN_MAX: i64 = 900_000_000_000;

/// Upper clamp for a zoom delta (see `DELTA_IN_MAX`).
pub const DELTA_OUT_MAX: i64 = 1_000_000_000_000;

/// Window dimensions are kept in `[1, DIM_LIMIT]` pixels.
pub const DIM_LIMIT: u32 = 1_000_000;

/// Aspect ratio bound implied by the dimension bounds.
pub const ASPECT_LIMIT: i64 = 1_000_000_000_000_000_000;

/// A line-scroll count becomes a zoom delta at 0.11 per line.
pub const LINE_SCALE: i64 = 110_000_000_000;

/// A pixel-scroll distance becomes a zoom delta at 0.001 per pixel.
pub const PIXEL_SCALE: i64 = 1_000_000_000;

/// Default view center, x coordinate (-0.75).
pub const DEFAULT_CENTER_X: i64 = -750_000_000_000;

/// Default view center, y coordinate.
pub const DEFAULT_CENTER_Y: i64 = 0;

/// Default zoom scalar (1.2).
pub const DEFAULT_ZOOM: i64 = 1_200_000_000_000;

/// Default aspect ratio (1.0).
pub const DEFAULT_ASPECT: i64 = 1_000_000_000_000;

/// Default pan speed (0.02 units per key press, scaled by zoom).
pub const DEFAULT_SPEED: i64 = 20_000_000_000;

/// The view state uploaded to the GPU each frame, in fixed point. The host
/// widens these to the shader's floating-point layout.
#[derive(Clone, Copy, Debug, PartialEq, Eq, Structural)]
pub struct Properties {
    pub center_x: i64,
    pub center_y: i64,
    pub zoom: i64,
    pub aspect: i64,
    pub math64: u32,
}

/// The single-precision projection of `Properties`: same field order, and
/// the 64-bit flag always cleared.
#[derive(Clone, Copy, Debug, PartialEq, Eq, Structural)]
pub struct Properties32 {
    pub center_x: i64,
    pub center_y: i64,
    pub zoom: i64,
    pub aspect: i64,
    pub math64: u32,
}

/// Mathematical model of `Properties`.
pub ghost struct PropsModel {
    pub center_x: int,
    pub center_y: int,
    pub zoom: int,
    pub aspect: int,
    pub math64: int,
}

impl View for Properties {
    type V = PropsModel;

    open spec fn view(&self) -> PropsModel {
        PropsModel {
            center_x: self.center_x as int,
            center_y: self.center_y as int,
            zoom: self.zoom as int,
            aspect: self.aspect as int,
            math64: self.math64 as int,
        }
    }
}

/// The view state a freshly constructed or reset camera holds.
pub open spec fn default_props_s() -> PropsModel {
    PropsModel {
        center_x: DEFAULT_CENTER_X as int,
        center_y: DEFAULT_CENTER_Y as int,
        zoom: DEFAULT_ZOOM as int,
        aspect: DEFAULT_ASPECT as int,
        math64: 0,
    }
}

impl Default for Properties {
    /// Default view state: center (-0.75, 0), zoom 1.2, aspect 1.0,
    /// 64-bit flag clear.
    fn default() -> (p: Properties)
        ensures
            p@ == default_props_s(),
    {
        Properties {
            center_x: DEFAULT_CENTER_X,
            center_y: DEFAULT_CENTER_Y,
            zoom: DEFAULT_ZOOM,
            aspect: DEFAULT_ASPECT,
            math64: 0,
        }
    }
}

impl From<Properties> for Properties32 {
    /// Field-for-field copy with the 64-bit flag forced to zero; the host
    /// narrows the copied values to 32-bit floats on upload.
    fn from(p: Properties) -> (r: Properties32) {
        Properties32 {
            center_x: p.center_x,
            center_y: p.center_y,
            zoom: p.zoom,
            aspect: p.aspect,
            math64: 0,
        }
    }
}

impl vstd::std_specs::convert::FromSpecImpl<Properties> for Properties32 {
    open spec fn obeys_from_spec() -> bool {
        true
    }

    open spec fn from_spec(p: Properties) -> Properties32 {
        Properties32 {
            center_x: p.center_x,
            center_y: p.center_y,
            zoom: p.zoom,
            aspect: p.aspect,
            math64: 0,
        }
    }
}

/// The interactive camera controller: view state, pan speed, window size in
/// pixels, and the pointer state used to anchor zooms and compute drags.
pub struct CameraController {
    pub window_width: u32,
    pub window_height: u32,
    pub properties: Properties,
    pub speed: i64,
    /// Last pointer position, normalized into `[-1, 1]` of a unit.
    pub mouse_x: i64,
    pub mouse_y: i64,
    pub is_mouse_left_pressed: bool,
}

/// Mathematical model of `CameraController`.
pub ghost struct CameraModel {
    pub window_width: int,
    pub window_height: int,
    pub props: PropsModel,
    pub speed: int,
    pub mouse_x: int,
    pub mouse_y: int,
    pub dragging: bool,
}

impl View for CameraController {
    type V = CameraModel;

    open spec fn view(&self) -> CameraModel {
        CameraModel {
            window_width: self.window_width as int,
            window_height: self.window_height as int,
            props: self.properties@,
            speed: self.speed as int,
            mouse_x: self.mouse_x as int,
            mouse_y: self.mouse_y as int,
            dragging: self.is_mouse_left_pressed,
        }
    }
}

/// View-state invariant: positive bounded zoom, saturated center range,
/// and the 64-bit flag exactly tracking the zoom threshold.
pub open spec fn props_wf(p: PropsModel) -> bool {
    &&& 1 <= p.zoom <= ZOOM_MAX
    &&& -(CENTER_LIMIT as int) <= p.center_x <= CENTER_LIMIT as int
    &&& -(CENTER_LIMIT as int) <= p.center_y <= CENTER_LIMIT as int
    &&& 0 <= p.aspect <= ASPECT_LIMIT as int
    &&& p.math64 == (if p.zoom < MATH64_THRESHOLD { 1int } else { 0int })
}

/// Controller invariant, preserved by every operation.
pub open spec fn model_wf(m: CameraModel) -> bool {
    &&& props_wf(m.props)
    &&& 1 <= m.window_width <= DIM_LIMIT
    &&& 1 <= m.window_height <= DIM_LIMIT
    &&& 0 <= m.speed <= SCALE as int
    &&& -(SCALE as int) <= m.mouse_x <= SCALE as int
    &&& -(SCALE as int) <= m.mouse_y <= SCALE as int
}

/// Pan: add a delta to the center, saturating at `CENTER_LIMIT`.
pub open spec fn pan_s(m: CameraModel, dx: int, dy: int) -> CameraModel {
    CameraModel {
        props: PropsModel {
            center_x: clamp_s(m.props.center_x + dx, -(CENTER_LIMIT as int), CENTER_LIMIT as int),
            center_y: clamp_s(m.props.center_y + dy, -(CENTER_LIMIT as int), CENTER_LIMIT as int),
            ..m.props
        },
        ..m
    }
}

/// Zoom deltas are clamped before use so the factor `1 + delta` stays in
/// `[0.1, 2.0]`.
pub open spec fn clamp_delta_s(delta: int) -> int {
    clamp_s(delta, -(DELTA_IN_MAX as int), DELTA_OUT_MAX as int)
}

/// The anchored zoom: reject a zoom-out at or past the ceiling; otherwise
/// scale the zoom by `1 + delta` (never below one fixed-point step), pan the
/// center by `anchor * (1 - factor) * zoom'` with the updated zoom, so the
/// plane point under the anchor stays fixed, and recompute the 64-bit flag.
pub open spec fn zoom_step_s(m: CameraModel, ax: int, ay: int, delta: int) -> (CameraModel, bool) {
    let d = clamp_delta_s(delta);
    if d > 0 && m.props.zoom >= ZOOM_CEILING {
        (m, false)
    } else {
        let factor = SCALE + d;
        let z0 = fx_mul_s(m.props.zoom, factor);
        let z = if z0 < 1 { 1int } else { z0 };
        let sx = fx_mul_s(fx_mul_s(ax, SCALE - factor), z);
        let sy = fx_mul_s(fx_mul_s(ay, SCALE - factor), z);
        let m1 = CameraModel {
            props: PropsModel {
                zoom: z,
                math64: if z < MATH64_THRESHOLD { 1int } else { 0int },
                ..m.props
            },
            ..m
        };
        (pan_s(m1, sx, sy), true)
    }
}

/// A wheel delta in zoom units: lines scale by 0.11, pixels by 0.001; only
/// the vertical component matters.
pub open spec fn wheel_delta_s(delta: ScrollDelta) -> int {
    match delta {
        ScrollDelta::Lines { x, y } => fx_mul_s(y as int, LINE_SCALE as int),
        ScrollDelta::Pixels { x, y } => fx_mul_s(y as int, PIXEL_SCALE as int),
    }
}

/// A key event: motion keys pan by `speed * zoom` on the press edge, the
/// zoom keys zoom at the origin (A/PageUp out, S/PageDown in), Space resets
/// the view state; releases and unknown keys change nothing.
pub open spec fn key_step_s(m: CameraModel, key: KeyCode, pressed: bool) -> (CameraModel, bool) {
    if !pressed {
        (m, false)
    } else {
        match key {
            KeyCode::H | KeyCode::Left => (
                pan_s(m, -fx_mul_s(m.speed, m.props.zoom), 0),
                true,
            ),
            KeyCode::J | KeyCode::Down => (
                pan_s(m, 0, -fx_mul_s(m.speed, m.props.zoom)),
                true,
            ),
            KeyCode::K | KeyCode::Up => (pan_s(m, 0, fx_mul_s(m.speed, m.props.zoom)), true),
            KeyCode::L | KeyCode::Right => (pan_s(m, fx_mul_s(m.speed, m.props.zoom), 0), true),
            KeyCode::A | KeyCode::PageUp => zoom_step_s(m, 0, 0, m.speed),
            KeyCode::S | KeyCode::PageDown => zoom_step_s(m, 0, 0, -m.speed),
            KeyCode::Space => (CameraModel { props: default_props_s(), ..m }, true),
            KeyCode::Other => (m, false),
        }
    }
}

/// Normalize a cursor pixel coordinate: `2 p / extent - 1`, clamped into
/// `[-1, 1]` of a unit.
pub open spec fn norm_coord_s(p: int, extent: int) -> int {
    clamp_s(div_trunc_s(2 * p, extent) - SCALE, -(SCALE as int), SCALE as int)
}

/// A cursor move: store the new normalized position (y grows upward);
/// while the left button is held, pan by twice the normalized delta scaled
/// by the zoom, against the motion.
pub open spec fn cursor_step_s(m: CameraModel, x: int, y: int) -> (CameraModel, bool) {
    let nx = norm_coord_s(x, m.window_width);
    let ny = clamp_s(
        -(div_trunc_s(2 * y, m.window_height) - SCALE),
        -(SCALE as int),
        SCALE as int,
    );
    let dx = nx - m.mouse_x;
    let dy = ny - m.mouse_y;
    let m1 = CameraModel { mouse_x: nx, mouse_y: ny, ..m };
    if m.dragging {
        (
            pan_s(
                m1,
                -2 * fx_mul_s(dx, m.props.zoom),
                -2 * fx_mul_s(dy, m.props.zoom),
            ),
            true,
        )
    } else {
        (m1, false)
    }
}

/// A window resize: store the new pixel size and recompute the aspect
/// ratio as `width / height`, truncated.
pub open spec fn resize_s(m: CameraModel, w: int, h: int) -> CameraModel {
    CameraModel {
        window_width: w,
        window_height: h,
        props: PropsModel {
            aspect: div_trunc_s(w * SCALE as int, h),
            ..m.props
        },
        ..m
    }
}

/// One controller step: the next model and the "changed" report for an
/// input event.
pub open spec fn step_s(m: CameraModel, e: InputEvent) -> (CameraModel, bool) {
    match e {
        InputEvent::Keyboard { key, pressed } => key_step_s(m, key, pressed),
        InputEvent::MouseLeft { pressed } => (CameraModel { dragging: pressed, ..m }, false),
        InputEvent::CursorMoved { x, y } => cursor_step_s(m, x as int, y as int),
        InputEvent::TouchpadMagnify { delta } => zoom_step_s(
            m,
            m.mouse_x,
            m.mouse_y,
            delta as int,
        ),
        InputEvent::MouseWheel { delta } => zoom_step_s(
            m,
            m.mouse_x,
            m.mouse_y,
            -wheel_delta_s(delta),
        ),
        InputEvent::Other => (m, false),
    }
}

impl CameraController {
    /// The controller invariant, stated on the model.
    pub open spec fn wf(self) -> bool {
        model_wf(self@)
    }

    /// A fresh controller: default view state except the aspect ratio,
    /// which comes from the window's initial size.
    pub fn new(speed: i64, width: u32, height: u32) -> (c: CameraController)
        requires
            0 <= speed <= SCALE,
            1 <= width <= DIM_LIMIT,
            1 <= height <= DIM_LIMIT,
        ensures
            c.wf(),
            c@.speed == speed as int,
            c@.window_width == width as int,
            c@.window_height == height as int,
            c@.props == (PropsModel {
                aspect: div_trunc_s(width as int * SCALE as int, height as int),
                ..default_props_s()
            }),
            c@.mouse_x == 0,
            c@.mouse_y == 0,
            !c@.dragging,
    {
        let aspect: i64 = aspect_of(width, height);
        CameraController {
            window_width: width,
            window_height: height,
            properties: Properties {
                center_x: DEFAULT_CENTER_X,
                center_y: DEFAULT_CENTER_Y,
                zoom: DEFAULT_ZOOM,
                aspect,
                math64: 0,
            },
            speed,
            mouse_x: 0,
            mouse_y: 0,
            is_mouse_left_pressed: false,
        }
    }

    /// The current view state.
    pub fn properties(&self) -> (p: Properties)
        ensures
            p == self.properties,
    {
        self.properties
    }

    /// The view state projected for single-precision upload: same values,
    /// 64-bit flag cleared.
    pub fn properties32(&self) -> (p: Properties32)
        ensures
            p.center_x == self.properties.center_x,
            p.center_y == self.properties.center_y,
            p.zoom == self.properties.zoom,
            p.aspect == self.properties.aspect,
            p.math64 == 0,
    {
        Properties32::from(self.properties)
    }

    /// Last normalized pointer position.
    pub fn mouse_position(&self) -> (pos: (i64, i64))
        ensures
            pos.0 == self.mouse_x,
            pos.1 == self.mouse_y,
    {
        (self.mouse_x, self.mouse_y)
    }

    /// Pan the center by `(dx, dy)`, saturating at `CENTER_LIMIT`.
    fn move_center(&mut self, dx: i64, dy: i64)
        requires
            old(self).wf(),
            -PAN_LIMIT <= dx <= PAN_LIMIT,
            -PAN_LIMIT <= dy <= PAN_LIMIT,
        ensures
            final(self)@ == pan_s(old(self)@, dx as int, dy as int),
            final(self).wf(),
    {
        self.properties.center_x = clamp(
            self.properties.center_x + dx,
            -CENTER_LIMIT,
            CENTER_LIMIT,
        );
        self.properties.center_y = clamp(
            self.properties.center_y + dy,
            -CENTER_LIMIT,
            CENTER_LIMIT,
        );
    }

    /// The anchored zoom of `zoom_step_s`; reports whether the state
    /// changed (false exactly when a zoom-out hit the ceiling).
    pub fn zoom(&mut self, anchor_x: i64, anchor_y: i64, delta: i64) -> (changed: bool)
        requires
            old(self).wf(),
            -SCALE <= anchor_x <= SCALE,
            -SCALE <= anchor_y <= SCALE,
        ensures
            final(self)@ == zoom_step_s(old(self)@, anchor_x as int, anchor_y as int, delta as int).0,
            changed == zoom_step_s(old(self)@, anchor_x as int, anchor_y as int, delta as int).1,
            final(self).wf(),
    {
        let d: i64 = clamp(delta, -DELTA_IN_MAX, DELTA_OUT_MAX);
        if d > 0 && self.properties.zoom >= ZOOM_CEILING {
            return false;
        }
        let factor: i64 = SCALE + d;
        proof {
            if d > 0 {
                lemma_fx_mul_bound(
                    self.properties.zoom as int,
                    factor as int,
                    ZOOM_CEILING as int,
                    2 * SCALE as int,
                );
            } else {
                lemma_fx_mul_bound(
                    self.properties.zoom as int,
                    factor as int,
                    ZOOM_MAX as int,
                    SCALE as int,
                );
            }
        }
        let z0: i64 = fx_mul(self.properties.zoom, factor);
        let z: i64 = if z0 < 1 { 1 } else { z0 };
        let neg_d: i64 = SCALE - factor;
        proof {
            lemma_fx_mul_bound(anchor_x as int, neg_d as int, SCALE as int, SCALE as int);
            lemma_fx_mul_bound(anchor_y as int, neg_d as int, SCALE as int, SCALE as int);
        }
        let tx: i64 = fx_mul(anchor_x, neg_d);
        let ty: i64 = fx_mul(anchor_y, neg_d);
        proof {
            lemma_fx_mul_bound(tx as int, z as int, SCALE as int, ZOOM_MAX as int);
            lemma_fx_mul_bound(ty as int, z as int, SCALE as int, ZOOM_MAX as int);
        }
        let sx: i64 = fx_mul(tx, z);
        let sy: i64 = fx_mul(ty, z);
        self.properties.zoom = z;
        self.properties.math64 = if z < MATH64_THRESHOLD { 1 } else { 0 };
        self.move_center(sx, sy);
        true
    }

    /// Update the stored window size and recompute the aspect ratio as
    /// exactly `width * SCALE / height`, truncated.
    pub fn update_window_size(&mut self, width: u32, height: u32)
        requires
            old(self).wf(),
            1 <= width <= DIM_LIMIT,
            1 <= height <= DIM_LIMIT,
        ensures
            final(self)@ == resize_s(old(self)@, width as int, height as int),
            final(self).wf(),
    {
        self.window_width = width;
        self.window_height = height;
        self.properties.aspect = aspect_of(width, height);
    }

    /// Route one input event: the exact transition is `step_s`.
    pub fn process_events(&mut self, event: &InputEvent) -> (changed: bool)
        requires
            old(self).wf(),
            event_wf(*event),
        ensures
            final(self)@ == step_s(old(self)@, *event).0,
            changed == step_s(old(self)@, *event).1,
            final(self).wf(),
    {
        match *event {
            InputEvent::Keyboard { key, pressed } => {
                if !pressed {
                    return false;
                }
                match key {
                    KeyCode::H | KeyCode::Left => {
                        let amt: i64 = self.pan_amount();
                        self.move_center(-amt, 0);
                        true
                    },
                    KeyCode::J | KeyCode::Down => {
                        let amt: i64 = self.pan_amount();
                        self.move_center(0, -amt);
                        true
                    },
                    KeyCode::K | KeyCode::Up => {
                        let amt: i64 = self.pan_amount();
                        self.move_center(0, amt);
                        true
                    },
                    KeyCode::L | KeyCode::Right => {
                        let amt: i64 = self.pan_amount();
                        self.move_center(amt, 0);
                        true
                    },
                    KeyCode::A | KeyCode::PageUp => {
                        let out_delta: i64 = self.speed;
                        self.zoom(0, 0, out_delta)
                    },
                    KeyCode::S | KeyCode::PageDown => {
                        let in_delta: i64 = -self.speed;
                        self.zoom(0, 0, in_delta)
                    },
                    KeyCode::Space => {
                        self.properties = Properties::default();
                        true
                    },
                    KeyCode::Other => false,
                }
            },
            InputEvent::MouseLeft { pressed } => {
                self.is_mouse_left_pressed = pressed;
                false
            },
            InputEvent::CursorMoved { x, y } => {
                let nx: i64 = norm_coord(x, self.window_width);
                let raw_y: i64 = div_trunc(2 * y, self.window_height as i64) - SCALE;
                let ny: i64 = clamp(-raw_y, -SCALE, SCALE);
                let dx: i64 = nx - self.mouse_x;
                let dy: i64 = ny - self.mouse_y;
                let dragging: bool = self.is_mouse_left_pressed;
                self.mouse_x = nx;
                self.mouse_y = ny;
                if dragging {
                    proof {
                        lemma_fx_mul_bound(
                            dx as int,
                            self.properties.zoom as int,
                            2_000_000_000_000,
                            ZOOM_MAX as int,
                        );
                        lemma_fx_mul_bound(
                            dy as int,
                            self.properties.zoom as int,
                            2_000_000_000_000,
                            ZOOM_MAX as int,
                        );
                    }
                    let mx: i64 = fx_mul(dx, self.properties.zoom);
                    let my: i64 = fx_mul(dy, self.properties.zoom);
                    let sx: i64 = -(2 * mx);
                    let sy: i64 = -(2 * my);
                    self.move_center(sx, sy);
                    true
                } else {
                    false
                }
            },
            InputEvent::TouchpadMagnify { delta } => {
                let ax: i64 = self.mouse_x;
                let ay: i64 = self.mouse_y;
                self.zoom(ax, ay, delta)
            },
            InputEvent::MouseWheel { delta } => {
                let d: i64 = match delta {
                    ScrollDelta::Lines { x, y } => {
                        proof {
                            lemma_fx_mul_bound(
                                y as int,
                                LINE_SCALE as int,
                                crate::events::LINE_LIMIT as int,
                                LINE_SCALE as int,
                            );
                        }
                        fx_mul(y, LINE_SCALE)
                    },
                    ScrollDelta::Pixels { x, y } => {
                        proof {
                            lemma_fx_mul_bound(
                                y as int,
                                PIXEL_SCALE as int,
                                crate::events::CURSOR_LIMIT as int,
                                PIXEL_SCALE as int,
                            );
                        }
                        fx_mul(y, PIXEL_SCALE)
                    },
                };
                let ax: i64 = self.mouse_x;
                let ay: i64 = self.mouse_y;
                self.zoom(ax, ay, -d)
            },
            InputEvent::Other => false,
        }
    }

    /// One key press pans by `speed * zoom`.
    fn pan_amount(&self) -> (amt: i64)
        requires
            self.wf(),
        ensures
            amt == fx_mul_s(self@.speed, self@.props.zoom),
            -PAN_LIMIT <= amt <= PAN_LIMIT,
    {
        proof {
            lemma_fx_mul_bound(
                self.speed as int,
                self.properties.zoom as int,
                SCALE as int,
                ZOOM_MAX as int,
            );
        }
        fx_mul(self.speed, self.properties.zoom)
    }
}

/// Aspect ratio of a window: `width / height` in fixed point, truncated.
fn aspect_of(width: u32, height: u32) -> (a: i64)
    requires
        1 <= width <= DIM_LIMIT,
        1 <= height <= DIM_LIMIT,
    ensures
        a == div_trunc_s(width as int * SCALE as int, height as int),
        0 <= a <= ASPECT_LIMIT,
{
    let num: i64 = (width as i64) * SCALE;
    let a: i64 = div_trunc(num, height as i64);
    proof {
        lemma_div_pos_is_pos(num as int, height as int);
        lemma_div_nonincreasing(num as int, height as int);
    }
    a
}

/// Normalize a cursor pixel coordinate against a window extent.
fn norm_coord(p: i64, extent: u32) -> (n: i64)
    requires
        -crate::events::CURSOR_LIMIT <= p <= crate::events::CURSOR_LIMIT,
        1 <= extent <= DIM_LIMIT,
    ensures
        n == norm_coord_s(p as int, extent as int),
        -SCALE <= n <= SCALE,
{
    let raw: i64 = div_trunc(2 * p, extent as i64) - SCALE;
    clamp(raw, -SCALE, SCALE)
}

} // verus!
