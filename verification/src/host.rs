//! The decision core of the rendering host: which GPU feature set to ask
//! for, how window events map to surface, fullscreen and redraw actions,
//! and the numbers shown in the window title.
//!
//! The unverified host around the library performs the returned
//! `HostAction` (reconfigure the surface, flip fullscreen, draw, retitle)
//! and owns everything the GPU and the window system touch.

use vstd::prelude::*;

verus! {

use crate::camera::{CameraController, CameraModel, DIM_LIMIT, resize_s, step_s};
use crate::events::{InputEvent, event_wf};
use crate::fixed::{FX_CAP, SCALE};

/// The graphics backends the GPU library may report.
#[derive(Clone, Copy, Debug, PartialEq, Eq, Structural)]
pub enum Backend {
    Empty,
    Gl,
    Dx12,
    Dx11,
    Metal,
    Vulkan,
    BrowserWebGpu,
}

/// The adapter classes the GPU library may report.
#[derive(Clone, Copy, Debug, PartialEq, Eq, Structural)]
pub enum DeviceType {
    Other,
    IntegratedGpu,
    DiscreteGpu,
    VirtualGpu,
    Cpu,
}

/// 64-bit shader arithmetic is requested exactly on the one backend known
/// to offer it: Vulkan.
pub fn wants_float64(backend: Backend) -> (r: bool)
    ensures
        r <==> backend is Vulkan,
{
    match backend {
        Backend::Vulkan => true,
        _ => false,
    }
}

/// Display name of a backend, for the startup log.
pub fn backend_str(backend: Backend) -> (s: &'static str)
    ensures
        backend is Empty ==> s@ == "None"@,
        backend is Gl ==> s@ == "OpenGL"@,
        backend is Dx12 ==> s@ == "DirectX 12"@,
        backend is Dx11 ==> s@ == "DirectX 11"@,
        backend is Metal ==> s@ == "Metal"@,
        backend is Vulkan ==> s@ == "Vulkan"@,
        backend is BrowserWebGpu ==> s@ == "WebGPU"@,
{
    match backend {
        Backend::Empty => "None",
        Backend::Gl => "OpenGL",
        Backend::Dx12 => "DirectX 12",
        Backend::Dx11 => "DirectX 11",
        Backend::Metal => "Metal",
        Backend::Vulkan => "Vulkan",
        Backend::BrowserWebGpu => "WebGPU",
    }
}

/// Display name of an adapter class, for the startup log.
pub fn type_str(device_type: DeviceType) -> (s: &'static str)
    ensures
        device_type is Other ==> s@ == "Other"@,
        device_type is IntegratedGpu ==> s@ == "Integrated GPU"@,
        device_type is DiscreteGpu ==> s@ == "Discrete GPU"@,
        device_type is VirtualGpu ==> s@ == "Virtual GPU"@,
        device_type is Cpu ==> s@ == "CPU"@,
{
    match device_type {
        DeviceType::Other => "Other",
        DeviceType::IntegratedGpu => "Integrated GPU",
        DeviceType::DiscreteGpu => "Discrete GPU",
        DeviceType::VirtualGpu => "Virtual GPU",
        DeviceType::Cpu => "CPU",
    }
}

/// A window event, as the host state machine sees it. F11 and Escape are
/// routed here (they drive fullscreen), everything else the camera handles.
#[derive(Clone, Copy, Debug, PartialEq, Eq, Structural)]
#[allow(inconsistent_fields)]
pub enum HostEvent {
    /// The user asked to close the window.
    CloseRequested,
    /// The window was resized to `width` by `height` device pixels.
    Resized { width: u32, height: u32 },
    /// The F11 key changed state.
    F11 { pressed: bool },
    /// The Escape key changed state.
    EscapeKey { pressed: bool },
    /// Any other window event, delegated to the camera controller.
    Window { event: InputEvent },
    /// The platform asked for a redraw.
    RedrawRequested,
}

/// What the unverified host must do after a step.
#[derive(Clone, Copy, Debug, PartialEq, Eq, Structural)]
pub enum HostAction {
    /// Leave the event loop and end the process.
    Exit,
    /// Reconfigure the surface to the stored size, re-upload the view
    /// state in the active precision, and request a redraw.
    Reconfigure,
    /// Enter (`on`) or leave borderless fullscreen.
    SetFullscreen { on: bool },
    /// Refresh the window title; additionally request a redraw when the
    /// camera reported a change.
    RefreshTitle { redraw: bool },
    /// Upload the view state and draw one frame.
    Render,
    /// Nothing to do.
    NoOp,
}

/// Host-side state: previous key states for edge-triggered fullscreen,
/// the mirrored fullscreen flag, the configured surface size, the last
/// frame time, and whether 64-bit shader arithmetic was negotiated.
pub struct HostState {
    pub f11_prev_pressed: bool,
    pub esc_prev_pressed: bool,
    pub fullscreen: bool,
    pub surface_width: u32,
    pub surface_height: u32,
    /// Duration of the last rendered frame in microseconds; at least one.
    pub frame_time_us: u64,
    pub float64: bool,
}

impl HostState {
    /// Host invariant: a usable surface size and a positive frame time.
    pub open spec fn wf(self) -> bool {
        &&& 1 <= self.surface_width <= DIM_LIMIT
        &&& 1 <= self.surface_height <= DIM_LIMIT
        &&& 1 <= self.frame_time_us
    }

    /// Fresh host state: keys released, windowed, one second of frame
    /// time until the first frame is measured.
    pub fn new(width: u32, height: u32, float64: bool) -> (h: HostState)
        requires
            1 <= width <= DIM_LIMIT,
            1 <= height <= DIM_LIMIT,
        ensures
            h.wf(),
            !h.f11_prev_pressed,
            !h.esc_prev_pressed,
            !h.fullscreen,
            h.surface_width == width,
            h.surface_height == height,
            h.frame_time_us == 1_000_000u64,
            h.float64 == float64,
    {
        HostState {
            f11_prev_pressed: false,
            esc_prev_pressed: false,
            fullscreen: false,
            surface_width: width,
            surface_height: height,
            frame_time_us: 1_000_000,
            float64,
        }
    }

    /// Record the duration of the frame just rendered; a measured zero is
    /// stored as one microsecond so the title's FPS division stays defined.
    pub fn set_frame_time(&mut self, us: u64)
        ensures
            *final(self) == (HostState {
                frame_time_us: if us >= 1 { us } else { 1u64 },
                ..*old(self)
            }),
    {
        self.frame_time_us = if us >= 1 { us } else { 1 };
    }

    /// Route one window event; the exact transition is `host_step_s`.
    pub fn handle_event(&mut self, camera: &mut CameraController, event: &HostEvent) -> (action:
        HostAction)
        requires
            old(self).wf(),
            old(camera).wf(),
            host_event_wf(*event),
        ensures
            *final(self) == host_step_s(*old(self), old(camera)@, *event).0,
            final(camera)@ == host_step_s(*old(self), old(camera)@, *event).1,
            action == host_step_s(*old(self), old(camera)@, *event).2,
            final(self).wf(),
            final(camera).wf(),
    {
        match *event {
            HostEvent::CloseRequested => HostAction::Exit,
            HostEvent::Resized { width, height } => {
                self.surface_width = width;
                self.surface_height = height;
                camera.update_window_size(width, height);
                HostAction::Reconfigure
            },
            HostEvent::F11 { pressed } => {
                let toggle: bool = pressed && !self.f11_prev_pressed;
                self.f11_prev_pressed = pressed;
                if toggle {
                    self.fullscreen = !self.fullscreen;
                    HostAction::SetFullscreen { on: self.fullscreen }
                } else {
                    HostAction::NoOp
                }
            },
            HostEvent::EscapeKey { pressed } => {
                let leave: bool = pressed && !self.esc_prev_pressed && self.fullscreen;
                self.esc_prev_pressed = pressed;
                if leave {
                    self.fullscreen = false;
                    HostAction::SetFullscreen { on: false }
                } else {
                    HostAction::NoOp
                }
            },
            HostEvent::Window { event: input } => {
                let changed: bool = camera.process_events(&input);
                HostAction::RefreshTitle { redraw: changed }
            },
            HostEvent::RedrawRequested => {
                let width: u32 = self.surface_width;
                let height: u32 = self.surface_height;
                camera.update_window_size(width, height);
                HostAction::Render
            },
        }
    }
}

/// Payload bounds for host events, mirroring the camera's.
pub open spec fn host_event_wf(e: HostEvent) -> bool {
    match e {
        HostEvent::Resized { width, height } => {
            &&& 1 <= width <= DIM_LIMIT
            &&& 1 <= height <= DIM_LIMIT
        },
        HostEvent::Window { event } => event_wf(event),
        _ => true,
    }
}

/// One host step: next host state, next camera model, and the action the
/// unverified host must perform.
pub open spec fn host_step_s(h: HostState, c: CameraModel, e: HostEvent) -> (
    HostState,
    CameraModel,
    HostAction,
) {
    match e {
        HostEvent::CloseRequested => (h, c, HostAction::Exit),
        HostEvent::Resized { width, height } => (
            HostState { surface_width: width, surface_height: height, ..h },
            resize_s(c, width as int, height as int),
            HostAction::Reconfigure,
        ),
        HostEvent::F11 { pressed } => {
            let toggle = pressed && !h.f11_prev_pressed;
            let fs = if toggle { !h.fullscreen } else { h.fullscreen };
            (
                HostState { f11_prev_pressed: pressed, fullscreen: fs, ..h },
                c,
                if toggle {
                    HostAction::SetFullscreen { on: fs }
                } else {
                    HostAction::NoOp
                },
            )
        },
        HostEvent::EscapeKey { pressed } => {
            let leave = pressed && !h.esc_prev_pressed && h.fullscreen;
            (
                HostState {
                    esc_prev_pressed: pressed,
                    fullscreen: if leave { false } else { h.fullscreen },
                    ..h
                },
                c,
                if leave {
                    HostAction::SetFullscreen { on: false }
                } else {
                    HostAction::NoOp
                },
            )
        },
        HostEvent::Window { event } => (
            h,
            step_s(c, event).0,
            HostAction::RefreshTitle { redraw: step_s(c, event).1 },
        ),
        HostEvent::RedrawRequested => (
            h,
            resize_s(c, h.surface_width as int, h.surface_height as int),
            HostAction::Render,
        ),
    }
}

/// The numbers the window title shows each time it is refreshed.
#[derive(Clone, Copy, Debug, PartialEq, Eq, Structural)]
pub struct TitleInfo {
    pub center_x: i64,
    pub center_y: i64,
    /// `1 / zoom` in fixed point (magnification; larger means closer),
    /// saturated at the `i64` cap.
    pub zoom_reciprocal: i64,
    pub frame_ms: u64,
    pub fps: u64,
    pub mouse_x: i64,
    pub mouse_y: i64,
}

/// `1 / zoom` in fixed point, truncated, saturated at the `i64` cap.
pub open spec fn recip_s(zoom: int) -> int
    recommends
        zoom >= 1,
{
    let q = (SCALE as int) * (SCALE as int) / zoom;
    if q > FX_CAP as int {
        FX_CAP as int
    } else {
        q
    }
}

/// Gather the title data: center, magnification, frame time in whole
/// milliseconds, frames per second, and the pointer position.
pub fn title_info(camera: &CameraController, host: &HostState) -> (t: TitleInfo)
    requires
        camera.wf(),
        host.wf(),
    ensures
        t.center_x == camera.properties.center_x,
        t.center_y == camera.properties.center_y,
        t.zoom_reciprocal == recip_s(camera.properties.zoom as int),
        t.frame_ms == host.frame_time_us / 1000,
        t.fps == 1_000_000u64 / host.frame_time_us,
        t.mouse_x == camera.mouse_x,
        t.mouse_y == camera.mouse_y,
{
    let num: u128 = (SCALE as u128) * (SCALE as u128);
    let q: u128 = num / (camera.properties.zoom as u128);
    let zoom_reciprocal: i64 = if q > FX_CAP as u128 { FX_CAP } else { q as i64 };
    TitleInfo {
        center_x: camera.properties.center_x,
        center_y: camera.properties.center_y,
        zoom_reciprocal,
        frame_ms: host.frame_time_us / 1000,
        fps: 1_000_000 / host.frame_time_us,
        mouse_x: camera.mouse_x,
        mouse_y: camera.mouse_y,
    }
}

} // verus!
