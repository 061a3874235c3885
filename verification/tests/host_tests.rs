use mandelbrot::camera::CameraController;
use mandelbrot::events::{InputEvent, KeyCode};
use mandelbrot::host::{Backend, DeviceType, HostAction, HostEvent, HostState, backend_str,
    title_info, type_str, wants_float64};

fn setup() -> (HostState, CameraController) {
    (
        HostState::new(800, 600, false),
        CameraController::new(20_000_000_000, 800, 600),
    )
}

#[test]
fn f11_held_toggles_fullscreen_once() {
    let (mut h, mut c) = setup();
    let pressed = HostEvent::F11 { pressed: true };
    let released = HostEvent::F11 { pressed: false };

    assert_eq!(h.handle_event(&mut c, &pressed), HostAction::SetFullscreen { on: true });
    assert!(h.fullscreen);
    // Key repeat without a release: no further toggles.
    assert_eq!(h.handle_event(&mut c, &pressed), HostAction::NoOp);
    assert_eq!(h.handle_event(&mut c, &pressed), HostAction::NoOp);
    assert!(h.fullscreen);

    assert_eq!(h.handle_event(&mut c, &released), HostAction::NoOp);
    assert_eq!(h.handle_event(&mut c, &pressed), HostAction::SetFullscreen { on: false });
    assert!(!h.fullscreen);
}

#[test]
fn escape_leaves_fullscreen_edge_triggered() {
    let (mut h, mut c) = setup();
    h.handle_event(&mut c, &HostEvent::F11 { pressed: true });
    assert!(h.fullscreen);

    let esc = HostEvent::EscapeKey { pressed: true };
    assert_eq!(h.handle_event(&mut c, &esc), HostAction::SetFullscreen { on: false });
    assert!(!h.fullscreen);
    // Held Escape does nothing more.
    assert_eq!(h.handle_event(&mut c, &esc), HostAction::NoOp);
    // Escape while windowed does nothing.
    h.handle_event(&mut c, &HostEvent::EscapeKey { pressed: false });
    assert_eq!(h.handle_event(&mut c, &esc), HostAction::NoOp);
}

#[test]
fn resize_reconfigures_and_updates_camera() {
    let (mut h, mut c) = setup();
    let action = h.handle_event(&mut c, &HostEvent::Resized { width: 1920, height: 1080 });
    assert_eq!(action, HostAction::Reconfigure);
    assert_eq!(h.surface_width, 1920);
    assert_eq!(h.surface_height, 1080);
    assert_eq!(c.properties().aspect, 1_777_777_777_777);
    assert_eq!(c.window_width, 1920);
    assert_eq!(c.window_height, 1080);
}

#[test]
fn close_request_exits() {
    let (mut h, mut c) = setup();
    assert_eq!(h.handle_event(&mut c, &HostEvent::CloseRequested), HostAction::Exit);
}

#[test]
fn window_events_are_delegated() {
    let (mut h, mut c) = setup();
    let pan = HostEvent::Window {
        event: InputEvent::Keyboard { key: KeyCode::H, pressed: true },
    };
    assert_eq!(h.handle_event(&mut c, &pan), HostAction::RefreshTitle { redraw: true });
    assert_eq!(c.properties().center_x, -774_000_000_000);

    let noop = HostEvent::Window { event: InputEvent::Other };
    assert_eq!(h.handle_event(&mut c, &noop), HostAction::RefreshTitle { redraw: false });
}

#[test]
fn redraw_resyncs_camera_and_renders() {
    let (mut h, mut c) = setup();
    h.handle_event(&mut c, &HostEvent::Resized { width: 1024, height: 512 });
    let action = h.handle_event(&mut c, &HostEvent::RedrawRequested);
    assert_eq!(action, HostAction::Render);
    assert_eq!(c.window_width, 1024);
    assert_eq!(c.window_height, 512);
    assert_eq!(c.properties().aspect, 2_000_000_000_000);
}

#[test]
fn title_numbers() {
    let (mut h, mut c) = setup();
    h.set_frame_time(16_667);
    assert!(!c.process_events(&InputEvent::CursorMoved {
        x: 600 * 1_000_000_000_000,
        y: 150 * 1_000_000_000_000,
    }));
    let t = title_info(&c, &h);
    assert_eq!(t.center_x, -750_000_000_000);
    assert_eq!(t.center_y, 0);
    // 1 / 1.2 in fixed point, truncated.
    assert_eq!(t.zoom_reciprocal, 833_333_333_333);
    assert_eq!(t.frame_ms, 16);
    assert_eq!(t.fps, 59);
    assert_eq!(t.mouse_x, 500_000_000_000);
    assert_eq!(t.mouse_y, 500_000_000_000);
}

#[test]
fn frame_time_never_stored_as_zero() {
    let (mut h, _c) = setup();
    h.set_frame_time(0);
    assert_eq!(h.frame_time_us, 1);
    h.set_frame_time(33_000);
    assert_eq!(h.frame_time_us, 33_000);
}

#[test]
fn initial_frame_time_is_one_second() {
    let (h, c) = setup();
    let t = title_info(&c, &h);
    assert_eq!(t.frame_ms, 1000);
    assert_eq!(t.fps, 1);
}

#[test]
fn float64_only_on_vulkan() {
    assert!(wants_float64(Backend::Vulkan));
    assert!(!wants_float64(Backend::Gl));
    assert!(!wants_float64(Backend::Dx12));
    assert!(!wants_float64(Backend::Dx11));
    assert!(!wants_float64(Backend::Metal));
    assert!(!wants_float64(Backend::Empty));
    assert!(!wants_float64(Backend::BrowserWebGpu));
}

#[test]
fn backend_and_type_names() {
    assert_eq!(backend_str(Backend::Empty), "None");
    assert_eq!(backend_str(Backend::Gl), "OpenGL");
    assert_eq!(backend_str(Backend::Dx12), "DirectX 12");
    assert_eq!(backend_str(Backend::Dx11), "DirectX 11");
    assert_eq!(backend_str(Backend::Metal), "Metal");
    assert_eq!(backend_str(Backend::Vulkan), "Vulkan");
    assert_eq!(backend_str(Backend::BrowserWebGpu), "WebGPU");
    assert_eq!(type_str(DeviceType::Other), "Other");
    assert_eq!(type_str(DeviceType::IntegratedGpu), "Integrated GPU");
    assert_eq!(type_str(DeviceType::DiscreteGpu), "Discrete GPU");
    assert_eq!(type_str(DeviceType::VirtualGpu), "Virtual GPU");
    assert_eq!(type_str(DeviceType::Cpu), "CPU");
}
