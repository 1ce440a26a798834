use drawing_engine::app_handle::{mount_app, AppHandle, FramePlan, HostProbe};
use drawing_engine::error::{AppError, HostElement, CLEAR_BUTTON_ID, CONTAINER_ID, SURFACE_ID};
use drawing_engine::input::{InputBridge, Listener};
use drawing_engine::layout::{BufferSize, CoordinateMapper, LayoutRect};
use drawing_engine::render::{DrawCommand, DrawingApp};
use drawing_engine::scalar::{Scalar, SIGN_BIT};
use drawing_engine::scheduler::{FrameScheduler, LoopPhase};

fn scalar(value: f64) -> Scalar {
    Scalar::from_bits(value.to_bits())
}

fn value(scalar: Scalar) -> f64 {
    f64::from_bits(scalar.to_bits())
}

fn rect(left: f64, top: f64, width: f64, height: f64) -> LayoutRect {
    LayoutRect { left: scalar(left), top: scalar(top), width: scalar(width), height: scalar(height) }
}

fn laid_out(width: f64, height: f64) -> LayoutRect {
    rect(8.0, 8.0, width, height)
}

fn size(width: u32, height: u32) -> BufferSize {
    BufferSize { width, height }
}

fn host(width: u32, height: u32) -> HostProbe {
    HostProbe { container: true, clear_button: true, surface: Some(size(width, height)) }
}

fn mounted() -> AppHandle {
    mount_app(host(300, 150)).expect("a mounted application")
}

fn map_point(mapper: CoordinateMapper, event_x: f64, event_y: f64) -> (f64, f64) {
    let rect = mapper.rect();
    let buffer = mapper.buffer();
    let scale_x = buffer.width as f64 / value(rect.width);
    let scale_y = buffer.height as f64 / value(rect.height);
    ((event_x - value(rect.left)) * scale_x, (event_y - value(rect.top)) * scale_y)
}

fn is_rgb_triple(color: &str) -> bool {
    let inner = match color.strip_prefix("rgb(").and_then(|rest| rest.strip_suffix(")")) {
        Some(inner) => inner,
        None => return false,
    };
    let parts: Vec<&str> = inner.split(", ").collect();
    parts.len() == 3 && parts.iter().all(|part| part.parse::<u8>().is_ok())
}

#[test]
fn scalar_keeps_its_bits() {
    for v in [0.0f64, -0.0, 1.0, -1.5, 10.0, 50.0, f64::MAX, f64::MIN_POSITIVE, f64::INFINITY] {
        assert_eq!(value(scalar(v)).to_bits(), v.to_bits());
    }
    assert_eq!(Scalar::from_bits(0x4024_0000_0000_0000).to_bits(), 10.0f64.to_bits());
}

#[test]
fn scalar_zero_test_matches_the_float() {
    assert_eq!(SIGN_BIT, (-0.0f64).to_bits());
    for v in [0.0f64, -0.0, 1.0, -1.0, 5e-324, -5e-324, f64::NAN, f64::INFINITY, 100.0, 1e-300] {
        assert_eq!(scalar(v).is_zero(), v == 0.0, "{}", v);
    }
}

#[test]
fn rounding_matches_the_float() {
    let samples = [
        0.0f64, -0.0, 0.25, 0.49999999999999994, 0.5, 0.75, 1.0, 1.4999999999999998, 1.5, 2.5,
        3.5, 99.5, 100.49, 100.5, 299.6, 300.0, 1023.5, 65535.5, 1e6 + 0.5, 4194303.5,
        4503599627370495.5, 4503599627370496.0, 4294967294.4, 4294967294.5, 4294967295.0,
        4294967295.4, 4294967295.5, 4294967296.0, 1e10, 1e300, f64::MAX, f64::INFINITY,
        f64::MIN_POSITIVE, 5e-324, 1e-310, -0.4, -0.5, -1.0, -300.7, -1e300, f64::NEG_INFINITY,
        f64::NAN, -f64::NAN,
    ];
    for v in samples {
        assert_eq!(scalar(v).round_to_u32(), v.round() as u32, "{}", v);
    }
    assert_eq!(scalar(2.5).round_to_u32(), 3);
    assert_eq!(scalar(299.5).round_to_u32(), 300);
    assert_eq!(scalar(f64::NAN).round_to_u32(), 0);
    assert_eq!(scalar(1e10).round_to_u32(), u32::MAX);
}

#[test]
fn rounding_matches_the_float_on_many_values() {
    let mut bits: u64 = 0x9e37_79b9_7f4a_7c15;
    for _ in 0..200_000 {
        bits ^= bits << 13;
        bits ^= bits >> 7;
        bits ^= bits << 17;
        let v = f64::from_bits(bits);
        assert_eq!(Scalar::from_bits(bits).round_to_u32(), v.round() as u32, "{:#x}", bits);
        let near = (bits % 5_000_000) as f64 / 1000.0;
        assert_eq!(scalar(near).round_to_u32(), near.round() as u32, "{}", near);
        let halves = (bits % 10_000_000_000) as f64 / 2.0;
        assert_eq!(scalar(halves).round_to_u32(), halves.round() as u32, "{}", halves);
    }
}

#[test]
fn layout_is_measured_in_whole_pixels() {
    assert_eq!(rect(0.0, 0.0, 299.6, 150.4).pixel_size(), size(300, 150));
    assert_eq!(rect(3.0, 4.0, 0.5, 0.49).pixel_size(), size(1, 0));
    assert_eq!(rect(0.0, 0.0, -20.0, f64::NAN).pixel_size(), size(0, 0));
}

#[test]
fn resize_rounds_the_layout() {
    let mut app = DrawingApp::new(size(300, 150));
    app.initialize_renderer(true).expect("a context");
    assert_eq!(app.resize_canvas(laid_out(300.4, 149.5)), Ok(false));
    assert_eq!(app.resize_canvas(laid_out(300.5, 149.5)), Ok(true));
    assert_eq!(app.buffer(), size(301, 150));
}

#[test]
fn coordinate_mapper_rejects_zero_width() {
    let result = CoordinateMapper::new(rect(0.0, 0.0, 0.0, 100.0), size(200, 200));
    assert_eq!(result.err(), Some(AppError::DegenerateLayout));
}

#[test]
fn coordinate_mapper_rejects_zero_height_and_negative_zero() {
    assert_eq!(
        CoordinateMapper::new(rect(0.0, 0.0, 100.0, 0.0), size(200, 200)).err(),
        Some(AppError::DegenerateLayout)
    );
    assert_eq!(
        CoordinateMapper::new(rect(5.0, 5.0, -0.0, 10.0), size(1, 1)).err(),
        Some(AppError::DegenerateLayout)
    );
    assert!(rect(0.0, 0.0, 0.0, 0.0).is_degenerate());
    assert!(!rect(0.0, 0.0, 1.0, 1.0).is_degenerate());
}

#[test]
fn coordinate_mapper_scales_into_buffer_space() {
    let mapper = CoordinateMapper::new(rect(0.0, 0.0, 100.0, 100.0), size(200, 200))
        .expect("a layout with an area");
    assert_eq!(map_point(mapper, 50.0, 50.0), (100.0, 100.0));
    let shifted = CoordinateMapper::new(rect(10.0, 20.0, 50.0, 25.0), size(100, 100))
        .expect("a layout with an area");
    assert_eq!(value(shifted.rect().left), 10.0);
    assert_eq!(shifted.buffer(), size(100, 100));
    assert_eq!(map_point(shifted, 35.0, 45.0), (50.0, 100.0));
}

#[test]
fn render_engine_starts_uninitialized() {
    let mut app = DrawingApp::new(size(300, 150));
    assert!(!app.is_ready());
    assert_eq!(app.buffer(), size(300, 150));
    assert!(app.state().shapes.is_empty());
    assert_eq!(app.render_frame().err(), Some(AppError::NotInitialized));
    assert_eq!(app.resize_canvas(laid_out(10.0, 10.0)), Err(AppError::NotInitialized));
    assert_eq!(app.buffer(), size(300, 150));
}

#[test]
fn render_engine_needs_a_context() {
    let mut app = DrawingApp::new(size(300, 150));
    assert_eq!(app.initialize_renderer(false), Err(AppError::ContextUnavailable));
    assert!(!app.is_ready());
    assert_eq!(app.initialize_renderer(true), Ok(()));
    assert!(app.is_ready());
    assert_eq!(app.initialize_renderer(false), Err(AppError::ContextUnavailable));
    assert!(app.is_ready());
    assert_eq!(app.initialize_renderer(true), Ok(()));
    assert!(app.is_ready());
}

#[test]
fn resize_reports_whether_the_buffer_changed() {
    let mut app = DrawingApp::new(size(300, 150));
    app.initialize_renderer(true).expect("a context");
    assert_eq!(app.resize_canvas(laid_out(300.0, 150.0)), Ok(false));
    assert_eq!(app.resize_canvas(laid_out(640.0, 150.0)), Ok(true));
    assert_eq!(app.buffer(), size(640, 150));
    assert_eq!(app.resize_canvas(laid_out(640.0, 480.0)), Ok(true));
    assert_eq!(app.resize_canvas(laid_out(640.0, 480.0)), Ok(false));
    assert_eq!(app.buffer(), size(640, 480));
}

#[test]
fn paint_clears_then_fills_in_insertion_order() {
    let mut app = DrawingApp::new(size(320, 200));
    app.initialize_renderer(true).expect("a context");
    let empty = app.render_frame().expect("a frame");
    assert_eq!(empty.len(), 1);
    assert!(matches!(empty[0], DrawCommand::Clear { width: 320, height: 200 }));

    app.add_circle_at_point(scalar(1.0), scalar(2.0), scalar(10.0));
    app.add_circle_at_point(scalar(3.0), scalar(4.0), scalar(20.0));
    app.add_circle_at_point(scalar(1.0), scalar(2.0), scalar(30.0));
    let commands = app.render_frame().expect("a frame");
    assert_eq!(commands.len(), 4);
    assert!(matches!(commands[0], DrawCommand::Clear { width: 320, height: 200 }));
    let expected = [(1.0, 2.0, 10.0), (3.0, 4.0, 20.0), (1.0, 2.0, 30.0)];
    for (i, (x, y, radius)) in expected.iter().enumerate() {
        match &commands[i + 1] {
            DrawCommand::FillCircle(shape) => {
                assert_eq!(value(shape.x), *x);
                assert_eq!(value(shape.y), *y);
                assert_eq!(value(shape.radius), *radius);
                assert_eq!(shape.color, app.state().shapes[i].color);
            }
            other => panic!("expected a circle, got {:?}", other),
        }
    }
}

#[test]
fn scheduler_runs_only_between_start_and_release() {
    let mut scheduler = FrameScheduler::new();
    assert_eq!(scheduler.phase(), LoopPhase::Idle);
    assert_eq!(scheduler.pending_frame(), None);
    assert!(!scheduler.on_frame());
    assert!(!scheduler.frame_scheduled(3));
    assert_eq!(scheduler.pending_frame(), None);

    scheduler.start(7);
    assert_eq!(scheduler.phase(), LoopPhase::Running);
    assert_eq!(scheduler.pending_frame(), Some(7));
    for frame in 8..20 {
        assert!(scheduler.on_frame());
        assert_eq!(scheduler.pending_frame(), None);
        assert!(scheduler.frame_scheduled(frame));
        assert_eq!(scheduler.pending_frame(), Some(frame));
    }

    assert_eq!(scheduler.release(), Some(19));
    assert_eq!(scheduler.phase(), LoopPhase::Released);
    for frame in 20..30 {
        assert!(!scheduler.on_frame());
        assert!(!scheduler.frame_scheduled(frame));
        assert_eq!(scheduler.pending_frame(), None);
        assert_eq!(scheduler.phase(), LoopPhase::Released);
    }
    assert_eq!(scheduler.release(), None);
}

#[test]
fn scheduler_released_before_start_stays_released() {
    let mut scheduler = FrameScheduler::new();
    assert_eq!(scheduler.release(), None);
    assert_eq!(scheduler.phase(), LoopPhase::Released);
    assert!(!scheduler.on_frame());
}

#[test]
fn input_bridge_registers_two_listeners() {
    let bridge = InputBridge::new();
    let listeners = bridge.listeners();
    assert_eq!(listeners, vec![Listener::PointerDown, Listener::ClearClick]);
    assert_eq!(listeners[0].target(), HostElement::Surface);
    assert_eq!(listeners[0].event_name(), "mousedown");
    assert_eq!(listeners[1].target(), HostElement::ClearButton);
    assert_eq!(listeners[1].event_name(), "click");
}

#[test]
fn input_bridge_adds_one_circle_per_press() {
    let bridge = InputBridge::new();
    let mut app = DrawingApp::new(size(200, 200));
    let layout = rect(0.0, 0.0, 100.0, 100.0);
    for i in 0..10 {
        assert!(bridge.pointer_down(&mut app, layout, scalar(100.0), scalar(100.0), scalar(25.0)));
        assert_eq!(app.state().shapes.len(), i + 1);
    }
    assert!(bridge.clear_click(&mut app));
    assert!(app.state().shapes.is_empty());
}

#[test]
fn input_bridge_passes_over_a_degenerate_layout() {
    let bridge = InputBridge::new();
    let mut app = DrawingApp::new(size(200, 200));
    assert!(!bridge.pointer_down(
        &mut app,
        rect(0.0, 0.0, 0.0, 100.0),
        scalar(f64::INFINITY),
        scalar(100.0),
        scalar(25.0)
    ));
    assert!(!bridge.pointer_down(
        &mut app,
        rect(0.0, 0.0, 100.0, 0.0),
        scalar(1.0),
        scalar(f64::NAN),
        scalar(25.0)
    ));
    assert!(app.state().shapes.is_empty());
}

#[test]
fn input_bridge_is_silent_after_release() {
    let mut bridge = InputBridge::new();
    let mut app = DrawingApp::new(size(200, 200));
    app.add_circle_at_point(scalar(1.0), scalar(1.0), scalar(10.0));
    assert_eq!(bridge.release(), vec![Listener::PointerDown, Listener::ClearClick]);
    assert!(bridge.listeners().is_empty());
    assert!(!bridge.pointer_down(&mut app, rect(0.0, 0.0, 10.0, 10.0), scalar(1.0), scalar(1.0), scalar(10.0)));
    assert!(!bridge.clear_click(&mut app));
    assert_eq!(app.state().shapes.len(), 1);
    assert!(bridge.release().is_empty());
}

#[test]
fn mount_fails_on_the_first_missing_element() {
    let none = HostProbe { container: false, clear_button: false, surface: None };
    assert_eq!(mount_app(none).err(), Some(AppError::MissingHostElement(HostElement::Container)));
    let no_container = HostProbe { container: false, ..host(1, 1) };
    assert_eq!(
        mount_app(no_container).err(),
        Some(AppError::MissingHostElement(HostElement::Container))
    );
    let no_button = HostProbe { clear_button: false, ..host(1, 1) };
    assert_eq!(
        mount_app(no_button).err(),
        Some(AppError::MissingHostElement(HostElement::ClearButton))
    );
    let no_surface = HostProbe { surface: None, ..host(1, 1) };
    assert_eq!(
        mount_app(no_surface).err(),
        Some(AppError::MissingHostElement(HostElement::Surface))
    );
}

#[test]
fn mounted_application_starts_empty() {
    let handle = mounted();
    assert!(handle.get_drawing_state().shapes.is_empty());
    assert!(!handle.app().is_ready());
    assert_eq!(handle.app().buffer(), size(300, 150));
    assert_eq!(handle.loop_phase(), LoopPhase::Idle);
    assert_eq!(handle.listeners(), vec![Listener::PointerDown, Listener::ClearClick]);
}

#[test]
fn add_circle_at_point_exports_one_shape() {
    let mut handle = mounted();
    handle.add_circle_at_point(scalar(50.0), scalar(50.0), scalar(32.5));
    let state = handle.get_drawing_state();
    assert_eq!(state.shapes.len(), 1);
    assert_eq!(value(state.shapes[0].x), 50.0);
    assert_eq!(value(state.shapes[0].y), 50.0);
    assert!(value(state.shapes[0].radius) >= 10.0 && value(state.shapes[0].radius) <= 50.0);
    assert!(is_rgb_triple(&state.shapes[0].color), "{}", state.shapes[0].color);
}

#[test]
fn clear_canvas_leaves_no_shape() {
    let mut handle = mounted();
    handle.add_circle_at_point(scalar(10.0), scalar(10.0), scalar(10.0));
    handle.add_circle_at_point(scalar(20.0), scalar(20.0), scalar(20.0));
    assert_eq!(handle.get_drawing_state().shapes.len(), 2);
    handle.clear_canvas();
    assert_eq!(handle.get_drawing_state().shapes.len(), 0);
    handle.clear_canvas();
    assert_eq!(handle.get_drawing_state().shapes.len(), 0);
}

#[test]
fn exported_state_is_a_snapshot() {
    let mut handle = mounted();
    handle.add_circle_at_point(scalar(1.0), scalar(2.0), scalar(15.0));
    let exported = handle.get_drawing_state();
    handle.clear_canvas();
    assert_eq!(exported.shapes.len(), 1);
    assert!(handle.get_drawing_state().shapes.is_empty());
}

#[test]
fn frames_halt_before_start() {
    let mut handle = mounted();
    handle.initialize_renderer(true).expect("a context");
    assert!(matches!(handle.on_frame(laid_out(10.0, 10.0)), FramePlan::Halt));
    assert_eq!(handle.app().buffer(), size(300, 150));
}

#[test]
fn running_loop_resizes_then_paints_every_frame() {
    let mut handle = mounted();
    handle.initialize_renderer(true).expect("a context");
    handle.start(1);
    assert_eq!(handle.loop_phase(), LoopPhase::Running);
    handle.add_circle_at_point(scalar(5.0), scalar(6.0), scalar(12.0));

    match handle.on_frame(laid_out(800.0, 600.0)) {
        FramePlan::Frame { resize, paint } => {
            assert_eq!(resize, Some(size(800, 600)));
            let commands = paint.expect("a painted frame");
            assert_eq!(commands.len(), 2);
            assert!(matches!(commands[0], DrawCommand::Clear { width: 800, height: 600 }));
            assert!(matches!(commands[1], DrawCommand::FillCircle(_)));
        }
        FramePlan::Halt => panic!("a running loop paints"),
    }
    assert!(handle.frame_scheduled(2));

    match handle.on_frame(laid_out(800.0, 600.0)) {
        FramePlan::Frame { resize, paint } => {
            assert_eq!(resize, None);
            assert_eq!(paint.expect("a painted frame").len(), 2);
        }
        FramePlan::Halt => panic!("a running loop paints"),
    }
    assert!(handle.frame_scheduled(3));
}

#[test]
fn failed_frame_does_not_stop_the_loop() {
    let mut handle = mounted();
    handle.start(1);
    for frame in 2..6 {
        match handle.on_frame(laid_out(800.0, 600.0)) {
            FramePlan::Frame { resize, paint } => {
                assert_eq!(resize, None);
                assert_eq!(paint.err(), Some(AppError::NotInitialized));
            }
            FramePlan::Halt => panic!("a failed frame must not stop the loop"),
        }
        assert!(handle.frame_scheduled(frame));
        assert_eq!(handle.loop_phase(), LoopPhase::Running);
    }
    assert_eq!(handle.app().buffer(), size(300, 150));
    handle.initialize_renderer(true).expect("a context");
    assert!(matches!(handle.on_frame(laid_out(800.0, 600.0)), FramePlan::Frame { paint: Ok(_), .. }));
}

#[test]
fn pointer_events_reach_the_drawing() {
    let mut handle = mounted();
    let layout = rect(0.0, 0.0, 150.0, 75.0);
    assert!(handle.on_pointer_down(layout, scalar(100.0), scalar(100.0), scalar(10.0)));
    assert!(handle.on_pointer_down(layout, scalar(100.0), scalar(100.0), scalar(10.0)));
    assert!(!handle.on_pointer_down(rect(0.0, 0.0, 0.0, 75.0), scalar(1.0), scalar(1.0), scalar(10.0)));
    assert_eq!(handle.get_drawing_state().shapes.len(), 2);
    assert!(handle.on_clear_click());
    assert!(handle.get_drawing_state().shapes.is_empty());
}

#[test]
fn disposal_stops_the_loop_and_removes_the_listeners() {
    let mut handle = mounted();
    handle.initialize_renderer(true).expect("a context");
    handle.start(41);
    assert!(matches!(handle.on_frame(laid_out(300.0, 150.0)), FramePlan::Frame { .. }));
    assert!(handle.frame_scheduled(42));
    handle.add_circle_at_point(scalar(1.0), scalar(1.0), scalar(10.0));

    let teardown = handle.dispose();
    assert_eq!(teardown.cancel_frame, Some(42));
    assert_eq!(teardown.listeners, vec![Listener::PointerDown, Listener::ClearClick]);
    assert_eq!(handle.loop_phase(), LoopPhase::Released);
    assert!(handle.listeners().is_empty());

    for frame in 43..60 {
        assert!(matches!(handle.on_frame(laid_out(999.0, 999.0)), FramePlan::Halt));
        assert!(!handle.frame_scheduled(frame));
    }
    assert_eq!(handle.app().buffer(), size(300, 150));
    assert!(!handle.on_pointer_down(rect(0.0, 0.0, 10.0, 10.0), scalar(1.0), scalar(1.0), scalar(10.0)));
    assert!(!handle.on_clear_click());
    assert_eq!(handle.get_drawing_state().shapes.len(), 1);
}

#[test]
fn disposal_is_safe_to_repeat() {
    let mut handle = mounted();
    handle.start(5);
    let first = handle.dispose();
    assert_eq!(first.cancel_frame, Some(5));
    assert_eq!(first.listeners.len(), 2);
    let second = handle.dispose();
    assert_eq!(second.cancel_frame, None);
    assert!(second.listeners.is_empty());
    assert_eq!(handle.loop_phase(), LoopPhase::Released);
}

#[test]
fn disposal_before_start_leaves_nothing_to_cancel() {
    let mut handle = mounted();
    let teardown = handle.dispose();
    assert_eq!(teardown.cancel_frame, None);
    assert_eq!(teardown.listeners.len(), 2);
    assert!(matches!(handle.on_frame(laid_out(1.0, 1.0)), FramePlan::Halt));
}

#[test]
fn errors_read_as_reported() {
    assert_eq!(CONTAINER_ID, "main-app-container");
    assert_eq!(CLEAR_BUTTON_ID, "clear-btn");
    assert_eq!(SURFACE_ID, "drawing-canvas");
    assert_eq!(HostElement::Container.id(), "main-app-container");
    assert_eq!(
        AppError::MissingHostElement(HostElement::Container).message(),
        "Container element 'main-app-container' not found"
    );
    assert_eq!(
        AppError::MissingHostElement(HostElement::ClearButton).message(),
        "Button element 'clear-btn' not found"
    );
    assert_eq!(
        AppError::MissingHostElement(HostElement::Surface).message(),
        "Canvas element 'drawing-canvas' not found"
    );
    assert_eq!(AppError::NotInitialized.message(), "Rendering context not initialized");
    assert_eq!(AppError::ContextUnavailable.message(), "Failed to get 2D context");
    assert_eq!(AppError::DegenerateLayout.message(), "Surface layout has no area");
}
