use ohos_event_loop::active_loop::{ActiveEventLoop, ControlFlow};
use ohos_event_loop::driver::{ApplicationHandler, EventLoop};
use ohos_event_loop::events::{
    DispatchAction, ElementState, FingerId, InputEvent, KeyAction, KeyEventRecord, NativeEvent,
    PhysicalSize, PointerPosition, StartCause, SurfaceView, TouchAction, TouchEventRecord,
    TouchPoint, WindowEvent, WindowId,
};

/// Records every callback invocation, in order.
#[derive(Debug, PartialEq)]
enum Call {
    NewEvents(StartCause),
    CanCreateSurfaces,
    DestroySurfaces,
    Resumed,
    Suspended,
    MemoryWarning,
    Window(WindowId, WindowEvent),
}

#[derive(Default)]
struct Recorder {
    calls: Vec<Call>,
    exit_on_window_event: bool,
}

impl ApplicationHandler for Recorder {
    fn new_events(&mut self, _event_loop: &mut ActiveEventLoop, cause: StartCause) {
        self.calls.push(Call::NewEvents(cause));
    }

    fn can_create_surfaces(&mut self, _event_loop: &mut ActiveEventLoop) {
        self.calls.push(Call::CanCreateSurfaces);
    }

    fn destroy_surfaces(&mut self, _event_loop: &mut ActiveEventLoop) {
        self.calls.push(Call::DestroySurfaces);
    }

    fn resumed(&mut self, _event_loop: &mut ActiveEventLoop) {
        self.calls.push(Call::Resumed);
    }

    fn suspended(&mut self, _event_loop: &mut ActiveEventLoop) {
        self.calls.push(Call::Suspended);
    }

    fn memory_warning(&mut self, _event_loop: &mut ActiveEventLoop) {
        self.calls.push(Call::MemoryWarning);
    }

    fn window_event(
        &mut self,
        event_loop: &mut ActiveEventLoop,
        window_id: WindowId,
        event: WindowEvent,
    ) {
        if self.exit_on_window_event {
            event_loop.exit();
        }
        self.calls.push(Call::Window(window_id, event));
    }
}

fn run_one(el: &mut EventLoop, event: NativeEvent) -> (Vec<Call>, bool) {
    let mut app = Recorder::default();
    let keep = el.run_event(&event, &mut app);
    (app.calls, keep)
}

#[test]
fn initial_state() {
    let el = EventLoop::new();
    assert!(!el.running);
    assert_eq!(el.cause, StartCause::Init);
    assert_eq!(el.primary_pointer, None);
    assert!(el.window_target.focus);
    assert!(!el.window_target.exit);
    assert_eq!(el.window_target.surface_size, None);
}

#[test]
fn begin_run_reports_init_cause() {
    let mut el = EventLoop::new();
    let mut app = Recorder::default();
    el.begin_run(&mut app);
    assert!(el.running);
    assert_eq!(app.calls, vec![Call::NewEvents(StartCause::Init)]);
}

#[test]
fn surface_create_and_destroy_route_to_surface_callbacks() {
    let mut el = EventLoop::new();
    let (calls, keep) = run_one(&mut el, NativeEvent::SurfaceCreate);
    assert_eq!(calls, vec![Call::CanCreateSurfaces]);
    assert!(keep);
    let (calls, _) = run_one(&mut el, NativeEvent::SurfaceDestroy);
    assert_eq!(calls, vec![Call::DestroySurfaces]);
}

#[test]
fn lifecycle_routing() {
    let mut el = EventLoop::new();
    let (calls, _) = run_one(&mut el, NativeEvent::Start);
    assert_eq!(calls, vec![Call::Resumed]);
    let (calls, _) = run_one(&mut el, NativeEvent::Stop);
    assert_eq!(calls, vec![Call::Suspended]);
    let (calls, _) = run_one(&mut el, NativeEvent::LowMemory);
    assert_eq!(calls, vec![Call::MemoryWarning]);
}

#[test]
fn inert_placeholders_emit_nothing() {
    let mut el = EventLoop::new();
    for event in [
        NativeEvent::Resume,
        NativeEvent::Pause,
        NativeEvent::SaveState,
        NativeEvent::Destroy,
        NativeEvent::ContentRectChange,
        NativeEvent::Unknown,
    ] {
        let (calls, keep) = run_one(&mut el, event);
        assert!(calls.is_empty());
        assert!(keep);
    }
}

#[test]
fn resize_emits_current_size_and_records_it() {
    let mut el = EventLoop::new();
    let size = PhysicalSize { width: 800, height: 600 };
    let (calls, _) = run_one(&mut el, NativeEvent::WindowResize { size: Some(size) });
    assert_eq!(
        calls,
        vec![Call::Window(WindowId { raw: 0 }, WindowEvent::SurfaceResized(size))]
    );
    assert_eq!(el.window_target.surface_size, Some(size));
}

#[test]
fn resize_without_surface_degrades_to_zero() {
    let mut el = EventLoop::new();
    let (calls, _) = run_one(&mut el, NativeEvent::WindowResize { size: None });
    assert_eq!(
        calls,
        vec![Call::Window(
            WindowId { raw: 0 },
            WindowEvent::SurfaceResized(PhysicalSize { width: 0, height: 0 })
        )]
    );
    // A failed read leaves the last known size untouched.
    assert_eq!(el.window_target.surface_size, None);
}

#[test]
fn redraw_requested_is_forwarded() {
    let mut el = EventLoop::new();
    let (calls, _) = run_one(&mut el, NativeEvent::WindowRedraw);
    assert_eq!(
        calls,
        vec![Call::Window(WindowId { raw: 0 }, WindowEvent::RedrawRequested)]
    );
}

#[test]
fn focus_events_update_flag_and_are_forwarded() {
    let mut el = EventLoop::new();
    assert!(el.window_target.focus);

    let (calls, _) = run_one(&mut el, NativeEvent::LostFocus);
    assert!(!el.window_target.focus);
    assert_eq!(
        calls,
        vec![Call::Window(WindowId { raw: 0 }, WindowEvent::Focused(false))]
    );

    let (calls, _) = run_one(&mut el, NativeEvent::GainedFocus);
    assert!(el.window_target.focus);
    assert_eq!(
        calls,
        vec![Call::Window(WindowId { raw: 0 }, WindowEvent::Focused(true))]
    );
}

#[test]
fn config_change_with_surface_emits_scale_factor_changed() {
    let mut el = EventLoop::new();
    let view = SurfaceView { size: PhysicalSize { width: 1000, height: 2000 }, scale_factor: 77 };
    let (calls, _) = run_one(&mut el, NativeEvent::ConfigChanged { surface: Some(view) });
    assert_eq!(
        calls,
        vec![Call::Window(
            WindowId { raw: 0 },
            WindowEvent::ScaleFactorChanged {
                scale_factor: 77,
                surface_size: PhysicalSize { width: 1000, height: 2000 },
            }
        )]
    );
    assert_eq!(el.window_target.surface_size, Some(PhysicalSize { width: 1000, height: 2000 }));
}

#[test]
fn config_change_without_surface_emits_nothing() {
    let mut el = EventLoop::new();
    let (calls, _) = run_one(&mut el, NativeEvent::ConfigChanged { surface: None });
    assert!(calls.is_empty());
}

#[test]
fn touch_input_is_normalized_and_forwarded() {
    let mut el = EventLoop::new();
    let record = TouchEventRecord {
        device_id: 9,
        action: TouchAction::Down,
        points: vec![TouchPoint {
            id: FingerId { raw: 4 },
            position: PointerPosition { x: 30, y: 40 },
            force: 0,
        }],
    };
    let (calls, _) = run_one(&mut el, NativeEvent::Input(InputEvent::Touch(record)));
    assert_eq!(calls.len(), 2);
    assert!(matches!(
        calls[0],
        Call::Window(WindowId { raw: 0 }, WindowEvent::PointerEntered { primary: true, .. })
    ));
    assert!(matches!(
        calls[1],
        Call::Window(
            WindowId { raw: 0 },
            WindowEvent::PointerButton { state: ElementState::Pressed, .. }
        )
    ));
    assert_eq!(el.primary_pointer, Some(FingerId { raw: 4 }));
}

#[test]
fn key_input_is_forwarded() {
    let mut el = EventLoop::new();
    let record = KeyEventRecord { device_id: 2, code: 13, action: KeyAction::Other };
    let (calls, _) = run_one(&mut el, NativeEvent::Input(InputEvent::Key(record)));
    assert_eq!(calls.len(), 1);
    match &calls[0] {
        Call::Window(id, WindowEvent::KeyboardInput { event, .. }) => {
            assert_eq!(*id, WindowId { raw: 0 });
            assert_eq!(event.state, ElementState::Released);
            assert_eq!(event.code, 13);
        },
        other => panic!("expected keyboard input, got {other:?}"),
    }
}

#[test]
fn exit_requested_by_callback_stops_the_loop() {
    let mut el = EventLoop::new();
    let mut app = Recorder { exit_on_window_event: true, ..Recorder::default() };
    let keep = el.run_event(&NativeEvent::WindowRedraw, &mut app);
    assert!(!keep);
    assert!(el.exiting());
    // Withdrawing the intent lets the loop continue.
    el.window_target.clear_exit();
    let keep = el.run_event(&NativeEvent::Unknown, &mut Recorder::default());
    assert!(keep);
}

#[test]
fn control_flow_follows_last_write() {
    let mut el = EventLoop::new();
    assert_eq!(el.control_flow(), ControlFlow::Wait);
    el.window_target.set_control_flow(ControlFlow::Poll);
    assert_eq!(el.control_flow(), ControlFlow::Poll);
    el.window_target.set_control_flow(ControlFlow::WaitUntil { deadline: 123 });
    assert_eq!(el.control_flow(), ControlFlow::WaitUntil { deadline: 123 });
}
