use std::cell::RefCell;
use std::rc::Rc;

use baseview::{Event, EventStatus, GlConfig, KeyboardEvent, MouseButton, MouseEvent,
    NativeEvent, NativeSource, ParentHandle, Size, Window, WindowBuilder, WindowEvent,
    WindowHandler, WindowInfo, WindowOpenError, WindowOpenOptions, WindowScalePolicy};

struct Recorder {
    events: Rc<RefCell<Vec<Event>>>,
    frames: Rc<RefCell<u32>>,
}

impl WindowHandler for Recorder {
    fn on_frame(&mut self, _window: &mut Window) {
        *self.frames.borrow_mut() += 1;
    }

    fn on_event(&mut self, _window: &mut Window, event: Event) -> EventStatus {
        self.events.borrow_mut().push(event);
        EventStatus::Ignored
    }
}

struct RecorderBuilder {
    events: Rc<RefCell<Vec<Event>>>,
    frames: Rc<RefCell<u32>>,
}

impl WindowBuilder for RecorderBuilder {
    type Handler = Recorder;

    fn build(self, _window: &Window) -> Recorder {
        Recorder { events: self.events, frames: self.frames }
    }
}

fn options(width: u32, height: u32, scale: WindowScalePolicy) -> WindowOpenOptions {
    WindowOpenOptions {
        title: String::from("demo"),
        size: Size::new(width, height),
        scale,
        gl_config: None,
    }
}

fn source(scale_percent: u32, events: Vec<NativeEvent>) -> NativeSource {
    NativeSource { scale_percent, window_id: 7777, events }
}

fn resized(width: u32, height: u32, scale_percent: u32) -> Event {
    Event::Window(WindowEvent::Resized(WindowInfo::from_logical(
        Size::new(width, height),
        scale_percent,
    )))
}

#[test]
fn delivery_order_matches_script() {
    let events = Rc::new(RefCell::new(Vec::new()));
    let frames = Rc::new(RefCell::new(0u32));
    let script = vec![
        NativeEvent::Mouse(MouseEvent::ButtonPressed(MouseButton::Left)),
        NativeEvent::Keyboard(KeyboardEvent::KeyPressed { code: 42 }),
        NativeEvent::Mouse(MouseEvent::ButtonReleased(MouseButton::Left)),
        NativeEvent::Focused,
        NativeEvent::Unfocused,
    ];
    Window::open_blocking(
        source(100, script),
        options(200, 100, WindowScalePolicy::SystemScaleFactor),
        RecorderBuilder { events: events.clone(), frames: frames.clone() },
    );
    let got = events.borrow();
    assert_eq!(
        *got,
        vec![
            resized(200, 100, 100),
            Event::Mouse(MouseEvent::ButtonPressed(MouseButton::Left)),
            Event::Keyboard(KeyboardEvent::KeyPressed { code: 42 }),
            Event::Mouse(MouseEvent::ButtonReleased(MouseButton::Left)),
            Event::Window(WindowEvent::Focused),
            Event::Window(WindowEvent::Unfocused),
        ]
    );
    assert_eq!(*frames.borrow(), 0);
}

#[test]
fn frame_ticks_drive_on_frame() {
    let events = Rc::new(RefCell::new(Vec::new()));
    let frames = Rc::new(RefCell::new(0u32));
    let script = vec![NativeEvent::Frame, NativeEvent::Frame, NativeEvent::Frame];
    Window::open_blocking(
        source(100, script),
        options(200, 100, WindowScalePolicy::SystemScaleFactor),
        RecorderBuilder { events: events.clone(), frames: frames.clone() },
    );
    assert_eq!(*frames.borrow(), 3);
    assert_eq!(*events.borrow(), vec![resized(200, 100, 100)]);
}

#[test]
fn blocking_returns_after_loop_terminated() {
    let events = Rc::new(RefCell::new(Vec::new()));
    let frames = Rc::new(RefCell::new(0u32));
    let script = vec![
        NativeEvent::Focused,
        NativeEvent::CloseRequested,
        NativeEvent::Focused,
        NativeEvent::Frame,
    ];
    Window::open_blocking(
        source(100, script),
        options(200, 100, WindowScalePolicy::SystemScaleFactor),
        RecorderBuilder { events: events.clone(), frames: frames.clone() },
    );
    // By the time control returns, the handler has seen its last event: the
    // close request ended dispatch, so nothing after WillClose was delivered.
    assert_eq!(
        *events.borrow(),
        vec![
            resized(200, 100, 100),
            Event::Window(WindowEvent::Focused),
            Event::Window(WindowEvent::WillClose),
        ]
    );
    assert_eq!(*frames.borrow(), 0);
}

#[test]
fn system_scale_factor_reports_physical_size() {
    let events = Rc::new(RefCell::new(Vec::new()));
    let frames = Rc::new(RefCell::new(0u32));
    let script = vec![NativeEvent::Resized(Size::new(400, 300))];
    Window::open_blocking(
        source(200, script),
        options(512, 512, WindowScalePolicy::SystemScaleFactor),
        RecorderBuilder { events: events.clone(), frames: frames.clone() },
    );
    let got = events.borrow();
    assert_eq!(got.len(), 2);
    match got[0] {
        Event::Window(WindowEvent::Resized(info)) => {
            assert_eq!(info.logical, Size::new(512, 512));
            assert_eq!(info.scale_percent, 200);
            assert_eq!(info.physical.width, 1024);
            assert_eq!(info.physical.height, 1024);
        }
        _ => panic!("first event is not a resize"),
    }
    match got[1] {
        Event::Window(WindowEvent::Resized(info)) => {
            assert_eq!(info.logical, Size::new(400, 300));
            assert_eq!(info.scale_percent, 200);
            assert_eq!(info.physical.width, 800);
            assert_eq!(info.physical.height, 600);
        }
        _ => panic!("second event is not a resize"),
    }
}

#[test]
fn explicit_scale_factor_overrides_system() {
    let events = Rc::new(RefCell::new(Vec::new()));
    let frames = Rc::new(RefCell::new(0u32));
    let script = vec![NativeEvent::Resized(Size::new(400, 300))];
    Window::open_blocking(
        source(200, script),
        options(512, 512, WindowScalePolicy::ScaleFactor(150)),
        RecorderBuilder { events: events.clone(), frames: frames.clone() },
    );
    let got = events.borrow();
    assert_eq!(got[0], resized(512, 512, 150));
    assert_eq!(got[1], resized(400, 300, 150));
    match got[1] {
        Event::Window(WindowEvent::Resized(info)) => {
            assert_eq!(info.physical.width, 600);
            assert_eq!(info.physical.height, 450);
        }
        _ => panic!("second event is not a resize"),
    }
}

#[test]
fn scaling_rounds_half_up() {
    let info = WindowInfo::from_logical(Size::new(333, 333), 150);
    // 333 * 1.5 = 499.5 rounds up.
    assert_eq!(info.physical.width, 500);
    let info = WindowInfo::from_logical(Size::new(333, 333), 125);
    // 333 * 1.25 = 416.25 rounds down.
    assert_eq!(info.physical.width, 416);
}

#[test]
fn scaling_largest_logical_size_does_not_overflow() {
    let info = WindowInfo::from_logical(Size::new(u32::MAX, u32::MAX), 300);
    assert_eq!(info.physical.width, (u32::MAX as u64 * 300 + 50) / 100);
    assert_eq!(info.physical.height, 12_884_901_885);
}

#[test]
fn parented_handle_is_open_until_closed() {
    let events = Rc::new(RefCell::new(Vec::new()));
    let frames = Rc::new(RefCell::new(0u32));
    let parent = ParentHandle::from_raw(41);
    let script = vec![NativeEvent::Focused];
    let handle = Window::open_parented(
        &parent,
        source(100, script),
        options(64, 64, WindowScalePolicy::SystemScaleFactor),
        RecorderBuilder { events: events.clone(), frames: frames.clone() },
    );
    let mut handle = handle.expect("open_parented failed on a valid parent");
    assert!(handle.is_open());
    handle.close();
    assert!(!handle.is_open());
    // Closing again is a no-op: same observable effect, no fault.
    handle.close();
    assert!(!handle.is_open());
    assert_eq!(
        *events.borrow(),
        vec![resized(64, 64, 100), Event::Window(WindowEvent::Focused)]
    );
}

#[test]
fn parented_invalid_parent_fails_before_construction() {
    let events = Rc::new(RefCell::new(Vec::new()));
    let frames = Rc::new(RefCell::new(0u32));
    let parent = ParentHandle::invalid();
    let script = vec![NativeEvent::Frame, NativeEvent::Focused];
    let result = Window::open_parented(
        &parent,
        source(100, script),
        options(64, 64, WindowScalePolicy::SystemScaleFactor),
        RecorderBuilder { events: events.clone(), frames: frames.clone() },
    );
    assert_eq!(result.err(), Some(WindowOpenError::InvalidParentHandle));
    // No handler callback ever ran.
    assert_eq!(*frames.borrow(), 0);
    assert!(events.borrow().is_empty());
}

#[test]
fn parented_backend_initiated_closure_closes_handle() {
    let events = Rc::new(RefCell::new(Vec::new()));
    let frames = Rc::new(RefCell::new(0u32));
    let parent = ParentHandle::from_raw(41);
    let script = vec![NativeEvent::CloseRequested];
    let handle = Window::open_parented(
        &parent,
        source(100, script),
        options(64, 64, WindowScalePolicy::SystemScaleFactor),
        RecorderBuilder { events: events.clone(), frames: frames.clone() },
    )
    .expect("open_parented failed on a valid parent");
    assert!(!handle.is_open());
    assert_eq!(
        *events.borrow(),
        vec![resized(64, 64, 100), Event::Window(WindowEvent::WillClose)]
    );
}

struct ResizeOnFocus {
    events: Rc<RefCell<Vec<Event>>>,
    asked: bool,
}

impl WindowHandler for ResizeOnFocus {
    fn on_frame(&mut self, _window: &mut Window) {}

    fn on_event(&mut self, window: &mut Window, event: Event) -> EventStatus {
        self.events.borrow_mut().push(event);
        if !self.asked && matches!(event, Event::Window(WindowEvent::Focused)) {
            self.asked = true;
            window.resize(Size::new(400, 300));
        }
        EventStatus::Captured
    }
}

struct ResizeOnFocusBuilder {
    events: Rc<RefCell<Vec<Event>>>,
}

impl WindowBuilder for ResizeOnFocusBuilder {
    type Handler = ResizeOnFocus;

    fn build(self, _window: &Window) -> ResizeOnFocus {
        ResizeOnFocus { events: self.events, asked: false }
    }
}

#[test]
fn host_resize_is_followed_by_consistent_resized_event() {
    let events = Rc::new(RefCell::new(Vec::new()));
    let script = vec![NativeEvent::Focused, NativeEvent::Focused];
    Window::open_blocking(
        source(200, script),
        options(512, 512, WindowScalePolicy::SystemScaleFactor),
        ResizeOnFocusBuilder { events: events.clone() },
    );
    // The resize requested while handling the first Focused event is applied
    // and reported before the next scripted occurrence is dispatched.
    assert_eq!(
        *events.borrow(),
        vec![
            resized(512, 512, 200),
            Event::Window(WindowEvent::Focused),
            resized(400, 300, 200),
            Event::Window(WindowEvent::Focused),
        ]
    );
    match events.borrow()[2] {
        Event::Window(WindowEvent::Resized(info)) => {
            assert_eq!(info.physical.width, 800);
            assert_eq!(info.physical.height, 600);
        }
        _ => panic!("resize request produced no Resized event"),
    };
}

struct CloseOnFirstEvent {
    events: Rc<RefCell<Vec<Event>>>,
}

impl WindowHandler for CloseOnFirstEvent {
    fn on_frame(&mut self, _window: &mut Window) {}

    fn on_event(&mut self, window: &mut Window, event: Event) -> EventStatus {
        self.events.borrow_mut().push(event);
        window.close();
        EventStatus::Captured
    }
}

struct CloseOnFirstEventBuilder {
    events: Rc<RefCell<Vec<Event>>>,
}

impl WindowBuilder for CloseOnFirstEventBuilder {
    type Handler = CloseOnFirstEvent;

    fn build(self, _window: &Window) -> CloseOnFirstEvent {
        CloseOnFirstEvent { events: self.events }
    }
}

#[test]
fn close_from_handler_stops_dispatch_at_next_boundary() {
    let events = Rc::new(RefCell::new(Vec::new()));
    let script = vec![NativeEvent::Focused, NativeEvent::Focused];
    Window::open_blocking(
        source(100, script),
        options(64, 64, WindowScalePolicy::SystemScaleFactor),
        CloseOnFirstEventBuilder { events: events.clone() },
    );
    // The close requested inside the very first delivery takes effect at the
    // next dispatch boundary: no scripted event is delivered after it.
    assert_eq!(*events.borrow(), vec![resized(64, 64, 100)]);
}

#[test]
fn gl_context_present_exactly_when_configured() {
    let events = Rc::new(RefCell::new(Vec::new()));
    let frames = Rc::new(RefCell::new(0u32));
    let config = GlConfig { version_major: 3, version_minor: 2, double_buffer: true };
    let opts = WindowOpenOptions {
        title: String::from("demo"),
        size: Size::new(64, 64),
        scale: WindowScalePolicy::SystemScaleFactor,
        gl_config: Some(config),
    };
    let window = Window::open_blocking(
        source(100, Vec::new()),
        opts,
        RecorderBuilder { events: events.clone(), frames: frames.clone() },
    );
    let context = window.gl_context().expect("configured window has no gl context");
    assert_eq!(context.config(), config);

    let bare = Window::open_blocking(
        source(100, Vec::new()),
        options(64, 64, WindowScalePolicy::SystemScaleFactor),
        RecorderBuilder { events: events.clone(), frames: frames.clone() },
    );
    assert!(bare.gl_context().is_none());
}

#[test]
fn raw_window_handle_reports_native_id() {
    let events = Rc::new(RefCell::new(Vec::new()));
    let frames = Rc::new(RefCell::new(0u32));
    let window = Window::open_blocking(
        source(100, Vec::new()),
        options(64, 64, WindowScalePolicy::SystemScaleFactor),
        RecorderBuilder { events: events.clone(), frames: frames.clone() },
    );
    assert_eq!(window.raw_window_handle(), 7777);
}
