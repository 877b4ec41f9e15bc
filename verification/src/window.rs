//! The platform-neutral window core: the `Window` facade over one modelled
//! backend, the `WindowHandle` a parented open returns, the `WindowHandler`
//! capability the host implements, and the dispatch loop that hands every
//! native occurrence to the handler, in order.

use vstd::prelude::*;
use crate::event::{Event, EventStatus, MouseCursor, WindowEvent};
use crate::gl::{GlConfig, GlContext};
use crate::platform::{frame_count, normalize_delta, script_log, lemma_script_log_step,
    NativeEvent, NativeSource};
use crate::window_info::{spec_from_logical, scaled_len, Size, WindowInfo};
use crate::window_open_options::{resolve_scale, spec_resolve_scale, WindowOpenOptions};

verus! {

/// The lifecycle of one window. `Constructing` covers backend creation and
/// the build callback; `Running` is the dispatching state; `Closing` begins
/// on a close request and suppresses new dispatch; `Closed` is terminal.
#[derive(Clone, Copy, Debug, PartialEq, Eq, Structural)]
pub enum WindowState {
    Constructing,
    Running,
    Closing,
    Closed,
}

/// One `on_event` call the window made: the event, and whether it came from
/// a scripted native occurrence (`true`) or from a host `resize` request
/// applied by the backend (`false`).
pub ghost struct Delivery {
    pub event: Event,
    pub from_script: bool,
}

/// The mathematical state of a `Window`.
pub ghost struct WinView {
    pub state: WindowState,
    pub title: Seq<char>,
    /// The active scale factor in hundredths, fixed when the window opens.
    pub scale_percent: u32,
    /// The current logical size.
    pub logical: Size,
    /// A host resize the backend has accepted but not yet applied;
    /// consecutive requests coalesce to the latest.
    pub pending_resize: Option<Size>,
    pub cursor: MouseCursor,
    pub gl: Option<GlConfig>,
    /// The identifier the native windowing system assigned.
    pub raw_id: u64,
    /// Whether teardown was requested; dispatch stops at the next safe
    /// boundary once it is set, and it is never unset.
    pub close_requested: bool,
    /// How many `on_frame` calls the window has made.
    pub frames: nat,
    /// Every `on_event` call the window has made, in order.
    pub log: Seq<Delivery>,
}

/// Requesting a close: the request is recorded and nothing else changes;
/// in particular no event is delivered by the request itself, and a request
/// already recorded stays recorded.
pub open spec fn spec_request_close(v: WinView) -> WinView {
    WinView { close_requested: true, ..v }
}

/// What a handler callback may do to the window it is handed: it can
/// request a close, a resize or a cursor change, but it cannot rewrite the
/// delivery record, change the active scale, or move the lifecycle.
pub open spec fn host_step(pre: WinView, post: WinView) -> bool {
    &&& post.state == pre.state
    &&& post.title == pre.title
    &&& post.scale_percent == pre.scale_percent
    &&& post.logical == pre.logical
    &&& post.gl == pre.gl
    &&& post.raw_id == pre.raw_id
    &&& post.frames == pre.frames
    &&& post.log == pre.log
    &&& (pre.close_requested ==> post.close_requested)
}

/// A `Resized` event is consistent with a scale factor when its physical
/// size is exactly its logical size scaled by that factor.
pub open spec fn resized_consistent(e: Event, scale_percent: u32) -> bool {
    e matches Event::Window(WindowEvent::Resized(info)) ==> info == spec_from_logical(
        info.logical,
        scale_percent,
    )
}

/// Every `Resized` event in the delivery record is consistent with the
/// active scale factor.
pub open spec fn all_resized_consistent(log: Seq<Delivery>, scale_percent: u32) -> bool {
    forall|i: int| 0 <= i < log.len() ==> resized_consistent(#[trigger] log[i].event, scale_percent)
}

/// Every delivery that did not come from a scripted occurrence is a
/// `Resized` report: resize applications are the only events the backend
/// synthesizes on its own.
pub open spec fn host_deliveries_are_resizes(log: Seq<Delivery>) -> bool {
    forall|i: int|
        0 <= i < log.len() ==> (!(#[trigger] log[i]).from_script ==> log[i].event matches Event::Window(
            WindowEvent::Resized(_),
        ))
}

/// The events among the deliveries that came from scripted native
/// occurrences, in delivery order.
pub open spec fn script_events(log: Seq<Delivery>) -> Seq<Event>
    decreases log.len(),
{
    if log.len() == 0 {
        Seq::empty()
    } else {
        script_events(log.drop_last()) + if log.last().from_script {
            seq![log.last().event]
        } else {
            Seq::empty()
        }
    }
}

pub proof fn lemma_script_events_push(log: Seq<Delivery>, d: Delivery)
    ensures
        script_events(log.push(d)) == script_events(log) + if d.from_script {
            seq![d.event]
        } else {
            Seq::empty()
        },
{
    assert(log.push(d).drop_last() =~= log);
    assert(log.push(d).last() == d);
}

pub proof fn lemma_prefix_push(a: Seq<Delivery>, b: Seq<Delivery>, d: Delivery)
    requires
        a.is_prefix_of(b),
    ensures
        a.is_prefix_of(b.push(d)),
{
    assert(b.push(d).subrange(0, a.len() as int) =~= b.subrange(0, a.len() as int));
}

/// The capability contract the host implements. The window calls `on_frame`
/// once per display refresh tick and `on_event` once per normalized
/// occurrence, in the order the backend observed them, never concurrently.
/// A callback acts on the window only through its public operations, which
/// is what `host_step` states.
pub trait WindowHandler {
    fn on_frame(&mut self, window: &mut Window)
        requires
            old(window)@.state == WindowState::Running,
        ensures
            host_step(old(window)@, final(window)@),
    ;

    fn on_event(&mut self, window: &mut Window, event: Event) -> (status: EventStatus)
        requires
            old(window)@.state == WindowState::Running,
        ensures
            host_step(old(window)@, final(window)@),
    ;
}

/// Builds the host's handler, exactly once, after the backend has
/// constructed the window and before the first delivery. It sees the window
/// so handle-dependent setup can happen here.
pub trait WindowBuilder: Sized {
    type Handler: WindowHandler;

    fn build(self, window: &Window) -> Self::Handler;
}

/// The live facade over exactly one modelled backend instance. Exclusively
/// owned by the open call that drives its dispatch; a blocking open hands
/// the closed window back when the loop has terminated.
pub struct Window {
    state: WindowState,
    title: String,
    scale_percent: u32,
    logical: Size,
    pending_resize: Option<Size>,
    cursor: MouseCursor,
    gl: Option<GlContext>,
    raw_id: u64,
    close_requested: bool,
    frames: Ghost<nat>,
    log: Ghost<Seq<Delivery>>,
}

impl View for Window {
    type V = WinView;

    closed spec fn view(&self) -> WinView {
        WinView {
            state: self.state,
            title: self.title@,
            scale_percent: self.scale_percent,
            logical: self.logical,
            pending_resize: self.pending_resize,
            cursor: self.cursor,
            gl: match self.gl {
                Some(c) => Some(c@),
                None => None,
            },
            raw_id: self.raw_id,
            close_requested: self.close_requested,
            frames: self.frames@,
            log: self.log@,
        }
    }
}

impl Window {
    pub(crate) fn new(options: WindowOpenOptions, scale_percent: u32, raw_id: u64) -> (w: Window)
        ensures
            w@ == (WinView {
                state: WindowState::Constructing,
                title: options.title@,
                scale_percent,
                logical: options.size,
                pending_resize: None,
                cursor: MouseCursor::Default,
                gl: options.gl_config,
                raw_id,
                close_requested: false,
                frames: 0,
                log: Seq::empty(),
            }),
    {
        let gl = match options.gl_config {
            Some(config) => Some(GlContext::new(config)),
            None => None,
        };
        Window {
            state: WindowState::Constructing,
            title: options.title,
            scale_percent,
            logical: options.size,
            pending_resize: None,
            cursor: MouseCursor::Default,
            gl,
            raw_id,
            close_requested: false,
            frames: Ghost(0),
            log: Ghost(Seq::empty()),
        }
    }

    /// Requests termination of the window's event source. Dispatch in
    /// flight finishes first: teardown happens at the next loop boundary,
    /// never in the middle of a callback.
    pub fn close(&mut self)
        ensures
            final(self)@ == spec_request_close(old(self)@),
            host_step(old(self)@, final(self)@),
    {
        self.close_requested = true;
    }

    /// Requests a resize to `size` logical pixels. The backend applies it
    /// asynchronously: a `Resized` event carrying the physical size under
    /// the active scale factor follows through the normal event channel.
    /// Consecutive requests coalesce to the latest. A window that is no
    /// longer running ignores the request.
    pub fn resize(&mut self, size: Size)
        ensures
            final(self)@ == if old(self)@.state == WindowState::Running {
                WinView { pending_resize: Some(size), ..old(self)@ }
            } else {
                old(self)@
            },
            host_step(old(self)@, final(self)@),
    {
        if self.state == WindowState::Running {
            self.pending_resize = Some(size);
        }
    }

    /// Sets the pointer image; fire and forget, no acknowledgement event.
    /// A window that is no longer running ignores the request.
    pub fn set_mouse_cursor(&mut self, cursor: MouseCursor)
        ensures
            final(self)@ == if old(self)@.state == WindowState::Running {
                WinView { cursor, ..old(self)@ }
            } else {
                old(self)@
            },
            host_step(old(self)@, final(self)@),
    {
        if self.state == WindowState::Running {
            self.cursor = cursor;
        }
    }

    /// The graphics context, present exactly when the window was opened
    /// with a `GlConfig`.
    pub fn gl_context(&self) -> (r: Option<&GlContext>)
        ensures
            match r {
                Some(c) => self@.gl == Some(c@),
                None => self@.gl is None,
            },
    {
        self.gl.as_ref()
    }

    /// The raw identifier the native windowing system assigned to this
    /// window, for interop with a foreign embedding toolkit. Valid only
    /// while the window lives.
    pub fn raw_window_handle(&self) -> (r: u64)
        ensures
            r == self@.raw_id,
    {
        self.raw_id
    }

    /// Records one `on_event` call and makes it. The returned status only
    /// communicates consumption upward to an embedding host; it never
    /// affects whether later events are delivered, so it is dropped here.
    fn deliver<H: WindowHandler>(&mut self, handler: &mut H, event: Event, from_script: bool)
        requires
            old(self)@.state == WindowState::Running,
        ensures
            final(self)@.state == WindowState::Running,
            final(self)@.title == old(self)@.title,
            final(self)@.scale_percent == old(self)@.scale_percent,
            final(self)@.logical == old(self)@.logical,
            final(self)@.gl == old(self)@.gl,
            final(self)@.raw_id == old(self)@.raw_id,
            final(self)@.frames == old(self)@.frames,
            final(self)@.log == old(self)@.log.push(Delivery { event, from_script }),
            old(self)@.close_requested ==> final(self)@.close_requested,
    {
        self.log = Ghost(self.log@.push(Delivery { event, from_script }));
        let _ = handler.on_event(self, event);
    }

    /// Drives dispatch over the scripted native occurrences: for each one,
    /// in order, a pending host resize is applied and delivered first, then
    /// the occurrence itself. Dispatch stops at the first loop boundary at
    /// which a close has been requested; the script is consumed whole
    /// otherwise. Returns how many occurrences were consumed.
    pub(crate) fn pump<H: WindowHandler>(&mut self, handler: &mut H, events: &Vec<NativeEvent>)
        -> (consumed: usize)
        requires
            old(self)@.state == WindowState::Running,
        ensures
            consumed <= events@.len(),
            final(self)@.state == if final(self)@.close_requested {
                WindowState::Closing
            } else {
                WindowState::Running
            },
            final(self)@.title == old(self)@.title,
            final(self)@.scale_percent == old(self)@.scale_percent,
            final(self)@.gl == old(self)@.gl,
            final(self)@.raw_id == old(self)@.raw_id,
            old(self)@.log.is_prefix_of(final(self)@.log),
            script_events(final(self)@.log) == script_events(old(self)@.log) + script_log(
                events@.take(consumed as int),
                old(self)@.scale_percent,
            ),
            final(self)@.frames == old(self)@.frames + frame_count(events@.take(consumed as int)),
            all_resized_consistent(old(self)@.log, old(self)@.scale_percent)
                ==> all_resized_consistent(final(self)@.log, old(self)@.scale_percent),
            host_deliveries_are_resizes(old(self)@.log) ==> host_deliveries_are_resizes(
                final(self)@.log,
            ),
            consumed == events@.len() || final(self)@.close_requested,
            old(self)@.pending_resize matches Some(ps) ==> ((!old(self)@.close_requested
                && events@.len() > 0) ==> (final(self)@.log.len() > old(self)@.log.len()
                && final(self)@.log[old(self)@.log.len() as int] == (Delivery {
                event: Event::Window(WindowEvent::Resized(spec_from_logical(
                    ps,
                    old(self)@.scale_percent,
                ))),
                from_script: false,
            }))),
    {
        let ghost scale = self@.scale_percent;
        let ghost log0 = self@.log;
        let ghost frames0 = self@.frames;
        let n = events.len();
        let mut i: usize = 0;
        while i < n
            invariant
                i <= n,
                n == events@.len(),
                self@.state == WindowState::Running,
                self@.title == old(self)@.title,
                self@.scale_percent == scale,
                scale == old(self)@.scale_percent,
                self@.gl == old(self)@.gl,
                self@.raw_id == old(self)@.raw_id,
                log0 == old(self)@.log,
                frames0 == old(self)@.frames,
                log0.is_prefix_of(self@.log),
                script_events(self@.log) == script_events(log0) + script_log(
                    events@.take(i as int),
                    scale,
                ),
                self@.frames == frames0 + frame_count(events@.take(i as int)),
                all_resized_consistent(log0, scale) ==> all_resized_consistent(self@.log, scale),
                host_deliveries_are_resizes(log0) ==> host_deliveries_are_resizes(self@.log),
                i == 0 ==> self@.close_requested == old(self)@.close_requested
                    && self@.pending_resize == old(self)@.pending_resize && self@.log == log0,
                old(self)@.pending_resize matches Some(ps) ==> ((i > 0
                    && !old(self)@.close_requested && n > 0) ==> (self@.log.len() > log0.len()
                    && self@.log[log0.len() as int] == (Delivery {
                    event: Event::Window(WindowEvent::Resized(spec_from_logical(ps, scale))),
                    from_script: false,
                }))),
            decreases n - i,
        {
            if self.close_requested {
                self.state = WindowState::Closing;
                return i;
            }
            if let Some(size) = self.pending_resize {
                self.pending_resize = None;
                let info = WindowInfo::from_logical(size, self.scale_percent);
                proof {
                    lemma_script_events_push(
                        self@.log,
                        Delivery {
                            event: Event::Window(WindowEvent::Resized(info)),
                            from_script: false,
                        },
                    );
                    lemma_prefix_push(
                        log0,
                        self@.log,
                        Delivery {
                            event: Event::Window(WindowEvent::Resized(info)),
                            from_script: false,
                        },
                    );
                }
                self.deliver(handler, Event::Window(WindowEvent::Resized(info)), false);
                if self.close_requested {
                    self.state = WindowState::Closing;
                    return i;
                }
            }
            let ev = events[i];
            let ghost pre_log = self@.log;
            let ghost delivered: Seq<Event>;
            match ev {
                NativeEvent::Frame => {
                    self.frames = Ghost(self.frames@ + 1);
                    handler.on_frame(self);
                    proof {
                        delivered = Seq::empty();
                    }
                },
                NativeEvent::CloseRequested => {
                    proof {
                        delivered = seq![Event::Window(WindowEvent::WillClose)];
                    }
                    self.deliver(handler, Event::Window(WindowEvent::WillClose), true);
                    self.close_requested = true;
                },
                NativeEvent::Resized(size) => {
                    self.logical = size;
                    let info = WindowInfo::from_logical(size, self.scale_percent);
                    proof {
                        delivered = seq![Event::Window(WindowEvent::Resized(info))];
                    }
                    self.deliver(handler, Event::Window(WindowEvent::Resized(info)), true);
                },
                NativeEvent::Mouse(m) => {
                    proof {
                        delivered = seq![Event::Mouse(m)];
                    }
                    self.deliver(handler, Event::Mouse(m), true);
                },
                NativeEvent::Keyboard(k) => {
                    proof {
                        delivered = seq![Event::Keyboard(k)];
                    }
                    self.deliver(handler, Event::Keyboard(k), true);
                },
                NativeEvent::Focused => {
                    proof {
                        delivered = seq![Event::Window(WindowEvent::Focused)];
                    }
                    self.deliver(handler, Event::Window(WindowEvent::Focused), true);
                },
                NativeEvent::Unfocused => {
                    proof {
                        delivered = seq![Event::Window(WindowEvent::Unfocused)];
                    }
                    self.deliver(handler, Event::Window(WindowEvent::Unfocused), true);
                },
            }
            proof {
                lemma_script_log_step(events@, scale, i as int);
                assert(delivered == normalize_delta(events@[i as int], scale));
                if !(events@[i as int] is Frame) {
                    lemma_script_events_push(
                        pre_log,
                        Delivery { event: delivered[0], from_script: true },
                    );
                    lemma_prefix_push(
                        log0,
                        pre_log,
                        Delivery { event: delivered[0], from_script: true },
                    );
                    assert(script_events(self@.log) == script_events(log0) + script_log(
                        events@.take(i as int),
                        scale,
                    ) + delivered);
                }
                assert(script_events(self@.log) == script_events(log0) + script_log(
                    events@.take(i + 1 as int),
                    scale,
                ));
            }
            i = i + 1;
        }
        if self.close_requested {
            self.state = WindowState::Closing;
        }
        proof {
            assert(events@.take(n as int) =~= events@);
        }
        n
    }

    /// Opens a window and blocks: the backend is constructed on the calling
    /// thread, `build` produces the handler, and the caller's control only
    /// returns once the dispatch loop has fully terminated. The first
    /// delivery is a synthetic `Resized` reporting the opening size under
    /// the resolved scale factor; after it, the scripted occurrences are
    /// dispatched in order until the script is exhausted or a close is
    /// requested. The closed window is handed back for inspection.
    pub fn open_blocking<B: WindowBuilder>(
        source: NativeSource,
        options: WindowOpenOptions,
        build: B,
    ) -> (w: Window)
        ensures
            w@.state == WindowState::Closed,
            w@.title == options.title@,
            w@.scale_percent == spec_resolve_scale(options.scale, source.scale_percent),
            w@.gl == options.gl_config,
            w@.raw_id == source.window_id,
            w@.log.len() >= 1,
            w@.log[0] == (Delivery {
                event: Event::Window(WindowEvent::Resized(spec_from_logical(
                    options.size,
                    spec_resolve_scale(options.scale, source.scale_percent),
                ))),
                from_script: false,
            }),
            all_resized_consistent(w@.log, w@.scale_percent),
            host_deliveries_are_resizes(w@.log),
            exists|k: int|
                {
                    &&& 0 <= k <= source.events@.len()
                    &&& #[trigger] script_events(w@.log) == script_log(
                        source.events@.take(k),
                        w@.scale_percent,
                    )
                    &&& w@.frames == frame_count(source.events@.take(k))
                    &&& (k == source.events@.len() || w@.close_requested)
                },
            !w@.close_requested ==> script_events(w@.log) == script_log(
                source.events@,
                w@.scale_percent,
            ) && w@.frames == frame_count(source.events@),
    {
        let scale = resolve_scale(options.scale, source.scale_percent);
        let size0 = options.size;
        let mut win = Window::new(options, scale, source.window_id);
        let mut handler = build.build(&win);
        win.state = WindowState::Running;
        let info = WindowInfo::from_logical(size0, scale);
        let ghost initial = Delivery {
            event: Event::Window(WindowEvent::Resized(info)),
            from_script: false,
        };
        proof {
            lemma_script_events_push(Seq::empty(), initial);
        }
        win.deliver(&mut handler, Event::Window(WindowEvent::Resized(info)), false);
        let consumed = win.pump(&mut handler, &source.events);
        win.state = WindowState::Closed;
        proof {
            let k = consumed as int;
            assert(script_events(win@.log) == script_log(source.events@.take(k), scale)
                && win@.frames == frame_count(source.events@.take(k)) && (k
                == source.events@.len() || win@.close_requested));
            if !win@.close_requested {
                assert(source.events@.take(source.events@.len() as int) =~= source.events@);
            }
        }
        win
    }

    /// Opens a window embedded under a foreign parent window and returns a
    /// `WindowHandle` at once; the parent's own loop drives dispatch, here
    /// modelled by the scripted occurrences running before the call
    /// returns. Fails, before any backend construction, when the parent
    /// cannot produce a valid native handle. The handle stays open unless a
    /// close was requested during the session, and the host closes it
    /// through the handle thereafter.
    pub fn open_parented<B: WindowBuilder>(
        parent: &ParentHandle,
        source: NativeSource,
        options: WindowOpenOptions,
        build: B,
    ) -> (r: Result<WindowHandle, WindowOpenError>)
        ensures
            r is Err <==> parent@ is None,
            r matches Err(e) ==> e == WindowOpenError::InvalidParentHandle,
            r matches Ok(h) ==> {
                &&& h@.scale_percent == spec_resolve_scale(options.scale, source.scale_percent)
                &&& h@.log.len() >= 1
                &&& h@.log[0] == (Delivery {
                    event: Event::Window(WindowEvent::Resized(spec_from_logical(
                        options.size,
                        spec_resolve_scale(options.scale, source.scale_percent),
                    ))),
                    from_script: false,
                })
                &&& all_resized_consistent(h@.log, h@.scale_percent)
                &&& host_deliveries_are_resizes(h@.log)
                &&& exists|k: int|
                    {
                        &&& 0 <= k <= source.events@.len()
                        &&& #[trigger] script_events(h@.log) == script_log(
                            source.events@.take(k),
                            h@.scale_percent,
                        )
                        &&& (k == source.events@.len() || !h@.open)
                    }
                &&& (h@.open ==> script_events(h@.log) == script_log(
                    source.events@,
                    h@.scale_percent,
                ))
            },
    {
        if parent.raw.is_none() {
            return Err(WindowOpenError::InvalidParentHandle);
        }
        let scale = resolve_scale(options.scale, source.scale_percent);
        let size0 = options.size;
        let mut win = Window::new(options, scale, source.window_id);
        let mut handler = build.build(&win);
        win.state = WindowState::Running;
        let info = WindowInfo::from_logical(size0, scale);
        let ghost initial = Delivery {
            event: Event::Window(WindowEvent::Resized(info)),
            from_script: false,
        };
        proof {
            lemma_script_events_push(Seq::empty(), initial);
        }
        win.deliver(&mut handler, Event::Window(WindowEvent::Resized(info)), false);
        let consumed = win.pump(&mut handler, &source.events);
        let open = !win.close_requested;
        if !open {
            win.state = WindowState::Closed;
        }
        let handle = WindowHandle {
            open,
            scale_percent: scale,
            log: Ghost(win@.log),
        };
        proof {
            let k = consumed as int;
            assert(script_events(handle@.log) == script_log(source.events@.take(k), scale) && (k
                == source.events@.len() || !handle@.open));
            if handle@.open {
                assert(source.events@.take(source.events@.len() as int) =~= source.events@);
            }
        }
        Ok(handle)
    }
}

/// Why an open call failed.
#[derive(Clone, Copy, Debug, PartialEq, Eq, Structural)]
pub enum WindowOpenError {
    /// The supplied parent could not produce a valid native window handle.
    InvalidParentHandle,
}

/// A foreign parent window, as handed across the interop boundary: either
/// a valid raw native handle, or nothing, when the parent toolkit could not
/// extract one.
pub struct ParentHandle {
    raw: Option<u64>,
}

impl View for ParentHandle {
    type V = Option<u64>;

    closed spec fn view(&self) -> Option<u64> {
        self.raw
    }
}

impl ParentHandle {
    /// A parent that produced this raw native handle.
    pub fn from_raw(raw: u64) -> (p: ParentHandle)
        ensures
            p@ == Some(raw),
    {
        ParentHandle { raw: Some(raw) }
    }

    /// A parent whose handle extraction failed.
    pub fn invalid() -> (p: ParentHandle)
        ensures
            p@ is None,
    {
        ParentHandle { raw: None }
    }
}

/// The mathematical state of a `WindowHandle`.
pub ghost struct HandleView {
    /// Whether the underlying window is still open. Once false it never
    /// turns true again.
    pub open: bool,
    /// The scale factor, in hundredths, that was active in the session.
    pub scale_percent: u32,
    /// Every `on_event` call the window made, in order.
    pub log: Seq<Delivery>,
}

/// Closing a handle: liveness is cleared and nothing else changes; in
/// particular no event is delivered, so closing twice leaves exactly what
/// closing once left.
pub open spec fn spec_close(h: HandleView) -> HandleView {
    HandleView { open: false, ..h }
}

/// What any handle operation may do: the record never changes, and a
/// closed handle never reopens.
pub open spec fn handle_step(pre: HandleView, post: HandleView) -> bool {
    &&& post.scale_percent == pre.scale_percent
    &&& post.log == pre.log
    &&& (post.open ==> pre.open)
}

/// A thread-confined handle to a window opened in parented mode. It does
/// not own the window's dispatch; it only closes the window or queries
/// liveness, both safe at any time, including after the window is gone.
pub struct WindowHandle {
    open: bool,
    scale_percent: u32,
    log: Ghost<Seq<Delivery>>,
}

impl View for WindowHandle {
    type V = HandleView;

    closed spec fn view(&self) -> HandleView {
        HandleView { open: self.open, scale_percent: self.scale_percent, log: self.log@ }
    }
}

impl WindowHandle {
    /// Closes the window. Idempotent: a second call is a no-op, delivers
    /// nothing, and never fails.
    pub fn close(&mut self)
        ensures
            final(self)@ == spec_close(old(self)@),
            handle_step(old(self)@, final(self)@),
    {
        self.open = false;
    }

    /// Whether the window is still open: false forever once it was closed
    /// by any path. Safe to call at any time.
    pub fn is_open(&self) -> (r: bool)
        ensures
            r == self@.open,
    {
        self.open
    }
}

/// Law: every `Resized` event a window delivered reports the physical size
/// that its logical size determines under the active scale factor, rounded
/// half up.
pub proof fn lemma_resized_reports_active_scale(
    log: Seq<Delivery>,
    scale_percent: u32,
    i: int,
    info: WindowInfo,
)
    requires
        all_resized_consistent(log, scale_percent),
        0 <= i < log.len(),
        log[i].event == Event::Window(WindowEvent::Resized(info)),
    ensures
        info.scale_percent == scale_percent,
        info.physical.width == scaled_len(info.logical.width, scale_percent),
        info.physical.height == scaled_len(info.logical.height, scale_percent),
{
    assert(resized_consistent(log[i].event, scale_percent));
    crate::window_info::lemma_scaled_len_fits(info.logical.width, scale_percent);
    crate::window_info::lemma_scaled_len_fits(info.logical.height, scale_percent);
}

/// Law: `is_open` never flips from false back to true: whatever sequence
/// of handle operations runs, a handle that was closed stays closed.
pub proof fn lemma_is_open_monotone(pre: HandleView, post: HandleView)
    requires
        handle_step(pre, post),
        !pre.open,
    ensures
        !post.open,
{
}

/// Law: `close` is idempotent: closing an already-closed handle changes
/// nothing observable.
pub proof fn lemma_close_idempotent(h: HandleView)
    ensures
        spec_close(spec_close(h)) == spec_close(h),
        spec_close(h).log == h.log,
{
}

/// Law: a close request on a window is idempotent too: requesting twice
/// leaves exactly what requesting once left, and delivers nothing.
pub proof fn lemma_request_close_idempotent(v: WinView)
    ensures
        spec_request_close(spec_request_close(v)) == spec_request_close(v),
        spec_request_close(v).log == v.log,
{
}

} // verus!
