//! The modelled native environment a window binds to. A real backend owns a
//! native window and pumps a native event queue; here the environment is a
//! value: the DPI factor the system reports, the identifier the native
//! windowing system assigns, and the native occurrences the backend will
//! observe, in order. Normalization of a native occurrence into a delivered
//! `Event` is defined here as well.

use vstd::prelude::*;
use crate::event::{Event, KeyboardEvent, MouseEvent, WindowEvent};
use crate::window_info::{spec_from_logical, Size};

verus! {

/// One native occurrence, as the windowing system reports it.
#[derive(Clone, Copy, Debug, PartialEq, Eq, Structural)]
pub enum NativeEvent {
    Mouse(MouseEvent),
    Keyboard(KeyboardEvent),
    /// The system applied a resize to this logical size.
    Resized(Size),
    Focused,
    Unfocused,
    /// A display refresh tick; drives `on_frame`, not `on_event`.
    Frame,
    /// The user or the system asked the window to close.
    CloseRequested,
}

/// The scripted native environment: what the system reports and what it
/// will observe while the window is open.
pub struct NativeSource {
    /// The DPI scale factor the system reports, in hundredths.
    pub scale_percent: u32,
    /// The identifier the native windowing system assigns to the window.
    pub window_id: u64,
    /// The native occurrences, in the order the system observes them.
    pub events: Vec<NativeEvent>,
}

/// The `on_event` delivery a native occurrence normalizes to, under the
/// active scale factor; `None` for a frame tick, which drives `on_frame`.
pub open spec fn spec_normalize(ev: NativeEvent, scale_percent: u32) -> Option<Event> {
    match ev {
        NativeEvent::Mouse(m) => Some(Event::Mouse(m)),
        NativeEvent::Keyboard(k) => Some(Event::Keyboard(k)),
        NativeEvent::Resized(s) => Some(
            Event::Window(WindowEvent::Resized(spec_from_logical(s, scale_percent))),
        ),
        NativeEvent::Focused => Some(Event::Window(WindowEvent::Focused)),
        NativeEvent::Unfocused => Some(Event::Window(WindowEvent::Unfocused)),
        NativeEvent::Frame => None,
        NativeEvent::CloseRequested => Some(Event::Window(WindowEvent::WillClose)),
    }
}

/// The deliveries one native occurrence contributes: one event, or none for
/// a frame tick.
pub open spec fn normalize_delta(ev: NativeEvent, scale_percent: u32) -> Seq<Event> {
    match spec_normalize(ev, scale_percent) {
        Some(e) => seq![e],
        None => Seq::empty(),
    }
}

/// The `on_event` deliveries a script of native occurrences produces, in
/// order, under the active scale factor.
pub open spec fn script_log(events: Seq<NativeEvent>, scale_percent: u32) -> Seq<Event>
    decreases events.len(),
{
    if events.len() == 0 {
        Seq::empty()
    } else {
        script_log(events.drop_last(), scale_percent) + normalize_delta(
            events.last(),
            scale_percent,
        )
    }
}

/// How many frame ticks a script holds: the number of `on_frame` calls its
/// dispatch produces.
pub open spec fn frame_count(events: Seq<NativeEvent>) -> nat
    decreases events.len(),
{
    if events.len() == 0 {
        0
    } else {
        frame_count(events.drop_last()) + if events.last() is Frame {
            1nat
        } else {
            0nat
        }
    }
}

/// Consuming one more scripted occurrence extends the produced deliveries by
/// exactly that occurrence's contribution.
pub proof fn lemma_script_log_step(events: Seq<NativeEvent>, scale_percent: u32, i: int)
    requires
        0 <= i < events.len(),
    ensures
        script_log(events.take(i + 1), scale_percent) == script_log(events.take(i), scale_percent)
            + normalize_delta(events[i], scale_percent),
        frame_count(events.take(i + 1)) == frame_count(events.take(i)) + if events[i] is Frame {
            1nat
        } else {
            0nat
        },
{
    assert(events.take(i + 1).drop_last() =~= events.take(i));
    assert(events.take(i + 1).last() == events[i]);
}

} // verus!
