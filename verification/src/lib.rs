//! A platform-neutral window abstraction: a host opens a window (standalone
//! and blocking, or embedded under a foreign parent window) and receives a
//! single ordered stream of input and lifecycle events through a handler it
//! supplies. The native environment is modelled as a scripted source of
//! occurrences, so the dispatch loop, the resize and DPI-scaling rules, and
//! the handle lifecycle are all stated and proved here.

pub mod event;
pub mod gl;
pub mod platform;
pub mod window;
pub mod window_info;
pub mod window_open_options;

pub use event::{Event, EventStatus, KeyboardEvent, MouseButton, MouseCursor, MouseEvent,
    WindowEvent};
pub use gl::{GlConfig, GlContext};
pub use platform::{NativeEvent, NativeSource};
pub use window::{Delivery, HandleView, ParentHandle, WinView, Window, WindowBuilder,
    WindowHandle, WindowHandler, WindowOpenError, WindowState};
pub use window_info::{PhySize, Size, WindowInfo};
pub use window_open_options::{WindowOpenOptions, WindowScalePolicy};
