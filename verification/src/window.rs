//! The window facade: one logical window standing for the platform's
//! one-and-only surface.
//!
//! Most mutators are accepted and intentionally do nothing, reflecting the
//! absence of corresponding native controls — callers must not assume any
//! visual effect.  Geometry queries return the last known native surface
//! size, or a documented fallback before any surface notification has
//! arrived.  Operations with no native analogue fail with `NotSupported`;
//! native-handle exposure fails with `Unavailable` while no surface
//! exists.

use vstd::prelude::*;

use crate::active_loop::ActiveEventLoop;
use crate::error::RequestError;
use crate::events::{PhysicalInsets, PhysicalPosition, PhysicalSize, WindowId, GLOBAL_WINDOW_RAW};
use crate::monitor::{MonitorHandle, VideoModeHandle};

verus! {

/// Platform-specific window attributes.  This platform defines none.
#[derive(Clone, Copy, Debug, Default, Eq, PartialEq, Structural)]
pub struct PlatformSpecificWindowAttributes;

/// Requested window attributes.  They are accepted on creation and not
/// honoured — a documented limitation of the platform.
#[derive(Clone, Copy, Debug, PartialEq, Eq, Structural)]
pub struct WindowAttributes {
    pub platform_specific: PlatformSpecificWindowAttributes,
}

impl Default for WindowAttributes {
    fn default() -> (r: Self)
        ensures
            r == (WindowAttributes { platform_specific: PlatformSpecificWindowAttributes }),
    {
        WindowAttributes { platform_specific: PlatformSpecificWindowAttributes }
    }
}

/// A custom cursor.  No value of it is ever produced on this platform:
/// every creation request fails.
#[derive(Clone, Copy, Debug, PartialEq, Eq, Structural)]
pub struct CustomCursor {}

/// A source from which a custom cursor would be built.
#[derive(Clone, Copy, Debug, PartialEq, Eq, Structural)]
pub struct CustomCursorSource {}

/// A cursor choice.  The platform has no cursor controls; the value is
/// accepted and ignored.
#[derive(Clone, Copy, Debug, PartialEq, Eq, Structural)]
pub struct Cursor {}

/// A window icon.  The platform has no icons; the value is accepted and
/// ignored.
#[derive(Clone, Copy, Debug, PartialEq, Eq, Structural)]
pub struct Icon {}

/// The system theme.
#[derive(Clone, Copy, Debug, PartialEq, Eq, Structural)]
pub enum Theme {
    Light,
    Dark,
}

/// A fullscreen request.
#[derive(Clone, Debug, PartialEq, Eq)]
pub enum Fullscreen {
    Exclusive(VideoModeHandle),
    Borderless(Option<MonitorHandle>),
}

/// A cursor-grab request.  None of these modes is supported here.
#[derive(Clone, Copy, Debug, PartialEq, Eq, Structural)]
pub enum CursorGrabMode {
    Unlocked,
    Confined,
    Locked,
}

/// Purpose of input-method traffic.  Accepted and ignored.
#[derive(Clone, Copy, Debug, PartialEq, Eq, Structural)]
pub enum ImePurpose {
    Normal,
    Password,
    Terminal,
}

/// Stacking level of the window.  Accepted and ignored.
#[derive(Clone, Copy, Debug, PartialEq, Eq, Structural)]
pub enum WindowLevel {
    AlwaysOnBottom,
    Normal,
    AlwaysOnTop,
}

/// Kind of user attention requested.  Accepted and ignored.
#[derive(Clone, Copy, Debug, PartialEq, Eq, Structural)]
pub enum UserAttentionType {
    Critical,
    Informational,
}

/// Direction of a window resize drag.
#[derive(Clone, Copy, Debug, PartialEq, Eq, Structural)]
pub enum ResizeDirection {
    East,
    North,
    NorthEast,
    NorthWest,
    South,
    SouthEast,
    SouthWest,
    West,
}

/// The window's caption buttons.  The platform reports all of them as
/// enabled.
#[derive(Clone, Copy, Debug, PartialEq, Eq, Structural)]
pub struct WindowButtons {
    pub close: bool,
    pub minimize: bool,
    pub maximize: bool,
}

impl WindowButtons {
    /// Every caption button.
    pub fn all() -> (r: Self)
        ensures
            r == (WindowButtons { close: true, minimize: true, maximize: true }),
    {
        WindowButtons { close: true, minimize: true, maximize: true }
    }
}

/// The fallback surface width reported before any surface notification.
pub const FALLBACK_SURFACE_WIDTH: u32 = 1080;

/// The fallback surface height reported before any surface notification.
pub const FALLBACK_SURFACE_HEIGHT: u32 = 2720;

/// The surface size a geometry query reports: the last known native
/// surface size, or the documented fallback before any surface
/// notification has arrived.
pub open spec fn current_surface_size(el: ActiveEventLoop) -> PhysicalSize {
    match el.surface_size {
        Some(s) => s,
        None => PhysicalSize { width: FALLBACK_SURFACE_WIDTH, height: FALLBACK_SURFACE_HEIGHT },
    }
}

/// The singleton window.  It holds no state of its own: every query either
/// returns a documented constant or reads the shared loop context.
#[derive(Clone, Copy, Debug, PartialEq, Eq, Structural)]
pub struct Window {}

impl Window {
    /// The one window value.
    pub open spec fn the_window() -> Window {
        Window {}
    }

    /// Create the singleton window.  The requested attributes are
    /// accepted and ignored; creation always succeeds.
    pub fn new(el: &ActiveEventLoop, window_attrs: WindowAttributes) -> (r: Result<
        Window,
        RequestError,
    >)
        ensures
            r == Ok::<Window, RequestError>(Window::the_window()),
    {
        let _ = el;
        let _ = window_attrs;
        Ok(Window {})
    }

    /// The fixed, well-known id of the one window.
    pub fn id(&self) -> (r: WindowId)
        ensures
            r == (WindowId { raw: GLOBAL_WINDOW_RAW }),
    {
        WindowId { raw: GLOBAL_WINDOW_RAW }
    }

    /// Redraw requests are driven by the native runtime; nothing to do.
    pub fn request_redraw(&self) {
    }

    /// The surface sits at the origin of the window.
    pub fn surface_position(&self) -> (r: PhysicalPosition)
        ensures
            r == (PhysicalPosition { x: 0, y: 0 }),
    {
        PhysicalPosition { x: 0, y: 0 }
    }

    /// No insets are reported.
    pub fn safe_area(&self) -> (r: PhysicalInsets)
        ensures
            r == (PhysicalInsets { top: 0, left: 0, bottom: 0, right: 0 }),
    {
        PhysicalInsets { top: 0, left: 0, bottom: 0, right: 0 }
    }

    /// There is no primary monitor.
    pub fn primary_monitor(&self) -> (r: Option<MonitorHandle>)
        ensures
            r is None,
    {
        None
    }

    /// Monitor enumeration is stubbed: there are never any monitors.
    pub fn available_monitors(&self) -> (r: Vec<MonitorHandle>)
        ensures
            r@ == Seq::<MonitorHandle>::empty(),
    {
        let monitors: Vec<MonitorHandle> = Vec::new();
        proof {
            assert(monitors@ =~= Seq::<MonitorHandle>::empty());
        }
        monitors
    }

    /// There is no current monitor.
    pub fn current_monitor(&self) -> (r: Option<MonitorHandle>)
        ensures
            r is None,
    {
        None
    }

    /// Nothing to do before presentation.
    pub fn pre_present_notify(&self) {
    }

    /// The outer position has no native analogue.
    pub fn outer_position(&self) -> (r: Result<PhysicalPosition, RequestError>)
        ensures
            r == Err::<PhysicalPosition, RequestError>(RequestError::NotSupported),
    {
        Err(RequestError::NotSupported)
    }

    /// Accepted and ignored: the window cannot be moved.
    pub fn set_outer_position(&self, position: PhysicalPosition) {
        let _ = position;
    }

    /// The current surface size: the last known native surface size, or
    /// the documented fallback before any surface notification.
    pub fn surface_size(&self, el: &ActiveEventLoop) -> (r: PhysicalSize)
        ensures
            r == current_surface_size(*el),
    {
        match el.surface_size {
            Some(s) => s,
            None => PhysicalSize {
                width: FALLBACK_SURFACE_WIDTH,
                height: FALLBACK_SURFACE_HEIGHT,
            },
        }
    }

    /// Surface size requests are not honoured.
    pub fn request_surface_size(&self, size: PhysicalSize) -> (r: Option<PhysicalSize>)
        ensures
            r is None,
    {
        let _ = size;
        None
    }

    /// The window has no decorations: its outer size is the surface size.
    pub fn outer_size(&self, el: &ActiveEventLoop) -> (r: PhysicalSize)
        ensures
            r == current_surface_size(*el),
    {
        self.surface_size(el)
    }

    /// Accepted and ignored.
    pub fn set_min_surface_size(&self, size: Option<PhysicalSize>) {
        let _ = size;
    }

    /// Accepted and ignored.
    pub fn set_max_surface_size(&self, size: Option<PhysicalSize>) {
        let _ = size;
    }

    /// No resize increments are reported.
    pub fn surface_resize_increments(&self) -> (r: Option<PhysicalSize>)
        ensures
            r is None,
    {
        None
    }

    /// Accepted and ignored.
    pub fn set_surface_resize_increments(&self, increments: Option<PhysicalSize>) {
        let _ = increments;
    }

    /// Accepted and ignored: the window has no title bar.
    pub fn set_title(&self, title: &str) {
        let _ = title;
    }

    /// Accepted and ignored.
    pub fn set_transparent(&self, transparent: bool) {
        let _ = transparent;
    }

    /// Accepted and ignored.
    pub fn set_blur(&self, blur: bool) {
        let _ = blur;
    }

    /// Accepted and ignored: visibility is owned by the runtime.
    pub fn set_visible(&self, visibility: bool) {
        let _ = visibility;
    }

    /// Visibility cannot be queried.
    pub fn is_visible(&self) -> (r: Option<bool>)
        ensures
            r is None,
    {
        None
    }

    /// Accepted and ignored.
    pub fn set_resizable(&self, resizeable: bool) {
        let _ = resizeable;
    }

    /// The window is never resizable by the user.
    pub fn is_resizable(&self) -> (r: bool)
        ensures
            r == false,
    {
        false
    }

    /// Accepted and ignored.
    pub fn set_enabled_buttons(&self, buttons: WindowButtons) {
        let _ = buttons;
    }

    /// All caption buttons are reported as enabled.
    pub fn enabled_buttons(&self) -> (r: WindowButtons)
        ensures
            r == (WindowButtons { close: true, minimize: true, maximize: true }),
    {
        WindowButtons::all()
    }

    /// Accepted and ignored.
    pub fn set_minimized(&self, minimized: bool) {
        let _ = minimized;
    }

    /// Minimization cannot be queried.
    pub fn is_minimized(&self) -> (r: Option<bool>)
        ensures
            r is None,
    {
        None
    }

    /// Accepted and ignored.
    pub fn set_maximized(&self, maximized: bool) {
        let _ = maximized;
    }

    /// The window is never reported as maximized.
    pub fn is_maximized(&self) -> (r: bool)
        ensures
            r == false,
    {
        false
    }

    /// Accepted and ignored: fullscreen cannot be set on this platform.
    pub fn set_fullscreen(&self, monitor: Option<Fullscreen>) {
        let _ = monitor;
    }

    /// No fullscreen state is reported.
    pub fn fullscreen(&self) -> (r: Option<Fullscreen>)
        ensures
            r is None,
    {
        None
    }

    /// Accepted and ignored.
    pub fn set_decorations(&self, decorations: bool) {
        let _ = decorations;
    }

    /// The window is reported as decorated.
    pub fn is_decorated(&self) -> (r: bool)
        ensures
            r == true,
    {
        true
    }

    /// Accepted and ignored.
    pub fn set_window_level(&self, level: WindowLevel) {
        let _ = level;
    }

    /// Accepted and ignored.
    pub fn set_window_icon(&self, window_icon: Option<Icon>) {
        let _ = window_icon;
    }

    /// Accepted and ignored.
    pub fn set_ime_cursor_area(&self, position: PhysicalPosition, size: PhysicalSize) {
        let _ = position;
        let _ = size;
    }

    /// Accepted and ignored.
    pub fn set_ime_allowed(&self, allowed: bool) {
        let _ = allowed;
    }

    /// Accepted and ignored.
    pub fn set_ime_purpose(&self, purpose: ImePurpose) {
        let _ = purpose;
    }

    /// Accepted and ignored: focus is owned by the runtime.
    pub fn focus_window(&self) {
    }

    /// Accepted and ignored.
    pub fn request_user_attention(&self, request_type: Option<UserAttentionType>) {
        let _ = request_type;
    }

    /// Accepted and ignored: there are no cursor controls.
    pub fn set_cursor(&self, cursor: Cursor) {
        let _ = cursor;
    }

    /// The cursor cannot be positioned on this platform.
    pub fn set_cursor_position(&self, position: PhysicalPosition) -> (r: Result<(), RequestError>)
        ensures
            r == Err::<(), RequestError>(RequestError::NotSupported),
    {
        let _ = position;
        Err(RequestError::NotSupported)
    }

    /// The cursor cannot be grabbed on this platform, in any mode.
    pub fn set_cursor_grab(&self, mode: CursorGrabMode) -> (r: Result<(), RequestError>)
        ensures
            r == Err::<(), RequestError>(RequestError::NotSupported),
    {
        let _ = mode;
        Err(RequestError::NotSupported)
    }

    /// Accepted and ignored.
    pub fn set_cursor_visible(&self, visible: bool) {
        let _ = visible;
    }

    /// The window cannot be dragged on this platform.
    pub fn drag_window(&self) -> (r: Result<(), RequestError>)
        ensures
            r == Err::<(), RequestError>(RequestError::NotSupported),
    {
        Err(RequestError::NotSupported)
    }

    /// The window cannot be resized by dragging, in any direction.
    pub fn drag_resize_window(&self, direction: ResizeDirection) -> (r: Result<(), RequestError>)
        ensures
            r == Err::<(), RequestError>(RequestError::NotSupported),
    {
        let _ = direction;
        Err(RequestError::NotSupported)
    }

    /// Accepted and ignored.
    pub fn show_window_menu(&self, position: PhysicalPosition) {
        let _ = position;
    }

    /// Cursor hit-testing has no analogue on this platform.
    pub fn set_cursor_hittest(&self, hittest: bool) -> (r: Result<(), RequestError>)
        ensures
            r == Err::<(), RequestError>(RequestError::NotSupported),
    {
        let _ = hittest;
        Err(RequestError::NotSupported)
    }

    /// Accepted and ignored.
    pub fn set_theme(&self, theme: Option<Theme>) {
        let _ = theme;
    }

    /// No theme is reported.
    pub fn theme(&self) -> (r: Option<Theme>)
        ensures
            r is None,
    {
        None
    }

    /// Accepted and ignored.
    pub fn set_content_protected(&self, protected: bool) {
        let _ = protected;
    }

    /// Whether the window has input focus: the process-wide focus flag,
    /// as of the most recent focus notification.
    pub fn has_focus(&self, el: &ActiveEventLoop) -> (r: bool)
        ensures
            r == el.focus,
    {
        el.is_focused()
    }

    /// The window has no title.
    pub fn title(&self) -> (r: String)
        ensures
            r@ == Seq::<char>::empty(),
    {
        String::new()
    }

    /// Accepted and ignored.
    pub fn reset_dead_keys(&self) {
    }
}

/// Decision core of the native-handle exposure paths: a raw handle may be
/// handed out only while the native surface exists and its raw handle is
/// non-null — that is, between a resume and the matching suspend.  In
/// every other state the request fails with `Unavailable`.
pub fn window_handle_availability(surface_present: bool, handle_present: bool) -> (r: Result<
    (),
    RequestError,
>)
    ensures
        r == if surface_present && handle_present {
            Ok::<(), RequestError>(())
        } else {
            Err::<(), RequestError>(RequestError::Unavailable)
        },
{
    if surface_present && handle_present {
        Ok(())
    } else {
        Err(RequestError::Unavailable)
    }
}

} // verus!
