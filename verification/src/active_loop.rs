//! The application-facing handle of a running loop: control-flow mode,
//! exit intent, the process-wide focus flag and the last known surface
//! size, held as explicit fields of one context object that is passed by
//! reference to application callbacks.
//!
//! On this platform there is exactly one window, monitor enumeration is
//! empty, no system theme is reported and custom cursors do not exist.

use vstd::prelude::*;

use crate::error::RequestError;
use crate::events::PhysicalSize;
use crate::monitor::MonitorHandle;
use crate::window::{CustomCursor, CustomCursorSource, Theme, Window, WindowAttributes};

verus! {

/// The application's stated preference for how eagerly the loop should be
/// re-driven: immediately, only on demand, or on demand but no later than
/// a deadline.  The deadline is an opaque tick value chosen by the
/// embedder; the adapter accepts it without enforcing it (enforcement is
/// delegated to the native dispatch primitive).
#[derive(Clone, Copy, Debug, PartialEq, Eq, Structural)]
pub enum ControlFlow {
    Poll,
    Wait,
    WaitUntil { deadline: u64 },
}

impl Default for ControlFlow {
    /// The default mode: wait until an event arrives.
    fn default() -> (r: Self)
        ensures
            r == ControlFlow::Wait,
    {
        ControlFlow::Wait
    }
}

/// Which device events the application asked to listen to.  The platform
/// accepts the request and ignores it.
#[derive(Clone, Copy, Debug, PartialEq, Eq, Structural)]
pub enum DeviceEvents {
    Always,
    WhenFocused,
    Never,
}

/// The per-iteration context object handed to application callbacks.
///
/// `control_flow` and `exit` are written only by callbacks running on the
/// dispatch thread and read by the driver after each callback returns; the
/// last write wins and nothing is validated.  `focus` mirrors the most
/// recent focus notification and starts `true` at process start.
/// `surface_size` is the last surface size a native notification reported,
/// `None` until the first one arrives.
#[derive(Clone, Copy, Debug, PartialEq, Eq)]
pub struct ActiveEventLoop {
    pub control_flow: ControlFlow,
    pub exit: bool,
    pub focus: bool,
    pub surface_size: Option<PhysicalSize>,
}

impl ActiveEventLoop {
    /// The context state at process start: default control flow, no exit
    /// intent, focused, no surface size known yet.
    pub open spec fn initial() -> Self {
        ActiveEventLoop {
            control_flow: ControlFlow::Wait,
            exit: false,
            focus: true,
            surface_size: None,
        }
    }

    /// A fresh context, in the initial state.
    pub fn new() -> (r: Self)
        ensures
            r == Self::initial(),
    {
        ActiveEventLoop {
            control_flow: ControlFlow::Wait,
            exit: false,
            focus: true,
            surface_size: None,
        }
    }

    /// Record a new control-flow preference.  Any value is accepted.
    pub fn set_control_flow(&mut self, control_flow: ControlFlow)
        ensures
            *final(self) == (ActiveEventLoop { control_flow, ..*old(self) }),
    {
        self.control_flow = control_flow;
    }

    /// The most recently recorded control-flow preference.
    pub fn control_flow(&self) -> (r: ControlFlow)
        ensures
            r == self.control_flow,
    {
        self.control_flow
    }

    /// Record the intent to exit the loop.  The flag is set-only here;
    /// the driver reads it after each callback returns.
    pub fn exit(&mut self)
        ensures
            *final(self) == (ActiveEventLoop { exit: true, ..*old(self) }),
    {
        self.exit = true;
    }

    /// Whether an exit has been requested.
    pub fn exiting(&self) -> (r: bool)
        ensures
            r == self.exit,
    {
        self.exit
    }

    /// Withdraw a previously recorded exit intent.
    pub fn clear_exit(&mut self)
        ensures
            *final(self) == (ActiveEventLoop { exit: false, ..*old(self) }),
    {
        self.exit = false;
    }

    /// Whether the window currently has input focus, as of the most
    /// recent focus notification.
    pub fn is_focused(&self) -> (r: bool)
        ensures
            r == self.focus,
    {
        self.focus
    }

    /// Create the singleton window.  Attributes are accepted but not
    /// honoured — a documented limitation, not silent corruption — and
    /// creation always succeeds.
    pub fn create_window(&self, window_attributes: WindowAttributes) -> (r: Result<
        Window,
        RequestError,
    >)
        ensures
            r == Ok::<Window, RequestError>(Window::the_window()),
    {
        Window::new(self, window_attributes)
    }

    /// Custom cursors have no analogue on this platform: the request
    /// always fails with `NotSupported`, whatever the source.
    pub fn create_custom_cursor(&self, source: CustomCursorSource) -> (r: Result<
        CustomCursor,
        RequestError,
    >)
        ensures
            r == Err::<CustomCursor, RequestError>(RequestError::NotSupported),
    {
        let _ = source;
        Err(RequestError::NotSupported)
    }

    /// Monitor enumeration is stubbed: there are never any monitors.
    pub fn available_monitors(&self) -> (r: Vec<MonitorHandle>)
        ensures
            r@ == Seq::<MonitorHandle>::empty(),
    {
        let monitors: Vec<MonitorHandle> = Vec::new();
        proof {
            assert(monitors@ =~= Seq::<MonitorHandle>::empty());
        }
        monitors
    }

    /// There is no primary monitor.
    pub fn primary_monitor(&self) -> (r: Option<MonitorHandle>)
        ensures
            r is None,
    {
        None
    }

    /// The system reports no theme.
    pub fn system_theme(&self) -> (r: Option<Theme>)
        ensures
            r is None,
    {
        None
    }

    /// Accept and ignore a device-event listening preference.
    pub fn listen_device_events(&self, allowed: DeviceEvents)
    {
        let _ = allowed;
    }
}

/// The coalescing wake request shared between the loop and its proxies.
///
/// It stands for the native waker primitive: any number of out-of-band
/// `wake_up` calls leave one pending request, which one loop iteration
/// observes and clears.  A wake therefore guarantees that the loop will be
/// given a chance to run soon — never that it runs once per call.
#[derive(Clone, Copy, Debug, PartialEq, Eq, Structural)]
pub struct WakeFlag {
    pub pending: bool,
}

/// The state of a wake flag after one `wake_up` call.
pub open spec fn woken(w: WakeFlag) -> WakeFlag {
    WakeFlag { pending: true }
}

/// The state of a wake flag after `n` consecutive `wake_up` calls.
pub open spec fn after_wake_ups(w: WakeFlag, n: nat) -> WakeFlag
    decreases n,
{
    if n == 0 {
        w
    } else {
        woken(after_wake_ups(w, (n - 1) as nat))
    }
}

impl WakeFlag {
    /// A fresh flag with no pending wake.
    pub fn new() -> (r: Self)
        ensures
            !r.pending,
    {
        WakeFlag { pending: false }
    }

    /// Request a wake.  Safe to call redundantly, at any time: requests
    /// coalesce into a single pending flag.
    pub fn wake_up(&mut self)
        ensures
            *final(self) == woken(*old(self)),
    {
        self.pending = true;
    }

    /// Observe and clear the pending request; one observation absorbs any
    /// number of preceding wakes.
    pub fn take(&mut self) -> (r: bool)
        ensures
            r == old(self).pending,
            !final(self).pending,
    {
        let pending = self.pending;
        self.pending = false;
        pending
    }
}

/// Any number `n >= 1` of consecutive `wake_up` calls leaves the flag in
/// exactly the state one call leaves it in: wakes coalesce, and a single
/// loop iteration suffices to observe them all.
pub proof fn lemma_wake_ups_coalesce(w: WakeFlag, n: nat)
    requires
        n >= 1,
    ensures
        after_wake_ups(w, n) == after_wake_ups(w, 1),
        after_wake_ups(w, n).pending,
    decreases n,
{
    if n > 1 {
        lemma_wake_ups_coalesce(w, (n - 1) as nat);
    }
}

} // verus!
