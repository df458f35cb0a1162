//! The event vocabulary of the adapter.
//!
//! Two families of types live here: the plain-value records of native
//! notifications that the embedding layer hands to the driver
//! ([`NativeEvent`] and the input records inside it), and the portable
//! events the driver produces for the application ([`WindowEvent`] and the
//! dispatch actions around it).  Coordinates, forces and scale factors are
//! carried as opaque integer encodings chosen by the embedder; the adapter
//! forwards them untouched and never interprets them.

use vstd::prelude::*;

verus! {

/// Identifier of the single logical window.  The host runtime owns exactly
/// one surface, so every portable event targets the same well-known id.
#[derive(Clone, Copy, Debug, PartialEq, Eq, Hash, Structural)]
pub struct WindowId {
    pub raw: u64,
}

/// The well-known raw id of the one window.
pub const GLOBAL_WINDOW_RAW: u64 = 0;

/// Identifier of the input device a native event came from.
#[derive(Clone, Copy, Debug, PartialEq, Eq, Hash, Structural)]
pub struct DeviceId {
    pub raw: i64,
}

/// Identifier of one touch contact.  It is unique only within an active
/// touch sequence, not globally stable.
#[derive(Clone, Copy, Debug, PartialEq, Eq, Hash, Structural)]
pub struct FingerId {
    pub raw: u64,
}

/// A size in physical pixels.
#[derive(Clone, Copy, Debug, PartialEq, Eq, Hash, Structural)]
pub struct PhysicalSize {
    pub width: u32,
    pub height: u32,
}

/// A position in physical pixels.
#[derive(Clone, Copy, Debug, PartialEq, Eq, Hash, Structural)]
pub struct PhysicalPosition {
    pub x: i32,
    pub y: i32,
}

/// Insets on the four edges of the surface, in physical pixels.
#[derive(Clone, Copy, Debug, PartialEq, Eq, Hash, Structural)]
pub struct PhysicalInsets {
    pub top: u32,
    pub left: u32,
    pub bottom: u32,
    pub right: u32,
}

/// A pointer position as carried through the adapter: opaque encodings of
/// the two native coordinates, chosen by the embedder and forwarded
/// untouched.
#[derive(Clone, Copy, Debug, PartialEq, Eq, Hash, Structural)]
pub struct PointerPosition {
    pub x: u64,
    pub y: u64,
}

/// State of a key or pointer button.
#[derive(Clone, Copy, Debug, PartialEq, Eq, Structural)]
pub enum ElementState {
    Pressed,
    Released,
}

/// Kind of a pointer.  Tool-type discrimination (finger, stylus, mouse) is
/// an explicit extension point: every pointer is classified `Unknown` today.
#[derive(Clone, Copy, Debug, PartialEq, Eq, Structural)]
pub enum PointerKind {
    Unknown,
}

/// Source of a pointer movement; an extension point like [`PointerKind`].
#[derive(Clone, Copy, Debug, PartialEq, Eq, Structural)]
pub enum PointerSource {
    Unknown,
}

/// Source of a pointer button press; an extension point like
/// [`PointerKind`].  The payload is a raw button number.
#[derive(Clone, Copy, Debug, PartialEq, Eq, Structural)]
pub enum ButtonSource {
    Unknown(u16),
}

/// Why an iteration of the event loop started.
#[derive(Clone, Copy, Debug, PartialEq, Eq, Structural)]
pub enum StartCause {
    Init,
    Poll,
    WaitCancelled,
    ResumeTimeReached,
}

/// Extra per-platform data attached to a keyboard event.  This platform
/// attaches none.
#[derive(Debug, Clone, Copy, Eq, PartialEq, Hash, Structural)]
pub struct KeyEventExtra {}

/// A portable keyboard event.  The native key code is carried through for
/// the (out-of-scope) static key-code table of the surrounding layer;
/// `repeat` is always reported `false`, a known limitation.
#[derive(Clone, Copy, Debug, PartialEq, Eq)]
pub struct KeyEvent {
    pub code: u32,
    pub state: ElementState,
    pub repeat: bool,
    pub platform_specific: KeyEventExtra,
}

/// A portable window event, emitted once per native trigger.
#[derive(Clone, Copy, Debug, PartialEq)]
pub enum WindowEvent {
    PointerEntered {
        device_id: Option<DeviceId>,
        position: PointerPosition,
        primary: bool,
        kind: PointerKind,
    },
    PointerMoved {
        device_id: Option<DeviceId>,
        position: PointerPosition,
        primary: bool,
        source: PointerSource,
    },
    PointerButton {
        device_id: Option<DeviceId>,
        state: ElementState,
        position: PointerPosition,
        primary: bool,
        button: ButtonSource,
    },
    PointerLeft {
        device_id: Option<DeviceId>,
        position: Option<PointerPosition>,
        primary: bool,
        kind: PointerKind,
    },
    KeyboardInput {
        device_id: Option<DeviceId>,
        event: KeyEvent,
        is_synthetic: bool,
    },
    SurfaceResized(PhysicalSize),
    RedrawRequested,
    Focused(bool),
    ScaleFactorChanged {
        /// Opaque encoding of the native scale factor, chosen by the
        /// embedder and forwarded untouched.
        scale_factor: u64,
        /// The surface size the runtime reported together with the new
        /// scale.  The write-back channel through which an application
        /// could request an override size is plumbing of the embedding
        /// layer; the driver itself does not apply overrides (a known gap).
        surface_size: PhysicalSize,
    },
}

/// Action kind of a native touch notification.  The native source
/// enumerates exactly these four; anything else is an upstream contract
/// violation that the embedding layer treats as fatal before it reaches
/// the driver.
#[derive(Clone, Copy, Debug, PartialEq, Eq, Structural)]
pub enum TouchAction {
    Down,
    Move,
    Up,
    Cancel,
}

/// One touch contact inside a native touch notification.  `force` is an
/// opaque encoding of the normalized force, forwarded untouched.
#[derive(Clone, Copy, Debug, PartialEq, Eq)]
pub struct TouchPoint {
    pub id: FingerId,
    pub position: PointerPosition,
    pub force: u64,
}

/// A native touch notification: one action applied to an ordered sequence
/// of touch contacts.
#[derive(Clone, Debug, PartialEq, Eq)]
pub struct TouchEventRecord {
    pub device_id: i64,
    pub action: TouchAction,
    pub points: Vec<TouchPoint>,
}

/// Action kind of a native key notification.  Values other than `Down`
/// and `Up` exist on the native side; they are carried as `Other` and
/// fold to a released state.
#[derive(Clone, Copy, Debug, PartialEq, Eq, Structural)]
pub enum KeyAction {
    Down,
    Up,
    Other,
}

/// A native key notification.
#[derive(Clone, Copy, Debug, PartialEq, Eq)]
pub struct KeyEventRecord {
    pub device_id: i64,
    pub code: u32,
    pub action: KeyAction,
}

/// A native input notification.  Variants the normalizer does not handle
/// (for instance input-method traffic) are carried as `Unknown` and
/// produce no portable event.
#[derive(Clone, Debug, PartialEq, Eq)]
pub enum InputEvent {
    Touch(TouchEventRecord),
    Key(KeyEventRecord),
    Unknown,
}

/// The surface view a configuration-change notification carries when a
/// native surface exists: its size and the opaque encoding of the new
/// scale factor.
#[derive(Clone, Copy, Debug, PartialEq, Eq)]
pub struct SurfaceView {
    pub size: PhysicalSize,
    pub scale_factor: u64,
}

/// A native notification, as a plain-value record.  The embedding layer
/// queries the runtime at delivery time (the current
/// surface size on a resize, the surface view on a configuration change)
/// and attaches what it found, so the driver is a pure function of this
/// record.
#[derive(Clone, Debug, PartialEq, Eq)]
pub enum NativeEvent {
    SurfaceCreate,
    SurfaceDestroy,
    /// `size` is the current native surface size, `None` when no surface
    /// was available at delivery time.
    WindowResize { size: Option<PhysicalSize> },
    WindowRedraw,
    ContentRectChange,
    GainedFocus,
    LostFocus,
    /// `surface` is `None` when no native surface existed at delivery
    /// time; no portable event is emitted then.
    ConfigChanged { surface: Option<SurfaceView> },
    LowMemory,
    Start,
    Resume,
    SaveState,
    Pause,
    Stop,
    Destroy,
    Input(InputEvent),
    Unknown,
}

/// One step the driver asks the embedding layer to take against the
/// application callbacks, in order.
#[derive(Clone, Copy, Debug, PartialEq)]
pub enum DispatchAction {
    CanCreateSurfaces,
    DestroySurfaces,
    /// Deliver a window event to the one window.
    Emit(WindowEvent),
    MemoryWarning,
    Resumed,
    Suspended,
}

} // verus!
