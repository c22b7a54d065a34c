use vstd::prelude::*;
use crate::geometry::{WindowChanges, WindowGeometry};

verus! {

/// The X event masks and values the requests are made with.
/// ButtonPress | ButtonRelease | PointerMotion: what a grabbed button reports.
pub const GRAB_EVENT_MASK: u32 = 0x4c;
/// The Mod4 modifier, held with a grabbed button.
pub const GRAB_MODIFIERS: u16 = 0x40;
/// SubstructureRedirect | SubstructureNotify: what the root window reports.
pub const ROOT_EVENT_MASK: u32 = 0x18_0000;
/// Exposure | SubstructureRedirect | SubstructureNotify | ButtonPress |
/// ButtonRelease | PointerMotion | EnterWindow: what a frame reports.
pub const FRAME_EVENT_MASK: u32 = 0x18_805c;
/// The border width a frame is created with.
pub const FRAME_BORDER_WIDTH: u16 = 3;
/// StructureNotify: the mask a synthetic ConfigureNotify is sent with.
pub const CONFIGURE_NOTIFY_MASK: u32 = 0x2_0000;
/// How many 32-bit words of `_NET_WM_WINDOW_TYPE` are read.
pub const WINDOW_TYPE_LENGTH: u32 = 1024;

/// A mouse button the window manager grabs on the root window (with Mod4).
#[derive(Clone, Copy, Debug, PartialEq, Eq)]
pub enum Button {
    /// Button 1: drag to move.
    Left,
    /// Button 3: drag to resize.
    Right,
}

/// A list of atoms to intern, all at once, in its fixed order.
#[derive(Clone, Copy, Debug, PartialEq, Eq)]
pub enum AtomSet {
    /// The EWMH atoms of `crate::ewmh::Net`, in `Net` order.
    Net,
    /// The IPC atoms of `crate::ipc::IPC`, in `IPC` order (without `Last`).
    Ipc,
}

/// What the window manager asks of the X server (or, for `WarnGrabFailed`,
/// of its own error output). Unless a variant says otherwise, the request is
/// checked: the reply is `Done` only once the server has accepted it.
#[derive(Clone, Copy, Debug, PartialEq, Eq)]
pub enum Request {
    /// Grab the button with `GRAB_MODIFIERS` on the root window, reporting
    /// `GRAB_EVENT_MASK` (asynchronous pointer and keyboard, no cursor).
    GrabButton { root: u32, button: Button },
    /// Print a warning that the button could not be grabbed; answer `Done`.
    WarnGrabFailed { button: Button },
    /// Select `ROOT_EVENT_MASK` on the root window.
    SelectRootEvents { root: u32 },
    /// Allocate a new resource id; answered by `Id`.
    GenerateId,
    /// Give `window` the cursor with the given glyphs of the cursor font,
    /// drawn in `black_pixel` (requests sent unchecked; answered `Done`).
    SetCursor { window: u32, black_pixel: u32, source_char: u16, mask_char: u16 },
    /// Intern the atoms of the set; answered by `Atoms`, in the set's order.
    InternAtoms { set: AtomSet },
    /// `_NET_SUPPORTING_WM_CHECK` (type WINDOW) on the root := [root].
    SetSupportingWmCheck { root: u32, property: u32 },
    /// `_NET_WM_NAME` (type WM_NAME, 8-bit) on the root := the window manager's name.
    SetWmName { root: u32, property: u32 },
    /// `_NET_SUPPORTED` (type ATOM) on the root := the interned EWMH atoms.
    SetSupported { root: u32, property: u32, atoms: [u32; 8] },
    MapWindow { window: u32 },
    UnmapWindow { window: u32 },
    DestroyWindow { window: u32 },
    KillClient { window: u32 },
    /// Read `_NET_WM_WINDOW_TYPE` (type ATOM, offset 0, `WINDOW_TYPE_LENGTH`
    /// words); answered by `Property`.
    GetWindowType { window: u32, property: u32 },
    /// `_NET_FRAME_EXTENTS` (type CARDINAL) := [width; 4].
    SetFrameExtents { window: u32, property: u32, width: u32 },
    /// Answered by `Geometry`.
    GetGeometry { window: u32 },
    /// Create the frame window (border `FRAME_BORDER_WIDTH`, InputOutput, the
    /// parent's depth and visual) selecting `FRAME_EVENT_MASK`; sent unchecked.
    CreateFrame { frame: u32, parent: u32, geometry: WindowGeometry, background_pixel: u32, border_pixel: u32 },
    GrabServer,
    UngrabServer,
    /// Insert the window into the save set.
    AddToSaveSet { window: u32 },
    /// Reparent the window into `parent` at (0, 0).
    Reparent { window: u32, parent: u32 },
    /// Give the input focus to the window (revert to parent, current time).
    SetInputFocus { window: u32 },
    /// Configure the window; checked only when `checked` holds.
    Configure { window: u32, changes: WindowChanges, checked: bool },
    /// Send the window a synthetic ConfigureNotify (border 0, no sibling) with
    /// `CONFIGURE_NOTIFY_MASK`.
    SendConfigureNotify { window: u32, x: i16, y: i16, width: u16, height: u16 },
    /// Ask Xinerama for the size of screen 0; answered by `ScreenSize`.
    GetScreenSize { window: u32 },
    /// `_NET_WM_STATE` (type ATOM) := [state] or the empty list.
    SetWmState { window: u32, property: u32, state: Option<u32> },
    SetBorderPixel { window: u32, pixel: u32 },
    SetBackgroundPixel { window: u32, pixel: u32 },
}

/// The outcome of a request, as the X server reports it.
#[derive(Clone, Debug, PartialEq, Eq)]
pub enum Reply {
    /// The request went through.
    Done,
    Id(u32),
    Atoms(Vec<u32>),
    /// The raw bytes of a property's value.
    Property(Vec<u8>),
    Geometry(WindowGeometry),
    ScreenSize { width: u32, height: u32 },
    /// The request could not be sent (or no id could be allocated).
    ConnectionError,
    /// The server refused the request, or its reply could not be read.
    RequestError,
}

/// An X event, reduced to the fields the window manager reads.
#[derive(Clone, Copy, Debug, PartialEq, Eq)]
pub enum Event {
    MapRequest { window: u32 },
    ButtonPress { child: u32, root_x: i16, root_y: i16, detail: u8 },
    MotionNotify { child: u32, root_x: i16, root_y: i16 },
    ConfigureRequest { window: u32, value_mask: u16, x: i16, y: i16, width: u16, height: u16, border_width: u16 },
    UnmapNotify { window: u32 },
    DestroyNotify { window: u32 },
    /// `data` is the message's data read as five 32-bit words.
    ClientMessage { window: u32, type_: u32, format: u8, data: [u32; 5] },
    ConfigureNotify { window: u32, width: u16, height: u16 },
    /// Any event the window manager does not handle.
    Other,
}

/// Why an event was not fully handled.
#[derive(Clone, Copy, Debug, PartialEq, Eq)]
pub enum WmError {
    /// The connection to the X server failed.
    Connection,
    /// The X server refused a request.
    Request,
    /// A reply did not fit the request it answers.
    UnexpectedReply,
    AlreadyRunning,
    PressOnNonClient,
    MotionOnNonClient,
    MotionOnFullscreen,
    NoMoveStart,
    NoPressGeometry,
    UnmapOnNonClient,
    DestroyOnNonClient,
    BadMessageFormat,
    MessageOnNonClient,
    NoSavedGeometry,
    NoFocusedWindow,
    ConfigureOnNonClient,
}

impl WmError {
    pub open spec fn spec_message(self) -> Seq<char> {
        match self {
            WmError::Connection => "connection to the X server failed"@,
            WmError::Request => "the X server refused a request"@,
            WmError::UnexpectedReply => "a reply did not match its request"@,
            WmError::AlreadyRunning => "a window manager is already running on this display (failed to capture SubstructureRedirect|SubstructureNotify on root window)"@,
            WmError::PressOnNonClient => "button_press: press on non client window, ignoring"@,
            WmError::MotionOnNonClient => "motion_notify: motion on non client window, ignoring"@,
            WmError::MotionOnFullscreen => "motion_notify: motion on fullscreen window, ignoring"@,
            WmError::NoMoveStart => "motion_notify: failed to get value of mouse_move_start, ignoring"@,
            WmError::NoPressGeometry => "motion_notify: failed to get value of button_press_geometry, ignoring"@,
            WmError::UnmapOnNonClient => "unmap_notify: unmap on non client window, ignoring"@,
            WmError::DestroyOnNonClient => "destroy_notify: destroy on non client window, ignoring"@,
            WmError::BadMessageFormat => "client_message: ev.format != 32, ignoring"@,
            WmError::MessageOnNonClient => "client_message: unmap on non client window, ignoring"@,
            WmError::NoSavedGeometry => "client_message: unfullscreening, but client has no before_geom field (it has not fullscreened before). ignoring."@,
            WmError::NoFocusedWindow => "client_message: no focused window to kill"@,
            WmError::ConfigureOnNonClient => "configure_notify: configure on non client window, ignoring"@,
        }
    }

    /// The human-readable description of the error.
    pub fn message(&self) -> (r: &'static str)
        ensures
            r@ == self.spec_message(),
    {
        match self {
            WmError::Connection => "connection to the X server failed",
            WmError::Request => "the X server refused a request",
            WmError::UnexpectedReply => "a reply did not match its request",
            WmError::AlreadyRunning => "a window manager is already running on this display (failed to capture SubstructureRedirect|SubstructureNotify on root window)",
            WmError::PressOnNonClient => "button_press: press on non client window, ignoring",
            WmError::MotionOnNonClient => "motion_notify: motion on non client window, ignoring",
            WmError::MotionOnFullscreen => "motion_notify: motion on fullscreen window, ignoring",
            WmError::NoMoveStart => "motion_notify: failed to get value of mouse_move_start, ignoring",
            WmError::NoPressGeometry => "motion_notify: failed to get value of button_press_geometry, ignoring",
            WmError::UnmapOnNonClient => "unmap_notify: unmap on non client window, ignoring",
            WmError::DestroyOnNonClient => "destroy_notify: destroy on non client window, ignoring",
            WmError::BadMessageFormat => "client_message: ev.format != 32, ignoring",
            WmError::MessageOnNonClient => "client_message: unmap on non client window, ignoring",
            WmError::NoSavedGeometry => "client_message: unfullscreening, but client has no before_geom field (it has not fullscreened before). ignoring.",
            WmError::NoFocusedWindow => "client_message: no focused window to kill",
            WmError::ConfigureOnNonClient => "configure_notify: configure on non client window, ignoring",
        }
    }
}

/// What the window manager does after an event or a reply: send one more
/// request and wait for its reply, or finish handling the event.
#[derive(Clone, Copy, Debug, PartialEq, Eq)]
pub enum Output {
    Send(Request),
    Finished(Result<(), WmError>),
}

/// The error a failed reply stands for.
pub open spec fn reply_error(r: Reply) -> WmError {
    match r {
        Reply::ConnectionError => WmError::Connection,
        Reply::RequestError => WmError::Request,
        _ => WmError::UnexpectedReply,
    }
}

/// Computes `reply_error`.
pub fn error_of(r: &Reply) -> (e: WmError)
    ensures
        e == reply_error(*r),
{
    match r {
        Reply::ConnectionError => WmError::Connection,
        Reply::RequestError => WmError::Request,
        _ => WmError::UnexpectedReply,
    }
}

} // verus!
