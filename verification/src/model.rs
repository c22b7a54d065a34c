use vstd::prelude::*;
use crate::ewmh::Net;
use crate::geometry::{
    drag_overflows, drag_result, place_changes, raise_changes, resize_changes, border_changes,
    spec_from_configure_request, MouseMoveStart, WindowGeometry,
};
use crate::ipc::IPC;
use crate::requests::{reply_error, Event, Output, Reply, Request, WmError};
use crate::tags::{has_tag, tags_only, TagSet};

verus! {

/// A visible, top-level window, reparented into a frame of ours.
#[derive(Clone, Copy, Debug, PartialEq, Eq)]
pub struct Client {
    pub window: u32,
    pub frame: u32,
    pub fullscreen: bool,
    /// Where the frame was and how large the window was before it went
    /// fullscreen.
    pub before_geom: Option<WindowGeometry>,
    pub tags: TagSet,
}

/// The window manager's settings.
#[derive(Clone, Copy, Debug, PartialEq, Eq)]
pub struct Config {
    pub border_width: u32,
    pub border_pixel: u32,
    pub background_pixel: u32,
}

/// What follows once the queued requests of an event have all gone through.
#[derive(Clone, Copy, Debug, PartialEq, Eq)]
pub enum Then {
    /// The event is handled.
    Finish,
    /// Read the geometry of a window that is about to be framed.
    QueryMapGeometry { window: u32 },
    /// Record the framed window as a client, focus and raise it.
    Manage { window: u32, frame: u32 },
    /// Read the geometry of the clicked frame.
    QueryPressGeometry { index: usize, child: u32, root_x: i16, root_y: i16, detail: u8 },
    /// Drop the client at `index`.
    ForgetClient { index: usize },
    /// Forget the saved geometry of the client at `index`.
    ClearSavedGeometry { index: usize },
}

/// The event being handled, as far as it has come.
#[verifier::ext_equal]
pub enum TaskState {
    Idle,
    /// Requests sent one by one in order (`queue[next - 1]` is in flight).
    Batch { queue: Seq<Request>, next: usize, then: Then },
    AwaitWindowType { window: u32 },
    AwaitMapGeometry { window: u32 },
    AwaitFrameId { window: u32, geom: WindowGeometry },
    AwaitPressGeometry { index: usize, child: u32, root_x: i16, root_y: i16, detail: u8 },
    AwaitFocus { child: u32, root_x: i16, root_y: i16 },
    AwaitScreenSize { index: usize },
    AwaitWindowGeometry { index: usize, screen_width: u32, screen_height: u32 },
    AwaitFrameGeometry {
        index: usize,
        screen_width: u32,
        screen_height: u32,
        window_geom: WindowGeometry,
    },
}

/// The abstract state of the window manager.
#[verifier::ext_equal]
pub struct WmState {
    pub root: u32,
    pub button_press_geometry: Option<WindowGeometry>,
    pub mouse_move_start: Option<MouseMoveStart>,
    pub clients: Seq<Client>,
    pub net_atoms: [u32; 8],
    pub ipc_atoms: [u32; 6],
    pub config: Config,
    pub tags: TagSet,
    pub focused: Option<usize>,
    pub task: TaskState,
}

/// The settings the window manager starts with.
pub open spec fn initial_config() -> Config {
    Config { border_width: 0, border_pixel: 0x547A97, background_pixel: 0xCA37A0 }
}

/// The atom of an EWMH name.
pub open spec fn net(s: WmState, n: Net) -> u32 {
    s.net_atoms@[n.spec_index()]
}

// ----- looking up clients -----

/// Whether `c` is the client looked for: by its frame or by its window.
pub open spec fn key_matches(c: Client, by_frame: bool, id: u32) -> bool {
    if by_frame {
        c.frame == id
    } else {
        c.window == id
    }
}

/// The first index from `i` on whose client matches.
pub open spec fn find_from(clients: Seq<Client>, by_frame: bool, id: u32, i: int) -> Option<int>
    decreases clients.len() - i,
{
    if i < 0 || i >= clients.len() {
        None
    } else if key_matches(clients[i], by_frame, id) {
        Some(i)
    } else {
        find_from(clients, by_frame, id, i + 1)
    }
}

/// The first client whose window is `w`.
pub open spec fn find_window(clients: Seq<Client>, w: u32) -> Option<int> {
    find_from(clients, false, w, 0)
}

/// The first client whose frame is `f`.
pub open spec fn find_frame(clients: Seq<Client>, f: u32) -> Option<int> {
    find_from(clients, true, f, 0)
}

/// Whether some client holds window `w`.
pub open spec fn managed(clients: Seq<Client>, w: u32) -> bool {
    exists|i: int| 0 <= i < clients.len() && #[trigger] clients[i].window == w
}

/// No window is held by two clients.
pub open spec fn windows_unique(clients: Seq<Client>) -> bool {
    forall|i: int, j: int|
        0 <= i < clients.len() && 0 <= j < clients.len() && i != j ==> #[trigger] clients[i].window
            != #[trigger] clients[j].window
}

// ----- well-formedness -----

pub open spec fn then_wf(s: WmState, then: Then) -> bool {
    match then {
        Then::QueryMapGeometry { window } => !managed(s.clients, window),
        Then::Manage { window, frame } => !managed(s.clients, window),
        Then::ForgetClient { index } => index < s.clients.len(),
        Then::ClearSavedGeometry { index } => index < s.clients.len(),
        _ => true,
    }
}

pub open spec fn task_wf(s: WmState) -> bool {
    match s.task {
        TaskState::Idle => true,
        TaskState::Batch { queue, next, then } => 1 <= next <= queue.len() && then_wf(s, then),
        TaskState::AwaitWindowType { window } => !managed(s.clients, window),
        TaskState::AwaitMapGeometry { window } => !managed(s.clients, window),
        TaskState::AwaitFrameId { window, geom } => !managed(s.clients, window),
        TaskState::AwaitScreenSize { index } => index < s.clients.len(),
        TaskState::AwaitWindowGeometry { index, .. } => index < s.clients.len(),
        TaskState::AwaitFrameGeometry { index, .. } => index < s.clients.len(),
        _ => true,
    }
}

/// The invariant every state the window manager goes through keeps.
pub open spec fn wm_wf(s: WmState) -> bool {
    &&& windows_unique(s.clients)
    &&& task_wf(s)
}

// ----- building blocks of the transitions -----

/// End the handling of the event with `r`.
pub open spec fn finish(s: WmState, r: Result<(), WmError>) -> (WmState, Output) {
    (WmState { task: TaskState::Idle, ..s }, Output::Finished(r))
}

/// Send `req` and wait in `task` for its reply.
pub open spec fn send(s: WmState, task: TaskState, req: Request) -> (WmState, Output) {
    (WmState { task, ..s }, Output::Send(req))
}

/// The client that gets framed as `frame` with the tags that are shown now.
pub open spec fn new_client(s: WmState, window: u32, frame: u32) -> Client {
    Client { window, frame, fullscreen: false, before_geom: None, tags: s.tags }
}

/// Focus the new client's window and raise its frame.
pub open spec fn manage_requests(window: u32, frame: u32) -> Seq<Request> {
    seq![
        Request::SetInputFocus { window },
        Request::Configure { window: frame, changes: raise_changes(), checked: false },
    ]
}

pub open spec fn run_then(s: WmState, then: Then) -> (WmState, Output) {
    match then {
        Then::Finish => finish(s, Ok(())),
        Then::QueryMapGeometry { window } => send(
            s,
            TaskState::AwaitMapGeometry { window },
            Request::GetGeometry { window },
        ),
        Then::Manage { window, frame } => {
            let s2 = WmState {
                clients: s.clients.push(new_client(s, window, frame)),
                focused: Some(s.clients.len() as usize),
                ..s
            };
            let q = manage_requests(window, frame);
            send(s2, TaskState::Batch { queue: q, next: 1, then: Then::Finish }, q[0])
        },
        Then::QueryPressGeometry { index, child, root_x, root_y, detail } => send(
            s,
            TaskState::AwaitPressGeometry { index, child, root_x, root_y, detail },
            Request::GetGeometry { window: child },
        ),
        Then::ForgetClient { index } => finish(
            WmState { clients: s.clients.remove(index as int), ..s },
            Ok(()),
        ),
        Then::ClearSavedGeometry { index } => finish(
            WmState {
                clients: s.clients.update(
                    index as int,
                    Client { before_geom: None, ..s.clients[index as int] },
                ),
                ..s
            },
            Ok(()),
        ),
    }
}

/// Send the queued requests one by one, then go on with `then`.
pub open spec fn start_batch(s: WmState, queue: Seq<Request>, then: Then) -> (WmState, Output) {
    if queue.len() == 0 {
        run_then(s, then)
    } else {
        send(s, TaskState::Batch { queue, next: 1, then }, queue[0])
    }
}

// ----- tags -----

/// For one client, from tag `j` on: unmap its frame for every tag that is not
/// both shown and held by the client, up to the first one that is, where the
/// frame is mapped instead and the walk stops.
pub open spec fn frame_requests_from(c: Client, view: TagSet, j: int) -> Seq<Request>
    decreases 9 - j,
{
    if j >= 9 || j < 0 {
        Seq::empty()
    } else if has_tag(view, j) && has_tag(c.tags, j) {
        seq![Request::MapWindow { window: c.frame }]
    } else {
        seq![Request::UnmapWindow { window: c.frame }] + frame_requests_from(c, view, j + 1)
    }
}

/// The map and unmap requests that bring every frame in line with the tags shown.
pub open spec fn tag_requests(clients: Seq<Client>, view: TagSet) -> Seq<Request>
    decreases clients.len(),
{
    if clients.len() == 0 {
        Seq::empty()
    } else {
        tag_requests(clients.drop_last(), view) + frame_requests_from(clients.last(), view, 0)
    }
}

pub open spec fn border_pixel_requests(clients: Seq<Client>, pixel: u32) -> Seq<Request> {
    Seq::new(clients.len(), |i: int| Request::SetBorderPixel { window: clients[i].frame, pixel })
}

pub open spec fn border_width_requests(clients: Seq<Client>, width: u32) -> Seq<Request> {
    Seq::new(
        clients.len(),
        |i: int|
            Request::Configure {
                window: clients[i].frame,
                changes: border_changes(width),
                checked: true,
            },
    )
}

pub open spec fn background_pixel_requests(clients: Seq<Client>, pixel: u32) -> Seq<Request> {
    Seq::new(
        clients.len(),
        |i: int| Request::SetBackgroundPixel { window: clients[i].frame, pixel },
    )
}

// ----- events -----

pub open spec fn on_map_request(s: WmState, window: u32) -> (WmState, Output) {
    match find_window(s.clients, window) {
        // already a client: only map it again
        Some(i) => start_batch(s, seq![Request::MapWindow { window }], Then::Finish),
        None => send(
            s,
            TaskState::AwaitWindowType { window },
            Request::GetWindowType { window, property: net(s, Net::WMWindowType) },
        ),
    }
}

pub open spec fn on_button_press(s: WmState, child: u32, root_x: i16, root_y: i16, detail: u8) -> (
    WmState,
    Output,
) {
    match find_frame(s.clients, child) {
        None => finish(s, Err(WmError::PressOnNonClient)),
        Some(i) => start_batch(
            s,
            seq![
                Request::SetInputFocus { window: s.clients[i].window },
                Request::Configure {
                    window: s.clients[i].frame,
                    changes: raise_changes(),
                    checked: false,
                },
            ],
            Then::QueryPressGeometry { index: i as usize, child, root_x, root_y, detail },
        ),
    }
}

/// The move or resize of the frame under the pointer during a drag.
pub open spec fn motion_drag(s: WmState, child: u32, root_x: i16, root_y: i16) -> (WmState, Output) {
    match find_frame(s.clients, child) {
        None => finish(s, Err(WmError::MotionOnNonClient)),
        Some(i) => {
            let c = s.clients[i];
            if c.fullscreen {
                finish(s, Err(WmError::MotionOnFullscreen))
            } else {
                match s.mouse_move_start {
                    None => finish(s, Err(WmError::NoMoveStart)),
                    Some(m) => match s.button_press_geometry {
                        None => finish(s, Err(WmError::NoPressGeometry)),
                        Some(g) => {
                            let r = drag_result(m, g, root_x, root_y);
                            start_batch(
                                s,
                                seq![
                                    Request::Configure {
                                        window: c.frame,
                                        changes: place_changes(
                                            r.0 as i32,
                                            r.1 as i32,
                                            r.2 as u32,
                                            r.3 as u32,
                                            None,
                                        ),
                                        checked: false,
                                    },
                                    Request::Configure {
                                        window: c.window,
                                        changes: place_changes(0, 0, r.2 as u32, r.3 as u32, None),
                                        checked: false,
                                    },
                                    Request::SendConfigureNotify {
                                        window: c.window,
                                        x: r.0 as i16,
                                        y: r.1 as i16,
                                        width: r.2 as u16,
                                        height: r.3 as u16,
                                    },
                                ],
                                Then::Finish,
                            )
                        },
                    },
                }
            }
        },
    }
}

/// Whether a drag over `child` would overflow.
pub open spec fn drag_panics(s: WmState, child: u32, root_x: i16, root_y: i16) -> bool {
    match find_frame(s.clients, child) {
        None => false,
        Some(i) => {
            &&& !s.clients[i].fullscreen
            &&& s.mouse_move_start is Some
            &&& s.button_press_geometry is Some
            &&& drag_overflows(
                s.mouse_move_start->0,
                s.button_press_geometry->0,
                root_x,
                root_y,
            )
        },
    }
}

/// Motion: when a drag is going on and the pointer is over another window than
/// before, remember it and focus it first; then move or resize the frame.
pub open spec fn on_motion_notify(s: WmState, child: u32, root_x: i16, root_y: i16) -> (
    WmState,
    Output,
) {
    match s.mouse_move_start {
        Some(m) => if m.active_win != child {
            send(
                WmState { mouse_move_start: Some(MouseMoveStart { active_win: child, ..m }), ..s },
                TaskState::AwaitFocus { child, root_x, root_y },
                Request::SetInputFocus { window: child },
            )
        } else {
            motion_drag(s, child, root_x, root_y)
        },
        None => motion_drag(s, child, root_x, root_y),
    }
}

/// The client's frame and window, placed and sized as given.
pub open spec fn fullscreen_requests(s: WmState, c: Client, width: u32, height: u32) -> Seq<Request> {
    seq![
        Request::Configure {
            window: c.frame,
            changes: place_changes(0, 0, width, height, Some(0)),
            checked: false,
        },
        Request::Configure {
            window: c.window,
            changes: place_changes(0, 0, width, height, Some(0)),
            checked: false,
        },
        Request::SetWmState {
            window: c.window,
            property: net(s, Net::WMState),
            state: Some(net(s, Net::WMStateFullScreen)),
        },
    ]
}

/// Put the frame back where it was and the window back to its size.
pub open spec fn restore_requests(s: WmState, c: Client, g: WindowGeometry) -> Seq<Request> {
    seq![
        Request::Configure {
            window: c.frame,
            changes: place_changes(
                g.x as i32,
                g.y as i32,
                g.width as u32,
                g.height as u32,
                Some(s.config.border_width),
            ),
            checked: false,
        },
        Request::Configure {
            window: c.window,
            changes: place_changes(0, 0, g.width as u32, g.height as u32, Some(0)),
            checked: false,
        },
        Request::SetWmState { window: c.window, property: net(s, Net::WMState), state: None },
    ]
}

/// `_NET_WM_STATE` message about fullscreen for the client at `i`.
pub open spec fn on_fullscreen_message(s: WmState, i: int, data: [u32; 5]) -> (WmState, Output) {
    let c = s.clients[i];
    if data@[0] == 1 && !c.fullscreen {
        send(
            WmState { clients: s.clients.update(i, Client { fullscreen: true, ..c }), ..s },
            TaskState::AwaitScreenSize { index: i as usize },
            Request::GetScreenSize { window: c.window },
        )
    } else {
        let s2 = WmState { clients: s.clients.update(i, Client { fullscreen: false, ..c }), ..s };
        match c.before_geom {
            None => finish(s2, Err(WmError::NoSavedGeometry)),
            Some(g) => start_batch(
                s2,
                restore_requests(s, c, g),
                Then::ClearSavedGeometry { index: i as usize },
            ),
        }
    }
}

/// A command sent to the window manager.
pub open spec fn on_command(s: WmState, data: [u32; 5]) -> (WmState, Output) {
    let cmd = data@[0];
    if cmd == IPC::KillActiveClient.spec_code() {
        match s.focused {
            None => finish(s, Err(WmError::NoFocusedWindow)),
            Some(f) => start_batch(
                s,
                seq![Request::KillClient { window: s.clients[f as int].window }],
                Then::Finish,
            ),
        }
    } else if cmd == IPC::SwitchTag.spec_code() {
        let s2 = WmState { tags: tags_only(data@[1] - 1), ..s };
        start_batch(s2, tag_requests(s2.clients, s2.tags), Then::Finish)
    } else if cmd == IPC::BorderPixel.spec_code() {
        let s2 = WmState { config: Config { border_pixel: data@[1], ..s.config }, ..s };
        start_batch(s2, border_pixel_requests(s.clients, data@[1]), Then::Finish)
    } else if cmd == IPC::BorderWidth.spec_code() {
        let s2 = WmState { config: Config { border_width: data@[1], ..s.config }, ..s };
        start_batch(s2, border_width_requests(s.clients, data@[1]), Then::Finish)
    } else if cmd == IPC::BackgroundPixel.spec_code() {
        let s2 = WmState { config: Config { background_pixel: data@[1], ..s.config }, ..s };
        start_batch(s2, background_pixel_requests(s.clients, data@[1]), Then::Finish)
    } else {
        finish(s, Ok(()))
    }
}

pub open spec fn on_client_message(s: WmState, window: u32, type_: u32, format: u8, data: [u32; 5]) -> (
    WmState,
    Output,
) {
    if type_ == net(s, Net::WMState) {
        if format != 32 {
            finish(s, Err(WmError::BadMessageFormat))
        } else {
            match find_window(s.clients, window) {
                None => finish(s, Err(WmError::MessageOnNonClient)),
                Some(i) => {
                    let fs = net(s, Net::WMStateFullScreen);
                    if data@[1] == fs || data@[2] == fs {
                        on_fullscreen_message(s, i, data)
                    } else {
                        finish(s, Ok(()))
                    }
                },
            }
        }
    } else if type_ == s.ipc_atoms@[IPC::ClientMessage.spec_code() as int] {
        on_command(s, data)
    } else {
        finish(s, Ok(()))
    }
}

/// What the window manager does on an event, when it is idle.
pub open spec fn on_event(s: WmState, ev: Event) -> (WmState, Output) {
    match ev {
        Event::MapRequest { window } => on_map_request(s, window),
        Event::ButtonPress { child, root_x, root_y, detail } => on_button_press(
            s,
            child,
            root_x,
            root_y,
            detail,
        ),
        Event::MotionNotify { child, root_x, root_y } => on_motion_notify(s, child, root_x, root_y),
        Event::ConfigureRequest { window, value_mask, x, y, width, height, border_width } =>
            start_batch(
            s,
            seq![
                Request::Configure {
                    window,
                    changes: spec_from_configure_request(
                        value_mask,
                        x,
                        y,
                        width,
                        height,
                        border_width,
                    ),
                    checked: true,
                },
            ],
            Then::Finish,
        ),
        Event::UnmapNotify { window } => match find_window(s.clients, window) {
            None => finish(s, Err(WmError::UnmapOnNonClient)),
            Some(i) => start_batch(
                s,
                seq![Request::UnmapWindow { window: s.clients[i].frame }],
                Then::ForgetClient { index: i as usize },
            ),
        },
        Event::DestroyNotify { window } => match find_window(s.clients, window) {
            None => finish(s, Err(WmError::DestroyOnNonClient)),
            Some(i) => start_batch(
                s,
                seq![Request::DestroyWindow { window: s.clients[i].frame }],
                Then::ForgetClient { index: i as usize },
            ),
        },
        Event::ClientMessage { window, type_, format, data } => on_client_message(
            s,
            window,
            type_,
            format,
            data,
        ),
        Event::ConfigureNotify { window, width, height } => match find_window(s.clients, window) {
            None => finish(s, Err(WmError::ConfigureOnNonClient)),
            Some(i) => start_batch(
                s,
                seq![
                    Request::Configure {
                        window: s.clients[i].frame,
                        changes: resize_changes(width as u32, height as u32),
                        checked: true,
                    },
                ],
                Then::Finish,
            ),
        },
        Event::Other => finish(s, Ok(())),
    }
}

/// Whether handling the event aborts the program: a drag whose arithmetic
/// overflows, killing a focused client that is no longer in the list, or
/// switching to a tag outside 1..=9.
pub open spec fn event_panics(s: WmState, ev: Event) -> bool {
    match ev {
        Event::MotionNotify { child, root_x, root_y } => match s.mouse_move_start {
            Some(m) => m.active_win == child && drag_panics(s, child, root_x, root_y),
            None => drag_panics(s, child, root_x, root_y),
        },
        Event::ClientMessage { window, type_, format, data } => {
            &&& type_ != net(s, Net::WMState)
            &&& type_ == s.ipc_atoms@[IPC::ClientMessage.spec_code() as int]
            &&& {
                ||| data@[0] == IPC::KillActiveClient.spec_code() && s.focused is Some
                    && s.focused->0 >= s.clients.len()
                ||| data@[0] == IPC::SwitchTag.spec_code() && !(1 <= data@[1] <= 9)
            }
        },
        _ => false,
    }
}

// ----- replies -----

/// Whether the property value names a dock window (compared byte by byte
/// with the low byte of the dock atom).
pub open spec fn is_dock(value: Seq<u8>, dock: u32) -> bool {
    exists|i: int| 0 <= i < value.len() && value[i] == dock as u8
}

/// The requests that frame `window` in `frame` and show both.
pub open spec fn frame_requests(s: WmState, window: u32, frame: u32, geom: WindowGeometry) -> Seq<Request> {
    seq![
        Request::CreateFrame {
            frame,
            parent: s.root,
            geometry: geom,
            background_pixel: s.config.background_pixel,
            border_pixel: s.config.border_pixel,
        },
        Request::GrabServer,
        Request::AddToSaveSet { window },
        Request::Reparent { window, parent: frame },
        Request::MapWindow { window },
        Request::MapWindow { window: frame },
        Request::UngrabServer,
    ]
}

/// What the window manager does with the reply to the request it sent last
/// (the request in flight is settled by it: `s0` is the state without it).
pub open spec fn on_reply(s: WmState, r: Reply) -> (WmState, Output) {
    let s0 = WmState { task: TaskState::Idle, ..s };
    match s.task {
        TaskState::Idle => finish(s0, Err(WmError::UnexpectedReply)),
        TaskState::Batch { queue, next, then } => match r {
            Reply::Done => if next < queue.len() {
                send(
                    s0,
                    TaskState::Batch { queue, next: (next + 1) as usize, then },
                    queue[next as int],
                )
            } else {
                run_then(s0, then)
            },
            _ => finish(s0, Err(reply_error(r))),
        },
        TaskState::AwaitWindowType { window } => match r {
            Reply::Property(value) => if is_dock(value@, net(s0, Net::WMWindowTypeDock)) {
                start_batch(s0, seq![Request::MapWindow { window }], Then::Finish)
            } else {
                start_batch(
                    s0,
                    seq![
                        Request::SetFrameExtents {
                            window,
                            property: net(s0, Net::FrameExtents),
                            width: s0.config.border_width,
                        },
                    ],
                    Then::QueryMapGeometry { window },
                )
            },
            _ => finish(s0, Err(reply_error(r))),
        },
        TaskState::AwaitMapGeometry { window } => match r {
            Reply::Geometry(geom) => send(
                s0,
                TaskState::AwaitFrameId { window, geom },
                Request::GenerateId,
            ),
            _ => finish(s0, Err(reply_error(r))),
        },
        TaskState::AwaitFrameId { window, geom } => match r {
            Reply::Id(frame) => start_batch(
                s0,
                frame_requests(s0, window, frame, geom),
                Then::Manage { window, frame },
            ),
            _ => finish(s0, Err(reply_error(r))),
        },
        TaskState::AwaitPressGeometry { index, child, root_x, root_y, detail } => match r {
            Reply::Geometry(g) => finish(
                WmState {
                    button_press_geometry: Some(g),
                    mouse_move_start: Some(
                        MouseMoveStart { root_x, root_y, child, detail, active_win: child },
                    ),
                    focused: Some(index),
                    ..s0
                },
                Ok(()),
            ),
            // the geometry could not be read: only the focus changes
            Reply::RequestError => finish(WmState { focused: Some(index), ..s0 }, Ok(())),
            _ => finish(s0, Err(reply_error(r))),
        },
        TaskState::AwaitFocus { child, root_x, root_y } => match r {
            Reply::Done => match find_frame(s0.clients, child) {
                Some(i) => motion_drag(
                    WmState { focused: Some(i as usize), ..s0 },
                    child,
                    root_x,
                    root_y,
                ),
                None => motion_drag(s0, child, root_x, root_y),
            },
            // the focus request could not be sent: go on with the drag
            _ => motion_drag(s0, child, root_x, root_y),
        },
        TaskState::AwaitScreenSize { index } => match r {
            Reply::ScreenSize { width, height } => send(
                s0,
                TaskState::AwaitWindowGeometry {
                    index,
                    screen_width: width,
                    screen_height: height,
                },
                Request::GetGeometry { window: s0.clients[index as int].window },
            ),
            _ => finish(s0, Err(reply_error(r))),
        },
        TaskState::AwaitWindowGeometry { index, screen_width, screen_height } => match r {
            Reply::Geometry(g) => send(
                s0,
                TaskState::AwaitFrameGeometry { index, screen_width, screen_height, window_geom: g },
                Request::GetGeometry { window: s0.clients[index as int].frame },
            ),
            _ => finish(s0, Err(reply_error(r))),
        },
        TaskState::AwaitFrameGeometry { index, screen_width, screen_height, window_geom } => match r {
            Reply::Geometry(fg) => {
                let c = s0.clients[index as int];
                let saved = WindowGeometry {
                    x: fg.x,
                    y: fg.y,
                    width: window_geom.width,
                    height: window_geom.height,
                };
                start_batch(
                    WmState {
                        clients: s0.clients.update(
                            index as int,
                            Client { before_geom: Some(saved), ..c },
                        ),
                        ..s0
                    },
                    fullscreen_requests(s0, c, screen_width, screen_height),
                    Then::Finish,
                )
            },
            _ => finish(s0, Err(reply_error(r))),
        },
    }
}

/// Whether the reply aborts the program: the focus request of a drag failed
/// on the server, or the drag that follows it overflows.
pub open spec fn reply_panics(s: WmState, r: Reply) -> bool {
    match s.task {
        TaskState::AwaitFocus { child, root_x, root_y } => match r {
            Reply::Done => drag_panics(s, child, root_x, root_y),
            Reply::ConnectionError => drag_panics(s, child, root_x, root_y),
            _ => true,
        },
        _ => false,
    }
}

// ----- facts about the transitions' building blocks -----

/// `find_from` finds the first matching client at or after `i`, if any.
pub proof fn lemma_find_from(clients: Seq<Client>, by_frame: bool, id: u32, i: int)
    requires
        0 <= i,
    ensures
        match find_from(clients, by_frame, id, i) {
            Some(k) => {
                &&& i <= k < clients.len()
                &&& key_matches(clients[k], by_frame, id)
                &&& forall|m: int| i <= m < k ==> !key_matches(#[trigger] clients[m], by_frame, id)
            },
            None => forall|m: int|
                i <= m < clients.len() ==> !key_matches(#[trigger] clients[m], by_frame, id),
        },
    decreases clients.len() - i,
{
    if i < clients.len() && !key_matches(clients[i], by_frame, id) {
        lemma_find_from(clients, by_frame, id, i + 1);
    }
}

/// Looking a window up finds it exactly when some client holds it.
pub proof fn lemma_find_window(clients: Seq<Client>, w: u32)
    ensures
        find_window(clients, w) is Some <==> managed(clients, w),
        find_window(clients, w) matches Some(k) ==> 0 <= k < clients.len() && clients[k].window == w,
{
    lemma_find_from(clients, false, w, 0);
    if managed(clients, w) {
        let k = choose|k: int| 0 <= k < clients.len() && #[trigger] clients[k].window == w;
        assert(key_matches(clients[k], false, w));
    }
}

/// Looking a frame up finds a client that has it.
pub proof fn lemma_find_frame(clients: Seq<Client>, f: u32)
    ensures
        find_frame(clients, f) matches Some(k) ==> 0 <= k < clients.len() && clients[k].frame == f,
        find_frame(clients, f) is None ==> forall|k: int|
            0 <= k < clients.len() ==> #[trigger] clients[k].frame != f,
{
    lemma_find_from(clients, true, f, 0);
    if find_frame(clients, f) is None {
        assert forall|k: int| 0 <= k < clients.len() implies #[trigger] clients[k].frame != f by {
            assert(!key_matches(clients[k], true, f));
        }
    }
}

/// Adding a client for a window no client holds keeps windows unique.
pub proof fn lemma_unique_push(clients: Seq<Client>, c: Client)
    requires
        windows_unique(clients),
        !managed(clients, c.window),
    ensures
        windows_unique(clients.push(c)),
{
    let p = clients.push(c);
    assert forall|i: int, j: int|
        0 <= i < p.len() && 0 <= j < p.len() && i != j implies #[trigger] p[i].window
        != #[trigger] p[j].window by {
        if i == clients.len() {
            assert(clients[j].window == p[j].window);
        } else if j == clients.len() {
            assert(clients[i].window == p[i].window);
        }
    }
}

/// Dropping a client keeps windows unique.
pub proof fn lemma_unique_remove(clients: Seq<Client>, k: int)
    requires
        windows_unique(clients),
        0 <= k < clients.len(),
    ensures
        windows_unique(clients.remove(k)),
{
    let r = clients.remove(k);
    assert forall|i: int, j: int|
        0 <= i < r.len() && 0 <= j < r.len() && i != j implies #[trigger] r[i].window
        != #[trigger] r[j].window by {
        let i2 = if i < k { i } else { i + 1 };
        let j2 = if j < k { j } else { j + 1 };
        assert(r[i] == clients[i2]);
        assert(r[j] == clients[j2]);
    }
}

/// Changing a client but not its window keeps windows unique.
pub proof fn lemma_unique_update(clients: Seq<Client>, k: int, c: Client)
    requires
        windows_unique(clients),
        0 <= k < clients.len(),
        c.window == clients[k].window,
    ensures
        windows_unique(clients.update(k, c)),
        forall|w: u32| managed(clients.update(k, c), w) == managed(clients, w),
{
    let u = clients.update(k, c);
    assert forall|i: int, j: int|
        0 <= i < u.len() && 0 <= j < u.len() && i != j implies #[trigger] u[i].window
        != #[trigger] u[j].window by {
        assert(u[i].window == clients[i].window);
        assert(u[j].window == clients[j].window);
    }
    assert forall|w: u32| managed(u, w) == managed(clients, w) by {
        if managed(u, w) {
            let i = choose|i: int| 0 <= i < u.len() && #[trigger] u[i].window == w;
            assert(clients[i].window == w);
        }
        if managed(clients, w) {
            let i = choose|i: int| 0 <= i < clients.len() && #[trigger] clients[i].window == w;
            assert(u[i].window == w);
        }
    }
}

} // verus!
