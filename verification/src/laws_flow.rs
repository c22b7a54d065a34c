use vstd::prelude::*;
use crate::ewmh::Net;
use crate::geometry::{MouseMoveStart, WindowChanges, WindowGeometry};
use crate::model::{
    find_frame, find_window, lemma_find_from, managed, net, on_event, on_reply, wm_wf, Client,
    TaskState, WmState,
};
use crate::requests::{AtomSet, Button, Event, Output, Reply, Request, WmError};
use crate::setup::{startup_step, Stage, StartupState, StartupStep};

verus! {

/// Lookups find the first client with the window (or frame) looked for, and
/// find nothing exactly when no client has it.
pub proof fn law_lookup_finds_first(clients: Seq<Client>, id: u32)
    ensures
        match find_window(clients, id) {
            Some(i) => 0 <= i < clients.len() && clients[i].window == id && forall|k: int|
                0 <= k < i ==> #[trigger] clients[k].window != id,
            None => forall|k: int| 0 <= k < clients.len() ==> #[trigger] clients[k].window != id,
        },
        match find_frame(clients, id) {
            Some(i) => 0 <= i < clients.len() && clients[i].frame == id && forall|k: int|
                0 <= k < i ==> #[trigger] clients[k].frame != id,
            None => forall|k: int| 0 <= k < clients.len() ==> #[trigger] clients[k].frame != id,
        },
{
    lemma_find_from(clients, false, id, 0);
    lemma_find_from(clients, true, id, 0);
}

/// A window that is not yet a client and is not a dock is framed: the
/// requests go, in this order, to read its type, set its frame extents, read its
/// geometry, get an id for the frame, create the frame at that geometry under
/// the root with the configured colours, then (with the server grabbed) save,
/// reparent and map both; then the window is focused and its frame raised.
/// Afterwards it is the last client, with the shown tags, and it has the focus.
pub proof fn law_map_request_frames_new_window(
    s: WmState,
    window: u32,
    value: Vec<u8>,
    geom: WindowGeometry,
    frame: u32,
)
    requires
        wm_wf(s),
        s.task is Idle,
        !managed(s.clients, window),
        s.clients.len() < usize::MAX,
        forall|i: int| 0 <= i < value@.len() ==> value@[i] != net(s, Net::WMWindowTypeDock) as u8,
    ensures
        ({
            let (s1, o1) = on_event(s, Event::MapRequest { window });
            let (s2, o2) = on_reply(s1, Reply::Property(value));
            let (s3, o3) = on_reply(s2, Reply::Done);
            let (s4, o4) = on_reply(s3, Reply::Geometry(geom));
            let (s5, o5) = on_reply(s4, Reply::Id(frame));
            let (s6, o6) = on_reply(s5, Reply::Done);
            let (s7, o7) = on_reply(s6, Reply::Done);
            let (s8, o8) = on_reply(s7, Reply::Done);
            let (s9, o9) = on_reply(s8, Reply::Done);
            let (s10, o10) = on_reply(s9, Reply::Done);
            let (s11, o11) = on_reply(s10, Reply::Done);
            let (s12, o12) = on_reply(s11, Reply::Done);
            let (s13, o13) = on_reply(s12, Reply::Done);
            let (s14, o14) = on_reply(s13, Reply::Done);
            &&& o1 == Output::Send(
                Request::GetWindowType { window, property: net(s, Net::WMWindowType) },
            )
            &&& o2 == Output::Send(
                Request::SetFrameExtents {
                    window,
                    property: net(s, Net::FrameExtents),
                    width: s.config.border_width,
                },
            )
            &&& o3 == Output::Send(Request::GetGeometry { window })
            &&& o4 == Output::Send(Request::GenerateId)
            &&& o5 == Output::Send(
                Request::CreateFrame {
                    frame,
                    parent: s.root,
                    geometry: geom,
                    background_pixel: s.config.background_pixel,
                    border_pixel: s.config.border_pixel,
                },
            )
            &&& o6 == Output::Send(Request::GrabServer)
            &&& o7 == Output::Send(Request::AddToSaveSet { window })
            &&& o8 == Output::Send(Request::Reparent { window, parent: frame })
            &&& o9 == Output::Send(Request::MapWindow { window })
            &&& o10 == Output::Send(Request::MapWindow { window: frame })
            &&& o11 == Output::Send(Request::UngrabServer)
            &&& o12 == Output::Send(Request::SetInputFocus { window })
            &&& o13 == Output::Send(
                Request::Configure {
                    window: frame,
                    changes: WindowChanges {
                        x: None,
                        y: None,
                        width: None,
                        height: None,
                        border_width: None,
                        stack_above: true,
                    },
                    checked: false,
                },
            )
            &&& o14 == Output::Finished(Ok(()))
            &&& s14.clients == s.clients.push(
                Client { window, frame, fullscreen: false, before_geom: None, tags: s.tags },
            )
            &&& s14.focused == Some(s.clients.len() as usize)
            &&& s14.config == s.config
            &&& s14.tags == s.tags
            &&& s14.task is Idle
        }),
{
    crate::model::lemma_find_window(s.clients, window);
}

/// A press on a client's frame focuses the client's window, raises the frame
/// and reads the frame's geometry; that geometry and the press (position,
/// button, frame) start a drag, and the client gets the focus. When the
/// geometry cannot be read, only the focus changes.
pub proof fn law_button_press_starts_drag(
    s: WmState,
    child: u32,
    root_x: i16,
    root_y: i16,
    detail: u8,
    g: WindowGeometry,
)
    requires
        s.task is Idle,
        s.clients.len() <= usize::MAX,
        exists|i: int| 0 <= i < s.clients.len() && #[trigger] s.clients[i].frame == child,
    ensures
        ({
            let i = find_frame(s.clients, child)->0;
            let c = s.clients[i];
            let (s1, o1) = on_event(s, Event::ButtonPress { child, root_x, root_y, detail });
            let (s2, o2) = on_reply(s1, Reply::Done);
            let (s3, o3) = on_reply(s2, Reply::Done);
            let (s4, o4) = on_reply(s3, Reply::Geometry(g));
            let (s5, o5) = on_reply(s3, Reply::RequestError);
            &&& c.frame == child
            &&& o1 == Output::Send(Request::SetInputFocus { window: c.window })
            &&& o2 == Output::Send(
                Request::Configure {
                    window: child,
                    changes: WindowChanges {
                        x: None,
                        y: None,
                        width: None,
                        height: None,
                        border_width: None,
                        stack_above: true,
                    },
                    checked: false,
                },
            )
            &&& o3 == Output::Send(Request::GetGeometry { window: child })
            &&& o4 == Output::Finished(Ok(()))
            &&& s4.button_press_geometry == Some(g)
            &&& s4.mouse_move_start == Some(
                MouseMoveStart { root_x, root_y, child, detail, active_win: child },
            )
            &&& s4.focused == Some(i as usize)
            &&& s4.clients == s.clients
            &&& o5 == Output::Finished(Ok(()))
            &&& s5.focused == Some(i as usize)
            &&& s5.mouse_move_start == s.mouse_move_start
            &&& s5.button_press_geometry == s.button_press_geometry
        }),
{
    law_lookup_finds_first(s.clients, child);
}

/// During a drag over the client whose frame was pressed (the pointer still over
/// it), with button 1 the frame moves by the pointer's travel and keeps its
/// size; with button 3 it keeps its place and grows by the travel, never below
/// 1; the window is placed at (0, 0) in the frame with the frame's size and
/// told its new geometry.
pub proof fn law_drag_moves_or_resizes(s: WmState, child: u32, root_x: i16, root_y: i16)
    requires
        s.task is Idle,
        exists|i: int| 0 <= i < s.clients.len() && #[trigger] s.clients[i].frame == child,
        !s.clients[find_frame(s.clients, child)->0].fullscreen,
        s.mouse_move_start matches Some(m) && m.active_win == child,
        s.button_press_geometry is Some,
    ensures
        ({
            let c = s.clients[find_frame(s.clients, child)->0];
            let m = s.mouse_move_start->0;
            let g = s.button_press_geometry->0;
            let dx = root_x - m.root_x;
            let dy = root_y - m.root_y;
            let w0 = (g.width as i16) as int;
            let h0 = (g.height as i16) as int;
            let (x, y, w, h) = if m.detail == 1 {
                (g.x + dx, g.y + dy, w0, h0)
            } else if m.detail == 3 {
                (g.x as int, g.y as int, w0 + dx, h0 + dy)
            } else {
                (g.x as int, g.y as int, w0, h0)
            };
            let w1 = if w < 1 { 1 } else { w };
            let h1 = if h < 1 { 1 } else { h };
            let (s1, o1) = on_event(s, Event::MotionNotify { child, root_x, root_y });
            let (s2, o2) = on_reply(s1, Reply::Done);
            let (s3, o3) = on_reply(s2, Reply::Done);
            let (s4, o4) = on_reply(s3, Reply::Done);
            &&& o1 == Output::Send(
                Request::Configure {
                    window: child,
                    changes: WindowChanges {
                        x: Some(x as i32),
                        y: Some(y as i32),
                        width: Some(w1 as u32),
                        height: Some(h1 as u32),
                        border_width: None,
                        stack_above: false,
                    },
                    checked: false,
                },
            )
            &&& o2 == Output::Send(
                Request::Configure {
                    window: c.window,
                    changes: WindowChanges {
                        x: Some(0),
                        y: Some(0),
                        width: Some(w1 as u32),
                        height: Some(h1 as u32),
                        border_width: None,
                        stack_above: false,
                    },
                    checked: false,
                },
            )
            &&& o3 == Output::Send(
                Request::SendConfigureNotify {
                    window: c.window,
                    x: x as i16,
                    y: y as i16,
                    width: w1 as u16,
                    height: h1 as u16,
                },
            )
            &&& o4 == Output::Finished(Ok(()))
            &&& s4.clients == s.clients
        }),
{
    law_lookup_finds_first(s.clients, child);
}

/// When the pointer drags over another window than before, that window gets
/// the input focus and becomes the drag's window; if it is a client's frame,
/// that client becomes the focused one.
pub proof fn law_drag_focus_follows_pointer(s: WmState, child: u32, root_x: i16, root_y: i16)
    requires
        s.task is Idle,
        s.clients.len() <= usize::MAX,
        s.mouse_move_start matches Some(m) && m.active_win != child,
    ensures
        ({
            let (s1, o1) = on_event(s, Event::MotionNotify { child, root_x, root_y });
            let s2 = on_reply(s1, Reply::Done).0;
            &&& o1 == Output::Send(Request::SetInputFocus { window: child })
            &&& s1.mouse_move_start->0.active_win == child
            &&& (forall|i: int|
                0 <= i < s.clients.len() && s.clients[i].frame == child && (forall|k: int|
                    0 <= k < i ==> #[trigger] s.clients[k].frame != child) ==> s2.focused == Some(
                    i as usize,
                ))
        }),
{
    law_lookup_finds_first(s.clients, child);
    assert forall|i: int|
        0 <= i < s.clients.len() && s.clients[i].frame == child && (forall|k: int|
            0 <= k < i ==> #[trigger] s.clients[k].frame != child) implies on_reply(
        on_event(s, Event::MotionNotify { child, root_x, root_y }).0,
        Reply::Done,
    ).0.focused == Some(i as usize) by {
        let j = find_frame(s.clients, child)->0;
        if j < i {
            assert(s.clients[j].frame != child);
        }
        if i < j {
            assert(s.clients[i].frame != child);
        }
    }
}

/// A request to go fullscreen (for a client not yet fullscreen) reads the
/// screen size, the window's and the frame's geometry, saves the frame's
/// position with the window's size, covers the screen with frame and window
/// (no border) and sets `_NET_WM_STATE` to the fullscreen atom.
pub proof fn law_fullscreen_covers_screen(
    s: WmState,
    window: u32,
    data: [u32; 5],
    sw: u32,
    sh: u32,
    wg: WindowGeometry,
    fg: WindowGeometry,
)
    requires
        wm_wf(s),
        s.task is Idle,
        s.clients.len() <= usize::MAX,
        managed(s.clients, window),
        data@[0] == 1,
        data@[1] == net(s, Net::WMStateFullScreen),
        !s.clients[find_window(s.clients, window)->0].fullscreen,
    ensures
        ({
            let i = find_window(s.clients, window)->0;
            let c = s.clients[i];
            let full = WindowChanges {
                x: Some(0),
                y: Some(0),
                width: Some(sw),
                height: Some(sh),
                border_width: Some(0),
                stack_above: false,
            };
            let ev = Event::ClientMessage { window, type_: net(s, Net::WMState), format: 32, data };
            let (s1, o1) = on_event(s, ev);
            let (s2, o2) = on_reply(s1, Reply::ScreenSize { width: sw, height: sh });
            let (s3, o3) = on_reply(s2, Reply::Geometry(wg));
            let (s4, o4) = on_reply(s3, Reply::Geometry(fg));
            let (s5, o5) = on_reply(s4, Reply::Done);
            let (s6, o6) = on_reply(s5, Reply::Done);
            let (s7, o7) = on_reply(s6, Reply::Done);
            &&& c.window == window
            &&& o1 == Output::Send(Request::GetScreenSize { window })
            &&& o2 == Output::Send(Request::GetGeometry { window })
            &&& o3 == Output::Send(Request::GetGeometry { window: c.frame })
            &&& o4 == Output::Send(Request::Configure { window: c.frame, changes: full, checked: false })
            &&& o5 == Output::Send(Request::Configure { window, changes: full, checked: false })
            &&& o6 == Output::Send(
                Request::SetWmState {
                    window,
                    property: net(s, Net::WMState),
                    state: Some(net(s, Net::WMStateFullScreen)),
                },
            )
            &&& o7 == Output::Finished(Ok(()))
            &&& s7.clients.len() == s.clients.len()
            &&& s7.clients[i].fullscreen
            &&& s7.clients[i].before_geom == Some(
                WindowGeometry { x: fg.x, y: fg.y, width: wg.width, height: wg.height },
            )
        }),
{
    law_lookup_finds_first(s.clients, window);
}

/// A client's own ConfigureNotify resizes its frame to the window's new size.
pub proof fn law_configure_notify_resizes_frame(s: WmState, window: u32, width: u16, height: u16)
    requires
        s.task is Idle,
        managed(s.clients, window),
    ensures
        on_event(s, Event::ConfigureNotify { window, width, height }).1 == Output::Send(
            Request::Configure {
                window: s.clients[find_window(s.clients, window)->0].frame,
                changes: WindowChanges {
                    x: None,
                    y: None,
                    width: Some(width as u32),
                    height: Some(height as u32),
                    border_width: None,
                    stack_above: false,
                },
                checked: true,
            },
        ),
        s.clients[find_window(s.clients, window)->0].window == window,
{
    law_lookup_finds_first(s.clients, window);
    crate::model::lemma_find_window(s.clients, window);
}

/// The request the startup sends on reply `r`, if it sends one.
pub open spec fn startup_request(st: StartupState, r: Reply) -> Option<Request> {
    match startup_step(st, r) {
        StartupStep::Send(req, _) => Some(req),
        _ => None,
    }
}

/// The startup's state after reply `r` (unchanged when it stops).
pub open spec fn startup_after(st: StartupState, r: Reply) -> StartupState {
    match startup_step(st, r) {
        StartupStep::Send(_, st2) => st2,
        _ => st,
    }
}

/// The startup grabs button 1 then button 3 on the root (a failed grab only
/// earns a warning), takes over the root window, gives a new window id the
/// cursor of glyphs 68 and 69, then interns the EWMH atoms; a root window that
/// cannot be taken over means another window manager runs.
pub proof fn law_startup_order(root: u32, black: u32, id: u32)
    ensures
        ({
            let st0 = crate::setup::startup_start(root, black).0;
            let st1 = startup_after(st0, Reply::Done);
            let st2 = startup_after(st1, Reply::Done);
            let st3 = startup_after(st2, Reply::Done);
            let st4 = startup_after(st3, Reply::Id(id));
            let stw = startup_after(st0, Reply::RequestError);
            &&& crate::setup::startup_start(root, black).1 == Request::GrabButton { root, button: Button::Left }
            &&& startup_request(st0, Reply::Done) == Some(Request::GrabButton { root, button: Button::Right })
            &&& startup_request(st1, Reply::Done) == Some(Request::SelectRootEvents { root })
            &&& startup_step(st2, Reply::RequestError) == StartupStep::Failed(WmError::AlreadyRunning)
            &&& startup_request(st2, Reply::Done) == Some(Request::GenerateId)
            &&& startup_request(st3, Reply::Id(id)) == Some(
                Request::SetCursor { window: id, black_pixel: black, source_char: 68, mask_char: 69 },
            )
            &&& startup_request(st4, Reply::Done) == Some(Request::InternAtoms { set: AtomSet::Net })
            &&& startup_request(st0, Reply::RequestError) == Some(
                Request::WarnGrabFailed { button: Button::Left },
            )
            &&& startup_request(stw, Reply::Done) == Some(Request::GrabButton { root, button: Button::Right })
        }),
{
}

/// After the EWMH atoms, the startup marks the root as the supporting window,
/// names the window manager, announces the interned atoms as supported and
/// interns the IPC atoms, each request using the atom interned for it.
pub proof fn law_startup_announces_ewmh(st: StartupState)
    requires
        st.stage == Stage::SupportingCheck,
    ensures
        ({
            let st1 = startup_after(st, Reply::Done);
            let st2 = startup_after(st1, Reply::Done);
            &&& startup_request(st, Reply::Done) == Some(
                Request::SetWmName { root: st.root, property: st.net_atoms@[2] },
            )
            &&& startup_request(st1, Reply::Done) == Some(
                Request::SetSupported {
                    root: st.root,
                    property: st.net_atoms@[0],
                    atoms: st.net_atoms,
                },
            )
            &&& startup_request(st2, Reply::Done) == Some(Request::InternAtoms { set: AtomSet::Ipc })
        }),
{
}

} // verus!
