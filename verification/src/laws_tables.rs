use vstd::prelude::*;
use crate::ewmh::Net;
use crate::geometry::{drag_overflows, MouseMoveStart, WindowGeometry};
use crate::ipc::IPC;
use crate::model::{event_panics, net, wm_wf, WmState};
use crate::requests::{reply_error, Event, Reply, WmError};
use crate::wm::initial_state;

verus! {

/// The EWMH atoms are interned in this order, each under its EWMH name, and
/// positions and atoms correspond one to one.
pub proof fn law_net_atom_table(n: Net, k: int)
    requires
        0 <= k < 8,
    ensures
        Net::spec_from_index(n.spec_index()) == n,
        0 <= n.spec_index() < 8,
        Net::spec_from_index(k).spec_index() == k,
        Net::Supported.spec_index() == 0 && Net::Supported.spec_name() == "_NET_SUPPORTED"@,
        Net::SupportingWMCheck.spec_index() == 1 && Net::SupportingWMCheck.spec_name()
            == "_NET_SUPPORTING_WM_CHECK"@,
        Net::WMName.spec_index() == 2 && Net::WMName.spec_name() == "_NET_WM_NAME"@,
        Net::WMState.spec_index() == 3 && Net::WMState.spec_name() == "_NET_WM_STATE"@,
        Net::WMStateFullScreen.spec_index() == 4 && Net::WMStateFullScreen.spec_name()
            == "_NET_WM_STATE_FULLSCREEN"@,
        Net::WMWindowType.spec_index() == 5 && Net::WMWindowType.spec_name()
            == "_NET_WM_WINDOW_TYPE"@,
        Net::WMWindowTypeDock.spec_index() == 6 && Net::WMWindowTypeDock.spec_name()
            == "_NET_WM_WINDOW_TYPE_DOCK"@,
        Net::FrameExtents.spec_index() == 7 && Net::FrameExtents.spec_name() == "_NET_FRAME_EXTENTS"@,
{
}

/// The IPC messages go by these codes and atom names; codes below the count
/// name their message and give it back.
pub proof fn law_ipc_table(c: u32)
    ensures
        c < 6 ==> IPC::spec_from_code(c).spec_code() == c,
        c >= 6 ==> IPC::spec_from_code(c) == IPC::Last,
        IPC::ClientMessage.spec_code() == 0 && IPC::ClientMessage.spec_atom_name()
            == "_SWIM_CLIENT_MESSAGE"@,
        IPC::KillActiveClient.spec_code() == 1 && IPC::KillActiveClient.spec_atom_name()
            == "_SWIM_KILL_ACTIVE_CLIENT"@,
        IPC::SwitchTag.spec_code() == 2 && IPC::SwitchTag.spec_atom_name() == "_SWIM_SWITCH_TAG"@,
        IPC::BorderPixel.spec_code() == 3 && IPC::BorderPixel.spec_atom_name()
            == "_SWIM_BORDER_PIXEL"@,
        IPC::BorderWidth.spec_code() == 4 && IPC::BorderWidth.spec_atom_name()
            == "_SWIM_BORDER_WIDTH"@,
        IPC::BackgroundPixel.spec_code() == 5 && IPC::BackgroundPixel.spec_atom_name()
            == "_SWIM_BACKGROUND_PIXEL"@,
        IPC::Last.spec_code() == 6,
{
}

/// A fresh window manager has no clients, no focus, no drag, shows only the
/// first tag, has border width 0, border colour 0x547A97 and background
/// 0xCA37A0, keeps the atoms it was given and is idle and well formed.
pub proof fn law_initial_state(root: u32, net_atoms: [u32; 8], ipc_atoms: [u32; 6])
    ensures
        ({
            let s = initial_state(root, net_atoms, ipc_atoms);
            &&& s.root == root
            &&& s.clients.len() == 0
            &&& s.focused is None
            &&& s.mouse_move_start is None
            &&& s.button_press_geometry is None
            &&& forall|j: int| 0 <= j < 9 ==> #[trigger] s.tags.data@[j] == (j == 0)
            &&& s.config.border_width == 0
            &&& s.config.border_pixel == 0x547A97
            &&& s.config.background_pixel == 0xCA37A0
            &&& s.net_atoms == net_atoms
            &&& s.ipc_atoms == ipc_atoms
            &&& s.task is Idle
            &&& wm_wf(s)
        }),
{
}

/// A failed request is reported as a connection failure when it could not be
/// sent, and as the server's refusal otherwise.
pub proof fn law_reply_errors()
    ensures
        reply_error(Reply::ConnectionError) == WmError::Connection,
        reply_error(Reply::RequestError) == WmError::Request,
        reply_error(Reply::Done) == WmError::UnexpectedReply,
{
}

/// The messages of the refusals that name what went wrong.
pub proof fn law_error_messages()
    ensures
        WmError::AlreadyRunning.spec_message()
            == "a window manager is already running on this display (failed to capture SubstructureRedirect|SubstructureNotify on root window)"@,
        WmError::PressOnNonClient.spec_message() == "button_press: press on non client window, ignoring"@,
        WmError::MotionOnNonClient.spec_message() == "motion_notify: motion on non client window, ignoring"@,
        WmError::MotionOnFullscreen.spec_message() == "motion_notify: motion on fullscreen window, ignoring"@,
        WmError::NoMoveStart.spec_message() == "motion_notify: failed to get value of mouse_move_start, ignoring"@,
        WmError::NoPressGeometry.spec_message() == "motion_notify: failed to get value of button_press_geometry, ignoring"@,
        WmError::UnmapOnNonClient.spec_message() == "unmap_notify: unmap on non client window, ignoring"@,
        WmError::DestroyOnNonClient.spec_message() == "destroy_notify: destroy on non client window, ignoring"@,
        WmError::BadMessageFormat.spec_message() == "client_message: ev.format != 32, ignoring"@,
        WmError::MessageOnNonClient.spec_message() == "client_message: unmap on non client window, ignoring"@,
        WmError::NoSavedGeometry.spec_message() == "client_message: unfullscreening, but client has no before_geom field (it has not fullscreened before). ignoring."@,
        WmError::NoFocusedWindow.spec_message() == "client_message: no focused window to kill"@,
        WmError::ConfigureOnNonClient.spec_message() == "configure_notify: configure on non client window, ignoring"@,
{
}

/// A drag overflows exactly when one of its 16-bit sums leaves the range of
/// `i16`: the pointer's travel on either axis, the moved top edge (button 1),
/// or the resized width or height (button 3).
pub proof fn law_drag_overflow(m: MouseMoveStart, g: WindowGeometry, root_x: i16, root_y: i16)
    ensures
        ({
            let dx = root_x - m.root_x;
            let dy = root_y - m.root_y;
            let out = |v: int| v < -32768 || v > 32767;
            drag_overflows(m, g, root_x, root_y) <==> (out(dx) || out(dy) || (m.detail == 1 && out(
                g.y + dy,
            )) || (m.detail == 3 && (out((g.width as i16) + dx) || out((g.height as i16) + dy))))
        }),
{
}

/// The commands that abort the program: killing with a focus past the end of
/// the client list, and switching to a tag outside 1..=9. Other commands never
/// do.
pub proof fn law_command_panics(s: WmState, window: u32, data: [u32; 5])
    requires
        net(s, Net::WMState) != s.ipc_atoms@[0],
    ensures
        event_panics(s, Event::ClientMessage { window, type_: s.ipc_atoms@[0], format: 32, data })
            <==> ((data@[0] == 1 && s.focused is Some && s.focused->0 >= s.clients.len()) || (data@[0]
            == 2 && (data@[1] < 1 || data@[1] > 9))),
        !event_panics(s, Event::ClientMessage { window, type_: net(s, Net::WMState), format: 32, data }),
{
}

/// The tag set of a single tag holds that tag and no other; the first tag is
/// the one the default set holds.
pub proof fn law_single_tag_sets(tag: int, j: int)
    requires
        0 <= tag < 9,
        0 <= j < 9,
    ensures
        crate::tags::only_tag(tag).len() == 9,
        crate::tags::only_tag(tag)[j] == (j == tag),
        crate::tags::tags_only(tag).data@[j] == (j == tag),
{
    crate::tags::lemma_tags_only(tag);
}

} // verus!
