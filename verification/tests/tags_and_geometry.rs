use swim::geometry::{check_drag_overflow, drag_geometry, from_configure_request, MouseMoveStart, WindowGeometry};
use swim::ewmh::Net;
use swim::ipc::IPC;
use swim::requests::{WmError, CONFIGURE_NOTIFY_MASK, FRAME_EVENT_MASK, GRAB_EVENT_MASK, GRAB_MODIFIERS, ROOT_EVENT_MASK};
use swim::tags::TagSet;

#[test]
fn default_tagset_shows_first_tag_only() {
    let t = TagSet::default();
    assert_eq!(t.data, [true, false, false, false, false, false, false, false, false]);
}

#[test]
fn view_and_hide_tag_touch_one_tag() {
    let mut t = TagSet::default();
    t.view_tag(4);
    assert_eq!(t.data, [true, false, false, false, true, false, false, false, false]);
    t.hide_tag(0);
    assert_eq!(t.data, [false, false, false, false, true, false, false, false, false]);
    assert!(t.is_set(4));
    assert!(!t.is_set(0));
}

#[test]
fn switch_tag_leaves_only_that_tag() {
    let mut t = TagSet { data: [true; 9] };
    t.switch_tag(8);
    assert_eq!(t.data, [false, false, false, false, false, false, false, false, true]);
    let mut u = TagSet::default();
    u.switch_tag(8);
    assert_eq!(t, u);
}

#[test]
fn configure_request_passes_masked_fields() {
    let c = from_configure_request(1 | 4 | 16, 5, 6, 70, 80, 2);
    assert_eq!(c.x, Some(5));
    assert_eq!(c.y, None);
    assert_eq!(c.width, Some(70));
    assert_eq!(c.height, None);
    assert_eq!(c.border_width, Some(2));
    assert!(!c.stack_above);
    let none = from_configure_request(32 | 64, 5, 6, 70, 80, 2);
    assert_eq!((none.x, none.y, none.width, none.height, none.border_width), (None, None, None, None, None));
}

fn start(detail: u8) -> MouseMoveStart {
    MouseMoveStart { root_x: 100, root_y: 100, child: 7, detail, active_win: 7 }
}

#[test]
fn drag_with_button_one_moves() {
    let g = WindowGeometry { x: 10, y: 20, width: 300, height: 200 };
    assert_eq!(drag_geometry(start(1), g, 130, 90), (40, 10, 300, 200));
}

#[test]
fn drag_with_button_three_resizes_at_least_one() {
    let g = WindowGeometry { x: 10, y: 20, width: 300, height: 200 };
    assert_eq!(drag_geometry(start(3), g, 150, 120), (10, 20, 350, 220));
    assert_eq!(drag_geometry(start(3), g, -400, -400), (10, 20, 1, 1));
    assert_eq!(drag_geometry(start(2), g, 150, 120), (10, 20, 300, 200));
}

#[test]
fn drag_overflow_is_detected() {
    let g = WindowGeometry { x: 10, y: 20, width: 300, height: 200 };
    let far = MouseMoveStart { root_x: -30000, root_y: 0, child: 7, detail: 1, active_win: 7 };
    assert!(check_drag_overflow(far, g, 30000, 0));
    assert!(!check_drag_overflow(start(1), g, 130, 90));
    let tall = WindowGeometry { x: 0, y: 32000, width: 300, height: 200 };
    assert!(check_drag_overflow(start(1), tall, 100, 900));
    assert!(!check_drag_overflow(start(3), tall, 100, 900));
    let wide = WindowGeometry { x: 0, y: 0, width: 32700, height: 200 };
    assert!(check_drag_overflow(start(3), wide, 200, 100));
}

#[test]
fn ipc_codes_and_names() {
    assert_eq!(IPC::ClientMessage.code(), 0);
    assert_eq!(IPC::KillActiveClient.code(), 1);
    assert_eq!(IPC::SwitchTag.code(), 2);
    assert_eq!(IPC::BackgroundPixel.code(), 5);
    assert_eq!(IPC::Last.code(), 6);
    assert_eq!(IPC::from_code(3), IPC::BorderPixel);
    assert_eq!(IPC::from_code(99), IPC::Last);
    assert_eq!(IPC::SwitchTag.atom_name(), "_SWIM_SWITCH_TAG");
    assert_eq!(IPC::ClientMessage.atom_name(), "_SWIM_CLIENT_MESSAGE");
}

#[test]
fn net_atoms_order_and_names() {
    assert_eq!(Net::Supported.index(), 0);
    assert_eq!(Net::FrameExtents.index(), 7);
    assert_eq!(Net::from_index(4), Net::WMStateFullScreen);
    assert_eq!(Net::WMWindowTypeDock.name(), "_NET_WM_WINDOW_TYPE_DOCK");
}

#[test]
fn error_messages() {
    assert_eq!(WmError::PressOnNonClient.message(), "button_press: press on non client window, ignoring");
    assert!(WmError::AlreadyRunning.message().starts_with("a window manager is already running"));
}

#[test]
fn request_masks_are_the_x_bits() {
    assert_eq!(GRAB_EVENT_MASK, (1 << 2) | (1 << 3) | (1 << 6));
    assert_eq!(GRAB_MODIFIERS, 1 << 6);
    assert_eq!(ROOT_EVENT_MASK, (1 << 20) | (1 << 19));
    assert_eq!(FRAME_EVENT_MASK, (1 << 15) | (1 << 20) | (1 << 19) | (1 << 2) | (1 << 3) | (1 << 6) | (1 << 4));
    assert_eq!(CONFIGURE_NOTIFY_MASK, 1 << 17);
}
