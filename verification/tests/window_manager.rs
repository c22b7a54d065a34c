use swim::geometry::{WindowChanges, WindowGeometry};
use swim::requests::{Event, Output, Reply, Request, WmError};
use swim::wm::WindowManager;

const ROOT: u32 = 1;
const NET: [u32; 8] = [10, 11, 12, 13, 14, 15, 16, 17];
const IPC_ATOMS: [u32; 6] = [20, 21, 22, 23, 24, 25];
const WM_STATE: u32 = 13;
const FULLSCREEN: u32 = 14;
const DOCK: u32 = 16;

fn manager() -> WindowManager {
    WindowManager::with_atoms(ROOT, NET, IPC_ATOMS)
}

fn geom(x: i16, y: i16, width: u16, height: u16) -> WindowGeometry {
    WindowGeometry { x, y, width, height }
}

/// A server that accepts everything; new ids count up from 1000.
fn server(next_id: &mut u32, req: &Request) -> Reply {
    match req {
        Request::GenerateId => {
            *next_id += 1;
            Reply::Id(*next_id)
        }
        Request::GetWindowType { .. } => Reply::Property(vec![]),
        Request::GetGeometry { window } => {
            if *window >= 1000 {
                Reply::Geometry(geom(5, 6, 400, 300))
            } else {
                Reply::Geometry(geom(0, 0, 640, 480))
            }
        }
        Request::GetScreenSize { .. } => Reply::ScreenSize { width: 1920, height: 1080 },
        _ => Reply::Done,
    }
}

fn run_with(
    wm: &mut WindowManager,
    ev: Event,
    answer: &mut dyn FnMut(&Request) -> Reply,
) -> (Vec<Request>, Result<(), WmError>) {
    assert!(wm.is_idle());
    assert!(!wm.would_panic_on_event(&ev));
    let mut out = wm.dispatch_event(&ev);
    let mut sent = Vec::new();
    loop {
        match out {
            Output::Send(req) => {
                assert!(!wm.is_idle());
                sent.push(req);
                let r = answer(&req);
                assert!(!wm.would_panic_on_reply(&r));
                out = wm.handle_reply(r);
            }
            Output::Finished(r) => {
                assert!(wm.is_idle());
                return (sent, r);
            }
        }
    }
}

fn run(wm: &mut WindowManager, ev: Event, ids: &mut u32) -> (Vec<Request>, Result<(), WmError>) {
    run_with(wm, ev, &mut |r: &Request| server(ids, r))
}

fn map(wm: &mut WindowManager, window: u32, ids: &mut u32) -> u32 {
    let (_, r) = run(wm, Event::MapRequest { window }, ids);
    assert_eq!(r, Ok(()));
    *ids
}

fn raise() -> WindowChanges {
    WindowChanges { x: None, y: None, width: None, height: None, border_width: None, stack_above: true }
}

fn placed(x: i32, y: i32, w: u32, h: u32, bw: Option<u32>) -> WindowChanges {
    WindowChanges { x: Some(x), y: Some(y), width: Some(w), height: Some(h), border_width: bw, stack_above: false }
}

fn client_message(window: u32, type_: u32, data: [u32; 5]) -> Event {
    Event::ClientMessage { window, type_, format: 32, data }
}

#[test]
fn new_manager_is_empty() {
    let wm = manager();
    assert_eq!(wm.client_count(), 0);
    assert_eq!(wm.focused(), None);
    assert_eq!(wm.tags().data, [true, false, false, false, false, false, false, false, false]);
    assert_eq!(wm.config().border_width, 0);
    assert_eq!(wm.config().border_pixel, 0x547A97);
    assert_eq!(wm.config().background_pixel, 0xCA37A0);
    assert!(wm.is_idle());
}

#[test]
fn map_request_frames_and_focuses_window() {
    let mut wm = manager();
    let mut ids = 1000;
    let (sent, r) = run(&mut wm, Event::MapRequest { window: 50 }, &mut ids);
    assert_eq!(r, Ok(()));
    let frame = 1001;
    assert_eq!(
        sent,
        vec![
            Request::GetWindowType { window: 50, property: 15 },
            Request::SetFrameExtents { window: 50, property: 17, width: 0 },
            Request::GetGeometry { window: 50 },
            Request::GenerateId,
            Request::CreateFrame {
                frame,
                parent: ROOT,
                geometry: geom(0, 0, 640, 480),
                background_pixel: 0xCA37A0,
                border_pixel: 0x547A97,
            },
            Request::GrabServer,
            Request::AddToSaveSet { window: 50 },
            Request::Reparent { window: 50, parent: frame },
            Request::MapWindow { window: 50 },
            Request::MapWindow { window: frame },
            Request::UngrabServer,
            Request::SetInputFocus { window: 50 },
            Request::Configure { window: frame, changes: raise(), checked: false },
        ]
    );
    assert_eq!(wm.client_count(), 1);
    let c = wm.client(0);
    assert_eq!((c.window, c.frame, c.fullscreen, c.before_geom), (50, frame, false, None));
    assert_eq!(c.tags, wm.tags());
    assert_eq!(wm.focused(), Some(0));
}

#[test]
fn map_request_of_client_only_maps_it() {
    let mut wm = manager();
    let mut ids = 1000;
    map(&mut wm, 50, &mut ids);
    let (sent, r) = run(&mut wm, Event::MapRequest { window: 50 }, &mut ids);
    assert_eq!(r, Ok(()));
    assert_eq!(sent, vec![Request::MapWindow { window: 50 }]);
    assert_eq!(wm.client_count(), 1);
}

#[test]
fn dock_window_is_mapped_not_framed() {
    let mut wm = manager();
    let mut answer = |r: &Request| match r {
        Request::GetWindowType { .. } => Reply::Property(vec![0, 0, 0, DOCK as u8]),
        _ => Reply::Done,
    };
    let (sent, r) = run_with(&mut wm, Event::MapRequest { window: 60 }, &mut answer);
    assert_eq!(r, Ok(()));
    assert_eq!(
        sent,
        vec![Request::GetWindowType { window: 60, property: 15 }, Request::MapWindow { window: 60 }]
    );
    assert_eq!(wm.client_count(), 0);
}

#[test]
fn failed_request_stops_map_request() {
    let mut wm = manager();
    let mut ids = 1000;
    let mut answer = |r: &Request| match r {
        Request::GrabServer => Reply::RequestError,
        other => server(&mut ids, other),
    };
    let (sent, r) = run_with(&mut wm, Event::MapRequest { window: 50 }, &mut answer);
    assert_eq!(r, Err(WmError::Request));
    assert_eq!(sent.last(), Some(&Request::GrabServer));
    assert_eq!(wm.client_count(), 0);
    assert_eq!(wm.focused(), None);
}

#[test]
fn lost_connection_stops_map_request() {
    let mut wm = manager();
    let mut answer = |_: &Request| Reply::ConnectionError;
    let (sent, r) = run_with(&mut wm, Event::MapRequest { window: 50 }, &mut answer);
    assert_eq!(r, Err(WmError::Connection));
    assert_eq!(sent.len(), 1);
}

#[test]
fn button_press_focuses_and_starts_drag() {
    let mut wm = manager();
    let mut ids = 1000;
    map(&mut wm, 50, &mut ids);
    let f1 = map(&mut wm, 51, &mut ids);
    let f0 = 1001;
    assert_eq!(wm.focused(), Some(1));
    let (sent, r) = run(&mut wm, Event::ButtonPress { child: f0, root_x: 30, root_y: 40, detail: 1 }, &mut ids);
    assert_eq!(r, Ok(()));
    assert_eq!(
        sent,
        vec![
            Request::SetInputFocus { window: 50 },
            Request::Configure { window: f0, changes: raise(), checked: false },
            Request::GetGeometry { window: f0 },
        ]
    );
    assert_eq!(wm.focused(), Some(0));
    assert_eq!(wm.button_press_geometry(), Some(geom(5, 6, 400, 300)));
    let m = wm.mouse_move_start().unwrap();
    assert_eq!((m.root_x, m.root_y, m.child, m.detail, m.active_win), (30, 40, f0, 1, f0));
    assert!(f1 != f0);
}

#[test]
fn button_press_without_geometry_only_focuses() {
    let mut wm = manager();
    let mut ids = 1000;
    map(&mut wm, 50, &mut ids);
    map(&mut wm, 51, &mut ids);
    let mut answer = |r: &Request| match r {
        Request::GetGeometry { .. } => Reply::RequestError,
        _ => Reply::Done,
    };
    let (_, r) = run_with(&mut wm, Event::ButtonPress { child: 1001, root_x: 1, root_y: 1, detail: 1 }, &mut answer);
    assert_eq!(r, Ok(()));
    assert_eq!(wm.focused(), Some(0));
    assert_eq!(wm.mouse_move_start(), None);
}

#[test]
fn button_press_on_non_client_is_refused() {
    let mut wm = manager();
    let mut ids = 1000;
    let (sent, r) = run(&mut wm, Event::ButtonPress { child: 77, root_x: 1, root_y: 1, detail: 1 }, &mut ids);
    assert_eq!(r, Err(WmError::PressOnNonClient));
    assert!(sent.is_empty());
}

#[test]
fn motion_moves_frame_and_window() {
    let mut wm = manager();
    let mut ids = 1000;
    map(&mut wm, 50, &mut ids);
    let f = 1001;
    run(&mut wm, Event::ButtonPress { child: f, root_x: 100, root_y: 100, detail: 1 }, &mut ids);
    let (sent, r) = run(&mut wm, Event::MotionNotify { child: f, root_x: 110, root_y: 95 }, &mut ids);
    assert_eq!(r, Ok(()));
    assert_eq!(
        sent,
        vec![
            Request::Configure { window: f, changes: placed(15, 1, 400, 300, None), checked: false },
            Request::Configure { window: 50, changes: placed(0, 0, 400, 300, None), checked: false },
            Request::SendConfigureNotify { window: 50, x: 15, y: 1, width: 400, height: 300 },
        ]
    );
}

#[test]
fn motion_resizes_with_button_three() {
    let mut wm = manager();
    let mut ids = 1000;
    map(&mut wm, 50, &mut ids);
    let f = 1001;
    run(&mut wm, Event::ButtonPress { child: f, root_x: 100, root_y: 100, detail: 3 }, &mut ids);
    let (sent, _) = run(&mut wm, Event::MotionNotify { child: f, root_x: 120, root_y: -500 }, &mut ids);
    assert_eq!(sent[0], Request::Configure { window: f, changes: placed(5, 6, 420, 1, None), checked: false });
}

#[test]
fn motion_over_other_window_moves_focus_first() {
    let mut wm = manager();
    let mut ids = 1000;
    map(&mut wm, 50, &mut ids);
    map(&mut wm, 51, &mut ids);
    run(&mut wm, Event::ButtonPress { child: 1001, root_x: 100, root_y: 100, detail: 1 }, &mut ids);
    let (sent, r) = run(&mut wm, Event::MotionNotify { child: 1002, root_x: 100, root_y: 100 }, &mut ids);
    assert_eq!(sent[0], Request::SetInputFocus { window: 1002 });
    assert_eq!(wm.focused(), Some(1));
    assert_eq!(wm.mouse_move_start().unwrap().active_win, 1002);
    assert_eq!(r, Ok(()));
}

#[test]
fn motion_without_drag_is_refused() {
    let mut wm = manager();
    let mut ids = 1000;
    map(&mut wm, 50, &mut ids);
    let (sent, r) = run(&mut wm, Event::MotionNotify { child: 1001, root_x: 1, root_y: 1 }, &mut ids);
    assert_eq!(r, Err(WmError::NoMoveStart));
    assert!(sent.is_empty());
    let (_, r) = run(&mut wm, Event::MotionNotify { child: 9, root_x: 1, root_y: 1 }, &mut ids);
    assert_eq!(r, Err(WmError::MotionOnNonClient));
}

#[test]
fn overflowing_drag_is_reported_before_handling() {
    let mut wm = manager();
    let mut ids = 1000;
    map(&mut wm, 50, &mut ids);
    run(&mut wm, Event::ButtonPress { child: 1001, root_x: -30000, root_y: 0, detail: 1 }, &mut ids);
    assert!(wm.would_panic_on_event(&Event::MotionNotify { child: 1001, root_x: 30000, root_y: 0 }));
    assert!(!wm.would_panic_on_event(&Event::MotionNotify { child: 1001, root_x: 0, root_y: 0 }));
}

#[test]
fn configure_request_is_passed_on() {
    let mut wm = manager();
    let mut ids = 1000;
    let ev = Event::ConfigureRequest { window: 70, value_mask: 4 | 8, x: 1, y: 2, width: 30, height: 40, border_width: 0 };
    let (sent, r) = run(&mut wm, ev, &mut ids);
    assert_eq!(r, Ok(()));
    assert_eq!(
        sent,
        vec![Request::Configure {
            window: 70,
            changes: WindowChanges { x: None, y: None, width: Some(30), height: Some(40), border_width: None, stack_above: false },
            checked: true,
        }]
    );
}

#[test]
fn unmap_notify_forgets_client() {
    let mut wm = manager();
    let mut ids = 1000;
    map(&mut wm, 50, &mut ids);
    map(&mut wm, 51, &mut ids);
    let (sent, r) = run(&mut wm, Event::UnmapNotify { window: 50 }, &mut ids);
    assert_eq!(r, Ok(()));
    assert_eq!(sent, vec![Request::UnmapWindow { window: 1001 }]);
    assert_eq!(wm.client_count(), 1);
    assert_eq!(wm.client(0).window, 51);
    let (_, r) = run(&mut wm, Event::UnmapNotify { window: 50 }, &mut ids);
    assert_eq!(r, Err(WmError::UnmapOnNonClient));
}

#[test]
fn destroy_notify_destroys_frame() {
    let mut wm = manager();
    let mut ids = 1000;
    map(&mut wm, 50, &mut ids);
    let (sent, r) = run(&mut wm, Event::DestroyNotify { window: 50 }, &mut ids);
    assert_eq!(r, Ok(()));
    assert_eq!(sent, vec![Request::DestroyWindow { window: 1001 }]);
    assert_eq!(wm.client_count(), 0);
    let (_, r) = run(&mut wm, Event::DestroyNotify { window: 50 }, &mut ids);
    assert_eq!(r, Err(WmError::DestroyOnNonClient));
}

#[test]
fn failed_unmap_keeps_client() {
    let mut wm = manager();
    let mut ids = 1000;
    map(&mut wm, 50, &mut ids);
    let mut answer = |_: &Request| Reply::RequestError;
    let (_, r) = run_with(&mut wm, Event::UnmapNotify { window: 50 }, &mut answer);
    assert_eq!(r, Err(WmError::Request));
    assert_eq!(wm.client_count(), 1);
}

#[test]
fn configure_notify_resizes_frame() {
    let mut wm = manager();
    let mut ids = 1000;
    map(&mut wm, 50, &mut ids);
    let (sent, r) = run(&mut wm, Event::ConfigureNotify { window: 50, width: 11, height: 12 }, &mut ids);
    assert_eq!(r, Ok(()));
    assert_eq!(
        sent,
        vec![Request::Configure {
            window: 1001,
            changes: WindowChanges { x: None, y: None, width: Some(11), height: Some(12), border_width: None, stack_above: false },
            checked: true,
        }]
    );
    let (_, r) = run(&mut wm, Event::ConfigureNotify { window: 9, width: 1, height: 1 }, &mut ids);
    assert_eq!(r, Err(WmError::ConfigureOnNonClient));
}

#[test]
fn fullscreen_and_back() {
    let mut wm = manager();
    let mut ids = 1000;
    map(&mut wm, 50, &mut ids);
    let f = 1001;
    let (sent, r) = run(&mut wm, client_message(50, WM_STATE, [1, FULLSCREEN, 0, 0, 0]), &mut ids);
    assert_eq!(r, Ok(()));
    assert_eq!(
        sent,
        vec![
            Request::GetScreenSize { window: 50 },
            Request::GetGeometry { window: 50 },
            Request::GetGeometry { window: f },
            Request::Configure { window: f, changes: placed(0, 0, 1920, 1080, Some(0)), checked: false },
            Request::Configure { window: 50, changes: placed(0, 0, 1920, 1080, Some(0)), checked: false },
            Request::SetWmState { window: 50, property: WM_STATE, state: Some(FULLSCREEN) },
        ]
    );
    let c = wm.client(0);
    assert!(c.fullscreen);
    assert_eq!(c.before_geom, Some(geom(5, 6, 640, 480)));
    // a drag on a fullscreen client is refused
    run(&mut wm, Event::ButtonPress { child: f, root_x: 0, root_y: 0, detail: 1 }, &mut ids);
    let (_, r) = run(&mut wm, Event::MotionNotify { child: f, root_x: 5, root_y: 5 }, &mut ids);
    assert_eq!(r, Err(WmError::MotionOnFullscreen));
    // asking again for fullscreen takes it back
    let (sent, r) = run(&mut wm, client_message(50, WM_STATE, [1, 0, FULLSCREEN, 0, 0]), &mut ids);
    assert_eq!(r, Ok(()));
    assert_eq!(
        sent,
        vec![
            Request::Configure { window: f, changes: placed(5, 6, 640, 480, Some(0)), checked: false },
            Request::Configure { window: 50, changes: placed(0, 0, 640, 480, Some(0)), checked: false },
            Request::SetWmState { window: 50, property: WM_STATE, state: None },
        ]
    );
    let c = wm.client(0);
    assert!(!c.fullscreen);
    assert_eq!(c.before_geom, None);
}

#[test]
fn unfullscreen_without_saved_geometry_is_refused() {
    let mut wm = manager();
    let mut ids = 1000;
    map(&mut wm, 50, &mut ids);
    let (sent, r) = run(&mut wm, client_message(50, WM_STATE, [0, FULLSCREEN, 0, 0, 0]), &mut ids);
    assert_eq!(r, Err(WmError::NoSavedGeometry));
    assert!(sent.is_empty());
}

#[test]
fn wm_state_message_checks_format_and_window() {
    let mut wm = manager();
    let mut ids = 1000;
    map(&mut wm, 50, &mut ids);
    let ev = Event::ClientMessage { window: 50, type_: WM_STATE, format: 8, data: [1, FULLSCREEN, 0, 0, 0] };
    assert_eq!(run(&mut wm, ev, &mut ids).1, Err(WmError::BadMessageFormat));
    let ev = client_message(9, WM_STATE, [1, FULLSCREEN, 0, 0, 0]);
    assert_eq!(run(&mut wm, ev, &mut ids).1, Err(WmError::MessageOnNonClient));
    let ev = client_message(50, WM_STATE, [1, 99, 98, 0, 0]);
    assert_eq!(run(&mut wm, ev, &mut ids), (vec![], Ok(())));
    let ev = client_message(50, 999, [1, 0, 0, 0, 0]);
    assert_eq!(run(&mut wm, ev, &mut ids), (vec![], Ok(())));
}

#[test]
fn kill_active_client() {
    let mut wm = manager();
    let mut ids = 1000;
    let (_, r) = run(&mut wm, client_message(0, IPC_ATOMS[0], [1, 0, 0, 0, 0]), &mut ids);
    assert_eq!(r, Err(WmError::NoFocusedWindow));
    map(&mut wm, 50, &mut ids);
    map(&mut wm, 51, &mut ids);
    let (sent, r) = run(&mut wm, client_message(0, IPC_ATOMS[0], [1, 0, 0, 0, 0]), &mut ids);
    assert_eq!(r, Ok(()));
    assert_eq!(sent, vec![Request::KillClient { window: 51 }]);
}

#[test]
fn kill_with_stale_focus_is_reported_before_handling() {
    let mut wm = manager();
    let mut ids = 1000;
    map(&mut wm, 50, &mut ids);
    run(&mut wm, Event::UnmapNotify { window: 50 }, &mut ids);
    assert_eq!(wm.focused(), Some(0));
    assert!(wm.would_panic_on_event(&client_message(0, IPC_ATOMS[0], [1, 0, 0, 0, 0])));
}

#[test]
fn switch_tag_maps_and_unmaps_frames() {
    let mut wm = manager();
    let mut ids = 1000;
    map(&mut wm, 50, &mut ids);
    // switch to tag 3 (index 2): the client (on tag 1) gets unmapped, once per tag
    let (sent, r) = run(&mut wm, client_message(0, IPC_ATOMS[0], [2, 3, 0, 0, 0]), &mut ids);
    assert_eq!(r, Ok(()));
    assert_eq!(wm.tags().data, [false, false, true, false, false, false, false, false, false]);
    assert_eq!(sent, vec![Request::UnmapWindow { window: 1001 }; 9]);
    assert_eq!(wm.client(0).tags.data, [true, false, false, false, false, false, false, false, false]);
    assert_eq!(wm.client_count(), 1);
    // a window mapped now is on tag 3; back to tag 1
    map(&mut wm, 51, &mut ids);
    let (sent, _) = run(&mut wm, client_message(0, IPC_ATOMS[0], [2, 1, 0, 0, 0]), &mut ids);
    let mut expected = vec![Request::MapWindow { window: 1001 }];
    expected.extend(vec![Request::UnmapWindow { window: 1002 }; 9]);
    assert_eq!(sent, expected);
    // back to tag 3: the second client is unmapped twice, then mapped
    let (sent, _) = run(&mut wm, client_message(0, IPC_ATOMS[0], [2, 3, 0, 0, 0]), &mut ids);
    let mut expected = vec![Request::UnmapWindow { window: 1001 }; 9];
    expected.extend(vec![Request::UnmapWindow { window: 1002 }; 2]);
    expected.push(Request::MapWindow { window: 1002 });
    assert_eq!(sent, expected);
}

#[test]
fn switch_to_missing_tag_is_reported_before_handling() {
    let wm = manager();
    assert!(wm.would_panic_on_event(&client_message(0, IPC_ATOMS[0], [2, 0, 0, 0, 0])));
    assert!(wm.would_panic_on_event(&client_message(0, IPC_ATOMS[0], [2, 10, 0, 0, 0])));
    assert!(!wm.would_panic_on_event(&client_message(0, IPC_ATOMS[0], [2, 9, 0, 0, 0])));
}

#[test]
fn border_and_background_settings() {
    let mut wm = manager();
    let mut ids = 1000;
    map(&mut wm, 50, &mut ids);
    map(&mut wm, 51, &mut ids);
    let (sent, _) = run(&mut wm, client_message(0, IPC_ATOMS[0], [3, 0xff0000, 0, 0, 0]), &mut ids);
    assert_eq!(wm.config().border_pixel, 0xff0000);
    assert_eq!(
        sent,
        vec![
            Request::SetBorderPixel { window: 1001, pixel: 0xff0000 },
            Request::SetBorderPixel { window: 1002, pixel: 0xff0000 },
        ]
    );
    let (sent, _) = run(&mut wm, client_message(0, IPC_ATOMS[0], [4, 3, 0, 0, 0]), &mut ids);
    assert_eq!(wm.config().border_width, 3);
    let bw = WindowChanges { x: None, y: None, width: None, height: None, border_width: Some(3), stack_above: false };
    assert_eq!(
        sent,
        vec![
            Request::Configure { window: 1001, changes: bw, checked: true },
            Request::Configure { window: 1002, changes: bw, checked: true },
        ]
    );
    let (sent, _) = run(&mut wm, client_message(0, IPC_ATOMS[0], [5, 0x00ff00, 0, 0, 0]), &mut ids);
    assert_eq!(wm.config().background_pixel, 0x00ff00);
    assert_eq!(sent.len(), 2);
    // the new border width goes into the frame extents of new windows
    let (sent, _) = run(&mut wm, Event::MapRequest { window: 52 }, &mut ids);
    assert_eq!(sent[1], Request::SetFrameExtents { window: 52, property: 17, width: 3 });
    // an unknown command does nothing
    assert_eq!(run(&mut wm, client_message(0, IPC_ATOMS[0], [9, 0, 0, 0, 0]), &mut ids), (vec![], Ok(())));
}

#[test]
fn other_events_are_ignored() {
    let mut wm = manager();
    let mut ids = 1000;
    assert_eq!(run(&mut wm, Event::Other, &mut ids), (vec![], Ok(())));
}
