use swim::requests::{AtomSet, Button, Reply, Request, WmError};
use swim::setup::{wm_name, StartupOutput, CURSOR_GLYPH};
use swim::wm::WindowManager;

fn answer(req: &Request) -> Reply {
    match req {
        Request::GenerateId => Reply::Id(500),
        Request::InternAtoms { set: AtomSet::Net } => Reply::Atoms((10..18).collect()),
        Request::InternAtoms { set: AtomSet::Ipc } => Reply::Atoms((20..26).collect()),
        _ => Reply::Done,
    }
}

fn drive(mut answer: impl FnMut(&Request) -> Reply) -> (Vec<Request>, StartupOutput) {
    let (mut st, first) = WindowManager::new(1, 0x111111);
    let mut sent = vec![first];
    let mut req = first;
    loop {
        let r = answer(&req);
        assert!(!st.reply_panics(&r));
        match st.resume(r) {
            StartupOutput::Send(next) => {
                sent.push(next);
                req = next;
            }
            other => return (sent, other),
        }
    }
}

#[test]
fn startup_sequence() {
    let (sent, out) = drive(answer);
    assert_eq!(
        sent,
        vec![
            Request::GrabButton { root: 1, button: Button::Left },
            Request::GrabButton { root: 1, button: Button::Right },
            Request::SelectRootEvents { root: 1 },
            Request::GenerateId,
            Request::SetCursor { window: 500, black_pixel: 0x111111, source_char: 68, mask_char: 69 },
            Request::InternAtoms { set: AtomSet::Net },
            Request::SetSupportingWmCheck { root: 1, property: 11 },
            Request::SetWmName { root: 1, property: 12 },
            Request::SetSupported { root: 1, property: 10, atoms: [10, 11, 12, 13, 14, 15, 16, 17] },
            Request::InternAtoms { set: AtomSet::Ipc },
        ]
    );
    match out {
        StartupOutput::Ready(wm) => {
            assert_eq!(wm.client_count(), 0);
            assert!(wm.is_idle());
        }
        _ => panic!("startup did not complete"),
    }
    assert_eq!(CURSOR_GLYPH, 68);
    assert_eq!(wm_name(), "swim");
}

#[test]
fn failed_grab_only_warns() {
    let (sent, out) = drive(|r: &Request| match r {
        Request::GrabButton { button: Button::Right, .. } => Reply::RequestError,
        other => answer(other),
    });
    assert_eq!(sent[2], Request::WarnGrabFailed { button: Button::Right });
    assert_eq!(sent[3], Request::SelectRootEvents { root: 1 });
    assert!(matches!(out, StartupOutput::Ready(_)));
}

#[test]
fn another_window_manager_stops_startup() {
    let (sent, out) = drive(|r: &Request| match r {
        Request::SelectRootEvents { .. } => Reply::RequestError,
        other => answer(other),
    });
    assert_eq!(sent.len(), 3);
    assert!(matches!(out, StartupOutput::Failed(WmError::AlreadyRunning)));
}

#[test]
fn failed_atoms_stop_startup() {
    let (_, out) = drive(|r: &Request| match r {
        Request::InternAtoms { set: AtomSet::Ipc } => Reply::ConnectionError,
        other => answer(other),
    });
    assert!(matches!(out, StartupOutput::Failed(WmError::Connection)));
    let (_, out) = drive(|r: &Request| match r {
        Request::InternAtoms { set: AtomSet::Net } => Reply::Atoms(vec![1, 2]),
        other => answer(other),
    });
    assert!(matches!(out, StartupOutput::Failed(WmError::UnexpectedReply)));
}

#[test]
fn failed_cursor_aborts_startup() {
    let (mut st, _) = WindowManager::new(1, 0);
    for r in [Reply::Done, Reply::Done, Reply::Done, Reply::Id(3)] {
        assert!(!st.reply_panics(&r));
        st.resume(r);
    }
    assert!(st.reply_panics(&Reply::ConnectionError));
    assert!(!st.reply_panics(&Reply::Done));
}
