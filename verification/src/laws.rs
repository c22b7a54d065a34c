use vstd::prelude::*;
use crate::model::{
    tag_requests, find_frame, find_window, frame_requests_from, lemma_find_window,
    lemma_unique_remove, managed, new_client, on_event, on_reply, run_then,
    windows_unique, wm_wf, Client, TaskState, Then, WmState,
};
use crate::requests::{reply_error, Event, Output, Reply, Request};
use crate::tags::{has_tag, shares_tag, TagSet};

verus! {

/// The state with no event in progress.
pub open spec fn idle(s: WmState) -> WmState {
    WmState { task: TaskState::Idle, ..s }
}

/// A map request for a window that already is a client only maps the window
/// again: nothing is framed, and once the server has done it the clients are
/// as before.
pub proof fn law_map_request_of_client(s: WmState, window: u32)
    requires
        wm_wf(s),
        s.task is Idle,
        managed(s.clients, window),
    ensures
        on_event(s, Event::MapRequest { window }).1 == Output::Send(Request::MapWindow { window }),
        on_reply(on_event(s, Event::MapRequest { window }).0, Reply::Done) == (
            idle(s),
            Output::Finished(Ok(())),
        ),
{
    lemma_find_window(s.clients, window);
    let s1 = on_event(s, Event::MapRequest { window }).0;
    assert(on_reply(s1, Reply::Done).0 =~= idle(s));
}

/// A dock window is mapped as it is, never framed: when any byte of the
/// window-type value (at any position, the first included) equals the low byte
/// of the dock atom, the window is only mapped and does not become a client.
pub proof fn law_dock_not_managed(s: WmState, window: u32, value: Vec<u8>, i: int)
    requires
        s.task == (TaskState::AwaitWindowType { window }),
        0 <= i < value@.len(),
        value@[i] == crate::model::net(s, crate::ewmh::Net::WMWindowTypeDock) as u8,
    ensures
        on_reply(s, Reply::Property(value)).1 == Output::Send(Request::MapWindow { window }),
        on_reply(on_reply(s, Reply::Property(value)).0, Reply::Done) == (
            idle(s),
            Output::Finished(Ok(())),
        ),
{
    let s1 = on_reply(s, Reply::Property(value)).0;
    assert(on_reply(s1, Reply::Done).0 =~= idle(s));
}

/// A window whose type value holds no byte equal to the low byte of the dock
/// atom is framed: its frame extents are set first.
pub proof fn law_non_dock_is_framed(s: WmState, window: u32, value: Vec<u8>)
    requires
        s.task == (TaskState::AwaitWindowType { window }),
        forall|i: int|
            0 <= i < value@.len() ==> value@[i] != crate::model::net(
                s,
                crate::ewmh::Net::WMWindowTypeDock,
            ) as u8,
    ensures
        on_reply(s, Reply::Property(value)).1 == Output::Send(
            Request::SetFrameExtents {
                window,
                property: crate::model::net(s, crate::ewmh::Net::FrameExtents),
                width: s.config.border_width,
            },
        ),
{
}

/// A framed window becomes the last client, with the tags shown at that time,
/// not fullscreen, and it gets the focus.
pub proof fn law_manage_focuses_new_client(s: WmState, window: u32, frame: u32)
    ensures
        ({
            let s2 = run_then(s, Then::Manage { window, frame }).0;
            &&& s2.clients == s.clients.push(new_client(s, window, frame))
            &&& s2.focused == Some(s.clients.len() as usize)
            &&& s2.clients[s.clients.len() as int].window == window
            &&& s2.clients[s.clients.len() as int].tags == s.tags
            &&& !s2.clients[s.clients.len() as int].fullscreen
        }),
{
}

/// Once an unmap (or destroy) notification for a client has been handled, the
/// window is no longer a client; the other clients stay, in their order.
pub proof fn law_unmap_forgets_window(s: WmState, window: u32, destroy: bool)
    requires
        wm_wf(s),
        s.task is Idle,
        managed(s.clients, window),
        s.clients.len() <= usize::MAX,
    ensures
        ({
            let ev = if destroy {
                Event::DestroyNotify { window }
            } else {
                Event::UnmapNotify { window }
            };
            let s1 = on_event(s, ev).0;
            let s2 = on_reply(s1, Reply::Done).0;
            let i = find_window(s.clients, window)->0;
            let frame = s.clients[i].frame;
            &&& 0 <= i < s.clients.len()
            &&& s.clients[i].window == window
            &&& on_event(s, ev).1 == Output::Send(
                if destroy {
                    Request::DestroyWindow { window: frame }
                } else {
                    Request::UnmapWindow { window: frame }
                },
            )
            &&& on_reply(s1, Reply::Done).1 == Output::Finished(Ok(()))
            &&& s2.clients == s.clients.remove(i)
            &&& !managed(s2.clients, window)
            &&& windows_unique(s2.clients)
        }),
{
    lemma_find_window(s.clients, window);
    let i = find_window(s.clients, window)->0;
    let r = s.clients.remove(i);
    lemma_unique_remove(s.clients, i);
    if managed(r, window) {
        let k = choose|k: int| 0 <= k < r.len() && #[trigger] r[k].window == window;
        let k2 = if k < i { k } else { k + 1 };
        assert(r[k] == s.clients[k2]);
        assert(s.clients[k2].window == s.clients[i].window);
    }
}

/// Events about windows that are not clients are refused with an error and
/// change nothing.
pub proof fn law_non_client_events_change_nothing(s: WmState, id: u32, ev: Event)
    requires
        s.task is Idle,
        match ev {
            Event::ButtonPress { child, .. } => child == id && find_frame(s.clients, id) is None,
            Event::MotionNotify { child, .. } => child == id && find_frame(s.clients, id) is None
                && s.mouse_move_start is None,
            Event::UnmapNotify { window } => window == id && !managed(s.clients, id),
            Event::DestroyNotify { window } => window == id && !managed(s.clients, id),
            Event::ConfigureNotify { window, .. } => window == id && !managed(s.clients, id),
            _ => false,
        },
    ensures
        on_event(s, ev).0 == s,
        on_event(s, ev).1 matches Output::Finished(Err(_)),
{
    lemma_find_window(s.clients, id);
    assert(on_event(s, ev).0 =~= s);
}

/// When a queued request fails, the event ends there with the request's error:
/// nothing else is sent and the state is left as it was.
pub proof fn law_failed_request_aborts(s: WmState, r: Reply)
    requires
        s.task is Batch,
        r != Reply::Done,
    ensures
        on_reply(s, r) == (idle(s), Output::Finished(Err(reply_error(r)))),
{
}

/// The requests for one frame after a tag change are unmaps of that frame,
/// except the last, which maps the frame exactly when the client holds a tag
/// that is shown (and unmaps it otherwise).
pub proof fn law_frame_follows_tags(c: Client, view: TagSet)
    ensures
        frame_requests_from(c, view, 0).len() > 0,
        forall|k: int|
            0 <= k < frame_requests_from(c, view, 0).len() - 1 ==> #[trigger] frame_requests_from(
                c,
                view,
                0,
            )[k] == (Request::UnmapWindow { window: c.frame }),
        frame_requests_from(c, view, 0).last() == (if shares_tag(c.tags, view) {
            (Request::MapWindow { window: c.frame })
        } else {
            (Request::UnmapWindow { window: c.frame })
        }),
{
    lemma_frame_requests_from(c, view, 0);
    if shares_tag(c.tags, view) {
        let j = choose|j: int| 0 <= j < 9 && #[trigger] has_tag(c.tags, j) && has_tag(view, j);
        assert(has_tag(view, j) && has_tag(c.tags, j));
    }
}

proof fn lemma_frame_requests_from(c: Client, view: TagSet, j: int)
    requires
        0 <= j <= 9,
    ensures
        j < 9 ==> frame_requests_from(c, view, j).len() > 0,
        forall|k: int|
            0 <= k < frame_requests_from(c, view, j).len() - 1 ==> #[trigger] frame_requests_from(
                c,
                view,
                j,
            )[k] == (Request::UnmapWindow { window: c.frame }),
        j < 9 ==> frame_requests_from(c, view, j).last() == (if (exists|m: int|
            j <= m < 9 && #[trigger] has_tag(view, m) && has_tag(c.tags, m)) {
            (Request::MapWindow { window: c.frame })
        } else {
            (Request::UnmapWindow { window: c.frame })
        }),
    decreases 9 - j,
{
    if j < 9 {
        lemma_frame_requests_from(c, view, j + 1);
        let rest = frame_requests_from(c, view, j + 1);
        if !(has_tag(view, j) && has_tag(c.tags, j)) {
            let all = frame_requests_from(c, view, j);
            assert(all == seq![(Request::UnmapWindow { window: c.frame })] + rest);
            assert forall|k: int| 0 <= k < all.len() - 1 implies #[trigger] all[k]
                == (Request::UnmapWindow { window: c.frame }) by {
                if k > 0 {
                    assert(all[k] == rest[k - 1]);
                }
            }
            if exists|m: int| j <= m < 9 && #[trigger] has_tag(view, m) && has_tag(c.tags, m) {
                let m = choose|m: int| j <= m < 9 && #[trigger] has_tag(view, m) && has_tag(c.tags, m);
                assert(m != j);
                assert(j + 1 <= m < 9 && has_tag(view, m) && has_tag(c.tags, m));
            }
            if j + 1 < 9 {
                assert(all.last() == rest.last());
            }
        } else {
            assert(has_tag(view, j) && has_tag(c.tags, j));
        }
    }
}

/// Killing the active client targets the window of the focused client.
pub proof fn law_kill_targets_focused(s: WmState, window: u32, data: [u32; 5])
    requires
        s.task is Idle,
        data@[0] == 1,
        s.focused matches Some(f) && f < s.clients.len(),
        crate::model::net(s, crate::ewmh::Net::WMState) != s.ipc_atoms@[0],
    ensures
        on_event(
            s,
            Event::ClientMessage { window, type_: s.ipc_atoms@[0], format: 32, data },
        ).1 == Output::Send(Request::KillClient { window: s.clients[s.focused->0 as int].window }),
{
}

/// A client taken back from fullscreen is put where it was before: its frame
/// goes back to the saved position and the window to the saved size, and the
/// saved geometry is cleared once that is done.
pub proof fn law_unfullscreen_restores(s: WmState, window: u32, data: [u32; 5])
    requires
        wm_wf(s),
        s.task is Idle,
        data@[1] == crate::model::net(s, crate::ewmh::Net::WMStateFullScreen),
        managed(s.clients, window),
        s.clients.len() <= usize::MAX,
        ({
            let c = s.clients[find_window(s.clients, window)->0];
            &&& c.before_geom is Some
            &&& (data@[0] != 1 || c.fullscreen)
        }),
    ensures
        ({
            let i = find_window(s.clients, window)->0;
            let c = s.clients[i];
            let g = c.before_geom->0;
            let ev = Event::ClientMessage {
                window,
                type_: crate::model::net(s, crate::ewmh::Net::WMState),
                format: 32,
                data,
            };
            let s1 = on_event(s, ev).0;
            let s2 = on_reply(s1, Reply::Done).0;
            let s3 = on_reply(s2, Reply::Done).0;
            let s4 = on_reply(s3, Reply::Done);
            &&& on_event(s, ev).1 == Output::Send(
                Request::Configure {
                    window: c.frame,
                    changes: crate::geometry::WindowChanges {
                        x: Some(g.x as i32),
                        y: Some(g.y as i32),
                        width: Some(g.width as u32),
                        height: Some(g.height as u32),
                        border_width: Some(s.config.border_width),
                        stack_above: false,
                    },
                    checked: false,
                },
            )
            &&& on_reply(s1, Reply::Done).1 == Output::Send(
                Request::Configure {
                    window,
                    changes: crate::geometry::WindowChanges {
                        x: Some(0),
                        y: Some(0),
                        width: Some(g.width as u32),
                        height: Some(g.height as u32),
                        border_width: Some(0),
                        stack_above: false,
                    },
                    checked: false,
                },
            )
            &&& on_reply(s2, Reply::Done).1 == Output::Send(
                Request::SetWmState {
                    window,
                    property: crate::model::net(s, crate::ewmh::Net::WMState),
                    state: None,
                },
            )
            &&& s4.1 == Output::Finished(Ok(()))
            &&& s4.0.clients[i].before_geom is None
            &&& !s4.0.clients[i].fullscreen
            &&& s4.0.clients[i].window == window
            &&& s4.0.clients.len() == s.clients.len()
        }),
{
    lemma_find_window(s.clients, window);
}

/// A client going fullscreen saves its frame's position and its window's size.
pub proof fn law_fullscreen_saves_geometry(
    s: WmState,
    index: usize,
    screen_width: u32,
    screen_height: u32,
    window_geom: crate::geometry::WindowGeometry,
    frame_geom: crate::geometry::WindowGeometry,
)
    requires
        wm_wf(s),
        s.task == (TaskState::AwaitFrameGeometry { index, screen_width, screen_height, window_geom }),
    ensures
        on_reply(s, Reply::Geometry(frame_geom)).0.clients[index as int].before_geom == Some(
            crate::geometry::WindowGeometry {
                x: frame_geom.x,
                y: frame_geom.y,
                width: window_geom.width,
                height: window_geom.height,
            },
        ),
{
}

/// An event's handling is over exactly when the window manager says so: after
/// a request is sent it waits for the reply, after the outcome it is idle.
pub proof fn law_idle_exactly_when_finished(s: WmState, ev: Event, r: Reply)
    ensures
        on_event(s, ev).1 is Finished <==> on_event(s, ev).0.task is Idle,
        on_reply(s, r).1 is Finished <==> on_reply(s, r).0.task is Idle,
{
}

/// Switching tags changes only which tags are shown: the clients keep the
/// tags they had (a window's tags are its own, set when it was framed).
pub proof fn law_switch_tag_keeps_clients(s: WmState, window: u32, data: [u32; 5])
    requires
        s.task is Idle,
        data@[0] == 2,
        1 <= data@[1] <= 9,
        crate::model::net(s, crate::ewmh::Net::WMState) != s.ipc_atoms@[0],
    ensures
        ({
            let s2 = on_event(
                s,
                Event::ClientMessage { window, type_: s.ipc_atoms@[0], format: 32, data },
            ).0;
            let out = on_event(
                s,
                Event::ClientMessage { window, type_: s.ipc_atoms@[0], format: 32, data },
            ).1;
            &&& s2.clients == s.clients
            &&& s2.focused == s.focused
            &&& forall|j: int| 0 <= j < 9 ==> #[trigger] s2.tags.data@[j] == (j == data@[1] - 1)
            &&& if s.clients.len() == 0 {
                out == Output::Finished(Ok(())) && s2.task is Idle
            } else {
                &&& s2.task matches TaskState::Batch { queue, next, then } && queue == tag_requests(
                    s.clients,
                    s2.tags,
                ) && next == 1 && then == Then::Finish
                &&& out == Output::Send(tag_requests(s.clients, s2.tags)[0])
            }
        }),
{
    crate::tags::lemma_tags_only(data@[1] - 1);
    if s.clients.len() > 0 {
        let v = crate::tags::tags_only(data@[1] - 1);
        law_tag_switch_walks_every_client(s.clients, v);
        law_frame_follows_tags(s.clients.last(), v);
        assert(tag_requests(s.clients, v).len() > 0);
    }
}

/// The requests of a tag change walk every client, in list order, none
/// skipped: the requests for the first `i + 1` clients are those for the first
/// `i` followed by the frame walk of client `i`. So every client that shares a
/// shown tag gets its frame mapped, every other client gets its frame unmapped,
/// and each request concerns the frame of some client.
pub proof fn law_tag_switch_walks_every_client(clients: Seq<Client>, view: TagSet)
    ensures
        forall|i: int|
            0 <= i < clients.len() ==> #[trigger] tag_requests(clients.take(i + 1), view)
                == tag_requests(clients.take(i), view) + frame_requests_from(clients[i], view, 0),
        forall|i: int|
            0 <= i < clients.len() ==> (if shares_tag(#[trigger] clients[i].tags, view) {
                tag_requests(clients, view).contains(Request::MapWindow { window: clients[i].frame })
            } else {
                tag_requests(clients, view).contains(Request::UnmapWindow { window: clients[i].frame })
            }),
        forall|k: int|
            0 <= k < tag_requests(clients, view).len() ==> exists|i: int|
                0 <= i < clients.len() && (#[trigger] tag_requests(clients, view)[k]
                    == (Request::MapWindow { window: clients[i].frame }) || tag_requests(clients, view)[k]
                    == (Request::UnmapWindow { window: clients[i].frame })),
    decreases clients.len(),
{
    assert forall|i: int| 0 <= i < clients.len() implies #[trigger] tag_requests(clients.take(i + 1), view)
        == tag_requests(clients.take(i), view) + frame_requests_from(clients[i], view, 0) by {
        assert(clients.take(i + 1).drop_last() =~= clients.take(i));
    }
    if clients.len() > 0 {
        let init = clients.drop_last();
        let c = clients.last();
        law_tag_switch_walks_every_client(init, view);
        law_frame_follows_tags(c, view);
        let head = tag_requests(init, view);
        let walk = frame_requests_from(c, view, 0);
        let all = tag_requests(clients, view);
        assert(all == head + walk);
        assert forall|i: int| 0 <= i < clients.len() implies (if shares_tag(#[trigger] clients[i].tags, view) {
            all.contains(Request::MapWindow { window: clients[i].frame })
        } else {
            all.contains(Request::UnmapWindow { window: clients[i].frame })
        }) by {
            if i < init.len() {
                assert(clients[i] == init[i]);
                let r = if shares_tag(clients[i].tags, view) {
                    (Request::MapWindow { window: clients[i].frame })
                } else {
                    (Request::UnmapWindow { window: clients[i].frame })
                };
                assert(head.contains(r));
                let k = choose|k: int| 0 <= k < head.len() && head[k] == r;
                assert(all[k] == r);
            } else {
                assert(clients[i] == c);
                assert(all[all.len() - 1] == walk.last());
            }
        }
        assert forall|k: int| 0 <= k < all.len() implies exists|i: int|
            0 <= i < clients.len() && (#[trigger] all[k] == (Request::MapWindow { window: clients[i].frame }) || all[k] == (Request::UnmapWindow { window: clients[i].frame })) by {
            if k < head.len() {
                assert(all[k] == head[k]);
                let i = choose|i: int|
                    0 <= i < init.len() && (#[trigger] head[k] == (Request::MapWindow { window: init[i].frame }) || head[k] == (Request::UnmapWindow { window: init[i].frame }));
                assert(clients[i] == init[i]);
            } else {
                assert(all[k] == walk[k - head.len()]);
                assert(clients[clients.len() - 1] == c);
                if k - head.len() < walk.len() - 1 {
                    assert(walk[k - head.len()] == (Request::UnmapWindow { window: c.frame }));
                }
            }
        }
    }
}

/// A client's ConfigureRequest is passed on checked, to the same window, and
/// each of position, size and border width is carried over from the event's own
/// field exactly when its bit is set in the mask; nothing is restacked.
pub proof fn law_configure_request_passes_fields(
    s: WmState,
    window: u32,
    value_mask: u16,
    x: i16,
    y: i16,
    width: u16,
    height: u16,
    border_width: u16,
)
    requires
        s.task is Idle,
    ensures
        match on_event(
            s,
            Event::ConfigureRequest { window, value_mask, x, y, width, height, border_width },
        ).1 {
            Output::Send(Request::Configure { window: w, changes, checked }) => {
                &&& w == window
                &&& checked
                &&& !changes.stack_above
                &&& changes.x == (if value_mask & 1 != 0 { Some(x as i32) } else { None })
                &&& changes.y == (if value_mask & 2 != 0 { Some(y as i32) } else { None })
                &&& changes.width == (if value_mask & 4 != 0 { Some(width as u32) } else { None })
                &&& changes.height == (if value_mask & 8 != 0 { Some(height as u32) } else { None })
                &&& changes.border_width == (if value_mask & 16 != 0 {
                    Some(border_width as u32)
                } else {
                    None
                })
            },
            _ => false,
        },
{
}

/// The requests queued by a frame-setting command: for each client, in order,
/// the request made by `req` for that client's frame.
pub open spec fn queued_for_each_frame(
    s2: WmState,
    out: Output,
    clients: Seq<Client>,
    req: spec_fn(u32) -> Request,
) -> bool {
    if clients.len() == 0 {
        out == Output::Finished(Ok(())) && s2.task is Idle
    } else {
        match s2.task {
            TaskState::Batch { queue, next, then } => {
                &&& queue.len() == clients.len()
                &&& forall|i: int| 0 <= i < clients.len() ==> #[trigger] queue[i] == req(clients[i].frame)
                &&& out == Output::Send(queue[0])
                &&& next == 1
                &&& then == Then::Finish
            },
            _ => false,
        }
    }
}

/// The swim commands that change the frames' look set the setting and change it
/// on every client's frame, in order: BorderPixel the border colour,
/// BorderWidth the border width, BackgroundPixel the background colour (and
/// nothing else of the settings).
pub proof fn law_frame_settings_commands(s: WmState, window: u32, data: [u32; 5])
    requires
        s.task is Idle,
        3 <= data@[0] <= 5,
        crate::model::net(s, crate::ewmh::Net::WMState) != s.ipc_atoms@[0],
    ensures
        ({
            let (s2, out) = on_event(
                s,
                Event::ClientMessage { window, type_: s.ipc_atoms@[0], format: 32, data },
            );
            let v = data@[1];
            &&& s2.clients == s.clients
            &&& (data@[0] == 3 ==> {
                &&& s2.config == (crate::model::Config { border_pixel: v, ..s.config })
                &&& queued_for_each_frame(
                    s2,
                    out,
                    s.clients,
                    |f: u32| Request::SetBorderPixel { window: f, pixel: v },
                )
            })
            &&& (data@[0] == 4 ==> {
                &&& s2.config == (crate::model::Config { border_width: v, ..s.config })
                &&& queued_for_each_frame(
                    s2,
                    out,
                    s.clients,
                    |f: u32|
                        Request::Configure {
                            window: f,
                            changes: crate::geometry::WindowChanges {
                                x: None,
                                y: None,
                                width: None,
                                height: None,
                                border_width: Some(v),
                                stack_above: false,
                            },
                            checked: true,
                        },
                )
            })
            &&& (data@[0] == 5 ==> {
                &&& s2.config == (crate::model::Config { background_pixel: v, ..s.config })
                &&& queued_for_each_frame(
                    s2,
                    out,
                    s.clients,
                    |f: u32| Request::SetBackgroundPixel { window: f, pixel: v },
                )
            })
        }),
{
}

/// An array holds any sequence of its length.
proof fn lemma_ipc_array(v: Seq<u32>)
    requires
        v.len() == 6,
    ensures
        crate::setup::ipc_array(v)@ == v,
{
    let a: [u32; 6] = [v[0], v[1], v[2], v[3], v[4], v[5]];
    assert(a@ =~= v);
}

proof fn lemma_net_array(v: Seq<u32>)
    requires
        v.len() == 8,
    ensures
        crate::setup::net_array(v)@ == v,
{
    let a: [u32; 8] = [v[0], v[1], v[2], v[3], v[4], v[5], v[6], v[7]];
    assert(a@ =~= v);
}

/// When startup ends, the window manager's IPC atoms are the interned ones in
/// the order they were interned: position `k` holds the atom of the `k`-th IPC
/// name, so position 0 is the atom of `_SWIM_CLIENT_MESSAGE`.
pub proof fn law_startup_keeps_ipc_atom_order(st: crate::setup::StartupState, v: Vec<u32>)
    requires
        st.stage == crate::setup::Stage::IpcAtoms,
        v@.len() == 6,
    ensures
        crate::setup::startup_step(st, Reply::Atoms(v)) matches crate::setup::StartupStep::Ready(ipc)
            && forall|k: int| 0 <= k < 6 ==> #[trigger] crate::setup::ipc_array(ipc)@[k] == v@[k],
{
    lemma_ipc_array(v@);
}

/// The interned EWMH atoms are kept in the order they were interned, and the
/// request that follows names the `_NET_SUPPORTING_WM_CHECK` atom (the second).
pub proof fn law_startup_keeps_net_atom_order(st: crate::setup::StartupState, v: Vec<u32>)
    requires
        st.stage == crate::setup::Stage::NetAtoms,
        v@.len() == 8,
    ensures
        match crate::setup::startup_step(st, Reply::Atoms(v)) {
            crate::setup::StartupStep::Send(req, st2) => {
                &&& forall|k: int| 0 <= k < 8 ==> #[trigger] st2.net_atoms@[k] == v@[k]
                &&& req == (Request::SetSupportingWmCheck { root: st.root, property: v@[1] })
            },
            _ => false,
        },
{
    lemma_net_array(v@);
}

} // verus!
