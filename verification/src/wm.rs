use vstd::prelude::*;
use crate::ewmh::Net;
use crate::geometry::{
    border, check_drag_overflow, drag_geometry, from_configure_request, place, raise, resize,
    MouseMoveStart, WindowGeometry,
};
use crate::ipc::IPC;
use crate::model::{
    background_pixel_requests, border_pixel_requests, border_width_requests, drag_panics,
    event_panics, find_from, finish, frame_requests, frame_requests_from,
    fullscreen_requests, initial_config, is_dock, key_matches, lemma_find_frame, lemma_find_window,
    lemma_unique_push, lemma_unique_remove, lemma_unique_update, manage_requests,
    motion_drag, net, on_button_press, on_client_message, on_command, on_event,
    on_fullscreen_message, on_map_request, on_motion_notify, on_reply, reply_panics,
    restore_requests, run_then, send, start_batch, tag_requests, then_wf, windows_unique, wm_wf,
    Client, Config,
    TaskState, Then, WmState,
};
use crate::requests::{error_of, Event, Output, Reply, Request, WmError};
use crate::tags::{TagSet, TAG_COUNT};

verus! {

/// The event in progress, with the requests still to send.
enum Task {
    Idle,
    Batch { queue: Vec<Request>, next: usize, then: Then },
    AwaitWindowType { window: u32 },
    AwaitMapGeometry { window: u32 },
    AwaitFrameId { window: u32, geom: WindowGeometry },
    AwaitPressGeometry { index: usize, child: u32, root_x: i16, root_y: i16, detail: u8 },
    AwaitFocus { child: u32, root_x: i16, root_y: i16 },
    AwaitScreenSize { index: usize },
    AwaitWindowGeometry { index: usize, screen_width: u32, screen_height: u32 },
    AwaitFrameGeometry {
        index: usize,
        screen_width: u32,
        screen_height: u32,
        window_geom: WindowGeometry,
    },
}

spec fn task_view(t: &Task) -> TaskState {
    match *t {
        Task::Idle => TaskState::Idle,
        Task::Batch { queue, next, then } => TaskState::Batch { queue: queue@, next, then },
        Task::AwaitWindowType { window } => TaskState::AwaitWindowType { window },
        Task::AwaitMapGeometry { window } => TaskState::AwaitMapGeometry { window },
        Task::AwaitFrameId { window, geom } => TaskState::AwaitFrameId { window, geom },
        Task::AwaitPressGeometry { index, child, root_x, root_y, detail } =>
            TaskState::AwaitPressGeometry { index, child, root_x, root_y, detail },
        Task::AwaitFocus { child, root_x, root_y } => TaskState::AwaitFocus {
            child,
            root_x,
            root_y,
        },
        Task::AwaitScreenSize { index } => TaskState::AwaitScreenSize { index },
        Task::AwaitWindowGeometry { index, screen_width, screen_height } =>
            TaskState::AwaitWindowGeometry { index, screen_width, screen_height },
        Task::AwaitFrameGeometry { index, screen_width, screen_height, window_geom } =>
            TaskState::AwaitFrameGeometry { index, screen_width, screen_height, window_geom },
    }
}

/// The window manager: its clients, settings and the event it is handling.
pub struct WindowManager {
    root: u32,
    button_press_geometry: Option<WindowGeometry>,
    mouse_move_start: Option<MouseMoveStart>,
    clients: Vec<Client>,
    net_atoms: [u32; 8],
    ipc_atoms: [u32; 6],
    config: Config,
    tags: TagSet,
    focused: Option<usize>,
    task: Task,
}

impl View for WindowManager {
    type V = WmState;

    closed spec fn view(&self) -> WmState {
        WmState {
            root: self.root,
            button_press_geometry: self.button_press_geometry,
            mouse_move_start: self.mouse_move_start,
            clients: self.clients@,
            net_atoms: self.net_atoms,
            ipc_atoms: self.ipc_atoms,
            config: self.config,
            tags: self.tags,
            focused: self.focused,
            task: task_view(&self.task),
        }
    }
}

/// The state of a freshly set up window manager.
pub open spec fn initial_state(root: u32, net_atoms: [u32; 8], ipc_atoms: [u32; 6]) -> WmState {
    WmState {
        root,
        button_press_geometry: None,
        mouse_move_start: None,
        clients: Seq::empty(),
        net_atoms,
        ipc_atoms,
        config: initial_config(),
        tags: TagSet { data: [true, false, false, false, false, false, false, false, false] },
        focused: None,
        task: TaskState::Idle,
    }
}

impl WindowManager {
    /// A window manager for the given root window and interned atoms, with no
    /// clients, the default settings and the first tag shown.
    pub fn with_atoms(root: u32, net_atoms: [u32; 8], ipc_atoms: [u32; 6]) -> (r: WindowManager)
        ensures
            r@ == initial_state(root, net_atoms, ipc_atoms),
            wm_wf(r@),
    {
        let r = WindowManager {
            root,
            button_press_geometry: None,
            mouse_move_start: None,
            clients: Vec::new(),
            net_atoms,
            ipc_atoms,
            config: Config { border_width: 0, border_pixel: 0x547A97, background_pixel: 0xCA37A0 },
            tags: TagSet { data: [true, false, false, false, false, false, false, false, false] },
            focused: None,
            task: Task::Idle,
        };
        assert(r@ =~= initial_state(root, net_atoms, ipc_atoms));
        r
    }

    /// Whether no event is being handled.
    pub fn is_idle(&self) -> (r: bool)
        ensures
            r == (self@.task is Idle),
    {
        match self.task {
            Task::Idle => true,
            _ => false,
        }
    }

    fn net(&self, n: Net) -> (r: u32)
        ensures
            r == net(self@, n),
    {
        self.net_atoms[n.index()]
    }

    fn finish(&mut self, r: Result<(), WmError>) -> (out: Output)
        ensures
            final(self)@ == finish(old(self)@, r).0,
            out == finish(old(self)@, r).1,
    {
        self.task = Task::Idle;
        Output::Finished(r)
    }

    fn send(&mut self, task: Task, req: Request) -> (out: Output)
        ensures
            final(self)@ == send(old(self)@, task_view(&task), req).0,
            out == send(old(self)@, task_view(&task), req).1,
    {
        self.task = task;
        Output::Send(req)
    }

    fn take_task(&mut self) -> (t: Task)
        ensures
            task_view(&t) == old(self)@.task,
            final(self)@ == (WmState { task: TaskState::Idle, ..old(self)@ }),
    {
        let mut t = Task::Idle;
        std::mem::swap(&mut t, &mut self.task);
        t
    }

    /// The first client, from index `0` on, with the given frame or window.
    fn find(&self, by_frame: bool, id: u32) -> (r: Option<usize>)
        ensures
            match r {
                Some(i) => find_from(self@.clients, by_frame, id, 0) == Some(i as int),
                None => find_from(self@.clients, by_frame, id, 0) is None,
            },
    {
        let mut i: usize = 0;
        while i < self.clients.len()
            invariant
                i <= self.clients@.len(),
                find_from(self@.clients, by_frame, id, 0) == find_from(
                    self@.clients,
                    by_frame,
                    id,
                    i as int,
                ),
            decreases self.clients@.len() - i,
        {
            let c = self.clients[i];
            let hit = if by_frame {
                c.frame == id
            } else {
                c.window == id
            };
            if hit {
                assert(key_matches(self@.clients[i as int], by_frame, id));
                return Some(i);
            }
            i = i + 1;
        }
        None
    }

    fn run_then(&mut self, then: Then) -> (out: Output)
        requires
            windows_unique(old(self)@.clients),
            then_wf(old(self)@, then),
        ensures
            final(self)@ == run_then(old(self)@, then).0,
            out == run_then(old(self)@, then).1,
            wm_wf(final(self)@),
    {
        match then {
            Then::Finish => self.finish(Ok(())),
            Then::QueryMapGeometry { window } => self.send(
                Task::AwaitMapGeometry { window },
                Request::GetGeometry { window },
            ),
            Then::Manage { window, frame } => {
                let c = Client { window, frame, fullscreen: false, before_geom: None, tags: self.tags };
                proof {
                    lemma_unique_push(self@.clients, c);
                }
                let n = self.clients.len();
                self.clients.push(c);
                self.focused = Some(n);
                let mut queue: Vec<Request> = Vec::new();
                queue.push(Request::SetInputFocus { window });
                queue.push(Request::Configure { window: frame, changes: raise(), checked: false });
                assert(queue@ =~= manage_requests(window, frame));
                let first = queue[0];
                self.send(Task::Batch { queue, next: 1, then: Then::Finish }, first)
            },
            Then::QueryPressGeometry { index, child, root_x, root_y, detail } => self.send(
                Task::AwaitPressGeometry { index, child, root_x, root_y, detail },
                Request::GetGeometry { window: child },
            ),
            Then::ForgetClient { index } => {
                proof {
                    lemma_unique_remove(self@.clients, index as int);
                }
                self.clients.remove(index);
                self.finish(Ok(()))
            },
            Then::ClearSavedGeometry { index } => {
                let mut c = self.clients[index];
                c.before_geom = None;
                proof {
                    lemma_unique_update(self@.clients, index as int, c);
                }
                self.clients.set(index, c);
                self.finish(Ok(()))
            },
        }
    }

    fn start_batch(&mut self, queue: Vec<Request>, then: Then) -> (out: Output)
        requires
            windows_unique(old(self)@.clients),
            then_wf(old(self)@, then),
        ensures
            final(self)@ == start_batch(old(self)@, queue@, then).0,
            out == start_batch(old(self)@, queue@, then).1,
            wm_wf(final(self)@),
    {
        if queue.len() == 0 {
            self.run_then(then)
        } else {
            let first = queue[0];
            self.send(Task::Batch { queue, next: 1, then }, first)
        }
    }

    /// A one-request queue.
    fn single(req: Request) -> (q: Vec<Request>)
        ensures
            q@ == seq![req],
    {
        let mut q: Vec<Request> = Vec::new();
        q.push(req);
        assert(q@ =~= seq![req]);
        q
    }

    fn handle_map_request(&mut self, window: u32) -> (out: Output)
        requires
            wm_wf(old(self)@),
            old(self)@.task is Idle,
        ensures
            final(self)@ == on_map_request(old(self)@, window).0,
            out == on_map_request(old(self)@, window).1,
            wm_wf(final(self)@),
    {
        proof {
            lemma_find_window(self@.clients, window);
        }
        match self.find(false, window) {
            Some(_) => self.start_batch(Self::single(Request::MapWindow { window }), Then::Finish),
            None => {
                let property = self.net(Net::WMWindowType);
                self.send(Task::AwaitWindowType { window }, Request::GetWindowType { window, property })
            },
        }
    }

    fn handle_button_press(&mut self, child: u32, root_x: i16, root_y: i16, detail: u8) -> (out:
        Output)
        requires
            wm_wf(old(self)@),
            old(self)@.task is Idle,
        ensures
            final(self)@ == on_button_press(old(self)@, child, root_x, root_y, detail).0,
            out == on_button_press(old(self)@, child, root_x, root_y, detail).1,
            wm_wf(final(self)@),
    {
        proof {
            lemma_find_frame(self@.clients, child);
        }
        match self.find(true, child) {
            None => self.finish(Err(WmError::PressOnNonClient)),
            Some(i) => {
                let c = self.clients[i];
                let mut queue: Vec<Request> = Vec::new();
                queue.push(Request::SetInputFocus { window: c.window });
                queue.push(Request::Configure { window: c.frame, changes: raise(), checked: false });
                assert(queue@ =~= seq![
                    Request::SetInputFocus { window: c.window },
                    Request::Configure { window: c.frame, changes: crate::geometry::raise_changes(), checked: false },
                ]);
                self.start_batch(
                    queue,
                    Then::QueryPressGeometry { index: i, child, root_x, root_y, detail },
                )
            },
        }
    }

    fn motion_drag(&mut self, child: u32, root_x: i16, root_y: i16) -> (out: Output)
        requires
            windows_unique(old(self)@.clients),
            !drag_panics(old(self)@, child, root_x, root_y),
        ensures
            final(self)@ == motion_drag(old(self)@, child, root_x, root_y).0,
            out == motion_drag(old(self)@, child, root_x, root_y).1,
            wm_wf(final(self)@),
    {
        proof {
            lemma_find_frame(self@.clients, child);
        }
        match self.find(true, child) {
            None => self.finish(Err(WmError::MotionOnNonClient)),
            Some(i) => {
                let c = self.clients[i];
                if c.fullscreen {
                    self.finish(Err(WmError::MotionOnFullscreen))
                } else {
                    match self.mouse_move_start {
                        None => self.finish(Err(WmError::NoMoveStart)),
                        Some(m) => match self.button_press_geometry {
                            None => self.finish(Err(WmError::NoPressGeometry)),
                            Some(g) => {
                                let (x, y, w, h) = drag_geometry(m, g, root_x, root_y);
                                let mut queue: Vec<Request> = Vec::new();
                                queue.push(
                                    Request::Configure {
                                        window: c.frame,
                                        changes: place(x, y, w as u32, h as u32, None),
                                        checked: false,
                                    },
                                );
                                queue.push(
                                    Request::Configure {
                                        window: c.window,
                                        changes: place(0, 0, w as u32, h as u32, None),
                                        checked: false,
                                    },
                                );
                                queue.push(
                                    Request::SendConfigureNotify {
                                        window: c.window,
                                        x: x as i16,
                                        y: y as i16,
                                        width: w as u16,
                                        height: h as u16,
                                    },
                                );
                                self.start_batch(queue, Then::Finish)
                            },
                        },
                    }
                }
            },
        }
    }

    fn handle_motion_notify(&mut self, child: u32, root_x: i16, root_y: i16) -> (out: Output)
        requires
            wm_wf(old(self)@),
            old(self)@.task is Idle,
            !crate::model::event_panics(old(self)@, Event::MotionNotify { child, root_x, root_y }),
        ensures
            final(self)@ == on_motion_notify(old(self)@, child, root_x, root_y).0,
            out == on_motion_notify(old(self)@, child, root_x, root_y).1,
            wm_wf(final(self)@),
    {
        match self.mouse_move_start {
            Some(m) => {
                if m.active_win != child {
                    self.mouse_move_start = Some(MouseMoveStart { active_win: child, ..m });
                    self.send(
                        Task::AwaitFocus { child, root_x, root_y },
                        Request::SetInputFocus { window: child },
                    )
                } else {
                    self.motion_drag(child, root_x, root_y)
                }
            },
            None => self.motion_drag(child, root_x, root_y),
        }
    }

    /// Appends the map/unmap requests for one client, from tag `j` on.
    fn push_frame_requests(q: &mut Vec<Request>, c: Client, view: TagSet, j: usize)
        requires
            j <= TAG_COUNT,
        ensures
            final(q)@ == old(q)@ + frame_requests_from(c, view, j as int),
        decreases TAG_COUNT - j,
    {
        if j >= TAG_COUNT {
            assert(old(q)@ + frame_requests_from(c, view, j as int) =~= old(q)@);
            return;
        }
        if view.data[j] && c.tags.data[j] {
            q.push(Request::MapWindow { window: c.frame });
            assert(q@ =~= old(q)@ + frame_requests_from(c, view, j as int));
        } else {
            q.push(Request::UnmapWindow { window: c.frame });
            Self::push_frame_requests(q, c, view, j + 1);
            assert(q@ =~= old(q)@ + frame_requests_from(c, view, j as int));
        }
    }

    /// The map and unmap requests that follow a change of the shown tags.
    fn tag_queue(&self) -> (q: Vec<Request>)
        ensures
            q@ == tag_requests(self@.clients, self@.tags),
    {
        let mut q: Vec<Request> = Vec::new();
        let mut i: usize = 0;
        while i < self.clients.len()
            invariant
                i <= self.clients@.len(),
                q@ == tag_requests(self@.clients.take(i as int), self@.tags),
            decreases self.clients@.len() - i,
        {
            let c = self.clients[i];
            Self::push_frame_requests(&mut q, c, self.tags, 0);
            assert(self@.clients.take(i + 1).drop_last() =~= self@.clients.take(i as int));
            i = i + 1;
        }
        assert(self@.clients.take(i as int) =~= self@.clients);
        q
    }

    fn border_pixel_queue(&self, pixel: u32) -> (q: Vec<Request>)
        ensures
            q@ == border_pixel_requests(self@.clients, pixel),
    {
        let mut q: Vec<Request> = Vec::new();
        let mut i: usize = 0;
        while i < self.clients.len()
            invariant
                i <= self.clients@.len(),
                q@ =~= border_pixel_requests(self@.clients.take(i as int), pixel),
            decreases self.clients@.len() - i,
        {
            q.push(Request::SetBorderPixel { window: self.clients[i].frame, pixel });
            i = i + 1;
            assert(q@ =~= border_pixel_requests(self@.clients.take(i as int), pixel));
        }
        assert(self@.clients.take(i as int) =~= self@.clients);
        q
    }

    fn border_width_queue(&self, width: u32) -> (q: Vec<Request>)
        ensures
            q@ == border_width_requests(self@.clients, width),
    {
        let mut q: Vec<Request> = Vec::new();
        let mut i: usize = 0;
        while i < self.clients.len()
            invariant
                i <= self.clients@.len(),
                q@ =~= border_width_requests(self@.clients.take(i as int), width),
            decreases self.clients@.len() - i,
        {
            q.push(
                Request::Configure {
                    window: self.clients[i].frame,
                    changes: border(width),
                    checked: true,
                },
            );
            i = i + 1;
            assert(q@ =~= border_width_requests(self@.clients.take(i as int), width));
        }
        assert(self@.clients.take(i as int) =~= self@.clients);
        q
    }

    fn background_pixel_queue(&self, pixel: u32) -> (q: Vec<Request>)
        ensures
            q@ == background_pixel_requests(self@.clients, pixel),
    {
        let mut q: Vec<Request> = Vec::new();
        let mut i: usize = 0;
        while i < self.clients.len()
            invariant
                i <= self.clients@.len(),
                q@ =~= background_pixel_requests(self@.clients.take(i as int), pixel),
            decreases self.clients@.len() - i,
        {
            q.push(Request::SetBackgroundPixel { window: self.clients[i].frame, pixel });
            i = i + 1;
            assert(q@ =~= background_pixel_requests(self@.clients.take(i as int), pixel));
        }
        assert(self@.clients.take(i as int) =~= self@.clients);
        q
    }

    fn fullscreen_message(&mut self, i: usize, data: [u32; 5]) -> (out: Output)
        requires
            wm_wf(old(self)@),
            old(self)@.task is Idle,
            i < old(self)@.clients.len(),
        ensures
            final(self)@ == on_fullscreen_message(old(self)@, i as int, data).0,
            out == on_fullscreen_message(old(self)@, i as int, data).1,
            wm_wf(final(self)@),
    {
        let c = self.clients[i];
        if data[0] == 1 && !c.fullscreen {
            let c2 = Client { fullscreen: true, ..c };
            proof {
                lemma_unique_update(self@.clients, i as int, c2);
            }
            self.clients.set(i, c2);
            self.send(Task::AwaitScreenSize { index: i }, Request::GetScreenSize { window: c.window })
        } else {
            let c2 = Client { fullscreen: false, ..c };
            proof {
                lemma_unique_update(self@.clients, i as int, c2);
            }
            let ghost s = self@;
            self.clients.set(i, c2);
            match c.before_geom {
                None => self.finish(Err(WmError::NoSavedGeometry)),
                Some(g) => {
                    let state = self.net(Net::WMState);
                    let mut queue: Vec<Request> = Vec::new();
                    queue.push(
                        Request::Configure {
                            window: c.frame,
                            changes: place(
                                g.x as i32,
                                g.y as i32,
                                g.width as u32,
                                g.height as u32,
                                Some(self.config.border_width),
                            ),
                            checked: false,
                        },
                    );
                    queue.push(
                        Request::Configure {
                            window: c.window,
                            changes: place(0, 0, g.width as u32, g.height as u32, Some(0)),
                            checked: false,
                        },
                    );
                    queue.push(Request::SetWmState { window: c.window, property: state, state: None });
                    assert(queue@ =~= restore_requests(s, c, g));
                    self.start_batch(queue, Then::ClearSavedGeometry { index: i })
                },
            }
        }
    }

    fn handle_command(&mut self, data: [u32; 5]) -> (out: Output)
        requires
            wm_wf(old(self)@),
            old(self)@.task is Idle,
            data@[0] == IPC::KillActiveClient.spec_code() && old(self)@.focused is Some
                ==> old(self)@.focused->0 < old(self)@.clients.len(),
            data@[0] == IPC::SwitchTag.spec_code() ==> 1 <= data@[1] <= 9,
        ensures
            final(self)@ == on_command(old(self)@, data).0,
            out == on_command(old(self)@, data).1,
            wm_wf(final(self)@),
    {
        let cmd = data[0];
        if cmd == IPC::KillActiveClient.code() {
            match self.focused {
                None => self.finish(Err(WmError::NoFocusedWindow)),
                Some(f) => {
                    let window = self.clients[f].window;
                    self.start_batch(Self::single(Request::KillClient { window }), Then::Finish)
                },
            }
        } else if cmd == IPC::SwitchTag.code() {
            let tag = (data[1] - 1) as usize;
            self.tags.switch_tag(tag);
            let queue = self.tag_queue();
            self.start_batch(queue, Then::Finish)
        } else if cmd == IPC::BorderPixel.code() {
            let queue = self.border_pixel_queue(data[1]);
            self.config.border_pixel = data[1];
            self.start_batch(queue, Then::Finish)
        } else if cmd == IPC::BorderWidth.code() {
            let queue = self.border_width_queue(data[1]);
            self.config.border_width = data[1];
            self.start_batch(queue, Then::Finish)
        } else if cmd == IPC::BackgroundPixel.code() {
            let queue = self.background_pixel_queue(data[1]);
            self.config.background_pixel = data[1];
            self.start_batch(queue, Then::Finish)
        } else {
            self.finish(Ok(()))
        }
    }

    fn handle_client_message(&mut self, window: u32, type_: u32, format: u8, data: [u32; 5]) -> (out:
        Output)
        requires
            wm_wf(old(self)@),
            old(self)@.task is Idle,
            !event_panics(old(self)@, Event::ClientMessage { window, type_, format, data }),
        ensures
            final(self)@ == on_client_message(old(self)@, window, type_, format, data).0,
            out == on_client_message(old(self)@, window, type_, format, data).1,
            wm_wf(final(self)@),
    {
        let wm_state = self.net(Net::WMState);
        if type_ == wm_state {
            if format != 32 {
                return self.finish(Err(WmError::BadMessageFormat));
            }
            proof {
                lemma_find_window(self@.clients, window);
            }
            match self.find(false, window) {
                None => self.finish(Err(WmError::MessageOnNonClient)),
                Some(i) => {
                    let fs = self.net(Net::WMStateFullScreen);
                    if data[1] == fs || data[2] == fs {
                        self.fullscreen_message(i, data)
                    } else {
                        self.finish(Ok(()))
                    }
                },
            }
        } else if type_ == self.ipc_atoms[0] {
            self.handle_command(data)
        } else {
            self.finish(Ok(()))
        }
    }

    /// Starts handling an X event: returns the first request to send, or the
    /// outcome when no request is needed. Its reply goes to `handle_reply`.
    pub fn dispatch_event(&mut self, ev: &Event) -> (out: Output)
        requires
            wm_wf(old(self)@),
            old(self)@.task is Idle,
            !event_panics(old(self)@, *ev),
        ensures
            final(self)@ == on_event(old(self)@, *ev).0,
            out == on_event(old(self)@, *ev).1,
            wm_wf(final(self)@),
    {
        match *ev {
            Event::MapRequest { window } => self.handle_map_request(window),
            Event::ButtonPress { child, root_x, root_y, detail } => self.handle_button_press(
                child,
                root_x,
                root_y,
                detail,
            ),
            Event::MotionNotify { child, root_x, root_y } => self.handle_motion_notify(
                child,
                root_x,
                root_y,
            ),
            Event::ConfigureRequest { window, value_mask, x, y, width, height, border_width } => {
                let changes = from_configure_request(value_mask, x, y, width, height, border_width);
                self.start_batch(
                    Self::single(Request::Configure { window, changes, checked: true }),
                    Then::Finish,
                )
            },
            Event::UnmapNotify { window } => {
                proof {
                    lemma_find_window(self@.clients, window);
                }
                match self.find(false, window) {
                    None => self.finish(Err(WmError::UnmapOnNonClient)),
                    Some(i) => {
                        let frame = self.clients[i].frame;
                        self.start_batch(
                            Self::single(Request::UnmapWindow { window: frame }),
                            Then::ForgetClient { index: i },
                        )
                    },
                }
            },
            Event::DestroyNotify { window } => {
                proof {
                    lemma_find_window(self@.clients, window);
                }
                match self.find(false, window) {
                    None => self.finish(Err(WmError::DestroyOnNonClient)),
                    Some(i) => {
                        let frame = self.clients[i].frame;
                        self.start_batch(
                            Self::single(Request::DestroyWindow { window: frame }),
                            Then::ForgetClient { index: i },
                        )
                    },
                }
            },
            Event::ClientMessage { window, type_, format, data } => self.handle_client_message(
                window,
                type_,
                format,
                data,
            ),
            Event::ConfigureNotify { window, width, height } => {
                proof {
                    lemma_find_window(self@.clients, window);
                }
                match self.find(false, window) {
                    None => self.finish(Err(WmError::ConfigureOnNonClient)),
                    Some(i) => {
                        let frame = self.clients[i].frame;
                        self.start_batch(
                            Self::single(
                                Request::Configure {
                                    window: frame,
                                    changes: resize(width as u32, height as u32),
                                    checked: true,
                                },
                            ),
                            Then::Finish,
                        )
                    },
                }
            },
            Event::Other => self.finish(Ok(())),
        }
    }

    /// Goes on with the event in progress, given the reply to the request sent
    /// last: returns the next request, or the outcome of the event.
    pub fn handle_reply(&mut self, reply: Reply) -> (out: Output)
        requires
            wm_wf(old(self)@),
            !(old(self)@.task is Idle),
            !reply_panics(old(self)@, reply),
        ensures
            final(self)@ == on_reply(old(self)@, reply).0,
            out == on_reply(old(self)@, reply).1,
            wm_wf(final(self)@),
    {
        let task = self.take_task();
        match task {
            Task::Idle => self.finish(Err(WmError::UnexpectedReply)),
            Task::Batch { queue, next, then } => match reply {
                Reply::Done => {
                    if next < queue.len() {
                        let req = queue[next];
                        self.send(Task::Batch { queue, next: next + 1, then }, req)
                    } else {
                        self.run_then(then)
                    }
                },
                _ => {
                    let e = error_of(&reply);
                    self.finish(Err(e))
                },
            },
            Task::AwaitWindowType { window } => match reply {
                Reply::Property(value) => {
                    let dock = self.net(Net::WMWindowTypeDock);
                    if Self::names_dock(&value, dock) {
                        self.start_batch(Self::single(Request::MapWindow { window }), Then::Finish)
                    } else {
                        let property = self.net(Net::FrameExtents);
                        let width = self.config.border_width;
                        self.start_batch(
                            Self::single(Request::SetFrameExtents { window, property, width }),
                            Then::QueryMapGeometry { window },
                        )
                    }
                },
                _ => {
                    let e = error_of(&reply);
                    self.finish(Err(e))
                },
            },
            Task::AwaitMapGeometry { window } => match reply {
                Reply::Geometry(geom) => self.send(
                    Task::AwaitFrameId { window, geom },
                    Request::GenerateId,
                ),
                _ => {
                    let e = error_of(&reply);
                    self.finish(Err(e))
                },
            },
            Task::AwaitFrameId { window, geom } => match reply {
                Reply::Id(frame) => {
                    let mut queue: Vec<Request> = Vec::new();
                    queue.push(
                        Request::CreateFrame {
                            frame,
                            parent: self.root,
                            geometry: geom,
                            background_pixel: self.config.background_pixel,
                            border_pixel: self.config.border_pixel,
                        },
                    );
                    queue.push(Request::GrabServer);
                    queue.push(Request::AddToSaveSet { window });
                    queue.push(Request::Reparent { window, parent: frame });
                    queue.push(Request::MapWindow { window });
                    queue.push(Request::MapWindow { window: frame });
                    queue.push(Request::UngrabServer);
                    assert(queue@ =~= frame_requests(self@, window, frame, geom));
                    self.start_batch(queue, Then::Manage { window, frame })
                },
                _ => {
                    let e = error_of(&reply);
                    self.finish(Err(e))
                },
            },
            Task::AwaitPressGeometry { index, child, root_x, root_y, detail } => match reply {
                Reply::Geometry(g) => {
                    self.button_press_geometry = Some(g);
                    self.mouse_move_start = Some(
                        MouseMoveStart { root_x, root_y, child, detail, active_win: child },
                    );
                    self.focused = Some(index);
                    self.finish(Ok(()))
                },
                Reply::RequestError => {
                    self.focused = Some(index);
                    self.finish(Ok(()))
                },
                _ => {
                    let e = error_of(&reply);
                    self.finish(Err(e))
                },
            },
            Task::AwaitFocus { child, root_x, root_y } => match reply {
                Reply::Done => {
                    proof {
                        lemma_find_frame(self@.clients, child);
                    }
                    match self.find(true, child) {
                        Some(i) => {
                            self.focused = Some(i);
                        },
                        None => {},
                    }
                    self.motion_drag(child, root_x, root_y)
                },
                _ => self.motion_drag(child, root_x, root_y),
            },
            Task::AwaitScreenSize { index } => match reply {
                Reply::ScreenSize { width, height } => {
                    let window = self.clients[index].window;
                    self.send(
                        Task::AwaitWindowGeometry {
                            index,
                            screen_width: width,
                            screen_height: height,
                        },
                        Request::GetGeometry { window },
                    )
                },
                _ => {
                    let e = error_of(&reply);
                    self.finish(Err(e))
                },
            },
            Task::AwaitWindowGeometry { index, screen_width, screen_height } => match reply {
                Reply::Geometry(g) => {
                    let frame = self.clients[index].frame;
                    self.send(
                        Task::AwaitFrameGeometry {
                            index,
                            screen_width,
                            screen_height,
                            window_geom: g,
                        },
                        Request::GetGeometry { window: frame },
                    )
                },
                _ => {
                    let e = error_of(&reply);
                    self.finish(Err(e))
                },
            },
            Task::AwaitFrameGeometry { index, screen_width, screen_height, window_geom } =>
                match reply {
                Reply::Geometry(fg) => {
                    let c = self.clients[index];
                    let saved = WindowGeometry {
                        x: fg.x,
                        y: fg.y,
                        width: window_geom.width,
                        height: window_geom.height,
                    };
                    let state = self.net(Net::WMState);
                    let full = self.net(Net::WMStateFullScreen);
                    let mut queue: Vec<Request> = Vec::new();
                    queue.push(
                        Request::Configure {
                            window: c.frame,
                            changes: place(0, 0, screen_width, screen_height, Some(0)),
                            checked: false,
                        },
                    );
                    queue.push(
                        Request::Configure {
                            window: c.window,
                            changes: place(0, 0, screen_width, screen_height, Some(0)),
                            checked: false,
                        },
                    );
                    queue.push(
                        Request::SetWmState { window: c.window, property: state, state: Some(full) },
                    );
                    assert(queue@ =~= fullscreen_requests(self@, c, screen_width, screen_height));
                    let c2 = Client { before_geom: Some(saved), ..c };
                    proof {
                        lemma_unique_update(self@.clients, index as int, c2);
                    }
                    self.clients.set(index, c2);
                    self.start_batch(queue, Then::Finish)
                },
                _ => {
                    let e = error_of(&reply);
                    self.finish(Err(e))
                },
            },
        }
    }

    /// Whether some byte of the property value equals the low byte of `dock`.
    fn names_dock(value: &Vec<u8>, dock: u32) -> (r: bool)
        ensures
            r == is_dock(value@, dock),
    {
        let d = dock as u8;
        let mut i: usize = 0;
        while i < value.len()
            invariant
                i <= value@.len(),
                d == dock as u8,
                forall|k: int| 0 <= k < i ==> value@[k] != d,
            decreases value@.len() - i,
        {
            if value[i] == d {
                return true;
            }
            i = i + 1;
        }
        false
    }

    fn drag_would_panic(&self, child: u32, root_x: i16, root_y: i16) -> (r: bool)
        ensures
            r == drag_panics(self@, child, root_x, root_y),
    {
        proof {
            lemma_find_frame(self@.clients, child);
        }
        match self.find(true, child) {
            None => false,
            Some(i) => {
                if self.clients[i].fullscreen {
                    false
                } else {
                    match (self.mouse_move_start, self.button_press_geometry) {
                        (Some(m), Some(g)) => check_drag_overflow(m, g, root_x, root_y),
                        _ => false,
                    }
                }
            },
        }
    }

    /// Whether handling `ev` would abort the program (see `event_panics`).
    pub fn would_panic_on_event(&self, ev: &Event) -> (r: bool)
        ensures
            r == event_panics(self@, *ev),
    {
        match *ev {
            Event::MotionNotify { child, root_x, root_y } => match self.mouse_move_start {
                Some(m) => m.active_win == child && self.drag_would_panic(child, root_x, root_y),
                None => self.drag_would_panic(child, root_x, root_y),
            },
            Event::ClientMessage { window, type_, format, data } => {
                if type_ == self.net(Net::WMState) || type_ != self.ipc_atoms[0] {
                    false
                } else if data[0] == IPC::KillActiveClient.code() {
                    match self.focused {
                        Some(f) => f >= self.clients.len(),
                        None => false,
                    }
                } else if data[0] == IPC::SwitchTag.code() {
                    !(1 <= data[1] && data[1] <= 9)
                } else {
                    false
                }
            },
            _ => false,
        }
    }

    /// Whether the reply would abort the program (see `reply_panics`).
    pub fn would_panic_on_reply(&self, r: &Reply) -> (b: bool)
        ensures
            b == reply_panics(self@, *r),
    {
        match self.task {
            Task::AwaitFocus { child, root_x, root_y } => match r {
                Reply::Done => self.drag_would_panic(child, root_x, root_y),
                Reply::ConnectionError => self.drag_would_panic(child, root_x, root_y),
                _ => true,
            },
            _ => false,
        }
    }

    /// How many clients there are.
    pub fn client_count(&self) -> (r: usize)
        ensures
            r == self@.clients.len(),
    {
        self.clients.len()
    }

    /// The client at position `i`.
    pub fn client(&self, i: usize) -> (r: Client)
        requires
            i < self@.clients.len(),
        ensures
            r == self@.clients[i as int],
    {
        self.clients[i]
    }

    /// The position of the focused client, if any.
    pub fn focused(&self) -> (r: Option<usize>)
        ensures
            r == self@.focused,
    {
        self.focused
    }

    /// The tags that are shown.
    pub fn tags(&self) -> (r: TagSet)
        ensures
            r == self@.tags,
    {
        self.tags
    }

    /// The current settings.
    pub fn config(&self) -> (r: Config)
        ensures
            r == self@.config,
    {
        self.config
    }

    /// Where the current drag started, if one is going on.
    pub fn mouse_move_start(&self) -> (r: Option<MouseMoveStart>)
        ensures
            r == self@.mouse_move_start,
    {
        self.mouse_move_start
    }

    /// The geometry of the frame when the current drag started.
    pub fn button_press_geometry(&self) -> (r: Option<WindowGeometry>)
        ensures
            r == self@.button_press_geometry,
    {
        self.button_press_geometry
    }
}

} // verus!
