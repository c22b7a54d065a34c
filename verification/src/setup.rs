use vstd::prelude::*;
use crate::ewmh::Net;
use crate::model::wm_wf;
use crate::requests::{reply_error, error_of, AtomSet, Button, Reply, Request, WmError};
use crate::wm::{initial_state, WindowManager};

verus! {

/// The glyph of the cursor font the root window gets (its mask is the next glyph).
pub const CURSOR_GLYPH: u16 = 68;

/// The name the window manager announces in `_NET_WM_NAME`.
pub fn wm_name() -> (r: &'static str)
    ensures
        r@ == "swim"@,
{
    "swim"
}

/// How far the startup conversation with the X server has come: the request
/// named by the stage is the one whose reply is awaited.
#[derive(Clone, Copy, Debug, PartialEq, Eq)]
pub enum Stage {
    GrabLeft,
    WarnLeft,
    GrabRight,
    WarnRight,
    SelectEvents,
    CursorWindow,
    Cursor,
    NetAtoms,
    SupportingCheck,
    WmName,
    Supported,
    IpcAtoms,
}

/// The abstract state of the startup.
pub struct StartupState {
    pub root: u32,
    pub black_pixel: u32,
    pub stage: Stage,
    pub net_atoms: [u32; 8],
}

/// The startup of the window manager: grabbing the mouse buttons, taking over
/// the root window, setting its cursor, interning atoms and announcing EWMH
/// support.
pub struct Startup {
    root: u32,
    black_pixel: u32,
    stage: Stage,
    net_atoms: [u32; 8],
}

impl View for Startup {
    type V = StartupState;

    closed spec fn view(&self) -> StartupState {
        StartupState {
            root: self.root,
            black_pixel: self.black_pixel,
            stage: self.stage,
            net_atoms: self.net_atoms,
        }
    }
}

/// What the startup does next.
pub enum StartupOutput {
    Send(Request),
    /// Startup is complete.
    Ready(WindowManager),
    Failed(WmError),
}

/// The abstract counterpart of `StartupOutput`.
pub enum StartupStep {
    Send(Request, StartupState),
    /// Startup completes with these IPC atoms.
    Ready(Seq<u32>),
    Failed(WmError),
}

/// The array holding the atoms of `v` (of length 8).
pub open spec fn net_array(v: Seq<u32>) -> [u32; 8] {
    choose|a: [u32; 8]| a@ == v
}

/// The array holding the atoms of `v` (of length 6).
pub open spec fn ipc_array(v: Seq<u32>) -> [u32; 6] {
    choose|a: [u32; 6]| a@ == v
}

pub open spec fn net_atom(st: StartupState, n: Net) -> u32 {
    st.net_atoms@[n.spec_index()]
}

pub open spec fn advance(st: StartupState, stage: Stage, req: Request) -> StartupStep {
    StartupStep::Send(req, StartupState { stage, ..st })
}

/// The first request of the startup.
pub open spec fn startup_start(root: u32, black_pixel: u32) -> (StartupState, Request) {
    (
        StartupState {
            root,
            black_pixel,
            stage: Stage::GrabLeft,
            net_atoms: vstd::array::spec_array_fill_for_copy_type::<u32, 8>(0),
        },
        Request::GrabButton { root, button: Button::Left },
    )
}

/// What the startup does with the reply to its last request. A button that
/// cannot be grabbed only earns a warning; a root window that cannot be
/// taken over means another window manager runs.
pub open spec fn startup_step(st: StartupState, r: Reply) -> StartupStep {
    match st.stage {
        Stage::GrabLeft => match r {
            Reply::Done => advance(st, Stage::GrabRight, Request::GrabButton { root: st.root, button: Button::Right }),
            Reply::RequestError => advance(st, Stage::WarnLeft, Request::WarnGrabFailed { button: Button::Left }),
            _ => StartupStep::Failed(reply_error(r)),
        },
        Stage::WarnLeft => advance(st, Stage::GrabRight, Request::GrabButton { root: st.root, button: Button::Right }),
        Stage::GrabRight => match r {
            Reply::Done => advance(st, Stage::SelectEvents, Request::SelectRootEvents { root: st.root }),
            Reply::RequestError => advance(st, Stage::WarnRight, Request::WarnGrabFailed { button: Button::Right }),
            _ => StartupStep::Failed(reply_error(r)),
        },
        Stage::WarnRight => advance(st, Stage::SelectEvents, Request::SelectRootEvents { root: st.root }),
        Stage::SelectEvents => match r {
            Reply::Done => advance(st, Stage::CursorWindow, Request::GenerateId),
            Reply::RequestError => StartupStep::Failed(WmError::AlreadyRunning),
            _ => StartupStep::Failed(reply_error(r)),
        },
        Stage::CursorWindow => match r {
            Reply::Id(window) => advance(
                st,
                Stage::Cursor,
                Request::SetCursor {
                    window,
                    black_pixel: st.black_pixel,
                    source_char: CURSOR_GLYPH,
                    mask_char: (CURSOR_GLYPH + 1) as u16,
                },
            ),
            _ => StartupStep::Failed(reply_error(r)),
        },
        Stage::Cursor => advance(st, Stage::NetAtoms, Request::InternAtoms { set: AtomSet::Net }),
        Stage::NetAtoms => match r {
            Reply::Atoms(v) => if v@.len() == 8 {
                let st2 = StartupState { net_atoms: net_array(v@), ..st };
                advance(
                    st2,
                    Stage::SupportingCheck,
                    Request::SetSupportingWmCheck {
                        root: st.root,
                        property: net_atom(st2, Net::SupportingWMCheck),
                    },
                )
            } else {
                StartupStep::Failed(WmError::UnexpectedReply)
            },
            _ => StartupStep::Failed(reply_error(r)),
        },
        Stage::SupportingCheck => match r {
            Reply::Done => advance(
                st,
                Stage::WmName,
                Request::SetWmName { root: st.root, property: net_atom(st, Net::WMName) },
            ),
            _ => StartupStep::Failed(reply_error(r)),
        },
        Stage::WmName => match r {
            Reply::Done => advance(
                st,
                Stage::Supported,
                Request::SetSupported {
                    root: st.root,
                    property: net_atom(st, Net::Supported),
                    atoms: st.net_atoms,
                },
            ),
            _ => StartupStep::Failed(reply_error(r)),
        },
        Stage::Supported => match r {
            Reply::Done => advance(st, Stage::IpcAtoms, Request::InternAtoms { set: AtomSet::Ipc }),
            _ => StartupStep::Failed(reply_error(r)),
        },
        Stage::IpcAtoms => match r {
            Reply::Atoms(v) => if v@.len() == 6 {
                StartupStep::Ready(v@)
            } else {
                StartupStep::Failed(WmError::UnexpectedReply)
            },
            _ => StartupStep::Failed(reply_error(r)),
        },
    }
}

/// Setting the cursor of the root window may not fail: the startup aborts.
pub open spec fn startup_panics(st: StartupState, r: Reply) -> bool {
    st.stage == Stage::Cursor && r != Reply::Done
}

/// Whether `out` is what `step` describes, leaving the startup in `after`.
pub open spec fn startup_output_matches(out: &StartupOutput, step: StartupStep, root: u32, net_atoms: [u32; 8], after: StartupState) -> bool {
    match step {
        StartupStep::Send(req, st2) => *out == StartupOutput::Send(req) && after == st2,
        StartupStep::Ready(ipc) => match *out {
            StartupOutput::Ready(wm) => {
                &&& wm@ == initial_state(root, net_atoms, ipc_array(ipc))
                &&& ipc_array(ipc)@ == ipc
                &&& wm_wf(wm@)
            },
            _ => false,
        },
        StartupStep::Failed(e) => *out == StartupOutput::Failed(e),
    }
}

impl WindowManager {
    /// Starts setting up the window manager on the screen with root window
    /// `root` and the given black pixel: returns the startup and its first request.
    pub fn new(root: u32, black_pixel: u32) -> (r: (Startup, Request))
        ensures
            (r.0@, r.1) == startup_start(root, black_pixel),
    {
        let st = Startup { root, black_pixel, stage: Stage::GrabLeft, net_atoms: [0u32; 8] };
        assert(st@.net_atoms =~= startup_start(root, black_pixel).0.net_atoms);
        (st, Request::GrabButton { root, button: Button::Left })
    }
}

impl Startup {
    /// Whether the reply aborts the program.
    pub fn reply_panics(&self, r: &Reply) -> (b: bool)
        ensures
            b == startup_panics(self@, *r),
    {
        match self.stage {
            Stage::Cursor => match r {
                Reply::Done => false,
                _ => true,
            },
            _ => false,
        }
    }

    fn advance(&mut self, stage: Stage, req: Request) -> (out: StartupOutput)
        ensures
            out == StartupOutput::Send(req),
            final(self)@ == (StartupState { stage, ..old(self)@ }),
    {
        self.stage = stage;
        StartupOutput::Send(req)
    }

    /// Goes on with the startup given the reply to the last request.
    pub fn resume(&mut self, r: Reply) -> (out: StartupOutput)
        requires
            !startup_panics(old(self)@, r),
        ensures
            startup_output_matches(
                &out,
                startup_step(old(self)@, r),
                old(self)@.root,
                old(self)@.net_atoms,
                final(self)@,
            ),
    {
        let root = self.root;
        match self.stage {
            Stage::GrabLeft => match r {
                Reply::Done => self.advance(Stage::GrabRight, Request::GrabButton { root, button: Button::Right }),
                Reply::RequestError => self.advance(Stage::WarnLeft, Request::WarnGrabFailed { button: Button::Left }),
                _ => StartupOutput::Failed(error_of(&r)),
            },
            Stage::WarnLeft => self.advance(Stage::GrabRight, Request::GrabButton { root, button: Button::Right }),
            Stage::GrabRight => match r {
                Reply::Done => self.advance(Stage::SelectEvents, Request::SelectRootEvents { root }),
                Reply::RequestError => self.advance(Stage::WarnRight, Request::WarnGrabFailed { button: Button::Right }),
                _ => StartupOutput::Failed(error_of(&r)),
            },
            Stage::WarnRight => self.advance(Stage::SelectEvents, Request::SelectRootEvents { root }),
            Stage::SelectEvents => match r {
                Reply::Done => self.advance(Stage::CursorWindow, Request::GenerateId),
                Reply::RequestError => StartupOutput::Failed(WmError::AlreadyRunning),
                _ => StartupOutput::Failed(error_of(&r)),
            },
            Stage::CursorWindow => match r {
                Reply::Id(window) => {
                    let black_pixel = self.black_pixel;
                    self.advance(
                        Stage::Cursor,
                        Request::SetCursor {
                            window,
                            black_pixel,
                            source_char: CURSOR_GLYPH,
                            mask_char: CURSOR_GLYPH + 1,
                        },
                    )
                },
                _ => StartupOutput::Failed(error_of(&r)),
            },
            Stage::Cursor => self.advance(Stage::NetAtoms, Request::InternAtoms { set: AtomSet::Net }),
            Stage::NetAtoms => match r {
                Reply::Atoms(v) => {
                    if v.len() == 8 {
                        let mut a = [0u32; 8];
                        let mut i: usize = 0;
                        while i < 8
                            invariant
                                i <= 8,
                                v@.len() == 8,
                                forall|k: int| 0 <= k < i ==> a@[k] == v@[k],
                            decreases 8 - i,
                        {
                            a[i] = v[i];
                            i = i + 1;
                        }
                        assert(a@ =~= v@);
                        proof {
                            let c = net_array(v@);
                            assert(c@ == v@);
                            assert(c =~= a);
                        }
                        self.net_atoms = a;
                        let property = self.net_atoms[Net::SupportingWMCheck.index()];
                        self.advance(Stage::SupportingCheck, Request::SetSupportingWmCheck { root, property })
                    } else {
                        StartupOutput::Failed(WmError::UnexpectedReply)
                    }
                },
                _ => StartupOutput::Failed(error_of(&r)),
            },
            Stage::SupportingCheck => match r {
                Reply::Done => {
                    let property = self.net_atoms[Net::WMName.index()];
                    self.advance(Stage::WmName, Request::SetWmName { root, property })
                },
                _ => StartupOutput::Failed(error_of(&r)),
            },
            Stage::WmName => match r {
                Reply::Done => {
                    let property = self.net_atoms[Net::Supported.index()];
                    let atoms = self.net_atoms;
                    self.advance(Stage::Supported, Request::SetSupported { root, property, atoms })
                },
                _ => StartupOutput::Failed(error_of(&r)),
            },
            Stage::Supported => match r {
                Reply::Done => self.advance(Stage::IpcAtoms, Request::InternAtoms { set: AtomSet::Ipc }),
                _ => StartupOutput::Failed(error_of(&r)),
            },
            Stage::IpcAtoms => match r {
                Reply::Atoms(v) => {
                    if v.len() == 6 {
                        let mut a = [0u32; 6];
                        let mut i: usize = 0;
                        while i < 6
                            invariant
                                i <= 6,
                                v@.len() == 6,
                                forall|k: int| 0 <= k < i ==> a@[k] == v@[k],
                            decreases 6 - i,
                        {
                            a[i] = v[i];
                            i = i + 1;
                        }
                        assert(a@ =~= v@);
                        proof {
                            let c = ipc_array(v@);
                            assert(c@ == v@);
                            assert(c =~= a);
                        }
                        let wm = WindowManager::with_atoms(root, self.net_atoms, a);
                        StartupOutput::Ready(wm)
                    } else {
                        StartupOutput::Failed(WmError::UnexpectedReply)
                    }
                },
                _ => StartupOutput::Failed(error_of(&r)),
            },
        }
    }
}

} // verus!
