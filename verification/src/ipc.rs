use vstd::prelude::*;

verus! {

/// The messages a client can send the window manager. `ClientMessage` is the
/// message type itself; the others are the commands carried in its first
/// data word, each by its position in this list. `Last` counts the atoms.
#[derive(Clone, Copy, Debug, PartialEq, Eq)]
pub enum IPC {
    ClientMessage,
    KillActiveClient,
    SwitchTag,
    BorderPixel,
    BorderWidth,
    BackgroundPixel,
    Last,
}

/// How many IPC atoms there are (the code of `IPC::Last`).
pub const IPC_COUNT: usize = 6;

impl IPC {
    pub open spec fn spec_code(self) -> u32 {
        match self {
            IPC::ClientMessage => 0,
            IPC::KillActiveClient => 1,
            IPC::SwitchTag => 2,
            IPC::BorderPixel => 3,
            IPC::BorderWidth => 4,
            IPC::BackgroundPixel => 5,
            IPC::Last => 6,
        }
    }

    /// The number by which the command is sent and by which its atom is stored.
    pub fn code(&self) -> (r: u32)
        ensures
            r == self.spec_code(),
    {
        match self {
            IPC::ClientMessage => 0,
            IPC::KillActiveClient => 1,
            IPC::SwitchTag => 2,
            IPC::BorderPixel => 3,
            IPC::BorderWidth => 4,
            IPC::BackgroundPixel => 5,
            IPC::Last => 6,
        }
    }

    pub open spec fn spec_from_code(c: u32) -> IPC {
        if c == 0 {
            IPC::ClientMessage
        } else if c == 1 {
            IPC::KillActiveClient
        } else if c == 2 {
            IPC::SwitchTag
        } else if c == 3 {
            IPC::BorderPixel
        } else if c == 4 {
            IPC::BorderWidth
        } else if c == 5 {
            IPC::BackgroundPixel
        } else {
            IPC::Last
        }
    }

    /// The message with code `c`; codes past the list give `Last`.
    pub fn from_code(c: u32) -> (r: IPC)
        ensures
            r == IPC::spec_from_code(c),
            c < 6 ==> r.spec_code() == c,
    {
        if c == 0 {
            IPC::ClientMessage
        } else if c == 1 {
            IPC::KillActiveClient
        } else if c == 2 {
            IPC::SwitchTag
        } else if c == 3 {
            IPC::BorderPixel
        } else if c == 4 {
            IPC::BorderWidth
        } else if c == 5 {
            IPC::BackgroundPixel
        } else {
            IPC::Last
        }
    }

    pub open spec fn spec_atom_name(self) -> Seq<char> {
        match self {
            IPC::ClientMessage => "_SWIM_CLIENT_MESSAGE"@,
            IPC::KillActiveClient => "_SWIM_KILL_ACTIVE_CLIENT"@,
            IPC::SwitchTag => "_SWIM_SWITCH_TAG"@,
            IPC::BorderPixel => "_SWIM_BORDER_PIXEL"@,
            IPC::BorderWidth => "_SWIM_BORDER_WIDTH"@,
            IPC::BackgroundPixel => "_SWIM_BACKGROUND_PIXEL"@,
            IPC::Last => Seq::empty(),
        }
    }

    /// The name of the atom for this message (`Last` has none).
    pub fn atom_name(&self) -> (r: &'static str)
        requires
            *self != IPC::Last,
        ensures
            r@ == self.spec_atom_name(),
    {
        match self {
            IPC::ClientMessage => "_SWIM_CLIENT_MESSAGE",
            IPC::KillActiveClient => "_SWIM_KILL_ACTIVE_CLIENT",
            IPC::SwitchTag => "_SWIM_SWITCH_TAG",
            IPC::BorderPixel => "_SWIM_BORDER_PIXEL",
            IPC::BorderWidth => "_SWIM_BORDER_WIDTH",
            IPC::BackgroundPixel => "_SWIM_BACKGROUND_PIXEL",
            IPC::Last => "",
        }
    }
}

/// Every code below the count round-trips through `from_code`.
pub proof fn law_code_round_trip(c: u32)
    requires
        c < IPC_COUNT,
    ensures
        IPC::spec_from_code(c).spec_code() == c,
{
}

} // verus!
