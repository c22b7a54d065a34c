use vstd::prelude::*;

verus! {

/// The EWMH atoms the window manager uses, in the order in which they are
/// interned and announced in `_NET_SUPPORTED`.
#[derive(Clone, Copy, Debug, PartialEq, Eq)]
pub enum Net {
    Supported,
    SupportingWMCheck,
    WMName,
    WMState,
    WMStateFullScreen,
    WMWindowType,
    WMWindowTypeDock,
    FrameExtents,
}

/// How many EWMH atoms there are.
pub const NET_COUNT: usize = 8;

impl Net {
    pub open spec fn spec_index(self) -> int {
        match self {
            Net::Supported => 0,
            Net::SupportingWMCheck => 1,
            Net::WMName => 2,
            Net::WMState => 3,
            Net::WMStateFullScreen => 4,
            Net::WMWindowType => 5,
            Net::WMWindowTypeDock => 6,
            Net::FrameExtents => 7,
        }
    }

    /// The position of the atom in the interned list.
    pub fn index(&self) -> (r: usize)
        ensures
            r == self.spec_index(),
            r < NET_COUNT,
    {
        match self {
            Net::Supported => 0,
            Net::SupportingWMCheck => 1,
            Net::WMName => 2,
            Net::WMState => 3,
            Net::WMStateFullScreen => 4,
            Net::WMWindowType => 5,
            Net::WMWindowTypeDock => 6,
            Net::FrameExtents => 7,
        }
    }

    pub open spec fn spec_from_index(i: int) -> Net {
        if i == 0 {
            Net::Supported
        } else if i == 1 {
            Net::SupportingWMCheck
        } else if i == 2 {
            Net::WMName
        } else if i == 3 {
            Net::WMState
        } else if i == 4 {
            Net::WMStateFullScreen
        } else if i == 5 {
            Net::WMWindowType
        } else if i == 6 {
            Net::WMWindowTypeDock
        } else {
            Net::FrameExtents
        }
    }

    /// The atom at position `i` of the interned list.
    pub fn from_index(i: usize) -> (r: Net)
        requires
            i < NET_COUNT,
        ensures
            r == Net::spec_from_index(i as int),
            r.spec_index() == i,
    {
        if i == 0 {
            Net::Supported
        } else if i == 1 {
            Net::SupportingWMCheck
        } else if i == 2 {
            Net::WMName
        } else if i == 3 {
            Net::WMState
        } else if i == 4 {
            Net::WMStateFullScreen
        } else if i == 5 {
            Net::WMWindowType
        } else if i == 6 {
            Net::WMWindowTypeDock
        } else {
            Net::FrameExtents
        }
    }

    pub open spec fn spec_name(self) -> Seq<char> {
        match self {
            Net::Supported => "_NET_SUPPORTED"@,
            Net::SupportingWMCheck => "_NET_SUPPORTING_WM_CHECK"@,
            Net::WMName => "_NET_WM_NAME"@,
            Net::WMState => "_NET_WM_STATE"@,
            Net::WMStateFullScreen => "_NET_WM_STATE_FULLSCREEN"@,
            Net::WMWindowType => "_NET_WM_WINDOW_TYPE"@,
            Net::WMWindowTypeDock => "_NET_WM_WINDOW_TYPE_DOCK"@,
            Net::FrameExtents => "_NET_FRAME_EXTENTS"@,
        }
    }

    /// The atom's name, as it is interned.
    pub fn name(&self) -> (r: &'static str)
        ensures
            r@ == self.spec_name(),
    {
        match self {
            Net::Supported => "_NET_SUPPORTED",
            Net::SupportingWMCheck => "_NET_SUPPORTING_WM_CHECK",
            Net::WMName => "_NET_WM_NAME",
            Net::WMState => "_NET_WM_STATE",
            Net::WMStateFullScreen => "_NET_WM_STATE_FULLSCREEN",
            Net::WMWindowType => "_NET_WM_WINDOW_TYPE",
            Net::WMWindowTypeDock => "_NET_WM_WINDOW_TYPE_DOCK",
            Net::FrameExtents => "_NET_FRAME_EXTENTS",
        }
    }
}

} // verus!
