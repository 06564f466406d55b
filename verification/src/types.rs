//! Plain values that the window manager reads from and hands to the display.
use vstd::prelude::*;

verus! {

/// A point, in pixels.
#[derive(Clone, Copy, Debug, PartialEq, Eq)]
pub struct Position {
    pub x: i32,
    pub y: i32,
}

/// A width and a height, in pixels.
#[derive(Clone, Copy, Debug, PartialEq, Eq)]
pub struct Size {
    pub width: u32,
    pub height: u32,
}

/// Where a window stands and how large it is.
#[derive(Clone, Copy, Debug, PartialEq, Eq)]
pub struct Geometry {
    pub x: i32,
    pub y: i32,
    pub width: u32,
    pub height: u32,
}

/// The changes of a window's configuration that a client asks for, or that
/// the window manager sends.
#[derive(Clone, Copy, Debug, PartialEq, Eq)]
pub struct WindowChanges {
    pub x: i32,
    pub y: i32,
    pub width: i32,
    pub height: i32,
    pub border_width: i32,
    pub sibling: u64,
    pub stack_mode: i32,
}

/// The screen that the root window covers.
#[derive(Clone, Copy, Debug, PartialEq, Eq)]
pub struct Screen {
    pub root: u64,
    pub width: i32,
    pub height: i32,
    pub x: i32,
    pub y: i32,
}

impl Screen {
    pub fn new(root: u64, width: i32, height: i32, x: i32, y: i32) -> (s: Screen)
        ensures
            s == (Screen { root, width, height, x, y }),
    {
        Screen { root, width, height, x, y }
    }
}

/// The cursors that the window manager shows on the root window.
#[derive(Clone, Copy, Debug, PartialEq, Eq)]
pub struct Cursor {
    pub normal_cursor: u64,
    pub move_cursor: u64,
}

/// What the display answers to a pointer query: the root and child windows
/// under the pointer, the pointer's position relative to the root window and
/// to the window queried, and the modifier and button state.
#[derive(Clone, Copy, Debug, PartialEq, Eq)]
pub struct PointerReply {
    pub root: u64,
    pub child: u64,
    pub root_x: i32,
    pub root_y: i32,
    pub win_x: i32,
    pub win_y: i32,
    pub mask: u32,
}

/// The space that a dock reserves at the edges of the screen, as the twelve
/// cardinals of a _NET_WM_STRUT_PARTIAL property, in their order.
#[derive(Clone, Copy, Debug, PartialEq, Eq)]
pub struct DockArea {
    pub left: i64,
    pub right: i64,
    pub top: i64,
    pub bottom: i64,
    pub left_start_y: i64,
    pub left_end_y: i64,
    pub right_start_y: i64,
    pub right_end_y: i64,
    pub top_start_x: i64,
    pub top_end_x: i64,
    pub bottom_start_x: i64,
    pub bottom_end_x: i64,
}

impl DockArea {
    /// The dock area whose twelve values are `v`, in order.
    pub open spec fn from_seq(v: Seq<i64>) -> DockArea {
        DockArea {
            left: v[0],
            right: v[1],
            top: v[2],
            bottom: v[3],
            left_start_y: v[4],
            left_end_y: v[5],
            right_start_y: v[6],
            right_end_y: v[7],
            top_start_x: v[8],
            top_end_x: v[9],
            bottom_start_x: v[10],
            bottom_end_x: v[11],
        }
    }

    pub fn from_slice(v: &[i64]) -> (d: DockArea)
        requires
            v@.len() == 12,
        ensures
            d == DockArea::from_seq(v@),
    {
        DockArea {
            left: v[0],
            right: v[1],
            top: v[2],
            bottom: v[3],
            left_start_y: v[4],
            left_end_y: v[5],
            right_start_y: v[6],
            right_end_y: v[7],
            top_start_x: v[8],
            top_end_x: v[9],
            bottom_start_x: v[10],
            bottom_end_x: v[11],
        }
    }
}

/// What kind of window a client says it is, by its _NET_WM_WINDOW_TYPE.
#[derive(Clone, Copy, Debug, PartialEq, Eq)]
pub enum WindowType {
    Desktop,
    Dock,
    Toolbar,
    Menu,
    Utility,
    Splash,
    Dialog,
    Normal,
}

/// The attributes of a window that the window manager reads.
#[derive(Clone, Copy, Debug, PartialEq, Eq)]
pub struct WindowAttributes {
    pub x: i32,
    pub y: i32,
    pub width: i32,
    pub height: i32,
    pub border_width: i32,
    pub map_state: i32,
    pub override_redirect: bool,
}

/// The atoms that the window manager has interned on the display.
#[allow(non_snake_case)]
#[derive(Clone, Copy, Debug, PartialEq, Eq)]
pub struct XAtom {
    pub WMProtocols: u64,
    pub WMDelete: u64,
    pub WMTakeFocus: u64,
    pub NetSupported: u64,
    pub NetClientList: u64,
    pub NetActiveWindow: u64,
    pub NetCurrentDesktop: u64,
    pub NetNumberOfDesktops: u64,
    pub NetDesktopNames: u64,
    pub NetDesktopViewport: u64,
    pub NetSupportingWmCheck: u64,
    pub NetWMName: u64,
    pub NetUtf8String: u64,
    pub NetWMStrut: u64,
    pub NetWMStrutPartial: u64,
    pub NetWMWindowType: u64,
    pub NetWMWindowTypeDesktop: u64,
    pub NetWMWindowTypeDock: u64,
    pub NetWMWindowTypeToolbar: u64,
    pub NetWMWindowTypeMenu: u64,
    pub NetWMWindowTypeUtility: u64,
    pub NetWMWindowTypeSplash: u64,
    pub NetWMWindowTypeDialog: u64,
}

impl XAtom {
    /// All the atoms, in the order of the fields.
    pub open spec fn all(self) -> Seq<u64> {
        seq![
            self.WMProtocols,
            self.WMDelete,
            self.WMTakeFocus,
            self.NetSupported,
            self.NetClientList,
            self.NetActiveWindow,
            self.NetCurrentDesktop,
            self.NetNumberOfDesktops,
            self.NetDesktopNames,
            self.NetDesktopViewport,
            self.NetSupportingWmCheck,
            self.NetWMName,
            self.NetUtf8String,
            self.NetWMStrut,
            self.NetWMStrutPartial,
            self.NetWMWindowType,
            self.NetWMWindowTypeDesktop,
            self.NetWMWindowTypeDock,
            self.NetWMWindowTypeToolbar,
            self.NetWMWindowTypeMenu,
            self.NetWMWindowTypeUtility,
            self.NetWMWindowTypeSplash,
            self.NetWMWindowTypeDialog,
        ]
    }

    /// No two of the atoms are the same, as holds of atoms that the display
    /// interned for distinct names.
    pub open spec fn distinct(self) -> bool {
        self.all().no_duplicates()
    }

    /// The EWMH atoms that the window manager announces in _NET_SUPPORTED.
    pub open spec fn supported(self) -> Seq<u64> {
        seq![
            self.NetSupported,
            self.NetClientList,
            self.NetActiveWindow,
            self.NetCurrentDesktop,
            self.NetNumberOfDesktops,
            self.NetDesktopNames,
            self.NetDesktopViewport,
            self.NetSupportingWmCheck,
            self.NetWMName,
            self.NetWMStrut,
            self.NetWMStrutPartial,
            self.NetWMWindowType,
            self.NetWMWindowTypeDesktop,
            self.NetWMWindowTypeDock,
            self.NetWMWindowTypeToolbar,
            self.NetWMWindowTypeMenu,
            self.NetWMWindowTypeUtility,
            self.NetWMWindowTypeSplash,
            self.NetWMWindowTypeDialog,
        ]
    }

    pub fn net_supported(&self) -> (v: Vec<u64>)
        ensures
            v@ == self.supported(),
    {
        let v = vec![
            self.NetSupported,
            self.NetClientList,
            self.NetActiveWindow,
            self.NetCurrentDesktop,
            self.NetNumberOfDesktops,
            self.NetDesktopNames,
            self.NetDesktopViewport,
            self.NetSupportingWmCheck,
            self.NetWMName,
            self.NetWMStrut,
            self.NetWMStrutPartial,
            self.NetWMWindowType,
            self.NetWMWindowTypeDesktop,
            self.NetWMWindowTypeDock,
            self.NetWMWindowTypeToolbar,
            self.NetWMWindowTypeMenu,
            self.NetWMWindowTypeUtility,
            self.NetWMWindowTypeSplash,
            self.NetWMWindowTypeDialog,
        ];
        v
    }
}

} // verus!
