//! The window manager's side of the display connection: for each operation,
//! the requests it sends, and what it makes of the replies it reads.
use vstd::prelude::*;
use vstd::string::StringSliceAdditionalSpecFns;
use crate::request::{
    changes_property, PropData, PropValue, PropertyQuery, ServerOp, WindowOp, WmProtocols, XRequest,
};
use crate::types::{
    Cursor, DockArea, Geometry, PointerReply, Position, Screen, Size, WindowAttributes, WindowChanges, WindowType, XAtom,
};
use crate::keys::{grab_modifier_list, grab_modifiers};
use crate::util::{c_string_bytes, contains_nul, contains_window, str_bytes, to_c_bool};
use crate::xproto::{
    ANY_BUTTON, ANY_KEY, ANY_MODIFIER, BAD_ACCESS, BAD_WINDOW, CURRENT_TIME, CW_CURSOR,
    CW_EVENT_MASK, DESTROY_ALL, GRAB_MODE_ASYNC, MOD4_MASK, NO_EVENT_MASK, PROP_MODE_APPEND, PROP_MODE_REPLACE,
    REVERT_TO_POINTER_ROOT, ROOT_EVENT_MASK, SHIFT_MASK, SUCCESS, XA_ATOM, XA_CARDINAL, XA_WINDOW, X_FALSE,
    XUTF8_STRING_STYLE,
};

verus! {

/// The name under which the window manager announces itself.
pub const WM_NAME: &'static str = "Hadlok";

/// What the display's error handler answers to an error with code `code`:
/// errors on windows that have gone away are ignored (0), all others are
/// reported (1).
pub fn error_handler(code: u8) -> (r: i32)
    ensures
        r == (if code == BAD_WINDOW { 0i32 } else { 1i32 }),
{
    if code == BAD_WINDOW {
        return 0;
    }
    1
}

/// What the error handler used while taking over the root window answers:
/// 1 when another window manager already holds the root window, else 0.
pub fn on_wm_detected(code: u8) -> (r: i32)
    ensures
        r == (if code == BAD_ACCESS { 1i32 } else { 0i32 }),
{
    if code == BAD_ACCESS {
        return 1;
    }
    0
}

/// The window manager's state on the display: its root window, the screen,
/// its cursors and the atoms it has interned.
pub struct XlibWrapper {
    pub xatom: XAtom,
    pub root: u64,
    pub screen: Screen,
    pub cursors: Cursor,
}

impl XlibWrapper {
    /// The state for root window `root` of a display `width` by `height`
    /// pixels large.
    pub fn new(root: u64, xatom: XAtom, width: i32, height: i32, cursors: Cursor) -> (w: XlibWrapper)
        ensures
            w.root == root,
            w.xatom == xatom,
            w.screen == (Screen { root, width, height, x: 0, y: 0 }),
            w.cursors == cursors,
    {
        let screen = Screen::new(root, width, height, 0, 0);
        XlibWrapper { xatom, root, screen, cursors }
    }

    pub fn get_root(&self) -> (r: u64)
        ensures
            r == self.root,
    {
        self.root
    }

    pub fn get_screen(&self) -> (s: Screen)
        ensures
            s == self.screen,
    {
        self.screen
    }

    /// Sets the property `atom` of the root window to the cardinals `data`.
    pub fn set_desktop_prop(&self, data: &[u32], atom: u64) -> (r: XRequest)
        ensures
            changes_property(
                r,
                self.root,
                atom,
                XA_CARDINAL,
                32,
                PROP_MODE_REPLACE,
                PropValue::Words(data@),
                data@.len() as i32,
            ),
    {
        let xdata = vstd::slice::slice_to_vec(data);
        XRequest::ChangeProperty {
            window: self.root,
            property: atom,
            type_: XA_CARDINAL,
            format: 32,
            mode: PROP_MODE_REPLACE,
            data: PropData::Words(xdata),
            nelements: data.len() as i32,
        }
    }

    /// Sets the property `atom` of the root window, of type `type_`, to the
    /// one item `value`, cut to 32 bits.
    pub fn set_desktop_prop_u64(&self, value: u64, atom: u64, type_: u64) -> (r: XRequest)
        ensures
            changes_property(
                r,
                self.root,
                atom,
                type_,
                32,
                PROP_MODE_REPLACE,
                PropValue::Words(seq![value as u32]),
                1,
            ),
    {
        let data = vec![value as u32];
        assert(data@ =~= seq![value as u32]);
        XRequest::ChangeProperty {
            window: self.root,
            property: atom,
            type_,
            format: 32,
            mode: PROP_MODE_REPLACE,
            data: PropData::Words(data),
            nelements: 1,
        }
    }

    /// Sets the property `atom` of the root window to the C string `value`;
    /// nothing when `value` holds a NUL byte.
    pub fn set_desktop_prop_string(&self, value: &str, atom: u64) -> (r: Option<XRequest>)
        ensures
            value.spec_bytes().contains(0u8) ==> r is None,
            !value.spec_bytes().contains(0u8) ==> (r matches Some(q) && changes_property(
                q,
                self.root,
                atom,
                XA_CARDINAL,
                32,
                PROP_MODE_REPLACE,
                PropValue::Bytes(value.spec_bytes().push(0u8)),
                value.len() as i32,
            )),
    {
        if contains_nul(value) {
            return None;
        }
        let bytes = c_string_bytes(value);
        Some(
            XRequest::ChangeProperty {
                window: self.root,
                property: atom,
                type_: XA_CARDINAL,
                format: 32,
                mode: PROP_MODE_REPLACE,
                data: PropData::Bytes(bytes),
                nelements: value.len() as i32,
            },
        )
    }

    /// Makes `desktop` the current desktop.
    pub fn ewmh_current_desktop(&self, desktop: u32) -> (r: XRequest)
        ensures
            changes_property(
                r,
                self.root,
                self.xatom.NetCurrentDesktop,
                XA_CARDINAL,
                32,
                PROP_MODE_REPLACE,
                PropValue::Words(seq![desktop, CURRENT_TIME as u32]),
                2,
            ),
    {
        let data = vec![desktop, CURRENT_TIME as u32];
        assert(data@ =~= seq![desktop, CURRENT_TIME as u32]);
        self.set_desktop_prop(data.as_slice(), self.xatom.NetCurrentDesktop)
    }

    /// Announces `num` desktops.
    pub fn set_atom_number_of_desktops(&self, num: u32) -> (r: XRequest)
        ensures
            changes_property(
                r,
                self.root,
                self.xatom.NetNumberOfDesktops,
                XA_CARDINAL,
                32,
                PROP_MODE_REPLACE,
                PropValue::Words(seq![num]),
                1,
            ),
    {
        let data = vec![num];
        assert(data@ =~= seq![num]);
        self.set_desktop_prop(data.as_slice(), self.xatom.NetNumberOfDesktops)
    }
}

impl XlibWrapper {
    /// The grab of key `code` under modifiers `m` on the root window, in
    /// asynchronous mode, the events going to the window manager too.
    pub open spec fn key_grab(self, code: u8, m: u32) -> XRequest {
        XRequest::GrabKey {
            keycode: code as i32,
            modifiers: m,
            window: self.root,
            owner_events: 1,
            pointer_mode: GRAB_MODE_ASYNC,
            keyboard_mode: GRAB_MODE_ASYNC,
        }
    }

    /// Grabs key `key_code` under `modifiers` on `grab_window`.
    pub fn grab_key(
        &self,
        key_code: u32,
        modifiers: u32,
        grab_window: u64,
        owner_event: bool,
        pointer_mode: i32,
        keyboard_mode: i32,
    ) -> (r: XRequest)
        ensures
            r == (XRequest::GrabKey {
                keycode: key_code as i32,
                modifiers,
                window: grab_window,
                owner_events: if owner_event { 1i32 } else { 0i32 },
                pointer_mode,
                keyboard_mode,
            }),
    {
        XRequest::GrabKey {
            keycode: key_code as i32,
            modifiers,
            window: grab_window,
            owner_events: to_c_bool(owner_event),
            pointer_mode,
            keyboard_mode,
        }
    }

    /// Grabs key `code` on the root window under `modifiers`, and under the
    /// same modifiers without shift, with num lock and with caps lock.
    pub fn grab_keys(&self, code: u8, modifiers: u32) -> (r: Vec<XRequest>)
        ensures
            r@.len() == 4,
            forall|j: int| 0 <= j < 4 ==> r@[j] == self.key_grab(code, #[trigger] grab_modifiers(modifiers)[j]),
    {
        let mods = grab_modifier_list(modifiers);
        let mut r: Vec<XRequest> = Vec::new();
        let mut j: usize = 0;
        while j < mods.len()
            invariant
                mods@ == grab_modifiers(modifiers),
                j <= mods@.len(),
                r@.len() == j,
                forall|k: int| 0 <= k < j ==> r@[k] == self.key_grab(code, #[trigger] grab_modifiers(modifiers)[k]),
            decreases mods@.len() - j,
        {
            let g = self.grab_key(code as u32, mods[j], self.root, true, GRAB_MODE_ASYNC, GRAB_MODE_ASYNC);
            r.push(g);
            j = j + 1;
        }
        r
    }

    /// `r` takes over the root window as `init` does, grabbing the keys
    /// `keycodes`.
    pub open spec fn is_init(self, r: Seq<XRequest>, keycodes: Seq<u8>) -> bool {
        &&& r.len() == 6 + 4 * keycodes.len()
        &&& r[0] == (XRequest::ChangeWindowAttributes {
            window: self.root,
            value_mask: CW_EVENT_MASK | CW_CURSOR,
            event_mask: ROOT_EVENT_MASK,
            cursor: self.cursors.normal_cursor,
        })
        &&& r[1] == (XRequest::SelectInput { window: self.root, event_mask: ROOT_EVENT_MASK })
        &&& changes_property(
            r[2],
            self.root,
            self.xatom.NetSupported,
            XA_ATOM,
            32,
            PROP_MODE_REPLACE,
            PropValue::Longs(self.xatom.supported()),
            self.xatom.supported().len() as i32,
        )
        &&& r[3] == (XRequest::UngrabKey { keycode: ANY_KEY, modifiers: ANY_MODIFIER, window: self.root })
        &&& r[4] == (XRequest::DeleteProperty { window: self.root, property: self.xatom.NetClientList })
        &&& forall|k: int, j: int|
            0 <= k < keycodes.len() && 0 <= j < 4 ==> #[trigger] r[5 + 4 * k + j] == self.key_grab(
                keycodes[k],
                grab_modifiers(MOD4_MASK | SHIFT_MASK)[j],
            )
        &&& r[5 + 4 * keycodes.len() as int] == (XRequest::Sync { discard: 0 })
    }

    /// Takes over the root window: listens to its events with the normal
    /// cursor, announces the supported atoms, drops every key grab and the
    /// client list, grabs the keys `keycodes` with super and shift, and
    /// waits for the display.
    pub fn init(&self, keycodes: &Vec<u8>) -> (r: Vec<XRequest>)
        ensures
            self.is_init(r@, keycodes@),
    {
        let mut r: Vec<XRequest> = Vec::new();
        r.push(
            XRequest::ChangeWindowAttributes {
                window: self.root,
                value_mask: CW_EVENT_MASK | CW_CURSOR,
                event_mask: ROOT_EVENT_MASK,
                cursor: self.cursors.normal_cursor,
            },
        );
        r.push(XRequest::SelectInput { window: self.root, event_mask: ROOT_EVENT_MASK });
        let supported = self.xatom.net_supported();
        let size: i32 = supported.len() as i32;
        r.push(
            XRequest::ChangeProperty {
                window: self.root,
                property: self.xatom.NetSupported,
                type_: XA_ATOM,
                format: 32,
                mode: PROP_MODE_REPLACE,
                data: PropData::Longs(supported),
                nelements: size,
            },
        );
        r.push(XRequest::UngrabKey { keycode: ANY_KEY, modifiers: ANY_MODIFIER, window: self.root });
        r.push(XRequest::DeleteProperty { window: self.root, property: self.xatom.NetClientList });
        let mut k: usize = 0;
        while k < keycodes.len()
            invariant
                k <= keycodes@.len(),
                r@.len() == 5 + 4 * k,
                r@[0] == (XRequest::ChangeWindowAttributes {
                    window: self.root,
                    value_mask: CW_EVENT_MASK | CW_CURSOR,
                    event_mask: ROOT_EVENT_MASK,
                    cursor: self.cursors.normal_cursor,
                }),
                r@[1] == (XRequest::SelectInput { window: self.root, event_mask: ROOT_EVENT_MASK }),
                changes_property(
                    r@[2],
                    self.root,
                    self.xatom.NetSupported,
                    XA_ATOM,
                    32,
                    PROP_MODE_REPLACE,
                    PropValue::Longs(self.xatom.supported()),
                    self.xatom.supported().len() as i32,
                ),
                r@[3] == (XRequest::UngrabKey { keycode: ANY_KEY, modifiers: ANY_MODIFIER, window: self.root }),
                r@[4] == (XRequest::DeleteProperty { window: self.root, property: self.xatom.NetClientList }),
                forall|kk: int, j: int|
                    0 <= kk < k && 0 <= j < 4 ==> #[trigger] r@[5 + 4 * kk + j] == self.key_grab(
                        keycodes@[kk],
                        grab_modifiers(MOD4_MASK | SHIFT_MASK)[j],
                    ),
            decreases keycodes@.len() - k,
        {
            let mut g = self.grab_keys(keycodes[k], MOD4_MASK | SHIFT_MASK);
            let ghost before = r@;
            r.append(&mut g);
            assert forall|kk: int, j: int|
                0 <= kk < k + 1 && 0 <= j < 4 implies #[trigger] r@[5 + 4 * kk + j] == self.key_grab(
                    keycodes@[kk],
                    grab_modifiers(MOD4_MASK | SHIFT_MASK)[j],
                ) by {
                if kk < k {
                    assert(r@[5 + 4 * kk + j] == before[5 + 4 * kk + j]);
                } else {
                    assert(r@[5 + 4 * kk + j] == r@[before.len() + j]);
                }
            }
            k = k + 1;
        }
        r.push(XRequest::Sync { discard: 0 });
        r
    }
}

/// The names of a list of strings.
pub open spec fn string_views(v: Seq<String>) -> Seq<Seq<char>> {
    Seq::new(v.len(), |i: int| v[i]@)
}

impl XlibWrapper {
    /// `r` announces the desktops named `names`, as `init_desktops_hints`
    /// does.
    pub open spec fn is_desktop_hints(self, r: Seq<XRequest>, names: Seq<Seq<char>>) -> bool {
        &&& r.len() == 3
        &&& changes_property(
            r[0],
            self.root,
            self.xatom.NetNumberOfDesktops,
            XA_CARDINAL,
            32,
            PROP_MODE_REPLACE,
            PropValue::Words(seq![names.len() as u32]),
            1,
        )
        &&& changes_property(
            r[1],
            self.root,
            self.xatom.NetCurrentDesktop,
            XA_CARDINAL,
            32,
            PROP_MODE_REPLACE,
            PropValue::Words(seq![0u32, CURRENT_TIME as u32]),
            2,
        )
        &&& r[2] matches XRequest::SetTextProperty { window, property, style, names: n } && window
            == self.root && property == self.xatom.NetDesktopNames && style == XUTF8_STRING_STYLE
            && string_views(n@) == names
    }

    /// Announces the desktops: as many as `names`, the first of them
    /// current, and their names.
    pub fn init_desktops_hints(&self, names: Vec<String>) -> (r: Vec<XRequest>)
        requires
            forall|i: int| 0 <= i < names@.len() ==> !(#[trigger] names@[i])@.contains('\0'),
        ensures
            self.is_desktop_hints(r@, string_views(names@)),
            r@[2] matches XRequest::SetTextProperty { names: n, .. } && n == names,
    {
        let mut r: Vec<XRequest> = Vec::new();
        let count = vec![names.len() as u32];
        assert(count@ =~= seq![names@.len() as u32]);
        r.push(self.set_desktop_prop(count.as_slice(), self.xatom.NetNumberOfDesktops));
        let current = vec![0u32, CURRENT_TIME as u32];
        assert(current@ =~= seq![0u32, CURRENT_TIME as u32]);
        r.push(self.set_desktop_prop(current.as_slice(), self.xatom.NetCurrentDesktop));
        r.push(
            XRequest::SetTextProperty {
                window: self.root,
                property: self.xatom.NetDesktopNames,
                style: XUTF8_STRING_STYLE,
                names,
            },
        );
        r
    }

    /// The window that carries _NET_SUPPORTING_WM_CHECK: a one-pixel
    /// input-only child of the root window, out of sight at (-1, -1).
    pub fn ewmh_check_window(&self) -> (r: XRequest)
        ensures
            r == (XRequest::CreateWindow {
                parent: self.root,
                x: -1i32,
                y: -1i32,
                width: 1,
                height: 1,
                border_width: 0,
                depth: 0,
                class: 2,
                value_mask: 1u64 << 9,
                attribute: 1,
            }),
    {
        XRequest::CreateWindow {
            parent: self.root,
            x: -1,
            y: -1,
            width: 1,
            height: 1,
            border_width: 0,
            depth: 0,
            class: 2,
            value_mask: 1 << 9,
            attribute: 1,
        }
    }

    /// `r` marks `ewmh` and the root window as `init_desktops_hints_finish`
    /// does.
    pub open spec fn is_desktop_hints_finish(self, r: Seq<XRequest>, ewmh: u64, window_atom: u64) -> bool {
        &&& r.len() == 7
        &&& changes_property(
            r[0],
            ewmh,
            self.xatom.NetSupportingWmCheck,
            window_atom,
            32,
            PROP_MODE_REPLACE,
            PropValue::Words(seq![ewmh as u32]),
            1,
        )
        &&& changes_property(
            r[1],
            ewmh,
            self.xatom.NetWMName,
            self.xatom.NetUtf8String,
            8,
            PROP_MODE_REPLACE,
            PropValue::Bytes(WM_NAME.spec_bytes()),
            5,
        )
        &&& changes_property(
            r[2],
            self.root,
            self.xatom.NetSupportingWmCheck,
            window_atom,
            32,
            PROP_MODE_REPLACE,
            PropValue::Words(seq![ewmh as u32]),
            1,
        )
        &&& changes_property(
            r[3],
            self.root,
            self.xatom.NetWMName,
            self.xatom.NetUtf8String,
            8,
            PROP_MODE_REPLACE,
            PropValue::Bytes(WM_NAME.spec_bytes()),
            5,
        )
        &&& changes_property(
            r[4],
            self.root,
            self.xatom.NetWMName,
            XA_CARDINAL,
            32,
            PROP_MODE_REPLACE,
            PropValue::Bytes(WM_NAME.spec_bytes().push(0u8)),
            WM_NAME.len() as i32,
        )
        &&& changes_property(
            r[5],
            self.root,
            self.xatom.NetSupportingWmCheck,
            XA_WINDOW,
            32,
            PROP_MODE_REPLACE,
            PropValue::Words(seq![self.root as u32]),
            1,
        )
        &&& changes_property(
            r[6],
            self.root,
            self.xatom.NetDesktopViewport,
            XA_CARDINAL,
            32,
            PROP_MODE_REPLACE,
            PropValue::Words(seq![0u32, 0u32]),
            2,
        )
    }

    /// Marks `ewmh`, the window made by `ewmh_check_window`, and the root
    /// window as belonging to the window manager, names both after it, and
    /// sets the viewport to the origin. `window_atom` is the atom WINDOW.
    pub fn init_desktops_hints_finish(&self, ewmh: u64, window_atom: u64) -> (r: Vec<XRequest>)
        ensures
            self.is_desktop_hints_finish(r@, ewmh, window_atom),
    {
        let mut r: Vec<XRequest> = Vec::new();
        let child = vec![ewmh as u32];
        assert(child@ =~= seq![ewmh as u32]);
        r.push(
            XRequest::ChangeProperty {
                window: ewmh,
                property: self.xatom.NetSupportingWmCheck,
                type_: window_atom,
                format: 32,
                mode: PROP_MODE_REPLACE,
                data: PropData::Words(child),
                nelements: 1,
            },
        );
        r.push(
            XRequest::ChangeProperty {
                window: ewmh,
                property: self.xatom.NetWMName,
                type_: self.xatom.NetUtf8String,
                format: 8,
                mode: PROP_MODE_REPLACE,
                data: PropData::Bytes(str_bytes(WM_NAME)),
                nelements: 5,
            },
        );
        let child = vec![ewmh as u32];
        assert(child@ =~= seq![ewmh as u32]);
        r.push(
            XRequest::ChangeProperty {
                window: self.root,
                property: self.xatom.NetSupportingWmCheck,
                type_: window_atom,
                format: 32,
                mode: PROP_MODE_REPLACE,
                data: PropData::Words(child),
                nelements: 1,
            },
        );
        r.push(
            XRequest::ChangeProperty {
                window: self.root,
                property: self.xatom.NetWMName,
                type_: self.xatom.NetUtf8String,
                format: 8,
                mode: PROP_MODE_REPLACE,
                data: PropData::Bytes(str_bytes(WM_NAME)),
                nelements: 5,
            },
        );
        assert(!WM_NAME.spec_bytes().contains(0u8)) by {
            reveal_strlit("Hadlok");
            broadcast use vstd::string::is_ascii_spec_bytes;
            assert(vstd::string::is_ascii(WM_NAME));
            assert(forall|i: int| 0 <= i < WM_NAME@.len() ==> WM_NAME@[i] != '\0');
        }
        let name = self.set_desktop_prop_string(WM_NAME, self.xatom.NetWMName);
        match name {
            Some(q) => r.push(q),
            None => {},
        }
        r.push(self.set_desktop_prop_u64(self.root, self.xatom.NetSupportingWmCheck, XA_WINDOW));
        let viewport = vec![0u32, 0u32];
        assert(viewport@ =~= seq![0u32, 0u32]);
        r.push(self.set_desktop_prop(viewport.as_slice(), self.xatom.NetDesktopViewport));
        r
    }

    /// Interns the atom named `s`, creating it if need be.
    pub fn get_atom(&self, s: &str) -> (r: XRequest)
        requires
            !s.spec_bytes().contains(0u8),
        ensures
            r matches XRequest::InternAtom { name, only_if_exists } && name@ == s@ && only_if_exists == 0,
    {
        XRequest::InternAtom { name: s.to_owned(), only_if_exists: 0 }
    }

    /// Looks up the atom named `s`, without creating it.
    pub fn get_atom_if_exists(&self, s: &str) -> (r: XRequest)
        requires
            !s.spec_bytes().contains(0u8),
        ensures
            r matches XRequest::InternAtom { name, only_if_exists } && name@ == s@ && only_if_exists == 1,
    {
        XRequest::InternAtom { name: s.to_owned(), only_if_exists: 1 }
    }

    /// Interns the atom named `s`, creating it if need be.
    pub fn intern_atom(&self, s: &str) -> (r: XRequest)
        requires
            !s.spec_bytes().contains(0u8),
        ensures
            r matches XRequest::InternAtom { name, only_if_exists } && name@ == s@ && only_if_exists == 0,
    {
        XRequest::InternAtom { name: s.to_owned(), only_if_exists: 0 }
    }
}

impl XlibWrapper {
    /// Shows the normal cursor on the root window.
    pub fn set_cursor_normal(&self) -> (r: XRequest)
        ensures
            r == (XRequest::DefineCursor { window: self.root, cursor: self.cursors.normal_cursor }),
    {
        XRequest::DefineCursor { window: self.root, cursor: self.cursors.normal_cursor }
    }

    /// Shows the cursor for moving windows on the root window.
    pub fn set_cursor_move(&self) -> (r: XRequest)
        ensures
            r == (XRequest::DefineCursor { window: self.root, cursor: self.cursors.move_cursor }),
    {
        XRequest::DefineCursor { window: self.root, cursor: self.cursors.move_cursor }
    }

    /// The attributes that a read answered with `status` returned: `attrs`
    /// when the read succeeded, an error when its status is 0.
    pub fn get_window_attrs<A>(&self, status: i32, attrs: A) -> (r: Result<A, ()>)
        ensures
            r == (if status == 0 { Err::<A, ()>(()) } else { Ok(attrs) }),
    {
        if status == 0 {
            return Err(());
        }
        Ok(attrs)
    }

    pub fn add_to_save_set(&self, w: u64) -> (r: XRequest)
        ensures
            r == (XRequest::Window { op: WindowOp::AddToSaveSet, window: w }),
    {
        XRequest::Window { op: WindowOp::AddToSaveSet, window: w }
    }

    pub fn remove_from_save_set(&self, w: u64) -> (r: XRequest)
        ensures
            r == (XRequest::Window { op: WindowOp::RemoveFromSaveSet, window: w }),
    {
        XRequest::Window { op: WindowOp::RemoveFromSaveSet, window: w }
    }

    pub fn map_window(&self, window: u64) -> (r: XRequest)
        ensures
            r == (XRequest::Window { op: WindowOp::MapWindow, window }),
    {
        XRequest::Window { op: WindowOp::MapWindow, window }
    }

    pub fn unmap_window(&self, w: u64) -> (r: XRequest)
        ensures
            r == (XRequest::Window { op: WindowOp::UnmapWindow, window: w }),
    {
        XRequest::Window { op: WindowOp::UnmapWindow, window: w }
    }

    pub fn raise_window(&self, w: u64) -> (r: XRequest)
        ensures
            r == (XRequest::Window { op: WindowOp::RaiseWindow, window: w }),
    {
        XRequest::Window { op: WindowOp::RaiseWindow, window: w }
    }

    pub fn destroy_window(&self, w: u64) -> (r: XRequest)
        ensures
            r == (XRequest::Window { op: WindowOp::DestroyWindow, window: w }),
    {
        XRequest::Window { op: WindowOp::DestroyWindow, window: w }
    }

    pub fn grab_server(&self) -> (r: XRequest)
        ensures
            r == (XRequest::Server { op: ServerOp::Grab }),
    {
        XRequest::Server { op: ServerOp::Grab }
    }

    pub fn ungrab_server(&self) -> (r: XRequest)
        ensures
            r == (XRequest::Server { op: ServerOp::Ungrab }),
    {
        XRequest::Server { op: ServerOp::Ungrab }
    }

    /// Closes the connection.
    pub fn exit(&self) -> (r: XRequest)
        ensures
            r == (XRequest::Server { op: ServerOp::Close }),
    {
        XRequest::Server { op: ServerOp::Close }
    }

    /// Waits until the display has handled every request, dropping the
    /// events queued so far when `discard` holds.
    pub fn sync(&self, discard: bool) -> (r: XRequest)
        ensures
            r == (XRequest::Sync { discard: if discard { 1i32 } else { 0i32 } }),
    {
        XRequest::Sync { discard: to_c_bool(discard) }
    }

    pub fn move_window(&self, w: u64, position: Position) -> (r: XRequest)
        ensures
            r == (XRequest::MoveWindow { window: w, x: position.x, y: position.y }),
    {
        let Position { x, y } = position;
        XRequest::MoveWindow { window: w, x, y }
    }

    pub fn resize_window(&self, w: u64, width: u32, height: u32) -> (r: XRequest)
        ensures
            r == (XRequest::ResizeWindow { window: w, width, height }),
    {
        XRequest::ResizeWindow { window: w, width, height }
    }

    /// Listens to the events `masks` on `window`.
    pub fn select_input(&self, window: u64, masks: i64) -> (r: XRequest)
        ensures
            r == (XRequest::SelectInput { window, event_mask: masks }),
    {
        XRequest::SelectInput { window, event_mask: masks }
    }

    /// Clears the active window (whichever window `_w` is).
    pub fn remove_focus(&self, _w: u64) -> (r: XRequest)
        ensures
            r == (XRequest::DeleteProperty { window: self.root, property: self.xatom.NetActiveWindow }),
    {
        XRequest::DeleteProperty { window: self.root, property: self.xatom.NetActiveWindow }
    }

    /// Whether a client whose protocols are `protocols` takes part in the
    /// protocol `atom`.
    pub open spec fn expects(protocols: &WmProtocols, atom: u64) -> bool {
        protocols.status > 0 && protocols.atoms@.contains(atom)
    }

    pub fn expects_xevent_atom(&self, protocols: &WmProtocols, atom: u64) -> (r: bool)
        ensures
            r == Self::expects(protocols, atom),
    {
        protocols.status > 0 && contains_window(&protocols.atoms, atom)
    }

    /// The WM_PROTOCOLS message `atom` to `window`, sent now.
    pub open spec fn protocol_message(self, window: u64, atom: u64) -> XRequest {
        XRequest::SendClientMessage {
            window,
            propagate: 0,
            event_mask: NO_EVENT_MASK,
            message_type: self.xatom.WMProtocols,
            format: 32,
            data0: atom as i64,
            data1: CURRENT_TIME as i64,
        }
    }

    /// The WM_PROTOCOLS message `atom` to `window`, when the client, whose
    /// protocols are `protocols`, takes part in that protocol.
    pub fn send_xevent_atom(&self, window: u64, atom: u64, protocols: &WmProtocols) -> (r: Option<XRequest>)
        ensures
            r == (if Self::expects(protocols, atom) {
                Some(self.protocol_message(window, atom))
            } else {
                None
            }),
    {
        if self.expects_xevent_atom(protocols, atom) {
            return Some(
                XRequest::SendClientMessage {
                    window,
                    propagate: 0,
                    event_mask: NO_EVENT_MASK,
                    message_type: self.xatom.WMProtocols,
                    format: 32,
                    data0: atom as i64,
                    data1: CURRENT_TIME as i64,
                },
            );
        }
        None
    }

    /// `r` gives `w` the focus, as `take_focus` does for a client whose
    /// protocols are `protocols`.
    pub open spec fn is_take_focus(self, r: Seq<XRequest>, w: u64, protocols: &WmProtocols) -> bool {
        &&& r.len() == (if Self::expects(protocols, self.xatom.WMTakeFocus) { 4int } else { 3int })
        &&& r[0] == (XRequest::SetInputFocus { window: w, revert_to: REVERT_TO_POINTER_ROOT, time: CURRENT_TIME })
        &&& changes_property(
            r[1],
            self.root,
            self.xatom.NetActiveWindow,
            XA_WINDOW,
            32,
            PROP_MODE_REPLACE,
            PropValue::Longs(seq![w]),
            1,
        )
        &&& Self::expects(protocols, self.xatom.WMTakeFocus) ==> r[2] == self.protocol_message(w, self.xatom.WMTakeFocus)
        &&& r.last() == (XRequest::Sync { discard: 0 })
    }

    /// Gives the input focus to `w`, makes it the active window, offers it
    /// the focus by WM_TAKE_FOCUS when it takes part in that protocol
    /// (its protocols are `protocols`), and waits for the display.
    pub fn take_focus(&self, w: u64, protocols: &WmProtocols) -> (r: Vec<XRequest>)
        ensures
            self.is_take_focus(r@, w, protocols),
    {
        let mut r: Vec<XRequest> = Vec::new();
        r.push(XRequest::SetInputFocus { window: w, revert_to: REVERT_TO_POINTER_ROOT, time: CURRENT_TIME });
        let list = vec![w];
        assert(list@ =~= seq![w]);
        r.push(
            XRequest::ChangeProperty {
                window: self.root,
                property: self.xatom.NetActiveWindow,
                type_: XA_WINDOW,
                format: 32,
                mode: PROP_MODE_REPLACE,
                data: PropData::Longs(list),
                nelements: 1,
            },
        );
        match self.send_xevent_atom(w, self.xatom.WMTakeFocus, protocols) {
            Some(m) => r.push(m),
            None => {},
        }
        r.push(self.sync(false));
        r
    }

    /// Sets the background of `w` to `pixel` and shows it by mapping `w`
    /// anew; nothing for the root window.
    pub fn set_window_background_color(&self, w: u64, pixel: u64) -> (r: Vec<XRequest>)
        ensures
            w == self.root ==> r@.len() == 0,
            w != self.root ==> r@ == seq![
                XRequest::SetWindowBackground { window: w, pixel },
                XRequest::Window { op: WindowOp::UnmapWindow, window: w },
                XRequest::Window { op: WindowOp::MapWindow, window: w },
                XRequest::Sync { discard: 0 },
            ],
    {
        let mut r: Vec<XRequest> = Vec::new();
        if w == self.root {
            return r;
        }
        r.push(XRequest::SetWindowBackground { window: w, pixel });
        r.push(self.unmap_window(w));
        r.push(self.map_window(w));
        r.push(XRequest::Sync { discard: 0 });
        r
    }

    /// Sets the border of `w` to `pixel`; nothing for the root window.
    pub fn set_border_color(&self, w: u64, pixel: u64) -> (r: Vec<XRequest>)
        ensures
            w == self.root ==> r@.len() == 0,
            w != self.root ==> r@ == seq![
                XRequest::SetWindowBorder { window: w, pixel },
                XRequest::Sync { discard: 0 },
            ],
    {
        let mut r: Vec<XRequest> = Vec::new();
        if w == self.root {
            return r;
        }
        r.push(XRequest::SetWindowBorder { window: w, pixel });
        r.push(XRequest::Sync { discard: 0 });
        r
    }

    /// Sets the border width of `w`; nothing for the root window.
    pub fn set_border_width(&self, w: u64, border_width: u32) -> (r: Vec<XRequest>)
        ensures
            w == self.root ==> r@.len() == 0,
            w != self.root ==> r@ == seq![XRequest::SetWindowBorderWidth { window: w, width: border_width }],
    {
        let mut r: Vec<XRequest> = Vec::new();
        if w == self.root {
            return r;
        }
        r.push(XRequest::SetWindowBorderWidth { window: w, width: border_width });
        r
    }

    /// The middle of a window of size `size`, relative to the window.
    pub open spec fn center(size: Size) -> Position {
        Position { x: (size.width / 2) as i32, y: (size.height / 2) as i32 }
    }

    /// Where the pointer is, relative to the root window, by a pointer
    /// query's reply.
    pub fn pointer_root_pos(&self, reply: &PointerReply) -> (pos: Position)
        ensures
            pos == (Position { x: reply.root_x, y: reply.root_y }),
    {
        Position { x: reply.root_x, y: reply.root_y }
    }

    /// Moves the pointer to the middle of `window`, whose size is `size`.
    pub fn center_cursor(&self, window: u64, size: Size) -> (r: Vec<XRequest>)
        ensures
            r@ == seq![
                XRequest::WarpPointer {
                    src: 0,
                    dest: window,
                    src_x: 0,
                    src_y: 0,
                    src_width: 0,
                    src_height: 0,
                    dest_x: Self::center(size).x,
                    dest_y: Self::center(size).y,
                },
                XRequest::Server { op: ServerOp::Flush },
            ],
            0 <= Self::center(size).x && 2 * Self::center(size).x <= size.width,
            0 <= Self::center(size).y && 2 * Self::center(size).y <= size.height,
    {
        let pos = Position { x: (size.width / 2) as i32, y: (size.height / 2) as i32 };
        let mut r: Vec<XRequest> = Vec::new();
        r.push(
            XRequest::WarpPointer {
                src: 0,
                dest: window,
                src_x: 0,
                src_y: 0,
                src_width: 0,
                src_height: 0,
                dest_x: pos.x,
                dest_y: pos.y,
            },
        );
        r.push(XRequest::Server { op: ServerOp::Flush });
        r
    }

    /// Applies `changes` to `window`, those that `value_mask`, cut to 32
    /// bits, selects.
    pub fn configure_window(&self, window: u64, value_mask: i64, changes: WindowChanges) -> (r: XRequest)
        ensures
            r == (XRequest::ConfigureWindow { window, value_mask: value_mask as u32, changes }),
    {
        XRequest::ConfigureWindow { window, value_mask: value_mask as u32, changes }
    }

    /// Grabs the keyboard for `w`, in asynchronous mode.
    pub fn grab_keyboard(&self, w: u64) -> (r: XRequest)
        ensures
            r == (XRequest::GrabKeyboard {
                window: w,
                owner_events: 0,
                pointer_mode: GRAB_MODE_ASYNC,
                keyboard_mode: GRAB_MODE_ASYNC,
                time: CURRENT_TIME,
            }),
    {
        XRequest::GrabKeyboard {
            window: w,
            owner_events: to_c_bool(false),
            pointer_mode: GRAB_MODE_ASYNC,
            keyboard_mode: GRAB_MODE_ASYNC,
            time: CURRENT_TIME,
        }
    }

    /// `r` appends `w` to the client list of the root window.
    pub open spec fn appends_client(self, r: XRequest, w: u64) -> bool {
        changes_property(
            r,
            self.root,
            self.xatom.NetClientList,
            XA_WINDOW,
            32,
            PROP_MODE_APPEND,
            PropValue::Longs(seq![w]),
            1,
        )
    }

    /// Appends the window id `w` to the client list.
    pub fn add_to_root_net_client_list(&self, w: u64) -> (r: XRequest)
        ensures
            self.appends_client(r, w),
    {
        let list = vec![w];
        assert(list@ =~= seq![w]);
        XRequest::ChangeProperty {
            window: self.root,
            property: self.xatom.NetClientList,
            type_: XA_WINDOW,
            format: 32,
            mode: PROP_MODE_APPEND,
            data: PropData::Longs(list),
            nelements: 1,
        }
    }

    /// `r` deletes the client list and then appends `clients` to it one by
    /// one.
    pub open spec fn is_client_list_update(self, r: Seq<XRequest>, clients: Seq<u64>) -> bool {
        &&& r.len() == clients.len() + 1
        &&& r[0] == (XRequest::DeleteProperty { window: self.root, property: self.xatom.NetClientList })
        &&& forall|i: int| 0 <= i < clients.len() ==> self.appends_client(#[trigger] r[i + 1], clients[i])
    }

    /// Replaces the client list by `clients`, each written as its window
    /// id.
    pub fn update_net_client_list(&self, clients: Vec<u64>) -> (r: Vec<XRequest>)
        ensures
            self.is_client_list_update(r@, clients@),
    {
        let mut r: Vec<XRequest> = Vec::new();
        r.push(XRequest::DeleteProperty { window: self.root, property: self.xatom.NetClientList });
        let mut i: usize = 0;
        while i < clients.len()
            invariant
                i <= clients@.len(),
                r@.len() == i + 1,
                r@[0] == (XRequest::DeleteProperty { window: self.root, property: self.xatom.NetClientList }),
                forall|k: int| 0 <= k < i ==> self.appends_client(#[trigger] r@[k + 1], clients@[k]),
            decreases clients@.len() - i,
        {
            let q = self.add_to_root_net_client_list(clients[i]);
            r.push(q);
            i = i + 1;
        }
        r
    }

    /// Creates a child of `w` at `pos` of size `size`, with a border of
    /// `border_width` pixels in `border_pixel` and background `bg_pixel`.
    pub fn create_simple_window(
        &self,
        w: u64,
        pos: Position,
        size: Size,
        border_width: u32,
        border_pixel: u64,
        bg_pixel: u64,
    ) -> (r: XRequest)
        ensures
            r == (XRequest::CreateSimpleWindow {
                parent: w,
                x: pos.x,
                y: pos.y,
                width: size.width,
                height: size.height,
                border_width,
                border: border_pixel,
                background: bg_pixel,
            }),
    {
        XRequest::CreateSimpleWindow {
            parent: w,
            x: pos.x,
            y: pos.y,
            width: size.width,
            height: size.height,
            border_width,
            border: border_pixel,
            background: bg_pixel,
        }
    }

    /// Where a window with attributes `attrs` stands and how large it is,
    /// its width and height taken as unsigned.
    pub fn get_geometry(&self, attrs: &WindowAttributes) -> (g: Geometry)
        ensures
            g == (Geometry { x: attrs.x, y: attrs.y, width: attrs.width as u32, height: attrs.height as u32 }),
    {
        Geometry { x: attrs.x, y: attrs.y, width: attrs.width as u32, height: attrs.height as u32 }
    }

    /// Drops every key grab on the root window (whichever window `_w` is).
    pub fn ungrab_keys(&self, _w: u64) -> (r: XRequest)
        ensures
            r == (XRequest::UngrabKey { keycode: ANY_KEY, modifiers: ANY_MODIFIER, window: self.root }),
    {
        XRequest::UngrabKey { keycode: ANY_KEY, modifiers: ANY_MODIFIER, window: self.root }
    }

    /// Drops every button grab on `w`.
    pub fn ungrab_all_buttons(&self, w: u64) -> (r: XRequest)
        ensures
            r == (XRequest::UngrabButton { button: ANY_BUTTON as u32, modifiers: ANY_MODIFIER, window: w }),
    {
        XRequest::UngrabButton { button: ANY_BUTTON as u32, modifiers: ANY_MODIFIER, window: w }
    }

    pub fn grab_button(
        &self,
        button: u32,
        modifiers: u32,
        grab_window: u64,
        owner_events: bool,
        event_mask: u32,
        pointer_mode: i32,
        keyboard_mode: i32,
        confine_to: u64,
        cursor: u64,
    ) -> (r: XRequest)
        ensures
            r == (XRequest::GrabButton {
                button,
                modifiers,
                window: grab_window,
                owner_events: if owner_events { 1i32 } else { 0i32 },
                event_mask,
                pointer_mode,
                keyboard_mode,
                confine_to,
                cursor,
            }),
    {
        XRequest::GrabButton {
            button,
            modifiers,
            window: grab_window,
            owner_events: to_c_bool(owner_events),
            event_mask,
            pointer_mode,
            keyboard_mode,
            confine_to,
            cursor,
        }
    }
}

impl XlibWrapper {
    /// The read of the first atoms of property `prop` of `window`.
    pub fn atom_prop_query(&self, window: u64, prop: u64) -> (q: PropertyQuery)
        ensures
            q == (PropertyQuery {
                window,
                property: prop,
                offset: 0,
                length: 1024,
                delete: X_FALSE,
                req_type: XA_ATOM,
            }),
    {
        PropertyQuery { window, property: prop, offset: 0, length: 1024, delete: X_FALSE, req_type: XA_ATOM }
    }

    /// The read of the window type of `w`.
    pub fn window_type_query(&self, w: u64) -> (q: PropertyQuery)
        ensures
            q == (PropertyQuery {
                window: w,
                property: self.xatom.NetWMWindowType,
                offset: 0,
                length: 1024,
                delete: X_FALSE,
                req_type: XA_ATOM,
            }),
    {
        self.atom_prop_query(w, self.xatom.NetWMWindowType)
    }

    /// The atom that an atom property read returned: its first atom when
    /// the read succeeded and returned data (`first`, `None` when the
    /// returned data was null), else none.
    pub fn get_atom_prop_value(&self, status: i32, first: Option<u64>) -> (r: Option<u64>)
        ensures
            r == (if status == SUCCESS { first } else { None }),
    {
        if status == SUCCESS {
            if let Some(atom) = first {
                return Some(atom);
            }
        }
        None
    }

    /// The window type that the atom `value` of _NET_WM_WINDOW_TYPE names.
    pub open spec fn window_type_of(self, value: Option<u64>) -> WindowType {
        match value {
            Some(v) => if v == self.xatom.NetWMWindowTypeDesktop {
                WindowType::Desktop
            } else if v == self.xatom.NetWMWindowTypeDock {
                WindowType::Dock
            } else if v == self.xatom.NetWMWindowTypeToolbar {
                WindowType::Toolbar
            } else if v == self.xatom.NetWMWindowTypeMenu {
                WindowType::Menu
            } else if v == self.xatom.NetWMWindowTypeUtility {
                WindowType::Utility
            } else if v == self.xatom.NetWMWindowTypeSplash {
                WindowType::Splash
            } else if v == self.xatom.NetWMWindowTypeDialog {
                WindowType::Dialog
            } else {
                WindowType::Normal
            },
            None => WindowType::Normal,
        }
    }

    /// The type of a window whose _NET_WM_WINDOW_TYPE read gave `value`;
    /// a window without one, or with an unknown one, is normal.
    pub fn get_window_type(&self, value: Option<u64>) -> (t: WindowType)
        ensures
            t == self.window_type_of(value),
    {
        if let Some(value) = value {
            if value == self.xatom.NetWMWindowTypeDesktop {
                return WindowType::Desktop;
            }
            if value == self.xatom.NetWMWindowTypeDock {
                return WindowType::Dock;
            }
            if value == self.xatom.NetWMWindowTypeToolbar {
                return WindowType::Toolbar;
            }
            if value == self.xatom.NetWMWindowTypeMenu {
                return WindowType::Menu;
            }
            if value == self.xatom.NetWMWindowTypeUtility {
                return WindowType::Utility;
            }
            if value == self.xatom.NetWMWindowTypeSplash {
                return WindowType::Splash;
            }
            if value == self.xatom.NetWMWindowTypeDialog {
                return WindowType::Dialog;
            }
        }
        WindowType::Normal
    }

    /// The read of the _NET_WM_STRUT_PARTIAL cardinals of `window`.
    pub fn strut_partial_query(&self, window: u64) -> (q: PropertyQuery)
        ensures
            q == (PropertyQuery {
                window,
                property: self.xatom.NetWMStrutPartial,
                offset: 0,
                length: 4096,
                delete: X_FALSE,
                req_type: XA_CARDINAL,
            }),
    {
        PropertyQuery {
            window,
            property: self.xatom.NetWMStrutPartial,
            offset: 0,
            length: 4096,
            delete: X_FALSE,
            req_type: XA_CARDINAL,
        }
    }

    /// The read of the _NET_WM_STRUT cardinals of `window`.
    pub fn strut_query(&self, window: u64) -> (q: PropertyQuery)
        ensures
            q == (PropertyQuery {
                window,
                property: self.xatom.NetWMStrut,
                offset: 0,
                length: 4096,
                delete: X_FALSE,
                req_type: XA_CARDINAL,
            }),
    {
        PropertyQuery {
            window,
            property: self.xatom.NetWMStrut,
            offset: 0,
            length: 4096,
            delete: X_FALSE,
            req_type: XA_CARDINAL,
        }
    }

    /// The dock area that a strut read answered with `status` and the
    /// cardinals `items` describes: one when the read succeeded and gave
    /// exactly twelve cardinals.
    pub fn strut_from_reply(&self, status: i32, items: &[i64]) -> (d: Option<DockArea>)
        ensures
            d == (if status == SUCCESS && items@.len() == 12 {
                Some(DockArea::from_seq(items@))
            } else {
                None
            }),
    {
        if status == SUCCESS {
            if items.len() == 12 {
                return Some(DockArea::from_slice(items));
            }
            None
        } else {
            None
        }
    }

    /// The dock area of a window: the one its _NET_WM_STRUT_PARTIAL gives
    /// (`partial`), else the one its _NET_WM_STRUT gives (`strut`).
    pub fn get_window_strut_array(&self, partial: Option<DockArea>, strut: Option<DockArea>) -> (d: Option<DockArea>)
        ensures
            d == (if partial is Some { partial } else { strut }),
    {
        if let Some(d) = partial {
            return Some(d);
        }
        if let Some(d) = strut {
            return Some(d);
        }
        None
    }

    /// `r` closes `w` as `kill_client` does for a client whose protocols
    /// are `protocols`.
    pub open spec fn is_kill_client(self, r: Seq<XRequest>, w: u64, protocols: &WmProtocols) -> bool {
        &&& Self::expects(protocols, self.xatom.WMDelete) ==> r == seq![
            self.protocol_message(w, self.xatom.WMDelete),
        ]
        &&& !Self::expects(protocols, self.xatom.WMDelete) ==> r == seq![
            XRequest::Server { op: ServerOp::Grab },
            XRequest::SetCloseDownMode { mode: DESTROY_ALL },
            XRequest::Window { op: WindowOp::KillClient, window: w },
            XRequest::Sync { discard: X_FALSE },
            XRequest::Server { op: ServerOp::Ungrab },
        ]
    }

    /// Closes `w`: by a WM_DELETE_WINDOW message when the client takes
    /// part in that protocol (its protocols are `protocols`), else by
    /// killing the client with the server grabbed.
    pub fn kill_client(&self, w: u64, protocols: &WmProtocols) -> (r: Vec<XRequest>)
        ensures
            Self::expects(protocols, self.xatom.WMDelete) ==> r@ == seq![
                self.protocol_message(w, self.xatom.WMDelete),
            ],
            !Self::expects(protocols, self.xatom.WMDelete) ==> r@ == seq![
                XRequest::Server { op: ServerOp::Grab },
                XRequest::SetCloseDownMode { mode: DESTROY_ALL },
                XRequest::Window { op: WindowOp::KillClient, window: w },
                XRequest::Sync { discard: X_FALSE },
                XRequest::Server { op: ServerOp::Ungrab },
            ],
            self.is_kill_client(r@, w, protocols),
    {
        let mut r: Vec<XRequest> = Vec::new();
        match self.send_xevent_atom(w, self.xatom.WMDelete, protocols) {
            Some(m) => {
                r.push(m);
            },
            None => {
                r.push(XRequest::Server { op: ServerOp::Grab });
                r.push(XRequest::SetCloseDownMode { mode: DESTROY_ALL });
                r.push(XRequest::Window { op: WindowOp::KillClient, window: w });
                r.push(XRequest::Sync { discard: X_FALSE });
                r.push(XRequest::Server { op: ServerOp::Ungrab });
            },
        }
        r
    }

    /// Whether `w` is gone, the top-level windows now being `top_level`.
    pub fn client_killed(&self, top_level: &Vec<u64>, w: u64) -> (r: bool)
        ensures
            r == !top_level@.contains(w),
    {
        !contains_window(top_level, w)
    }

    /// The number of top-level windows `windows`, cut to 32 bits.
    pub fn top_level_window_count(&self, windows: &Vec<u64>) -> (n: u32)
        ensures
            n == windows@.len() as u32,
    {
        windows.len() as u32
    }
}

} // verus!
