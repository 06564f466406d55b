//! The requests that the window manager sends to the display, as plain
//! values, and a model of what they do to the properties of windows.
use vstd::prelude::*;
use crate::types::WindowChanges;
use crate::xproto::{ANY_BUTTON, ANY_KEY, ANY_MODIFIER, CW_CURSOR, PROP_MODE_APPEND, PROP_MODE_PREPEND, PROP_MODE_REPLACE};

verus! {

/// The elements of a property, as they are handed to the display: 32-bit
/// items held in `long`s (window ids, atoms), 32-bit items held in `u32`s,
/// or bytes.
#[derive(Debug, PartialEq, Eq)]
pub enum PropData {
    Longs(Vec<u64>),
    Words(Vec<u32>),
    Bytes(Vec<u8>),
}

/// What a `PropData` holds.
pub enum PropValue {
    Longs(Seq<u64>),
    Words(Seq<u32>),
    Bytes(Seq<u8>),
}

impl View for PropData {
    type V = PropValue;

    open spec fn view(&self) -> PropValue {
        match self {
            PropData::Longs(v) => PropValue::Longs(v@),
            PropData::Words(v) => PropValue::Words(v@),
            PropData::Bytes(v) => PropValue::Bytes(v@),
        }
    }
}

/// A request that acts on one window and carries nothing else.
#[derive(Clone, Copy, Debug, PartialEq, Eq)]
pub enum WindowOp {
    MapWindow,
    UnmapWindow,
    RaiseWindow,
    DestroyWindow,
    AddToSaveSet,
    RemoveFromSaveSet,
    KillClient,
}

/// A request that acts on the connection as a whole.
#[derive(Clone, Copy, Debug, PartialEq, Eq)]
pub enum ServerOp {
    Grab,
    Ungrab,
    Flush,
    Close,
}

/// One request to the display. Each variant carries the arguments of one
/// Xlib call; `CreateWindow`, `CreateSimpleWindow` and `InternAtom` are
/// answered with a window or an atom.
#[derive(Debug, PartialEq, Eq)]
pub enum XRequest {
    Window { op: WindowOp, window: u64 },
    Server { op: ServerOp },
    Sync { discard: i32 },
    ChangeWindowAttributes { window: u64, value_mask: u64, event_mask: i64, cursor: u64 },
    SelectInput { window: u64, event_mask: i64 },
    ChangeProperty {
        window: u64,
        property: u64,
        type_: u64,
        format: i32,
        mode: i32,
        data: PropData,
        nelements: i32,
    },
    DeleteProperty { window: u64, property: u64 },
    SetTextProperty { window: u64, property: u64, style: i32, names: Vec<String> },
    CreateWindow {
        parent: u64,
        x: i32,
        y: i32,
        width: u32,
        height: u32,
        border_width: u32,
        depth: i32,
        class: u32,
        value_mask: u64,
        attribute: u32,
    },
    CreateSimpleWindow {
        parent: u64,
        x: i32,
        y: i32,
        width: u32,
        height: u32,
        border_width: u32,
        border: u64,
        background: u64,
    },
    InternAtom { name: String, only_if_exists: i32 },
    DefineCursor { window: u64, cursor: u64 },
    SetInputFocus { window: u64, revert_to: i32, time: u64 },
    SendClientMessage {
        window: u64,
        propagate: i32,
        event_mask: i64,
        message_type: u64,
        format: i32,
        data0: i64,
        data1: i64,
    },
    SetWindowBackground { window: u64, pixel: u64 },
    SetWindowBorder { window: u64, pixel: u64 },
    SetWindowBorderWidth { window: u64, width: u32 },
    MoveWindow { window: u64, x: i32, y: i32 },
    ResizeWindow { window: u64, width: u32, height: u32 },
    ConfigureWindow { window: u64, value_mask: u32, changes: WindowChanges },
    WarpPointer {
        src: u64,
        dest: u64,
        src_x: i32,
        src_y: i32,
        src_width: u32,
        src_height: u32,
        dest_x: i32,
        dest_y: i32,
    },
    GrabKeyboard { window: u64, owner_events: i32, pointer_mode: i32, keyboard_mode: i32, time: u64 },
    GrabKey {
        keycode: i32,
        modifiers: u32,
        window: u64,
        owner_events: i32,
        pointer_mode: i32,
        keyboard_mode: i32,
    },
    UngrabKey { keycode: i32, modifiers: u32, window: u64 },
    GrabButton {
        button: u32,
        modifiers: u32,
        window: u64,
        owner_events: i32,
        event_mask: u32,
        pointer_mode: i32,
        keyboard_mode: i32,
        confine_to: u64,
        cursor: u64,
    },
    UngrabButton { button: u32, modifiers: u32, window: u64 },
    SetCloseDownMode { mode: i32 },
}

/// A read of a window property: the arguments of one XGetWindowProperty.
#[derive(Clone, Copy, Debug, PartialEq, Eq)]
pub struct PropertyQuery {
    pub window: u64,
    pub property: u64,
    pub offset: i64,
    pub length: i64,
    pub delete: i32,
    pub req_type: u64,
}

/// The protocols that a client takes part in, as XGetWMProtocols answered:
/// its status and the atoms it listed.
#[derive(Debug, PartialEq, Eq)]
pub struct WmProtocols {
    pub status: i32,
    pub atoms: Vec<u64>,
}

/// `r` sets the property `property` of `window` to, or extends it with,
/// `value`, as `nelements` elements of type `type_` and format `format`.
pub open spec fn changes_property(
    r: XRequest,
    window: u64,
    property: u64,
    type_: u64,
    format: i32,
    mode: i32,
    value: PropValue,
    nelements: i32,
) -> bool {
    match r {
        XRequest::ChangeProperty { window: w, property: p, type_: t, format: f, mode: m, data, nelements: n } => {
            &&& w == window
            &&& p == property
            &&& t == type_
            &&& f == format
            &&& m == mode
            &&& data@ == value
            &&& n == nelements
        },
        _ => false,
    }
}

/// The properties of all windows: for a window and a property, its items,
/// `None` standing for an item whose value was read from past the end of
/// the buffer handed to the display, and so is not known.
pub type Properties = Map<(u64, u64), Seq<Option<int>>>;

/// The 16-bit unit `k` (0 to 3, least significant first) of a 64-bit value.
pub open spec fn quarter(v: int, k: int) -> int {
    if k == 0 {
        v % 0x1_0000
    } else if k == 1 {
        (v / 0x1_0000) % 0x1_0000
    } else if k == 2 {
        (v / 0x1_0000_0000) % 0x1_0000
    } else {
        (v / 0x1_0000_0000_0000) % 0x1_0000
    }
}

/// The byte `k` (0 to 7, least significant first) of a 64-bit value.
pub open spec fn byte_of(v: int, k: int) -> int {
    if k % 2 == 0 {
        quarter(v, k / 2) % 0x100
    } else {
        quarter(v, k / 2) / 0x100
    }
}

/// Item `i` of a property written in format `format` from the buffer that
/// `data` holds, as Xlib reads it on a 64-bit little-endian machine: for
/// format 32 each item is the low half of a C long (8 bytes), for format 16
/// a C short, for format 8 a byte.
pub open spec fn item(data: PropValue, format: i32, i: int) -> Option<int> {
    if format == 32 {
        match data {
            PropValue::Longs(v) => if i < v.len() { Some((v[i] as u32) as int) } else { None },
            PropValue::Words(v) => if 2 * i < v.len() { Some(v[2 * i] as int) } else { None },
            PropValue::Bytes(v) => if 8 * i + 3 < v.len() {
                Some(v[8 * i] + 0x100 * v[8 * i + 1] + 0x1_0000 * v[8 * i + 2] + 0x100_0000 * v[8 * i + 3])
            } else {
                None
            },
        }
    } else if format == 16 {
        match data {
            PropValue::Longs(v) => if i / 4 < v.len() { Some(quarter(v[i / 4] as int, i % 4)) } else { None },
            PropValue::Words(v) => if i / 2 < v.len() { Some(quarter(v[i / 2] as int, i % 2)) } else { None },
            PropValue::Bytes(v) => if 2 * i + 1 < v.len() { Some(v[2 * i] + 0x100 * v[2 * i + 1]) } else { None },
        }
    } else {
        match data {
            PropValue::Longs(v) => if i / 8 < v.len() { Some(byte_of(v[i / 8] as int, i % 8)) } else { None },
            PropValue::Words(v) => if i / 4 < v.len() { Some(byte_of(v[i / 4] as int, i % 4)) } else { None },
            PropValue::Bytes(v) => if i < v.len() { Some(v[i] as int) } else { None },
        }
    }
}

/// The items that a request with `nelements` items of format `format` from
/// the buffer `data` writes.
pub open spec fn written(data: PropValue, format: i32, nelements: i32) -> Seq<Option<int>> {
    Seq::new(nelements as nat, |i: int| item(data, format, i))
}

/// The names, one after another, separated by NUL bytes.
pub open spec fn joined(names: Seq<Seq<u8>>) -> Seq<u8>
    decreases names.len(),
{
    if names.len() == 0 {
        seq![]
    } else if names.len() == 1 {
        names[0]
    } else {
        joined(names.drop_last()) + seq![0u8] + names.last()
    }
}

/// The UTF8_STRING items of a text property made of `names`: their UTF-8
/// bytes, separated by NULs.
pub open spec fn text_items(names: Seq<Seq<char>>) -> Seq<Option<int>> {
    let b = joined(Seq::new(names.len(), |i: int| vstd::utf8::encode_utf8(names[i])));
    Seq::new(b.len(), |i: int| Some(b[i] as int))
}

/// What the property `key` holds in `p`, an absent property counting as empty.
pub open spec fn held(p: Properties, key: (u64, u64)) -> Seq<Option<int>> {
    if p.dom().contains(key) {
        p[key]
    } else {
        seq![]
    }
}

/// The properties after the display has performed `r`. A change in a
/// format other than 8, 16 or 32, or of a negative number of items, is
/// refused and changes nothing.
pub open spec fn apply_request(p: Properties, r: XRequest) -> Properties {
    match r {
        XRequest::ChangeProperty { window, property, format, mode, data, nelements, .. } => {
            let key = (window, property);
            let new = written(data@, format, nelements);
            if !(format == 8 || format == 16 || format == 32) || nelements < 0 {
                p
            } else if mode == PROP_MODE_REPLACE {
                p.insert(key, new)
            } else if mode == PROP_MODE_APPEND {
                p.insert(key, held(p, key) + new)
            } else if mode == PROP_MODE_PREPEND {
                p.insert(key, new + held(p, key))
            } else {
                p
            }
        },
        XRequest::DeleteProperty { window, property } => p.remove((window, property)),
        XRequest::SetTextProperty { window, property, names, .. } => p.insert(
            (window, property),
            text_items(Seq::new(names@.len(), |i: int| names@[i]@)),
        ),
        _ => p,
    }
}

/// The properties after the display has performed `rs`, in order.
pub open spec fn apply_requests(p: Properties, rs: Seq<XRequest>) -> Properties
    decreases rs.len(),
{
    if rs.len() == 0 {
        p
    } else {
        apply_requests(apply_request(p, rs[0]), rs.drop_first())
    }
}

/// The passive key grabs of the window manager, as the combinations they
/// cover: window, key code, modifier state.
pub type KeyGrabs = Set<(u64, i32, u32)>;

/// Whether the combination `x` is one that a key grab or ungrab of
/// `keycode` under `modifiers` on `window` covers: any key code for
/// AnyKey, any modifier state for AnyModifier.
pub open spec fn key_combination(x: (u64, i32, u32), window: u64, keycode: i32, modifiers: u32) -> bool {
    &&& x.0 == window
    &&& (keycode == ANY_KEY || x.1 == keycode)
    &&& (modifiers == ANY_MODIFIER || x.2 == modifiers)
}

/// The key grabs after the display has performed `r`.
pub open spec fn apply_key_grab(g: KeyGrabs, r: XRequest) -> KeyGrabs {
    match r {
        XRequest::GrabKey { keycode, modifiers, window, .. } => Set::new(
            |x: (u64, i32, u32)| g.contains(x) || key_combination(x, window, keycode, modifiers),
        ),
        XRequest::UngrabKey { keycode, modifiers, window } => Set::new(
            |x: (u64, i32, u32)| g.contains(x) && !key_combination(x, window, keycode, modifiers),
        ),
        _ => g,
    }
}

/// The key grabs after the display has performed `rs`, in order.
pub open spec fn apply_key_grabs(g: KeyGrabs, rs: Seq<XRequest>) -> KeyGrabs
    decreases rs.len(),
{
    if rs.len() == 0 {
        g
    } else {
        apply_key_grabs(apply_key_grab(g, rs[0]), rs.drop_first())
    }
}

/// Performing `a` and then `b` on the key grabs is performing `a + b`.
pub proof fn lemma_apply_key_grabs_concat(g: KeyGrabs, a: Seq<XRequest>, b: Seq<XRequest>)
    ensures
        apply_key_grabs(g, a + b) == apply_key_grabs(apply_key_grabs(g, a), b),
    decreases a.len(),
{
    if a.len() == 0 {
        assert(a + b =~= b);
    } else {
        assert((a + b).drop_first() =~= a.drop_first() + b);
        lemma_apply_key_grabs_concat(apply_key_grab(g, a[0]), a.drop_first(), b);
    }
}

/// The passive button grabs of the window manager, as the combinations
/// they cover: window, button, modifier state.
pub type ButtonGrabs = Set<(u64, u32, u32)>;

/// Whether a button grab or ungrab of `button` under `modifiers` on
/// `window` covers `x`: any button for AnyButton, any modifier state for
/// AnyModifier.
pub open spec fn button_combination(x: (u64, u32, u32), window: u64, button: u32, modifiers: u32) -> bool {
    &&& x.0 == window
    &&& (button == ANY_BUTTON as u32 || x.1 == button)
    &&& (modifiers == ANY_MODIFIER || x.2 == modifiers)
}

/// The button grabs after the display has performed `r`.
pub open spec fn apply_button_grab(g: ButtonGrabs, r: XRequest) -> ButtonGrabs {
    match r {
        XRequest::GrabButton { button, modifiers, window, .. } => Set::new(
            |x: (u64, u32, u32)| g.contains(x) || button_combination(x, window, button, modifiers),
        ),
        XRequest::UngrabButton { button, modifiers, window } => Set::new(
            |x: (u64, u32, u32)| g.contains(x) && !button_combination(x, window, button, modifiers),
        ),
        _ => g,
    }
}

/// The cursors that windows show, by window.
pub type Cursors = Map<u64, u64>;

/// The cursors after the display has performed `r`: a cursor defined for a
/// window, or set among its attributes.
pub open spec fn apply_cursor(c: Cursors, r: XRequest) -> Cursors {
    match r {
        XRequest::DefineCursor { window, cursor } => c.insert(window, cursor),
        XRequest::ChangeWindowAttributes { window, value_mask, cursor, .. } => if value_mask & CW_CURSOR != 0 {
            c.insert(window, cursor)
        } else {
            c
        },
        _ => c,
    }
}

/// The atoms that the display has interned, by name.
pub type Atoms = Map<Seq<char>, u64>;

/// The atom that the display gives a new name: one that is not None (0)
/// and that no name has yet.
pub open spec fn fresh_atom(a: Atoms) -> u64 {
    choose|x: u64| x != 0 && !a.values().contains(x)
}

/// Whether the display can give a new name an atom.
pub open spec fn has_room(a: Atoms) -> bool {
    exists|x: u64| x != 0 && !a.values().contains(x)
}

/// What the display answers to `r`, an atom lookup: the atom of the name,
/// made anew unless only an existing one is asked for, in which case None
/// (0) when there is none.
pub open spec fn intern_reply(a: Atoms, r: XRequest) -> u64 {
    match r {
        XRequest::InternAtom { name, only_if_exists } => if a.dom().contains(name@) {
            a[name@]
        } else if only_if_exists != 0 {
            0
        } else {
            fresh_atom(a)
        },
        _ => 0,
    }
}

/// The interned atoms after the display has performed `r`.
pub open spec fn apply_intern(a: Atoms, r: XRequest) -> Atoms {
    match r {
        XRequest::InternAtom { name, only_if_exists } => if !a.dom().contains(name@) && only_if_exists == 0 {
            a.insert(name@, fresh_atom(a))
        } else {
            a
        },
        _ => a,
    }
}

/// Performing `a` and then `b` is performing `a + b`.
pub proof fn lemma_apply_requests_concat(p: Properties, a: Seq<XRequest>, b: Seq<XRequest>)
    ensures
        apply_requests(p, a + b) == apply_requests(apply_requests(p, a), b),
    decreases a.len(),
{
    if a.len() == 0 {
        assert(a + b =~= b);
    } else {
        assert((a + b).drop_first() =~= a.drop_first() + b);
        lemma_apply_requests_concat(apply_request(p, a[0]), a.drop_first(), b);
    }
}

/// Performing one request is `apply_request`.
pub proof fn lemma_apply_requests_single(p: Properties, r: XRequest)
    ensures
        apply_requests(p, seq![r]) == apply_request(p, r),
{
    assert(seq![r].drop_first() =~= Seq::<XRequest>::empty());
    reveal_with_fuel(apply_requests, 2);
}

} // verus!
