//! What the requests of the window manager do to the display, over several
//! operations: to the properties of windows, to key and button grabs, to
//! cursors and to interned atoms.
use vstd::prelude::*;
use crate::event::{decoded, payload_type, EventType, RawEvent};
use crate::request::{
    apply_button_grab, apply_cursor, lemma_apply_key_grabs_concat, apply_intern, apply_key_grab, apply_key_grabs, apply_request,
    apply_requests, button_combination, changes_property, has_room, held, intern_reply, key_combination,
    lemma_apply_requests_concat, lemma_apply_requests_single, text_items, written, Atoms, ButtonGrabs, Cursors,
    KeyGrabs, PropValue, Properties, WmProtocols, XRequest,
};
use crate::types::WindowType;
use crate::wrapper::{XlibWrapper, WM_NAME};
use vstd::string::StringSliceAdditionalSpecFns;
use crate::keys::grab_modifiers;
use crate::xproto::{ANY_BUTTON, ANY_KEY, ANY_MODIFIER, CURRENT_TIME, CW_CURSOR, CW_EVENT_MASK, MOD4_MASK, SHIFT_MASK, PROP_MODE_APPEND, PROP_MODE_REPLACE, XA_ATOM, XA_CARDINAL, XA_WINDOW};

verus! {

/// Ids as format-32 items: their low 32 bits.
pub open spec fn items32(s: Seq<u64>) -> Seq<Option<int>> {
    Seq::new(s.len(), |i: int| Some((s[i] as u32) as int))
}

/// A request that replaces the property `key` leaves it holding what it
/// writes, and every other property as it was.
pub proof fn lemma_replace(
    p: Properties,
    r: XRequest,
    key: (u64, u64),
    type_: u64,
    format: i32,
    value: PropValue,
    n: i32,
)
    requires
        changes_property(r, key.0, key.1, type_, format, PROP_MODE_REPLACE, value, n),
        format == 8 || format == 32,
        n >= 0,
    ensures
        apply_request(p, r) == p.insert(key, written(value, format, n)),
{
}

/// Appending the one window `w` to the property `key`.
pub proof fn lemma_append_one(p: Properties, r: XRequest, key: (u64, u64), type_: u64, w: u64)
    requires
        changes_property(r, key.0, key.1, type_, 32, PROP_MODE_APPEND, PropValue::Longs(seq![w]), 1),
    ensures
        apply_request(p, r) == p.insert(key, held(p, key) + seq![Some((w as u32) as int)]),
{
    assert(written(PropValue::Longs(seq![w]), 32, 1) =~= seq![Some((w as u32) as int)]);
}

proof fn lemma_appends(wm: XlibWrapper, p: Properties, a: Seq<XRequest>, clients: Seq<u64>, k: int)
    requires
        a.len() == clients.len(),
        forall|i: int| 0 <= i < clients.len() ==> wm.appends_client(#[trigger] a[i], clients[i]),
        0 <= k <= a.len(),
    ensures
        apply_requests(p, a.take(k)) == (if k == 0 {
            p
        } else {
            p.insert(
                (wm.root, wm.xatom.NetClientList),
                held(p, (wm.root, wm.xatom.NetClientList)) + items32(clients.take(k)),
            )
        }),
    decreases k,
{
    let key = (wm.root, wm.xatom.NetClientList);
    if k == 0 {
        assert(a.take(0) =~= Seq::<XRequest>::empty());
    } else {
        lemma_appends(wm, p, a, clients, k - 1);
        assert(a.take(k) =~= a.take(k - 1) + seq![a[k - 1]]);
        lemma_apply_requests_concat(p, a.take(k - 1), seq![a[k - 1]]);
        let mid = apply_requests(p, a.take(k - 1));
        lemma_apply_requests_single(mid, a[k - 1]);
        assert(wm.appends_client(a[k - 1], clients[k - 1]));
        lemma_append_one(mid, a[k - 1], key, XA_WINDOW, clients[k - 1]);
        let last = seq![Some((clients[k - 1] as u32) as int)];
        if k == 1 {
            assert(items32(clients.take(1)) =~= last);
        } else {
            assert(held(mid, key) == held(p, key) + items32(clients.take(k - 1)));
            assert(items32(clients.take(k)) =~= items32(clients.take(k - 1)) + last);
            assert(held(p, key) + items32(clients.take(k)) =~= held(p, key) + items32(clients.take(k - 1))
                + last);
            assert(mid.insert(key, held(mid, key) + last) =~= p.insert(key, held(p, key) + items32(clients.take(k))));
        }
    }
}

/// Replacing the client list by `clients` leaves it holding exactly
/// `clients` (absent when there is none), and every other property as it
/// was.
pub proof fn law_update_net_client_list(wm: XlibWrapper, clients: Seq<u64>, plan: Seq<XRequest>, p: Properties)
    requires
        wm.is_client_list_update(plan, clients),
    ensures
        apply_requests(p, plan) == (if clients.len() == 0 {
            p.remove((wm.root, wm.xatom.NetClientList))
        } else {
            p.insert((wm.root, wm.xatom.NetClientList), items32(clients))
        }),
        held(apply_requests(p, plan), (wm.root, wm.xatom.NetClientList)) == items32(clients),
{
    let key = (wm.root, wm.xatom.NetClientList);
    let a = plan.drop_first();
    assert(plan =~= seq![plan[0]] + a);
    lemma_apply_requests_concat(p, seq![plan[0]], a);
    lemma_apply_requests_single(p, plan[0]);
    let p1 = p.remove(key);
    assert forall|i: int| 0 <= i < clients.len() implies wm.appends_client(#[trigger] a[i], clients[i]) by {
        assert(a[i] == plan[i + 1]);
    }
    lemma_appends(wm, p1, a, clients, a.len() as int);
    assert(a.take(a.len() as int) =~= a);
    assert(clients.take(clients.len() as int) =~= clients);
    assert(held(p1, key) =~= Seq::<Option<int>>::empty());
    assert(held(p1, key) + items32(clients) =~= items32(clients));
    if clients.len() == 0 {
        assert(items32(clients) =~= Seq::<Option<int>>::empty());
    }
}

/// Appending `w` to the client list leaves it holding what it held, then
/// `w`, and every other property as it was.
pub proof fn law_add_to_client_list(wm: XlibWrapper, w: u64, r: XRequest, p: Properties)
    requires
        wm.appends_client(r, w),
    ensures
        apply_request(p, r) == p.insert(
            (wm.root, wm.xatom.NetClientList),
            held(p, (wm.root, wm.xatom.NetClientList)) + seq![Some((w as u32) as int)],
        ),
{
    lemma_append_one(p, r, (wm.root, wm.xatom.NetClientList), XA_WINDOW, w);
}

/// Replacing the client list by `clients` and then appending `w` is
/// replacing it by `clients` followed by `w`.
pub proof fn law_update_then_add(
    wm: XlibWrapper,
    clients: Seq<u64>,
    w: u64,
    update: Seq<XRequest>,
    add: XRequest,
    update_with_w: Seq<XRequest>,
    p: Properties,
)
    requires
        wm.is_client_list_update(update, clients),
        wm.appends_client(add, w),
        wm.is_client_list_update(update_with_w, clients.push(w)),
    ensures
        apply_request(apply_requests(p, update), add) == apply_requests(p, update_with_w),
{
    let key = (wm.root, wm.xatom.NetClientList);
    law_update_net_client_list(wm, clients, update, p);
    law_update_net_client_list(wm, clients.push(w), update_with_w, p);
    law_add_to_client_list(wm, w, add, apply_requests(p, update));
    assert(items32(clients.push(w)) =~= items32(clients) + seq![Some((w as u32) as int)]);
    assert(apply_request(apply_requests(p, update), add) =~= p.insert(key, items32(clients.push(w))));
}

/// Every event that the window manager makes of a raw event carries the
/// payload of its own kind, and carries none exactly when its kind is
/// unknown.
pub proof fn law_event_payload_matches_type(raw: RawEvent)
    ensures
        decoded(raw).payload is None <==> decoded(raw).event_type == EventType::UnknownEvent,
        decoded(raw).payload matches Some(q) ==> payload_type(q) == decoded(raw).event_type,
{
}

/// With atoms interned for distinct names, each window type atom is read
/// as its own window type, and no atom, or any other atom, as a normal
/// window.
pub proof fn law_window_type_atoms(wm: XlibWrapper, other: u64)
    requires
        wm.xatom.distinct(),
        !wm.xatom.all().subrange(16, 23).contains(other),
    ensures
        wm.window_type_of(Some(wm.xatom.NetWMWindowTypeDesktop)) == WindowType::Desktop,
        wm.window_type_of(Some(wm.xatom.NetWMWindowTypeDock)) == WindowType::Dock,
        wm.window_type_of(Some(wm.xatom.NetWMWindowTypeToolbar)) == WindowType::Toolbar,
        wm.window_type_of(Some(wm.xatom.NetWMWindowTypeMenu)) == WindowType::Menu,
        wm.window_type_of(Some(wm.xatom.NetWMWindowTypeUtility)) == WindowType::Utility,
        wm.window_type_of(Some(wm.xatom.NetWMWindowTypeSplash)) == WindowType::Splash,
        wm.window_type_of(Some(wm.xatom.NetWMWindowTypeDialog)) == WindowType::Dialog,
        wm.window_type_of(Some(other)) == WindowType::Normal,
        wm.window_type_of(None) == WindowType::Normal,
{
    let s = wm.xatom.all();
    assert(s[16] != s[17] && s[16] != s[18] && s[16] != s[19] && s[16] != s[20] && s[16] != s[21] && s[16] != s[22]);
    assert(s[17] != s[18] && s[17] != s[19] && s[17] != s[20] && s[17] != s[21] && s[17] != s[22]);
    assert(s[18] != s[19] && s[18] != s[20] && s[18] != s[21] && s[18] != s[22]);
    assert(s[19] != s[20] && s[19] != s[21] && s[19] != s[22]);
    assert(s[20] != s[21] && s[20] != s[22]);
    assert(s[21] != s[22]);
    let t = s.subrange(16, 23);
    assert(t[0] == s[16] && t[1] == s[17] && t[2] == s[18] && t[3] == s[19]);
    assert(t[4] == s[20] && t[5] == s[21] && t[6] == s[22]);
}

/// Whether performing `r` can change a property.
pub open spec fn touches_properties(r: XRequest) -> bool {
    r is ChangeProperty || r is DeleteProperty || r is SetTextProperty
}

/// Requests that touch no property leave all properties as they were.
pub proof fn lemma_inert(p: Properties, rs: Seq<XRequest>)
    requires
        forall|i: int| 0 <= i < rs.len() ==> !touches_properties(#[trigger] rs[i]),
    ensures
        apply_requests(p, rs) == p,
    decreases rs.len(),
{
    if rs.len() > 0 {
        assert(!touches_properties(rs[0]));
        assert forall|i: int| 0 <= i < rs.drop_first().len() implies !touches_properties(
            #[trigger] rs.drop_first()[i],
        ) by {
            assert(rs.drop_first()[i] == rs[i + 1]);
        }
        lemma_inert(p, rs.drop_first());
    }
}

/// Giving `w` the focus makes it the one active window (by the low 32 bits
/// of its id) and changes no other property.
pub proof fn law_take_focus(wm: XlibWrapper, w: u64, protocols: &WmProtocols, plan: Seq<XRequest>, p: Properties)
    requires
        wm.is_take_focus(plan, w, protocols),
    ensures
        apply_requests(p, plan) == p.insert((wm.root, wm.xatom.NetActiveWindow), seq![Some((w as u32) as int)]),
{
    let key = (wm.root, wm.xatom.NetActiveWindow);
    let rest = plan.subrange(2, plan.len() as int);
    assert(plan =~= seq![plan[0]] + (seq![plan[1]] + rest));
    lemma_apply_requests_concat(p, seq![plan[0]], seq![plan[1]] + rest);
    lemma_apply_requests_single(p, plan[0]);
    lemma_apply_requests_concat(p, seq![plan[1]], rest);
    lemma_apply_requests_single(p, plan[1]);
    lemma_replace(p, plan[1], key, XA_WINDOW, 32, PropValue::Longs(seq![w]), 1);
    assert forall|i: int| 0 <= i < rest.len() implies !touches_properties(#[trigger] rest[i]) by {
        assert(rest[i] == plan[i + 2]);
        if i + 2 == plan.len() - 1 {
        } else {
            assert(i == 0);
        }
    }
    assert(written(PropValue::Longs(seq![w]), 32, 1) =~= seq![Some((w as u32) as int)]);
    lemma_inert(p.insert(key, seq![Some((w as u32) as int)]), rest);
}

/// Taking the focus away leaves no active window and changes no other
/// property.
pub proof fn law_remove_focus(wm: XlibWrapper, r: XRequest, p: Properties)
    requires
        r == (XRequest::DeleteProperty { window: wm.root, property: wm.xatom.NetActiveWindow }),
    ensures
        apply_request(p, r) == p.remove((wm.root, wm.xatom.NetActiveWindow)),
        !apply_request(p, r).dom().contains((wm.root, wm.xatom.NetActiveWindow)),
{
}

/// Taking over the root window announces exactly the supported atoms (by
/// the low 32 bits of each), drops the client list, and changes no other
/// property.
pub proof fn law_init(wm: XlibWrapper, keycodes: Seq<u8>, plan: Seq<XRequest>, p: Properties)
    requires
        wm.is_init(plan, keycodes),
    ensures
        apply_requests(p, plan) == p.insert((wm.root, wm.xatom.NetSupported), items32(wm.xatom.supported())).remove(
            (wm.root, wm.xatom.NetClientList),
        ),
{
    let head = plan.take(5);
    let rest = plan.skip(5);
    assert(plan =~= head + rest);
    lemma_apply_requests_concat(p, head, rest);
    reveal_with_fuel(apply_requests, 6);
    let value = PropValue::Longs(wm.xatom.supported());
    assert(written(value, 32, 19) =~= items32(wm.xatom.supported()));
    assert(head =~= seq![plan[0], plan[1], plan[2], plan[3], plan[4]]);
    let p2 = apply_request(apply_request(p, plan[0]), plan[1]);
    assert(p2 == p);
    lemma_replace(p, plan[2], (wm.root, wm.xatom.NetSupported), XA_ATOM, 32, value, 19);
    assert forall|i: int| 0 <= i < rest.len() implies !touches_properties(#[trigger] rest[i]) by {
        assert(rest[i] == plan[i + 5]);
        if i < 4 * keycodes.len() {
            let k: int = i / 4;
            let j: int = i % 4;
            assert(i == 4 * k + j);
            assert(plan[5 + 4 * k + j] == wm.key_grab(keycodes[k], crate::keys::grab_modifiers(
                crate::xproto::MOD4_MASK | crate::xproto::SHIFT_MASK,
            )[j]));
        }
    }
    lemma_inert(apply_requests(p, head), rest);
}

/// The current desktop as `ewmh_current_desktop(desktop)` leaves it: the
/// desktop, then an item read from past the two words handed over.
pub open spec fn current_desktop_items(desktop: u32) -> Seq<Option<int>> {
    seq![Some(desktop as int), None]
}

/// Making `desktop` current sets the current desktop as
/// `current_desktop_items` says, and changes no other property.
pub proof fn law_current_desktop(wm: XlibWrapper, desktop: u32, r: XRequest, p: Properties)
    requires
        changes_property(
            r,
            wm.root,
            wm.xatom.NetCurrentDesktop,
            XA_CARDINAL,
            32,
            PROP_MODE_REPLACE,
            PropValue::Words(seq![desktop, CURRENT_TIME as u32]),
            2,
        ),
    ensures
        apply_request(p, r) == p.insert((wm.root, wm.xatom.NetCurrentDesktop), current_desktop_items(desktop)),
{
    let c = PropValue::Words(seq![desktop, CURRENT_TIME as u32]);
    assert(written(c, 32, 2) =~= current_desktop_items(desktop));
    lemma_replace(p, r, (wm.root, wm.xatom.NetCurrentDesktop), XA_CARDINAL, 32, c, 2);
}

/// Announcing `num` desktops sets their number to `num`, and changes no
/// other property.
pub proof fn law_number_of_desktops(wm: XlibWrapper, num: u32, r: XRequest, p: Properties)
    requires
        changes_property(
            r,
            wm.root,
            wm.xatom.NetNumberOfDesktops,
            XA_CARDINAL,
            32,
            PROP_MODE_REPLACE,
            PropValue::Words(seq![num]),
            1,
        ),
    ensures
        apply_request(p, r) == p.insert((wm.root, wm.xatom.NetNumberOfDesktops), seq![Some(num as int)]),
{
    let c = PropValue::Words(seq![num]);
    assert(written(c, 32, 1) =~= seq![Some(num as int)]);
    lemma_replace(p, r, (wm.root, wm.xatom.NetNumberOfDesktops), XA_CARDINAL, 32, c, 1);
}

/// Announcing the desktops `names` sets their number, makes the first one
/// current, sets their names, and changes no other property.
pub proof fn law_desktop_hints(wm: XlibWrapper, names: Seq<Seq<char>>, plan: Seq<XRequest>, p: Properties)
    requires
        wm.is_desktop_hints(plan, names),
    ensures
        apply_requests(p, plan) == p.insert(
            (wm.root, wm.xatom.NetNumberOfDesktops),
            seq![Some((names.len() as u32) as int)],
        ).insert((wm.root, wm.xatom.NetCurrentDesktop), current_desktop_items(0)).insert(
            (wm.root, wm.xatom.NetDesktopNames),
            text_items(names),
        ),
{
    reveal_with_fuel(apply_requests, 4);
    assert(plan =~= seq![plan[0], plan[1], plan[2]]);
    law_number_of_desktops(wm, names.len() as u32, plan[0], p);
    let p1 = apply_request(p, plan[0]);
    law_current_desktop(wm, 0, plan[1], p1);
    if let XRequest::SetTextProperty { names: nm, .. } = plan[2] {
        assert(Seq::new(nm@.len(), |i: int| nm@[i]@) =~= names);
    }
}

/// The name as the check window gets it: its first five bytes, as UTF-8
/// string items.
pub open spec fn check_window_name_items() -> Seq<Option<int>> {
    Seq::new(5, |i: int| Some(WM_NAME.spec_bytes()[i] as int))
}

/// The name as the root window ends up with it: one cardinal made of its
/// first four bytes, then five items read from past the bytes handed over.
pub open spec fn root_name_items() -> Seq<Option<int>> {
    let b = WM_NAME.spec_bytes();
    seq![
        Some(b[0] + 0x100 * b[1] + 0x1_0000 * b[2] + 0x100_0000 * b[3]),
        None,
        None,
        None,
        None,
        None,
    ]
}

/// The viewport as the window manager sets it: the first cardinal 0, then
/// an item read from past the two words handed over.
pub open spec fn viewport_items() -> Seq<Option<int>> {
    seq![Some(0int), None]
}

/// Marking the check window `ewmh` and the root window leaves, one after
/// the other: on `ewmh` the low 32 bits of its own id as check and the
/// first five bytes of the name; on the root the id of `ewmh`, then the
/// first five bytes of the name, then the name as `root_name_items` says,
/// then the root's own id as check, then the viewport. Nothing else changes.
pub proof fn law_desktop_hints_finish(
    wm: XlibWrapper,
    ewmh: u64,
    window_atom: u64,
    plan: Seq<XRequest>,
    p: Properties,
)
    requires
        wm.is_desktop_hints_finish(plan, ewmh, window_atom),
    ensures
        apply_requests(p, plan) == p.insert((ewmh, wm.xatom.NetSupportingWmCheck), seq![Some((ewmh as u32) as int)])
            .insert((ewmh, wm.xatom.NetWMName), check_window_name_items())
            .insert((wm.root, wm.xatom.NetSupportingWmCheck), seq![Some((ewmh as u32) as int)])
            .insert((wm.root, wm.xatom.NetWMName), check_window_name_items())
            .insert((wm.root, wm.xatom.NetWMName), root_name_items())
            .insert((wm.root, wm.xatom.NetSupportingWmCheck), seq![Some((wm.root as u32) as int)])
            .insert((wm.root, wm.xatom.NetDesktopViewport), viewport_items()),
{
    reveal_with_fuel(apply_requests, 8);
    assert(plan =~= seq![plan[0], plan[1], plan[2], plan[3], plan[4], plan[5], plan[6]]);
    let name = WM_NAME.spec_bytes();
    assert(name.len() == 6) by {
        reveal_strlit("Hadlok");
        broadcast use vstd::string::is_ascii_spec_bytes;
        assert(vstd::string::is_ascii(WM_NAME));
    }
    assert(written(PropValue::Words(seq![ewmh as u32]), 32, 1) =~= seq![Some((ewmh as u32) as int)]);
    assert(written(PropValue::Bytes(name), 8, 5) =~= check_window_name_items());
    let c = name.push(0u8);
    assert(c[0] == name[0] && c[1] == name[1] && c[2] == name[2] && c[3] == name[3]);
    assert(written(PropValue::Bytes(c), 32, 6) =~= root_name_items());
    assert(written(PropValue::Words(seq![wm.root as u32]), 32, 1) =~= seq![Some((wm.root as u32) as int)]);
    assert(written(PropValue::Words(seq![0u32, 0u32]), 32, 2) =~= viewport_items());
}

/// What announcing the desktops `names` (`init_desktops_hints` and then
/// `init_desktops_hints_finish`) leaves in the root property `prop`, when
/// it writes that property at all: the last value written to it.
pub open spec fn announced(wm: XlibWrapper, names: Seq<Seq<char>>, prop: u64) -> Option<Seq<Option<int>>> {
    if prop == wm.xatom.NetDesktopViewport {
        Some(viewport_items())
    } else if prop == wm.xatom.NetSupportingWmCheck {
        Some(seq![Some((wm.root as u32) as int)])
    } else if prop == wm.xatom.NetWMName {
        Some(root_name_items())
    } else if prop == wm.xatom.NetDesktopNames {
        Some(text_items(names))
    } else if prop == wm.xatom.NetCurrentDesktop {
        Some(current_desktop_items(0))
    } else if prop == wm.xatom.NetNumberOfDesktops {
        Some(seq![Some((names.len() as u32) as int)])
    } else {
        None
    }
}

/// What property `prop` of `window` holds in `q`, if it is there.
pub open spec fn property_of(q: Properties, window: u64, prop: u64) -> Option<Seq<Option<int>>> {
    if q.dom().contains((window, prop)) {
        Some(q[(window, prop)])
    } else {
        None
    }
}

/// Announcing the desktops `names` leaves each root property it writes as
/// `announced` says, whatever the check window is, and every other root
/// property as it was.
pub proof fn lemma_announce_root(
    wm: XlibWrapper,
    names: Seq<Seq<char>>,
    hints: Seq<XRequest>,
    ewmh: u64,
    window_atom: u64,
    finish: Seq<XRequest>,
    p: Properties,
)
    requires
        wm.is_desktop_hints(hints, names),
        wm.is_desktop_hints_finish(finish, ewmh, window_atom),
    ensures
        forall|prop: u64|
            #[trigger] property_of(apply_requests(p, hints + finish), wm.root, prop) == (match announced(
                wm,
                names,
                prop,
            ) {
                Some(v) => Some(v),
                None => property_of(p, wm.root, prop),
            }),
{
    lemma_apply_requests_concat(p, hints, finish);
    law_desktop_hints(wm, names, hints, p);
    let p1 = apply_requests(p, hints);
    law_desktop_hints_finish(wm, ewmh, window_atom, finish, p1);
}

/// With atoms interned for distinct names, announcing the desktops `names`
/// leaves their number as `set_atom_number_of_desktops` of their count
/// does, the current desktop as `ewmh_current_desktop(0)` does, and the
/// viewport as `viewport_items` says.
pub proof fn law_announce_desktops(
    wm: XlibWrapper,
    names: Seq<Seq<char>>,
    hints: Seq<XRequest>,
    ewmh: u64,
    window_atom: u64,
    finish: Seq<XRequest>,
    set_number: XRequest,
    set_current: XRequest,
    p: Properties,
)
    requires
        wm.xatom.distinct(),
        wm.is_desktop_hints(hints, names),
        wm.is_desktop_hints_finish(finish, ewmh, window_atom),
        changes_property(
            set_number,
            wm.root,
            wm.xatom.NetNumberOfDesktops,
            XA_CARDINAL,
            32,
            PROP_MODE_REPLACE,
            PropValue::Words(seq![names.len() as u32]),
            1,
        ),
        changes_property(
            set_current,
            wm.root,
            wm.xatom.NetCurrentDesktop,
            XA_CARDINAL,
            32,
            PROP_MODE_REPLACE,
            PropValue::Words(seq![0u32, CURRENT_TIME as u32]),
            2,
        ),
    ensures
        held(apply_requests(p, hints + finish), (wm.root, wm.xatom.NetNumberOfDesktops)) == held(
            apply_request(apply_request(p, set_number), set_current),
            (wm.root, wm.xatom.NetNumberOfDesktops),
        ),
        held(apply_requests(p, hints + finish), (wm.root, wm.xatom.NetCurrentDesktop)) == held(
            apply_request(apply_request(p, set_number), set_current),
            (wm.root, wm.xatom.NetCurrentDesktop),
        ),
        held(apply_requests(p, hints + finish), (wm.root, wm.xatom.NetDesktopViewport)) == viewport_items(),
{
    lemma_announce_root(wm, names, hints, ewmh, window_atom, finish, p);
    let q = apply_requests(p, hints + finish);
    let a = wm.xatom.all();
    assert(a[7] != a[9] && a[7] != a[10] && a[7] != a[11] && a[7] != a[8] && a[7] != a[6]);
    assert(a[6] != a[9] && a[6] != a[10] && a[6] != a[11] && a[6] != a[8]);
    law_number_of_desktops(wm, names.len() as u32, set_number, p);
    law_current_desktop(wm, 0, set_current, apply_request(p, set_number));
    assert(property_of(q, wm.root, wm.xatom.NetNumberOfDesktops) == Some(seq![Some((names.len() as u32) as int)]));
    assert(property_of(q, wm.root, wm.xatom.NetCurrentDesktop) == Some(current_desktop_items(0)));
    assert(property_of(q, wm.root, wm.xatom.NetDesktopViewport) == Some(viewport_items()));
}

/// Announcing the same desktops a second time, with another check window,
/// leaves every root property as the first announcement left it.
pub proof fn law_announce_twice(
    wm: XlibWrapper,
    names: Seq<Seq<char>>,
    hints1: Seq<XRequest>,
    ewmh1: u64,
    atom1: u64,
    finish1: Seq<XRequest>,
    hints2: Seq<XRequest>,
    ewmh2: u64,
    atom2: u64,
    finish2: Seq<XRequest>,
    p: Properties,
)
    requires
        wm.is_desktop_hints(hints1, names),
        wm.is_desktop_hints_finish(finish1, ewmh1, atom1),
        wm.is_desktop_hints(hints2, names),
        wm.is_desktop_hints_finish(finish2, ewmh2, atom2),
    ensures
        forall|prop: u64|
            #[trigger] property_of(
                apply_requests(apply_requests(p, hints1 + finish1), hints2 + finish2),
                wm.root,
                prop,
            ) == property_of(apply_requests(p, hints1 + finish1), wm.root, prop),
{
    lemma_announce_root(wm, names, hints1, ewmh1, atom1, finish1, p);
    let once = apply_requests(p, hints1 + finish1);
    lemma_announce_root(wm, names, hints2, ewmh2, atom2, finish2, once);
    assert forall|prop: u64|
        #[trigger] property_of(apply_requests(once, hints2 + finish2), wm.root, prop) == property_of(
            once,
            wm.root,
            prop,
        ) by {
        assert(property_of(once, wm.root, prop) == (match announced(wm, names, prop) {
            Some(v) => Some(v),
            None => property_of(p, wm.root, prop),
        }));
    }
}

/// The key grabs after `rs`, grabs and ungrabs being the only requests
/// that change them.
pub proof fn lemma_key_grabs_four(g: KeyGrabs, rs: Seq<XRequest>)
    requires
        rs.len() == 4,
    ensures
        apply_key_grabs(g, rs) == apply_key_grab(
            apply_key_grab(apply_key_grab(apply_key_grab(g, rs[0]), rs[1]), rs[2]),
            rs[3],
        ),
{
    reveal_with_fuel(apply_key_grabs, 5);
    assert(rs.drop_first().drop_first().drop_first().drop_first() =~= Seq::<XRequest>::empty());
}

/// Grabbing key `code` under `modifiers` adds to the key grabs that
/// key on the root window under each of the four modifier sets of
/// `grab_modifiers`, and nothing else.
pub proof fn law_grab_keys(wm: XlibWrapper, code: u8, modifiers: u32, plan: Seq<XRequest>, g: KeyGrabs)
    requires
        plan.len() == 4,
        forall|j: int| 0 <= j < 4 ==> plan[j] == wm.key_grab(code, #[trigger] grab_modifiers(modifiers)[j]),
    ensures
        forall|x: (u64, i32, u32)|
            #[trigger] apply_key_grabs(g, plan).contains(x) <==> g.contains(x) || key_combination(
                x,
                wm.root,
                code as i32,
                grab_modifiers(modifiers)[0],
            ) || key_combination(x, wm.root, code as i32, grab_modifiers(modifiers)[1]) || key_combination(
                x,
                wm.root,
                code as i32,
                grab_modifiers(modifiers)[2],
            ) || key_combination(x, wm.root, code as i32, grab_modifiers(modifiers)[3]),
{
    lemma_key_grabs_four(g, plan);
    assert(plan[0] == wm.key_grab(code, grab_modifiers(modifiers)[0]));
    assert(plan[1] == wm.key_grab(code, grab_modifiers(modifiers)[1]));
    assert(plan[2] == wm.key_grab(code, grab_modifiers(modifiers)[2]));
    assert(plan[3] == wm.key_grab(code, grab_modifiers(modifiers)[3]));
}

/// Dropping the key grabs leaves none on the root window, whichever window
/// is named, and the key grabs on every other window as they were.
pub proof fn law_ungrab_keys(wm: XlibWrapper, r: XRequest, g: KeyGrabs)
    requires
        r == (XRequest::UngrabKey { keycode: ANY_KEY, modifiers: ANY_MODIFIER, window: wm.root }),
    ensures
        forall|x: (u64, i32, u32)| #[trigger] apply_key_grab(g, r).contains(x) <==> g.contains(x) && x.0 != wm.root,
{
}

/// Dropping the button grabs of `w` leaves none on it, and the button
/// grabs on every other window as they were.
pub proof fn law_ungrab_all_buttons(w: u64, r: XRequest, g: ButtonGrabs)
    requires
        r == (XRequest::UngrabButton { button: ANY_BUTTON as u32, modifiers: ANY_MODIFIER, window: w }),
    ensures
        forall|x: (u64, u32, u32)| #[trigger] apply_button_grab(g, r).contains(x) <==> g.contains(x) && x.0 != w,
{
}

/// Showing the cursor for moving and then the normal cursor leaves the
/// root window with the normal cursor, and every other window's cursor as
/// it was.
pub proof fn law_cursor_restored(wm: XlibWrapper, to_move: XRequest, to_normal: XRequest, c: Cursors)
    requires
        to_move == (XRequest::DefineCursor { window: wm.root, cursor: wm.cursors.move_cursor }),
        to_normal == (XRequest::DefineCursor { window: wm.root, cursor: wm.cursors.normal_cursor }),
    ensures
        apply_cursor(apply_cursor(c, to_move), to_normal) == c.insert(wm.root, wm.cursors.normal_cursor),
        apply_cursor(c, to_normal) == c.insert(wm.root, wm.cursors.normal_cursor),
{
    assert(apply_cursor(apply_cursor(c, to_move), to_normal) =~= c.insert(wm.root, wm.cursors.normal_cursor));
}

/// `r` looks up the atom named `name`, creating it unless `only_if_exists`.
pub open spec fn looks_up(r: XRequest, name: Seq<char>, only_if_exists: i32) -> bool {
    r matches XRequest::InternAtom { name: n, only_if_exists: o } && n@ == name && o == only_if_exists
}

/// Interning a name, on a display where no name has the atom None and a
/// new atom can still be made, answers an atom other than None; asking
/// again answers the same atom and changes nothing more; two requests for
/// the same name answer alike.
pub proof fn law_intern_atom(a: Atoms, name: Seq<char>, r1: XRequest, r2: XRequest)
    requires
        !a.values().contains(0u64),
        has_room(a),
        looks_up(r1, name, 0),
        looks_up(r2, name, 0),
    ensures
        intern_reply(a, r1) != 0,
        intern_reply(a, r1) == intern_reply(a, r2),
        apply_intern(a, r1) == apply_intern(a, r2),
        apply_intern(a, r1).dom().contains(name),
        apply_intern(a, r1)[name] == intern_reply(a, r1),
        intern_reply(apply_intern(a, r1), r2) == intern_reply(a, r1),
        apply_intern(apply_intern(a, r1), r2) == apply_intern(a, r1),
{
    if a.dom().contains(name) {
        assert(a.values().contains(a[name]));
    }
}

/// Looking up a name without creating it answers its atom when it has
/// one, None (0) otherwise, and changes nothing.
pub proof fn law_intern_atom_if_exists(a: Atoms, name: Seq<char>, r: XRequest)
    requires
        looks_up(r, name, 1),
    ensures
        intern_reply(a, r) == (if a.dom().contains(name) { a[name] } else { 0 }),
        apply_intern(a, r) == a,
{
}

/// Whether `r` is a key grab that covers the combination `x`.
pub open spec fn grab_covers(r: XRequest, x: (u64, i32, u32)) -> bool {
    r matches XRequest::GrabKey { keycode, modifiers, window, .. } && key_combination(
        x,
        window,
        keycode,
        modifiers,
    )
}

/// Key grabs only add: after the grabs `rs`, a combination is grabbed when
/// it was before or one of `rs` covers it.
pub proof fn lemma_key_grabs_add(g: KeyGrabs, rs: Seq<XRequest>)
    requires
        forall|i: int| 0 <= i < rs.len() ==> (#[trigger] rs[i]) is GrabKey,
    ensures
        forall|x: (u64, i32, u32)|
            #[trigger] apply_key_grabs(g, rs).contains(x) <==> g.contains(x) || exists|i: int|
                0 <= i < rs.len() && grab_covers(#[trigger] rs[i], x),
    decreases rs.len(),
{
    if rs.len() > 0 {
        let g1 = apply_key_grab(g, rs[0]);
        let t = rs.drop_first();
        assert forall|i: int| 0 <= i < t.len() implies (#[trigger] t[i]) is GrabKey by {
            assert(t[i] == rs[i + 1]);
        }
        lemma_key_grabs_add(g1, t);
        assert(rs[0] is GrabKey);
        assert(apply_key_grabs(g, rs) == apply_key_grabs(g1, t));
        assert forall|x: (u64, i32, u32)|
            #[trigger] apply_key_grabs(g, rs).contains(x) <==> g.contains(x) || exists|i: int|
                0 <= i < rs.len() && grab_covers(#[trigger] rs[i], x) by {
            assert(g1.contains(x) <==> g.contains(x) || grab_covers(rs[0], x));
            assert(apply_key_grabs(g1, t).contains(x) <==> g1.contains(x) || exists|i: int|
                0 <= i < t.len() && grab_covers(#[trigger] t[i], x));
            if apply_key_grabs(g, rs).contains(x) {
                if !g1.contains(x) {
                    let i = choose|i: int| 0 <= i < t.len() && grab_covers(#[trigger] t[i], x);
                    assert(rs[i + 1] == t[i]);
                } else if !g.contains(x) {
                    assert(grab_covers(rs[0], x));
                }
            }
            if g.contains(x) || exists|i: int| 0 <= i < rs.len() && grab_covers(#[trigger] rs[i], x) {
                if !g.contains(x) {
                    let i = choose|i: int| 0 <= i < rs.len() && grab_covers(#[trigger] rs[i], x);
                    if i > 0 {
                        assert(t[i - 1] == rs[i]);
                    }
                }
            }
        }
    }
}

/// Requests that are neither key grabs nor ungrabs leave the key grabs as
/// they were.
proof fn lemma_key_grabs_unchanged(g: KeyGrabs, rs: Seq<XRequest>)
    requires
        forall|i: int| 0 <= i < rs.len() ==> !((#[trigger] rs[i]) is GrabKey || rs[i] is UngrabKey),
    ensures
        apply_key_grabs(g, rs) == g,
    decreases rs.len(),
{
    if rs.len() > 0 {
        assert(!(rs[0] is GrabKey || rs[0] is UngrabKey));
        assert forall|i: int| 0 <= i < rs.drop_first().len() implies !((#[trigger] rs.drop_first()[i]) is GrabKey
            || rs.drop_first()[i] is UngrabKey) by {
            assert(rs.drop_first()[i] == rs[i + 1]);
        }
        lemma_key_grabs_unchanged(g, rs.drop_first());
    }
}

/// Taking over the root window leaves, of the key grabs, exactly those on
/// other windows as they were and, on the root window, the combinations of
/// each key code of `keycodes` (every key for code 0) with each of the four
/// modifier sets of `grab_modifiers(MOD4_MASK | SHIFT_MASK)`.
pub proof fn law_init_key_grabs(wm: XlibWrapper, keycodes: Seq<u8>, plan: Seq<XRequest>, g: KeyGrabs)
    requires
        wm.is_init(plan, keycodes),
    ensures
        forall|x: (u64, i32, u32)|
            #[trigger] apply_key_grabs(g, plan).contains(x) <==> (g.contains(x) && x.0 != wm.root) || exists|
                k: int,
                j: int,
            |
                0 <= k < keycodes.len() && 0 <= j < 4 && key_combination(
                    x,
                    wm.root,
                    #[trigger] keycodes[k] as i32,
                    #[trigger] grab_modifiers(MOD4_MASK | SHIFT_MASK)[j],
                ),
{
    let n: int = keycodes.len() as int;
    let m = MOD4_MASK | SHIFT_MASK;
    let head = plan.take(3);
    let ungrab = plan.subrange(3, 4);
    let grabs = plan.subrange(5, 5 + 4 * n);
    let g1 = apply_key_grab(g, plan[3]);
    // The first three requests and the property deletion leave the grabs.
    assert forall|i: int| 0 <= i < head.len() implies !((#[trigger] head[i]) is GrabKey || head[i] is UngrabKey) by {
        assert(head[i] == plan[i]);
    }
    lemma_key_grabs_unchanged(g, head);
    assert(plan =~= head + (ungrab + (plan.subrange(4, 5) + (grabs + plan.subrange(5 + 4 * n, plan.len() as int)))));
    lemma_apply_key_grabs_concat(g, head, ungrab + (plan.subrange(4, 5) + (grabs + plan.subrange(
        5 + 4 * n,
        plan.len() as int,
    ))));
    lemma_apply_key_grabs_concat(g, ungrab, plan.subrange(4, 5) + (grabs + plan.subrange(5 + 4 * n, plan.len() as int)));
    reveal_with_fuel(apply_key_grabs, 2);
    assert(ungrab =~= seq![plan[3]]);
    assert(ungrab.drop_first() =~= Seq::<XRequest>::empty());
    assert(apply_key_grabs(g, ungrab) == g1);
    lemma_apply_key_grabs_concat(g1, plan.subrange(4, 5), grabs + plan.subrange(5 + 4 * n, plan.len() as int));
    assert(plan.subrange(4, 5) =~= seq![plan[4]]);
    assert(plan.subrange(4, 5).drop_first() =~= Seq::<XRequest>::empty());
    assert(apply_key_grabs(g1, plan.subrange(4, 5)) == g1);
    lemma_apply_key_grabs_concat(g1, grabs, plan.subrange(5 + 4 * n, plan.len() as int));
    // The grabs.
    assert forall|i: int| 0 <= i < grabs.len() implies (#[trigger] grabs[i]) is GrabKey by {
        let k: int = i / 4;
        let j: int = i % 4;
        assert(grabs[i] == plan[5 + 4 * k + j]);
    }
    lemma_key_grabs_add(g1, grabs);
    let g2 = apply_key_grabs(g1, grabs);
    let tail = plan.subrange(5 + 4 * n, plan.len() as int);
    assert(tail =~= seq![plan[5 + 4 * n]]);
    assert forall|i: int| 0 <= i < tail.len() implies !((#[trigger] tail[i]) is GrabKey || tail[i] is UngrabKey) by {}
    lemma_key_grabs_unchanged(g2, tail);
    assert forall|x: (u64, i32, u32)|
        #[trigger] apply_key_grabs(g, plan).contains(x) <==> (g.contains(x) && x.0 != wm.root) || exists|
            k: int,
            j: int,
        |
            0 <= k < keycodes.len() && 0 <= j < 4 && key_combination(
                x,
                wm.root,
                #[trigger] keycodes[k] as i32,
                #[trigger] grab_modifiers(m)[j],
            ) by {
        assert(apply_key_grabs(g, plan) == g2);
        assert(g1.contains(x) <==> g.contains(x) && x.0 != wm.root);
        if exists|i: int| 0 <= i < grabs.len() && grab_covers(#[trigger] grabs[i], x) {
            let i = choose|i: int| 0 <= i < grabs.len() && grab_covers(#[trigger] grabs[i], x);
            let k: int = i / 4;
            let j: int = i % 4;
            assert(grabs[i] == plan[5 + 4 * k + j]);
            assert(plan[5 + 4 * k + j] == wm.key_grab(keycodes[k], grab_modifiers(m)[j]));
            assert(key_combination(x, wm.root, keycodes[k] as i32, grab_modifiers(m)[j]));
        }
        if exists|k: int, j: int|
            0 <= k < keycodes.len() && 0 <= j < 4 && key_combination(
                x,
                wm.root,
                #[trigger] keycodes[k] as i32,
                #[trigger] grab_modifiers(m)[j],
            ) {
            let (k, j) = choose|k: int, j: int|
                0 <= k < keycodes.len() && 0 <= j < 4 && key_combination(
                    x,
                    wm.root,
                    #[trigger] keycodes[k] as i32,
                    #[trigger] grab_modifiers(m)[j],
                );
            assert(grabs[4 * k + j] == plan[5 + 4 * k + j]);
            assert(plan[5 + 4 * k + j] == wm.key_grab(keycodes[k], grab_modifiers(m)[j]));
            assert(grab_covers(grabs[4 * k + j], x));
        }
    }
}

/// Taking over the root window gives it the normal cursor, and leaves the
/// cursor of every other window as it was.
pub proof fn law_init_cursor(wm: XlibWrapper, keycodes: Seq<u8>, plan: Seq<XRequest>, c: Cursors)
    requires
        wm.is_init(plan, keycodes),
    ensures
        apply_cursor(c, plan[0]) == c.insert(wm.root, wm.cursors.normal_cursor),
{
    assert((CW_EVENT_MASK | CW_CURSOR) & CW_CURSOR != 0) by (bit_vector);
}

} // verus!
