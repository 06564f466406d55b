//! What the window manager's decisions mean, stated over the inputs they
//! read: how raw events are decoded, when a client takes part in a
//! protocol, the modifier sets a key is grabbed under, how a strut is read,
//! and where the pointer is centered.
use vstd::prelude::*;
use crate::event::{decoded, EventPayload, EventType, RawEvent};
use crate::keys::grab_modifiers;
use crate::request::{ServerOp, WindowOp, WmProtocols, XRequest};
use crate::types::{DockArea, Size, WindowChanges, XAtom};
use crate::wrapper::XlibWrapper;
use crate::xproto::{
    BUTTON_PRESS, BUTTON_RELEASE, CONFIGURE_REQUEST, DESTROY_ALL, DESTROY_NOTIFY, ENTER_NOTIFY, EXPOSE,
    GRAB_MODE_ASYNC,
    KEY_PRESS, KEY_RELEASE, LEAVE_NOTIFY, LOCK_MASK, MAP_REQUEST, MOD2_MASK, MOTION_NOTIFY, SHIFT_MASK,
    X_FALSE,
};

verus! {

/// Each kind of event carries the fields of the raw event that belong to
/// it, each from its own field: a button event its window, subwindow,
/// button, root position (taken as unsigned) and modifier state; a key
/// event its window, modifier state and key code; a motion its window,
/// root position and state; a configure request its window, the requested
/// geometry, sibling and stacking mode, and the mask of what counts;
/// crossing, expose, map and destroy events their window (and, on entry,
/// the subwindow). Every other kind of event is unknown and carries
/// nothing.
pub proof fn law_decode_fields(raw: RawEvent)
    ensures
        raw.type_ == BUTTON_PRESS ==> decoded(raw).event_type == EventType::ButtonPress && decoded(raw).payload
            == Some(
            EventPayload::ButtonPress(
                raw.window,
                raw.subwindow,
                raw.button,
                raw.x_root as u32,
                raw.y_root as u32,
                raw.state,
            ),
        ),
        raw.type_ == BUTTON_RELEASE ==> decoded(raw).event_type == EventType::ButtonRelease
            && decoded(raw).payload == Some(
            EventPayload::ButtonRelease(
                raw.window,
                raw.subwindow,
                raw.button,
                raw.x_root as u32,
                raw.y_root as u32,
                raw.state,
            ),
        ),
        raw.type_ == KEY_PRESS ==> decoded(raw).event_type == EventType::KeyPress && decoded(raw).payload == Some(
            EventPayload::KeyPress(raw.window, raw.state, raw.keycode),
        ),
        raw.type_ == KEY_RELEASE ==> decoded(raw).event_type == EventType::KeyRelease && decoded(raw).payload
            == Some(EventPayload::KeyRelease(raw.window, raw.state, raw.keycode)),
        raw.type_ == MOTION_NOTIFY ==> decoded(raw).event_type == EventType::MotionNotify && decoded(raw).payload
            == Some(EventPayload::MotionNotify(raw.window, raw.x_root, raw.y_root, raw.state)),
        raw.type_ == CONFIGURE_REQUEST ==> decoded(raw).event_type == EventType::ConfigurationRequest
            && decoded(raw).payload == Some(
            EventPayload::ConfigurationRequest(
                raw.window,
                WindowChanges {
                    x: raw.x,
                    y: raw.y,
                    width: raw.width,
                    height: raw.height,
                    border_width: raw.border_width,
                    sibling: raw.above,
                    stack_mode: raw.detail,
                },
                raw.value_mask,
            ),
        ),
        raw.type_ == MAP_REQUEST ==> decoded(raw).event_type == EventType::MapRequest && decoded(raw).payload
            == Some(EventPayload::MapRequest(raw.window)),
        raw.type_ == ENTER_NOTIFY ==> decoded(raw).event_type == EventType::EnterNotify && decoded(raw).payload
            == Some(EventPayload::EnterNotify(raw.window, raw.subwindow)),
        raw.type_ == LEAVE_NOTIFY ==> decoded(raw).event_type == EventType::LeaveNotify && decoded(raw).payload
            == Some(EventPayload::LeaveNotify(raw.window)),
        raw.type_ == EXPOSE ==> decoded(raw).event_type == EventType::Expose && decoded(raw).payload == Some(
            EventPayload::Expose(raw.window),
        ),
        raw.type_ == DESTROY_NOTIFY ==> decoded(raw).event_type == EventType::DestroyWindow
            && decoded(raw).payload == Some(EventPayload::DestroyWindow(raw.window)),
        !(raw.type_ == BUTTON_PRESS || raw.type_ == BUTTON_RELEASE || raw.type_ == KEY_PRESS || raw.type_
            == KEY_RELEASE || raw.type_ == MOTION_NOTIFY || raw.type_ == CONFIGURE_REQUEST || raw.type_
            == MAP_REQUEST || raw.type_ == ENTER_NOTIFY || raw.type_ == LEAVE_NOTIFY || raw.type_ == EXPOSE
            || raw.type_ == DESTROY_NOTIFY) ==> decoded(raw).event_type == EventType::UnknownEvent
            && decoded(raw).payload is None,
{
}

/// The decoding of a button, key or pointer event does not look at the
/// geometry fields of the raw event: two raw events that differ only there
/// decode alike.
pub proof fn law_decode_ignores_geometry(a: RawEvent, b: RawEvent)
    requires
        a.type_ == b.type_,
        a.type_ != CONFIGURE_REQUEST,
        a.window == b.window,
        a.subwindow == b.subwindow,
        a.x_root == b.x_root,
        a.y_root == b.y_root,
        a.state == b.state,
        a.button == b.button,
        a.keycode == b.keycode,
    ensures
        decoded(a) == decoded(b),
{
}

/// A client takes part in protocol `atom` exactly when its protocols were
/// read (status above 0) and `atom` stands anywhere in their list.
pub proof fn law_expects(protocols: &WmProtocols, atom: u64)
    ensures
        XlibWrapper::expects(protocols, atom) <==> (protocols.status > 0 && exists|i: int|
            0 <= i < protocols.atoms@.len() && protocols.atoms@[i] == atom),
{
    if protocols.status > 0 && exists|i: int| 0 <= i < protocols.atoms@.len() && protocols.atoms@[i] == atom {
        let i = choose|i: int| 0 <= i < protocols.atoms@.len() && protocols.atoms@[i] == atom;
        assert(protocols.atoms@.contains(atom));
    }
}

/// A client whose protocols were read and list WM_DELETE_WINDOW, at any
/// place, is asked to close by one WM_PROTOCOLS message carrying that atom
/// and the current time; any other client is killed with the server
/// grabbed.
pub proof fn law_kill_client(wm: XlibWrapper, w: u64, protocols: &WmProtocols, plan: Seq<XRequest>)
    requires
        wm.is_kill_client(plan, w, protocols),
    ensures
        (protocols.status > 0 && exists|i: int|
            0 <= i < protocols.atoms@.len() && protocols.atoms@[i] == wm.xatom.WMDelete) ==> plan == seq![
            XRequest::SendClientMessage {
                window: w,
                propagate: 0,
                event_mask: 0,
                message_type: wm.xatom.WMProtocols,
                format: 32,
                data0: wm.xatom.WMDelete as i64,
                data1: 0,
            },
        ],
        !(protocols.status > 0 && exists|i: int|
            0 <= i < protocols.atoms@.len() && protocols.atoms@[i] == wm.xatom.WMDelete) ==> plan == seq![
            XRequest::Server { op: ServerOp::Grab },
            XRequest::SetCloseDownMode { mode: DESTROY_ALL },
            XRequest::Window { op: WindowOp::KillClient, window: w },
            XRequest::Sync { discard: X_FALSE },
            XRequest::Server { op: ServerOp::Ungrab },
        ],
{
    law_expects(protocols, wm.xatom.WMDelete);
}

/// Giving the focus to a client whose protocols were read and list
/// WM_TAKE_FOCUS, at any place, sends it one WM_PROTOCOLS message carrying
/// that atom and the current time, between making it active and waiting;
/// any other client gets no message.
pub proof fn law_take_focus_offer(wm: XlibWrapper, w: u64, protocols: &WmProtocols, plan: Seq<XRequest>)
    requires
        wm.is_take_focus(plan, w, protocols),
    ensures
        (protocols.status > 0 && exists|i: int|
            0 <= i < protocols.atoms@.len() && protocols.atoms@[i] == wm.xatom.WMTakeFocus) ==> plan.len() == 4
            && plan[2] == (XRequest::SendClientMessage {
            window: w,
            propagate: 0,
            event_mask: 0,
            message_type: wm.xatom.WMProtocols,
            format: 32,
            data0: wm.xatom.WMTakeFocus as i64,
            data1: 0,
        }),
        !(protocols.status > 0 && exists|i: int|
            0 <= i < protocols.atoms@.len() && protocols.atoms@[i] == wm.xatom.WMTakeFocus) ==> plan.len() == 3,
{
    law_expects(protocols, wm.xatom.WMTakeFocus);
}

/// A key is grabbed under four modifier sets: the given one; the given one
/// with only the shift bit cleared; the given one with only the num lock
/// (Mod2) bit set; the given one with only the caps lock bit set.
pub proof fn law_grab_modifiers(m: u32)
    ensures
        grab_modifiers(m).len() == 4,
        grab_modifiers(m)[0] == m,
        grab_modifiers(m)[1] & SHIFT_MASK == 0,
        grab_modifiers(m)[1] & !SHIFT_MASK == m & !SHIFT_MASK,
        grab_modifiers(m)[1] | SHIFT_MASK == m | SHIFT_MASK,
        grab_modifiers(m)[2] & MOD2_MASK == MOD2_MASK,
        grab_modifiers(m)[2] & !MOD2_MASK == m & !MOD2_MASK,
        grab_modifiers(m)[3] & LOCK_MASK == LOCK_MASK,
        grab_modifiers(m)[3] & !LOCK_MASK == m & !LOCK_MASK,
{
    let a = grab_modifiers(m)[1];
    let b = grab_modifiers(m)[2];
    let c = grab_modifiers(m)[3];
    assert(a == m & !1u32);
    assert(b == m | 0x10u32);
    assert(c == m | 2u32);
    assert((m & !1u32) & 1u32 == 0 && (m & !1u32) & !1u32 == m & !1u32 && (m & !1u32) | 1u32 == m | 1u32)
        by (bit_vector);
    assert((m | 0x10u32) & 0x10u32 == 0x10u32 && (m | 0x10u32) & !0x10u32 == m & !0x10u32) by (bit_vector);
    assert((m | 2u32) & 2u32 == 2u32 && (m | 2u32) & !2u32 == m & !2u32) by (bit_vector);
}

/// Each field of a dock area is the cardinal at its own place among the
/// twelve of _NET_WM_STRUT_PARTIAL.
pub proof fn law_dock_area_fields(v: Seq<i64>)
    ensures
        DockArea::from_seq(v).left == v[0],
        DockArea::from_seq(v).right == v[1],
        DockArea::from_seq(v).top == v[2],
        DockArea::from_seq(v).bottom == v[3],
        DockArea::from_seq(v).left_start_y == v[4],
        DockArea::from_seq(v).left_end_y == v[5],
        DockArea::from_seq(v).right_start_y == v[6],
        DockArea::from_seq(v).right_end_y == v[7],
        DockArea::from_seq(v).top_start_x == v[8],
        DockArea::from_seq(v).top_end_x == v[9],
        DockArea::from_seq(v).bottom_start_x == v[10],
        DockArea::from_seq(v).bottom_end_x == v[11],
{
}

/// The pointer is centered at half the window's width across and half its
/// height down, each rounded down.
pub proof fn law_center(size: Size)
    ensures
        XlibWrapper::center(size).x as int == size.width as int / 2,
        XlibWrapper::center(size).y as int == size.height as int / 2,
{
}

/// A key grab of the window manager is a grab of that key code under
/// those modifiers on the root window, with the events still reported to
/// the window manager and both pointer and keyboard left running
/// (asynchronous).
pub proof fn law_key_grab(wm: XlibWrapper, code: u8, m: u32)
    ensures
        wm.key_grab(code, m) matches XRequest::GrabKey {
            keycode,
            modifiers,
            window,
            owner_events,
            pointer_mode,
            keyboard_mode,
        } && keycode as int == code as int && modifiers == m && window == wm.root && owner_events == 1
            && pointer_mode == GRAB_MODE_ASYNC && keyboard_mode == GRAB_MODE_ASYNC,
{
}

/// The atoms announced as supported are all the atoms the window manager
/// holds but the three of the WM_PROTOCOLS protocol and UTF8_STRING, in
/// the order of the fields.
pub proof fn law_supported_atoms(a: XAtom)
    ensures
        a.supported() == a.all().subrange(3, 12) + a.all().subrange(13, 23),
{
    assert(a.supported() =~= a.all().subrange(3, 12) + a.all().subrange(13, 23));
}

} // verus!
