use xlibwrapper::request::{PropData, PropertyQuery, ServerOp, WindowOp, WmProtocols, XRequest};
use xlibwrapper::types::{Cursor, DockArea, Geometry, PointerReply, Position, Screen, Size, WindowAttributes, WindowChanges, WindowType, XAtom};
use xlibwrapper::wrapper::{error_handler, on_wm_detected, XlibWrapper, WM_NAME};
use xlibwrapper::xproto;

const ROOT: u64 = 0x100;

fn atoms() -> XAtom {
    XAtom {
        WMProtocols: 1001,
        WMDelete: 1002,
        WMTakeFocus: 1003,
        NetSupported: 1004,
        NetClientList: 1005,
        NetActiveWindow: 1006,
        NetCurrentDesktop: 1007,
        NetNumberOfDesktops: 1008,
        NetDesktopNames: 1009,
        NetDesktopViewport: 1010,
        NetSupportingWmCheck: 1011,
        NetWMName: 1012,
        NetUtf8String: 1013,
        NetWMStrut: 1014,
        NetWMStrutPartial: 1015,
        NetWMWindowType: 1016,
        NetWMWindowTypeDesktop: 1017,
        NetWMWindowTypeDock: 1018,
        NetWMWindowTypeToolbar: 1019,
        NetWMWindowTypeMenu: 1020,
        NetWMWindowTypeUtility: 1021,
        NetWMWindowTypeSplash: 1022,
        NetWMWindowTypeDialog: 1023,
    }
}

fn wm() -> XlibWrapper {
    XlibWrapper::new(ROOT, atoms(), 1920, 1080, Cursor { normal_cursor: 77, move_cursor: 88 })
}

fn words(window: u64, property: u64, data: Vec<u32>) -> XRequest {
    let n = data.len() as i32;
    XRequest::ChangeProperty {
        window,
        property,
        type_: xproto::XA_CARDINAL,
        format: 32,
        mode: xproto::PROP_MODE_REPLACE,
        data: PropData::Words(data),
        nelements: n,
    }
}

fn grab(code: u8, m: u32) -> XRequest {
    XRequest::GrabKey {
        keycode: code as i32,
        modifiers: m,
        window: ROOT,
        owner_events: 1,
        pointer_mode: xproto::GRAB_MODE_ASYNC,
        keyboard_mode: xproto::GRAB_MODE_ASYNC,
    }
}

#[test]
fn error_handler_ignores_bad_window_only() {
    assert_eq!(error_handler(3), 0);
    assert_eq!(error_handler(10), 1);
    assert_eq!(error_handler(0), 1);
    assert_eq!(on_wm_detected(10), 1);
    assert_eq!(on_wm_detected(3), 0);
}

#[test]
fn new_sets_screen_and_root() {
    let w = wm();
    assert_eq!(w.get_root(), ROOT);
    assert_eq!(w.get_screen(), Screen { root: ROOT, width: 1920, height: 1080, x: 0, y: 0 });
    assert_eq!(w.cursors, Cursor { normal_cursor: 77, move_cursor: 88 });
}

#[test]
fn init_grabs_each_key_under_four_modifier_sets() {
    let w = wm();
    let r = w.init(&vec![38, 40]);
    assert_eq!(r.len(), 6 + 8);
    assert_eq!(
        r[0],
        XRequest::ChangeWindowAttributes {
            window: ROOT,
            value_mask: 0x4800,
            event_mask: 0x005A_0071,
            cursor: 77
        }
    );
    assert_eq!(r[1], XRequest::SelectInput { window: ROOT, event_mask: 0x005A_0071 });
    match &r[2] {
        XRequest::ChangeProperty { window, property, type_, format, mode, data, nelements } => {
            assert_eq!(*window, ROOT);
            assert_eq!(*property, 1004);
            assert_eq!(*type_, xproto::XA_ATOM);
            assert_eq!(*format, 32);
            assert_eq!(*mode, 0);
            assert_eq!(*nelements, 19);
            assert_eq!(*data, PropData::Longs(atoms().net_supported()));
        }
        other => panic!("unexpected {:?}", other),
    }
    assert_eq!(r[3], XRequest::UngrabKey { keycode: 0, modifiers: 0x8000, window: ROOT });
    assert_eq!(r[4], XRequest::DeleteProperty { window: ROOT, property: 1005 });
    let mods = [0x41u32, 0x40, 0x51, 0x43];
    for (k, code) in [38u8, 40].iter().enumerate() {
        for (j, m) in mods.iter().enumerate() {
            assert_eq!(r[5 + 4 * k + j], grab(*code, *m));
        }
    }
    assert_eq!(r[13], XRequest::Sync { discard: 0 });
}

#[test]
fn init_without_keys_still_syncs() {
    let r = wm().init(&vec![]);
    assert_eq!(r.len(), 6);
    assert_eq!(r[5], XRequest::Sync { discard: 0 });
}

#[test]
fn grab_keys_modifier_variants() {
    let r = wm().grab_keys(24, xproto::MOD4_MASK);
    assert_eq!(r, vec![grab(24, 0x40), grab(24, 0x40), grab(24, 0x50), grab(24, 0x42)]);
}

#[test]
fn grab_key_passes_its_arguments() {
    let r = wm().grab_key(300, 5, 9, false, 0, 1);
    assert_eq!(
        r,
        XRequest::GrabKey { keycode: 300, modifiers: 5, window: 9, owner_events: 0, pointer_mode: 0, keyboard_mode: 1 }
    );
}

#[test]
fn current_desktop_and_desktop_count() {
    let w = wm();
    assert_eq!(w.ewmh_current_desktop(3), words(ROOT, 1007, vec![3, 0]));
    assert_eq!(w.set_atom_number_of_desktops(9), words(ROOT, 1008, vec![9]));
    assert_eq!(w.set_desktop_prop(&[1, 2, 3], 42), words(ROOT, 42, vec![1, 2, 3]));
}

#[test]
fn desktop_prop_u64_is_cut_to_32_bits() {
    let r = wm().set_desktop_prop_u64(0x1_0000_0005, 7, xproto::XA_WINDOW);
    assert_eq!(
        r,
        XRequest::ChangeProperty {
            window: ROOT,
            property: 7,
            type_: xproto::XA_WINDOW,
            format: 32,
            mode: 0,
            data: PropData::Words(vec![5]),
            nelements: 1
        }
    );
}

#[test]
fn desktop_prop_string() {
    let w = wm();
    assert_eq!(w.set_desktop_prop_string("a\0b", 5), None);
    assert_eq!(
        w.set_desktop_prop_string("ab", 5),
        Some(XRequest::ChangeProperty {
            window: ROOT,
            property: 5,
            type_: xproto::XA_CARDINAL,
            format: 32,
            mode: 0,
            data: PropData::Bytes(vec![97, 98, 0]),
            nelements: 2
        })
    );
}

#[test]
fn desktop_hints_announce_count_current_and_names() {
    let w = wm();
    let names = vec!["web".to_string(), "code".to_string()];
    let r = w.init_desktops_hints(names.clone());
    assert_eq!(r.len(), 3);
    assert_eq!(r[0], words(ROOT, 1008, vec![2]));
    assert_eq!(r[1], words(ROOT, 1007, vec![0, 0]));
    assert_eq!(
        r[2],
        XRequest::SetTextProperty { window: ROOT, property: 1009, style: xproto::XUTF8_STRING_STYLE, names }
    );
}

#[test]
fn desktop_hints_finish_marks_both_windows() {
    let w = wm();
    assert_eq!(
        w.ewmh_check_window(),
        XRequest::CreateWindow {
            parent: ROOT,
            x: -1,
            y: -1,
            width: 1,
            height: 1,
            border_width: 0,
            depth: 0,
            class: 2,
            value_mask: 512,
            attribute: 1
        }
    );
    let r = w.init_desktops_hints_finish(0x2_0000_0300, 33);
    assert_eq!(r.len(), 7);
    let check = |window: u64, value: u32| XRequest::ChangeProperty {
        window,
        property: 1011,
        type_: 33,
        format: 32,
        mode: 0,
        data: PropData::Words(vec![value]),
        nelements: 1,
    };
    let name = |window: u64| XRequest::ChangeProperty {
        window,
        property: 1012,
        type_: 1013,
        format: 8,
        mode: 0,
        data: PropData::Bytes(b"Hadlok".to_vec()),
        nelements: 5,
    };
    assert_eq!(r[0], check(0x2_0000_0300, 0x300));
    assert_eq!(r[1], name(0x2_0000_0300));
    assert_eq!(r[2], check(ROOT, 0x300));
    assert_eq!(r[3], name(ROOT));
    assert_eq!(
        r[4],
        XRequest::ChangeProperty {
            window: ROOT,
            property: 1012,
            type_: xproto::XA_CARDINAL,
            format: 32,
            mode: 0,
            data: PropData::Bytes(b"Hadlok\0".to_vec()),
            nelements: 6
        }
    );
    assert_eq!(
        r[5],
        XRequest::ChangeProperty {
            window: ROOT,
            property: 1011,
            type_: xproto::XA_WINDOW,
            format: 32,
            mode: 0,
            data: PropData::Words(vec![ROOT as u32]),
            nelements: 1
        }
    );
    assert_eq!(r[6], words(ROOT, 1010, vec![0, 0]));
    assert_eq!(WM_NAME, "Hadlok");
}

#[test]
fn atoms_are_interned_by_name() {
    let w = wm();
    assert_eq!(w.get_atom("WINDOW"), XRequest::InternAtom { name: "WINDOW".to_string(), only_if_exists: 0 });
    assert_eq!(w.intern_atom("_NET_WM_NAME"), XRequest::InternAtom { name: "_NET_WM_NAME".to_string(), only_if_exists: 0 });
    assert_eq!(w.get_atom_if_exists("X"), XRequest::InternAtom { name: "X".to_string(), only_if_exists: 1 });
}

#[test]
fn cursors() {
    let w = wm();
    assert_eq!(w.set_cursor_normal(), XRequest::DefineCursor { window: ROOT, cursor: 77 });
    assert_eq!(w.set_cursor_move(), XRequest::DefineCursor { window: ROOT, cursor: 88 });
}

#[test]
fn window_attrs_fail_on_status_zero() {
    let w = wm();
    assert_eq!(w.get_window_attrs(0, 5u8), Err(()));
    assert_eq!(w.get_window_attrs(1, 5u8), Ok(5u8));
}

#[test]
fn single_window_requests() {
    let w = wm();
    assert_eq!(w.add_to_save_set(4), XRequest::Window { op: WindowOp::AddToSaveSet, window: 4 });
    assert_eq!(w.remove_from_save_set(4), XRequest::Window { op: WindowOp::RemoveFromSaveSet, window: 4 });
    assert_eq!(w.map_window(4), XRequest::Window { op: WindowOp::MapWindow, window: 4 });
    assert_eq!(w.unmap_window(4), XRequest::Window { op: WindowOp::UnmapWindow, window: 4 });
    assert_eq!(w.raise_window(4), XRequest::Window { op: WindowOp::RaiseWindow, window: 4 });
    assert_eq!(w.destroy_window(4), XRequest::Window { op: WindowOp::DestroyWindow, window: 4 });
    assert_eq!(w.grab_server(), XRequest::Server { op: ServerOp::Grab });
    assert_eq!(w.ungrab_server(), XRequest::Server { op: ServerOp::Ungrab });
    assert_eq!(w.exit(), XRequest::Server { op: ServerOp::Close });
    assert_eq!(w.sync(true), XRequest::Sync { discard: 1 });
    assert_eq!(w.sync(false), XRequest::Sync { discard: 0 });
    assert_eq!(w.move_window(4, Position { x: -3, y: 7 }), XRequest::MoveWindow { window: 4, x: -3, y: 7 });
    assert_eq!(w.resize_window(4, 30, 40), XRequest::ResizeWindow { window: 4, width: 30, height: 40 });
    assert_eq!(w.select_input(4, 0x10), XRequest::SelectInput { window: 4, event_mask: 0x10 });
}

#[test]
fn focus_is_removed_from_the_root_property() {
    assert_eq!(wm().remove_focus(4), XRequest::DeleteProperty { window: ROOT, property: 1006 });
}

fn focus_property(w: u64) -> XRequest {
    XRequest::ChangeProperty {
        window: ROOT,
        property: 1006,
        type_: xproto::XA_WINDOW,
        format: 32,
        mode: 0,
        data: PropData::Longs(vec![w]),
        nelements: 1,
    }
}

#[test]
fn take_focus_offers_take_focus_only_to_clients_that_expect_it() {
    let w = wm();
    let expecting = WmProtocols { status: 1, atoms: vec![1002, 1003] };
    let r = w.take_focus(4, &expecting);
    assert_eq!(
        r,
        vec![
            XRequest::SetInputFocus { window: 4, revert_to: 1, time: 0 },
            focus_property(4),
            XRequest::SendClientMessage {
                window: 4,
                propagate: 0,
                event_mask: 0,
                message_type: 1001,
                format: 32,
                data0: 1003,
                data1: 0
            },
            XRequest::Sync { discard: 0 },
        ]
    );
    let other = WmProtocols { status: 1, atoms: vec![1002] };
    assert_eq!(w.take_focus(4, &other).len(), 3);
    let failed = WmProtocols { status: 0, atoms: vec![1003] };
    let r = w.take_focus(4, &failed);
    assert_eq!(
        r,
        vec![
            XRequest::SetInputFocus { window: 4, revert_to: 1, time: 0 },
            focus_property(4),
            XRequest::Sync { discard: 0 }
        ]
    );
}

#[test]
fn expects_xevent_atom_needs_a_positive_status() {
    let w = wm();
    assert!(w.expects_xevent_atom(&WmProtocols { status: 1, atoms: vec![7, 8] }, 8));
    assert!(!w.expects_xevent_atom(&WmProtocols { status: 1, atoms: vec![7, 8] }, 9));
    assert!(!w.expects_xevent_atom(&WmProtocols { status: 0, atoms: vec![8] }, 8));
    assert_eq!(w.send_xevent_atom(5, 9, &WmProtocols { status: 1, atoms: vec![] }), None);
}

#[test]
fn colors_and_border_leave_the_root_alone() {
    let w = wm();
    assert!(w.set_window_background_color(ROOT, 0xff).is_empty());
    assert!(w.set_border_color(ROOT, 0xff).is_empty());
    assert!(w.set_border_width(ROOT, 2).is_empty());
    assert_eq!(
        w.set_window_background_color(4, 0xff),
        vec![
            XRequest::SetWindowBackground { window: 4, pixel: 0xff },
            XRequest::Window { op: WindowOp::UnmapWindow, window: 4 },
            XRequest::Window { op: WindowOp::MapWindow, window: 4 },
            XRequest::Sync { discard: 0 }
        ]
    );
    assert_eq!(
        w.set_border_color(4, 0xaa),
        vec![XRequest::SetWindowBorder { window: 4, pixel: 0xaa }, XRequest::Sync { discard: 0 }]
    );
    assert_eq!(w.set_border_width(4, 2), vec![XRequest::SetWindowBorderWidth { window: 4, width: 2 }]);
}

#[test]
fn center_cursor_warps_to_the_middle() {
    let r = wm().center_cursor(4, Size { width: 101, height: 50 });
    assert_eq!(
        r,
        vec![
            XRequest::WarpPointer {
                src: 0,
                dest: 4,
                src_x: 0,
                src_y: 0,
                src_width: 0,
                src_height: 0,
                dest_x: 50,
                dest_y: 25
            },
            XRequest::Server { op: ServerOp::Flush }
        ]
    );
    let r = wm().center_cursor(4, Size { width: u32::MAX, height: 0 });
    assert_eq!(
        r[0],
        XRequest::WarpPointer {
            src: 0,
            dest: 4,
            src_x: 0,
            src_y: 0,
            src_width: 0,
            src_height: 0,
            dest_x: i32::MAX,
            dest_y: 0
        }
    );
}

#[test]
fn configure_window_cuts_the_mask() {
    let changes = WindowChanges { x: 1, y: 2, width: 3, height: 4, border_width: 5, sibling: 6, stack_mode: 7 };
    assert_eq!(
        wm().configure_window(4, 0x1_0000_000f, changes),
        XRequest::ConfigureWindow { window: 4, value_mask: 0xf, changes }
    );
}

#[test]
fn keyboard_and_button_grabs() {
    let w = wm();
    assert_eq!(
        w.grab_keyboard(4),
        XRequest::GrabKeyboard { window: 4, owner_events: 0, pointer_mode: 1, keyboard_mode: 1, time: 0 }
    );
    assert_eq!(w.ungrab_keys(4), XRequest::UngrabKey { keycode: 0, modifiers: 0x8000, window: ROOT });
    assert_eq!(w.ungrab_all_buttons(4), XRequest::UngrabButton { button: 0, modifiers: 0x8000, window: 4 });
    assert_eq!(
        w.grab_button(1, 0x40, 4, true, 4, 1, 0, 0, 9),
        XRequest::GrabButton {
            button: 1,
            modifiers: 0x40,
            window: 4,
            owner_events: 1,
            event_mask: 4,
            pointer_mode: 1,
            keyboard_mode: 0,
            confine_to: 0,
            cursor: 9
        }
    );
}

fn append_client(w: u64) -> XRequest {
    XRequest::ChangeProperty {
        window: ROOT,
        property: 1005,
        type_: xproto::XA_WINDOW,
        format: 32,
        mode: xproto::PROP_MODE_APPEND,
        data: PropData::Longs(vec![w]),
        nelements: 1,
    }
}

#[test]
fn client_list_is_rebuilt_in_order() {
    let w = wm();
    assert_eq!(w.add_to_root_net_client_list(9), append_client(9));
    assert_eq!(
        w.update_net_client_list(vec![5, 6]),
        vec![XRequest::DeleteProperty { window: ROOT, property: 1005 }, append_client(5), append_client(6)]
    );
    assert_eq!(w.update_net_client_list(vec![]), vec![XRequest::DeleteProperty { window: ROOT, property: 1005 }]);
}

#[test]
fn update_then_add_equals_update_with_the_new_client() {
    let w = wm();
    let mut a = w.update_net_client_list(vec![5, 6]);
    a.push(w.add_to_root_net_client_list(7));
    assert_eq!(a, w.update_net_client_list(vec![5, 6, 7]));
}

#[test]
fn simple_window_and_geometry() {
    let w = wm();
    assert_eq!(
        w.create_simple_window(ROOT, Position { x: 1, y: 2 }, Size { width: 3, height: 4 }, 5, 6, 7),
        XRequest::CreateSimpleWindow {
            parent: ROOT,
            x: 1,
            y: 2,
            width: 3,
            height: 4,
            border_width: 5,
            border: 6,
            background: 7
        }
    );
    let attrs = WindowAttributes { x: -5, y: 6, width: 100, height: -1, border_width: 0, map_state: 2, override_redirect: false };
    assert_eq!(w.get_geometry(&attrs), Geometry { x: -5, y: 6, width: 100, height: u32::MAX });
}

#[test]
fn property_queries() {
    let w = wm();
    assert_eq!(
        w.window_type_query(4),
        PropertyQuery { window: 4, property: 1016, offset: 0, length: 1024, delete: 0, req_type: xproto::XA_ATOM }
    );
    assert_eq!(
        w.atom_prop_query(4, 12),
        PropertyQuery { window: 4, property: 12, offset: 0, length: 1024, delete: 0, req_type: xproto::XA_ATOM }
    );
    assert_eq!(
        w.strut_partial_query(4),
        PropertyQuery { window: 4, property: 1015, offset: 0, length: 4096, delete: 0, req_type: xproto::XA_CARDINAL }
    );
    assert_eq!(
        w.strut_query(4),
        PropertyQuery { window: 4, property: 1014, offset: 0, length: 4096, delete: 0, req_type: xproto::XA_CARDINAL }
    );
}

#[test]
fn atom_prop_value_needs_success_and_data() {
    let w = wm();
    assert_eq!(w.get_atom_prop_value(0, Some(5)), Some(5));
    assert_eq!(w.get_atom_prop_value(0, None), None);
    assert_eq!(w.get_atom_prop_value(1, Some(5)), None);
}

#[test]
fn window_types_by_atom() {
    let w = wm();
    assert_eq!(w.get_window_type(Some(1017)), WindowType::Desktop);
    assert_eq!(w.get_window_type(Some(1018)), WindowType::Dock);
    assert_eq!(w.get_window_type(Some(1019)), WindowType::Toolbar);
    assert_eq!(w.get_window_type(Some(1020)), WindowType::Menu);
    assert_eq!(w.get_window_type(Some(1021)), WindowType::Utility);
    assert_eq!(w.get_window_type(Some(1022)), WindowType::Splash);
    assert_eq!(w.get_window_type(Some(1023)), WindowType::Dialog);
    assert_eq!(w.get_window_type(Some(1024)), WindowType::Normal);
    assert_eq!(w.get_window_type(None), WindowType::Normal);
}

#[test]
fn struts_need_twelve_cardinals() {
    let w = wm();
    let items: Vec<i64> = (1..=12).collect();
    let d = DockArea {
        left: 1,
        right: 2,
        top: 3,
        bottom: 4,
        left_start_y: 5,
        left_end_y: 6,
        right_start_y: 7,
        right_end_y: 8,
        top_start_x: 9,
        top_end_x: 10,
        bottom_start_x: 11,
        bottom_end_x: 12,
    };
    assert_eq!(w.strut_from_reply(0, &items), Some(d));
    assert_eq!(w.strut_from_reply(1, &items), None);
    assert_eq!(w.strut_from_reply(0, &[0, 0, 30, 0]), None);
    let other = DockArea { top: 99, ..d };
    assert_eq!(w.get_window_strut_array(Some(d), Some(other)), Some(d));
    assert_eq!(w.get_window_strut_array(None, Some(other)), Some(other));
    assert_eq!(w.get_window_strut_array(None, None), None);
}

#[test]
fn kill_client_asks_politely_first() {
    let w = wm();
    let polite = w.kill_client(4, &WmProtocols { status: 1, atoms: vec![1002] });
    assert_eq!(
        polite,
        vec![XRequest::SendClientMessage {
            window: 4,
            propagate: 0,
            event_mask: 0,
            message_type: 1001,
            format: 32,
            data0: 1002,
            data1: 0
        }]
    );
    let forced = w.kill_client(4, &WmProtocols { status: 1, atoms: vec![1003] });
    assert_eq!(
        forced,
        vec![
            XRequest::Server { op: ServerOp::Grab },
            XRequest::SetCloseDownMode { mode: 0 },
            XRequest::Window { op: WindowOp::KillClient, window: 4 },
            XRequest::Sync { discard: 0 },
            XRequest::Server { op: ServerOp::Ungrab }
        ]
    );
    assert!(w.client_killed(&vec![1, 2, 3], 4));
    assert!(!w.client_killed(&vec![1, 4, 3], 4));
}

#[test]
fn top_level_count() {
    let w = wm();
    assert_eq!(w.top_level_window_count(&vec![]), 0);
    assert_eq!(w.top_level_window_count(&vec![1, 2, 3]), 3);
}

#[test]
fn supported_atoms_listed() {
    let s = atoms().net_supported();
    assert_eq!(s.len(), 19);
    assert_eq!(s[0], 1004);
    assert!(!s.contains(&1001));
}

#[test]
fn pointer_position_is_relative_to_the_root() {
    let reply = PointerReply { root: ROOT, child: 4, root_x: 300, root_y: -2, win_x: 10, win_y: 20, mask: 0x40 };
    assert_eq!(wm().pointer_root_pos(&reply), Position { x: 300, y: -2 });
}
