use xlibwrapper::keys::{grab_modifier_list, root_key_names};
use xlibwrapper::types::{DockArea, Screen};
use xlibwrapper::util::{c_string_bytes, contains_nul, contains_window, str_bytes, to_c_bool};

#[test]
fn nul_bytes_are_found() {
    assert!(!contains_nul("Hadlok"));
    assert!(contains_nul("a\0"));
    assert!(!contains_nul(""));
    assert!(!contains_nul("é"));
}

#[test]
fn c_string_bytes_close_with_nul() {
    assert_eq!(c_string_bytes("ab"), vec![97, 98, 0]);
    assert_eq!(str_bytes("é"), vec![0xc3, 0xa9]);
}

#[test]
fn windows_are_found() {
    assert!(contains_window(&vec![1, 2, 3], 2));
    assert!(!contains_window(&vec![], 2));
}

#[test]
fn c_bools() {
    assert_eq!(to_c_bool(true), 1);
    assert_eq!(to_c_bool(false), 0);
}

#[test]
fn root_keys() {
    let keys = root_key_names();
    assert_eq!(keys.len(), 16);
    assert_eq!(keys[0], "Left");
    assert_eq!(keys[4], "Return");
    assert_eq!(keys[15], "9");
}

#[test]
fn modifier_variants() {
    assert_eq!(grab_modifier_list(0x41), vec![0x41, 0x40, 0x51, 0x43]);
    assert_eq!(grab_modifier_list(0), vec![0, 0, 0x10, 0x2]);
}

#[test]
fn screen_and_dock_area_constructors() {
    assert_eq!(Screen::new(1, 2, 3, 4, 5), Screen { root: 1, width: 2, height: 3, x: 4, y: 5 });
    let v: Vec<i64> = (0..12).collect();
    let d = DockArea::from_slice(&v);
    assert_eq!(d.left, 0);
    assert_eq!(d.bottom_end_x, 11);
}
