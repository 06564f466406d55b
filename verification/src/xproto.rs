//! Numeric values of the X11 protocol that the window manager uses.
use vstd::prelude::*;

verus! {

/// Error code of a request naming a window that does not exist.
pub const BAD_WINDOW: u8 = 3;
/// Error code of a request that another client already holds the right to.
pub const BAD_ACCESS: u8 = 10;
/// Status of a property read that succeeded.
pub const SUCCESS: i32 = 0;
/// The protocol's false.
pub const X_FALSE: i32 = 0;
/// The protocol's true.
pub const X_TRUE: i32 = 1;
/// The time stamp that stands for "now".
pub const CURRENT_TIME: u64 = 0;

/// Predefined atom for the type ATOM.
pub const XA_ATOM: u64 = 4;
/// Predefined atom for the type CARDINAL.
pub const XA_CARDINAL: u64 = 6;
/// Predefined atom for the type WINDOW.
pub const XA_WINDOW: u64 = 33;

pub const KEY_PRESS: i32 = 2;
pub const KEY_RELEASE: i32 = 3;
pub const BUTTON_PRESS: i32 = 4;
pub const BUTTON_RELEASE: i32 = 5;
pub const MOTION_NOTIFY: i32 = 6;
pub const ENTER_NOTIFY: i32 = 7;
pub const LEAVE_NOTIFY: i32 = 8;
pub const EXPOSE: i32 = 12;
pub const DESTROY_NOTIFY: i32 = 17;
pub const MAP_REQUEST: i32 = 20;
pub const CONFIGURE_REQUEST: i32 = 23;
pub const PROPERTY_NOTIFY: i32 = 28;
pub const CLIENT_MESSAGE: i32 = 33;

pub const NO_EVENT_MASK: i64 = 0;
pub const KEY_PRESS_MASK: i64 = 0x0000_0001;
pub const ENTER_WINDOW_MASK: i64 = 0x0000_0010;
pub const LEAVE_WINDOW_MASK: i64 = 0x0000_0020;
pub const POINTER_MOTION_MASK: i64 = 0x0000_0040;
pub const STRUCTURE_NOTIFY_MASK: i64 = 0x0002_0000;
pub const SUBSTRUCTURE_NOTIFY_MASK: i64 = 0x0008_0000;
pub const SUBSTRUCTURE_REDIRECT_MASK: i64 = 0x0010_0000;
pub const PROPERTY_CHANGE_MASK: i64 = 0x0040_0000;

pub const PROP_MODE_REPLACE: i32 = 0;
pub const PROP_MODE_PREPEND: i32 = 1;
pub const PROP_MODE_APPEND: i32 = 2;

pub const SHIFT_MASK: u32 = 0x01;
pub const LOCK_MASK: u32 = 0x02;
pub const MOD2_MASK: u32 = 0x10;
pub const MOD4_MASK: u32 = 0x40;
pub const ANY_MODIFIER: u32 = 0x8000;

pub const ANY_KEY: i32 = 0;
pub const ANY_BUTTON: i32 = 0;
pub const GRAB_MODE_ASYNC: i32 = 1;
pub const REVERT_TO_POINTER_ROOT: i32 = 1;
pub const DESTROY_ALL: i32 = 0;

pub const CW_EVENT_MASK: u64 = 0x0800;
pub const CW_CURSOR: u64 = 0x4000;

/// Encoding style that turns a list of strings into a UTF8_STRING property.
pub const XUTF8_STRING_STYLE: i32 = 4;

/// The events the window manager listens to on the root window.
pub const ROOT_EVENT_MASK: i64 = SUBSTRUCTURE_REDIRECT_MASK | SUBSTRUCTURE_NOTIFY_MASK
    | KEY_PRESS_MASK | POINTER_MOTION_MASK | ENTER_WINDOW_MASK | LEAVE_WINDOW_MASK
    | STRUCTURE_NOTIFY_MASK | PROPERTY_CHANGE_MASK;

} // verus!
