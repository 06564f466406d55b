use x11_dl::xlib;
use xlibwrapper::xproto;

#[test]
fn error_codes_match_xlib() {
    assert_eq!(xproto::BAD_WINDOW, xlib::BadWindow);
    assert_eq!(xproto::BAD_ACCESS, xlib::BadAccess);
    assert_eq!(xproto::SUCCESS, i32::from(xlib::Success));
    assert_eq!(xproto::X_FALSE, xlib::False);
    assert_eq!(xproto::X_TRUE, xlib::True);
    assert_eq!(xproto::CURRENT_TIME, xlib::CurrentTime);
}

#[test]
fn atoms_match_xlib() {
    assert_eq!(xproto::XA_ATOM, xlib::XA_ATOM);
    assert_eq!(xproto::XA_CARDINAL, xlib::XA_CARDINAL);
    assert_eq!(xproto::XA_WINDOW, xlib::XA_WINDOW);
}

#[test]
fn event_types_match_xlib() {
    assert_eq!(xproto::KEY_PRESS, xlib::KeyPress);
    assert_eq!(xproto::KEY_RELEASE, xlib::KeyRelease);
    assert_eq!(xproto::BUTTON_PRESS, xlib::ButtonPress);
    assert_eq!(xproto::BUTTON_RELEASE, xlib::ButtonRelease);
    assert_eq!(xproto::MOTION_NOTIFY, xlib::MotionNotify);
    assert_eq!(xproto::ENTER_NOTIFY, xlib::EnterNotify);
    assert_eq!(xproto::LEAVE_NOTIFY, xlib::LeaveNotify);
    assert_eq!(xproto::EXPOSE, xlib::Expose);
    assert_eq!(xproto::DESTROY_NOTIFY, xlib::DestroyNotify);
    assert_eq!(xproto::MAP_REQUEST, xlib::MapRequest);
    assert_eq!(xproto::CONFIGURE_REQUEST, xlib::ConfigureRequest);
    assert_eq!(xproto::PROPERTY_NOTIFY, xlib::PropertyNotify);
    assert_eq!(xproto::CLIENT_MESSAGE, xlib::ClientMessage);
}

#[test]
fn masks_match_xlib() {
    assert_eq!(xproto::NO_EVENT_MASK, xlib::NoEventMask);
    assert_eq!(xproto::KEY_PRESS_MASK, xlib::KeyPressMask);
    assert_eq!(xproto::ENTER_WINDOW_MASK, xlib::EnterWindowMask);
    assert_eq!(xproto::LEAVE_WINDOW_MASK, xlib::LeaveWindowMask);
    assert_eq!(xproto::POINTER_MOTION_MASK, xlib::PointerMotionMask);
    assert_eq!(xproto::STRUCTURE_NOTIFY_MASK, xlib::StructureNotifyMask);
    assert_eq!(xproto::SUBSTRUCTURE_NOTIFY_MASK, xlib::SubstructureNotifyMask);
    assert_eq!(xproto::SUBSTRUCTURE_REDIRECT_MASK, xlib::SubstructureRedirectMask);
    assert_eq!(xproto::PROPERTY_CHANGE_MASK, xlib::PropertyChangeMask);
    assert_eq!(xproto::SHIFT_MASK, xlib::ShiftMask);
    assert_eq!(xproto::LOCK_MASK, xlib::LockMask);
    assert_eq!(xproto::MOD2_MASK, xlib::Mod2Mask);
    assert_eq!(xproto::MOD4_MASK, xlib::Mod4Mask);
    assert_eq!(xproto::ANY_MODIFIER, xlib::AnyModifier);
    assert_eq!(xproto::CW_EVENT_MASK, xlib::CWEventMask);
    assert_eq!(xproto::CW_CURSOR, xlib::CWCursor);
}

#[test]
fn modes_match_xlib() {
    assert_eq!(xproto::PROP_MODE_REPLACE, xlib::PropModeReplace);
    assert_eq!(xproto::PROP_MODE_PREPEND, xlib::PropModePrepend);
    assert_eq!(xproto::PROP_MODE_APPEND, xlib::PropModeAppend);
    assert_eq!(xproto::ANY_KEY, xlib::AnyKey);
    assert_eq!(xproto::ANY_BUTTON, xlib::AnyButton);
    assert_eq!(xproto::GRAB_MODE_ASYNC, xlib::GrabModeAsync);
    assert_eq!(xproto::REVERT_TO_POINTER_ROOT, xlib::RevertToPointerRoot);
    assert_eq!(xproto::DESTROY_ALL, xlib::DestroyAll);
    assert_eq!(xproto::XUTF8_STRING_STYLE, xlib::XUTF8StringStyle);
}

#[test]
fn root_event_mask_is_the_union() {
    let expected = xlib::SubstructureRedirectMask
        | xlib::SubstructureNotifyMask
        | xlib::KeyPressMask
        | xlib::PointerMotionMask
        | xlib::EnterWindowMask
        | xlib::LeaveWindowMask
        | xlib::StructureNotifyMask
        | xlib::PropertyChangeMask;
    assert_eq!(xproto::ROOT_EVENT_MASK, expected);
    assert_eq!(xproto::ROOT_EVENT_MASK, 0x005A_0071);
}
