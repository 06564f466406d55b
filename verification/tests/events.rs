use xlibwrapper::event::{decode_event, Event, EventPayload, EventType, RawEvent};
use xlibwrapper::types::WindowChanges;
use xlibwrapper::xproto;

fn raw(type_: i32) -> RawEvent {
    RawEvent {
        type_,
        window: 11,
        subwindow: 12,
        x: 1,
        y: 2,
        width: 3,
        height: 4,
        border_width: 5,
        above: 13,
        detail: 6,
        value_mask: 0xff,
        x_root: -7,
        y_root: 8,
        state: 0x40,
        button: 3,
        keycode: 38,
    }
}

#[test]
fn configure_request_carries_the_changes() {
    let e = decode_event(&raw(xproto::CONFIGURE_REQUEST));
    let changes = WindowChanges { x: 1, y: 2, width: 3, height: 4, border_width: 5, sibling: 13, stack_mode: 6 };
    assert_eq!(
        e,
        Event {
            event_type: EventType::ConfigurationRequest,
            payload: Some(EventPayload::ConfigurationRequest(11, changes, 0xff))
        }
    );
}

#[test]
fn button_events_take_root_coordinates_as_unsigned() {
    let e = decode_event(&raw(xproto::BUTTON_PRESS));
    assert_eq!(e.event_type, EventType::ButtonPress);
    assert_eq!(e.payload, Some(EventPayload::ButtonPress(11, 12, 3, (-7i32) as u32, 8, 0x40)));
    let e = decode_event(&raw(xproto::BUTTON_RELEASE));
    assert_eq!(e.payload, Some(EventPayload::ButtonRelease(11, 12, 3, 4294967289, 8, 0x40)));
}

#[test]
fn key_motion_and_crossing_events() {
    assert_eq!(decode_event(&raw(xproto::KEY_PRESS)).payload, Some(EventPayload::KeyPress(11, 0x40, 38)));
    assert_eq!(decode_event(&raw(xproto::KEY_RELEASE)).payload, Some(EventPayload::KeyRelease(11, 0x40, 38)));
    assert_eq!(
        decode_event(&raw(xproto::MOTION_NOTIFY)),
        Event { event_type: EventType::MotionNotify, payload: Some(EventPayload::MotionNotify(11, -7, 8, 0x40)) }
    );
    assert_eq!(decode_event(&raw(xproto::ENTER_NOTIFY)).payload, Some(EventPayload::EnterNotify(11, 12)));
    assert_eq!(decode_event(&raw(xproto::LEAVE_NOTIFY)).payload, Some(EventPayload::LeaveNotify(11)));
}

#[test]
fn window_events() {
    assert_eq!(
        decode_event(&raw(xproto::MAP_REQUEST)),
        Event { event_type: EventType::MapRequest, payload: Some(EventPayload::MapRequest(11)) }
    );
    assert_eq!(
        decode_event(&raw(xproto::EXPOSE)),
        Event { event_type: EventType::Expose, payload: Some(EventPayload::Expose(11)) }
    );
    assert_eq!(
        decode_event(&raw(xproto::DESTROY_NOTIFY)),
        Event { event_type: EventType::DestroyWindow, payload: Some(EventPayload::DestroyWindow(11)) }
    );
}

#[test]
fn other_events_are_unknown() {
    for t in [xproto::PROPERTY_NOTIFY, xproto::CLIENT_MESSAGE, 0, 99, -1] {
        assert_eq!(decode_event(&raw(t)), Event { event_type: EventType::UnknownEvent, payload: None });
    }
}

#[test]
fn event_new_keeps_its_parts() {
    let e = Event::new(EventType::Expose, Some(EventPayload::Expose(3)));
    assert_eq!(e.event_type, EventType::Expose);
    assert_eq!(e.payload, Some(EventPayload::Expose(3)));
}
