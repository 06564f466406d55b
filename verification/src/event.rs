//! Events read from the display, as plain values, and what the window
//! manager makes of them.
use vstd::prelude::*;
use crate::types::WindowChanges;
use crate::xproto::{
    BUTTON_PRESS, BUTTON_RELEASE, CONFIGURE_REQUEST, DESTROY_NOTIFY, ENTER_NOTIFY, EXPOSE,
    KEY_PRESS, KEY_RELEASE, LEAVE_NOTIFY, MAP_REQUEST, MOTION_NOTIFY,
};

verus! {

/// The fields of an event as the display delivered it. `type_` tells which
/// of the others the event carries; the rest are zero.
#[derive(Clone, Copy, Debug, PartialEq, Eq)]
pub struct RawEvent {
    pub type_: i32,
    pub window: u64,
    pub subwindow: u64,
    pub x: i32,
    pub y: i32,
    pub width: i32,
    pub height: i32,
    pub border_width: i32,
    pub above: u64,
    pub detail: i32,
    pub value_mask: u64,
    pub x_root: i32,
    pub y_root: i32,
    pub state: u32,
    pub button: u32,
    pub keycode: u32,
}

/// The kinds of event that the window manager tells apart.
#[derive(Clone, Copy, Debug, PartialEq, Eq)]
pub enum EventType {
    ConfigurationRequest,
    MapRequest,
    ButtonPress,
    ButtonRelease,
    KeyPress,
    KeyRelease,
    MotionNotify,
    EnterNotify,
    LeaveNotify,
    Expose,
    DestroyWindow,
    UnknownEvent,
}

/// What an event carries, by kind.
#[derive(Clone, Copy, Debug, PartialEq, Eq)]
pub enum EventPayload {
    /// Window, requested changes, mask of the changes that count.
    ConfigurationRequest(u64, WindowChanges, u64),
    MapRequest(u64),
    /// Window, subwindow, button, root x, root y, modifier state.
    ButtonPress(u64, u64, u32, u32, u32, u32),
    ButtonRelease(u64, u64, u32, u32, u32, u32),
    /// Window, modifier state, key code.
    KeyPress(u64, u32, u32),
    KeyRelease(u64, u32, u32),
    /// Window, root x, root y, modifier state.
    MotionNotify(u64, i32, i32, u32),
    /// Window, subwindow.
    EnterNotify(u64, u64),
    LeaveNotify(u64),
    Expose(u64),
    DestroyWindow(u64),
}

/// An event as the window manager sees it.
#[derive(Clone, Copy, Debug, PartialEq, Eq)]
pub struct Event {
    pub event_type: EventType,
    pub payload: Option<EventPayload>,
}

impl Event {
    pub fn new(event_type: EventType, payload: Option<EventPayload>) -> (e: Event)
        ensures
            e == (Event { event_type, payload }),
    {
        Event { event_type, payload }
    }
}

/// The event that the window manager makes of `raw`.
pub open spec fn decoded(raw: RawEvent) -> Event {
    let t: i32 = raw.type_;
    if t == CONFIGURE_REQUEST {
        Event {
            event_type: EventType::ConfigurationRequest,
            payload: Some(
                EventPayload::ConfigurationRequest(
                    raw.window,
                    WindowChanges {
                        x: raw.x,
                        y: raw.y,
                        width: raw.width,
                        height: raw.height,
                        border_width: raw.border_width,
                        sibling: raw.above,
                        stack_mode: raw.detail,
                    },
                    raw.value_mask,
                ),
            ),
        }
    } else if t == MAP_REQUEST {
        Event { event_type: EventType::MapRequest, payload: Some(EventPayload::MapRequest(raw.window)) }
    } else if t == BUTTON_PRESS {
        Event {
            event_type: EventType::ButtonPress,
            payload: Some(
                EventPayload::ButtonPress(
                    raw.window,
                    raw.subwindow,
                    raw.button,
                    raw.x_root as u32,
                    raw.y_root as u32,
                    raw.state,
                ),
            ),
        }
    } else if t == BUTTON_RELEASE {
        Event {
            event_type: EventType::ButtonRelease,
            payload: Some(
                EventPayload::ButtonRelease(
                    raw.window,
                    raw.subwindow,
                    raw.button,
                    raw.x_root as u32,
                    raw.y_root as u32,
                    raw.state,
                ),
            ),
        }
    } else if t == KEY_PRESS {
        Event {
            event_type: EventType::KeyPress,
            payload: Some(EventPayload::KeyPress(raw.window, raw.state, raw.keycode)),
        }
    } else if t == KEY_RELEASE {
        Event {
            event_type: EventType::KeyRelease,
            payload: Some(EventPayload::KeyRelease(raw.window, raw.state, raw.keycode)),
        }
    } else if t == MOTION_NOTIFY {
        Event {
            event_type: EventType::MotionNotify,
            payload: Some(EventPayload::MotionNotify(raw.window, raw.x_root, raw.y_root, raw.state)),
        }
    } else if t == ENTER_NOTIFY {
        Event {
            event_type: EventType::EnterNotify,
            payload: Some(EventPayload::EnterNotify(raw.window, raw.subwindow)),
        }
    } else if t == LEAVE_NOTIFY {
        Event { event_type: EventType::LeaveNotify, payload: Some(EventPayload::LeaveNotify(raw.window)) }
    } else if t == EXPOSE {
        Event { event_type: EventType::Expose, payload: Some(EventPayload::Expose(raw.window)) }
    } else if t == DESTROY_NOTIFY {
        Event {
            event_type: EventType::DestroyWindow,
            payload: Some(EventPayload::DestroyWindow(raw.window)),
        }
    } else {
        Event { event_type: EventType::UnknownEvent, payload: None }
    }
}

/// The kind of event that each payload belongs to.
pub open spec fn payload_type(p: EventPayload) -> EventType {
    match p {
        EventPayload::ConfigurationRequest(..) => EventType::ConfigurationRequest,
        EventPayload::MapRequest(..) => EventType::MapRequest,
        EventPayload::ButtonPress(..) => EventType::ButtonPress,
        EventPayload::ButtonRelease(..) => EventType::ButtonRelease,
        EventPayload::KeyPress(..) => EventType::KeyPress,
        EventPayload::KeyRelease(..) => EventType::KeyRelease,
        EventPayload::MotionNotify(..) => EventType::MotionNotify,
        EventPayload::EnterNotify(..) => EventType::EnterNotify,
        EventPayload::LeaveNotify(..) => EventType::LeaveNotify,
        EventPayload::Expose(..) => EventType::Expose,
        EventPayload::DestroyWindow(..) => EventType::DestroyWindow,
    }
}

/// The event that `raw` is, its payload matching its type.
pub fn decode_event(raw: &RawEvent) -> (e: Event)
    ensures
        e == decoded(*raw),
{
    let t: i32 = raw.type_;
    if t == CONFIGURE_REQUEST {
        let window_changes = WindowChanges {
            x: raw.x,
            y: raw.y,
            width: raw.width,
            height: raw.height,
            border_width: raw.border_width,
            sibling: raw.above,
            stack_mode: raw.detail,
        };
        let payload = EventPayload::ConfigurationRequest(raw.window, window_changes, raw.value_mask);
        Event::new(EventType::ConfigurationRequest, Some(payload))
    } else if t == MAP_REQUEST {
        Event::new(EventType::MapRequest, Some(EventPayload::MapRequest(raw.window)))
    } else if t == BUTTON_PRESS {
        let payload = EventPayload::ButtonPress(
            raw.window,
            raw.subwindow,
            raw.button,
            raw.x_root as u32,
            raw.y_root as u32,
            raw.state,
        );
        Event::new(EventType::ButtonPress, Some(payload))
    } else if t == BUTTON_RELEASE {
        let payload = EventPayload::ButtonRelease(
            raw.window,
            raw.subwindow,
            raw.button,
            raw.x_root as u32,
            raw.y_root as u32,
            raw.state,
        );
        Event::new(EventType::ButtonRelease, Some(payload))
    } else if t == KEY_PRESS {
        Event::new(EventType::KeyPress, Some(EventPayload::KeyPress(raw.window, raw.state, raw.keycode)))
    } else if t == KEY_RELEASE {
        Event::new(
            EventType::KeyRelease,
            Some(EventPayload::KeyRelease(raw.window, raw.state, raw.keycode)),
        )
    } else if t == MOTION_NOTIFY {
        let payload = EventPayload::MotionNotify(raw.window, raw.x_root, raw.y_root, raw.state);
        Event::new(EventType::MotionNotify, Some(payload))
    } else if t == ENTER_NOTIFY {
        Event::new(EventType::EnterNotify, Some(EventPayload::EnterNotify(raw.window, raw.subwindow)))
    } else if t == LEAVE_NOTIFY {
        Event::new(EventType::LeaveNotify, Some(EventPayload::LeaveNotify(raw.window)))
    } else if t == EXPOSE {
        Event::new(EventType::Expose, Some(EventPayload::Expose(raw.window)))
    } else if t == DESTROY_NOTIFY {
        Event::new(EventType::DestroyWindow, Some(EventPayload::DestroyWindow(raw.window)))
    } else {
        Event::new(EventType::UnknownEvent, None)
    }
}

} // verus!
