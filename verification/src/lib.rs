//! The decisions of an X11 window manager's connection to the display, as a
//! verified library: which requests each operation sends, how replies are
//! read, and how raw events are classified. Performing the requests and
//! reading the replies is left to the caller.
pub mod xproto;
pub mod types;
pub mod request;
pub mod event;
pub mod util;
pub mod keys;
pub mod wrapper;
pub mod laws;
pub mod decision_laws;
