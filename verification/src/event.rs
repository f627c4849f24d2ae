//! Reading window events: which of them are key events, and for which window.

use vstd::prelude::*;

verus! {

/// The event code of a key press in the core X protocol.
pub const KEY_PRESS: u8 = 2;

/// The event code of a key release in the core X protocol.
pub const KEY_RELEASE: u8 = 3;

/// The event code that a response type carries: its low seven bits. The top
/// bit only tells that another client sent the event.
pub open spec fn event_code(response_type: u8) -> int {
    response_type as int % 128
}

/// The response type is that of a key press or a key release.
pub open spec fn is_key_event(response_type: u8) -> bool {
    event_code(response_type) == KEY_PRESS || event_code(response_type) == KEY_RELEASE
}

/// Whether a response type is that of a key press or a key release, sent by the
/// server or by another client.
pub fn key_event(response_type: u8) -> (b: bool)
    ensures
        b == is_key_event(response_type),
{
    let code: u8 = response_type & 0x7f;
    assert(code == response_type % 128) by (bit_vector)
        requires
            code == response_type & 0x7f,
    ;
    code == KEY_PRESS || code == KEY_RELEASE
}

/// `xcb::ffi::xcb_key_press_event_t`, the record of a key event as the
/// window system lays it out. Nothing is known of what it holds.
#[verifier::external_type_specification]
#[verifier::external_body]
pub struct ExKeyPressData(xcb::ffi::xcb_key_press_event_t);

/// `xcb::Event`, an event that owns its record. `xcb::KeyPressEvent` is this
/// type over the record of a key event. Nothing is known of what it holds but
/// through the two names below.
#[verifier::external_type_specification]
#[verifier::external_body]
#[verifier::reject_recursive_types(T)]
pub struct ExEvent<T>(xcb::Event<T>);

/// The response type that an event record holds.
pub uninterp spec fn response_type_of(event: xcb::KeyPressEvent) -> u8;

/// The window that a key event record names as the one the event is reported
/// to.
pub uninterp spec fn event_window_of(event: xcb::KeyPressEvent) -> u32;

/// `xcb::Event::response_type`, which reads the first byte of the record,
/// whatever the kind of the event. The contract gives the byte its name and
/// claims nothing of its value.
#[verifier::external_body]
pub(crate) fn response_type(event: &xcb::KeyPressEvent) -> (r: u8)
    ensures
        r == response_type_of(*event),
{
    event.response_type()
}

/// `xcb::KeyPressEvent::event`, which reads the `event` field of the record.
/// The contract gives the window its name and claims nothing of its value.
#[verifier::external_body]
pub(crate) fn event_window(event: &xcb::KeyPressEvent) -> (w: u32)
    ensures
        w == event_window_of(*event),
{
    event.event()
}

} // verus!
