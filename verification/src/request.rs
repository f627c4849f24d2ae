//! What a session asks of the protocol engine.

use vstd::prelude::*;

verus! {

/// Input style bit: the preedit text is drawn at a spot the client names.
pub const PREEDIT_POSITION: u32 = 0x0004;

/// Input style bit: the status is drawn in an area the client names.
pub const STATUS_AREA: u32 = 0x0100;

/// The input style every context is created with: preedit at a spot, status
/// in an area.
pub const INPUT_STYLE: u32 = PREEDIT_POSITION | STATUS_AREA;

/// One call into the protocol engine. The caller performs the requests of an
/// [`Outcome`] in the order given.
#[derive(Clone, Copy, Debug, PartialEq, Eq, Structural)]
pub enum Request {
    /// Open the connection to the input method server. The answer goes to
    /// `Ime::open_result`, the server's acknowledgement to
    /// `Ime::open_callback`.
    Open,
    /// Create an input context with these attributes. The server's answer goes
    /// to `Ime::create_ic_callback`.
    CreateIc {
        input_style: u32,
        client_window: u32,
        focus_window: u32,
        spot_x: i16,
        spot_y: i16,
    },
    /// Give the input focus to the context.
    SetIcFocus { ic: u16 },
    /// Make `window` the client and focus window of the context.
    SetIcWindow { ic: u16, window: u32 },
    /// Move the preedit spot of the context.
    SetSpotLocation { ic: u16, x: i16, y: i16 },
    /// Hand the event being processed to the server under the context.
    ForwardEvent { ic: u16 },
}

/// What came of an event or a position update.
#[derive(Debug)]
pub struct Outcome {
    /// The input method took the event: the caller must not handle it again.
    pub handled: bool,
    /// The engine calls to make, in order.
    pub requests: Vec<Request>,
}

} // verus!
