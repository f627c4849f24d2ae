//! The session as a state machine over its record: what each operation makes
//! of the record and which requests it sends.

use vstd::prelude::*;
use crate::event::is_key_event;
use crate::ic::Ic;
use crate::request::{Outcome, Request, INPUT_STYLE};

verus! {

/// A transition: the record afterwards, the answer to the caller and the
/// requests for the engine.
pub struct Step {
    pub record: Option<Ic>,
    pub handled: bool,
    pub requests: Seq<Request>,
}

impl Outcome {
    /// The outcome is the one that the transition prescribes.
    pub open spec fn follows(&self, step: Step) -> bool {
        &&& self.handled == step.handled
        &&& self.requests@ == step.requests
    }
}

/// A transition that changes nothing and sends nothing.
pub open spec fn stay(record: Option<Ic>, handled: bool) -> Step {
    Step { record, handled, requests: Seq::empty() }
}

/// The record after the context is pointed at `win`. Only a created context
/// can be pointed elsewhere.
pub open spec fn retargeted(record: Option<Ic>, win: u32) -> Option<Ic> {
    match record {
        Some(ic) => if ic.ic != 0 {
            Some(Ic { win, ic: ic.ic })
        } else {
            record
        },
        None => None,
    }
}

/// What the server is told when the context is pointed at `win`: the new
/// window, if the context is created and served another window so far.
pub open spec fn retarget_requests(record: Option<Ic>, win: u32) -> Seq<Request> {
    match record {
        Some(ic) => if ic.ic != 0 && ic.win != win {
            seq![Request::SetIcWindow { ic: ic.ic, window: win }]
        } else {
            Seq::empty()
        },
        None => Seq::empty(),
    }
}

/// The first step of the handshake: without a record, a provisional one for
/// `win` is made and the engine is asked to open. With a record, nothing.
pub open spec fn open_step(record: Option<Ic>, win: u32) -> Step {
    match record {
        Some(_) => stay(record, false),
        None => Step {
            record: Some(Ic { win, ic: 0 }),
            handled: false,
            requests: seq![Request::Open],
        },
    }
}

/// A key event for `win` that the engine did not take for itself.
pub open spec fn key_step(record: Option<Ic>, win: u32) -> Step {
    match record {
        None => open_step(record, win),
        Some(ic) => if ic.ic == 0 {
            stay(record, false)
        } else {
            Step {
                record: retargeted(record, win),
                handled: true,
                requests: retarget_requests(record, win).push(
                    Request::ForwardEvent { ic: ic.ic },
                ),
            }
        },
    }
}

/// Any window event: `filtered` is the engine's word that it took the event for
/// itself, `response_type` and `win` are read from the event.
pub open spec fn event_step(
    record: Option<Ic>,
    filtered: bool,
    response_type: u8,
    win: u32,
) -> Step {
    if filtered {
        stay(record, true)
    } else if is_key_event(response_type) {
        key_step(record, win)
    } else {
        stay(record, false)
    }
}

/// The caret moved to (`x`, `y`) in `win`.
pub open spec fn position_step(record: Option<Ic>, win: u32, x: i16, y: i16) -> Step {
    match record {
        Some(ic) => if ic.ic != 0 {
            Step {
                record: retargeted(record, win),
                handled: true,
                requests: retarget_requests(record, win).push(
                    Request::SetSpotLocation { ic: ic.ic, x, y },
                ),
            }
        } else {
            stay(record, false)
        },
        None => stay(record, false),
    }
}

/// The record after the engine answered the open request. A refusal ends the
/// attempt; a created context is not given up.
pub open spec fn open_answered(record: Option<Ic>, accepted: bool) -> Option<Ic> {
    if accepted {
        record
    } else {
        without_provisional(record)
    }
}

/// The record with a provisional one, if any, discarded.
pub open spec fn without_provisional(record: Option<Ic>) -> Option<Ic> {
    match record {
        Some(ic) => if ic.ic == 0 {
            None
        } else {
            record
        },
        None => None,
    }
}

/// The server acknowledged the open request: it is asked for a context for the
/// window on record, with the preedit spot at the origin.
pub open spec fn open_ack_requests(record: Option<Ic>) -> Seq<Request> {
    match record {
        Some(ic) => seq![
            Request::CreateIc {
                input_style: INPUT_STYLE,
                client_window: ic.win,
                focus_window: ic.win,
                spot_x: 0,
                spot_y: 0,
            },
        ],
        None => Seq::empty(),
    }
}

/// The record after the server answered the create request with `new_ic`. The
/// handle 0 says that it made no context: that ends the attempt.
pub open spec fn create_answered(record: Option<Ic>, new_ic: u16) -> Option<Ic> {
    match record {
        Some(ic) => if new_ic != 0 {
            Some(Ic { win: ic.win, ic: new_ic })
        } else {
            without_provisional(record)
        },
        None => None,
    }
}

/// What the engine is asked once the server answered the create request: the
/// input focus for the new context, if there is one and a record to hold it.
pub open spec fn create_ack_requests(record: Option<Ic>, new_ic: u16) -> Seq<Request> {
    if record is Some && new_ic != 0 {
        seq![Request::SetIcFocus { ic: new_ic }]
    } else {
        Seq::empty()
    }
}

} // verus!
