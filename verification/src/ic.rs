//! The input context record and the lifecycle state it encodes.

use vstd::prelude::*;

verus! {

/// The one input context of a session: the window it serves and the handle the
/// server gave for it. The handle is 0 until the server has created the
/// context.
#[derive(Clone, Copy, Debug, PartialEq, Eq, Structural)]
pub struct Ic {
    /// The window whose key events go to the context.
    pub win: u32,
    /// The server's handle; 0 while the context is not yet created.
    pub ic: u16,
}

/// Where a session stands in the lifecycle of its input context.
#[derive(Clone, Copy, Debug, PartialEq, Eq, Structural)]
pub enum IcState {
    /// No record: nothing was asked of the server, or the attempt failed.
    NoContext,
    /// A record without a handle: the handshake is under way.
    Opening,
    /// A record with a handle: key events are forwarded to the server.
    Created,
}

/// The lifecycle state that a record, or its absence, stands for.
pub open spec fn state_of(record: Option<Ic>) -> IcState {
    match record {
        None => IcState::NoContext,
        Some(ic) => if ic.ic == 0 {
            IcState::Opening
        } else {
            IcState::Created
        },
    }
}

} // verus!
