//! The sink for what the protocol engine has to say about its own work.

use vstd::prelude::*;
use crate::text::decode_text;

verus! {

/// Receives the engine's diagnostic messages. The engine may log from any
/// thread, so a handler has to be `Send`.
pub trait LogHandler: Send {
    /// The engine said `message`.
    fn on_log(&mut self, message: &str);
}

/// The slot for the one log handler. It is meant to exist once per process,
/// behind a lock, and belongs to no session.
pub struct Logger<L> {
    /// The handler, if one was set.
    pub handler: Option<L>,
}

impl<L: LogHandler> Logger<L> {
    /// A sink without a handler: messages are dropped.
    pub fn new() -> (logger: Self)
        ensures
            logger.handler is None,
    {
        Logger { handler: None }
    }

    /// Puts `f` in place of the handler before.
    pub fn set_logger(&mut self, f: L)
        ensures
            final(self).handler == Some(f),
    {
        self.handler = Some(f);
    }

    /// Hands a message of the engine to the handler, if there is one, and says
    /// whether there was. The handler is given the message as
    /// [`decode_text`] reads it. Without a handler the message is dropped and
    /// nothing changes.
    pub fn emit(&mut self, message: &[u8]) -> (delivered: bool)
        ensures
            delivered == (old(self).handler is Some),
            (final(self).handler is Some) == delivered,
    {
        match &mut self.handler {
            Some(handler) => {
                let text = decode_text(message);
                handler.on_log(text.as_str());
                true
            },
            None => false,
        }
    }
}

} // verus!
