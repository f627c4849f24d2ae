//! The handlers an application registers for what the server sends back.

use vstd::prelude::*;

verus! {

/// Receives the text that the input method committed.
pub trait CommitHandler {
    /// `text` was committed for `window`.
    fn on_commit(&mut self, window: u32, text: &str);
}

/// Receives the key events that the server gave back unused.
pub trait ForwardHandler {
    /// The server did not want `event`: it is the application's to handle.
    fn on_forward(&mut self, event: &xcb::KeyPressEvent);
}

/// At most one handler of each kind. A slot is empty until a handler is set;
/// setting one puts it in place of the one before.
pub struct Callbacks<C, F> {
    /// The handler for committed text.
    pub commit_string: Option<C>,
    /// The handler for key events the server gave back.
    pub forward_event: Option<F>,
}

impl<C: CommitHandler, F: ForwardHandler> Callbacks<C, F> {
    /// A registry with both slots empty.
    pub fn new() -> (callbacks: Self)
        ensures
            callbacks.commit_string is None,
            callbacks.forward_event is None,
    {
        Callbacks { commit_string: None, forward_event: None }
    }

    /// Puts `handler` in the slot for committed text.
    pub fn set_commit_string(&mut self, handler: C)
        ensures
            final(self).commit_string == Some(handler),
            final(self).forward_event == old(self).forward_event,
    {
        self.commit_string = Some(handler);
    }

    /// Puts `handler` in the slot for key events the server gave back.
    pub fn set_forward_event(&mut self, handler: F)
        ensures
            final(self).forward_event == Some(handler),
            final(self).commit_string == old(self).commit_string,
    {
        self.forward_event = Some(handler);
    }

    /// Hands committed text to the handler, if there is one, and says whether
    /// there was. Without a handler the text is dropped and nothing changes.
    pub fn deliver_commit_string(&mut self, window: u32, text: &str) -> (delivered: bool)
        ensures
            delivered == (old(self).commit_string is Some),
            (final(self).commit_string is Some) == delivered,
            final(self).forward_event == old(self).forward_event,
    {
        match &mut self.commit_string {
            Some(handler) => {
                handler.on_commit(window, text);
                true
            },
            None => false,
        }
    }

    /// Hands a key event to the handler, if there is one, and says whether
    /// there was. Without a handler the event is dropped and nothing changes.
    pub fn deliver_forward_event(&mut self, event: &xcb::KeyPressEvent) -> (delivered: bool)
        ensures
            delivered == (old(self).forward_event is Some),
            (final(self).forward_event is Some) == delivered,
            final(self).commit_string == old(self).commit_string,
    {
        match &mut self.forward_event {
            Some(handler) => {
                handler.on_forward(event);
                true
            },
            None => false,
        }
    }
}

} // verus!
