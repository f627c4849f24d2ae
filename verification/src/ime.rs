//! The session: one input context, the handlers, and the operations that the
//! window system and the protocol engine drive it with.

use vstd::prelude::*;
use crate::callbacks::{Callbacks, CommitHandler, ForwardHandler};
use crate::event::{event_window, event_window_of, key_event, response_type, response_type_of};
use crate::ic::{state_of, Ic, IcState};
use crate::model::{
    create_ack_requests, create_answered, event_step, open_ack_requests, open_answered,
    key_step, open_step, position_step, retarget_requests, retargeted, without_provisional,
};
use crate::request::{Outcome, Request, INPUT_STYLE};
use crate::text::{bytes_of, commit_bytes, commit_text, text_of, Encoding};

verus! {

/// An input method session. It holds at most one input context, which is
/// pointed at the window that last had a key event or a caret update.
pub struct Ime<C, F> {
    ic: Option<Ic>,
    callbacks: Callbacks<C, F>,
}

impl<C: CommitHandler, F: ForwardHandler> Ime<C, F> {
    /// The record of the input context, if there is one.
    pub closed spec fn record(&self) -> Option<Ic> {
        self.ic
    }

    /// The registered handlers.
    pub closed spec fn callbacks(&self) -> Callbacks<C, F> {
        self.callbacks
    }

    /// A session without an input context and without handlers.
    pub fn new() -> (ime: Self)
        ensures
            ime.record() is None,
            ime.callbacks().commit_string is None,
            ime.callbacks().forward_event is None,
    {
        Ime { ic: None, callbacks: Callbacks::new() }
    }

    /// The server acknowledged the open request. The engine is asked to create
    /// a context for the window on record: preedit at a spot, status in an
    /// area, the spot at the origin, the window as both client and focus
    /// window. Without a record there is nothing to create.
    pub fn open_callback(&self) -> (requests: Vec<Request>)
        ensures
            requests@ == open_ack_requests(self.record()),
    {
        let mut requests: Vec<Request> = Vec::new();
        match self.ic {
            Some(ic) => {
                requests.push(
                    Request::CreateIc {
                        input_style: INPUT_STYLE,
                        client_window: ic.win,
                        focus_window: ic.win,
                        spot_x: 0,
                        spot_y: 0,
                    },
                );
            },
            None => {},
        }
        requests
    }

    /// Points the context at `win`, then moves its preedit spot to (`x`, `y`).
    /// Without a created context nothing is sent and the update is not
    /// handled, which is no error: there is no preedit to place yet.
    pub fn update_pos(&mut self, win: u32, x: i16, y: i16) -> (out: Outcome)
        ensures
            final(self).record() == position_step(old(self).record(), win, x, y).record,
            out.follows(position_step(old(self).record(), win, x, y)),
            final(self).callbacks() == old(self).callbacks(),
    {
        let mut requests = self.set_ic_window(win);
        match self.ic {
            Some(ic) => {
                if ic.ic != 0 {
                    requests.push(Request::SetSpotLocation { ic: ic.ic, x, y });
                    Outcome { handled: true, requests }
                } else {
                    Outcome { handled: false, requests }
                }
            },
            None => Outcome { handled: false, requests },
        }
    }

    /// Decides what becomes of a window event. `filtered` is the engine's
    /// answer to the event: true where it took the event for itself. `event`
    /// is the event read as a key record; its window is looked at only where
    /// its response type says that it is a key event.
    ///
    /// An event that the engine took is handled and nothing more is done. An
    /// event that is no key event is not handled. A key event goes the way
    /// of [`Ime::process_key`].
    pub fn process_event(&mut self, filtered: bool, event: &xcb::KeyPressEvent) -> (out: Outcome)
        ensures
            final(self).record() == event_step(
                old(self).record(),
                filtered,
                response_type_of(*event),
                event_window_of(*event),
            ).record,
            out.follows(
                event_step(
                    old(self).record(),
                    filtered,
                    response_type_of(*event),
                    event_window_of(*event),
                ),
            ),
            final(self).callbacks() == old(self).callbacks(),
    {
        if filtered {
            return Outcome { handled: true, requests: Vec::new() };
        }
        if !key_event(response_type(event)) {
            return Outcome { handled: false, requests: Vec::new() };
        }
        self.process_key(event_window(event))
    }

    /// [`Ime::process_event`] on what is read from an event: its response
    /// type and, for a key event, its window.
    pub fn dispatch_event(&mut self, filtered: bool, response_type: u8, win: u32) -> (out: Outcome)
        ensures
            final(self).record() == event_step(
                old(self).record(),
                filtered,
                response_type,
                win,
            ).record,
            out.follows(event_step(old(self).record(), filtered, response_type, win)),
            final(self).callbacks() == old(self).callbacks(),
    {
        if filtered {
            return Outcome { handled: true, requests: Vec::new() };
        }
        if !key_event(response_type) {
            return Outcome { handled: false, requests: Vec::new() };
        }
        self.process_key(win)
    }

    /// A key event for `win` that the engine did not take for itself. The
    /// context is pointed at `win` first, so that the server never sees a key
    /// under another window than its own. The event is then forwarded to the
    /// server and handled if the context is created; it is left to the caller
    /// while the handshake is under way; and without a record it is left to
    /// the caller while the handshake starts for `win`.
    pub fn process_key(&mut self, win: u32) -> (out: Outcome)
        ensures
            final(self).record() == key_step(old(self).record(), win).record,
            out.follows(key_step(old(self).record(), win)),
            final(self).callbacks() == old(self).callbacks(),
    {
        let mut requests = self.set_ic_window(win);
        match self.ic {
            Some(ic) => {
                if ic.ic == 0 {
                    return Outcome { handled: false, requests };
                }
                requests.push(Request::ForwardEvent { ic: ic.ic });
                Outcome { handled: true, requests }
            },
            None => Outcome { handled: false, requests: self.try_open_ic(win) },
        }
    }

    /// The server committed text. It is decoded and handed, with the window
    /// on record, to the commit handler; the answer says whether it was.
    /// Without a handler, or without a record to take the window from, the
    /// text is dropped. What the handler is given is what
    /// [`Ime::committed`] returns.
    ///
    /// `input` is the text as the server sent it, without its terminator, and
    /// `transcoded` what the codec made of it (see [`commit_text`]).
    pub fn commit_string_callback(
        &mut self,
        encoding: Encoding,
        input: &[u8],
        transcoded: Option<&[u8]>,
    ) -> (delivered: bool)
        ensures
            delivered == (old(self).record() is Some && old(self).callbacks().commit_string
                is Some),
            final(self).record() == old(self).record(),
            (final(self).callbacks().commit_string is Some) == (old(
                self,
            ).callbacks().commit_string is Some),
            final(self).callbacks().forward_event == old(self).callbacks().forward_event,
            !delivered ==> final(self).callbacks() == old(self).callbacks(),
    {
        match self.committed(encoding, input, transcoded) {
            Some((win, text)) => self.callbacks.deliver_commit_string(win, text.as_str()),
            None => false,
        }
    }

    /// A commit as the commit handler is to see it: the window on record and
    /// the text that the server's bytes stand for. Without a record there is
    /// no window to name and so nothing to deliver.
    pub fn committed(
        &self,
        encoding: Encoding,
        input: &[u8],
        transcoded: Option<&[u8]>,
    ) -> (commit: Option<(u32, String)>)
        ensures
            (commit is Some) == (self.record() is Some),
            commit matches Some((win, text)) ==> {
                &&& win == self.record()->0.win
                &&& text@ == text_of(commit_bytes(encoding, input@, bytes_of(transcoded)))
            },
    {
        match self.ic {
            Some(ic) => Some((ic.win, commit_text(encoding, input, transcoded))),
            None => None,
        }
    }

    /// Starts the handshake for `win` unless a record exists: a provisional
    /// record is made and the engine is asked to open. The engine's answer
    /// goes to [`Ime::open_result`].
    pub fn try_open_ic(&mut self, win: u32) -> (requests: Vec<Request>)
        ensures
            final(self).record() == open_step(old(self).record(), win).record,
            requests@ == open_step(old(self).record(), win).requests,
            final(self).callbacks() == old(self).callbacks(),
    {
        let mut requests: Vec<Request> = Vec::new();
        if self.ic.is_none() {
            self.ic = Some(Ic { win, ic: 0 });
            requests.push(Request::Open);
        }
        requests
    }

    /// The engine answered the open request. Where it refused, the provisional
    /// record is discarded, so that the next key event starts afresh.
    pub fn open_result(&mut self, accepted: bool)
        ensures
            final(self).record() == open_answered(old(self).record(), accepted),
            final(self).callbacks() == old(self).callbacks(),
    {
        if !accepted {
            self.discard_provisional();
        }
    }

    /// The server answered the create request with the handle `new_ic`. A
    /// handle is stored in the record and the context is given the input
    /// focus. The handle 0 says that no context was made: the provisional
    /// record is discarded.
    pub fn create_ic_callback(&mut self, new_ic: u16) -> (requests: Vec<Request>)
        ensures
            final(self).record() == create_answered(old(self).record(), new_ic),
            requests@ == create_ack_requests(old(self).record(), new_ic),
            final(self).callbacks() == old(self).callbacks(),
    {
        let mut requests: Vec<Request> = Vec::new();
        if new_ic == 0 {
            self.discard_provisional();
            return requests;
        }
        match self.ic {
            Some(ic) => {
                self.ic = Some(Ic { win: ic.win, ic: new_ic });
                requests.push(Request::SetIcFocus { ic: new_ic });
            },
            None => {},
        }
        requests
    }

    /// The server gave a key event back. It goes to the forward handler as it
    /// is; the answer says whether there was one. The event stays the
    /// caller's.
    pub fn forward_event_callback(&mut self, event: &xcb::KeyPressEvent) -> (delivered: bool)
        ensures
            delivered == (old(self).callbacks().forward_event is Some),
            final(self).record() == old(self).record(),
            (final(self).callbacks().forward_event is Some) == delivered,
            final(self).callbacks().commit_string == old(self).callbacks().commit_string,
            !delivered ==> final(self).callbacks() == old(self).callbacks(),
    {
        self.callbacks.deliver_forward_event(event)
    }

    /// Discards a record that has no handle yet.
    fn discard_provisional(&mut self)
        ensures
            final(self).record() == without_provisional(old(self).record()),
            final(self).callbacks() == old(self).callbacks(),
    {
        match self.ic {
            Some(ic) => {
                if ic.ic == 0 {
                    self.ic = None;
                }
            },
            None => {},
        }
    }

    /// Points the context at `win`. The server is told only when a created
    /// context served another window; in every other case nothing happens.
    pub fn set_ic_window(&mut self, win: u32) -> (requests: Vec<Request>)
        ensures
            final(self).record() == retargeted(old(self).record(), win),
            requests@ == retarget_requests(old(self).record(), win),
            final(self).callbacks() == old(self).callbacks(),
    {
        let mut requests: Vec<Request> = Vec::new();
        match self.ic {
            Some(ic) => {
                if ic.ic != 0 && ic.win != win {
                    self.ic = Some(Ic { win, ic: ic.ic });
                    requests.push(Request::SetIcWindow { ic: ic.ic, window: win });
                }
            },
            None => {},
        }
        requests
    }

    /// Registers the handler for committed text in place of the one before.
    pub fn set_commit_string_cb(&mut self, f: C)
        ensures
            final(self).callbacks().commit_string == Some(f),
            final(self).callbacks().forward_event == old(self).callbacks().forward_event,
            final(self).record() == old(self).record(),
    {
        self.callbacks.set_commit_string(f);
    }

    /// Registers the handler for key events that the server gives back, in
    /// place of the one before.
    pub fn set_forward_event_cb(&mut self, f: F)
        ensures
            final(self).callbacks().forward_event == Some(f),
            final(self).callbacks().commit_string == old(self).callbacks().commit_string,
            final(self).record() == old(self).record(),
    {
        self.callbacks.set_forward_event(f);
    }

    /// The record of the input context, if there is one.
    pub fn ic(&self) -> (record: Option<Ic>)
        ensures
            record == self.record(),
    {
        self.ic
    }

    /// Where the session stands in the lifecycle of its input context.
    pub fn state(&self) -> (state: IcState)
        ensures
            state == state_of(self.record()),
    {
        match self.ic {
            None => IcState::NoContext,
            Some(ic) => if ic.ic == 0 {
                IcState::Opening
            } else {
                IcState::Created
            },
        }
    }
}

} // verus!
