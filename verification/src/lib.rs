//! Client-side session logic for the X Input Method protocol.
//!
//! A session ([`Ime`]) tracks one input context, decides for every window
//! event whether the input method takes it, and hands what the server sends
//! back to the application's handlers. It does not talk to the server itself:
//! every operation returns the [`Request`]s that the caller has to pass to the
//! protocol engine, in order, and the engine's answers come back through
//! [`Ime::open_result`], [`Ime::open_callback`], [`Ime::create_ic_callback`],
//! [`Ime::commit_string_callback`] and [`Ime::forward_event_callback`].
//!
//! The lifecycle of the context is a small state machine ([`model`]):
//! the first key event makes a provisional record and opens the connection;
//! the server's acknowledgement leads to a create request; the handle that
//! comes back makes the context usable, and from then on key events are
//! forwarded to the server. What holds of that machine whatever the events
//! are is proved in [`laws`].

pub mod callbacks;
pub mod event;
pub mod ic;
pub mod ime;
pub mod laws;
pub mod logger;
pub mod model;
pub mod request;
pub mod text;

pub use callbacks::{Callbacks, CommitHandler, ForwardHandler};
pub use event::{key_event, KEY_PRESS, KEY_RELEASE};
pub use ic::{Ic, IcState};
pub use ime::Ime;
pub use logger::{LogHandler, Logger};
pub use request::{Outcome, Request, INPUT_STYLE, PREEDIT_POSITION, STATUS_AREA};
pub use text::{commit_text, decode_text, Encoding};
