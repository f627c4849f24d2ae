//! What holds of the session's state machine whatever the events are.

use vstd::prelude::*;
use crate::event::is_key_event;
use crate::ic::{state_of, Ic, IcState};
use crate::model::{
    create_answered, event_step, open_answered, position_step, retarget_requests, retargeted,
    stay, Step,
};
use crate::request::Request;
use crate::text::{commit_bytes, text_of, Encoding};
use vstd::utf8::{decode_utf8, decode_utf8_encode_utf8, encode_utf8, valid_utf8};

verus! {

/// Anything that can happen to a session's record.
pub enum Input {
    /// A window event, with the engine's word on it.
    Event { filtered: bool, response_type: u8, win: u32 },
    /// A caret update.
    Position { win: u32, x: i16, y: i16 },
    /// The engine's answer to an open request.
    OpenResult { accepted: bool },
    /// The server's acknowledgement of an open request.
    OpenAck,
    /// The server's answer to a create request.
    CreateAck { new_ic: u16 },
}

/// The record after one input.
pub open spec fn after(record: Option<Ic>, input: Input) -> Option<Ic> {
    match input {
        Input::Event { filtered, response_type, win } => event_step(
            record,
            filtered,
            response_type,
            win,
        ).record,
        Input::Position { win, x, y } => position_step(record, win, x, y).record,
        Input::OpenResult { accepted } => open_answered(record, accepted),
        Input::OpenAck => record,
        Input::CreateAck { new_ic } => create_answered(record, new_ic),
    }
}

/// The record after a run of inputs.
pub open spec fn after_all(record: Option<Ic>, inputs: Seq<Input>) -> Option<Ic>
    decreases inputs.len(),
{
    if inputs.len() == 0 {
        record
    } else {
        after_all(after(record, inputs[0]), inputs.drop_first())
    }
}

/// The input is a key event that the engine did not take for itself.
pub open spec fn unfiltered_key(input: Input) -> bool {
    input matches Input::Event { filtered, response_type, .. } && !filtered && is_key_event(
        response_type,
    )
}

/// The input is an answer of the engine or of the server.
pub open spec fn answer(input: Input) -> bool {
    input is OpenResult || input is OpenAck || input is CreateAck
}

/// One of the requests forwards an event to the server.
pub open spec fn forwards(requests: Seq<Request>) -> bool {
    exists|i: int| 0 <= i < requests.len() && #[trigger] requests[i] is ForwardEvent
}

/// Without a record, the first key event for a window starts the handshake
/// for it and is left to the caller.
pub proof fn lemma_first_key_opens(response_type: u8, win: u32)
    requires
        is_key_event(response_type),
    ensures
        event_step(None, false, response_type, win) == (Step {
            record: Some(Ic { win, ic: 0 }),
            handled: false,
            requests: seq![Request::Open],
        }),
{
}

/// As long as neither the engine nor the server answers, a handshake that is
/// under way stays so: events and caret updates, whatever they are, leave the
/// provisional record as it is, and a key event that comes after them is left
/// to the caller with nothing sent.
pub proof fn lemma_opening_waits_for_answer(
    ic: Ic,
    inputs: Seq<Input>,
    response_type: u8,
    win: u32,
)
    requires
        ic.ic == 0,
        forall|i: int| 0 <= i < inputs.len() ==> !answer(#[trigger] inputs[i]),
        is_key_event(response_type),
    ensures
        after_all(Some(ic), inputs) == Some(ic),
        event_step(after_all(Some(ic), inputs), false, response_type, win) == stay(
            Some(ic),
            false,
        ),
    decreases inputs.len(),
{
    if inputs.len() > 0 {
        assert(!answer(inputs[0]));
        assert(after(Some(ic), inputs[0]) == Some(ic));
        let rest = inputs.drop_first();
        assert forall|i: int| 0 <= i < rest.len() implies !answer(#[trigger] rest[i]) by {
            assert(rest[i] == inputs[i + 1]);
        }
        lemma_opening_waits_for_answer(ic, rest, response_type, win);
    }
}

/// Key events for a window before the server has answered: the first of them
/// starts the handshake for the window, and each one after it, however many
/// there are, is left to the caller, sends nothing and changes nothing.
pub proof fn lemma_keys_wait_for_server(keys: Seq<Input>, win: u32, response_type: u8)
    requires
        keys.len() > 0,
        forall|i: int|
            0 <= i < keys.len() ==> unfiltered_key(#[trigger] keys[i]) && keys[i]->Event_win
                == win,
        is_key_event(response_type),
    ensures
        after_all(None, keys) == Some(Ic { win, ic: 0 }),
        event_step(after_all(None, keys), false, response_type, win) == stay(
            Some(Ic { win, ic: 0 }),
            false,
        ),
{
    let first = Ic { win, ic: 0 };
    assert(unfiltered_key(keys[0]));
    assert(after(None, keys[0]) == Some(first));
    let rest = keys.drop_first();
    assert forall|i: int| 0 <= i < rest.len() implies !answer(#[trigger] rest[i]) by {
        assert(rest[i] == keys[i + 1]);
        assert(unfiltered_key(keys[i + 1]));
    }
    lemma_opening_waits_for_answer(first, rest, response_type, win);
}

/// Once the context is created, a key event for its window is always handled:
/// taken by the engine, or forwarded to the server under the context's
/// handle, and the record stays as it is.
pub proof fn lemma_created_takes_keys(ic: Ic, filtered: bool, response_type: u8)
    requires
        ic.ic != 0,
        is_key_event(response_type),
    ensures
        event_step(Some(ic), true, response_type, ic.win) == stay(Some(ic), true),
        event_step(Some(ic), false, response_type, ic.win) == (Step {
            record: Some(ic),
            handled: true,
            requests: seq![Request::ForwardEvent { ic: ic.ic }],
        }),
        event_step(Some(ic), filtered, response_type, ic.win).handled,
{
    assert(retarget_requests(Some(ic), ic.win) =~= Seq::<Request>::empty());
    assert(retarget_requests(Some(ic), ic.win).push(Request::ForwardEvent { ic: ic.ic })
        =~= seq![Request::ForwardEvent { ic: ic.ic }]);
}

/// No event goes both ways: one that is forwarded to the server is handled,
/// so the caller never handles it as well, and one that is left to the caller
/// is not forwarded.
pub proof fn lemma_forwarded_is_handled(
    record: Option<Ic>,
    filtered: bool,
    response_type: u8,
    win: u32,
)
    ensures
        forwards(event_step(record, filtered, response_type, win).requests) ==> event_step(
            record,
            filtered,
            response_type,
            win,
        ).handled,
{
}

/// Pointing a created context at another window takes effect once: the record
/// then names the new window and the server is told so; pointing it there
/// again changes nothing and sends nothing.
pub proof fn lemma_retarget_once(ic: Ic, win: u32)
    requires
        ic.ic != 0,
        win != ic.win,
    ensures
        retargeted(Some(ic), win) == Some(Ic { win, ic: ic.ic }),
        retarget_requests(Some(ic), win) == seq![Request::SetIcWindow { ic: ic.ic, window: win }],
        retargeted(retargeted(Some(ic), win), win) == retargeted(Some(ic), win),
        retarget_requests(retargeted(Some(ic), win), win) == Seq::<Request>::empty(),
{
}

/// A caret update and a key event both point a created context at their
/// window, before anything else is sent; when they come again for the same
/// window, the record stays and the server is not told again.
pub proof fn lemma_operations_retarget(ic: Ic, win: u32, x: i16, y: i16, response_type: u8)
    requires
        ic.ic != 0,
        is_key_event(response_type),
    ensures
        position_step(Some(ic), win, x, y).record == retargeted(Some(ic), win),
        position_step(Some(ic), win, x, y).requests == retarget_requests(Some(ic), win).push(
            Request::SetSpotLocation { ic: ic.ic, x, y },
        ),
        position_step(retargeted(Some(ic), win), win, x, y) == (Step {
            record: retargeted(Some(ic), win),
            handled: true,
            requests: seq![Request::SetSpotLocation { ic: ic.ic, x, y }],
        }),
        event_step(Some(ic), false, response_type, win).record == retargeted(Some(ic), win),
        event_step(Some(ic), false, response_type, win).requests == retarget_requests(
            Some(ic),
            win,
        ).push(Request::ForwardEvent { ic: ic.ic }),
        event_step(retargeted(Some(ic), win), false, response_type, win) == (Step {
            record: retargeted(Some(ic), win),
            handled: true,
            requests: seq![Request::ForwardEvent { ic: ic.ic }],
        }),
{
    let after = retargeted(Some(ic), win);
    assert(retarget_requests(after, win) =~= Seq::<Request>::empty());
    assert(retarget_requests(after, win).push(Request::SetSpotLocation { ic: ic.ic, x, y })
        =~= seq![Request::SetSpotLocation { ic: ic.ic, x, y }]);
    assert(retarget_requests(after, win).push(Request::ForwardEvent { ic: ic.ic })
        =~= seq![Request::ForwardEvent { ic: ic.ic }]);
}

/// The handle of a record changes only when the server answers a create
/// request: events, caret updates and the answer to an open request leave it
/// as it is wherever they leave a record.
pub proof fn lemma_handle_is_the_servers(
    ic: Ic,
    filtered: bool,
    response_type: u8,
    win: u32,
    x: i16,
    y: i16,
    accepted: bool,
)
    ensures
        event_step(Some(ic), filtered, response_type, win).record matches Some(after)
            && after.ic == ic.ic,
        position_step(Some(ic), win, x, y).record matches Some(after) && after.ic == ic.ic,
        open_answered(Some(ic), accepted) matches Some(after) ==> after.ic == ic.ic,
{
}

/// Once created, a context is there for good: whatever happens to the session
/// afterwards, and in whatever order, it has a created context.
pub proof fn lemma_created_for_good(ic: Ic, inputs: Seq<Input>)
    requires
        ic.ic != 0,
    ensures
        state_of(after_all(Some(ic), inputs)) == IcState::Created,
    decreases inputs.len(),
{
    if inputs.len() > 0 {
        let next = after(Some(ic), inputs[0]);
        assert(next is Some && next->0.ic != 0);
        lemma_created_for_good(next->0, inputs.drop_first());
    }
}

/// A record goes away in one way only: a provisional one, when the engine
/// refuses to open or the server makes no context.
pub proof fn lemma_only_failure_ends_an_attempt(ic: Ic, input: Input)
    requires
        after(Some(ic), input) is None,
    ensures
        ic.ic == 0,
        input == (Input::OpenResult { accepted: false }) || input == (Input::CreateAck {
            new_ic: 0,
        }),
{
}

/// A record comes about in one way only: by a key event that the engine did
/// not take for itself. Other events, caret updates and answers of the engine
/// leave a session without a record as it is.
pub proof fn lemma_only_keys_start_the_handshake(
    filtered: bool,
    response_type: u8,
    win: u32,
    x: i16,
    y: i16,
    accepted: bool,
    new_ic: u16,
)
    ensures
        event_step(None, filtered, response_type, win).record is Some <==> !filtered
            && is_key_event(response_type),
        position_step(None, win, x, y) == stay(None, false),
        open_answered(None, accepted) is None,
        create_answered(None, new_ic) is None,
{
}

/// The server sees a key only under the window it belongs to: whenever a key
/// event is forwarded, the record names the window of the event, and the
/// server was told of a new window before the event went out.
pub proof fn lemma_forward_follows_retarget(record: Option<Ic>, response_type: u8, win: u32)
    requires
        forwards(event_step(record, false, response_type, win).requests),
    ensures
        record matches Some(ic) && ic.ic != 0 && ({
            let step = event_step(record, false, response_type, win);
            &&& step.record == Some(Ic { win, ic: ic.ic })
            &&& step.requests == retarget_requests(record, win).push(
                Request::ForwardEvent { ic: ic.ic },
            )
            &&& step.requests.last() == (Request::ForwardEvent { ic: ic.ic })
            &&& win != ic.win ==> step.requests.first() == (Request::SetIcWindow {
                ic: ic.ic,
                window: win,
            })
        }),
{
    let step = event_step(record, false, response_type, win);
    let i = choose|i: int| 0 <= i < step.requests.len() && #[trigger] step.requests[i] is ForwardEvent;
    assert(step.requests[i] is ForwardEvent);
}

/// UTF-8 goes through a commit unchanged: the text delivered is the text that
/// the bytes encode, and it encodes to the very bytes that were committed.
pub proof fn lemma_commit_round_trip(input: Seq<u8>, transcoded: Option<Seq<u8>>)
    requires
        valid_utf8(input),
    ensures
        text_of(commit_bytes(Encoding::Utf8, input, transcoded)) == decode_utf8(input),
        encode_utf8(text_of(commit_bytes(Encoding::Utf8, input, transcoded))) == input,
{
    decode_utf8_encode_utf8(input);
}

/// What the codec made of compound text is read in the same way: where it is
/// UTF-8, the text delivered encodes to the very bytes the codec gave. Where
/// the codec failed, the text is empty.
pub proof fn lemma_commit_of_compound_text(input: Seq<u8>, utf8: Seq<u8>)
    requires
        valid_utf8(utf8),
    ensures
        encode_utf8(text_of(commit_bytes(Encoding::CompoundText, input, Some(utf8)))) == utf8,
        text_of(commit_bytes(Encoding::CompoundText, input, None)) == Seq::<char>::empty(),
{
    decode_utf8_encode_utf8(utf8);
    crate::text::lemma_text_of_empty();
}

} // verus!
