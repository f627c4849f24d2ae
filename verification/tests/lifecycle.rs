use std::cell::RefCell;
use std::rc::Rc;

use xcb_imdkit::{CommitHandler, ForwardHandler, Ic, IcState, Ime, Request, INPUT_STYLE};

struct Commits(Rc<RefCell<Vec<(u32, String)>>>);

impl CommitHandler for Commits {
    fn on_commit(&mut self, window: u32, text: &str) {
        self.0.borrow_mut().push((window, text.to_string()));
    }
}

struct Forwards(Rc<RefCell<Vec<(u8, u32)>>>);

impl ForwardHandler for Forwards {
    fn on_forward(&mut self, event: &xcb::KeyPressEvent) {
        self.0.borrow_mut().push((event.detail(), event.event()));
    }
}

type Session = Ime<Commits, Forwards>;

fn key_press(window: u32) -> xcb::KeyPressEvent {
    xcb::KeyPressEvent::new(xcb::KEY_PRESS, 38, 0, 1, window, 0, 0, 0, 0, 0, 0, true)
}

fn key_release(window: u32) -> xcb::KeyPressEvent {
    xcb::KeyPressEvent::new(xcb::KEY_RELEASE, 38, 0, 1, window, 0, 0, 0, 0, 0, 0, true)
}

fn created(window: u32, handle: u16) -> Session {
    let mut ime = Session::new();
    let out = ime.dispatch_event(false, xcb_imdkit::KEY_PRESS, window);
    assert_eq!(out.requests, vec![Request::Open]);
    ime.open_result(true);
    assert_eq!(ime.open_callback().len(), 1);
    assert_eq!(ime.create_ic_callback(handle), vec![Request::SetIcFocus { ic: handle }]);
    ime
}

#[test]
fn new_session_has_no_context() {
    let ime = Session::new();
    assert_eq!(ime.ic(), None);
    assert_eq!(ime.state(), IcState::NoContext);
}

#[test]
fn handshake_then_forwarding() {
    let mut ime = Session::new();

    let first = ime.process_event(false, &key_press(100));
    assert!(!first.handled);
    assert_eq!(first.requests, vec![Request::Open]);
    assert_eq!(ime.state(), IcState::Opening);
    assert_eq!(ime.ic(), Some(Ic { win: 100, ic: 0 }));

    ime.open_result(true);
    assert_eq!(ime.state(), IcState::Opening);

    let create = ime.open_callback();
    assert_eq!(
        create,
        vec![Request::CreateIc {
            input_style: INPUT_STYLE,
            client_window: 100,
            focus_window: 100,
            spot_x: 0,
            spot_y: 0,
        }]
    );
    assert_eq!(ime.state(), IcState::Opening);

    let focus = ime.create_ic_callback(7);
    assert_eq!(focus, vec![Request::SetIcFocus { ic: 7 }]);
    assert_eq!(ime.state(), IcState::Created);
    assert_eq!(ime.ic(), Some(Ic { win: 100, ic: 7 }));

    let next = ime.process_event(false, &key_press(100));
    assert!(next.handled);
    assert_eq!(next.requests, vec![Request::ForwardEvent { ic: 7 }]);
    assert_eq!(ime.ic(), Some(Ic { win: 100, ic: 7 }));
}

#[test]
fn keys_wait_while_opening() {
    let mut ime = Session::new();
    let first = ime.process_event(false, &key_press(100));
    assert!(!first.handled);
    assert_eq!(first.requests, vec![Request::Open]);
    for _ in 0..5 {
        let press = ime.process_event(false, &key_press(100));
        assert!(!press.handled);
        assert!(press.requests.is_empty());
        let release = ime.process_event(false, &key_release(100));
        assert!(!release.handled);
        assert!(release.requests.is_empty());
        assert_eq!(ime.ic(), Some(Ic { win: 100, ic: 0 }));
    }
}

#[test]
fn opening_keeps_its_window() {
    let mut ime = Session::new();
    ime.process_event(false, &key_press(100));
    let other = ime.process_event(false, &key_press(200));
    assert!(!other.handled);
    assert!(other.requests.is_empty());
    assert_eq!(ime.ic(), Some(Ic { win: 100, ic: 0 }));
    assert_eq!(
        ime.open_callback(),
        vec![Request::CreateIc {
            input_style: 0x0104,
            client_window: 100,
            focus_window: 100,
            spot_x: 0,
            spot_y: 0,
        }]
    );
}

#[test]
fn created_takes_every_key() {
    let mut ime = created(100, 3);
    for _ in 0..4 {
        let press = ime.process_event(false, &key_press(100));
        assert!(press.handled);
        assert_eq!(press.requests, vec![Request::ForwardEvent { ic: 3 }]);
        let release = ime.process_event(false, &key_release(100));
        assert!(release.handled);
        assert_eq!(release.requests, vec![Request::ForwardEvent { ic: 3 }]);
    }
    assert_eq!(ime.ic(), Some(Ic { win: 100, ic: 3 }));
}

#[test]
fn process_key_in_every_state() {
    let mut ime = Session::new();
    let out = ime.process_key(100);
    assert!(!out.handled);
    assert_eq!(out.requests, vec![Request::Open]);
    assert_eq!(ime.ic(), Some(Ic { win: 100, ic: 0 }));

    let out = ime.process_key(200);
    assert!(!out.handled);
    assert!(out.requests.is_empty());
    assert_eq!(ime.ic(), Some(Ic { win: 100, ic: 0 }));

    ime.create_ic_callback(4);
    let out = ime.process_key(100);
    assert!(out.handled);
    assert_eq!(out.requests, vec![Request::ForwardEvent { ic: 4 }]);

    let out = ime.process_key(200);
    assert!(out.handled);
    assert_eq!(
        out.requests,
        vec![Request::SetIcWindow { ic: 4, window: 200 }, Request::ForwardEvent { ic: 4 }]
    );
    assert_eq!(ime.ic(), Some(Ic { win: 200, ic: 4 }));
}

#[test]
fn filtered_event_is_handled_and_nothing_sent() {
    let mut ime = Session::new();
    let out = ime.process_event(true, &key_press(100));
    assert!(out.handled);
    assert!(out.requests.is_empty());
    assert_eq!(ime.state(), IcState::NoContext);

    let mut ime = created(100, 3);
    let out = ime.process_event(true, &key_press(200));
    assert!(out.handled);
    assert!(out.requests.is_empty());
    assert_eq!(ime.ic(), Some(Ic { win: 100, ic: 3 }));
}

#[test]
fn key_for_another_window_retargets_once() {
    let mut ime = created(100, 9);
    let moved = ime.process_event(false, &key_press(200));
    assert!(moved.handled);
    assert_eq!(
        moved.requests,
        vec![Request::SetIcWindow { ic: 9, window: 200 }, Request::ForwardEvent { ic: 9 }]
    );
    assert_eq!(ime.ic(), Some(Ic { win: 200, ic: 9 }));

    let again = ime.process_event(false, &key_release(200));
    assert!(again.handled);
    assert_eq!(again.requests, vec![Request::ForwardEvent { ic: 9 }]);
    assert_eq!(ime.ic(), Some(Ic { win: 200, ic: 9 }));
}

#[test]
fn update_pos_while_created() {
    let mut ime = created(100, 7);
    let out = ime.update_pos(100, 10, 20);
    assert!(out.handled);
    assert_eq!(out.requests, vec![Request::SetSpotLocation { ic: 7, x: 10, y: 20 }]);
    assert_eq!(ime.ic(), Some(Ic { win: 100, ic: 7 }));
}

#[test]
fn update_pos_without_context() {
    let mut ime = Session::new();
    let out = ime.update_pos(100, 10, 20);
    assert!(!out.handled);
    assert!(out.requests.is_empty());
    assert_eq!(ime.ic(), None);
}

#[test]
fn update_pos_while_opening() {
    let mut ime = Session::new();
    ime.dispatch_event(false, 2, 100);
    let out = ime.update_pos(200, -5, 32767);
    assert!(!out.handled);
    assert!(out.requests.is_empty());
    assert_eq!(ime.ic(), Some(Ic { win: 100, ic: 0 }));
}

#[test]
fn update_pos_retargets_once() {
    let mut ime = created(100, 7);
    let moved = ime.update_pos(300, -1, 4);
    assert!(moved.handled);
    assert_eq!(
        moved.requests,
        vec![
            Request::SetIcWindow { ic: 7, window: 300 },
            Request::SetSpotLocation { ic: 7, x: -1, y: 4 },
        ]
    );
    assert_eq!(ime.ic(), Some(Ic { win: 300, ic: 7 }));

    let again = ime.update_pos(300, -1, 4);
    assert!(again.handled);
    assert_eq!(again.requests, vec![Request::SetSpotLocation { ic: 7, x: -1, y: 4 }]);
    assert_eq!(ime.ic(), Some(Ic { win: 300, ic: 7 }));
}

#[test]
fn set_ic_window_is_idempotent() {
    let mut ime = created(100, 7);
    assert_eq!(ime.set_ic_window(200), vec![Request::SetIcWindow { ic: 7, window: 200 }]);
    assert_eq!(ime.ic(), Some(Ic { win: 200, ic: 7 }));
    assert!(ime.set_ic_window(200).is_empty());
    assert_eq!(ime.ic(), Some(Ic { win: 200, ic: 7 }));
}

#[test]
fn set_ic_window_needs_a_created_context() {
    let mut ime = Session::new();
    assert!(ime.set_ic_window(200).is_empty());
    assert_eq!(ime.ic(), None);

    ime.try_open_ic(100);
    assert!(ime.set_ic_window(200).is_empty());
    assert_eq!(ime.ic(), Some(Ic { win: 100, ic: 0 }));
}

#[test]
fn open_failure_resets_and_next_key_retries() {
    let mut ime = Session::new();
    let first = ime.process_event(false, &key_press(100));
    assert_eq!(first.requests, vec![Request::Open]);
    ime.open_result(false);
    assert_eq!(ime.state(), IcState::NoContext);
    assert_eq!(ime.ic(), None);
    assert!(ime.open_callback().is_empty());

    let second = ime.process_event(false, &key_press(100));
    assert!(!second.handled);
    assert_eq!(second.requests, vec![Request::Open]);
    assert_eq!(ime.state(), IcState::Opening);
    assert_eq!(ime.ic(), Some(Ic { win: 100, ic: 0 }));
}

#[test]
fn try_open_ic_only_without_record() {
    let mut ime = Session::new();
    assert_eq!(ime.try_open_ic(100), vec![Request::Open]);
    assert_eq!(ime.ic(), Some(Ic { win: 100, ic: 0 }));
    assert!(ime.try_open_ic(200).is_empty());
    assert_eq!(ime.ic(), Some(Ic { win: 100, ic: 0 }));

    let mut ime = created(100, 7);
    assert!(ime.try_open_ic(200).is_empty());
    assert_eq!(ime.ic(), Some(Ic { win: 100, ic: 7 }));
}

#[test]
fn create_failure_resets_and_next_key_retries() {
    let mut ime = Session::new();
    ime.dispatch_event(false, 2, 100);
    ime.open_result(true);
    assert!(ime.create_ic_callback(0).is_empty());
    assert_eq!(ime.state(), IcState::NoContext);

    let retry = ime.dispatch_event(false, 3, 100);
    assert!(!retry.handled);
    assert_eq!(retry.requests, vec![Request::Open]);
}

#[test]
fn created_context_is_kept() {
    let mut ime = created(100, 7);
    ime.open_result(false);
    assert_eq!(ime.ic(), Some(Ic { win: 100, ic: 7 }));
    assert!(ime.create_ic_callback(0).is_empty());
    assert_eq!(ime.ic(), Some(Ic { win: 100, ic: 7 }));
    assert_eq!(ime.create_ic_callback(8), vec![Request::SetIcFocus { ic: 8 }]);
    assert_eq!(ime.ic(), Some(Ic { win: 100, ic: 8 }));
}

#[test]
fn answers_without_record_do_nothing() {
    let mut ime = Session::new();
    assert!(ime.open_callback().is_empty());
    assert!(ime.create_ic_callback(5).is_empty());
    assert_eq!(ime.ic(), None);
    ime.open_result(true);
    assert_eq!(ime.ic(), None);
    ime.open_result(false);
    assert_eq!(ime.ic(), None);
}
