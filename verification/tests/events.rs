use sabry::app::App;
use sabry::error::AppError;
use sabry::event::{
    decode_input, next_event, Event, InputEvent, KeyCode, KeyEvent, KeyEventKind, KeyModifiers,
};

fn sample_mouse_event() -> crossterm::event::MouseEvent {
    crossterm::event::MouseEvent {
        kind: crossterm::event::MouseEventKind::Moved,
        column: 12,
        row: 3,
        modifiers: crossterm::event::KeyModifiers::empty(),
    }
}

#[test]
fn decode_forwards_key_presses_unchanged() {
    let key = KeyEvent {
        code: KeyCode::Char('q'),
        modifiers: KeyModifiers { bits: 2 },
        kind: KeyEventKind::Press,
    };
    match decode_input(InputEvent::Key(key)) {
        Some(Event::Key(k)) => assert_eq!(k, key),
        other => panic!("a key press must be forwarded as a key event, got {:?}", other),
    }
}

#[test]
fn decode_drops_key_releases_and_repeats() {
    for kind in [KeyEventKind::Release, KeyEventKind::Repeat] {
        let key = KeyEvent { code: KeyCode::Char('q'), modifiers: KeyModifiers::none(), kind };
        assert!(decode_input(InputEvent::Key(key)).is_none());
    }
}

#[test]
fn decode_forwards_mouse_events() {
    match decode_input(InputEvent::Mouse(sample_mouse_event())) {
        Some(Event::Mouse(m)) => {
            assert_eq!(m.column, 12);
            assert_eq!(m.row, 3);
        }
        other => panic!("a mouse event must be forwarded, got {:?}", other),
    }
}

#[test]
fn decode_forwards_resizes() {
    match decode_input(InputEvent::Resize(80, 24)) {
        Some(Event::Resize(w, h)) => {
            assert_eq!(w, 80);
            assert_eq!(h, 24);
        }
        other => panic!("a resize must be forwarded, got {:?}", other),
    }
}

#[test]
fn decode_drops_focus_and_paste_events() {
    assert!(decode_input(InputEvent::FocusGained).is_none());
    assert!(decode_input(InputEvent::FocusLost).is_none());
    assert!(decode_input(InputEvent::Paste(String::from("hello"))).is_none());
}

#[test]
fn next_event_passes_an_available_event_through() {
    assert!(matches!(next_event(Some(Event::Tick)), Ok(Event::Tick)));
    let key = KeyEvent::press(KeyCode::Esc, KeyModifiers::none());
    match next_event(Some(Event::Key(key))) {
        Ok(Event::Key(k)) => assert_eq!(k, key),
        other => panic!("the queued event must come back, got {:?}", other),
    }
}

#[test]
fn next_event_fails_with_stream_closed_on_every_call_after_closure() {
    // Once the queue is closed and drained, every receive yields
    // nothing, and each such receive must turn into the same error.
    for _ in 0..3 {
        match next_event(None) {
            Err(AppError::EventStreamClosed) => {}
            other => panic!("a drained, closed queue must report closure, got {:?}", other),
        }
    }
}

#[test]
fn error_variants_carry_their_detail() {
    let send = AppError::SendError(String::from("receiver gone"));
    assert!(matches!(send, AppError::SendError(ref d) if d == "receiver gone"));
    let draw = AppError::DrawError(String::from("backend failure"));
    assert!(matches!(draw, AppError::DrawError(ref d) if d == "backend failure"));
}

#[test]
fn a_mouse_event_carried_through_never_touches_the_state() {
    let mut app = App::new();
    match decode_input(InputEvent::Mouse(sample_mouse_event())) {
        Some(event) => assert!(app.dispatch(event).is_ok()),
        None => panic!("a mouse event must be forwarded"),
    }
    assert!(app.running);
}
