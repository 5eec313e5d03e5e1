use vstd::prelude::*;
use crate::error::{AppError, AppResult};

verus! {

/// Relies on crossterm's `MouseEvent` only as an opaque payload: the
/// shell carries pointer events through unchanged and never inspects
/// them.
#[verifier::external_type_specification]
#[verifier::external_body]
pub struct ExMouseEvent(crossterm::event::MouseEvent);

/// Relies on crossterm's `Clone` for `MouseEvent`: the type is `Copy`,
/// so cloning returns the value itself.
pub assume_specification[ <crossterm::event::MouseEvent as core::clone::Clone>::clone ](
    v: &crossterm::event::MouseEvent,
) -> (r: crossterm::event::MouseEvent)
    ensures
        r == *v,
;

/// The bit that marks the control modifier in a modifier set.
pub const CONTROL: u8 = 2;

/// The set of modifier keys held during a key event, as a bit set.
#[derive(Debug, Clone, Copy, PartialEq, Eq, Structural)]
pub struct KeyModifiers {
    pub bits: u8,
}

impl KeyModifiers {
    /// An empty modifier set.
    pub fn none() -> (r: KeyModifiers)
        ensures
            r.bits == 0,
            !r.has_control(),
    {
        proof {
            assert(0u8 & CONTROL == 0u8) by (bit_vector);
        }
        KeyModifiers { bits: 0 }
    }

    /// Whether the set includes the control modifier.
    pub open spec fn spec_has_control(&self) -> bool {
        self.bits & CONTROL != 0
    }

    /// Whether the set includes the control modifier.
    #[verifier::when_used_as_spec(spec_has_control)]
    pub fn has_control(&self) -> (r: bool)
        ensures
            r == self.spec_has_control(),
    {
        self.bits & CONTROL != 0
    }
}

/// The key codes the shell distinguishes. Every other key is `Other`.
#[derive(Debug, Clone, Copy, PartialEq, Eq, Structural)]
pub enum KeyCode {
    Esc,
    Char(char),
    Left,
    Right,
    Other,
}

/// Whether a key event is a press, a repeat, or a release.
#[derive(Debug, Clone, Copy, PartialEq, Eq, Structural)]
pub enum KeyEventKind {
    Press,
    Repeat,
    Release,
}

/// A key event: the code, the modifier set held with it, and whether it
/// was a press, repeat, or release.
#[derive(Debug, Clone, Copy, PartialEq, Eq, Structural)]
pub struct KeyEvent {
    pub code: KeyCode,
    pub modifiers: KeyModifiers,
    pub kind: KeyEventKind,
}

impl KeyEvent {
    /// A key event with the given code and modifiers, of press kind.
    pub fn press(code: KeyCode, modifiers: KeyModifiers) -> (r: KeyEvent)
        ensures
            r == (KeyEvent { code, modifiers, kind: KeyEventKind::Press }),
    {
        KeyEvent { code, modifiers, kind: KeyEventKind::Press }
    }
}

/// The vocabulary exchanged between the event producer and the run
/// loop: a periodic tick, a key event, a pointer event (payload opaque
/// to this layer), or a resize to new width and height.
#[derive(Debug, Clone, Copy)]
pub enum Event {
    Tick,
    Key(KeyEvent),
    Mouse(crossterm::event::MouseEvent),
    Resize(u16, u16),
}

/// A raw event as the terminal driver reports it, before the decode
/// boundary: key events of any kind, pointer events, resizes, focus
/// changes, and pastes.
#[derive(Debug)]
pub enum InputEvent {
    Key(KeyEvent),
    Mouse(crossterm::event::MouseEvent),
    Resize(u16, u16),
    FocusGained,
    FocusLost,
    Paste(String),
}

/// What the decode boundary forwards for a raw event: key presses,
/// pointer events, and resizes pass through; key repeats and releases,
/// focus changes, and pastes are dropped.
pub open spec fn spec_decode(evt: InputEvent) -> Option<Event> {
    match evt {
        InputEvent::Key(k) => if k.kind == KeyEventKind::Press {
            Some(Event::Key(k))
        } else {
            None
        },
        InputEvent::Mouse(m) => Some(Event::Mouse(m)),
        InputEvent::Resize(w, h) => Some(Event::Resize(w, h)),
        InputEvent::FocusGained => None,
        InputEvent::FocusLost => None,
        InputEvent::Paste(_) => None,
    }
}

/// Decode one raw terminal event at the producer's boundary.
///
/// Only key events of press kind are forwarded; repeat and release
/// variants are filtered out here. Pointer and resize events pass
/// through unchanged. Focus and paste notifications are intentionally
/// dropped and become no event at all.
pub fn decode_input(evt: InputEvent) -> (r: Option<Event>)
    ensures
        r == spec_decode(evt),
{
    match evt {
        InputEvent::Key(k) => {
            if k.kind == KeyEventKind::Press {
                Some(Event::Key(k))
            } else {
                None
            }
        },
        InputEvent::Mouse(m) => Some(Event::Mouse(m)),
        InputEvent::Resize(w, h) => Some(Event::Resize(w, h)),
        InputEvent::FocusGained => None,
        InputEvent::FocusLost => None,
        InputEvent::Paste(_) => None,
    }
}

/// Turn what a receive on the event queue yielded into the consumer's
/// result: an event while the queue is open, and exactly the
/// `EventStreamClosed` error once the queue is closed and drained.
pub fn next_event(received: Option<Event>) -> (r: AppResult<Event>)
    ensures
        received is Some ==> r == Ok::<Event, AppError>(received->0),
        received is None ==> r == Err::<Event, AppError>(AppError::EventStreamClosed),
{
    match received {
        Some(event) => Ok(event),
        None => Err(AppError::EventStreamClosed),
    }
}

} // verus!
