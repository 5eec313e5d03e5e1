use vstd::prelude::*;
use crate::error::AppResult;
use crate::event::{Event, KeyCode, KeyEvent, KeyEventKind};

verus! {

/// The application state: a single `running` flag. It starts true and
/// the only transition ever applied to it is quitting, so once it is
/// false it stays false.
#[derive(Debug, Clone, Copy, PartialEq, Eq, Structural)]
pub struct App {
    pub running: bool,
}

/// Whether a key event asks the application to quit: Escape, the
/// letter 'q' in either case, or 'c'/'C' with the control modifier
/// held.
pub open spec fn key_quits(k: KeyEvent) -> bool {
    ||| k.code == KeyCode::Esc
    ||| k.code == (KeyCode::Char('q'))
    ||| k.code == (KeyCode::Char('Q'))
    ||| (k.code == (KeyCode::Char('c')) || k.code == (KeyCode::Char('C')))
        && k.modifiers.spec_has_control()
}

/// The `running` flag after the key handler sees one key event.
pub open spec fn running_after_key(running: bool, k: KeyEvent) -> bool {
    running && !key_quits(k)
}

/// The `running` flag after the run loop dispatches one event: only a
/// key event of press kind reaches the key handler; ticks, pointer
/// events, resizes, and non-press key events leave the state alone.
pub open spec fn running_after_event(running: bool, e: Event) -> bool {
    match e {
        Event::Key(k) => if k.kind == KeyEventKind::Press {
            running_after_key(running, k)
        } else {
            running
        },
        _ => running,
    }
}

impl Default for App {
    /// A fresh application is running.
    fn default() -> (r: App)
        ensures
            r.running,
    {
        App { running: true }
    }
}

impl App {
    /// A fresh application is running.
    pub fn new() -> (r: App)
        ensures
            r.running,
    {
        App { running: true }
    }

    /// Stop the application. Idempotent: quitting an already stopped
    /// application leaves it stopped.
    pub fn quit(&mut self)
        ensures
            !final(self).running,
    {
        self.running = false;
    }

    /// Apply one key event to the state.
    ///
    /// Quit keys (Escape, 'q'/'Q', control + 'c'/'C') clear `running`;
    /// Left and Right arrows are reserved and, like every other key,
    /// change nothing. Never fails.
    pub fn handle_key_event(&mut self, key_event: KeyEvent) -> (r: AppResult<()>)
        ensures
            *final(self) == (App { running: running_after_key(old(self).running, key_event) }),
            r is Ok,
    {
        match key_event.code {
            KeyCode::Esc => {
                self.quit();
            },
            KeyCode::Char(c) => {
                if c == 'q' || c == 'Q' {
                    self.quit();
                } else if (c == 'c' || c == 'C') && key_event.modifiers.has_control() {
                    self.quit();
                }
            },
            KeyCode::Right => {},
            KeyCode::Left => {},
            KeyCode::Other => {},
        }
        Ok(())
    }

    /// Dispatch one event from the queue, as the run loop does between
    /// two renders: key events of press kind go to the key handler;
    /// `Tick`, `Mouse`, and `Resize` are reserved extension points and
    /// do nothing. Never fails.
    pub fn dispatch(&mut self, event: Event) -> (r: AppResult<()>)
        ensures
            *final(self) == (App { running: running_after_event(old(self).running, event) }),
            r is Ok,
    {
        match event {
            Event::Key(key_event) => {
                if key_event.kind == KeyEventKind::Press {
                    self.handle_key_event(key_event)
                } else {
                    Ok(())
                }
            },
            Event::Tick => Ok(()),
            Event::Mouse(_) => Ok(()),
            Event::Resize(_, _) => Ok(()),
        }
    }

    /// The title the renderer draws on the surrounding border. Render
    /// output is a pure function of the state, and the state holds no
    /// dynamic content, so the title is fixed.
    pub fn title(&self) -> (t: &'static str)
        ensures
            t@ == "Sabry"@,
    {
        "Sabry"
    }

    /// The single line of text the renderer centers inside the border.
    /// Fixed, for the same reason as the title.
    pub fn content(&self) -> (t: &'static str)
        ensures
            t@ == "Hello World"@,
    {
        "Hello World"
    }
}

/// Quit keys latch the state: any quit key clears `running`, and a
/// second quit key leaves it cleared — quitting is idempotent.
pub proof fn lemma_quit_keys_latch(running: bool, k1: KeyEvent, k2: KeyEvent)
    requires
        key_quits(k1),
        key_quits(k2),
    ensures
        !running_after_key(running, k1),
        !running_after_key(running_after_key(running, k1), k2),
{
}

/// Once stopped, the application never starts running again: no event
/// whatsoever turns `running` back on.
pub proof fn lemma_stopped_stays_stopped(e: Event)
    ensures
        !running_after_event(false, e),
{
}

/// 'c' or 'C' without the control modifier is not a quit key: it
/// leaves `running` unchanged.
pub proof fn lemma_plain_c_keeps_running(running: bool, k: KeyEvent)
    requires
        k.code == (KeyCode::Char('c')) || k.code == (KeyCode::Char('C')),
        !k.modifiers.spec_has_control(),
    ensures
        running_after_key(running, k) == running,
{
}

/// 'c' or 'C' with the control modifier held clears `running`.
pub proof fn lemma_control_c_quits(running: bool, k: KeyEvent)
    requires
        k.code == (KeyCode::Char('c')) || k.code == (KeyCode::Char('C')),
        k.modifiers.spec_has_control(),
    ensures
        !running_after_key(running, k),
{
}

/// The Left and Right arrow keys are reserved: they are never quit
/// keys.
pub proof fn lemma_arrow_keys_never_quit(k: KeyEvent)
    requires
        k.code == KeyCode::Left || k.code == KeyCode::Right,
    ensures
        !key_quits(k),
{
}

/// Any key that is not a quit key leaves the state — all of it —
/// unchanged.
pub proof fn lemma_non_quit_key_keeps_state(s: App, k: KeyEvent)
    requires
        !key_quits(k),
    ensures
        (App { running: running_after_key(s.running, k) }) == s,
{
}

} // verus!
