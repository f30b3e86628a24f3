//! Input events as the panels see them.
use vstd::prelude::*;

verus! {

/// The keys that the application tells apart.
#[derive(Clone, Copy, Debug, PartialEq, Eq, Structural)]
pub enum Key {
    Up,
    Down,
    Left,
    Enter,
    Tab,
    BackTab,
    Esc,
    Char(char),
    Other,
}

/// One item of the event queue.
#[derive(Debug)]
pub enum AppEvent {
    Input(Key),
    Tick,
    Custom(String),
}

pub open spec fn is_quit(event: AppEvent) -> bool {
    event == AppEvent::Input(Key::Char('q')) || event == AppEvent::Input(Key::Esc)
}

/// `q` and Escape end the run loop; they never reach a panel.
pub fn quits(event: &AppEvent) -> (r: bool)
    ensures
        r == is_quit(*event),
{
    match event {
        AppEvent::Input(Key::Char(c)) => *c == 'q',
        AppEvent::Input(Key::Esc) => true,
        _ => false,
    }
}

} // verus!
