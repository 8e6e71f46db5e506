//! The events that reach the editor loop and the actions it asks of its
//! surroundings.

use vstd::prelude::*;

verus! {

/// A decoded key press.
#[derive(Clone, Copy, Debug, PartialEq, Eq, Structural)]
pub enum KeyEvent {
    /// A plain character; Enter arrives as a line feed.
    Char(char),
    Backspace,
    /// A character typed with Ctrl held.
    Ctrl(char),
    Down,
    /// Any other named key.
    Other,
}

/// What the input source hands to the loop: a key, or a periodic tick that
/// carries nothing.
#[derive(Clone, Copy, Debug, PartialEq, Eq, Structural)]
pub enum Event {
    Input(KeyEvent),
    Tick,
}

/// What the loop must do after an event, besides redrawing.
#[derive(Clone, Copy, Debug, PartialEq, Eq, Structural)]
pub enum Action {
    /// Nothing beyond the redraw.
    Continue,
    /// Write the buffer to the file path, replacing its contents.
    Save,
    /// Leave the loop (bound to Ctrl+X).
    Quit,
}

/// The action that an event asks for.
pub open spec fn action_of(e: Event) -> Action {
    match e {
        Event::Input(KeyEvent::Ctrl(c)) => if c == 'x' {
            Action::Quit
        } else if c == 's' {
            Action::Save
        } else {
            Action::Continue
        },
        _ => Action::Continue,
    }
}

/// The buffer after an event: a character is appended, Backspace removes
/// the last character if there is one, and everything else leaves it as is.
pub open spec fn apply_event(buf: Seq<char>, e: Event) -> Seq<char> {
    match e {
        Event::Input(KeyEvent::Char(c)) => buf.push(c),
        Event::Input(KeyEvent::Backspace) => if buf.len() == 0 {
            buf
        } else {
            buf.drop_last()
        },
        _ => buf,
    }
}

/// The buffer after a sequence of events, taken in order.
pub open spec fn apply_events(buf: Seq<char>, es: Seq<Event>) -> Seq<char>
    decreases es.len(),
{
    if es.len() == 0 {
        buf
    } else {
        apply_event(apply_events(buf, es.drop_last()), es.last())
    }
}

/// The event of typing `c`.
pub open spec fn char_key(c: char) -> Event {
    Event::Input(KeyEvent::Char(c))
}

/// The key events that type the characters of `cs`, in order.
pub open spec fn typed(cs: Seq<char>) -> Seq<Event> {
    cs.map_values(|c: char| char_key(c))
}

} // verus!
