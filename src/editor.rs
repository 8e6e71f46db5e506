//! The editor's state and the work of one loop iteration.

use vstd::prelude::*;

use crate::event::{Action, Event, KeyEvent, action_of, apply_event};
use crate::strings::{pop_char, push_char, trim_trailing, trimmed_end};
use crate::text::{count_lines, ends_closed, line_count, seed_into, seed_text};
use crate::width::{cursor_spec, cursor_at, display_width, str_width};

verus! {

/// The text being edited.
pub struct App {
    pub input: String,
}

impl Default for App {
    fn default() -> (r: App)
        ensures
            r.input@ == Seq::<char>::empty(),
    {
        App { input: String::new() }
    }
}

impl App {
    /// Applies one event to the buffer and says what else it asks for.
    pub fn handle(&mut self, ev: Event) -> (a: Action)
        ensures
            final(self).input@ == apply_event(old(self).input@, ev),
            a == action_of(ev),
    {
        match ev {
            Event::Input(KeyEvent::Ctrl(c)) => {
                if c == 'x' {
                    Action::Quit
                } else if c == 's' {
                    Action::Save
                } else {
                    Action::Continue
                }
            },
            Event::Input(KeyEvent::Char(c)) => {
                push_char(&mut self.input, c);
                Action::Continue
            },
            Event::Input(KeyEvent::Backspace) => {
                let _ = pop_char(&mut self.input);
                Action::Continue
            },
            Event::Input(KeyEvent::Down) => Action::Continue,
            _ => Action::Continue,
        }
    }
}

/// The text that a load result gives: the file's text, or nothing when the
/// file could not be read.
pub open spec fn loaded_text(loaded: Option<String>) -> Seq<char> {
    match loaded {
        Some(s) => s@,
        None => Seq::empty(),
    }
}

/// The editor loop's state: the buffer, the file path, the text as it was
/// loaded (trimmed at its end), and whether the buffer has been seeded
/// from that text yet.
pub struct Editor {
    pub app: App,
    pub path: String,
    pub original: String,
    pub seeded: bool,
}

/// The buffer once the one-time seeding has run: seeding appends the lines
/// of the loaded text, and does nothing the second time.
pub open spec fn seeded_buffer(buf: Seq<char>, original: Seq<char>, seeded: bool) -> Seq<char> {
    if seeded {
        buf
    } else {
        buf + seed_text(original)
    }
}

impl Editor {
    /// A fresh editor for `path`, whose file read gave `loaded`.
    pub fn new(path: String, loaded: Option<String>) -> (r: Editor)
        ensures
            r.path@ == path@,
            r.original@ == trimmed_end(loaded_text(loaded)),
            !ends_closed(r.original@),
            r.app.input@ == Seq::<char>::empty(),
            !r.seeded,
    {
        let original = match &loaded {
            Some(s) => trim_trailing(s.as_str()),
            None => trim_trailing(String::new().as_str()),
        };
        Editor { app: App::default(), path, original, seeded: false }
    }

    /// Seeds the buffer from the loaded text, the first time only.
    pub fn ensure_seeded(&mut self)
        ensures
            final(self).seeded,
            final(self).app.input@ == seeded_buffer(
                old(self).app.input@,
                old(self).original@,
                old(self).seeded,
            ),
            final(self).original == old(self).original,
            final(self).path == old(self).path,
    {
        if !self.seeded {
            seed_into(&mut self.app.input, self.original.as_str());
            self.seeded = true;
        }
    }

    /// One loop iteration before the redraw: seed if needed, then apply the
    /// event.
    pub fn step(&mut self, ev: Event) -> (a: Action)
        ensures
            final(self).seeded,
            final(self).app.input@ == apply_event(
                seeded_buffer(old(self).app.input@, old(self).original@, old(self).seeded),
                ev,
            ),
            final(self).original == old(self).original,
            final(self).path == old(self).path,
            a == action_of(ev),
    {
        self.ensure_seeded();
        self.app.handle(ev)
    }

    /// The buffer's text, which a save writes out.
    pub fn buffer(&self) -> (r: &str)
        ensures
            r@ == self.app.input@,
    {
        self.app.input.as_str()
    }

    /// Where the cursor goes in a panel whose corner is at
    /// (`area_x`, `area_y`): one column past the buffer's display width, on
    /// the row given by the loaded text's line count.
    pub fn cursor(&self, area_x: u16, area_y: u16) -> (r: (u16, u16))
        ensures
            r == cursor_spec(
                area_x,
                area_y,
                display_width(self.app.input@),
                line_count(self.original@),
            ),
    {
        let w = str_width(self.app.input.as_str());
        let n = count_lines(self.original.as_str());
        cursor_at(area_x, area_y, w, n)
    }
}

} // verus!
