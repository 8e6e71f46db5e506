//! Properties that relate several events or several calls.

use vstd::prelude::*;

use crate::editor::seeded_buffer;
use crate::event::{Event, KeyEvent, apply_event, apply_events, char_key, typed};
use crate::text::{ends_closed, normalized_upto, seed_text};

verus! {

/// Typing characters one after another appends exactly those characters, in
/// order, to whatever the buffer held.
pub proof fn lemma_typing_appends(buf: Seq<char>, cs: Seq<char>)
    ensures
        apply_events(buf, typed(cs)) == buf + cs,
    decreases cs.len(),
{
    if cs.len() > 0 {
        let rest = cs.drop_last();
        assert(typed(cs).drop_last() =~= typed(rest));
        lemma_typing_appends(buf, rest);
        assert((buf + rest).push(cs.last()) =~= buf + cs);
    } else {
        assert(buf + cs =~= buf);
    }
}

/// Backspace on an empty buffer leaves it empty.
pub proof fn lemma_backspace_on_empty()
    ensures
        apply_event(Seq::empty(), Event::Input(KeyEvent::Backspace)) == Seq::<char>::empty(),
{
}

/// Deleting the last character and typing it again gives back the buffer.
pub proof fn lemma_backspace_retype(buf: Seq<char>)
    requires
        buf.len() > 0,
    ensures
        apply_events(
            buf,
            Seq::empty().push(Event::Input(KeyEvent::Backspace)).push(char_key(buf.last())),
        ) == buf,
{
    let es = Seq::empty().push(Event::Input(KeyEvent::Backspace)).push(char_key(buf.last()));
    assert(es.drop_last() =~= seq![Event::Input(KeyEvent::Backspace)]);
    assert(es.drop_last().drop_last() =~= Seq::<Event>::empty());
    assert(es.drop_last().last() == Event::Input(KeyEvent::Backspace));
    assert(apply_events(buf, es.drop_last().drop_last()) == buf);
    assert(apply_events(buf, es.drop_last()) == buf.drop_last());
    assert(buf.drop_last().push(buf.last()) =~= buf);
}

/// Seeding twice does what seeding once does: after the first time the
/// gate is closed and the buffer is left alone.
pub proof fn lemma_seed_once(buf: Seq<char>, original: Seq<char>, seeded: bool)
    ensures
        seeded_buffer(seeded_buffer(buf, original, seeded), original, true) == seeded_buffer(
            buf,
            original,
            seeded,
        ),
{
}

proof fn lemma_normalized_plain(s: Seq<char>, n: int)
    requires
        0 <= n <= s.len(),
        forall|i: int| 0 <= i < s.len() ==> s[i] != '\r',
    ensures
        normalized_upto(s, n) == s.subrange(0, n),
    decreases n,
{
    if n > 0 {
        lemma_normalized_plain(s, n - 1);
        assert(s.subrange(0, n - 1).push(s[n - 1]) =~= s.subrange(0, n));
    } else {
        assert(s.subrange(0, 0) =~= Seq::<char>::empty());
    }
}

/// Without carriage returns, seeding keeps the text and only drops the
/// terminator of its last line.
pub proof fn lemma_seed_plain(s: Seq<char>)
    requires
        forall|i: int| 0 <= i < s.len() ==> s[i] != '\r',
    ensures
        seed_text(s) == if ends_closed(s) {
            s.drop_last()
        } else {
            s
        },
{
    lemma_normalized_plain(s, s.len() as int);
    assert(s.subrange(0, s.len() as int) =~= s);
    if ends_closed(s) {
        lemma_normalized_plain(s, s.len() - 1);
        assert(s.subrange(0, s.len() - 1) =~= s.drop_last());
    }
}

/// A text that has no carriage return and does not end with a line feed, as
/// a saved buffer is once reloaded and trimmed, seeds a fresh editor with
/// exactly that text.
pub proof fn lemma_reload_reproduces(t: Seq<char>)
    requires
        forall|i: int| 0 <= i < t.len() ==> t[i] != '\r',
        !ends_closed(t),
    ensures
        seed_text(t) == t,
{
    lemma_seed_plain(t);
}

} // verus!
