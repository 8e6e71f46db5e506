//! Line structure of a text, as `str::lines` sees it: lines end at a line
//! feed or at a carriage return followed by a line feed, and a final line
//! needs no terminator.

use vstd::prelude::*;

use crate::strings::{chars_of, push_char};

verus! {

/// Whether the character at `i` belongs to a line rather than to a line
/// ending: a carriage return directly before a line feed is dropped.
pub open spec fn kept(s: Seq<char>, i: int) -> bool {
    !(s[i] == '\r' && i + 1 < s.len() && s[i + 1] == '\n')
}

/// The first `n` characters of `s`, with every carriage return that ends a
/// line left out.
pub open spec fn normalized_upto(s: Seq<char>, n: int) -> Seq<char>
    decreases n,
{
    if n <= 0 {
        Seq::empty()
    } else if kept(s, n - 1) {
        normalized_upto(s, n - 1).push(s[n - 1])
    } else {
        normalized_upto(s, n - 1)
    }
}

/// The number of line feeds among the first `n` characters of `s`.
pub open spec fn newlines_upto(s: Seq<char>, n: int) -> nat
    decreases n,
{
    if n <= 0 {
        0
    } else if s[n - 1] == '\n' {
        newlines_upto(s, n - 1) + 1
    } else {
        newlines_upto(s, n - 1)
    }
}

/// Whether the text ends in a line that has no terminator.
pub open spec fn ends_open(s: Seq<char>) -> bool {
    s.len() > 0 && s.last() != '\n'
}

/// The number of lines of `s`: one for each line feed, and one more for an
/// unterminated last line.
pub open spec fn line_count(s: Seq<char>) -> nat {
    newlines_upto(s, s.len() as int) + if ends_open(s) {
        1nat
    } else {
        0nat
    }
}

/// Whether the text ends with a line feed.
pub open spec fn ends_closed(s: Seq<char>) -> bool {
    s.len() > 0 && s.last() == '\n'
}

/// The lines of `s` joined by line feeds: the text with the carriage returns
/// of its line endings dropped, and without the terminator of its last line.
pub open spec fn seed_text(s: Seq<char>) -> Seq<char> {
    if ends_closed(s) {
        normalized_upto(s, s.len() - 1)
    } else {
        normalized_upto(s, s.len() as int)
    }
}

proof fn lemma_newlines_bounded(s: Seq<char>, n: int)
    requires
        0 <= n,
    ensures
        newlines_upto(s, n) <= n,
    decreases n,
{
    if n > 0 {
        lemma_newlines_bounded(s, n - 1);
    }
}

/// Counts the lines of `s` as `str::lines` yields them.
pub fn count_lines(s: &str) -> (r: usize)
    ensures
        r == line_count(s@),
{
    let cs = chars_of(s);
    let mut n: usize = 0;
    let mut i: usize = 0;
    while i < cs.len()
        invariant
            i <= cs.len(),
            cs@ == s@,
            n == newlines_upto(s@, i as int),
        decreases cs.len() - i,
    {
        proof {
            lemma_newlines_bounded(s@, i as int);
        }
        if cs[i] == '\n' {
            n = n + 1;
        }
        i = i + 1;
    }
    if cs.len() > 0 && cs[cs.len() - 1] != '\n' {
        proof {
            lemma_newlines_bounded(s@, cs.len() - 1);
        }
        n = n + 1;
    }
    n
}

/// Appends to `buf` the lines of `s`, joined by line feeds.
pub fn seed_into(buf: &mut String, s: &str)
    ensures
        final(buf)@ == old(buf)@ + seed_text(s@),
{
    let cs = chars_of(s);
    let len = cs.len();
    let end = if len > 0 && cs[len - 1] == '\n' {
        len - 1
    } else {
        len
    };
    let mut i: usize = 0;
    while i < end
        invariant
            i <= end <= len,
            len == cs@.len(),
            cs@ == s@,
            end == if ends_closed(s@) {
                len - 1
            } else {
                len as int
            },
            buf@ == old(buf)@ + normalized_upto(s@, i as int),
        decreases end - i,
    {
        let c = cs[i];
        if !(c == '\r' && i + 1 < len && cs[i + 1] == '\n') {
            push_char(buf, c);
        }
        i = i + 1;
        assert(buf@ =~= old(buf)@ + normalized_upto(s@, i as int));
    }
}

} // verus!
