//! The watchlist: the names whose joins and leaves raise alerts. It is read
//! anew before every cycle, one name per line, and replaced as a whole.

use std::str::Chars;
use vstd::prelude::*;
use vstd::std_specs::iter::IteratorSpec;

verus! {

/// `String::push` appends one character.
pub assume_specification[ String::push ](s: &mut String, ch: char)
    ensures
        final(s)@ == old(s)@.push(ch),
;

/// A line without the carriage return that stood before its line feed.
pub open spec fn without_return(line: Seq<char>) -> Seq<char> {
    if line.len() > 0 && line.last() == '\r' {
        line.drop_last()
    } else {
        line
    }
}

/// The lines still to come when `pending` has been read since the last line
/// feed and `rest` is unread. A line ends at a line feed; a carriage return
/// directly before the line feed belongs to the line ending. What follows the
/// last line feed is a line too, unless it is empty.
pub open spec fn lines_from(pending: Seq<char>, rest: Seq<char>) -> Seq<Seq<char>>
    decreases rest.len(),
{
    if rest.len() == 0 {
        if pending.len() == 0 {
            Seq::empty()
        } else {
            seq![pending]
        }
    } else if rest[0] == '\n' {
        seq![without_return(pending)] + lines_from(Seq::empty(), rest.drop_first())
    } else {
        lines_from(pending.push(rest[0]), rest.drop_first())
    }
}

/// The lines of a text.
pub open spec fn lines_of(text: Seq<char>) -> Seq<Seq<char>> {
    lines_from(Seq::empty(), text)
}

/// Splits the text of a watchlist into its names, one per line.
pub fn parse_name_list(text: &str) -> (names: Vec<String>)
    ensures
        names.deep_view() == lines_of(text@),
{
    broadcast use vstd::string::group_string_axioms;

    let mut names: Vec<String> = Vec::new();
    let mut current = String::new();
    let mut held_return = false;
    let mut unread: Chars<'_> = text.chars();
    assert(names.deep_view() =~= Seq::empty());
    assert(Seq::<Seq<char>>::empty() + lines_of(text@) =~= lines_of(text@));
    assert(current@ + Seq::<char>::empty() =~= Seq::empty());
    loop
        invariant
            unread.obeys_prophetic_iter_laws(),
            unread.decrease() is Some,
            !held_return ==> current@.len() == 0 || current@.last() != '\r',
            names.deep_view() + lines_from(
                current@ + if held_return {
                    seq!['\r']
                } else {
                    Seq::empty()
                },
                unread.remaining(),
            ) == lines_of(text@),
        decreases unread.decrease()->0,
    {
        let ghost before = names.deep_view();
        let ghost line = current@;
        let ghost pending = current@ + if held_return {
            seq!['\r']
        } else {
            Seq::empty()
        };
        let ghost rest = unread.remaining();
        match unread.next() {
            Some(c) => {
                assert(rest.len() > 0 && c == rest[0] && unread.remaining() == rest.drop_first());
                if c == '\n' {
                    assert(without_return(pending) =~= line);
                    names.push(current);
                    current = String::new();
                    held_return = false;
                    assert(names.deep_view() =~= before.push(line));
                    assert(current@ + Seq::<char>::empty() =~= Seq::empty());
                    assert(before.push(line) + lines_from(Seq::empty(), rest.drop_first())
                        =~= before + (seq![line] + lines_from(Seq::empty(), rest.drop_first())));
                } else {
                    if held_return {
                        current.push('\r');
                    }
                    if c == '\r' {
                        held_return = true;
                        assert(current@ + seq!['\r'] =~= pending.push(c));
                    } else {
                        held_return = false;
                        current.push(c);
                        assert(current@ + Seq::<char>::empty() =~= pending.push(c));
                    }
                }
            },
            None => {
                assert(rest.len() == 0);
                if held_return {
                    current.push('\r');
                }
                assert(current@ =~= pending);
                if !current.as_str().is_empty() {
                    names.push(current);
                    assert(names.deep_view() =~= before.push(pending));
                    assert(before.push(pending) =~= before + seq![pending]);
                } else {
                    assert(before + Seq::<Seq<char>>::empty() =~= before);
                }
                return names;
            },
        }
    }
}

/// Compares two lists of names entry by entry.
pub fn same_names(a: &Vec<String>, b: &Vec<String>) -> (same: bool)
    ensures
        same == (a.deep_view() == b.deep_view()),
{
    if a.len() != b.len() {
        assert(a.deep_view().len() != b.deep_view().len());
        return false;
    }
    let mut i: usize = 0;
    while i < a.len()
        invariant
            i <= a.len(),
            a.len() == b.len(),
            forall|j: int| 0 <= j < i ==> a.deep_view()[j] == b.deep_view()[j],
        decreases a.len() - i,
    {
        if a[i] != b[i] {
            assert(a.deep_view()[i as int] != b.deep_view()[i as int]);
            return false;
        }
        i += 1;
    }
    assert(a.deep_view() =~= b.deep_view());
    true
}

/// Takes in a freshly loaded watchlist, `None` standing for a source that
/// could not be read. A loaded list replaces the saved one as a whole; an
/// unreadable source leaves the saved list in effect. Returns whether the
/// names in effect changed.
pub fn refresh_targets(saved: &mut Vec<String>, loaded: Option<Vec<String>>) -> (changed: bool)
    ensures
        final(saved).deep_view() == match loaded {
            Some(list) => list.deep_view(),
            None => old(saved).deep_view(),
        },
        changed == (final(saved).deep_view() != old(saved).deep_view()),
{
    match loaded {
        Some(list) => {
            if same_names(saved, &list) {
                false
            } else {
                *saved = list;
                true
            }
        },
        None => false,
    }
}

/// Takes in the text of the watchlist source as it was just read, `None`
/// standing for a source that could not be read, and returns whether the
/// names in effect changed.
pub fn reload_targets(saved: &mut Vec<String>, contents: Option<&str>) -> (changed: bool)
    ensures
        final(saved).deep_view() == match contents {
            Some(text) => lines_of(text@),
            None => old(saved).deep_view(),
        },
        changed == (final(saved).deep_view() != old(saved).deep_view()),
{
    match contents {
        Some(text) => refresh_targets(saved, Some(parse_name_list(text))),
        None => refresh_targets(saved, None),
    }
}

} // verus!
