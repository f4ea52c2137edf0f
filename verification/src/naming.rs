//! The two naming rules: the host name under which a native function is
//! exported, and the name of an event that declares none.

use crate::text::{ascii_lower, ascii_upper, chars_of, is_ascii_upper, string_of, to_ascii_lower, to_ascii_upper};
use vstd::prelude::*;

verus! {

/// The camel-style name for an identifier of words that underscores
/// separate: the underscores are left out, and a character that follows an
/// underscore directly is put in upper case. The first word stays as it is.
pub open spec fn camel_case(ident: Seq<char>) -> Seq<char>
    decreases ident.len(),
{
    if ident.len() == 0 {
        Seq::empty()
    } else {
        let init = camel_case(ident.drop_last());
        let c = ident.last();
        if c == '_' {
            init
        } else if ident.len() >= 2 && ident[ident.len() - 2] == '_' {
            init.push(ascii_upper(c))
        } else {
            init.push(c)
        }
    }
}

/// `text` without the occurrences of `pattern`, found from left to right
/// without overlap.
pub open spec fn without(text: Seq<char>, pattern: Seq<char>) -> Seq<char>
    recommends
        pattern.len() > 0,
    decreases text.len(),
{
    if pattern.len() == 0 || text.len() < pattern.len() {
        text
    } else if text.take(pattern.len() as int) == pattern {
        without(text.skip(pattern.len() as int), pattern)
    } else {
        seq![text[0]].add(without(text.skip(1), pattern))
    }
}

/// Every upper-case letter replaced by a hyphen and the letter in lower case.
pub open spec fn hyphenated(text: Seq<char>) -> Seq<char>
    decreases text.len(),
{
    if text.len() == 0 {
        Seq::empty()
    } else if is_ascii_upper(text.last()) {
        hyphenated(text.drop_last()).push('-').push(ascii_lower(text.last()))
    } else {
        hyphenated(text.drop_last()).push(text.last())
    }
}

/// `text` without its first character; empty where `text` is.
pub open spec fn tail(text: Seq<char>) -> Seq<char> {
    if text.len() == 0 {
        text
    } else {
        text.skip(1)
    }
}

/// The name of an event whose payload type is called `ident` and names no
/// event itself: `Event` is taken out of the identifier wherever it occurs,
/// each upper-case letter becomes a hyphen and the lower-case letter, and the
/// first character of what this gives is dropped.
pub open spec fn event_name_of(ident: Seq<char>) -> Seq<char> {
    tail(hyphenated(without(ident, "Event"@)))
}

/// The host name under which the native function `ident` is exported.
pub fn export_name(ident: &str) -> (name: String)
    ensures
        name@ == camel_case(ident@),
{
    let chars = chars_of(ident);
    let mut out: Vec<char> = Vec::new();
    let mut i: usize = 0;
    while i < chars.len()
        invariant
            i <= chars.len(),
            out@ == camel_case(chars@.take(i as int)),
        decreases chars.len() - i,
    {
        let c = chars[i];
        proof {
            let next = chars@.take(i + 1);
            assert(next.drop_last() == chars@.take(i as int));
            assert(next.last() == c);
            if i > 0 {
                assert(next[next.len() - 2] == chars@[i - 1]);
            }
        }
        if c != '_' {
            if i > 0 && chars[i - 1] == '_' {
                out.push(to_ascii_upper(c));
            } else {
                out.push(c);
            }
        }
        i = i + 1;
    }
    assert(chars@.take(chars.len() as int) == chars@);
    string_of(&out)
}

/// Whether `pattern` stands in `text` at position `at`.
fn stands_at(text: &Vec<char>, at: usize, pattern: &Vec<char>) -> (found: bool)
    requires
        at <= text.len(),
    ensures
        found == (text@.len() - at >= pattern@.len() && text@.skip(at as int).take(
            pattern@.len() as int,
        ) == pattern@),
{
    if text.len() - at < pattern.len() {
        return false;
    }
    let ghost window = text@.skip(at as int).take(pattern@.len() as int);
    let mut k: usize = 0;
    while k < pattern.len()
        invariant
            k <= pattern.len(),
            at + pattern.len() <= text.len(),
            window == text@.skip(at as int).take(pattern@.len() as int),
            window.take(k as int) == pattern@.take(k as int),
        decreases pattern.len() - k,
    {
        if text[at + k] != pattern[k] {
            assert(window[k as int] != pattern@[k as int]);
            return false;
        }
        assert(window.take(k + 1) == window.take(k as int).push(window[k as int]));
        assert(pattern@.take(k + 1) == pattern@.take(k as int).push(pattern@[k as int]));
        k = k + 1;
    }
    assert(window.take(pattern.len() as int) == window);
    assert(pattern@.take(pattern.len() as int) == pattern@);
    true
}

/// `text` without the occurrences of `pattern`.
fn remove_all(text: &Vec<char>, pattern: &Vec<char>) -> (out: Vec<char>)
    requires
        pattern.len() > 0,
    ensures
        out@ == without(text@, pattern@),
{
    let mut out: Vec<char> = Vec::new();
    let mut i: usize = 0;
    assert(text@.skip(0) == text@);
    assert(out@ + without(text@, pattern@) == without(text@, pattern@));
    while i < text.len()
        invariant
            i <= text.len(),
            pattern.len() > 0,
            out@ + without(text@.skip(i as int), pattern@) == without(text@, pattern@),
        decreases text.len() - i,
    {
        let ghost rest = text@.skip(i as int);
        if stands_at(text, i, pattern) {
            assert(rest.skip(pattern.len() as int) == text@.skip(i + pattern.len()));
            i = i + pattern.len();
        } else {
            assert(rest.skip(1) == text@.skip(i + 1));
            assert(out@.push(text@[i as int]) + without(rest.skip(1), pattern@) == out@ + (
            seq![rest[0]].add(without(rest.skip(1), pattern@))));
            out.push(text[i]);
            i = i + 1;
        }
    }
    assert(text@.skip(text.len() as int).len() == 0);
    assert(out@ + Seq::<char>::empty() == out@);
    out
}

/// The name of an event that names none itself, from the identifier of its
/// payload type.
pub fn default_event_name(ident: &str) -> (name: String)
    ensures
        name@ == event_name_of(ident@),
{
    let pattern = chars_of("Event");
    proof {
        reveal_strlit("Event");
    }
    let stripped = remove_all(&chars_of(ident), &pattern);
    let mut out: Vec<char> = Vec::new();
    let mut i: usize = 0;
    while i < stripped.len()
        invariant
            i <= stripped.len(),
            i > 0 ==> out@ == tail(hyphenated(stripped@.take(i as int))),
            i == 0 ==> out@.len() == 0,
            i > 0 ==> hyphenated(stripped@.take(i as int)).len() > 0,
        decreases stripped.len() - i,
    {
        let c = stripped[i];
        let ghost before = hyphenated(stripped@.take(i as int));
        proof {
            let next = stripped@.take(i + 1);
            assert(next.drop_last() == stripped@.take(i as int));
            assert(next.last() == c);
        }
        if 'A' <= c && c <= 'Z' {
            if i > 0 {
                out.push('-');
            }
            out.push(to_ascii_lower(c));
            proof {
                let after = before.push('-').push(ascii_lower(c));
                if i > 0 {
                    assert(tail(after) == tail(before).push('-').push(ascii_lower(c)));
                } else {
                    assert(before.len() == 0);
                    assert(tail(after) == seq![ascii_lower(c)]);
                }
            }
        } else {
            if i > 0 {
                out.push(c);
            }
            proof {
                let after = before.push(c);
                if i > 0 {
                    assert(tail(after) == tail(before).push(c));
                } else {
                    assert(before.len() == 0);
                    assert(tail(after) == Seq::<char>::empty());
                }
            }
        }
        i = i + 1;
    }
    assert(stripped@.take(stripped.len() as int) == stripped@);
    string_of(&out)
}

} // verus!
