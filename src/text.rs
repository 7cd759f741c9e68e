//! Character-indexed editing of strings.
//!
//! Positions here count characters, not bytes, so that no edit can fall inside
//! a multi-byte character.

use vstd::prelude::*;
use vstd::string::*;

verus! {

/// Relies on `String::push`: the character is appended at the end.
pub assume_specification[ String::push ](s: &mut String, ch: char)
    ensures
        final(s)@ == old(s)@.push(ch),
;

/// The number of characters in `s`.
pub fn char_len(s: &str) -> (r: usize)
    ensures
        r == s@.len(),
{
    s.unicode_len()
}

/// `s` with `c` inserted before the character at position `at`.
pub fn insert_char(s: &str, at: usize, c: char) -> (r: String)
    requires
        at <= s@.len(),
    ensures
        r@ == s@.insert(at as int, c),
{
    let n = char_len(s);
    let mut r = String::from_str(s.substring_char(0, at));
    r.push(c);
    r.append(s.substring_char(at, n));
    assert(r@ =~= s@.insert(at as int, c));
    r
}

/// `s` without the character at position `at`.
pub fn remove_char(s: &str, at: usize) -> (r: String)
    requires
        at < s@.len(),
    ensures
        r@ == s@.remove(at as int),
{
    let n = char_len(s);
    let mut r = String::from_str(s.substring_char(0, at));
    r.append(s.substring_char(at + 1, n));
    assert(r@ =~= s@.remove(at as int));
    r
}

/// `s` without its first `n` characters.
pub fn skip_chars(s: &str, n: usize) -> (r: String)
    requires
        n <= s@.len(),
    ensures
        r@ == s@.skip(n as int),
{
    let len = char_len(s);
    String::from_str(s.substring_char(n, len))
}

/// A string that holds the single character `c`.
pub fn char_string(c: char) -> (r: String)
    ensures
        r@ == seq![c],
{
    let mut r = String::new();
    r.push(c);
    assert(r@ =~= seq![c]);
    r
}

} // verus!
