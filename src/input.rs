//! Cleaning up a line typed by the user.

use vstd::prelude::*;
use vstd::string::*;

verus! {

/// `s` without one trailing line feed, if it has one.
pub open spec fn without_lf(s: Seq<char>) -> Seq<char> {
    if s.len() > 0 && s.last() == '\n' {
        s.drop_last()
    } else {
        s
    }
}

/// `s` without one trailing carriage return, if it has one.
pub open spec fn without_cr(s: Seq<char>) -> Seq<char> {
    if s.len() > 0 && s.last() == '\r' {
        s.drop_last()
    } else {
        s
    }
}

/// A line as read from the terminal, without its line ending (`\n` or
/// `\r\n`).
pub fn trim_line_ending(line: &str) -> (r: String)
    ensures
        r@ == without_cr(without_lf(line@)),
{
    let mut n: usize = line.unicode_len();
    if n > 0 && line.get_char(n - 1) == '\n' {
        n = n - 1;
    }
    if n > 0 && line.get_char(n - 1) == '\r' {
        n = n - 1;
    }
    let r = String::from_str(line.substring_char(0, n));
    assert(r@ =~= without_cr(without_lf(line@)));
    r
}

} // verus!
