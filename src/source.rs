use vstd::prelude::*;
use vstd::string::*;
use crate::entry::{parse_line, Entry};
use crate::model::{entry_of, is_blank, next_nonblank, EntryView};

verus! {

/// The position just past the last non-blank before `j`, or 0.
pub open spec fn trailing_blanks_start(s: Seq<char>, j: int) -> int
    decreases j,
{
    if 0 < j <= s.len() && is_blank(s[j - 1]) {
        trailing_blanks_start(s, j - 1)
    } else {
        j
    }
}

/// A line without its leading and trailing blanks.
pub open spec fn trimmed_of(s: Seq<char>) -> Seq<char> {
    let b = next_nonblank(s, 0);
    if b >= s.len() {
        Seq::empty()
    } else {
        s.subrange(b, trailing_blanks_start(s, s.len() as int))
    }
}

/// Relies on `str::trim`: it removes the leading and trailing characters
/// that have the Unicode White_Space property.
#[verifier::external_body]
fn trim_white_space(s: &str) -> (r: &str)
    ensures
        r@ == trimmed_of(s@),
{
    s.trim()
}

/// A trimmed configuration line carries no directive when it is empty or a
/// comment.
pub open spec fn is_skipped(t: Seq<char>) -> bool {
    t.len() == 0 || t[0] == '#'
}

/// The entry that a trimmed configuration line gives, if any.
pub open spec fn entry_of_trimmed(t: Seq<char>) -> Option<EntryView> {
    if is_skipped(t) {
        None
    } else {
        Some(entry_of(t))
    }
}

/// The view of an optional entry.
pub open spec fn entry_view_of(o: Option<Entry>) -> Option<EntryView> {
    match o {
        Some(e) => Some(e@),
        None => None,
    }
}

/// Parses an already trimmed configuration line, skipping blank lines and
/// comments.
pub fn entry_from_trimmed(t: &str) -> (r: Option<Entry>)
    ensures
        entry_view_of(r) == entry_of_trimmed(t@),
{
    let len = t.unicode_len();
    if len == 0 || t.get_char(0) == '#' {
        None
    } else {
        Some(parse_line(t))
    }
}

/// Parses one raw configuration line: surrounding white space is removed,
/// and blank lines and comments give no entry.
pub fn entry_from_config_line(line: &str) -> (r: Option<Entry>)
    ensures
        entry_view_of(r) == entry_of_trimmed(trimmed_of(line@)),
{
    entry_from_trimmed(trim_white_space(line))
}

} // verus!
