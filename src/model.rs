//! The grammar of a directive line, as spec functions over its characters.
//!
//! Fields are separated by runs of blanks (Unicode white space). The first
//! character is the kind, the characters up to the first blank are
//! modifiers, then come the path, mode, owner, group and age, and the rest of
//! the line is the argument.

use vstd::prelude::*;

verus! {

/// The kind of a directive, taken from the first character of its line.
#[derive(Debug, Clone, Copy, PartialEq, Eq, Structural)]
pub enum LineType {
    /// `d`: create the directory and clean it up by age.
    DirectoryCreateAndClean,
    /// `D`: create the directory and remove its contents at boot.
    DirectoryCreateAndRemove,
    /// Any other kind character, kept as it was written.
    Unsupported(char),
}

/// A flag written right after the kind character.
#[derive(Debug, Clone, Copy, PartialEq, Eq, Structural)]
pub enum Modifier {
    /// `!`: only apply the line during boot.
    OnlySafeDuringBoot,
    /// `-`: ignore errors while creating the path.
    IgnoreCreateError,
    /// `=`: remove an existing path of another type first.
    RemoveExisting,
    /// `^`: the argument is base64-encoded.
    Base64EncodedArgument,
    /// Any other modifier character, kept as it was written.
    Unsupported(char),
}

/// The mathematical value of a parsed line.
pub struct EntryView {
    pub line_type: LineType,
    pub modifiers: Seq<Modifier>,
    pub path: Seq<char>,
    pub mode: Option<u32>,
    pub user: Option<Seq<char>>,
    pub group: Option<Seq<char>>,
    pub age: Option<Seq<char>>,
    pub argument: Option<Seq<char>>,
}

/// Characters that separate the fields of a line: Unicode White_Space, the
/// set that `char::is_whitespace` and `str::trim` use.
pub open spec fn is_blank(c: char) -> bool {
    ('\u{9}' <= c && c <= '\u{d}') || c == ' ' || c == '\u{85}' || c == '\u{a0}'
        || c == '\u{1680}' || ('\u{2000}' <= c && c <= '\u{200a}') || c == '\u{2028}'
        || c == '\u{2029}' || c == '\u{202f}' || c == '\u{205f}' || c == '\u{3000}'
}

/// The placeholder that stands for an omitted field.
pub open spec fn is_placeholder(c: char) -> bool {
    c == '-'
}

pub open spec fn is_quote(c: char) -> bool {
    c == '\''
}

pub open spec fn line_type_of(c: char) -> LineType {
    if c == 'd' {
        LineType::DirectoryCreateAndClean
    } else if c == 'D' {
        LineType::DirectoryCreateAndRemove
    } else {
        LineType::Unsupported(c)
    }
}

pub open spec fn modifier_of(c: char) -> Modifier {
    if c == '!' {
        Modifier::OnlySafeDuringBoot
    } else if c == '-' {
        Modifier::IgnoreCreateError
    } else if c == '=' {
        Modifier::RemoveExisting
    } else if c == '^' {
        Modifier::Base64EncodedArgument
    } else {
        Modifier::Unsupported(c)
    }
}

/// The first position at or after `i` that does not hold a blank, or the end.
pub open spec fn next_nonblank(s: Seq<char>, i: int) -> int
    decreases s.len() - i,
{
    if 0 <= i < s.len() && is_blank(s[i]) {
        next_nonblank(s, i + 1)
    } else {
        i
    }
}

/// The first position at or after `i` that holds a blank, or the end.
pub open spec fn next_blank(s: Seq<char>, i: int) -> int
    decreases s.len() - i,
{
    if 0 <= i < s.len() && !is_blank(s[i]) {
        next_blank(s, i + 1)
    } else {
        i
    }
}

/// The first position at or after `i` that holds a blank or a quote, or the end.
pub open spec fn next_blank_or_quote(s: Seq<char>, i: int) -> int
    decreases s.len() - i,
{
    if 0 <= i < s.len() && !is_blank(s[i]) && !is_quote(s[i]) {
        next_blank_or_quote(s, i + 1)
    } else {
        i
    }
}

/// The first position at or after `i` that holds a quote, or the end.
pub open spec fn next_quote(s: Seq<char>, i: int) -> int
    decreases s.len() - i,
{
    if 0 <= i < s.len() && !is_quote(s[i]) {
        next_quote(s, i + 1)
    } else {
        i
    }
}

/// Where the path field starts: just past the blank that ends the
/// modifiers, or `None` when the line ends first.
pub open spec fn path_start(s: Seq<char>) -> Option<int> {
    if s.len() == 0 || next_blank(s, 1) >= s.len() {
        None
    } else {
        Some(next_blank(s, 1) + 1)
    }
}

/// The path read from position `i`, and where the next field starts
/// (`None` when the line ends inside the path).
///
/// Leading blanks are skipped. A quote met before the next blank opens a
/// quoted path: it starts right after that quote (whatever came before it is
/// dropped) and runs to the next quote. Otherwise the path runs to the next
/// blank. A path that the end of the line cuts off is kept up to the end.
pub open spec fn path_at(s: Seq<char>, i: int) -> (Seq<char>, Option<int>) {
    let q = next_nonblank(s, i);
    let j = next_blank_or_quote(s, q);
    if j >= s.len() {
        (s.subrange(q, s.len() as int), None)
    } else if is_quote(s[j]) {
        let k = next_quote(s, j + 1);
        if k >= s.len() {
            (s.subrange(j + 1, s.len() as int), None)
        } else {
            (s.subrange(j + 1, k), Some(k + 1))
        }
    } else {
        (s.subrange(q, j), Some(j + 1))
    }
}

/// A blank-delimited field read from position `i`, and where the next field
/// starts (`None` when the line ends before the field is closed).
///
/// A field that starts with the placeholder holds no value, and the next
/// field starts right after the placeholder.
pub open spec fn field_at(s: Seq<char>, i: int) -> (Option<Seq<char>>, Option<int>) {
    let q = next_nonblank(s, i);
    if q >= s.len() {
        (None, None)
    } else if is_placeholder(s[q]) {
        (None, Some(q + 1))
    } else {
        let e = next_blank(s, q);
        if e >= s.len() {
            (None, None)
        } else {
            (Some(s.subrange(q, e)), Some(e + 1))
        }
    }
}

/// `field_at` from an optional position: nothing is read past the end.
pub open spec fn field_from(s: Seq<char>, at: Option<int>) -> (Option<Seq<char>>, Option<int>) {
    match at {
        Some(i) => field_at(s, i),
        None => (None, None),
    }
}

/// The free-text argument: the rest of the line from its first non-blank
/// character, unless that character is the placeholder or the line ends.
pub open spec fn argument_from(s: Seq<char>, at: Option<int>) -> Option<Seq<char>> {
    match at {
        Some(i) => {
            let q = next_nonblank(s, i);
            if q < s.len() && !is_placeholder(s[q]) {
                Some(s.subrange(q, s.len() as int))
            } else {
                None
            }
        },
        None => None,
    }
}

pub open spec fn line_type_of_line(s: Seq<char>) -> LineType {
    if s.len() == 0 {
        LineType::Unsupported('-')
    } else {
        line_type_of(s[0])
    }
}

/// The modifiers: one for each character between the kind character and the
/// first blank.
pub open spec fn modifiers_of_line(s: Seq<char>) -> Seq<Modifier> {
    if s.len() == 0 {
        Seq::empty()
    } else {
        s.subrange(1, next_blank(s, 1)).map_values(|c: char| modifier_of(c))
    }
}

pub open spec fn path_of_line(s: Seq<char>) -> (Seq<char>, Option<int>) {
    match path_start(s) {
        Some(i) => path_at(s, i),
        None => (Seq::empty(), None),
    }
}

pub open spec fn mode_field(s: Seq<char>) -> (Option<Seq<char>>, Option<int>) {
    field_from(s, path_of_line(s).1)
}

pub open spec fn user_field(s: Seq<char>) -> (Option<Seq<char>>, Option<int>) {
    field_from(s, mode_field(s).1)
}

pub open spec fn group_field(s: Seq<char>) -> (Option<Seq<char>>, Option<int>) {
    field_from(s, user_field(s).1)
}

pub open spec fn age_field(s: Seq<char>) -> (Option<Seq<char>>, Option<int>) {
    field_from(s, group_field(s).1)
}

/// The value of a mode token: an octal number, or nothing when the token is
/// not one.
pub open spec fn mode_of_token(t: Option<Seq<char>>) -> Option<u32> {
    match t {
        Some(t) => crate::octal::octal_value(t),
        None => None,
    }
}

/// The entry that a line describes.
pub open spec fn entry_of(s: Seq<char>) -> EntryView {
    EntryView {
        line_type: line_type_of_line(s),
        modifiers: modifiers_of_line(s),
        path: path_of_line(s).0,
        mode: mode_of_token(mode_field(s).0),
        user: user_field(s).0,
        group: group_field(s).0,
        age: age_field(s).0,
        argument: argument_from(s, age_field(s).1),
    }
}

} // verus!
