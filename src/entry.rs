use vstd::prelude::*;
use vstd::string::*;
use crate::model::{
    argument_from, entry_of, field_from, line_type_of, mode_of_token, modifier_of, path_at,
    EntryView, LineType, Modifier,
};
use crate::mode::{mode_from_bits, mode_of};
use crate::octal::parse_octal;
use file_mode::Mode;
use crate::scan::{chars_of, find_blank, find_blank_or_quote, find_nonblank, find_quote};

verus! {

/// One parsed directive line.
#[derive(Debug)]
pub struct Entry {
    line_type: LineType,
    modifiers: Vec<Modifier>,
    path: String,
    mode: Option<u32>,
    user: Option<String>,
    group: Option<String>,
    age: Option<String>,
    argument: Option<String>,
}

/// The characters of an optional text field.
pub open spec fn text_view(o: Option<String>) -> Option<Seq<char>> {
    match o {
        Some(s) => Some(s@),
        None => None,
    }
}

/// An optional position as an integer.
pub open spec fn pos_view(o: Option<usize>) -> Option<int> {
    match o {
        Some(i) => Some(i as int),
        None => None,
    }
}

impl View for Entry {
    type V = EntryView;

    closed spec fn view(&self) -> EntryView {
        EntryView {
            line_type: self.line_type,
            modifiers: self.modifiers@,
            path: self.path@,
            mode: self.mode,
            user: text_view(self.user),
            group: text_view(self.group),
            age: text_view(self.age),
            argument: text_view(self.argument),
        }
    }
}

fn classify_line_type(c: char) -> (r: LineType)
    ensures
        r == line_type_of(c),
{
    if c == 'd' {
        LineType::DirectoryCreateAndClean
    } else if c == 'D' {
        LineType::DirectoryCreateAndRemove
    } else {
        LineType::Unsupported(c)
    }
}

fn classify_modifier(c: char) -> (r: Modifier)
    ensures
        r == modifier_of(c),
{
    if c == '!' {
        Modifier::OnlySafeDuringBoot
    } else if c == '-' {
        Modifier::IgnoreCreateError
    } else if c == '=' {
        Modifier::RemoveExisting
    } else if c == '^' {
        Modifier::Base64EncodedArgument
    } else {
        Modifier::Unsupported(c)
    }
}

/// The characters of `line` from `from` up to `to`, as a `String`.
fn text(line: &str, from: usize, to: usize) -> (r: String)
    requires
        from <= to <= line@.len(),
    ensures
        r@ == line@.subrange(from as int, to as int),
{
    line.substring_char(from, to).to_owned()
}

/// Reads the path field from position `i`.
fn read_path(line: &str, cs: &Vec<char>, i: usize) -> (r: (String, Option<usize>))
    requires
        cs@ == line@,
        i <= line@.len(),
    ensures
        r.0@ == path_at(line@, i as int).0,
        pos_view(r.1) == path_at(line@, i as int).1,
        r.1 matches Some(n) ==> n <= line@.len(),
{
    let len = cs.len();
    let q = find_nonblank(cs, i);
    let j = find_blank_or_quote(cs, q);
    if j >= len {
        (text(line, q, len), None)
    } else if cs[j] == '\'' {
        let k = find_quote(cs, j + 1);
        if k >= len {
            (text(line, j + 1, len), None)
        } else {
            (text(line, j + 1, k), Some(k + 1))
        }
    } else {
        (text(line, q, j), Some(j + 1))
    }
}

/// Reads a blank-delimited field from position `at`, if there is one.
fn read_field(line: &str, cs: &Vec<char>, at: Option<usize>) -> (r: (Option<String>, Option<usize>))
    requires
        cs@ == line@,
        at matches Some(i) ==> i <= line@.len(),
    ensures
        text_view(r.0) == field_from(line@, pos_view(at)).0,
        pos_view(r.1) == field_from(line@, pos_view(at)).1,
        r.1 matches Some(n) ==> n <= line@.len(),
{
    let len = cs.len();
    match at {
        None => (None, None),
        Some(i) => {
            let q = find_nonblank(cs, i);
            if q >= len {
                (None, None)
            } else if cs[q] == '-' {
                (None, Some(q + 1))
            } else {
                let e = find_blank(cs, q);
                if e >= len {
                    (None, None)
                } else {
                    (Some(text(line, q, e)), Some(e + 1))
                }
            }
        },
    }
}

/// Reads the free-text argument from position `at`, if there is one.
fn read_argument(line: &str, cs: &Vec<char>, at: Option<usize>) -> (r: Option<String>)
    requires
        cs@ == line@,
        at matches Some(i) ==> i <= line@.len(),
    ensures
        text_view(r) == argument_from(line@, pos_view(at)),
{
    let len = cs.len();
    match at {
        None => None,
        Some(i) => {
            let q = find_nonblank(cs, i);
            if q < len && cs[q] != '-' {
                Some(text(line, q, len))
            } else {
                None
            }
        },
    }
}

/// Reads the mode: the octal value of the mode token, if it has one.
fn read_mode(token: &Option<String>) -> (r: Option<u32>)
    ensures
        r == mode_of_token(text_view(*token)),
{
    match token {
        Some(t) => parse_octal(t.as_str()),
        None => None,
    }
}

/// Parses one directive line.
///
/// Parsing never fails: an unknown kind or modifier character is kept as an
/// unsupported value, and a field that is omitted, cut off by the end of the
/// line or (for the mode) not an octal number is left empty.
pub fn parse_line(line: &str) -> (r: Entry)
    ensures
        r@ == entry_of(line@),
{
    let cs = chars_of(line);
    let len = cs.len();
    if len == 0 {
        return Entry {
            line_type: LineType::Unsupported('-'),
            modifiers: Vec::new(),
            path: String::new(),
            mode: None,
            user: None,
            group: None,
            age: None,
            argument: None,
        };
    }
    let line_type = classify_line_type(cs[0]);
    let m = find_blank(&cs, 1);
    let mut modifiers: Vec<Modifier> = Vec::new();
    let mut j: usize = 1;
    while j < m
        invariant
            cs@ == line@,
            len == line@.len(),
            1 <= j <= m <= len,
            modifiers@ == line@.subrange(1, j as int).map_values(|c: char| modifier_of(c)),
        decreases m - j,
    {
        let c = cs[j];
        modifiers.push(classify_modifier(c));
        assert(line@.subrange(1, j + 1).map_values(|c: char| modifier_of(c))
            =~= line@.subrange(1, j as int).map_values(|c: char| modifier_of(c)).push(modifier_of(c)));
        j = j + 1;
    }
    let (path, after_path) = if m < len {
        read_path(line, &cs, m + 1)
    } else {
        (String::new(), None)
    };
    let (mode_token, after_mode) = read_field(line, &cs, after_path);
    let mode = read_mode(&mode_token);
    let (user, after_user) = read_field(line, &cs, after_mode);
    let (group, after_group) = read_field(line, &cs, after_user);
    let (age, after_age) = read_field(line, &cs, after_group);
    let argument = read_argument(line, &cs, after_age);
    let r = Entry { line_type, modifiers, path, mode, user, group, age, argument };
    assert(r@ =~= entry_of(line@));
    r
}

impl Entry {
    /// Parses one directive line; see [`parse_line`].
    pub fn from_str(string: &str) -> (r: Entry)
        ensures
            r@ == entry_of(string@),
    {
        parse_line(string)
    }

    /// Whether the entry asks for its directory to be created (and cleaned).
    pub fn creates_directory(&self) -> (r: bool)
        ensures
            r == (self@.line_type == LineType::DirectoryCreateAndClean),
    {
        match self.line_type {
            LineType::DirectoryCreateAndClean => true,
            _ => false,
        }
    }

    pub fn line_type(&self) -> (r: &LineType)
        ensures
            *r == self@.line_type,
    {
        &self.line_type
    }

    pub fn modifiers(&self) -> (r: &Vec<Modifier>)
        ensures
            r@ == self@.modifiers,
    {
        &self.modifiers
    }

    pub fn path(&self) -> (r: &String)
        ensures
            r@ == self@.path,
    {
        &self.path
    }

    /// The mode as the octal number that the line gave.
    pub fn mode_bits(&self) -> (r: Option<u32>)
        ensures
            r == self@.mode,
    {
        self.mode
    }

    /// The mode as a `file_mode::Mode`, built from [`Entry::mode_bits`].
    pub fn mode(&self) -> (r: Option<Mode>)
        ensures
            r is Some <==> self@.mode is Some,
            self@.mode matches Some(b) ==> r == Some(mode_of(b)),
    {
        match self.mode {
            Some(bits) => Some(mode_from_bits(bits)),
            None => None,
        }
    }

    pub fn user(&self) -> (r: &Option<String>)
        ensures
            text_view(*r) == self@.user,
    {
        &self.user
    }

    pub fn group(&self) -> (r: &Option<String>)
        ensures
            text_view(*r) == self@.group,
    {
        &self.group
    }

    pub fn age(&self) -> (r: &Option<String>)
        ensures
            text_view(*r) == self@.age,
    {
        &self.age
    }

    pub fn argument(&self) -> (r: &Option<String>)
        ensures
            text_view(*r) == self@.argument,
    {
        &self.argument
    }
}

} // verus!
