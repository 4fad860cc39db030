use vstd::prelude::*;
use crate::entry::Entry;
use crate::model::{
    age_field, entry_of, field_at, group_field, is_placeholder, next_quote, path_at, path_of_line,
    path_start, user_field, is_blank, is_quote, line_type_of, mode_field, modifier_of, next_blank,
    next_blank_or_quote, next_nonblank,
};
use crate::octal::{is_octal_digit, octal_digits};
use crate::source::{entry_of_trimmed, trailing_blanks_start, trimmed_of};

verus! {

/// `next_blank` passes over a stretch without blanks.
proof fn lemma_next_blank_skips(s: Seq<char>, i: int, j: int)
    requires
        0 <= i <= j <= s.len(),
        forall|k: int| i <= k < j ==> !is_blank(#[trigger] s[k]),
    ensures
        next_blank(s, i) == next_blank(s, j),
    decreases j - i,
{
    if i < j {
        lemma_next_blank_skips(s, i + 1, j);
    }
}

/// `next_nonblank` passes over a stretch of blanks.
proof fn lemma_next_nonblank_skips(s: Seq<char>, i: int, j: int)
    requires
        0 <= i <= j <= s.len(),
        forall|k: int| i <= k < j ==> is_blank(#[trigger] s[k]),
    ensures
        next_nonblank(s, i) == next_nonblank(s, j),
    decreases j - i,
{
    if i < j {
        lemma_next_nonblank_skips(s, i + 1, j);
    }
}

/// `next_blank_or_quote` passes over a stretch without blanks or quotes.
proof fn lemma_next_blank_or_quote_skips(s: Seq<char>, i: int, j: int)
    requires
        0 <= i <= j <= s.len(),
        forall|k: int| i <= k < j ==> !is_blank(#[trigger] s[k]) && !is_quote(s[k]),
    ensures
        next_blank_or_quote(s, i) == next_blank_or_quote(s, j),
    decreases j - i,
{
    if i < j {
        lemma_next_blank_or_quote_skips(s, i + 1, j);
    }
}

/// Every position from `i` up to `next_blank(s, i)` holds a non-blank.
proof fn lemma_next_blank_range(s: Seq<char>, i: int)
    requires
        0 <= i <= s.len(),
    ensures
        i <= next_blank(s, i) <= s.len(),
        forall|k: int| i <= k < next_blank(s, i) ==> !is_blank(#[trigger] s[k]),
    decreases s.len() - i,
{
    if i < s.len() && !is_blank(s[i]) {
        lemma_next_blank_range(s, i + 1);
    }
}

/// `next_nonblank` stays within the line.
proof fn lemma_next_nonblank_range(s: Seq<char>, i: int)
    requires
        0 <= i <= s.len(),
    ensures
        i <= next_nonblank(s, i) <= s.len(),
        next_nonblank(s, i) < s.len() ==> !is_blank(s[next_nonblank(s, i)]),
    decreases s.len() - i,
{
    if i < s.len() && is_blank(s[i]) {
        lemma_next_nonblank_range(s, i + 1);
    }
}

/// `next_blank_or_quote` does not go back.
proof fn lemma_next_blank_or_quote_range(s: Seq<char>, i: int)
    requires
        0 <= i <= s.len(),
    ensures
        i <= next_blank_or_quote(s, i) <= s.len(),
    decreases s.len() - i,
{
    if i < s.len() && !is_blank(s[i]) && !is_quote(s[i]) {
        lemma_next_blank_or_quote_range(s, i + 1);
    }
}

/// `next_quote` does not go back.
proof fn lemma_next_quote_range(s: Seq<char>, i: int)
    requires
        0 <= i <= s.len(),
    ensures
        i <= next_quote(s, i) <= s.len(),
    decreases s.len() - i,
{
    if i < s.len() && !is_quote(s[i]) {
        lemma_next_quote_range(s, i + 1);
    }
}

/// The field after the path starts within the line.
proof fn lemma_path_next(s: Seq<char>)
    ensures
        path_of_line(s).1 matches Some(n) ==> 0 <= n <= s.len(),
{
    if s.len() > 0 {
        lemma_next_blank_range(s, 1);
    }
    if let Some(i) = path_start(s) {
        lemma_next_nonblank_range(s, i);
        let q = next_nonblank(s, i);
        lemma_next_blank_or_quote_range(s, q);
        let j = next_blank_or_quote(s, q);
        if j < s.len() {
            lemma_next_quote_range(s, j + 1);
        }
    }
}

/// A value that a blank-delimited field holds is never the placeholder: it
/// is not empty, does not start with `-`, and holds no blank; and the next
/// field starts within the line.
proof fn lemma_field_value(s: Seq<char>, i: int)
    requires
        0 <= i <= s.len(),
    ensures
        field_at(s, i).0 matches Some(v) ==> stored_field(v),
        field_at(s, i).1 matches Some(n) ==> 0 <= n <= s.len(),
{
    lemma_next_nonblank_range(s, i);
    let q = next_nonblank(s, i);
    if q < s.len() && !is_placeholder(s[q]) {
        lemma_next_blank_range(s, q);
        let e = next_blank(s, q);
        if e < s.len() {
            let v = s.subrange(q, e);
            assert(e == next_blank(s, q + 1));
            lemma_next_blank_range(s, q + 1);
            assert(v[0] == s[q]);
            assert forall|k: int| 0 <= k < v.len() implies !is_blank(#[trigger] v[k]) by {
                assert(v[k] == s[q + k]);
            }
        }
    }
}

/// What a stored owner, group or age looks like.
pub open spec fn stored_field(v: Seq<char>) -> bool {
    &&& v.len() > 0
    &&& !is_placeholder(v[0])
    &&& forall|k: int| 0 <= k < v.len() ==> !is_blank(#[trigger] v[k])
}

/// The placeholder is never stored: an owner, group or age that a line
/// gives is a non-empty run of non-blank characters that does not start
/// with `-`.
pub proof fn lemma_placeholder_never_stored(line: Seq<char>)
    ensures
        entry_of(line).user matches Some(v) ==> stored_field(v),
        entry_of(line).group matches Some(v) ==> stored_field(v),
        entry_of(line).age matches Some(v) ==> stored_field(v),
{
    lemma_path_next(line);
    if let Some(i) = path_of_line(line).1 {
        lemma_field_value(line, i);
    }
    if let Some(i) = mode_field(line).1 {
        lemma_field_value(line, i);
    }
    if let Some(i) = user_field(line).1 {
        lemma_field_value(line, i);
    }
    if let Some(i) = group_field(line).1 {
        lemma_field_value(line, i);
    }
}

/// Parsing is deterministic: two entries parsed from the same line are equal
/// field for field.
pub proof fn lemma_parse_deterministic(line: Seq<char>, a: Entry, b: Entry)
    requires
        a@ == entry_of(line),
        b@ == entry_of(line),
    ensures
        a@ == b@,
{
}

/// A line made only of a kind character, modifiers, blanks and an unquoted
/// path gives that path as written, and leaves every later field empty.
pub proof fn lemma_path_flush(kind: char, modifiers: Seq<char>, gap: Seq<char>, path: Seq<char>)
    requires
        forall|i: int| 0 <= i < modifiers.len() ==> !is_blank(#[trigger] modifiers[i]),
        gap.len() > 0,
        forall|i: int| 0 <= i < gap.len() ==> is_blank(#[trigger] gap[i]),
        path.len() > 0,
        forall|i: int| 0 <= i < path.len() ==> !is_blank(#[trigger] path[i]) && !is_quote(path[i]),
    ensures
        ({
            let e = entry_of(seq![kind] + modifiers + gap + path);
            &&& e.line_type == line_type_of(kind)
            &&& e.modifiers == modifiers.map_values(|c: char| modifier_of(c))
            &&& e.path == path
            &&& e.mode is None
            &&& e.user is None
            &&& e.group is None
            &&& e.age is None
            &&& e.argument is None
        }),
{
    let s = seq![kind] + modifiers + gap + path;
    let m: int = 1 + modifiers.len() as int;
    let q: int = m + gap.len();
    assert forall|k: int| 1 <= k < m implies !is_blank(#[trigger] s[k]) by {
        assert(s[k] == modifiers[k - 1]);
    }
    lemma_next_blank_skips(s, 1, m);
    assert(s[m] == gap[0]);
    assert(next_blank(s, 1) == m);
    assert forall|k: int| m + 1 <= k < q implies is_blank(#[trigger] s[k]) by {
        assert(s[k] == gap[k - m]);
    }
    lemma_next_nonblank_skips(s, m + 1, q);
    assert(s[q] == path[0]);
    assert(next_nonblank(s, m + 1) == q);
    assert forall|k: int| q <= k < s.len() implies !is_blank(#[trigger] s[k]) && !is_quote(s[k]) by {
        assert(s[k] == path[k - q]);
    }
    lemma_next_blank_or_quote_skips(s, q, s.len() as int);
    assert(s.subrange(q, s.len() as int) =~= path);
    assert(s.subrange(1, m) =~= modifiers);
}

/// A mode token holding a character that is not an octal digit (other than a
/// leading `+`) gives no mode: the line still parses, with the mode empty.
pub proof fn lemma_invalid_octal_mode_absent(line: Seq<char>, i: int)
    requires
        mode_field(line).0 matches Some(t) && 0 <= i < t.len() && !is_octal_digit(t[i])
            && !(i == 0 && t[i] == '+'),
    ensures
        entry_of(line).mode is None,
{
    let t = mode_field(line).0->0;
    let d = octal_digits(t);
    if t.len() > 0 && t[0] == '+' {
        assert(d[i - 1] == t[i]);
    } else {
        assert(d[i] == t[i]);
    }
}

/// `trailing_blanks_start` passes back over a stretch of blanks.
proof fn lemma_trailing_blanks_skip(s: Seq<char>, i: int, j: int)
    requires
        0 <= i <= j <= s.len(),
        forall|k: int| i <= k < j ==> is_blank(#[trigger] s[k]),
    ensures
        trailing_blanks_start(s, j) == trailing_blanks_start(s, i),
    decreases j - i,
{
    if i < j {
        lemma_trailing_blanks_skip(s, i, j - 1);
    }
}

/// White space around a configuration line does not change the entry it
/// gives, and a line of white space alone gives none.
pub proof fn lemma_padding_ignored(before: Seq<char>, text: Seq<char>, after: Seq<char>)
    requires
        forall|i: int| 0 <= i < before.len() ==> is_blank(#[trigger] before[i]),
        forall|i: int| 0 <= i < after.len() ==> is_blank(#[trigger] after[i]),
        text.len() == 0 || (!is_blank(text[0]) && !is_blank(text.last())),
    ensures
        trimmed_of(before + text + after) == text,
        entry_of_trimmed(trimmed_of(before + text + after)) == entry_of_trimmed(text),
        text.len() == 0 ==> entry_of_trimmed(trimmed_of(before + text + after)) is None,
{
    let s = before + text + after;
    let b: int = before.len() as int;
    let e: int = b + text.len();
    assert forall|k: int| 0 <= k < b implies is_blank(#[trigger] s[k]) by {
        assert(s[k] == before[k]);
    }
    assert forall|k: int| e <= k < s.len() implies is_blank(#[trigger] s[k]) by {
        assert(s[k] == after[k - e]);
    }
    if text.len() == 0 {
        lemma_next_nonblank_skips(s, 0, s.len() as int);
        assert(text =~= Seq::<char>::empty());
    } else {
        lemma_next_nonblank_skips(s, 0, b);
        assert(s[b] == text[0]);
        assert(next_nonblank(s, 0) == b);
        lemma_trailing_blanks_skip(s, e, s.len() as int);
        assert(s[e - 1] == text.last());
        assert(trailing_blanks_start(s, e) == e);
        assert(s.subrange(b, e) =~= text);
    }
}

/// The modifiers are the characters between the kind character and the
/// first blank, in order and with duplicates kept.
pub proof fn lemma_modifiers_up_to_blank(kind: char, modifiers: Seq<char>, rest: Seq<char>)
    requires
        forall|i: int| 0 <= i < modifiers.len() ==> !is_blank(#[trigger] modifiers[i]),
        rest.len() == 0 || is_blank(rest[0]),
    ensures
        entry_of(seq![kind] + modifiers + rest).modifiers
            == modifiers.map_values(|c: char| modifier_of(c)),
        entry_of(seq![kind] + modifiers + rest).line_type == line_type_of(kind),
{
    let s = seq![kind] + modifiers + rest;
    let m: int = 1 + modifiers.len() as int;
    assert forall|k: int| 1 <= k < m implies !is_blank(#[trigger] s[k]) by {
        assert(s[k] == modifiers[k - 1]);
    }
    lemma_next_blank_skips(s, 1, m);
    if rest.len() > 0 {
        assert(s[m] == rest[0]);
    }
    assert(next_blank(s, 1) == m);
    assert(s.subrange(1, m) =~= modifiers);
}

} // verus!
