use vstd::prelude::*;
use vstd::string::*;
use vstd::std_specs::iter::IteratorSpec;
use crate::model::{is_blank, next_blank, next_blank_or_quote, next_nonblank, next_quote};

verus! {

/// Finds `next_nonblank(cs@, i)`.
pub fn find_nonblank(cs: &Vec<char>, i: usize) -> (r: usize)
    requires
        i <= cs@.len(),
    ensures
        r as int == next_nonblank(cs@, i as int),
        i <= r <= cs@.len(),
{
    let mut j: usize = i;
    while j < cs.len() && is_blank_char(cs[j])
        invariant
            i <= j <= cs@.len(),
            next_nonblank(cs@, j as int) == next_nonblank(cs@, i as int),
        decreases cs.len() - j,
    {
        j = j + 1;
    }
    j
}

/// Finds `next_blank(cs@, i)`.
pub fn find_blank(cs: &Vec<char>, i: usize) -> (r: usize)
    requires
        i <= cs@.len(),
    ensures
        r as int == next_blank(cs@, i as int),
        i <= r <= cs@.len(),
{
    let mut j: usize = i;
    while j < cs.len() && !is_blank_char(cs[j])
        invariant
            i <= j <= cs@.len(),
            next_blank(cs@, j as int) == next_blank(cs@, i as int),
        decreases cs.len() - j,
    {
        j = j + 1;
    }
    j
}

/// Finds `next_blank_or_quote(cs@, i)`.
pub fn find_blank_or_quote(cs: &Vec<char>, i: usize) -> (r: usize)
    requires
        i <= cs@.len(),
    ensures
        r as int == next_blank_or_quote(cs@, i as int),
        i <= r <= cs@.len(),
{
    let mut j: usize = i;
    while j < cs.len() && !is_blank_char(cs[j]) && cs[j] != '\''
        invariant
            i <= j <= cs@.len(),
            next_blank_or_quote(cs@, j as int) == next_blank_or_quote(cs@, i as int),
        decreases cs.len() - j,
    {
        j = j + 1;
    }
    j
}

/// Finds `next_quote(cs@, i)`.
pub fn find_quote(cs: &Vec<char>, i: usize) -> (r: usize)
    requires
        i <= cs@.len(),
    ensures
        r as int == next_quote(cs@, i as int),
        i <= r <= cs@.len(),
{
    let mut j: usize = i;
    while j < cs.len() && cs[j] != '\''
        invariant
            i <= j <= cs@.len(),
            next_quote(cs@, j as int) == next_quote(cs@, i as int),
        decreases cs.len() - j,
    {
        j = j + 1;
    }
    j
}

/// Whether `c` is a blank (Unicode white space).
pub fn is_blank_char(c: char) -> (r: bool)
    ensures
        r == is_blank(c),
{
    ('\u{9}' <= c && c <= '\u{d}') || c == ' ' || c == '\u{85}' || c == '\u{a0}'
        || c == '\u{1680}' || ('\u{2000}' <= c && c <= '\u{200a}') || c == '\u{2028}'
        || c == '\u{2029}' || c == '\u{202f}' || c == '\u{205f}' || c == '\u{3000}'
}

/// The characters of `line`, read in one pass.
pub fn chars_of(line: &str) -> (r: Vec<char>)
    ensures
        r@ == line@,
{
    broadcast use axiom_spec_iter, next_postcondition;
    let mut v: Vec<char> = Vec::new();
    let mut it = line.chars();
    loop
        invariant
            line@ == v@ + it.remaining(),
            it.decrease() is Some,
        ensures
            v@ == line@,
        decreases it.decrease()->0,
    {
        match it.next() {
            Some(c) => {
                v.push(c);
            },
            None => {
                assert(v@ + it.remaining() =~= v@);
                break;
            },
        }
    }
    v
}

} // verus!
