//! Byte-level scanning helpers shared by the line assembler and the command
//! parser: locating a byte within a slice and classifying whitespace.

use vstd::prelude::*;

verus! {

/// Whether `b` is an ASCII whitespace byte (space, tab, newline, form feed,
/// carriage return), as trimmed from the ends of a command line.
pub open spec fn is_ascii_ws(b: u8) -> bool {
    b == (' ' as u8) || b == ('\t' as u8) || b == ('\n' as u8) || b == 12 || b == ('\r' as u8)
}

/// Executable counterpart of [`is_ascii_ws`].
pub fn is_ascii_ws_byte(b: u8) -> (r: bool)
    ensures
        r == is_ascii_ws(b),
{
    b == (' ' as u8) || b == ('\t' as u8) || b == ('\n' as u8) || b == 12 || b == ('\r' as u8)
}

/// Whether `b` occurs in `s` within the index range `[from, to)`.
pub open spec fn contains_byte_in(s: Seq<u8>, from: int, to: int, b: u8) -> bool {
    exists|i: int| from <= i < to && s[i] == b
}

/// Whether `b` occurs anywhere in `s`.
pub open spec fn contains_byte(s: Seq<u8>, b: u8) -> bool {
    contains_byte_in(s, 0, s.len() as int, b)
}

/// A byte that occurs at `i`, and nowhere before `i`, is what
/// `index_of_first` returns.
pub proof fn lemma_first_index(s: Seq<u8>, b: u8, i: int)
    requires
        0 <= i < s.len(),
        s[i] == b,
        forall|k: int| 0 <= k < i ==> s[k] != b,
    ensures
        s.index_of_first(b) == Some(i),
{
    s.index_of_first_ensures(b);
    assert(s.contains(b));
}

/// A byte that occurs nowhere in `s` has no first index.
pub proof fn lemma_no_index(s: Seq<u8>, b: u8)
    requires
        forall|k: int| 0 <= k < s.len() ==> s[k] != b,
    ensures
        s.index_of_first(b) is None,
{
    s.index_of_first_ensures(b);
    if s.contains(b) {
        let i = choose|i: int| 0 <= i < s.len() && s[i] == b;
        assert(s[i] == b);
    }
}

/// Finds the first occurrence of `b` in `s[from..to]`, scanning forward.
pub fn find_byte_in(s: &[u8], from: usize, to: usize, b: u8) -> (r: Option<usize>)
    requires
        from <= to <= s@.len(),
    ensures
        match r {
            Some(i) => from <= i < to && s@[i as int] == b && forall|k: int|
                from <= k < i ==> s@[k] != b,
            None => !contains_byte_in(s@, from as int, to as int, b),
        },
{
    let mut i = from;
    while i < to
        invariant
            from <= i <= to <= s@.len(),
            forall|k: int| from <= k < i ==> s@[k] != b,
        decreases to - i,
    {
        if s[i] == b {
            return Some(i);
        }
        i += 1;
    }
    None
}

/// Finds the last occurrence of `b` in `s[..to]`, scanning backward.
pub fn rfind_byte_in(s: &[u8], to: usize, b: u8) -> (r: Option<usize>)
    requires
        to <= s@.len(),
    ensures
        match r {
            Some(i) => i < to && s@[i as int] == b && forall|k: int| i < k < to ==> s@[k] != b,
            None => !contains_byte_in(s@, 0, to as int, b),
        },
{
    let mut i = to;
    while i > 0
        invariant
            i <= to <= s@.len(),
            forall|k: int| i <= k < to ==> s@[k] != b,
        decreases i,
    {
        i -= 1;
        if s[i] == b {
            return Some(i);
        }
    }
    None
}

} // verus!
