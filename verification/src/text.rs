//! Character-level helpers: the validity predicate for identifier text,
//! string equality, and locating the last occurrence of a separator.

use vstd::prelude::*;
use vstd::string::StrSliceExecFns;

verus! {

/// Whether a character may appear in an identifier: ASCII alphanumeric.
pub open spec fn is_id_char(c: char) -> bool {
    ('a' as u32 <= c as u32 && c as u32 <= 'z' as u32) || ('A' as u32 <= c as u32 && c as u32
        <= 'Z' as u32) || ('0' as u32 <= c as u32 && c as u32 <= '9' as u32)
}

/// A valid identifier is a non-empty sequence of ASCII alphanumeric
/// characters. The empty sequence is rejected by an explicit decision:
/// "every character is alphanumeric" would hold of it vacuously.
pub open spec fn valid_id_chars(s: Seq<char>) -> bool {
    s.len() > 0 && forall|i: int| 0 <= i < s.len() ==> is_id_char(#[trigger] s[i])
}

/// An identifier character is never one of the URI separators, so the id
/// segment of a well-formed URI cannot contain the separator that delimits
/// it.
pub proof fn lemma_id_chars_are_not_separators(s: Seq<char>)
    requires
        valid_id_chars(s),
    ensures
        forall|i: int| 0 <= i < s.len() ==> s[i] != ':' && s[i] != '/',
{
    assert forall|i: int| 0 <= i < s.len() implies s[i] != ':' && s[i] != '/' by {
        assert(is_id_char(s[i]));
        assert(':' as u32 == 58);
        assert('/' as u32 == 47);
    }
}

/// Whether `c` is an ASCII alphanumeric character.
pub fn is_id_char_exec(c: char) -> (r: bool)
    ensures
        r == is_id_char(c),
{
    let u = c as u32;
    ('a' as u32 <= u && u <= 'z' as u32) || ('A' as u32 <= u && u <= 'Z' as u32) || ('0' as u32 <= u
        && u <= '9' as u32)
}

/// Whether `s` is valid identifier text: non-empty and ASCII alphanumeric
/// throughout.
pub fn is_valid_id(s: &str) -> (r: bool)
    ensures
        r == valid_id_chars(s@),
{
    let n = s.unicode_len();
    if n == 0 {
        return false;
    }
    let mut i: usize = 0;
    while i < n
        invariant
            i <= n,
            n == s@.len(),
            forall|j: int| 0 <= j < i ==> is_id_char(#[trigger] s@[j]),
        decreases n - i,
    {
        if !is_id_char_exec(s.get_char(i)) {
            return false;
        }
        i += 1;
    }
    true
}

/// Whether two string slices hold the same characters.
pub fn str_eq(a: &str, b: &str) -> (r: bool)
    ensures
        r == (a@ == b@),
{
    let alen = a.unicode_len();
    let blen = b.unicode_len();
    if alen != blen {
        return false;
    }
    let mut i: usize = 0;
    while i < alen
        invariant
            i <= alen,
            alen == a@.len(),
            alen == b@.len(),
            forall|j: int| 0 <= j < i ==> a@[j] == b@[j],
        decreases alen - i,
    {
        if a.get_char(i) != b.get_char(i) {
            return false;
        }
        i += 1;
    }
    proof {
        assert(a@ =~= b@);
    }
    true
}

/// The index of the last occurrence of `c` in `s`, or `-1` if `c` does not
/// occur.
pub open spec fn last_index_of(s: Seq<char>, c: char) -> int
    decreases s.len(),
{
    if s.len() == 0 {
        -1
    } else if s[s.len() - 1] == c {
        s.len() - 1
    } else {
        last_index_of(s.drop_last(), c)
    }
}

/// If `c` occurs at `m` and nowhere later, then `m` is the last occurrence.
pub proof fn lemma_last_index_of_at(s: Seq<char>, c: char, m: int)
    requires
        0 <= m < s.len(),
        s[m] == c,
        forall|j: int| m < j < s.len() ==> s[j] != c,
    ensures
        last_index_of(s, c) == m,
    decreases s.len(),
{
    if m == s.len() - 1 {
    } else {
        assert(s[s.len() - 1] != c);
        assert(s.drop_last()[m] == c);
        lemma_last_index_of_at(s.drop_last(), c, m);
    }
}

/// If `c` occurs nowhere in `s`, there is no last occurrence.
pub proof fn lemma_last_index_of_none(s: Seq<char>, c: char)
    requires
        forall|j: int| 0 <= j < s.len() ==> s[j] != c,
    ensures
        last_index_of(s, c) == -1,
    decreases s.len(),
{
    if s.len() > 0 {
        lemma_last_index_of_none(s.drop_last(), c);
    }
}

} // verus!
