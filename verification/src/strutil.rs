//! Verified text helpers for the command protocol: prefix tests, tails by
//! character index, the single-space split that argument parsing uses, and
//! the short identity suffix that aliases are keyed by.

use vstd::prelude::*;
use vstd::string::*;

verus! {

/// `p` is a prefix of `s`.
pub open spec fn spec_starts_with(s: Seq<char>, p: Seq<char>) -> bool {
    p.len() <= s.len() && s.subrange(0, p.len() as int) == p
}

/// How many spaces `s` holds.
pub open spec fn space_count(s: Seq<char>) -> nat
    decreases s.len(),
{
    if s.len() == 0 {
        0
    } else {
        space_count(s.drop_last()) + if s.last() == ' ' {
            1nat
        } else {
            0nat
        }
    }
}

/// `s` holds exactly one space.
pub open spec fn spec_one_space(s: Seq<char>) -> bool {
    space_count(s) == 1
}

/// The position of a space in `s`; with `spec_one_space(s)` it is the only
/// one, so it is well defined.
pub open spec fn space_index(s: Seq<char>) -> int {
    choose|i: int| 0 <= i < s.len() && s[i] == ' '
}

/// What stands after the single space of `s`.
pub open spec fn spec_arg(s: Seq<char>) -> Seq<char> {
    s.subrange(space_index(s) + 1, s.len() as int)
}

/// The short tail of an identity that aliases are keyed by: its last four
/// characters, or the whole identity when it is shorter.
pub open spec fn spec_suffix(id: Seq<char>) -> Seq<char> {
    if id.len() >= 4 {
        id.subrange(id.len() - 4, id.len() as int)
    } else {
        id
    }
}

/// Whether `p` is a prefix of `s`, decided character by character.
pub fn starts_with_str(s: &str, p: &str) -> (r: bool)
    ensures
        r == spec_starts_with(s@, p@),
{
    let n = s.unicode_len();
    let m = p.unicode_len();
    if m > n {
        return false;
    }
    let mut i: usize = 0;
    while i < m
        invariant
            i <= m <= n,
            n == s@.len(),
            m == p@.len(),
            forall|j: int| 0 <= j < i ==> s@[j] == p@[j],
        decreases m - i,
    {
        if s.get_char(i) != p.get_char(i) {
            assert(s@.subrange(0, m as int)[i as int] == s@[i as int]);
            return false;
        }
        i += 1;
    }
    assert(s@.subrange(0, m as int) =~= p@);
    true
}

/// The characters of `s` from position `k` on, as a fresh string.
pub fn string_tail(s: &str, k: usize) -> (r: String)
    requires
        k <= s@.len(),
    ensures
        r@ == s@.subrange(k as int, s@.len() as int),
{
    let n = s.unicode_len();
    s.substring_char(k, n).to_owned()
}

/// Splits `s` at its space when it holds exactly one, and refuses any other
/// count, as the command grammar asks.
pub fn split_once_space(s: &str) -> (r: Option<(String, String)>)
    ensures
        match r {
            Some(parts) => {
                &&& spec_one_space(s@)
                &&& parts.0@ == s@.subrange(0, space_index(s@))
                &&& parts.1@ == spec_arg(s@)
            },
            None => !spec_one_space(s@),
        },
{
    let n = s.unicode_len();
    let mut i: usize = 0;
    let mut count: usize = 0;
    let mut first: usize = 0;
    while i < n
        invariant
            i <= n,
            n == s@.len(),
            count <= i,
            count == space_count(s@.subrange(0, i as int)),
            count >= 1 ==> first < i && s@[first as int] == ' ',
            count == 1 ==> forall|j: int| 0 <= j < i && j != first ==> s@[j] != ' ',
            count == 0 ==> forall|j: int| 0 <= j < i ==> s@[j] != ' ',
        decreases n - i,
    {
        proof {
            assert(s@.subrange(0, i + 1).drop_last() =~= s@.subrange(0, i as int));
            assert(s@.subrange(0, i + 1).last() == s@[i as int]);
        }
        if s.get_char(i) == ' ' {
            if count == 0 {
                first = i;
            }
            count += 1;
        }
        i += 1;
    }
    proof {
        assert(s@.subrange(0, n as int) =~= s@);
    }
    if count == 1 {
        proof {
            assert(s@[first as int] == ' ');
            let k = space_index(s@);
            assert(0 <= k < s@.len() && s@[k] == ' ');
            assert(k == first);
        }
        let before = s.substring_char(0, first).to_owned();
        let after = s.substring_char(first + 1, n).to_owned();
        Some((before, after))
    } else {
        None
    }
}

/// The short identity suffix used as the alias key.
pub fn suffix_of(id: &str) -> (r: String)
    ensures
        r@ == spec_suffix(id@),
{
    let n = id.unicode_len();
    if n >= 4 {
        id.substring_char(n - 4, n).to_owned()
    } else {
        id.to_owned()
    }
}

} // verus!
