//! Resetting a project: the confirmation answer and what is removed.

use vstd::prelude::*;
use crate::text::{is_space, is_space_char, lower_of, lowercase, text_eq, views};

verus! {

/// `s` without its leading white space.
pub open spec fn trim_front(s: Seq<char>) -> Seq<char>
    decreases s.len(),
{
    if s.len() > 0 && is_space_char(s[0]) {
        trim_front(s.subrange(1, s.len() as int))
    } else {
        s
    }
}

/// `s` without its trailing white space.
pub open spec fn trim_back(s: Seq<char>) -> Seq<char>
    decreases s.len(),
{
    if s.len() > 0 && is_space_char(s.last()) {
        trim_back(s.drop_last())
    } else {
        s
    }
}

/// `s` without leading and trailing white space.
pub open spec fn trimmed(s: Seq<char>) -> Seq<char> {
    trim_back(trim_front(s))
}

/// `s` without leading and trailing white space.
pub fn trim_text(s: &str) -> (r: String)
    ensures
        r@ == trimmed(s@),
{
    let n = s.unicode_len();
    let mut i: usize = 0;
    assert(s@.subrange(0, n as int) =~= s@);
    while i < n && is_space(s.get_char(i))
        invariant
            n == s@.len(),
            i <= n,
            trim_front(s@) == trim_front(s@.subrange(i as int, n as int)),
        decreases n - i,
    {
        assert(s@.subrange(i as int, n as int).subrange(1, n - i) =~= s@.subrange(i + 1, n as int));
        i = i + 1;
    }
    proof {
        if i < n {
            assert(s@.subrange(i as int, n as int)[0] == s@[i as int]);
        }
    }
    assert(trim_front(s@.subrange(i as int, n as int)) == s@.subrange(i as int, n as int));
    let mut j: usize = n;
    while j > i && is_space(s.get_char(j - 1))
        invariant
            n == s@.len(),
            i <= j <= n,
            trimmed(s@) == trim_back(s@.subrange(i as int, j as int)),
        decreases j,
    {
        assert(s@.subrange(i as int, j as int).drop_last() =~= s@.subrange(i as int, j - 1));
        j = j - 1;
    }
    proof {
        if j > i {
            assert(s@.subrange(i as int, j as int).last() == s@[j - 1]);
        }
    }
    assert(trim_back(s@.subrange(i as int, j as int)) == s@.subrange(i as int, j as int));
    String::from_str(s.substring_char(i, j))
}

/// The answer, trimmed and lower-cased, is `y` or `yes`.
pub open spec fn is_yes_word(l: Seq<char>) -> bool {
    l == "y"@ || l == "yes"@
}

/// Whether an already trimmed and lower-cased answer agrees.
pub fn is_yes(l: &str) -> (r: bool)
    ensures
        r == is_yes_word(l@),
{
    text_eq(l, "y") || text_eq(l, "yes")
}

/// Whether the answer to the reset question agrees: `y` or `yes` in any
/// letter case, surrounding white space ignored.
pub fn reset_confirmed(answer: &str) -> (r: bool)
    ensures
        r == is_yes_word(lower_of(trimmed(answer@))),
{
    let t = trim_text(answer);
    let l = lowercase(t.as_str());
    is_yes(l.as_str())
}

/// The directories a reset removes before the rest of `.fargin`.
pub open spec fn reset_dirs() -> Seq<Seq<char>> {
    seq![".fargin/prompts"@, ".fargin/history"@, ".fargin/templates"@]
}

/// The directories a reset removes before the rest of `.fargin`.
pub fn reset_directories() -> (r: Vec<String>)
    ensures
        views(r@) == reset_dirs(),
{
    let mut r: Vec<String> = Vec::new();
    r.push(String::from_str(".fargin/prompts"));
    r.push(String::from_str(".fargin/history"));
    r.push(String::from_str(".fargin/templates"));
    assert(views(r@) =~= reset_dirs());
    r
}

} // verus!
