//! Text helpers for single-line display.

use vstd::prelude::*;

verus! {

/// The first line of `s`: what stands before its first line feed, or all of
/// `s` where it holds none.
pub open spec fn first_line(s: Seq<char>) -> Seq<char> {
    match s.index_of_first('\n') {
        Some(i) => s.take(i),
        None => s,
    }
}

/// The first line of `s`, cut to at most `max_chars` characters.
pub open spec fn truncated(s: Seq<char>, max_chars: nat) -> Seq<char> {
    let line = first_line(s);
    if line.len() <= max_chars {
        line
    } else {
        line.take(max_chars as int)
    }
}

/// A prefix of `s` that holds no line feed and ends at the end of `s`, at a
/// line feed, or at `max_chars` characters is the truncation of `s`.
pub proof fn truncated_is_bounded_prefix(s: Seq<char>, max_chars: nat, n: int)
    requires
        0 <= n <= s.len(),
        n <= max_chars,
        forall|j: int| 0 <= j < n ==> s[j] != '\n',
        n == max_chars || n == s.len() || s[n] == '\n',
    ensures
        truncated(s, max_chars) == s.take(n),
{
    s.index_of_first_ensures('\n');
    match s.index_of_first('\n') {
        Some(i) => {
            assert(n <= i);
            if n < i {
                assert(n == max_chars);
            }
            assert(s.take(i).take(n) =~= s.take(n));
        },
        None => {
            if n < s.len() {
                assert(s[n] != '\n');
            }
            assert(s.take(s.len() as int) =~= s);
            if n != s.len() {
                assert(n == max_chars);
            }
        },
    }
}

/// Cuts `s` to its first line and that line to at most `max_chars`
/// characters, always at a character boundary.
pub fn safe_truncate(s: &str, max_chars: usize) -> (r: &str)
    ensures
        r@ == truncated(s@, max_chars as nat),
        r@.len() <= max_chars,
        r@.len() <= s@.len(),
        r@ == s@.take(r@.len() as int),
        forall|j: int| 0 <= j < r@.len() ==> s@[j] != '\n',
        r@.len() == max_chars || r@.len() == s@.len() || s@[r@.len() as int] == '\n',
{
    let mut n: usize = 0;
    for c in it: s.chars()
        invariant_except_break
            n == it.index(),
        invariant
            n <= max_chars,
            n <= s@.len(),
            it.seq() == s@,
            forall|j: int| 0 <= j < n ==> s@[j] != '\n',
        ensures
            n == max_chars || n == s@.len() || s@[n as int] == '\n',
    {
        if n == max_chars || c == '\n' {
            break;
        }
        n += 1;
    }
    proof {
        truncated_is_bounded_prefix(s@, max_chars as nat, n as int);
    }
    s.substring_char(0, n)
}

} // verus!
