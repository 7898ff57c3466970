//! Wildcard pattern matching for the exclude patterns of file discovery.
//!
//! A pattern is matched against a whole path, case-sensitively: `*` stands
//! for any (possibly empty) run of characters, `?` for exactly one character,
//! and every other character only for itself.

use vstd::prelude::*;

verus! {

/// Whether pattern `p` matches the whole of `s`.
pub open spec fn glob_matches(p: Seq<char>, s: Seq<char>) -> bool
    decreases p.len() + s.len(),
{
    if p.len() == 0 {
        s.len() == 0
    } else if p[0] == '*' {
        glob_matches(p.drop_first(), s) || (s.len() > 0 && glob_matches(p, s.drop_first()))
    } else {
        s.len() > 0 && (p[0] == '?' || p[0] == s[0]) && glob_matches(
            p.drop_first(),
            s.drop_first(),
        )
    }
}

fn glob_match_from(p: &str, s: &str, i: usize, j: usize) -> (r: bool)
    requires
        i <= p@.len(),
        j <= s@.len(),
    ensures
        r == glob_matches(
            p@.subrange(i as int, p@.len() as int),
            s@.subrange(j as int, s@.len() as int),
        ),
    decreases p@.len() - i + s@.len() - j,
{
    let p_len = p.unicode_len();
    let s_len = s.unicode_len();
    let ghost pv = p@.subrange(i as int, p@.len() as int);
    let ghost sv = s@.subrange(j as int, s@.len() as int);
    if i == p_len {
        j == s_len
    } else {
        let pc = p.get_char(i);
        proof {
            assert(pv[0] == p@[i as int]);
            assert(pv.drop_first() =~= p@.subrange(i + 1, p@.len() as int));
            assert(sv.len() > 0 ==> sv[0] == s@[j as int]);
            assert(sv.len() > 0 ==> sv.drop_first() =~= s@.subrange(j + 1, s@.len() as int));
        }
        if pc == '*' {
            if glob_match_from(p, s, i + 1, j) {
                true
            } else if j < s_len {
                glob_match_from(p, s, i, j + 1)
            } else {
                false
            }
        } else if j == s_len {
            false
        } else {
            let sc = s.get_char(j);
            if pc == '?' || pc == sc {
                glob_match_from(p, s, i + 1, j + 1)
            } else {
                false
            }
        }
    }
}

/// Whether the wildcard pattern matches the whole string.
pub fn glob_match(pattern: &str, text: &str) -> (r: bool)
    ensures
        r == glob_matches(pattern@, text@),
{
    let r = glob_match_from(pattern, text, 0, 0);
    proof {
        assert(pattern@.subrange(0, pattern@.len() as int) =~= pattern@);
        assert(text@.subrange(0, text@.len() as int) =~= text@);
    }
    r
}

} // verus!
