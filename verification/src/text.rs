//! Character and string helpers shared by the whole crate: decimal number
//! formatting, zero- and space-padding, and lexicographic ordering of
//! character sequences.

use vstd::prelude::*;

verus! {

/// The character for one decimal digit value.
pub open spec fn digit_char(d: int) -> char {
    if d == 0 {
        '0'
    } else if d == 1 {
        '1'
    } else if d == 2 {
        '2'
    } else if d == 3 {
        '3'
    } else if d == 4 {
        '4'
    } else if d == 5 {
        '5'
    } else if d == 6 {
        '6'
    } else if d == 7 {
        '7'
    } else if d == 8 {
        '8'
    } else {
        '9'
    }
}

/// The usual decimal rendering of a natural number, most significant digit
/// first, with no leading zeros (a single `'0'` for zero).
pub open spec fn spec_udec(n: nat) -> Seq<char>
    decreases n,
{
    if n < 10 {
        seq![digit_char(n as int)]
    } else {
        spec_udec(n / 10) + seq![digit_char((n % 10) as int)]
    }
}

/// The decimal rendering of an integer: a leading `'-'` for negatives.
pub open spec fn spec_idec(v: int) -> Seq<char> {
    if v < 0 {
        seq!['-'] + spec_udec((-v) as nat)
    } else {
        spec_udec(v as nat)
    }
}

fn digit_str(d: u64) -> (r: &'static str)
    requires
        d < 10,
    ensures
        r@ == seq![digit_char(d as int)],
{
    let r: &'static str = if d == 0 {
        "0"
    } else if d == 1 {
        "1"
    } else if d == 2 {
        "2"
    } else if d == 3 {
        "3"
    } else if d == 4 {
        "4"
    } else if d == 5 {
        "5"
    } else if d == 6 {
        "6"
    } else if d == 7 {
        "7"
    } else if d == 8 {
        "8"
    } else {
        "9"
    };
    proof {
        reveal_strlit("0");
        reveal_strlit("1");
        reveal_strlit("2");
        reveal_strlit("3");
        reveal_strlit("4");
        reveal_strlit("5");
        reveal_strlit("6");
        reveal_strlit("7");
        reveal_strlit("8");
        reveal_strlit("9");
        assert(r@ =~= seq![digit_char(d as int)]);
    }
    r
}

/// Renders a natural number in decimal.
pub fn u64_to_string(n: u64) -> (r: String)
    ensures
        r@ == spec_udec(n as nat),
    decreases n,
{
    if n < 10 {
        String::from_str(digit_str(n))
    } else {
        let mut r = u64_to_string(n / 10);
        r.append(digit_str(n % 10));
        r
    }
}

/// Renders a signed number in decimal, with a leading minus sign when
/// negative.
pub fn i64_to_string(v: i64) -> (r: String)
    ensures
        r@ == spec_idec(v as int),
{
    if v < 0 {
        let magnitude: u64 = if v == i64::MIN {
            9223372036854775808u64
        } else {
            (-v) as u64
        };
        let mut r = String::from_str("-");
        r.append(u64_to_string(magnitude).as_str());
        proof {
            reveal_strlit("-");
            assert(r@ =~= spec_idec(v as int));
        }
        r
    } else {
        u64_to_string(v as u64)
    }
}

/// `s` left-padded with `fill` characters up to length `width`; `s` itself
/// when it is already long enough.
pub open spec fn spec_pad_left(s: Seq<char>, width: nat, fill: char) -> Seq<char>
    decreases width,
{
    if s.len() >= width {
        s
    } else {
        seq![fill] + spec_pad_left(s, (width - 1) as nat, fill)
    }
}

fn fill_str(fill: char) -> (r: &'static str)
    requires
        fill == ' ' || fill == '0',
    ensures
        r@ == seq![fill],
{
    let r: &'static str = if fill == ' ' {
        " "
    } else {
        "0"
    };
    proof {
        reveal_strlit(" ");
        reveal_strlit("0");
        assert(r@ =~= seq![fill]);
    }
    r
}

/// Left-pads `s` to `width` characters with `fill` (a space or a zero).
pub fn pad_left(s: &str, width: usize, fill: char) -> (r: String)
    requires
        fill == ' ' || fill == '0',
    ensures
        r@ == spec_pad_left(s@, width as nat, fill),
    decreases width,
{
    let n = s.unicode_len();
    if n >= width {
        String::from_str(s)
    } else {
        let mut r = String::from_str(fill_str(fill));
        r.append(pad_left(s, width - 1, fill).as_str());
        proof {
            assert(r@ =~= spec_pad_left(s@, width as nat, fill));
        }
        r
    }
}

/// Lexicographic order on character sequences, by code point; the order in
/// which discovered files are kept.
pub open spec fn chars_le(a: Seq<char>, b: Seq<char>) -> bool
    decreases a.len(),
{
    if a.len() == 0 {
        true
    } else if b.len() == 0 {
        false
    } else if (a[0] as u32) < (b[0] as u32) {
        true
    } else if (a[0] as u32) > (b[0] as u32) {
        false
    } else {
        chars_le(a.drop_first(), b.drop_first())
    }
}

/// `chars_le` is total: any two sequences compare one way or the other.
pub proof fn lemma_chars_le_total(a: Seq<char>, b: Seq<char>)
    ensures
        chars_le(a, b) || chars_le(b, a),
    decreases a.len(),
{
    if a.len() != 0 && b.len() != 0 && (a[0] as u32) == (b[0] as u32) {
        lemma_chars_le_total(a.drop_first(), b.drop_first());
    }
}

/// `chars_le` is transitive.
pub proof fn lemma_chars_le_trans(a: Seq<char>, b: Seq<char>, c: Seq<char>)
    requires
        chars_le(a, b),
        chars_le(b, c),
    ensures
        chars_le(a, c),
    decreases a.len(),
{
    if a.len() != 0 && b.len() != 0 && c.len() != 0 {
        if (a[0] as u32) == (b[0] as u32) && (b[0] as u32) == (c[0] as u32) {
            lemma_chars_le_trans(a.drop_first(), b.drop_first(), c.drop_first());
        }
    }
}

/// Whether two strings hold the same characters.
pub fn str_eq(a: &str, b: &str) -> (r: bool)
    ensures
        r == (a@ == b@),
{
    let a_len = a.unicode_len();
    let b_len = b.unicode_len();
    if a_len != b_len {
        return false;
    }
    let mut i: usize = 0;
    while i < a_len
        invariant
            i <= a_len,
            a_len == a@.len(),
            b_len == b@.len(),
            a_len == b_len,
            forall|k: int| 0 <= k < i ==> a@[k] == b@[k],
        decreases a_len - i,
    {
        if a.get_char(i) != b.get_char(i) {
            return false;
        }
        i += 1;
    }
    proof {
        assert(a@ =~= b@);
    }
    true
}

/// A sequence of strings in ascending `chars_le` order.
pub open spec fn str_seq_sorted(s: Seq<String>) -> bool {
    forall|i: int, j: int| 0 <= i < j < s.len() ==> chars_le(#[trigger] s[i]@, #[trigger] s[j]@)
}

/// Sorts the strings in place, lexicographically by code point.
pub fn sort_strings(v: &mut Vec<String>)
    ensures
        str_seq_sorted(final(v)@),
        final(v)@.to_multiset() == old(v)@.to_multiset(),
{
    broadcast use vstd::seq_lib::group_to_multiset_ensures;
    broadcast use vstd::multiset::group_multiset_axioms;

    if v.len() < 2 {
        return ;
    }
    let mut i: usize = 1;
    while i < v.len()
        invariant
            1 <= i <= v@.len(),
            str_seq_sorted(v@.take(i as int)),
            v@.to_multiset() == old(v)@.to_multiset(),
        decreases v@.len() - i,
    {
        let ghost prev = v@;
        let x = v.remove(i);
        proof {
            assert(v@ =~= prev.remove(i as int));
            assert(v@.take(i as int) =~= prev.take(i as int));
        }
        let mut p: usize = 0;
        while p < i && str_le(v[p].as_str(), x.as_str())
            invariant
                p <= i <= v@.len(),
                v@ == prev.remove(i as int),
                forall|q: int| 0 <= q < p ==> chars_le(#[trigger] v@[q]@, x@),
            decreases i - p,
    {
            p += 1;
        }
        let ghost mid = v@;
        let ghost xg = x;
        v.insert(p, x);
        proof {
            assert(v@ =~= mid.insert(p as int, xg));
            // the removed element goes back in, so the contents are unchanged
            assert(prev[i as int] == xg);
            assert(prev.contains(xg));
            vstd::seq_lib::to_multiset_contains::<String>(prev, xg);
            assert(prev.to_multiset().count(xg) > 0);
            vstd::seq_lib::to_multiset_remove::<String>(prev, i as int);
            vstd::seq_lib::to_multiset_insert::<String>(mid, p as int, xg);
            assert(prev.remove(i as int).to_multiset() == prev.to_multiset().remove(
                prev[i as int],
            ));
            assert(mid.insert(p as int, xg).to_multiset() == mid.to_multiset().insert(xg));
            assert(v@.to_multiset() =~= prev.to_multiset());
            // the first `i` slots kept their old, sorted order around the slot
            // where `x` went back in
            assert(mid.take(i as int) =~= prev.take(i as int));
            assert forall|a: int, b: int| 0 <= a < b < i implies chars_le(
                #[trigger] mid[a]@,
                #[trigger] mid[b]@,
            ) by {
                assert(mid[a] == prev.take(i as int)[a]);
                assert(mid[b] == prev.take(i as int)[b]);
            }
            if p < i {
                lemma_chars_le_total(mid[p as int]@, xg@);
                assert(chars_le(xg@, mid[p as int]@));
            }
            // everything before the insertion point is at most `x`, everything
            // after it is at least `x`
            assert forall|a: int, b: int| 0 <= a < b <= i implies chars_le(
                v@[a]@,
                v@[b]@,
            ) by {
                if b < p {
                } else if b == p {
                    assert(v@[a] == mid[a] && v@[b] == xg);
                } else if a == p {
                    assert(v@[a] == xg && v@[b] == mid[b - 1]);
                    if p < b - 1 {
                        lemma_chars_le_trans(xg@, mid[p as int]@, mid[b - 1]@);
                    }
                } else if a < p {
                    assert(v@[a] == mid[a] && v@[b] == mid[b - 1]);
                } else {
                    assert(v@[a] == mid[a - 1] && v@[b] == mid[b - 1]);
                }
            }
            assert(str_seq_sorted(v@.take(i + 1 as int)));
        }
        i += 1;
    }
    proof {
        assert(v@.take(v@.len() as int) =~= v@);
    }
}

/// Compares two strings in the `chars_le` order.
pub fn str_le(a: &str, b: &str) -> (r: bool)
    ensures
        r == chars_le(a@, b@),
    decreases a@.len(),
{
    let a_len = a.unicode_len();
    let b_len = b.unicode_len();
    if a_len == 0 {
        true
    } else if b_len == 0 {
        false
    } else {
        let ca = a.get_char(0);
        let cb = b.get_char(0);
        if (ca as u32) < (cb as u32) {
            true
        } else if (ca as u32) > (cb as u32) {
            false
        } else {
            let ra = a.substring_char(1, a_len);
            let rb = b.substring_char(1, b_len);
            proof {
                assert(ra@ =~= a@.drop_first());
                assert(rb@ =~= b@.drop_first());
            }
            str_le(ra, rb)
        }
    }
}

} // verus!
