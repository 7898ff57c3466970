//! The results summarizer: reduces a persisted result store into descriptive
//! statistics per dispersion-coefficient kind.
//!
//! Coefficient values are held in five-decimal fixed point: a value `x` is
//! the integer `x * 100000`, which keeps every statistic exact integer
//! arithmetic and keeps floating point out of the core. Values of magnitude
//! at least `10^8` are outside this domain and are treated like any other
//! unusable encoding: they contribute zero.

use vstd::prelude::*;

verus! {

/// The numeric value of a decimal digit character, `-1` for any other.
pub open spec fn spec_digit(c: char) -> int {
    if c == '0' {
        0
    } else if c == '1' {
        1
    } else if c == '2' {
        2
    } else if c == '3' {
        3
    } else if c == '4' {
        4
    } else if c == '5' {
        5
    } else if c == '6' {
        6
    } else if c == '7' {
        7
    } else if c == '8' {
        8
    } else if c == '9' {
        9
    } else {
        -1
    }
}

fn digit_of(c: char) -> (r: Option<u64>)
    ensures
        match r {
            Some(d) => spec_digit(c) == d,
            None => spec_digit(c) == -1,
        },
{
    match c {
        '0' => Some(0),
        '1' => Some(1),
        '2' => Some(2),
        '3' => Some(3),
        '4' => Some(4),
        '5' => Some(5),
        '6' => Some(6),
        '7' => Some(7),
        '8' => Some(8),
        '9' => Some(9),
        _ => None,
    }
}

/// A non-empty run of decimal digits.
pub open spec fn is_digits(s: Seq<char>) -> bool {
    s.len() > 0 && forall|k: int| 0 <= k < s.len() ==> spec_digit(#[trigger] s[k]) >= 0
}

/// The value of a digit run, most significant digit first.
pub open spec fn digits_val(s: Seq<char>) -> int
    decreases s.len(),
{
    if s.len() == 0 {
        0
    } else {
        digits_val(s.drop_last()) * 10 + spec_digit(s.last())
    }
}

proof fn lemma_digits_val_nonneg(s: Seq<char>)
    requires
        forall|k: int| 0 <= k < s.len() ==> spec_digit(#[trigger] s[k]) >= 0,
    ensures
        digits_val(s) >= 0,
    decreases s.len(),
{
    if s.len() > 0 {
        lemma_digits_val_nonneg(s.drop_last());
    }
}

/// Extending a digit run to the right never shrinks its value.
proof fn lemma_digits_val_grows(s: Seq<char>, k: int)
    requires
        0 <= k <= s.len(),
        forall|j: int| 0 <= j < s.len() ==> spec_digit(#[trigger] s[j]) >= 0,
    ensures
        digits_val(s) >= digits_val(s.take(k)),
    decreases s.len() - k,
{
    if k < s.len() {
        lemma_digits_val_grows(s, k + 1);
        let t = s.take(k + 1);
        assert(t.drop_last() =~= s.take(k));
        lemma_digits_val_nonneg(s.take(k));
        assert(digits_val(t) == digits_val(s.take(k)) * 10 + spec_digit(s[k]));
    } else {
        assert(s.take(k) =~= s);
    }
}

/// The index of the first `'.'` in `s`, or `-1` when there is none.
pub open spec fn spec_first_dot(s: Seq<char>) -> int
    decreases s.len(),
{
    if s.len() == 0 {
        -1
    } else if s[0] == '.' {
        0
    } else {
        let r = spec_first_dot(s.drop_first());
        if r < 0 {
            -1
        } else {
            r + 1
        }
    }
}

proof fn lemma_first_dot(s: Seq<char>)
    ensures
        spec_first_dot(s) < 0 ==> forall|k: int| 0 <= k < s.len() ==> s[k] != '.',
        spec_first_dot(s) >= 0 ==> spec_first_dot(s) < s.len() && s[spec_first_dot(s)] == '.'
            && forall|k: int| 0 <= k < spec_first_dot(s) ==> s[k] != '.',
    decreases s.len(),
{
    if s.len() > 0 && s[0] != '.' {
        lemma_first_dot(s.drop_first());
        let r = spec_first_dot(s.drop_first());
        if r < 0 {
            assert forall|k: int| 0 <= k < s.len() implies s[k] != '.' by {
                if k > 0 {
                    assert(s.drop_first()[k - 1] == s[k]);
                }
            }
        } else {
            assert(s[r + 1] == s.drop_first()[r]);
            assert forall|k: int| 0 <= k < r + 1 implies s[k] != '.' by {
                if k > 0 {
                    assert(s.drop_first()[k - 1] == s[k]);
                }
            }
        }
    }
}

/// Ten to a small power.
pub open spec fn pow10(k: nat) -> int
    decreases k,
{
    if k == 0 {
        1
    } else {
        10 * pow10((k - 1) as nat)
    }
}

/// The value of a fractional digit run in hundred-thousandths: the first five
/// fractional digits, right-padded with zeros; deeper digits are dropped.
pub open spec fn spec_frac5(fp: Seq<char>) -> int {
    if fp.len() >= 5 {
        digits_val(fp.take(5))
    } else {
        digits_val(fp) * pow10((5 - fp.len()) as nat)
    }
}

/// A decimal literal read into five-decimal fixed point: an optional minus
/// sign, an integer digit run below `10^8`, and an optional fraction, of
/// which the first five digits are kept. Anything else has no value here.
pub open spec fn spec_parse_fixed(s: Seq<char>) -> Option<int> {
    let neg = s.len() > 0 && s[0] == '-';
    let body = if neg {
        s.drop_first()
    } else {
        s
    };
    let d = spec_first_dot(body);
    if d < 0 {
        if is_digits(body) && digits_val(body) < 100000000 {
            Some(
                if neg {
                    -(digits_val(body) * 100000)
                } else {
                    digits_val(body) * 100000
                },
            )
        } else {
            None
        }
    } else {
        let ip = body.take(d);
        let fp = body.skip(d + 1);
        if is_digits(ip) && (fp.len() == 0 || is_digits(fp)) && digits_val(ip) < 100000000 {
            Some(
                if neg {
                    -(digits_val(ip) * 100000 + spec_frac5(fp))
                } else {
                    digits_val(ip) * 100000 + spec_frac5(fp)
                },
            )
        } else {
            None
        }
    }
}

/// A digit run's value stays below ten to its length.
proof fn lemma_digits_val_bound(s: Seq<char>)
    requires
        forall|k: int| 0 <= k < s.len() ==> spec_digit(#[trigger] s[k]) >= 0,
    ensures
        0 <= digits_val(s) < pow10(s.len()),
    decreases s.len(),
{
    if s.len() > 0 {
        lemma_digits_val_bound(s.drop_last());
    }
}

fn find_dot(s: &str, from: usize) -> (r: Option<usize>)
    requires
        from <= s@.len(),
    ensures
        match r {
            Some(j) => from <= j < s@.len() && s@[j as int] == '.' && forall|k: int|
                from <= k < j ==> s@[k] != '.',
            None => forall|k: int| from <= k < s@.len() ==> s@[k] != '.',
        },
{
    let len = s.unicode_len();
    let mut i = from;
    while i < len
        invariant
            from <= i <= len,
            len == s@.len(),
            forall|k: int| from <= k < i ==> s@[k] != '.',
        decreases len - i,
    {
        if s.get_char(i) == '.' {
            return Some(i);
        }
        i += 1;
    }
    None
}

fn digits_value(s: &str, from: usize, to: usize) -> (r: Option<u64>)
    requires
        from <= to <= s@.len(),
    ensures
        match r {
            Some(v) => is_digits(s@.subrange(from as int, to as int)) && digits_val(
                s@.subrange(from as int, to as int),
            ) == v && v < 100000000,
            None => !(is_digits(s@.subrange(from as int, to as int)) && digits_val(
                s@.subrange(from as int, to as int),
            ) < 100000000),
        },
{
    let ghost sub = s@.subrange(from as int, to as int);
    if from == to {
        return None;
    }
    let mut i = from;
    let mut acc: u64 = 0;
    while i < to
        invariant
            from <= i <= to <= s@.len(),
            sub == s@.subrange(from as int, to as int),
            forall|k: int| 0 <= k < i - from ==> spec_digit(#[trigger] sub[k]) >= 0,
            acc == digits_val(sub.take(i - from)),
            acc < 100000000,
        decreases to - i,
    {
        let c = s.get_char(i);
        proof {
            assert(sub[i - from] == s@[i as int]);
        }
        match digit_of(c) {
            Some(d) => {
                let na = acc * 10 + d;
                proof {
                    assert(sub.take(i + 1 - from).drop_last() =~= sub.take(i - from));
                    assert(sub.take(i + 1 - from).last() == sub[i - from]);
                }
                if na >= 100000000 {
                    proof {
                        if is_digits(sub) {
                            lemma_digits_val_grows(sub, i + 1 - from);
                            lemma_digits_val_nonneg(sub);
                        }
                    }
                    return None;
                }
                acc = na;
            },
            None => {
                return None;
            },
        }
        i += 1;
    }
    proof {
        assert(sub.take(to - from) =~= sub);
    }
    Some(acc)
}

fn frac_value(s: &str, from: usize, to: usize) -> (r: Option<u64>)
    requires
        from <= to <= s@.len(),
    ensures
        match r {
            Some(f) => (to == from || is_digits(s@.subrange(from as int, to as int))) && f
                == spec_frac5(s@.subrange(from as int, to as int)) && f < 100000,
            None => to > from && !is_digits(s@.subrange(from as int, to as int)),
        },
{
    let ghost fp = s@.subrange(from as int, to as int);
    let mut i = from;
    let mut facc: u64 = 0;
    while i < to
        invariant
            from <= i <= to <= s@.len(),
            fp == s@.subrange(from as int, to as int),
            forall|k: int| 0 <= k < i - from ==> spec_digit(#[trigger] fp[k]) >= 0,
            facc == digits_val(fp.take(if i - from <= 5 { i - from } else { 5 })),
            facc < 100000,
        decreases to - i,
    {
        let c = s.get_char(i);
        proof {
            assert(fp[i - from] == s@[i as int]);
        }
        match digit_of(c) {
            Some(d) => {
                if i - from < 5 {
                    proof {
                        assert(fp.take(i + 1 - from).drop_last() =~= fp.take(i - from));
                        assert(fp.take(i + 1 - from).last() == fp[i - from]);
                        lemma_digits_val_bound(fp.take(i + 1 - from));
                        lemma_pow10_le((i + 1 - from) as nat, 5);
                        lemma_pow10_vals();
                    }
                    facc = facc * 10 + d;
                }
            },
            None => {
                return None;
            },
        }
        i += 1;
    }
    // right-pad to five fractional digits
    let seen = to - from;
    let mut kept: usize = if seen <= 5 {
        seen
    } else {
        5
    };
    proof {
        if seen >= 5 {
            assert(spec_frac5(fp) == digits_val(fp.take(5)));
        } else {
            assert(fp.take(seen as int) =~= fp);
        }
        lemma_digits_val_bound(fp.take(kept as int));
        lemma_pow10_vals();
    }
    let ghost base = facc;
    let ghost m = kept;
    while kept < 5
        invariant
            m <= kept <= 5,
            facc == base * pow10((kept - m) as nat),
            0 <= base < pow10(m as nat),
            facc < 100000,
        decreases 5 - kept,
    {
        proof {
            let e0 = (kept - m) as nat;
            let e1 = ((kept + 1) - m) as nat;
            assert(e1 == e0 + 1);
            assert(pow10(e1) == 10 * pow10(e0));
            assert(facc * 10 == base * (10 * pow10(e0))) by (nonlinear_arith)
                requires
                    facc == base * pow10(e0),
            ;
            lemma_pow10_pos(e1);
            assert(base * pow10(e1) < pow10(m as nat) * pow10(e1)) by (nonlinear_arith)
                requires
                    0 <= base < pow10(m as nat),
                    pow10(e1) >= 1,
            ;
            lemma_pow10_add(m as nat, e1);
            assert((m as nat) + e1 == (kept + 1) as nat);
            lemma_pow10_le((kept + 1) as nat, 5);
            lemma_pow10_vals();
        }
        facc = facc * 10;
        kept += 1;
    }
    proof {
        if seen >= 5 {
            assert(facc == base);
        } else {
            assert(kept == 5 && m == seen);
            assert(base == digits_val(fp));
            assert(facc == digits_val(fp) * pow10((5 - fp.len()) as nat));
        }
    }
    Some(facc)
}

proof fn lemma_pow10_pos(a: nat)
    ensures
        pow10(a) >= 1,
    decreases a,
{
    if a > 0 {
        lemma_pow10_pos((a - 1) as nat);
    }
}

proof fn lemma_pow10_add(a: nat, b: nat)
    ensures
        pow10((a + b) as nat) == pow10(a) * pow10(b),
    decreases b,
{
    if b == 0 {
        assert(pow10(a) * 1 == pow10(a)) by (nonlinear_arith);
    } else {
        lemma_pow10_add(a, (b - 1) as nat);
        assert((a + b - 1) as nat + 1 == (a + b) as nat);
        assert(pow10((a + b) as nat) == 10 * pow10((a + b - 1) as nat));
        assert(pow10(a) * (10 * pow10((b - 1) as nat)) == 10 * (pow10(a) * pow10(
            (b - 1) as nat,
        ))) by (nonlinear_arith);
    }
}

proof fn lemma_pow10_le(a: nat, b: nat)
    requires
        a <= b,
    ensures
        pow10(a) <= pow10(b),
        pow10(a) >= 1,
    decreases b,
{
    lemma_pow10_pos(a);
    if a < b {
        lemma_pow10_le(a, (b - 1) as nat);
        lemma_pow10_pos((b - 1) as nat);
    }
}

proof fn lemma_pow10_vals()
    ensures
        pow10(0) == 1,
        pow10(1) == 10,
        pow10(2) == 100,
        pow10(3) == 1000,
        pow10(4) == 10000,
        pow10(5) == 100000,
{
    assert(pow10(0) == 1);
    assert(pow10(1) == 10);
    assert(pow10(2) == 100);
    assert(pow10(3) == 1000);
    assert(pow10(4) == 10000);
    assert(pow10(5) == 100000);
}

/// Reads a decimal literal into five-decimal fixed point; anything outside
/// the representable domain reads as nothing.
pub fn parse_fixed(s: &str) -> (r: Option<i64>)
    ensures
        match r {
            Some(v) => spec_parse_fixed(s@) == Some(v as int) && -10000000000000 < v
                < 10000000000000,
            None => spec_parse_fixed(s@) is None,
        },
{
    let len = s.unicode_len();
    let neg = len > 0 && s.get_char(0) == '-';
    let start: usize = if neg {
        1
    } else {
        0
    };
    let ghost body = if neg {
        s@.drop_first()
    } else {
        s@
    };
    proof {
        assert(body =~= s@.subrange(start as int, len as int));
        lemma_first_dot(body);
    }
    let dot = find_dot(s, start);
    match dot {
        None => {
            proof {
                // no dot anywhere in the body
                if spec_first_dot(body) >= 0 {
                    assert(body[spec_first_dot(body)] == s@[spec_first_dot(body) + start]);
                }
            }
            match digits_value(s, start, len) {
                Some(v) => {
                    proof {
                        assert(s@.subrange(start as int, len as int) == body);
                    }
                    let scaled = v * 100000;
                    let signed: i64 = if neg {
                        -(scaled as i64)
                    } else {
                        scaled as i64
                    };
                    Some(signed)
                },
                None => None,
            }
        },
        Some(j) => {
            let ghost d = spec_first_dot(body);
            proof {
                // the scan's dot is the spec's first dot
                assert(body[j - start] == s@[j as int]);
                if d < 0 {
                    assert(false);
                } else {
                    assert(body[d] == s@[d + start]);
                    if d < j - start {
                        assert(s@[d + start] == '.');
                    }
                    if d > j - start {
                        assert(body[j - start] != '.');
                    }
                    assert(d == j - start);
                }
                assert(body.take(d) =~= s@.subrange(start as int, j as int));
                assert(body.skip(d + 1) =~= s@.subrange(j + 1 as int, len as int));
            }
            let ip = digits_value(s, start, j);
            match ip {
                Some(v) => {
                    match frac_value(s, j + 1, len) {
                        Some(f) => {
                            let scaled = v * 100000 + f;
                            let signed: i64 = if neg {
                                -(scaled as i64)
                            } else {
                                scaled as i64
                            };
                            Some(signed)
                        },
                        None => None,
                    }
                },
                None => None,
            }
        },
    }
}

/// The fixed-point rendering of a value: the integer part, a point, and
/// exactly five fractional digits.
pub open spec fn spec_fixed_str(v: int) -> Seq<char> {
    let m = if v < 0 {
        -v
    } else {
        v
    };
    (if v < 0 {
        "-"@
    } else {
        Seq::<char>::empty()
    }) + crate::text::spec_udec((m / 100000) as nat) + "."@ + crate::text::spec_pad_left(
        crate::text::spec_udec((m % 100000) as nat),
        5,
        '0',
    )
}

/// Renders a five-decimal fixed-point value.
pub fn fixed_to_string(v: i64) -> (r: String)
    requires
        -100000000000000 < v < 100000000000000,
    ensures
        r@ == spec_fixed_str(v as int),
{
    let m: u64 = if v < 0 {
        (-v) as u64
    } else {
        v as u64
    };
    let mut s = if v < 0 {
        String::from_str("-")
    } else {
        String::new()
    };
    s.append(crate::text::u64_to_string(m / 100000).as_str());
    s.append(".");
    s.append(crate::text::pad_left(crate::text::u64_to_string(m % 100000).as_str(), 5, '0').as_str());
    proof {
        reveal_strlit("-");
        assert(s@ =~= spec_fixed_str(v as int));
    }
    s
}

/// Division rounded to the nearest integer, halves away from zero.
pub open spec fn spec_round_div(a: int, n: int) -> int {
    if a >= 0 {
        (2 * a + n) / (2 * n)
    } else {
        -((2 * (-a) + n) / (2 * n))
    }
}

/// Division rounded to the nearest integer, halves away from zero. The
/// result `r` satisfies `|a - r*n| <= n/2`.
fn round_div(a: i128, n: i128) -> (r: i128)
    requires
        0 < n <= 4294967296,
        -10000000000000000000000000000000000000 < a < 10000000000000000000000000000000000000,
    ensures
        r == spec_round_div(a as int, n as int),
        2 * (n as int) * r - n <= 2 * (a as int) <= 2 * (n as int) * r + n,
{
    let m: u128 = if a >= 0 {
        a as u128
    } else {
        (-a) as u128
    };
    let nu: u128 = n as u128;
    let q: u128 = (2 * m + nu) / (2 * nu);
    proof {
        let mi = m as int;
        let ni = n as int;
        let qi = q as int;
        vstd::arithmetic::div_mod::lemma_fundamental_div_mod(2 * mi + ni, 2 * ni);
        assert(0 <= (2 * mi + ni) % (2 * ni) < 2 * ni);
        assert(2 * mi + ni == (2 * ni) * qi + (2 * mi + ni) % (2 * ni));
        assert((2 * ni) * qi == 2 * ni * qi) by (nonlinear_arith);
        assert(qi <= mi + ni) by (nonlinear_arith)
            requires
                ni >= 1,
                mi >= 0,
                qi >= 0,
                2 * mi + ni >= (2 * ni) * qi,
        ;
        assert(2 * ni * qi - ni <= 2 * mi <= 2 * ni * qi + ni);
        if a >= 0 {
            assert(spec_round_div(a as int, ni) == qi);
        } else {
            assert(spec_round_div(a as int, ni) == -qi);
            assert(2 * ni * (-qi) - ni <= 2 * (a as int) <= 2 * ni * (-qi) + ni) by (nonlinear_arith)
                requires
                    2 * ni * qi - ni <= 2 * mi <= 2 * ni * qi + ni,
                    mi == -(a as int),
            ;
        }
    }
    let r: i128 = q as i128;
    if a >= 0 {
        r
    } else {
        -r
    }
}

/// The integer square root, rounded down; defined step by step from zero.
pub open spec fn spec_floor_sqrt(v: nat) -> nat
    decreases v,
{
    if v == 0 {
        0
    } else {
        let p = spec_floor_sqrt((v - 1) as nat);
        if (p + 1) * (p + 1) <= v {
            (p + 1) as nat
        } else {
            p
        }
    }
}

proof fn lemma_floor_sqrt_bounds(v: nat)
    ensures
        spec_floor_sqrt(v) * spec_floor_sqrt(v) <= v,
        v < (spec_floor_sqrt(v) + 1) * (spec_floor_sqrt(v) + 1),
    decreases v,
{
    if v == 0 {
        assert(spec_floor_sqrt(0) == 0);
        assert(spec_floor_sqrt(v) * spec_floor_sqrt(v) <= v);
        assert(v < (spec_floor_sqrt(v) + 1) * (spec_floor_sqrt(v) + 1)) by (nonlinear_arith)
            requires
                v == 0,
                spec_floor_sqrt(v) == 0,
        ;
    } else {
        lemma_floor_sqrt_bounds((v - 1) as nat);
        let p = spec_floor_sqrt((v - 1) as nat);
        assert(p * p <= v - 1);
        assert(v - 1 < (p + 1) * (p + 1));
        if (p + 1) * (p + 1) <= v {
            assert(spec_floor_sqrt(v) == p + 1);
            assert(v < ((p + 1) + 1) * ((p + 1) + 1)) by (nonlinear_arith)
                requires
                    p >= 0,
                    v - 1 < (p + 1) * (p + 1),
            ;
            assert(spec_floor_sqrt(v) * spec_floor_sqrt(v) <= v);
            assert(v < (spec_floor_sqrt(v) + 1) * (spec_floor_sqrt(v) + 1));
        } else {
            assert(spec_floor_sqrt(v) == p);
            assert(spec_floor_sqrt(v) * spec_floor_sqrt(v) <= v);
            assert(v < (spec_floor_sqrt(v) + 1) * (spec_floor_sqrt(v) + 1));
        }
    }
}

proof fn lemma_floor_sqrt_unique(v: nat, s: nat)
    requires
        s * s <= v,
        v < (s + 1) * (s + 1),
    ensures
        spec_floor_sqrt(v) == s,
{
    lemma_floor_sqrt_bounds(v);
    let p = spec_floor_sqrt(v);
    assert(p == s) by (nonlinear_arith)
        requires
            p >= 0,
            s >= 0,
            p * p <= v < (p + 1) * (p + 1),
            s * s <= v < (s + 1) * (s + 1),
    ;
}

/// The square root rounded to the nearest integer.
pub open spec fn spec_isqrt_nearest(v: nat) -> nat {
    let s = spec_floor_sqrt(v);
    if v - s * s > s {
        (s + 1) as nat
    } else {
        s
    }
}

/// The square root rounded to the nearest integer.
fn isqrt_nearest(v: i128) -> (r: i128)
    requires
        0 <= v <= 400000000000000000000000000,
    ensures
        r == spec_isqrt_nearest(v as nat),
        0 <= r <= 35184372088832,
{
    let vu: u128 = v as u128;
    let mut lo: u128 = 0;
    let mut hi: u128 = 35184372088832;
    while hi - lo > 1
        invariant
            0 <= lo < hi <= 35184372088832,
            vu == v,
            lo * lo <= vu,
            vu < hi * hi,
        decreases hi - lo,
    {
        let mid = lo + (hi - lo) / 2;
        proof {
            vstd::arithmetic::div_mod::lemma_fundamental_div_mod((hi - lo) as int, 2);
            assert(lo < mid < hi);
            assert((mid as int) * (mid as int) < 1237940039285380274899124224) by (nonlinear_arith)
                requires
                    0 <= (mid as int) < 35184372088832,
            ;
        }
        if mid * mid <= vu {
            lo = mid;
        } else {
            hi = mid;
        }
    }
    proof {
        assert(hi == lo + 1);
        lemma_floor_sqrt_unique(v as nat, lo as nat);
    }
    if vu - lo * lo > lo {
        (lo + 1) as i128
    } else {
        lo as i128
    }
}

/// The six dispersion-coefficient kinds.
#[derive(Clone, Copy, PartialEq, Eq, Structural, Debug)]
pub enum CoeffitientType {
    GD,
    GDD,
    TOD,
    FOD,
    QOD,
    SOD,
}

/// The display name of a coefficient kind.
pub open spec fn spec_kind_name(k: CoeffitientType) -> Seq<char> {
    match k {
        CoeffitientType::GD => "GD"@,
        CoeffitientType::GDD => "GDD"@,
        CoeffitientType::TOD => "TOD"@,
        CoeffitientType::FOD => "FOD"@,
        CoeffitientType::QOD => "QOD"@,
        CoeffitientType::SOD => "SOD"@,
    }
}

/// The physical unit of a coefficient kind.
pub open spec fn spec_kind_unit(k: CoeffitientType) -> Seq<char> {
    match k {
        CoeffitientType::GD => "fs"@,
        CoeffitientType::GDD => "fs^2"@,
        CoeffitientType::TOD => "fs^3"@,
        CoeffitientType::FOD => "fs^4"@,
        CoeffitientType::QOD => "fs^5"@,
        CoeffitientType::SOD => "fs^6"@,
    }
}

fn kind_name(k: CoeffitientType) -> (r: &'static str)
    ensures
        r@ == spec_kind_name(k),
{
    match k {
        CoeffitientType::GD => "GD",
        CoeffitientType::GDD => "GDD",
        CoeffitientType::TOD => "TOD",
        CoeffitientType::FOD => "FOD",
        CoeffitientType::QOD => "QOD",
        CoeffitientType::SOD => "SOD",
    }
}

/// The sum of a sequence of samples.
pub open spec fn spec_sum(vs: Seq<i64>) -> int
    decreases vs.len(),
{
    if vs.len() == 0 {
        0
    } else {
        spec_sum(vs.drop_last()) + vs.last()
    }
}

/// The sum of squared deviations from `m`.
pub open spec fn spec_sumsq(vs: Seq<i64>, m: int) -> int
    decreases vs.len(),
{
    if vs.len() == 0 {
        0
    } else {
        spec_sumsq(vs.drop_last(), m) + (vs.last() - m) * (vs.last() - m)
    }
}

/// The smallest sample.
pub open spec fn spec_min(vs: Seq<i64>) -> int
    decreases vs.len(),
{
    if vs.len() <= 1 {
        vs[0] as int
    } else {
        let r = spec_min(vs.drop_last());
        if vs.last() < r {
            vs.last() as int
        } else {
            r
        }
    }
}

/// The largest sample.
pub open spec fn spec_max(vs: Seq<i64>) -> int
    decreases vs.len(),
{
    if vs.len() <= 1 {
        vs[0] as int
    } else {
        let r = spec_max(vs.drop_last());
        if vs.last() > r {
            vs.last() as int
        } else {
            r
        }
    }
}

/// A kind with no nonzero sample is reported as omitted.
pub open spec fn spec_omitted(vs: Seq<i64>) -> bool {
    forall|k: int| 0 <= k < vs.len() ==> vs[k] == 0
}

/// The mean of the samples; group delay has none, nor has an empty kind.
pub open spec fn spec_mean(vs: Seq<i64>, k: CoeffitientType) -> Option<int> {
    if k is GD || vs.len() == 0 {
        None
    } else {
        Some(spec_round_div(spec_sum(vs), vs.len() as int))
    }
}

/// The population standard deviation in fixed point: the nearest-integer
/// square root of the mean squared deviation from the rounded mean.
pub open spec fn spec_std(vs: Seq<i64>, k: CoeffitientType) -> Option<int> {
    match spec_mean(vs, k) {
        None => None,
        Some(m) => Some(
            spec_isqrt_nearest(spec_round_div(spec_sumsq(vs, m), vs.len() as int) as nat) as int,
        ),
    }
}

/// A sample the way group-delay collection stores it: forced to the sign of
/// the first collected sample.
pub open spec fn spec_signed_like(first: int, v: int) -> int {
    let m = if v < 0 {
        -v
    } else {
        v
    };
    if first < 0 {
        -m
    } else {
        m
    }
}

/// Ordered samples of one coefficient kind.
#[derive(Clone, Debug)]
pub struct DispersionCoeffitient {
    coeff_vec: Vec<i64>,
    coeff_type: CoeffitientType,
}

impl DispersionCoeffitient {
    /// The samples held, in collection order.
    pub closed spec fn values(&self) -> Seq<i64> {
        self.coeff_vec@
    }

    /// The coefficient kind of this collection.
    pub closed spec fn kind(&self) -> CoeffitientType {
        self.coeff_type
    }

    /// The representable domain: every sample in five-decimal fixed-point
    /// range, and a count the statistics cannot overflow on.
    pub open spec fn wf(&self) -> bool {
        &&& self.values().len() <= 0x100000000
        &&& forall|k: int|
            0 <= k < self.values().len() ==> -10000000000000 < #[trigger] self.values()[k]
                < 10000000000000
    }

    /// An empty collection of the given kind.
    pub fn empty_with_type(coeff_type: CoeffitientType) -> (r: Self)
        ensures
            r.values() == Seq::<i64>::empty(),
            r.kind() == coeff_type,
            r.wf(),
    {
        DispersionCoeffitient { coeff_vec: Vec::new(), coeff_type }
    }

    /// A collection over the given samples.
    pub fn with_values_and_type(values: &[i64], coeff_type: CoeffitientType) -> (r: Self)
        requires
            values@.len() <= 0x100000000,
            forall|k: int|
                0 <= k < values@.len() ==> -10000000000000 < #[trigger] values@[k]
                    < 10000000000000,
        ensures
            r.values() == values@,
            r.kind() == coeff_type,
            r.wf(),
    {
        DispersionCoeffitient { coeff_vec: vstd::slice::slice_to_vec(values), coeff_type }
    }

    /// Collects one sample. For the group delay every sample after the first
    /// is forced to the sign of the first, a domain workaround for the phase
    /// sign ambiguity between independent measurements.
    pub fn push(&mut self, item: i64)
        requires
            old(self).wf(),
            old(self).values().len() < 0x100000000,
            -10000000000000 < item < 10000000000000,
        ensures
            final(self).kind() == old(self).kind(),
            final(self).wf(),
            final(self).values() == old(self).values().push(
                if old(self).kind() is GD && old(self).values().len() > 0 {
                    spec_signed_like(old(self).values()[0] as int, item as int) as i64
                } else {
                    item
                },
            ),
    {
        if matches!(self.coeff_type, CoeffitientType::GD) && self.coeff_vec.len() > 0 {
            let first = self.coeff_vec[0];
            let m: i64 = if item < 0 {
                -item
            } else {
                item
            };
            let adjusted: i64 = if first < 0 {
                -m
            } else {
                m
            };
            self.coeff_vec.push(adjusted);
        } else {
            self.coeff_vec.push(item);
        }
    }

    /// Appends samples as they are, without sign normalization.
    pub fn extend_from_slice(&mut self, items: &[i64])
        requires
            old(self).wf(),
            old(self).values().len() + items@.len() <= 0x100000000,
            forall|k: int|
                0 <= k < items@.len() ==> -10000000000000 < #[trigger] items@[k] < 10000000000000,
        ensures
            final(self).kind() == old(self).kind(),
            final(self).wf(),
            final(self).values() == old(self).values() + items@,
    {
        let mut i: usize = 0;
        while i < items.len()
            invariant
                i <= items@.len(),
                self.coeff_type == old(self).coeff_type,
                self.coeff_vec@ == old(self).coeff_vec@ + items@.take(i as int),
                old(self).wf(),
                old(self).values().len() + items@.len() <= 0x100000000,
                forall|k: int|
                    0 <= k < items@.len() ==> -10000000000000 < #[trigger] items@[k]
                        < 10000000000000,
            decreases items@.len() - i,
        {
            proof {
                assert(old(self).coeff_vec@ + items@.take(i + 1) =~= (old(self).coeff_vec@
                    + items@.take(i as int)).push(items@[i as int]));
            }
            self.coeff_vec.push(items[i]);
            i += 1;
        }
        proof {
            assert(items@.take(items@.len() as int) =~= items@);
            assert(final(self).wf());
        }
    }

    /// The number of collected samples.
    pub fn len(&self) -> (r: usize)
        ensures
            r == self.values().len(),
    {
        self.coeff_vec.len()
    }

    /// Whether no sample was collected.
    pub fn is_empty(&self) -> (r: bool)
        ensures
            r == (self.values().len() == 0),
    {
        self.coeff_vec.len() == 0
    }

    /// Whether the kind is reported as omitted: no nonzero sample.
    pub fn is_omitted(&self) -> (r: bool)
        ensures
            r == spec_omitted(self.values()),
    {
        let mut i: usize = 0;
        while i < self.coeff_vec.len()
            invariant
                i <= self.values().len(),
                forall|k: int| 0 <= k < i ==> self.values()[k] == 0,
            decreases self.values().len() - i,
        {
            if self.coeff_vec[i] != 0 {
                return false;
            }
            i += 1;
        }
        true
    }

    /// The rounded mean of the samples; the group delay has none, nor has an
    /// empty kind.
    pub fn mean(&self) -> (r: Option<i64>)
        requires
            self.wf(),
        ensures
            match r {
                Some(m) => spec_mean(self.values(), self.kind()) == Some(m as int)
                    && -10000000000000 < m < 10000000000000,
                None => spec_mean(self.values(), self.kind()) is None,
            },
    {
        if matches!(self.coeff_type, CoeffitientType::GD) || self.coeff_vec.len() == 0 {
            return None;
        }
        let n = self.coeff_vec.len();
        let mut sum: i128 = 0;
        let mut i: usize = 0;
        while i < n
            invariant
                i <= n,
                n == self.values().len(),
                self.wf(),
                sum == spec_sum(self.values().take(i as int)),
                -((i as int) * 9999999999999) <= sum <= (i as int) * 9999999999999,
            decreases n - i,
        {
            proof {
                assert(self.values().take(i + 1).drop_last() =~= self.values().take(i as int));
                assert(self.values().take(i + 1).last() == self.values()[i as int]);
            }
            sum = sum + self.coeff_vec[i] as i128;
            i += 1;
        }
        proof {
            assert(self.values().take(n as int) =~= self.values());
        }
        let m = round_div(sum, n as i128);
        proof {
            let ni = n as int;
            assert(-10000000000000 < m < 10000000000000) by (nonlinear_arith)
                requires
                    ni >= 1,
                    2 * ni * m - ni <= 2 * (sum as int) <= 2 * ni * m + ni,
                    -(ni * 9999999999999) <= sum <= ni * 9999999999999,
            ;
        }
        Some(m as i64)
    }

    /// The population standard deviation of the samples, in fixed point: the
    /// nearest-integer square root of the mean squared deviation from the
    /// rounded mean. The group delay has none, nor has an empty kind.
    pub fn std_deviation(&self) -> (r: Option<i64>)
        requires
            self.wf(),
        ensures
            match r {
                Some(s) => spec_std(self.values(), self.kind()) == Some(s as int) && 0 <= s
                    <= 35184372088832,
                None => spec_std(self.values(), self.kind()) is None,
            },
    {
        let m: i64 = match self.mean() {
            Some(m) => m,
            None => {
                return None;
            },
        };
        let n = self.coeff_vec.len();
        let mut ssq: i128 = 0;
        let mut i: usize = 0;
        while i < n
            invariant
                i <= n,
                n == self.values().len(),
                self.wf(),
                -10000000000000 < m < 10000000000000,
                ssq == spec_sumsq(self.values().take(i as int), m as int),
                0 <= ssq <= (i as int) * 400000000000000000000000000,
            decreases n - i,
        {
            proof {
                assert(self.values().take(i + 1).drop_last() =~= self.values().take(i as int));
                assert(self.values().take(i + 1).last() == self.values()[i as int]);
            }
            let d: i128 = self.coeff_vec[i] as i128 - m as i128;
            proof {
                assert(0 <= (d as int) * (d as int) <= 400000000000000000000000000)
                    by (nonlinear_arith)
                    requires
                        -20000000000000 < (d as int) < 20000000000000,
                ;
            }
            ssq = ssq + d * d;
            i += 1;
        }
        proof {
            assert(self.values().take(n as int) =~= self.values());
        }
        let var = round_div(ssq, n as i128);
        proof {
            let ni = n as int;
            assert(0 <= var <= 400000000000000000000000000) by (nonlinear_arith)
                requires
                    1 <= ni <= 0x100000000,
                    2 * ni * var - ni <= 2 * (ssq as int) <= 2 * ni * var + ni,
                    0 <= ssq <= ni * 400000000000000000000000000,
            ;
        }
        let s = isqrt_nearest(var);
        Some(s as i64)
    }

    /// The physical unit of this kind's samples.
    pub fn unit(&self) -> (r: String)
        ensures
            r@ == spec_kind_unit(self.kind()),
    {
        let u: &'static str = match self.coeff_type {
            CoeffitientType::GD => "fs",
            CoeffitientType::GDD => "fs^2",
            CoeffitientType::TOD => "fs^3",
            CoeffitientType::FOD => "fs^4",
            CoeffitientType::QOD => "fs^5",
            CoeffitientType::SOD => "fs^6",
        };
        String::from_str(u)
    }

    /// The smallest sample, when there is one.
    pub fn min(&self) -> (r: Option<i64>)
        ensures
            match r {
                Some(m) => self.values().len() > 0 && m == spec_min(self.values()),
                None => self.values().len() == 0,
            },
    {
        if self.coeff_vec.len() == 0 {
            return None;
        }
        let mut best = self.coeff_vec[0];
        let mut i: usize = 1;
        proof {
            assert(self.values().take(1).drop_last() =~= Seq::<i64>::empty());
        }
        while i < self.coeff_vec.len()
            invariant
                1 <= i <= self.values().len(),
                best == spec_min(self.values().take(i as int)),
            decreases self.values().len() - i,
        {
            proof {
                assert(self.values().take(i + 1).drop_last() =~= self.values().take(i as int));
                assert(self.values().take(i + 1).last() == self.values()[i as int]);
            }
            if self.coeff_vec[i] < best {
                best = self.coeff_vec[i];
            }
            i += 1;
        }
        proof {
            assert(self.values().take(self.values().len() as int) =~= self.values());
        }
        Some(best)
    }

    /// The largest sample, when there is one.
    pub fn max(&self) -> (r: Option<i64>)
        ensures
            match r {
                Some(m) => self.values().len() > 0 && m == spec_max(self.values()),
                None => self.values().len() == 0,
            },
    {
        if self.coeff_vec.len() == 0 {
            return None;
        }
        let mut best = self.coeff_vec[0];
        let mut i: usize = 1;
        proof {
            assert(self.values().take(1).drop_last() =~= Seq::<i64>::empty());
        }
        while i < self.coeff_vec.len()
            invariant
                1 <= i <= self.values().len(),
                best == spec_max(self.values().take(i as int)),
            decreases self.values().len() - i,
        {
            proof {
                assert(self.values().take(i + 1).drop_last() =~= self.values().take(i as int));
                assert(self.values().take(i + 1).last() == self.values()[i as int]);
            }
            if self.coeff_vec[i] > best {
                best = self.coeff_vec[i];
            }
            i += 1;
        }
        proof {
            assert(self.values().take(self.values().len() as int) =~= self.values());
        }
        Some(best)
    }
}

/// The extreme samples lie inside the fixed-point domain.
proof fn lemma_min_max_bounds(vs: Seq<i64>)
    requires
        vs.len() > 0,
        forall|k: int| 0 <= k < vs.len() ==> -10000000000000 < #[trigger] vs[k] < 10000000000000,
    ensures
        -10000000000000 < spec_min(vs) < 10000000000000,
        -10000000000000 < spec_max(vs) < 10000000000000,
    decreases vs.len(),
{
    if vs.len() > 1 {
        lemma_min_max_bounds(vs.drop_last());
    }
}

/// The report line of one coefficient kind: omitted kinds say so, the group
/// delay reports only its range, every other kind reports mean, deviation
/// and range, right-aligned, with its unit.
pub open spec fn spec_coeff_line(vs: Seq<i64>, k: CoeffitientType) -> Seq<char> {
    if spec_omitted(vs) {
        spec_kind_name(k) + ": omitted.."@
    } else if k is GD {
        spec_kind_name(k) + " ranging from "@ + spec_fixed_str(spec_min(vs)) + " to "@
            + spec_fixed_str(spec_max(vs)) + " "@ + spec_kind_unit(k)
            + " (might be inaccurate due to sign conversions)"@
    } else {
        spec_kind_name(k) + ": mean = "@ + crate::text::spec_pad_left(
            spec_fixed_str(
                match spec_mean(vs, k) {
                    Some(m) => m,
                    None => 0,
                },
            ),
            12,
            ' ',
        ) + " | std = "@ + crate::text::spec_pad_left(
            spec_fixed_str(
                match spec_std(vs, k) {
                    Some(s) => s,
                    None => 0,
                },
            ),
            12,
            ' ',
        ) + " | min = "@ + crate::text::spec_pad_left(spec_fixed_str(spec_min(vs)), 12, ' ')
            + " | max = "@ + crate::text::spec_pad_left(spec_fixed_str(spec_max(vs)), 12, ' ')
            + "  "@ + spec_kind_unit(k)
    }
}

impl DispersionCoeffitient {
    /// The report line for this kind.
    pub fn to_text(&self) -> (r: String)
        requires
            self.wf(),
        ensures
            r@ == spec_coeff_line(self.values(), self.kind()),
    {
        let mut s = String::from_str(kind_name(self.coeff_type));
        if self.is_omitted() {
            s.append(": omitted..");
            proof {
                assert(s@ =~= spec_coeff_line(self.values(), self.kind()));
            }
            return s;
        }
        proof {
            if self.values().len() == 0 {
                assert(spec_omitted(self.values()));
            }
            lemma_min_max_bounds(self.values());
        }
        let mn = self.min().unwrap();
        let mx = self.max().unwrap();
        if matches!(self.coeff_type, CoeffitientType::GD) {
            s.append(" ranging from ");
            s.append(fixed_to_string(mn).as_str());
            s.append(" to ");
            s.append(fixed_to_string(mx).as_str());
            s.append(" ");
            s.append(self.unit().as_str());
            s.append(" (might be inaccurate due to sign conversions)");
            proof {
                assert(s@ =~= spec_coeff_line(self.values(), self.kind()));
            }
            s
        } else {
            let m: i64 = match self.mean() {
                Some(m) => m,
                None => 0,
            };
            let sd: i64 = match self.std_deviation() {
                Some(v) => v,
                None => 0,
            };
            s.append(": mean = ");
            s.append(crate::text::pad_left(fixed_to_string(m).as_str(), 12, ' ').as_str());
            s.append(" | std = ");
            s.append(crate::text::pad_left(fixed_to_string(sd).as_str(), 12, ' ').as_str());
            s.append(" | min = ");
            s.append(crate::text::pad_left(fixed_to_string(mn).as_str(), 12, ' ').as_str());
            s.append(" | max = ");
            s.append(crate::text::pad_left(fixed_to_string(mx).as_str(), 12, ' ').as_str());
            s.append("  ");
            s.append(self.unit().as_str());
            proof {
                assert(s@ =~= spec_coeff_line(self.values(), self.kind()));
            }
            s
        }
    }
}

/// One encoded scalar of a result entry, as the store decoder hands it over:
/// a string, a number kept as its literal text, or any other encoding.
#[derive(Clone, Debug)]
pub enum JsonScalar {
    Text(String),
    Num(String),
    Other,
}

/// The fixed-point value an encoding contributes: numeric or numeric-string
/// encodings inside the domain read as themselves, anything else as zero.
pub open spec fn spec_scalar_value(j: JsonScalar) -> i64 {
    match j {
        JsonScalar::Text(s) => match spec_parse_fixed(s@) {
            Some(v) => v as i64,
            None => 0,
        },
        JsonScalar::Num(s) => match spec_parse_fixed(s@) {
            Some(v) => v as i64,
            None => 0,
        },
        JsonScalar::Other => 0,
    }
}

fn scalar_value(j: &JsonScalar) -> (r: i64)
    ensures
        r == spec_scalar_value(*j),
        -10000000000000 < r < 10000000000000,
{
    match j {
        JsonScalar::Text(s) => match parse_fixed(s.as_str()) {
            Some(v) => v,
            None => 0,
        },
        JsonScalar::Num(s) => match parse_fixed(s.as_str()) {
            Some(v) => v,
            None => 0,
        },
        JsonScalar::Other => 0,
    }
}

/// One record of the result store: the six coefficient encodings and the
/// method name, keyed in the store by the source file name.
#[derive(Clone, Debug)]
pub struct ResultEntry {
    pub gd: JsonScalar,
    pub gdd: JsonScalar,
    pub tod: JsonScalar,
    pub fod: JsonScalar,
    pub qod: JsonScalar,
    pub sod: JsonScalar,
    pub method: Option<String>,
}

/// The value an entry contributes to one coefficient kind.
pub open spec fn spec_entry_value(e: ResultEntry, k: CoeffitientType) -> i64 {
    match k {
        CoeffitientType::GD => spec_scalar_value(e.gd),
        CoeffitientType::GDD => spec_scalar_value(e.gdd),
        CoeffitientType::TOD => spec_scalar_value(e.tod),
        CoeffitientType::FOD => spec_scalar_value(e.fod),
        CoeffitientType::QOD => spec_scalar_value(e.qod),
        CoeffitientType::SOD => spec_scalar_value(e.sod),
    }
}

fn entry_value(e: &ResultEntry, k: CoeffitientType) -> (r: i64)
    ensures
        r == spec_entry_value(*e, k),
        -10000000000000 < r < 10000000000000,
{
    match k {
        CoeffitientType::GD => scalar_value(&e.gd),
        CoeffitientType::GDD => scalar_value(&e.gdd),
        CoeffitientType::TOD => scalar_value(&e.tod),
        CoeffitientType::FOD => scalar_value(&e.fod),
        CoeffitientType::QOD => scalar_value(&e.qod),
        CoeffitientType::SOD => scalar_value(&e.sod),
    }
}

/// The raw per-entry values of one kind, in store order.
pub open spec fn spec_raw(entries: Seq<ResultEntry>, k: CoeffitientType) -> Seq<i64> {
    entries.map_values(|e: ResultEntry| spec_entry_value(e, k))
}

/// Group-delay sign normalization over a collected sequence: the first value
/// stays, every later one takes the first one's sign.
pub open spec fn spec_normalize(raw: Seq<i64>) -> Seq<i64> {
    Seq::new(
        raw.len(),
        |i: int|
            if i == 0 {
                raw[0]
            } else {
                spec_signed_like(raw[0] as int, raw[i] as int) as i64
            },
    )
}

/// What one kind collects over the store: raw values, sign-normalized for
/// the group delay only.
pub open spec fn spec_collected(entries: Seq<ResultEntry>, k: CoeffitientType) -> Seq<i64> {
    if k is GD {
        spec_normalize(spec_raw(entries, k))
    } else {
        spec_raw(entries, k)
    }
}

proof fn lemma_collected_step(entries: Seq<ResultEntry>, i: int, k: CoeffitientType)
    requires
        0 <= i < entries.len(),
    ensures
        spec_collected(entries.take(i + 1), k) == spec_collected(entries.take(i), k).push(
            if k is GD && i > 0 {
                spec_signed_like(
                    spec_entry_value(entries[0], k) as int,
                    spec_entry_value(entries[i], k) as int,
                ) as i64
            } else {
                spec_entry_value(entries[i], k)
            },
        ),
        i > 0 ==> spec_collected(entries.take(i), k)[0] == spec_entry_value(entries[0], k),
{
    let a = spec_collected(entries.take(i + 1), k);
    let b = spec_collected(entries.take(i), k).push(
        if k is GD && i > 0 {
            spec_signed_like(
                spec_entry_value(entries[0], k) as int,
                spec_entry_value(entries[i], k) as int,
            ) as i64
        } else {
            spec_entry_value(entries[i], k)
        },
    );
    assert forall|j: int| 0 <= j < a.len() implies a[j] == b[j] by {
        assert(entries.take(i + 1)[j] == entries[j]);
        if j < i {
            assert(entries.take(i)[j] == entries[j]);
        }
        if i > 0 {
            assert(entries.take(i)[0] == entries[0]);
        }
        assert(entries.take(i + 1)[0] == entries[0]);
    }
    assert(a =~= b);
    if i > 0 {
        assert(entries.take(i)[0] == entries[0]);
    }
}

/// The method line of the report: the method of the last-seen entry.
pub open spec fn spec_method_line(entries: Seq<ResultEntry>) -> Seq<char> {
    "method: "@ + (if entries.len() == 0 {
        Seq::<char>::empty()
    } else {
        match entries.last().method {
            Some(s) => s@,
            None => "unknown"@,
        }
    }) + "\n"@
}

/// The whole printed summary of a result store: the entry count, the method
/// of the last-seen entry, and one line per coefficient kind.
pub open spec fn spec_summary(entries: Seq<ResultEntry>) -> Seq<char> {
    crate::text::spec_udec(entries.len()) + " entries found.\n"@ + spec_method_line(entries)
        + spec_coeff_line(spec_collected(entries, CoeffitientType::GD), CoeffitientType::GD) + "\n"@
        + spec_coeff_line(spec_collected(entries, CoeffitientType::GDD), CoeffitientType::GDD)
        + "\n"@ + spec_coeff_line(spec_collected(entries, CoeffitientType::TOD), CoeffitientType::TOD)
        + "\n"@ + spec_coeff_line(spec_collected(entries, CoeffitientType::FOD), CoeffitientType::FOD)
        + "\n"@ + spec_coeff_line(spec_collected(entries, CoeffitientType::QOD), CoeffitientType::QOD)
        + "\n"@ + spec_coeff_line(spec_collected(entries, CoeffitientType::SOD), CoeffitientType::SOD)
        + "\n"@
}

/// Law: the summary is a function of the store contents alone, so
/// summarizing the same entries a second time prints the same statistics.
pub proof fn lemma_summary_deterministic(a: Seq<ResultEntry>, b: Seq<ResultEntry>)
    requires
        a == b,
    ensures
        spec_summary(a) == spec_summary(b),
{
}

fn collect_kind(entries: &Vec<ResultEntry>, k: CoeffitientType) -> (r: DispersionCoeffitient)
    requires
        entries@.len() <= 0x100000000,
    ensures
        r.kind() == k,
        r.wf(),
        r.values() == spec_collected(entries@, k),
{
    let mut acc = DispersionCoeffitient::empty_with_type(k);
    let mut i: usize = 0;
    proof {
        assert(entries@.take(0) =~= Seq::<ResultEntry>::empty());
        assert(spec_collected(entries@.take(0), k) =~= Seq::<i64>::empty());
    }
    while i < entries.len()
        invariant
            i <= entries@.len() <= 0x100000000,
            acc.kind() == k,
            acc.wf(),
            acc.values() == spec_collected(entries@.take(i as int), k),
            acc.values().len() == i,
        decreases entries@.len() - i,
    {
        let v = entry_value(&entries[i], k);
        proof {
            lemma_collected_step(entries@, i as int, k);
        }
        acc.push(v);
        i += 1;
    }
    proof {
        assert(entries@.take(entries@.len() as int) =~= entries@);
    }
    acc
}

/// Builds the printed summary of a result store: the entry records in store
/// order, one value per kind and entry, group-delay signs aligned to the
/// first entry, and per-kind statistics.
#[verifier::rlimit(100)]
pub fn summarize_entries(entries: &Vec<ResultEntry>) -> (r: String)
    requires
        entries@.len() <= 0x100000000,
    ensures
        r@ == spec_summary(entries@),
{
    let gds = collect_kind(entries, CoeffitientType::GD);
    let gdds = collect_kind(entries, CoeffitientType::GDD);
    let tods = collect_kind(entries, CoeffitientType::TOD);
    let fods = collect_kind(entries, CoeffitientType::FOD);
    let qods = collect_kind(entries, CoeffitientType::QOD);
    let sods = collect_kind(entries, CoeffitientType::SOD);
    let mut ml = String::from_str("method: ");
    if entries.len() > 0 {
        match &entries[entries.len() - 1].method {
            Some(m) => ml.append(m.as_str()),
            None => ml.append("unknown"),
        }
        proof {
            assert(entries@.last() == entries@[entries@.len() - 1]);
        }
    }
    ml.append("\n");
    proof {
        assert(ml@ =~= spec_method_line(entries@));
    }
    let mut s = crate::text::u64_to_string(entries.len() as u64);
    s.append(" entries found.\n");
    s.append(ml.as_str());
    s.append(gds.to_text().as_str());
    s.append("\n");
    s.append(gdds.to_text().as_str());
    s.append("\n");
    s.append(tods.to_text().as_str());
    s.append("\n");
    s.append(fods.to_text().as_str());
    s.append("\n");
    s.append(qods.to_text().as_str());
    s.append("\n");
    s.append(sods.to_text().as_str());
    s.append("\n");
    proof {
        assert((entries@.len() as u64) as nat == entries@.len());
        assert(s@ == spec_summary(entries@));
    }
    s
}

} // verus!
