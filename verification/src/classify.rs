//! Grouping of discovered files into measurement arms.
//!
//! Under `Triple` grouping, consecutive runs of three files form one
//! measurement: interferogram, sample, reference. A remainder that does not
//! fill a group of three is left out, with a warning. `AllAsPrimary` treats
//! every file as its own measurement, and `PrimaryOnly` keeps only the
//! interferogram arm of the triple grouping.

use vstd::prelude::*;
use crate::config::GroupingMode;

verus! {

/// The number of files kept under triple grouping: the largest multiple of
/// three that fits, so all but the trailing `n % 3` files.
pub open spec fn spec_kept(n: nat) -> nat {
    3 * (n / 3)
}

/// The interferogram arm of a triple grouping: every third file.
pub open spec fn spec_primary(files: Seq<String>) -> Seq<String> {
    Seq::new(files.len() / 3, |i: int| files[3 * i])
}

/// The sample arm of a triple grouping.
pub open spec fn spec_secondary(files: Seq<String>) -> Seq<String> {
    Seq::new(files.len() / 3, |i: int| files[3 * i + 1])
}

/// The reference arm of a triple grouping.
pub open spec fn spec_tertiary(files: Seq<String>) -> Seq<String> {
    Seq::new(files.len() / 3, |i: int| files[3 * i + 2])
}

/// Three equally long arm sequences woven back into one: group `i`
/// contributes `a[i], b[i], c[i]` in that order.
pub open spec fn spec_interleave3(a: Seq<String>, b: Seq<String>, c: Seq<String>) -> Seq<String>
    recommends
        a.len() == b.len() == c.len(),
{
    Seq::new(
        3 * a.len(),
        |i: int|
            if i % 3 == 0 {
                a[i / 3]
            } else if i % 3 == 1 {
                b[i / 3]
            } else {
                c[i / 3]
            },
    )
}

/// The three ordered arm sequences of one classification.
pub struct ClassifiedFileSet {
    pub primary: Vec<String>,
    pub secondary: Vec<String>,
    pub tertiary: Vec<String>,
}

fn clone_strings(v: &Vec<String>) -> (r: Vec<String>)
    ensures
        r@ == v@,
{
    let mut out: Vec<String> = Vec::new();
    let mut i: usize = 0;
    while i < v.len()
        invariant
            i <= v@.len(),
            out@.len() == i,
            forall|k: int| 0 <= k < i ==> out@[k] == v@[k],
        decreases v@.len() - i,
    {
        out.push(v[i].clone());
        i += 1;
    }
    proof {
        assert(out@ =~= v@);
    }
    out
}

/// Splits the files into the three arms of a triple grouping, discarding the
/// trailing files of an incomplete group.
pub fn sort_by_arms(files: &Vec<String>) -> (r: (Vec<String>, Vec<String>, Vec<String>))
    ensures
        r.0@ == spec_primary(files@),
        r.1@ == spec_secondary(files@),
        r.2@ == spec_tertiary(files@),
{
    let mut ifgs: Vec<String> = Vec::new();
    let mut sams: Vec<String> = Vec::new();
    let mut refs: Vec<String> = Vec::new();
    let flen = files.len();
    let k = flen / 3;
    let mut j: usize = 0;
    while j < k
        invariant
            j <= k,
            flen == files@.len(),
            k == files@.len() as int / 3,
            ifgs@.len() == j,
            sams@.len() == j,
            refs@.len() == j,
            forall|q: int| 0 <= q < j ==> ifgs@[q] == files@[3 * q],
            forall|q: int| 0 <= q < j ==> sams@[q] == files@[3 * q + 1],
            forall|q: int| 0 <= q < j ==> refs@[q] == files@[3 * q + 2],
        decreases k - j,
    {
        proof {
            let n = files@.len() as int;
            vstd::arithmetic::div_mod::lemma_fundamental_div_mod(n, 3);
            assert(3 * (j as int) + 2 < n);
            assert(n <= usize::MAX as int);
        }
        ifgs.push(files[3 * j].clone());
        sams.push(files[3 * j + 1].clone());
        refs.push(files[3 * j + 2].clone());
        j += 1;
    }
    proof {
        assert(ifgs@ =~= spec_primary(files@));
        assert(sams@ =~= spec_secondary(files@));
        assert(refs@ =~= spec_tertiary(files@));
    }
    (ifgs, sams, refs)
}

/// The warning emitted when a triple grouping cannot use every file.
pub fn remainder_warning() -> (r: String)
    ensures
        r@ == "the number of files is not divisible by 3; the trailing files are left out"@,
{
    String::from_str("the number of files is not divisible by 3; the trailing files are left out")
}

/// Groups the files into arms under the given mode. The second part of the
/// result is the warning of an incomplete triple grouping, when one applies.
pub fn classify(files: &Vec<String>, mode: GroupingMode) -> (r: (
    ClassifiedFileSet,
    Option<String>,
))
    ensures
        mode is Triple ==> r.0.primary@ == spec_primary(files@) && r.0.secondary@
            == spec_secondary(files@) && r.0.tertiary@ == spec_tertiary(files@),
        mode is AllAsPrimary ==> r.0.primary@ == files@ && r.0.secondary@.len() == 0
            && r.0.tertiary@.len() == 0,
        mode is PrimaryOnly ==> r.0.primary@ == spec_primary(files@) && r.0.secondary@.len() == 0
            && r.0.tertiary@.len() == 0,
        r.1 is Some <==> !(mode is AllAsPrimary) && files@.len() % 3 != 0,
        r.1 is Some ==> r.1.unwrap()@
            == "the number of files is not divisible by 3; the trailing files are left out"@,
{
    let warning = if !matches!(mode, GroupingMode::AllAsPrimary) && files.len() % 3 != 0 {
        Some(remainder_warning())
    } else {
        None
    };
    let set = match mode {
        GroupingMode::Triple => {
            let (ifgs, sams, refs) = sort_by_arms(files);
            ClassifiedFileSet { primary: ifgs, secondary: sams, tertiary: refs }
        },
        GroupingMode::AllAsPrimary => ClassifiedFileSet {
            primary: clone_strings(files),
            secondary: Vec::new(),
            tertiary: Vec::new(),
        },
        GroupingMode::PrimaryOnly => {
            let (ifgs, _sams, _refs) = sort_by_arms(files);
            ClassifiedFileSet { primary: ifgs, secondary: Vec::new(), tertiary: Vec::new() }
        },
    };
    (set, warning)
}

/// Law: under triple grouping the three arms each hold a third of the kept
/// files, and weaving `primary[i], secondary[i], tertiary[i]` back together,
/// group by group, rebuilds exactly the kept prefix of the input — the whole
/// input when its length is a multiple of three, and all but the trailing
/// `len % 3` files otherwise.
pub proof fn lemma_triple_reconstruction(files: Seq<String>)
    ensures
        spec_primary(files).len() == files.len() / 3,
        spec_secondary(files).len() == files.len() / 3,
        spec_tertiary(files).len() == files.len() / 3,
        spec_interleave3(spec_primary(files), spec_secondary(files), spec_tertiary(files))
            == files.take(spec_kept(files.len()) as int),
{
    let n = files.len();
    let k = n / 3;
    vstd::arithmetic::div_mod::lemma_fundamental_div_mod(n as int, 3);
    assert(spec_kept(n) == 3 * k && spec_kept(n) <= n);
    let woven = spec_interleave3(spec_primary(files), spec_secondary(files), spec_tertiary(files));
    assert forall|i: int| 0 <= i < 3 * k implies woven[i] == files[i] by {
        let g = i / 3;
        let m = i % 3;
        vstd::arithmetic::div_mod::lemma_fundamental_div_mod(i, 3);
        assert(i == 3 * g + m && 0 <= m < 3 && 0 <= g < k);
        if m == 0 {
            assert(woven[i] == spec_primary(files)[g]);
        } else if m == 1 {
            assert(woven[i] == spec_secondary(files)[g]);
        } else {
            assert(woven[i] == spec_tertiary(files)[g]);
        }
    }
    assert(woven =~= files.take(spec_kept(n) as int));
}

} // verus!
