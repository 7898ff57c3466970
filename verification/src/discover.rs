//! File discovery: which entries of the watched directory take part in an
//! evaluation run. A file is kept when its extension is configured, its name
//! is not skip-listed, and no exclude pattern matches its full path; the kept
//! names are sorted for determinism.

use vstd::prelude::*;
use crate::config::{LoadOptions, LoadOptionsModel, StringSequence};
use crate::glob::glob_matches;
use crate::text::str_seq_sorted;

verus! {

/// The index of the last `'.'` in `s`, or `-1` when there is none.
pub open spec fn spec_rlast_dot(s: Seq<char>) -> int
    decreases s.len(),
{
    if s.len() == 0 {
        -1
    } else if s[s.len() - 1] == '.' {
        s.len() - 1
    } else {
        spec_rlast_dot(s.drop_last())
    }
}

/// The extension of a file name: what follows the last dot. A name without a
/// dot, or whose only dot leads it, has none.
pub open spec fn spec_extension(name: Seq<char>) -> Option<Seq<char>> {
    let d = spec_rlast_dot(name);
    if d <= 0 {
        None
    } else {
        Some(name.subrange(d + 1, name.len() as int))
    }
}

/// The stem of a file name: what precedes its extension.
pub open spec fn spec_stem(name: Seq<char>) -> Seq<char> {
    let d = spec_rlast_dot(name);
    if d <= 0 {
        name
    } else {
        name.subrange(0, d)
    }
}

proof fn lemma_rlast_dot_bounds(s: Seq<char>)
    ensures
        -1 <= spec_rlast_dot(s) < s.len(),
        spec_rlast_dot(s) >= 0 ==> s[spec_rlast_dot(s)] == '.',
    decreases s.len(),
{
    if s.len() > 0 && s[s.len() - 1] != '.' {
        lemma_rlast_dot_bounds(s.drop_last());
        if spec_rlast_dot(s.drop_last()) >= 0 {
            assert(s.drop_last()[spec_rlast_dot(s.drop_last())] == s[spec_rlast_dot(s)]);
        }
    }
}

/// The extension of a file name, when it has one.
pub fn extension_of(name: &str) -> (r: Option<String>)
    ensures
        match r {
            Some(e) => spec_extension(name@) == Some(e@),
            None => spec_extension(name@) is None,
        },
{
    let len = name.unicode_len();
    let mut i = len;
    proof {
        assert(name@.take(len as int) =~= name@);
    }
    while i > 0
        invariant
            i <= len,
            len == name@.len(),
            spec_rlast_dot(name@) == spec_rlast_dot(name@.take(i as int)),
        decreases i,
    {
        let c = name.get_char(i - 1);
        proof {
            assert(name@.take(i as int)[i - 1] == name@[i - 1]);
            assert(name@.take(i as int).drop_last() =~= name@.take(i - 1));
        }
        if c == '.' {
            proof {
                assert(spec_rlast_dot(name@.take(i as int)) == i - 1);
            }
            if i == 1 {
                return None;
            }
            let e = name.substring_char(i, len);
            let r = String::from_str(e);
            proof {
                assert(r@ == name@.subrange(i as int, len as int));
            }
            return Some(r);
        }
        i -= 1;
    }
    proof {
        assert(name@.take(0) =~= Seq::<char>::empty());
    }
    None
}

/// The stem of a file name: everything before its extension.
pub fn file_stem_of(name: &str) -> (r: String)
    ensures
        r@ == spec_stem(name@),
{
    let len = name.unicode_len();
    let mut i = len;
    proof {
        assert(name@.take(len as int) =~= name@);
    }
    while i > 0
        invariant
            i <= len,
            len == name@.len(),
            spec_rlast_dot(name@) == spec_rlast_dot(name@.take(i as int)),
        decreases i,
    {
        let c = name.get_char(i - 1);
        proof {
            assert(name@.take(i as int)[i - 1] == name@[i - 1]);
            assert(name@.take(i as int).drop_last() =~= name@.take(i - 1));
        }
        if c == '.' {
            proof {
                assert(spec_rlast_dot(name@.take(i as int)) == i - 1);
            }
            if i == 1 {
                return String::from_str(name);
            }
            let s = name.substring_char(0, i - 1);
            return String::from_str(s);
        }
        i -= 1;
    }
    proof {
        assert(name@.take(0) =~= Seq::<char>::empty());
    }
    String::from_str(name)
}

/// A root directory and a file name joined into one path.
pub open spec fn spec_join(root: Seq<char>, name: Seq<char>) -> Seq<char> {
    root + "/"@ + name
}

/// Joins a root directory and a file name with a path separator.
pub fn join_path(root: &str, name: &str) -> (r: String)
    ensures
        r@ == spec_join(root@, name@),
{
    let mut r = String::from_str(root);
    r.append("/");
    r.append(name);
    r
}

/// Borrowing form of `StringSequence::into_comparable`.
pub fn string_sequence_to_vec(ss: &StringSequence) -> (r: Vec<String>)
    ensures
        r@ == ss.spec_strings(),
{
    match ss {
        StringSequence::Single(s) => {
            let mut v = Vec::new();
            v.push(s.clone());
            proof {
                assert(v@ =~= ss.spec_strings());
            }
            v
        },
        StringSequence::Vector(items) => {
            let mut v: Vec<String> = Vec::new();
            let mut i: usize = 0;
            while i < items.len()
                invariant
                    i <= items@.len(),
                    v@.len() == i,
                    forall|k: int| 0 <= k < i ==> v@[k] == items@[k],
                decreases items@.len() - i,
            {
                v.push(items[i].clone());
                i += 1;
            }
            proof {
                assert(v@ =~= items@);
            }
            v
        },
    }
}

/// The exclude patterns of the load options, as plain strings.
pub fn get_exclude_patterns(file_pattern_options: &LoadOptions) -> (r: Vec<String>)
    ensures
        r@ == file_pattern_options.exclude_patterns.spec_strings(),
{
    string_sequence_to_vec(&file_pattern_options.exclude_patterns)
}

pub(crate) fn sequence_contains(ss: &StringSequence, text: &str) -> (r: bool)
    ensures
        r == ss.items().contains(text@),
{
    let items = string_sequence_to_vec(ss);
    let mut i: usize = 0;
    while i < items.len()
        invariant
            i <= items@.len(),
            items@ == ss.spec_strings(),
            forall|k: int| 0 <= k < i ==> items@[k]@ != text@,
        decreases items@.len() - i,
    {
        if crate::text::str_eq(items[i].as_str(), text) {
            proof {
                assert(ss.items()[i as int] == items@[i as int]@);
            }
            return true;
        }
        i += 1;
    }
    proof {
        assert forall|j: int| 0 <= j < ss.items().len() implies ss.items()[j] != text@ by {
            assert(ss.items()[j] == items@[j]@);
        }
    }
    false
}

fn any_pattern_matches(ss: &StringSequence, text: &str) -> (r: bool)
    ensures
        r == exists|j: int|
            0 <= j < ss.items().len() && glob_matches(#[trigger] ss.items()[j], text@),
{
    let patterns = string_sequence_to_vec(ss);
    let mut i: usize = 0;
    while i < patterns.len()
        invariant
            i <= patterns@.len(),
            patterns@ == ss.spec_strings(),
            forall|k: int| 0 <= k < i ==> !glob_matches(#[trigger] ss.items()[k], text@),
        decreases patterns@.len() - i,
    {
        proof {
            assert(ss.items()[i as int] == patterns@[i as int]@);
        }
        if crate::glob::glob_match(patterns[i].as_str(), text) {
            return true;
        }
        i += 1;
    }
    false
}

/// Whether discovery keeps this file: a configured extension, not
/// skip-listed, and no exclude pattern matching the joined path.
pub open spec fn spec_keeps(name: Seq<char>, root: Seq<char>, lo: LoadOptionsModel) -> bool {
    &&& match spec_extension(name) {
        Some(e) => lo.extensions.contains(e),
        None => false,
    }
    &&& !lo.skip_files.contains(name)
    &&& !(exists|j: int|
        0 <= j < lo.exclude_patterns.len() && glob_matches(
            #[trigger] lo.exclude_patterns[j],
            spec_join(root, name),
        ))
}

/// The subsequence of candidate names that discovery keeps, in input order.
pub open spec fn spec_kept_files(
    names: Seq<String>,
    root: Seq<char>,
    lo: LoadOptionsModel,
) -> Seq<String>
    decreases names.len(),
{
    if names.len() == 0 {
        Seq::empty()
    } else {
        let rest = spec_kept_files(names.drop_first(), root, lo);
        if spec_keeps(names[0]@, root, lo) {
            seq![names[0]] + rest
        } else {
            rest
        }
    }
}

fn keeps_file(name: &String, root: &str, options: &LoadOptions) -> (r: bool)
    ensures
        r == spec_keeps(name@, root@, options@),
{
    let has_ext = match extension_of(name.as_str()) {
        Some(e) => sequence_contains(&options.extensions, e.as_str()),
        None => false,
    };
    if !has_ext {
        return false;
    }
    if sequence_contains(&options.skip_files, name.as_str()) {
        return false;
    }
    let path = join_path(root, name.as_str());
    !any_pattern_matches(&options.exclude_patterns, path.as_str())
}

/// Keeps the candidate file names that discovery accepts and sorts them
/// lexicographically. Candidates are the names of the regular files of the
/// directory being evaluated; the result lists the kept names in sorted
/// order.
pub fn select_files(names: &Vec<String>, root: &str, options: &LoadOptions) -> (r: Vec<String>)
    ensures
        str_seq_sorted(r@),
        r@.to_multiset() == spec_kept_files(names@, root@, options@).to_multiset(),
{
    let ghost lo = options@;
    let mut out: Vec<String> = Vec::new();
    let mut i: usize = 0;
    proof {
        assert(names@.skip(0) =~= names@);
    }
    while i < names.len()
        invariant
            i <= names@.len(),
            lo == options@,
            spec_kept_files(names@, root@, lo) =~= out@ + spec_kept_files(
                names@.skip(i as int),
                root@,
                lo,
            ),
        decreases names@.len() - i,
    {
        proof {
            assert(names@.skip(i as int)[0] == names@[i as int]);
            assert(names@.skip(i as int).drop_first() =~= names@.skip(i + 1));
        }
        let ghost before = out@;
        if keeps_file(&names[i], root, options) {
            out.push(names[i].clone());
            proof {
                assert(out@ =~= before + seq![names@[i as int]]);
                assert(before + (seq![names@[i as int]] + spec_kept_files(
                    names@.skip(i + 1),
                    root@,
                    lo,
                )) =~= out@ + spec_kept_files(names@.skip(i + 1), root@, lo));
            }
        }
        i += 1;
    }
    proof {
        assert(names@.skip(names@.len() as int) =~= Seq::<String>::empty());
        assert(spec_kept_files(names@, root@, lo) =~= out@);
    }
    crate::text::sort_strings(&mut out);
    out
}

} // verus!
