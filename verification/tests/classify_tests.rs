use pysprint_cli::classify::{classify, sort_by_arms};
use pysprint_cli::config::GroupingMode;

fn strings(names: &[&str]) -> Vec<String> {
    names.iter().map(|s| s.to_string()).collect()
}

#[test]
fn triple_grouping_of_nine_sorted_files() {
    let files = strings(&["a1", "a2", "a3", "a4", "a5", "a6", "a7", "a8", "a9"]);
    let (set, warning) = classify(&files, GroupingMode::Triple);
    assert_eq!(set.primary, strings(&["a1", "a4", "a7"]));
    assert_eq!(set.secondary, strings(&["a2", "a5", "a8"]));
    assert_eq!(set.tertiary, strings(&["a3", "a6", "a9"]));
    assert!(warning.is_none());
}

#[test]
fn triple_grouping_reconstructs_the_input() {
    let files = strings(&["f1", "f2", "f3", "f4", "f5", "f6"]);
    let (set, warning) = classify(&files, GroupingMode::Triple);
    assert_eq!(set.primary.len(), 2);
    assert_eq!(set.secondary.len(), 2);
    assert_eq!(set.tertiary.len(), 2);
    let mut woven: Vec<String> = Vec::new();
    for i in 0..set.primary.len() {
        woven.push(set.primary[i].clone());
        woven.push(set.secondary[i].clone());
        woven.push(set.tertiary[i].clone());
    }
    assert_eq!(woven, files);
    assert!(warning.is_none());
}

#[test]
fn triple_grouping_discards_the_trailing_remainder_with_a_warning() {
    let files = strings(&["b1", "b2", "b3", "b4", "b5"]);
    let (set, warning) = classify(&files, GroupingMode::Triple);
    assert_eq!(set.primary, strings(&["b1"]));
    assert_eq!(set.secondary, strings(&["b2"]));
    assert_eq!(set.tertiary, strings(&["b3"]));
    for arm in [&set.primary, &set.secondary, &set.tertiary] {
        assert!(!arm.contains(&"b4".to_string()));
        assert!(!arm.contains(&"b5".to_string()));
    }
    assert!(warning.is_some());
}

#[test]
fn all_as_primary_keeps_every_file() {
    let files = strings(&["x1", "x2", "x3", "x4"]);
    let (set, warning) = classify(&files, GroupingMode::AllAsPrimary);
    assert_eq!(set.primary, files);
    assert!(set.secondary.is_empty());
    assert!(set.tertiary.is_empty());
    assert!(warning.is_none());
}

#[test]
fn all_as_primary_on_empty_input() {
    let files: Vec<String> = Vec::new();
    let (set, warning) = classify(&files, GroupingMode::AllAsPrimary);
    assert!(set.primary.is_empty());
    assert!(set.secondary.is_empty());
    assert!(set.tertiary.is_empty());
    assert!(warning.is_none());
}

#[test]
fn primary_only_keeps_the_interferogram_arm() {
    let files = strings(&["c1", "c2", "c3", "c4", "c5", "c6", "c7"]);
    let (set, warning) = classify(&files, GroupingMode::PrimaryOnly);
    assert_eq!(set.primary, strings(&["c1", "c4"]));
    assert!(set.secondary.is_empty());
    assert!(set.tertiary.is_empty());
    assert!(warning.is_some());
}

#[test]
fn sort_by_arms_splits_in_rotation() {
    let files = strings(&["p", "q", "r", "s", "t", "u"]);
    let (ifgs, sams, refs) = sort_by_arms(&files);
    assert_eq!(ifgs, strings(&["p", "s"]));
    assert_eq!(sams, strings(&["q", "t"]));
    assert_eq!(refs, strings(&["r", "u"]));
}
