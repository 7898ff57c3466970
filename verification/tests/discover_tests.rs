use pysprint_cli::config::{Config, DocValue};
use pysprint_cli::discover::{
    extension_of, file_stem_of, get_exclude_patterns, join_path, select_files,
};
use pysprint_cli::glob::glob_match;
use pysprint_cli::text::{i64_to_string, pad_left, sort_strings, str_le, u64_to_string};

fn map(entries: Vec<(&str, DocValue)>) -> DocValue {
    DocValue::Mapping(entries.into_iter().map(|(k, v)| (k.to_string(), v)).collect())
}

fn load_config(extensions: Vec<&str>, excludes: Vec<&str>, skips: Vec<&str>) -> Config {
    let doc = map(vec![
        (
            "load_options",
            map(vec![
                (
                    "extensions",
                    DocValue::List(
                        extensions.iter().map(|e| DocValue::Str(e.to_string())).collect(),
                    ),
                ),
                (
                    "exclude_patterns",
                    DocValue::List(excludes.iter().map(|e| DocValue::Str(e.to_string())).collect()),
                ),
                (
                    "skip_files",
                    DocValue::List(skips.iter().map(|e| DocValue::Str(e.to_string())).collect()),
                ),
                ("skiprows", DocValue::Int(0)),
                ("meta_len", DocValue::Int(0)),
                ("decimal", DocValue::Str(".".to_string())),
                ("delimiter", DocValue::Str(",".to_string())),
            ]),
        ),
        ("preprocess", map(vec![])),
        ("method", DocValue::Str("fft".to_string())),
        ("method_details", map(vec![])),
    ]);
    Config::from_document(&doc).unwrap()
}

fn strings(names: &[&str]) -> Vec<String> {
    names.iter().map(|s| s.to_string()).collect()
}

#[test]
fn glob_star_and_question_mark() {
    assert!(glob_match("*", ""));
    assert!(glob_match("*", "anything"));
    assert!(glob_match("*_randomfile.trt", "/d/x_randomfile.trt"));
    assert!(!glob_match("*_randomfile.trt", "/d/x_otherfile.trt"));
    assert!(glob_match("a?c", "abc"));
    assert!(!glob_match("a?c", "ac"));
    assert!(glob_match("a*c*e", "abcde"));
    assert!(!glob_match("abc", "ABC"));
}

#[test]
fn discovery_filters_and_sorts() {
    let config = load_config(vec!["trt", "txt"], vec!["*skipme*"], vec!["drop.trt"]);
    let names = strings(&[
        "b.trt",
        "a.trt",
        "keep.txt",
        "drop.trt",
        "skipme.trt",
        "readme.md",
        "noext",
    ]);
    let kept = select_files(&names, "/data", &config.load_options);
    assert_eq!(kept, strings(&["a.trt", "b.trt", "keep.txt"]));
}

#[test]
fn exclude_patterns_match_the_joined_path() {
    let config = load_config(vec!["trt"], vec!["/other/*"], vec![]);
    let names = strings(&["a.trt"]);
    let kept = select_files(&names, "/data", &config.load_options);
    assert_eq!(kept, strings(&["a.trt"]));
    let config = load_config(vec!["trt"], vec!["/data/*"], vec![]);
    let kept = select_files(&names, "/data", &config.load_options);
    assert!(kept.is_empty());
}

#[test]
fn get_exclude_patterns_lists_the_configured_patterns() {
    let config = load_config(vec!["trt"], vec!["*.bak", "old*"], vec![]);
    assert_eq!(
        get_exclude_patterns(&config.load_options),
        strings(&["*.bak", "old*"])
    );
}

#[test]
fn extension_and_stem_of_file_names() {
    assert_eq!(extension_of("a.trt").as_deref(), Some("trt"));
    assert_eq!(extension_of("archive.tar.gz").as_deref(), Some("gz"));
    assert_eq!(extension_of("noext"), None);
    assert_eq!(extension_of(".hidden"), None);
    assert_eq!(file_stem_of("a.trt"), "a");
    assert_eq!(file_stem_of("archive.tar.gz"), "archive.tar");
    assert_eq!(file_stem_of("noext"), "noext");
    assert_eq!(file_stem_of(".hidden"), ".hidden");
}

#[test]
fn join_path_inserts_one_separator() {
    assert_eq!(join_path("/data", "a.trt"), "/data/a.trt");
}

#[test]
fn string_ordering_and_sorting() {
    assert!(str_le("a", "b"));
    assert!(str_le("a", "ab"));
    assert!(!str_le("b", "ab"));
    assert!(str_le("same", "same"));
    let mut v = strings(&["pear", "apple", "fig", "apple"]);
    sort_strings(&mut v);
    assert_eq!(v, strings(&["apple", "apple", "fig", "pear"]));
}

#[test]
fn number_rendering() {
    assert_eq!(u64_to_string(0), "0");
    assert_eq!(u64_to_string(12345), "12345");
    assert_eq!(i64_to_string(-42), "-42");
    assert_eq!(i64_to_string(7), "7");
    assert_eq!(pad_left("30", 5, '0'), "00030");
    assert_eq!(pad_left("abc", 2, ' '), "abc");
}
