use pysprint_cli::config::{
    default_placeholder, default_trigger, input_unit_default, no_comment_check_default, Config,
    DocValue, GroupingMode, MethodType, StringSequence, ValidationError,
};

fn map(entries: Vec<(&str, DocValue)>) -> DocValue {
    DocValue::Mapping(entries.into_iter().map(|(k, v)| (k.to_string(), v)).collect())
}

fn minimal_doc(method: &str) -> DocValue {
    map(vec![
        (
            "load_options",
            map(vec![
                ("extensions", DocValue::Str("trt".to_string())),
                ("skiprows", DocValue::Int(8)),
                ("meta_len", DocValue::Int(6)),
                ("decimal", DocValue::Str(",".to_string())),
                ("delimiter", DocValue::Str(";".to_string())),
            ]),
        ),
        ("preprocess", map(vec![])),
        ("method", DocValue::Str(method.to_string())),
        ("method_details", map(vec![])),
        (
            "evaluate",
            map(vec![
                ("reference_frequency", DocValue::Num("2.355".to_string())),
                ("order", DocValue::Int(3)),
            ]),
        ),
    ])
}

#[test]
fn minimal_document_validates() {
    let config = Config::from_document(&minimal_doc("fft")).unwrap();
    assert!(matches!(config.method, MethodType::FFTMethod));
    assert_eq!(config.load_options.skiprows, 8);
    assert_eq!(config.load_options.meta_len, 6);
    assert_eq!(config.load_options.decimal, ",");
    assert_eq!(config.load_options.delimiter, ";");
    assert_eq!(config.evaluate.reference_frequency.as_deref(), Some("2.355"));
    assert_eq!(config.evaluate.order, Some(3));
}

#[test]
fn each_method_shorthand_maps_to_its_method() {
    let cases = [
        ("wft", MethodType::WFTMethod),
        ("fft", MethodType::FFTMethod),
        ("spp", MethodType::SPPMethod),
        ("cff", MethodType::CosFitMethod),
        ("mm", MethodType::MinMaxMethod),
    ];
    for (name, expected) in cases {
        let config = Config::from_document(&minimal_doc(name)).unwrap();
        assert_eq!(config.method, expected);
    }
}

#[test]
fn unknown_method_is_rejected_by_name() {
    let err = Config::from_document(&minimal_doc("nope")).unwrap_err();
    match &err {
        ValidationError::UnknownMethod(found) => assert_eq!(found, "nope"),
        other => panic!("unexpected error: {:?}", other),
    }
    assert_eq!(err.message(), "expected valid method name, found nope");
}

#[test]
fn wrong_field_type_names_the_key() {
    let doc = map(vec![
        (
            "load_options",
            map(vec![
                ("extensions", DocValue::Str("trt".to_string())),
                ("skiprows", DocValue::Str("eight".to_string())),
                ("meta_len", DocValue::Int(6)),
                ("decimal", DocValue::Str(",".to_string())),
                ("delimiter", DocValue::Str(";".to_string())),
            ]),
        ),
        ("preprocess", map(vec![])),
        ("method", DocValue::Str("fft".to_string())),
        ("method_details", map(vec![])),
    ]);
    let err = Config::from_document(&doc).unwrap_err();
    match &err {
        ValidationError::WrongType(key) => assert_eq!(key, "skiprows"),
        other => panic!("unexpected error: {:?}", other),
    }
    assert_eq!(err.message(), "wrong type for key: skiprows");
}

#[test]
fn missing_required_key_names_the_key() {
    let doc = map(vec![
        (
            "load_options",
            map(vec![
                ("skiprows", DocValue::Int(8)),
                ("meta_len", DocValue::Int(6)),
                ("decimal", DocValue::Str(",".to_string())),
                ("delimiter", DocValue::Str(";".to_string())),
            ]),
        ),
        ("preprocess", map(vec![])),
        ("method", DocValue::Str("fft".to_string())),
        ("method_details", map(vec![])),
    ]);
    let err = Config::from_document(&doc).unwrap_err();
    match &err {
        ValidationError::MissingKey(key) => assert_eq!(key, "extensions"),
        other => panic!("unexpected error: {:?}", other),
    }
}

#[test]
fn one_or_many_coercion_accepts_a_single_scalar() {
    let config = Config::from_document(&minimal_doc("fft")).unwrap();
    assert_eq!(
        config.load_options.extensions.into_comparable(),
        vec!["trt".to_string()]
    );
}

#[test]
fn one_or_many_accepts_a_list() {
    let mut doc = minimal_doc("fft");
    if let DocValue::Mapping(top) = &mut doc {
        if let DocValue::Mapping(lo) = &mut top[0].1 {
            lo[0].1 = DocValue::List(vec![
                DocValue::Str("trt".to_string()),
                DocValue::Str("txt".to_string()),
            ]);
        }
    }
    let config = Config::from_document(&doc).unwrap();
    assert_eq!(
        config.load_options.extensions.into_comparable(),
        vec!["trt".to_string(), "txt".to_string()]
    );
}

#[test]
fn defaults_fill_the_optional_fields() {
    let config = Config::from_document(&minimal_doc("fft")).unwrap();
    assert!(config.load_options.exclude_patterns.into_comparable().is_empty());
    assert!(config.load_options.skip_files.into_comparable().is_empty());
    assert_eq!(config.load_options.grouping, GroupingMode::AllAsPrimary);
    assert!(!config.load_options.no_comment_check);
    assert_eq!(config.preprocess.input_unit, "nm");
    assert!(!config.preprocess.chdomain);
    assert!(config.before_evaluate.is_empty());
    assert!(config.after_evaluate.is_empty());
    assert!(!config.method_details.plot);
    assert!(config.method_details.windows.is_none());
}

#[test]
fn grouping_mode_follows_the_mod_key() {
    for (value, expected) in [
        (3, GroupingMode::Triple),
        (1, GroupingMode::AllAsPrimary),
        (-1, GroupingMode::PrimaryOnly),
    ] {
        let mut doc = minimal_doc("fft");
        if let DocValue::Mapping(top) = &mut doc {
            if let DocValue::Mapping(lo) = &mut top[0].1 {
                lo.push(("mod".to_string(), DocValue::Int(value)));
            }
        }
        let config = Config::from_document(&doc).unwrap();
        assert_eq!(config.load_options.grouping, expected);
    }
}

#[test]
fn an_unsupported_grouping_number_is_rejected() {
    let mut doc = minimal_doc("fft");
    if let DocValue::Mapping(top) = &mut doc {
        if let DocValue::Mapping(lo) = &mut top[0].1 {
            lo.push(("mod".to_string(), DocValue::Int(2)));
        }
    }
    let err = Config::from_document(&doc).unwrap_err();
    match &err {
        ValidationError::WrongType(key) => assert_eq!(key, "mod"),
        other => panic!("unexpected error: {:?}", other),
    }
}

#[test]
fn into_comparable_flattens_both_shapes() {
    let single = StringSequence::Single("one".to_string());
    assert_eq!(single.into_comparable(), vec!["one".to_string()]);
    let many = StringSequence::Vector(vec!["a".to_string(), "b".to_string()]);
    assert_eq!(many.into_comparable(), vec!["a".to_string(), "b".to_string()]);
}

#[test]
fn default_helpers_match_the_documented_defaults() {
    assert_eq!(input_unit_default().unwrap(), "nm");
    assert_eq!(no_comment_check_default(), Some(false));
    assert!(default_trigger().unwrap().into_comparable().is_empty());
    assert!(default_placeholder().into_comparable().is_empty());
}
