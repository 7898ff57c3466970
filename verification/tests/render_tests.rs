use pysprint_cli::config::{Config, DocValue};
use pysprint_cli::render::{
    render_generic_template, render_spp_template, script_with_imports, RenderError,
};

fn map(entries: Vec<(&str, DocValue)>) -> DocValue {
    DocValue::Mapping(entries.into_iter().map(|(k, v)| (k.to_string(), v)).collect())
}

fn minimal_config(method: &str) -> Config {
    let doc = map(vec![
        (
            "load_options",
            map(vec![
                ("extensions", DocValue::Str("trt".to_string())),
                ("skiprows", DocValue::Int(8)),
                ("meta_len", DocValue::Int(6)),
                ("decimal", DocValue::Str(",".to_string())),
                ("delimiter", DocValue::Str(";".to_string())),
            ]),
        ),
        ("preprocess", map(vec![])),
        ("method", DocValue::Str(method.to_string())),
        ("method_details", map(vec![])),
        (
            "evaluate",
            map(vec![
                ("reference_frequency", DocValue::Num("2.355".to_string())),
                ("order", DocValue::Int(3)),
            ]),
        ),
    ]);
    Config::from_document(&doc).unwrap()
}

#[test]
fn per_file_scripts_carry_every_configured_scalar() {
    for method in ["fft", "wft", "cff", "mm"] {
        let config = minimal_config(method);
        let script =
            render_generic_template("a.trt", "/data", &config, "results.json", 1, true, None, None)
                .unwrap();
        assert!(script.contains("skiprows=8"), "{}: {}", method, script);
        assert!(script.contains("decimal=\",\""), "{}: {}", method, script);
        assert!(script.contains("delimiter=\";\""), "{}: {}", method, script);
        assert!(script.contains("meta_len=6"), "{}: {}", method, script);
        assert!(script.contains("2.355"), "{}: {}", method, script);
        assert!(script.contains("\"/data/a.trt\""), "{}: {}", method, script);
        assert!(script.contains("verbosity=1"), "{}: {}", method, script);
        assert!(script.contains("/data/results.json"), "{}: {}", method, script);
    }
}

#[test]
fn aggregate_script_carries_every_configured_scalar() {
    let config = minimal_config("spp");
    let files = vec!["a.trt".to_string(), "b.trt".to_string()];
    let empty: Vec<String> = Vec::new();
    let script =
        render_spp_template(&files, &empty, &empty, "/data", &config, "results.json", 0, true)
            .unwrap();
    assert!(script.contains("skiprows=8"));
    assert!(script.contains("decimal=\",\""));
    assert!(script.contains("delimiter=\";\""));
    assert!(script.contains("meta_len=6"));
    assert!(script.contains("myspp.calculate(2.355, 3, show_graph=False)"));
    assert!(script.contains("r\"/data/a.trt\""));
    assert!(script.contains("r\"/data/b.trt\""));
}

#[test]
fn each_method_dispatches_its_own_call() {
    let cases = [
        ("fft", "ifg.autorun(2.355, 3"),
        ("wft", "ifg._calculate(2.355, 3"),
        ("cff", "ifg.GD_lookup(2.355, silent=True)"),
        ("mm", "ifg.init_edit_session(side=\"both\")"),
    ];
    for (method, expected) in cases {
        let config = minimal_config(method);
        let script =
            render_generic_template("a.trt", "/d", &config, "r.json", 0, true, None, None).unwrap();
        assert!(script.contains(expected), "{}: {}", method, script);
    }
}

#[test]
fn paired_arm_files_appear_in_the_parse_call() {
    let config = minimal_config("fft");
    let sam = "s.trt".to_string();
    let reference = "r.trt".to_string();
    let script = render_generic_template(
        "a.trt",
        "/d",
        &config,
        "out.json",
        0,
        true,
        Some(&sam),
        Some(&reference),
    )
    .unwrap();
    assert!(script.contains("\"/d/a.trt\""));
    assert!(script.contains("\"/d/s.trt\""));
    assert!(script.contains("\"/d/r.trt\""));
}

#[test]
fn comment_guard_is_present_unless_disabled() {
    let config = minimal_config("fft");
    let script =
        render_generic_template("a.trt", "/d", &config, "r.json", 0, true, None, None).unwrap();
    assert!(script.contains("SKIP_IF"));
}

#[test]
fn missing_reference_frequency_is_an_undefined_variable() {
    let doc = map(vec![
        (
            "load_options",
            map(vec![
                ("extensions", DocValue::Str("trt".to_string())),
                ("skiprows", DocValue::Int(0)),
                ("meta_len", DocValue::Int(0)),
                ("decimal", DocValue::Str(".".to_string())),
                ("delimiter", DocValue::Str(",".to_string())),
            ]),
        ),
        ("preprocess", map(vec![])),
        ("method", DocValue::Str("fft".to_string())),
        ("method_details", map(vec![])),
    ]);
    let config = Config::from_document(&doc).unwrap();
    let err = render_generic_template("a.trt", "/d", &config, "r.json", 0, true, None, None)
        .unwrap_err();
    match &err {
        RenderError::UndefinedVariable(name) => assert_eq!(name, "reference_frequency"),
    }
    assert_eq!(err.message(), "undefined template variable: reference_frequency");
}

#[test]
fn hook_commands_are_interpolated_verbatim() {
    let doc = map(vec![
        (
            "load_options",
            map(vec![
                ("extensions", DocValue::Str("trt".to_string())),
                ("skiprows", DocValue::Int(0)),
                ("meta_len", DocValue::Int(0)),
                ("decimal", DocValue::Str(".".to_string())),
                ("delimiter", DocValue::Str(",".to_string())),
            ]),
        ),
        ("preprocess", map(vec![])),
        ("method", DocValue::Str("fft".to_string())),
        ("method_details", map(vec![])),
        (
            "evaluate",
            map(vec![
                ("reference_frequency", DocValue::Num("2.0".to_string())),
                ("order", DocValue::Int(2)),
            ]),
        ),
        ("before_evaluate", DocValue::Str("print('before')".to_string())),
        (
            "after_evaluate",
            DocValue::List(vec![DocValue::Str("print('after')".to_string())]),
        ),
    ]);
    let config = Config::from_document(&doc).unwrap();
    let script =
        render_generic_template("a.trt", "/d", &config, "r.json", 0, true, None, None).unwrap();
    assert!(script.contains("print('before')\n"));
    assert!(script.contains("print('after')\n"));
}

#[test]
fn persisted_scripts_start_with_the_import_preamble() {
    let text = script_with_imports("print('x')");
    assert!(text.starts_with(
        "import numpy as np\nimport pysprint as ps\nimport matplotlib.pyplot as plt\n\n"
    ));
    assert!(text.ends_with("print('x')\n"));
}
