use pysprint_cli::audit::{audit_plan, audit_report, AuditPlan, ExecutionOutcome};
use pysprint_cli::config::{Config, DocValue};
use pysprint_cli::watch::{session_start, watch_step, WatchEvent};

fn map(entries: Vec<(&str, DocValue)>) -> DocValue {
    DocValue::Mapping(entries.into_iter().map(|(k, v)| (k.to_string(), v)).collect())
}

fn config_with(method: &str, grouping: Option<i64>) -> Config {
    let mut load = vec![
        ("extensions", DocValue::Str("trt".to_string())),
        ("skiprows", DocValue::Int(8)),
        ("meta_len", DocValue::Int(6)),
        ("decimal", DocValue::Str(",".to_string())),
        ("delimiter", DocValue::Str(";".to_string())),
    ];
    if let Some(g) = grouping {
        load.push(("mod", DocValue::Int(g)));
    }
    let doc = map(vec![
        ("load_options", map(load)),
        ("preprocess", map(vec![])),
        ("method", DocValue::Str(method.to_string())),
        ("method_details", map(vec![])),
        (
            "evaluate",
            map(vec![
                ("reference_frequency", DocValue::Num("2.355".to_string())),
                ("order", DocValue::Int(3)),
            ]),
        ),
    ]);
    Config::from_document(&doc).unwrap()
}

fn outcome(success: bool, traceback: Option<&str>) -> ExecutionOutcome {
    ExecutionOutcome { success, traceback: traceback.map(|t| t.to_string()) }
}

#[test]
fn audit_over_three_files_with_one_failure() {
    let outcomes = vec![
        ("f1.trt".to_string(), outcome(true, None)),
        ("f2.trt".to_string(), outcome(false, Some("boom"))),
        ("f3.trt".to_string(), outcome(true, None)),
    ];
    let (counter, report) = audit_report(&outcomes);
    assert_eq!(counter, 1);
    assert_eq!(report, "file: f2.trt\terror: boom\n");
    assert_eq!(report.lines().count(), 1);
}

#[test]
fn audit_with_no_failures_reports_nothing() {
    let outcomes = vec![
        ("f1.trt".to_string(), outcome(true, None)),
        ("f2.trt".to_string(), outcome(true, None)),
    ];
    let (counter, report) = audit_report(&outcomes);
    assert_eq!(counter, 0);
    assert!(report.is_empty());
}

#[test]
fn failures_keep_batch_order_in_the_report() {
    let outcomes = vec![
        ("a".to_string(), outcome(false, Some("first"))),
        ("b".to_string(), outcome(true, None)),
        ("c".to_string(), outcome(false, Some("second"))),
    ];
    let (counter, report) = audit_report(&outcomes);
    assert_eq!(counter, 2);
    assert_eq!(report, "file: a\terror: first\nfile: c\terror: second\n");
}

#[test]
fn per_file_plan_covers_every_file_under_all_as_primary() {
    let config = config_with("fft", Some(1));
    let files = vec!["a.trt".to_string(), "b.trt".to_string(), "c.trt".to_string()];
    match audit_plan(&files, &config, "/data", "results.json", 0).unwrap() {
        AuditPlan::PerFile(units) => {
            assert_eq!(units.len(), 3);
            assert_eq!(units[0].name, "a.trt");
            assert_eq!(units[1].name, "b.trt");
            assert_eq!(units[2].name, "c.trt");
            assert!(units[0].script.contains("\"/data/a.trt\""));
        },
        AuditPlan::Aggregate(_) => panic!("expected a per-file plan"),
    }
}

#[test]
fn per_file_plan_pairs_arms_under_triple_grouping() {
    let config = config_with("fft", Some(3));
    let files = vec![
        "a.trt".to_string(),
        "b.trt".to_string(),
        "c.trt".to_string(),
        "d.trt".to_string(),
        "e.trt".to_string(),
        "f.trt".to_string(),
    ];
    match audit_plan(&files, &config, "/data", "results.json", 0).unwrap() {
        AuditPlan::PerFile(units) => {
            assert_eq!(units.len(), 2);
            assert_eq!(units[0].name, "a.trt");
            assert!(units[0].script.contains("\"/data/b.trt\""));
            assert!(units[0].script.contains("\"/data/c.trt\""));
            assert_eq!(units[1].name, "d.trt");
        },
        AuditPlan::Aggregate(_) => panic!("expected a per-file plan"),
    }
}

#[test]
fn aggregate_method_yields_a_single_unit() {
    let config = config_with("spp", Some(1));
    let files = vec!["a.trt".to_string(), "b.trt".to_string()];
    match audit_plan(&files, &config, "/data", "results.json", 0).unwrap() {
        AuditPlan::Aggregate(unit) => {
            assert_eq!(unit.name, "spp_eval");
            assert!(unit.script.contains("r\"/data/a.trt\""));
            assert!(unit.script.contains("r\"/data/b.trt\""));
        },
        AuditPlan::PerFile(_) => panic!("expected an aggregate plan"),
    }
}

#[test]
fn watch_session_rejects_aggregate_methods_before_any_event() {
    let config = config_with("spp", None);
    let err = session_start(&config).unwrap_err();
    assert_eq!(err, "CosFitMethod and SPPMethod are not supported in watch mode.");
    let config = config_with("cff", None);
    assert!(session_start(&config).is_err());
    let config = config_with("fft", None);
    assert!(session_start(&config).is_ok());
}

#[test]
fn watch_reacts_to_creates_and_writes_of_configured_extensions() {
    let config = config_with("fft", None);
    let unit = watch_step(
        &WatchEvent::Written("fresh.trt".to_string()),
        &config,
        "/data",
        "results.json",
        0,
    )
    .unwrap()
    .unwrap();
    assert_eq!(unit.name, "fresh.trt");
    assert!(unit.script.contains("\"/data/fresh.trt\""));
    assert!(unit.script.contains("enable_printing=True"));
    let unit = watch_step(
        &WatchEvent::Created("new.trt".to_string()),
        &config,
        "/data",
        "results.json",
        0,
    )
    .unwrap();
    assert!(unit.is_some());
}

#[test]
fn watch_ignores_other_events_and_extensions() {
    let config = config_with("fft", None);
    let ignored = [
        WatchEvent::Removed("gone.trt".to_string()),
        WatchEvent::Renamed("moved.trt".to_string()),
        WatchEvent::Other,
        WatchEvent::Written("notes.txt".to_string()),
        WatchEvent::Written("noext".to_string()),
    ];
    for event in ignored {
        let r = watch_step(&event, &config, "/data", "results.json", 0).unwrap();
        assert!(r.is_none());
    }
}
