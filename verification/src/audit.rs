//! The batch driver: turns a classified file set into the scripts of one
//! audit run, and reduces the per-unit outcomes into a failure count and an
//! error report. Dispatching a script to the analysis runtime is the
//! caller's part; every decision around it is made here.

use vstd::prelude::*;
use crate::classify::{spec_primary, spec_secondary, spec_tertiary};
use crate::config::{Config, GroupingMode};
use crate::render::{
    spec_render_generic, spec_render_spp, render_generic_template, render_spp_template,
    RenderError, RenderErrorModel,
};

verus! {

/// One runnable unit of work: the script text and the name it reports under.
pub struct WorkUnit {
    pub name: String,
    pub script: String,
}

/// The scripts of one audit run: one per primary file, or a single script
/// over the whole classified set for an aggregate method.
pub enum AuditPlan {
    PerFile(Vec<WorkUnit>),
    Aggregate(WorkUnit),
}

/// The files an audit run evaluates one by one, under the given grouping.
pub open spec fn spec_audit_files(files: Seq<String>, g: GroupingMode) -> Seq<String> {
    match g {
        GroupingMode::Triple => spec_primary(files),
        GroupingMode::AllAsPrimary => files,
        GroupingMode::PrimaryOnly => spec_primary(files),
    }
}

/// The sample-arm file paired with primary file `i`, when the grouping pairs
/// arms at all.
pub open spec fn spec_audit_sam(files: Seq<String>, g: GroupingMode, i: int) -> Option<Seq<char>> {
    if g is Triple {
        Some(spec_secondary(files)[i]@)
    } else {
        None
    }
}

/// The reference-arm file paired with primary file `i`.
pub open spec fn spec_audit_ref(files: Seq<String>, g: GroupingMode, i: int) -> Option<Seq<char>> {
    if g is Triple {
        Some(spec_tertiary(files)[i]@)
    } else {
        None
    }
}

/// The interferogram-arm list an aggregate run passes to its script.
pub open spec fn spec_aggregate_ifgs(files: Seq<String>, g: GroupingMode) -> Seq<Seq<char>> {
    match g {
        GroupingMode::Triple => spec_primary(files).map_values(|s: String| s@),
        GroupingMode::AllAsPrimary => files.map_values(|s: String| s@),
        GroupingMode::PrimaryOnly => spec_primary(files).map_values(|s: String| s@),
    }
}

/// The sample-arm list of an aggregate run: empty unless arms are grouped.
pub open spec fn spec_aggregate_sams(files: Seq<String>, g: GroupingMode) -> Seq<Seq<char>> {
    if g is Triple {
        spec_secondary(files).map_values(|s: String| s@)
    } else {
        Seq::empty()
    }
}

/// The reference-arm list of an aggregate run.
pub open spec fn spec_aggregate_refs(files: Seq<String>, g: GroupingMode) -> Seq<Seq<char>> {
    if g is Triple {
        spec_tertiary(files).map_values(|s: String| s@)
    } else {
        Seq::empty()
    }
}

/// Renders the scripts of one audit run over the sorted discovered files.
/// An aggregate method yields a single unit over the whole set; a per-file
/// method yields one unit per evaluated file, paired with its auxiliary arm
/// files under triple grouping. Fails exactly when a needed substitution is
/// missing and at least one script would be rendered.
pub fn audit_plan(
    files: &Vec<String>,
    config: &Config,
    workdir: &str,
    result_file: &str,
    verbosity: u8,
) -> (r: Result<AuditPlan, RenderError>)
    ensures
        ({
            let g = config.load_options.grouping;
            let complete = config@.evaluate.reference_frequency is Some && config@.evaluate.order
                is Some;
            let missing_err = (if config@.evaluate.reference_frequency is None {
                RenderErrorModel::UndefinedVariable("reference_frequency"@)
            } else {
                RenderErrorModel::UndefinedVariable("order"@)
            });
            match r {
                Ok(AuditPlan::Aggregate(u)) => config.method is SPPMethod && complete && u.name@
                    == "spp_eval"@ && u.script@ == spec_render_spp(
                    spec_aggregate_ifgs(files@, g),
                    spec_aggregate_sams(files@, g),
                    spec_aggregate_refs(files@, g),
                    workdir@,
                    config@,
                ),
                Ok(AuditPlan::PerFile(us)) => !(config.method is SPPMethod) && (complete
                    || spec_audit_files(files@, g).len() == 0) && us@.len() == spec_audit_files(
                    files@,
                    g,
                ).len() && forall|i: int|
                    0 <= i < us@.len() ==> (#[trigger] us@[i]).name == spec_audit_files(files@, g)[i]
                        && us@[i].script@ == spec_render_generic(
                        spec_audit_files(files@, g)[i]@,
                        workdir@,
                        config@,
                        result_file@,
                        verbosity,
                        true,
                        spec_audit_sam(files@, g, i),
                        spec_audit_ref(files@, g, i),
                    ),
                Err(e) => !complete && e@ == missing_err && (config.method is SPPMethod
                    || spec_audit_files(files@, g).len() > 0),
            }
        }),
{
    let grouping = config.load_options.grouping;
    if config.method.is_aggregate() {
        let (ifgs, sams, refs) = crate::classify::sort_by_arms(files);
        let script = match grouping {
            GroupingMode::Triple => render_spp_template(
                &ifgs,
                &refs,
                &sams,
                workdir,
                config,
                result_file,
                verbosity,
                true,
            ),
            GroupingMode::AllAsPrimary => {
                let empty_sams: Vec<String> = Vec::new();
                let empty_refs: Vec<String> = Vec::new();
                proof {
                    assert(empty_sams@.map_values(|s: String| s@) =~= Seq::<Seq<char>>::empty());
                }
                render_spp_template(
                    files,
                    &empty_refs,
                    &empty_sams,
                    workdir,
                    config,
                    result_file,
                    verbosity,
                    true,
                )
            },
            GroupingMode::PrimaryOnly => {
                let empty_sams: Vec<String> = Vec::new();
                let empty_refs: Vec<String> = Vec::new();
                proof {
                    assert(empty_sams@.map_values(|s: String| s@) =~= Seq::<Seq<char>>::empty());
                }
                render_spp_template(
                    &ifgs,
                    &empty_refs,
                    &empty_sams,
                    workdir,
                    config,
                    result_file,
                    verbosity,
                    true,
                )
            },
        };
        match script {
            Ok(text) => Ok(
                AuditPlan::Aggregate(WorkUnit { name: String::from_str("spp_eval"), script: text }),
            ),
            Err(e) => Err(e),
        }
    } else {
        let (ifgs, sams, refs) = crate::classify::sort_by_arms(files);
        let ghost g = grouping;
        let mut units: Vec<WorkUnit> = Vec::new();
        match grouping {
            GroupingMode::Triple => {
                let mut i: usize = 0;
                while i < ifgs.len()
                    invariant
                        i <= ifgs@.len(),
                        ifgs@ == spec_primary(files@),
                        sams@ == spec_secondary(files@),
                        refs@ == spec_tertiary(files@),
                        sams@.len() == ifgs@.len(),
                        refs@.len() == ifgs@.len(),
                        g == config.load_options.grouping,
                        g == GroupingMode::Triple,
                        units@.len() == i,
                        i > 0 ==> config@.evaluate.reference_frequency is Some
                            && config@.evaluate.order is Some,
                        !(config.method is SPPMethod),
                        forall|q: int|
                            0 <= q < i ==> (#[trigger] units@[q]).name == spec_audit_files(
                                files@,
                                g,
                            )[q] && units@[q].script@ == spec_render_generic(
                                spec_audit_files(files@, g)[q]@,
                                workdir@,
                                config@,
                                result_file@,
                                verbosity,
                                true,
                                spec_audit_sam(files@, g, q),
                                spec_audit_ref(files@, g, q),
                            ),
                    decreases ifgs@.len() - i,
                {
                    let script = match render_generic_template(
                        ifgs[i].as_str(),
                        workdir,
                        config,
                        result_file,
                        verbosity,
                        true,
                        Some(&sams[i]),
                        Some(&refs[i]),
                    ) {
                        Ok(t) => t,
                        Err(e) => return Err(e),
                    };
                    units.push(WorkUnit { name: ifgs[i].clone(), script });
                    i += 1;
                }
            },
            GroupingMode::AllAsPrimary => {
                let mut i: usize = 0;
                while i < files.len()
                    invariant
                        i <= files@.len(),
                        g == config.load_options.grouping,
                        g == GroupingMode::AllAsPrimary,
                        units@.len() == i,
                        i > 0 ==> config@.evaluate.reference_frequency is Some
                            && config@.evaluate.order is Some,
                        !(config.method is SPPMethod),
                        forall|q: int|
                            0 <= q < i ==> (#[trigger] units@[q]).name == spec_audit_files(
                                files@,
                                g,
                            )[q] && units@[q].script@ == spec_render_generic(
                                spec_audit_files(files@, g)[q]@,
                                workdir@,
                                config@,
                                result_file@,
                                verbosity,
                                true,
                                spec_audit_sam(files@, g, q),
                                spec_audit_ref(files@, g, q),
                            ),
                    decreases files@.len() - i,
                {
                    let script = match render_generic_template(
                        files[i].as_str(),
                        workdir,
                        config,
                        result_file,
                        verbosity,
                        true,
                        None,
                        None,
                    ) {
                        Ok(t) => t,
                        Err(e) => return Err(e),
                    };
                    units.push(WorkUnit { name: files[i].clone(), script });
                    i += 1;
                }
            },
            GroupingMode::PrimaryOnly => {
                let mut i: usize = 0;
                while i < ifgs.len()
                    invariant
                        i <= ifgs@.len(),
                        ifgs@ == spec_primary(files@),
                        g == config.load_options.grouping,
                        g == GroupingMode::PrimaryOnly,
                        units@.len() == i,
                        i > 0 ==> config@.evaluate.reference_frequency is Some
                            && config@.evaluate.order is Some,
                        !(config.method is SPPMethod),
                        forall|q: int|
                            0 <= q < i ==> (#[trigger] units@[q]).name == spec_audit_files(
                                files@,
                                g,
                            )[q] && units@[q].script@ == spec_render_generic(
                                spec_audit_files(files@, g)[q]@,
                                workdir@,
                                config@,
                                result_file@,
                                verbosity,
                                true,
                                spec_audit_sam(files@, g, q),
                                spec_audit_ref(files@, g, q),
                            ),
                    decreases ifgs@.len() - i,
                {
                    let script = match render_generic_template(
                        ifgs[i].as_str(),
                        workdir,
                        config,
                        result_file,
                        verbosity,
                        true,
                        None,
                        None,
                    ) {
                        Ok(t) => t,
                        Err(e) => return Err(e),
                    };
                    units.push(WorkUnit { name: ifgs[i].clone(), script });
                    i += 1;
                }
            },
        }
        Ok(AuditPlan::PerFile(units))
    }
}

/// What the analysis runtime reported for one work unit.
#[derive(Clone, Debug)]
pub struct ExecutionOutcome {
    pub success: bool,
    pub traceback: Option<String>,
}

/// The number of failed units.
pub open spec fn spec_failure_count(outcomes: Seq<(String, ExecutionOutcome)>) -> int
    decreases outcomes.len(),
{
    if outcomes.len() == 0 {
        0
    } else {
        let head: int = if outcomes[0].1.success {
            0
        } else {
            1
        };
        head + spec_failure_count(outcomes.drop_first())
    }
}

/// One report line per failed unit, in batch order: the unit's name and the
/// runtime's diagnostic, tab-separated.
pub open spec fn spec_error_report(outcomes: Seq<(String, ExecutionOutcome)>) -> Seq<char>
    decreases outcomes.len(),
{
    if outcomes.len() == 0 {
        Seq::empty()
    } else {
        (if outcomes[0].1.success {
            Seq::<char>::empty()
        } else {
            "file: "@ + outcomes[0].0@ + "\terror: "@ + (match outcomes[0].1.traceback {
                Some(t) => t@,
                None => Seq::<char>::empty(),
            }) + "\n"@
        }) + spec_error_report(outcomes.drop_first())
    }
}

/// Law: the failure counter never exceeds the number of units.
pub proof fn lemma_failure_count_bounds(outcomes: Seq<(String, ExecutionOutcome)>)
    ensures
        0 <= spec_failure_count(outcomes) <= outcomes.len(),
    decreases outcomes.len(),
{
    if outcomes.len() > 0 {
        lemma_failure_count_bounds(outcomes.drop_first());
    }
}

/// Reduces per-unit outcomes to the failure counter and the aggregated
/// error report: one line per failed unit, none for successes, and a unit's
/// failure never stops the reduction.
pub fn audit_report(outcomes: &Vec<(String, ExecutionOutcome)>) -> (r: (u64, String))
    ensures
        r.0 == spec_failure_count(outcomes@),
        r.1@ == spec_error_report(outcomes@),
{
    let mut counter: u64 = 0;
    let mut report = String::new();
    let mut i: usize = 0;
    proof {
        assert(outcomes@.skip(0) =~= outcomes@);
        lemma_failure_count_bounds(outcomes@);
    }
    while i < outcomes.len()
        invariant
            i <= outcomes@.len(),
            counter <= i,
            spec_failure_count(outcomes@) == counter + spec_failure_count(
                outcomes@.skip(i as int),
            ),
            spec_error_report(outcomes@) =~= report@ + spec_error_report(outcomes@.skip(i as int)),
        decreases outcomes@.len() - i,
    {
        proof {
            assert(outcomes@.skip(i as int)[0] == outcomes@[i as int]);
            assert(outcomes@.skip(i as int).drop_first() =~= outcomes@.skip(i + 1));
        }
        let ghost before = report@;
        let entry = &outcomes[i];
        if !entry.1.success {
            counter += 1;
            report.append("file: ");
            report.append(entry.0.as_str());
            report.append("\terror: ");
            match &entry.1.traceback {
                Some(t) => report.append(t.as_str()),
                None => {},
            }
            report.append("\n");
            proof {
                let line = "file: "@ + outcomes@[i as int].0@ + "\terror: "@ + (
                match outcomes@[i as int].1.traceback {
                    Some(t) => t@,
                    None => Seq::<char>::empty(),
                }) + "\n"@;
                assert(report@ =~= before + line);
                assert(before + (line + spec_error_report(outcomes@.skip(i + 1))) =~= report@
                    + spec_error_report(outcomes@.skip(i + 1)));
            }
        }
        i += 1;
    }
    proof {
        assert(outcomes@.skip(outcomes@.len() as int) =~= Seq::<(String, ExecutionOutcome)>::empty());
        assert(report@ + Seq::<char>::empty() =~= report@);
    }
    (counter, report)
}

} // verus!
