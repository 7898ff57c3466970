//! Script generation: the validated configuration and the classified files
//! are rendered into runnable script text for the analysis runtime. Per-file
//! methods get one script per primary file; the aggregate method gets a
//! single script over the whole classified set.

use vstd::prelude::*;
use crate::config::{
    Config, ConfigModel, LoadOptionsModel, MethodDetails, MethodDetailsModel, MethodType,
    Preprocess, PreprocessModel,
};
use crate::discover::spec_join;
use crate::text::{spec_idec, spec_udec};

verus! {

/// A rendering failure: a substitution the script needs has no value.
/// Validation is expected to prevent this in normal operation.
#[derive(Clone, Debug)]
pub enum RenderError {
    UndefinedVariable(String),
}

/// Mathematical image of `RenderError`.
pub ghost enum RenderErrorModel {
    UndefinedVariable(Seq<char>),
}

impl View for RenderError {
    type V = RenderErrorModel;

    open spec fn view(&self) -> RenderErrorModel {
        match self {
            RenderError::UndefinedVariable(k) => RenderErrorModel::UndefinedVariable(k@),
        }
    }
}

impl RenderError {
    /// One diagnostic line naming the missing substitution.
    pub fn message(&self) -> (r: String)
        ensures
            self@ matches RenderErrorModel::UndefinedVariable(k) ==> r@
                == "undefined template variable: "@ + k,
    {
        match self {
            RenderError::UndefinedVariable(k) => {
                let mut s = String::from_str("undefined template variable: ");
                s.append(k.as_str());
                s
            },
        }
    }
}

/// The runtime name of an analysis method.
pub open spec fn spec_method_name(m: MethodType) -> Seq<char> {
    match m {
        MethodType::CosFitMethod => "CosFitMethod"@,
        MethodType::FFTMethod => "FFTMethod"@,
        MethodType::WFTMethod => "WFTMethod"@,
        MethodType::MinMaxMethod => "MinMaxMethod"@,
        MethodType::SPPMethod => "SPPMethod"@,
    }
}

/// The runtime name of an analysis method.
pub fn method_name(m: MethodType) -> (r: &'static str)
    ensures
        r@ == spec_method_name(m),
{
    match m {
        MethodType::CosFitMethod => "CosFitMethod",
        MethodType::FFTMethod => "FFTMethod",
        MethodType::WFTMethod => "WFTMethod",
        MethodType::MinMaxMethod => "MinMaxMethod",
        MethodType::SPPMethod => "SPPMethod",
    }
}

pub open spec fn spec_py_bool(b: bool) -> Seq<char> {
    if b {
        "True"@
    } else {
        "False"@
    }
}

fn py_bool(b: bool) -> (r: &'static str)
    ensures
        r@ == spec_py_bool(b),
{
    if b {
        "True"
    } else {
        "False"
    }
}

/// Hook commands interpolated verbatim, one statement per line.
pub open spec fn spec_lines(cmds: Seq<Seq<char>>) -> Seq<char>
    decreases cmds.len(),
{
    if cmds.len() == 0 {
        Seq::empty()
    } else {
        cmds[0] + "\n"@ + spec_lines(cmds.drop_first())
    }
}

fn hook_lines(cmds: &Vec<String>) -> (r: String)
    ensures
        r@ == spec_lines(cmds@.map_values(|s: String| s@)),
{
    let ghost cm = cmds@.map_values(|s: String| s@);
    let mut acc = String::new();
    let mut i: usize = 0;
    proof {
        assert(cm.skip(0) =~= cm);
    }
    while i < cmds.len()
        invariant
            i <= cmds@.len(),
            cm == cmds@.map_values(|s: String| s@),
            spec_lines(cm) =~= acc@ + spec_lines(cm.skip(i as int)),
        decreases cmds@.len() - i,
    {
        proof {
            assert(cm.skip(i as int)[0] == cm[i as int]);
            assert(cm.skip(i as int).drop_first() =~= cm.skip(i + 1));
        }
        let ghost before = acc@;
        acc.append(cmds[i].as_str());
        acc.append("\n");
        proof {
            assert(before + (cm[i as int] + "\n"@ + spec_lines(cm.skip(i + 1))) =~= acc@
                + spec_lines(cm.skip(i + 1)));
        }
        i += 1;
    }
    proof {
        assert(cm.skip(cm.len() as int) =~= Seq::<Seq<char>>::empty());
        assert(acc@ + Seq::<char>::empty() =~= acc@);
    }
    acc
}

/// The opening of a per-file script: parsing the raw data files.
pub open spec fn spec_parse_raw_block(
    method: MethodType,
    file_path: Seq<char>,
    sam_path: Option<Seq<char>>,
    ref_path: Option<Seq<char>>,
    lo: LoadOptionsModel,
) -> Seq<char> {
    "ifg = ps."@ + spec_method_name(method) + ".parse_raw(\n    \""@ + file_path + "\",\n"@
        + (match sam_path {
        Some(p) => "    \""@ + p + "\",\n"@,
        None => Seq::empty(),
    }) + (match ref_path {
        Some(p) => "    \""@ + p + "\",\n"@,
        None => Seq::empty(),
    }) + "    skiprows="@ + spec_udec(lo.skiprows as nat) + ",\n    decimal=\""@ + lo.decimal
        + "\",\n    delimiter=\""@ + lo.delimiter + "\",\n    meta_len="@ + spec_udec(
        lo.meta_len as nat,
    ) + "\n)\n"@
}

fn parse_raw_block(
    method: MethodType,
    file_path: &str,
    sam_path: &Option<String>,
    ref_path: &Option<String>,
    lo: &crate::config::LoadOptions,
) -> (r: String)
    ensures
        r@ == spec_parse_raw_block(
            method,
            file_path@,
            match sam_path {
                Some(p) => Some(p@),
                None => None,
            },
            match ref_path {
                Some(p) => Some(p@),
                None => None,
            },
            lo@,
        ),
{
    let mut s = String::from_str("ifg = ps.");
    s.append(method_name(method));
    s.append(".parse_raw(\n    \"");
    s.append(file_path);
    s.append("\",\n");
    match sam_path {
        Some(p) => {
            s.append("    \"");
            s.append(p.as_str());
            s.append("\",\n");
        },
        None => {},
    }
    match ref_path {
        Some(p) => {
            s.append("    \"");
            s.append(p.as_str());
            s.append("\",\n");
        },
        None => {},
    }
    s.append("    skiprows=");
    s.append(crate::text::u64_to_string(lo.skiprows as u64).as_str());
    s.append(",\n    decimal=\"");
    s.append(lo.decimal.as_str());
    s.append("\",\n    delimiter=\"");
    s.append(lo.delimiter.as_str());
    s.append("\",\n    meta_len=");
    s.append(crate::text::u64_to_string(lo.meta_len as u64).as_str());
    s.append("\n)\n");
    proof {
        assert(s@ =~= spec_parse_raw_block(
            method,
            file_path@,
            match sam_path {
                Some(p) => Some(p@),
                None => None,
            },
            match ref_path {
                Some(p) => Some(p@),
                None => None,
            },
            lo@,
        ));
    }
    s
}

/// The guard that skips files whose metadata comment marks them as
/// auxiliary-arm or not-to-evaluate data.
pub open spec fn spec_comment_guard() -> Seq<char> {
    "SKIP_IF = (\"ref\", \"sam\", \"reference\", \"sample\", \"noeval\")\n\nfor entry in SKIP_IF:\n    try:\n        if entry in ifg.meta['comment']:\n            import sys\n            sys.exit(f\"file skipped due to user comment contains `{entry}`.\")\n    except KeyError:\n        pass\n"@
}

fn comment_guard() -> (r: &'static str)
    ensures
        r@ == spec_comment_guard(),
{
    "SKIP_IF = (\"ref\", \"sam\", \"reference\", \"sample\", \"noeval\")\n\nfor entry in SKIP_IF:\n    try:\n        if entry in ifg.meta['comment']:\n            import sys\n            sys.exit(f\"file skipped due to user comment contains `{entry}`.\")\n    except KeyError:\n        pass\n"
}

/// Unit conversion, domain change and slicing, in that order.
pub open spec fn spec_preprocess_block(pre: PreprocessModel) -> Seq<char> {
    (if pre.input_unit != "nm"@ {
        "ifg.chrange(\""@ + pre.input_unit + (if pre.chdomain {
            "\", \"nm\")\n"@
        } else {
            "\", \"phz\")\n"@
        })
    } else {
        Seq::empty()
    }) + (if pre.chdomain {
        "ifg.chdomain()\n"@
    } else {
        Seq::empty()
    }) + (match (pre.slice_start, pre.slice_stop) {
        (Some(a), Some(b)) => "ifg.slice("@ + a + ", "@ + b + ")\n"@,
        (Some(a), None) => "ifg.slice(start="@ + a + ")\n"@,
        (None, Some(b)) => "ifg.slice(stop="@ + b + ")\n"@,
        (None, None) => Seq::empty(),
    })
}

fn preprocess_block(pre: &Preprocess) -> (r: String)
    ensures
        r@ == spec_preprocess_block(pre@),
{
    let mut s = String::new();
    if !crate::text::str_eq(pre.input_unit.as_str(), "nm") {
        s.append("ifg.chrange(\"");
        s.append(pre.input_unit.as_str());
        if pre.chdomain {
            s.append("\", \"nm\")\n");
        } else {
            s.append("\", \"phz\")\n");
        }
    }
    if pre.chdomain {
        s.append("ifg.chdomain()\n");
    }
    match (&pre.slice_start, &pre.slice_stop) {
        (Some(a), Some(b)) => {
            s.append("ifg.slice(");
            s.append(a.as_str());
            s.append(", ");
            s.append(b.as_str());
            s.append(")\n");
        },
        (Some(a), None) => {
            s.append("ifg.slice(start=");
            s.append(a.as_str());
            s.append(")\n");
        },
        (None, Some(b)) => {
            s.append("ifg.slice(stop=");
            s.append(b.as_str());
            s.append(")\n");
        },
        (None, None) => {},
    }
    proof {
        assert(s@ =~= spec_preprocess_block(pre@));
    }
    s
}

/// The untransformed data is kept for the result-store fragment.
pub open spec fn spec_snapshot_block() -> Seq<char> {
    "x_before_transform = np.copy(ifg.x)\ny_before_transform = np.copy(ifg.y_norm)\n"@
}

fn snapshot_block() -> (r: &'static str)
    ensures
        r@ == spec_snapshot_block(),
{
    "x_before_transform = np.copy(ifg.x)\ny_before_transform = np.copy(ifg.y_norm)\n"
}

/// The width argument of a windowed-transform cover call: a full-width or a
/// deviation measure, one of the two, with a default when neither is given.
pub open spec fn spec_width_arg(md: MethodDetailsModel) -> Seq<char> {
    match (md.fwhm, md.std_dev) {
        (Some(f), None) => "fwhm="@ + f,
        (None, Some(s)) => "std="@ + s,
        (None, None) => "fwhm=0.05"@,
        (Some(_), Some(_)) => Seq::empty(),
    }
}

/// The method-specific call of a per-file script.
pub open spec fn spec_method_block(
    method: MethodType,
    md: MethodDetailsModel,
    rf: Seq<char>,
    order: Seq<char>,
    is_audit: bool,
) -> Seq<char> {
    match method {
        MethodType::FFTMethod => "import warnings\nwarnings.simplefilter(\"ignore\")\nifg.autorun("@
            + rf + ", "@ + order + ", show_graph=False, enable_printing="@ + spec_py_bool(!is_audit)
            + ")\n"@,
        MethodType::CosFitMethod => (if !is_audit {
            "import sys\nsys.exit(\"CosFit is not supported in watch mode\")\n"@
        } else {
            Seq::empty()
        }) + "ifg.GD_lookup("@ + rf + ", silent=True)\nifg._optimizer("@ + rf + ", "@ + order
            + ", initial_region_ratio=0.05, extend_by=0.05, show_endpoint=False, nofigure=True)\n"@,
        MethodType::WFTMethod => "ifg.cover(\n    "@ + (match md.windows {
            Some(w) => spec_idec(w as int),
            None => "300"@,
        }) + ",\n    "@ + spec_width_arg(md) + "\n)\n"@ + (if is_audit {
            "ifg._calculate("@
        } else {
            "ifg.calculate("@
        }) + rf + ", "@ + order + ", silent="@ + spec_py_bool(is_audit) + ", parallel="@
            + spec_py_bool(md.parallel) + ", fastmath=False)\n"@,
        MethodType::MinMaxMethod => "ifg.init_edit_session(side=\""@ + (if md.min && md.max {
            "both"@
        } else if md.min {
            "min"@
        } else if md.max {
            "max"@
        } else {
            "both"@
        }) + "\")\nplt.show(block=True)\nifg.calculate("@ + rf + ", "@ + order
            + ", scan=True, onesided="@ + (if md.min && md.max {
            "False"@
        } else if md.min || md.max {
            "True"@
        } else {
            "False"@
        }) + ")\n"@,
        MethodType::SPPMethod => "print(\"SPPMethod is not yet implemented..\")\n"@,
    }
}

fn method_block(
    method: MethodType,
    md: &MethodDetails,
    rf: &str,
    order: &str,
    is_audit: bool,
) -> (r: String)
    ensures
        r@ == spec_method_block(method, md@, rf@, order@, is_audit),
{
    let mut s = String::new();
    match method {
        MethodType::FFTMethod => {
            s.append("import warnings\nwarnings.simplefilter(\"ignore\")\nifg.autorun(");
            s.append(rf);
            s.append(", ");
            s.append(order);
            s.append(", show_graph=False, enable_printing=");
            s.append(py_bool(!is_audit));
            s.append(")\n");
        },
        MethodType::CosFitMethod => {
            if !is_audit {
                s.append("import sys\nsys.exit(\"CosFit is not supported in watch mode\")\n");
            }
            s.append("ifg.GD_lookup(");
            s.append(rf);
            s.append(", silent=True)\nifg._optimizer(");
            s.append(rf);
            s.append(", ");
            s.append(order);
            s.append(
                ", initial_region_ratio=0.05, extend_by=0.05, show_endpoint=False, nofigure=True)\n",
            );
        },
        MethodType::WFTMethod => {
            s.append("ifg.cover(\n    ");
            match md.windows {
                Some(w) => {
                    s.append(crate::text::i64_to_string(w as i64).as_str());
                },
                None => {
                    s.append("300");
                },
            }
            s.append(",\n    ");
            match (&md.fwhm, &md.std_dev) {
                (Some(f), None) => {
                    s.append("fwhm=");
                    s.append(f.as_str());
                },
                (None, Some(sd)) => {
                    s.append("std=");
                    s.append(sd.as_str());
                },
                (None, None) => {
                    s.append("fwhm=0.05");
                },
                (Some(_), Some(_)) => {},
            }
            s.append("\n)\n");
            if is_audit {
                s.append("ifg._calculate(");
            } else {
                s.append("ifg.calculate(");
            }
            s.append(rf);
            s.append(", ");
            s.append(order);
            s.append(", silent=");
            s.append(py_bool(is_audit));
            s.append(", parallel=");
            s.append(py_bool(md.parallel));
            s.append(", fastmath=False)\n");
        },
        MethodType::MinMaxMethod => {
            s.append("ifg.init_edit_session(side=\"");
            if md.min && md.max {
                s.append("both");
            } else if md.min {
                s.append("min");
            } else if md.max {
                s.append("max");
            } else {
                s.append("both");
            }
            s.append("\")\nplt.show(block=True)\nifg.calculate(");
            s.append(rf);
            s.append(", ");
            s.append(order);
            s.append(", scan=True, onesided=");
            if md.min && md.max {
                s.append("False");
            } else if md.min || md.max {
                s.append("True");
            } else {
                s.append("False");
            }
            s.append(")\n");
        },
        MethodType::SPPMethod => {
            s.append("print(\"SPPMethod is not yet implemented..\")\n");
        },
    }
    proof {
        assert(s@ =~= spec_method_block(method, md@, rf@, order@, is_audit));
    }
    s
}

/// The closing of a per-file script: the result-store fragment.
pub open spec fn spec_fragment_block(
    file: Seq<char>,
    result_path: Seq<char>,
    verbosity: u8,
) -> Seq<char> {
    "fragment = ps.utils._prepare_json_fragment(ifg, \""@ + file
        + "\", x_before_transform, y_before_transform, verbosity="@ + spec_udec(verbosity as nat)
        + ")\nps.utils._write_or_update_json_fragment(\""@ + result_path + "\", fragment, \""@
        + file + "\")\n"@
}

fn fragment_block(file: &str, result_path: &str, verbosity: u8) -> (r: String)
    ensures
        r@ == spec_fragment_block(file@, result_path@, verbosity),
{
    let mut s = String::from_str("fragment = ps.utils._prepare_json_fragment(ifg, \"");
    s.append(file);
    s.append("\", x_before_transform, y_before_transform, verbosity=");
    s.append(crate::text::u64_to_string(verbosity as u64).as_str());
    s.append(")\nps.utils._write_or_update_json_fragment(\"");
    s.append(result_path);
    s.append("\", fragment, \"");
    s.append(file);
    s.append("\")\n");
    proof {
        assert(s@ =~= spec_fragment_block(file@, result_path@, verbosity));
    }
    s
}

/// The whole per-file script for one primary file, with its optional paired
/// arm files.
pub open spec fn spec_render_generic(
    file: Seq<char>,
    workdir: Seq<char>,
    cm: ConfigModel,
    result_file: Seq<char>,
    verbosity: u8,
    is_audit: bool,
    sam: Option<Seq<char>>,
    refa: Option<Seq<char>>,
) -> Seq<char> {
    let rf = match cm.evaluate.reference_frequency {
        Some(t) => t,
        None => Seq::empty(),
    };
    let ord = match cm.evaluate.order {
        Some(o) => spec_udec(o as nat),
        None => Seq::empty(),
    };
    spec_parse_raw_block(
        cm.method,
        spec_join(workdir, file),
        match sam {
            Some(n) => Some(spec_join(workdir, n)),
            None => None,
        },
        match refa {
            Some(n) => Some(spec_join(workdir, n)),
            None => None,
        },
        cm.load_options,
    ) + (if !cm.load_options.no_comment_check {
        spec_comment_guard()
    } else {
        Seq::empty()
    }) + spec_preprocess_block(cm.preprocess) + spec_snapshot_block() + (
    if cm.method_details.plot {
        "ifg.plot()\nplt.show(block=True)\n"@
    } else {
        Seq::empty()
    }) + spec_lines(cm.before_evaluate) + spec_method_block(
        cm.method,
        cm.method_details,
        rf,
        ord,
        is_audit,
    ) + (if cm.method_details.heatmap && cm.method is WFTMethod {
        "ifg.heatmap()\nplt.show(block=True)\n"@
    } else {
        Seq::empty()
    }) + spec_fragment_block(file, spec_join(workdir, result_file), verbosity)
        + spec_lines(cm.after_evaluate)
}

/// Renders the per-file script for one primary file. Fails exactly when a
/// substitution the method needs has no value: every per-file method needs a
/// reference frequency and an order.
pub fn render_generic_template(
    file: &str,
    path: &str,
    config: &Config,
    result_file: &str,
    verbosity: u8,
    is_audit: bool,
    sam_arm: Option<&String>,
    ref_arm: Option<&String>,
) -> (r: Result<String, RenderError>)
    ensures
        match r {
            Ok(s) => (config.method is SPPMethod || (config@.evaluate.reference_frequency is Some
                && config@.evaluate.order is Some)) && s@ == spec_render_generic(
                file@,
                path@,
                config@,
                result_file@,
                verbosity,
                is_audit,
                match sam_arm {
                    Some(n) => Some(n@),
                    None => None,
                },
                match ref_arm {
                    Some(n) => Some(n@),
                    None => None,
                },
            ),
            Err(e) => !(config.method is SPPMethod) && (config@.evaluate.reference_frequency
                is None || config@.evaluate.order is None) && e@ == (
            if config@.evaluate.reference_frequency is None {
                RenderErrorModel::UndefinedVariable("reference_frequency"@)
            } else {
                RenderErrorModel::UndefinedVariable("order"@)
            }),
        },
{
    let needs_evaluate = !config.method.is_aggregate();
    let rf: String = match &config.evaluate.reference_frequency {
        Some(t) => t.clone(),
        None => {
            if needs_evaluate {
                return Err(RenderError::UndefinedVariable(String::from_str(
                    "reference_frequency",
                )));
            }
            String::new()
        },
    };
    let ord: String = match &config.evaluate.order {
        Some(o) => crate::text::u64_to_string(*o as u64),
        None => {
            if needs_evaluate {
                return Err(RenderError::UndefinedVariable(String::from_str("order")));
            }
            String::new()
        },
    };
    let file_path = crate::discover::join_path(path, file);
    let sam_path: Option<String> = match sam_arm {
        Some(n) => Some(crate::discover::join_path(path, n.as_str())),
        None => None,
    };
    let ref_path: Option<String> = match ref_arm {
        Some(n) => Some(crate::discover::join_path(path, n.as_str())),
        None => None,
    };
    let mut s = parse_raw_block(
        config.method,
        file_path.as_str(),
        &sam_path,
        &ref_path,
        &config.load_options,
    );
    if !config.load_options.no_comment_check {
        s.append(comment_guard());
    }
    s.append(preprocess_block(&config.preprocess).as_str());
    s.append(snapshot_block());
    if config.method_details.plot {
        s.append("ifg.plot()\nplt.show(block=True)\n");
    }
    s.append(hook_lines(&config.before_evaluate).as_str());
    s.append(
        method_block(config.method, &config.method_details, rf.as_str(), ord.as_str(), is_audit)
            .as_str(),
    );
    if config.method_details.heatmap && matches!(config.method, MethodType::WFTMethod) {
        s.append("ifg.heatmap()\nplt.show(block=True)\n");
    }
    let result_path = crate::discover::join_path(path, result_file);
    s.append(fragment_block(file, result_path.as_str(), verbosity).as_str());
    s.append(hook_lines(&config.after_evaluate).as_str());
    proof {
        assert(s@ =~= spec_render_generic(
            file@,
            path@,
            config@,
            result_file@,
            verbosity,
            is_audit,
            match sam_arm {
                Some(n) => Some(n@),
                None => None,
            },
            match ref_arm {
                Some(n) => Some(n@),
                None => None,
            },
        ));
    }
    Ok(s)
}

/// One raw-string list entry per file path, for the aggregate script.
pub open spec fn spec_path_list(names: Seq<Seq<char>>, workdir: Seq<char>) -> Seq<char>
    decreases names.len(),
{
    if names.len() == 0 {
        Seq::empty()
    } else {
        "    r\""@ + spec_join(workdir, names[0]) + "\",\n"@ + spec_path_list(
            names.drop_first(),
            workdir,
        )
    }
}

fn path_list(files: &Vec<String>, workdir: &str) -> (r: String)
    ensures
        r@ == spec_path_list(files@.map_values(|s: String| s@), workdir@),
{
    let ghost fm = files@.map_values(|s: String| s@);
    let mut acc = String::new();
    let mut i: usize = 0;
    proof {
        assert(fm.skip(0) =~= fm);
    }
    while i < files.len()
        invariant
            i <= files@.len(),
            fm == files@.map_values(|s: String| s@),
            spec_path_list(fm, workdir@) =~= acc@ + spec_path_list(fm.skip(i as int), workdir@),
        decreases files@.len() - i,
    {
        proof {
            assert(fm.skip(i as int)[0] == fm[i as int]);
            assert(fm.skip(i as int).drop_first() =~= fm.skip(i + 1));
        }
        let ghost before = acc@;
        acc.append("    r\"");
        acc.append(crate::discover::join_path(workdir, files[i].as_str()).as_str());
        acc.append("\",\n");
        proof {
            assert(before + ("    r\""@ + spec_join(workdir@, fm[i as int]) + "\",\n"@
                + spec_path_list(fm.skip(i + 1), workdir@)) =~= acc@ + spec_path_list(
                fm.skip(i + 1),
                workdir@,
            ));
        }
        i += 1;
    }
    proof {
        assert(fm.skip(fm.len() as int) =~= Seq::<Seq<char>>::empty());
        assert(acc@ + Seq::<char>::empty() =~= acc@);
    }
    acc
}

/// The whole aggregate script over the classified set: the three path lists,
/// the aggregate-method construction, the hooks, and one calculation call.
pub open spec fn spec_render_spp(
    ifgs: Seq<Seq<char>>,
    sams: Seq<Seq<char>>,
    refs: Seq<Seq<char>>,
    workdir: Seq<char>,
    cm: ConfigModel,
) -> Seq<char> {
    let rf = match cm.evaluate.reference_frequency {
        Some(t) => t,
        None => Seq::empty(),
    };
    let ord = match cm.evaluate.order {
        Some(o) => spec_udec(o as nat),
        None => Seq::empty(),
    };
    "ifg_files = [\n"@ + spec_path_list(ifgs, workdir) + "]\nsam_files = [\n"@ + spec_path_list(
        sams,
        workdir,
    ) + "]\nref_files = [\n"@ + spec_path_list(refs, workdir)
        + "]\nmyspp = ps.SPPMethod(ifg_files, sam_files, ref_files, skiprows="@ + spec_udec(
        cm.load_options.skiprows as nat,
    ) + ", decimal=\""@ + cm.load_options.decimal + "\", delimiter=\""@ + cm.load_options.delimiter
        + "\", meta_len="@ + spec_udec(cm.load_options.meta_len as nat) + (
    if cm.method_details.eager {
        ", callback=ps.eager_executor(reference_point="@ + rf + ", order="@ + ord
            + ", logfile=\"spp.log\", verbosity=1)"@
    } else {
        Seq::empty()
    }) + ")\n"@ + spec_lines(cm.before_evaluate) + (if cm.method_details.detach {
        "for ifg in myspp:\n"@ + (if cm.preprocess.chdomain {
            "    ifg.chdomain()\n"@
        } else {
            Seq::empty()
        }) + "    ifg.open_SPP_panel(header=\"comment\")\n"@
    } else {
        Seq::empty()
    }) + "myspp.calculate("@ + rf + ", "@ + ord + ", show_graph=False)\n"@ + spec_lines(
        cm.after_evaluate,
    )
}

/// Renders the aggregate script for the whole classified set. Fails exactly
/// when the reference frequency or the order is missing: the aggregate
/// calculation needs both.
pub fn render_spp_template(
    ifg_files: &Vec<String>,
    ref_files: &Vec<String>,
    sam_files: &Vec<String>,
    path: &str,
    config: &Config,
    _result_file: &str,
    _verbosity: u8,
    _is_audit: bool,
) -> (r: Result<String, RenderError>)
    ensures
        match r {
            Ok(s) => config@.evaluate.reference_frequency is Some && config@.evaluate.order is Some
                && s@ == spec_render_spp(
                ifg_files@.map_values(|f: String| f@),
                sam_files@.map_values(|f: String| f@),
                ref_files@.map_values(|f: String| f@),
                path@,
                config@,
            ),
            Err(e) => (config@.evaluate.reference_frequency is None || config@.evaluate.order
                is None) && e@ == (if config@.evaluate.reference_frequency is None {
                RenderErrorModel::UndefinedVariable("reference_frequency"@)
            } else {
                RenderErrorModel::UndefinedVariable("order"@)
            }),
        },
{
    let rf: String = match &config.evaluate.reference_frequency {
        Some(t) => t.clone(),
        None => {
            return Err(RenderError::UndefinedVariable(String::from_str("reference_frequency")));
        },
    };
    let ord: String = match &config.evaluate.order {
        Some(o) => crate::text::u64_to_string(*o as u64),
        None => {
            return Err(RenderError::UndefinedVariable(String::from_str("order")));
        },
    };
    let mut s = String::from_str("ifg_files = [\n");
    s.append(path_list(ifg_files, path).as_str());
    s.append("]\nsam_files = [\n");
    s.append(path_list(sam_files, path).as_str());
    s.append("]\nref_files = [\n");
    s.append(path_list(ref_files, path).as_str());
    s.append("]\nmyspp = ps.SPPMethod(ifg_files, sam_files, ref_files, skiprows=");
    s.append(crate::text::u64_to_string(config.load_options.skiprows as u64).as_str());
    s.append(", decimal=\"");
    s.append(config.load_options.decimal.as_str());
    s.append("\", delimiter=\"");
    s.append(config.load_options.delimiter.as_str());
    s.append("\", meta_len=");
    s.append(crate::text::u64_to_string(config.load_options.meta_len as u64).as_str());
    if config.method_details.eager {
        s.append(", callback=ps.eager_executor(reference_point=");
        s.append(rf.as_str());
        s.append(", order=");
        s.append(ord.as_str());
        s.append(", logfile=\"spp.log\", verbosity=1)");
    }
    s.append(")\n");
    s.append(hook_lines(&config.before_evaluate).as_str());
    if config.method_details.detach {
        s.append("for ifg in myspp:\n");
        if config.preprocess.chdomain {
            s.append("    ifg.chdomain()\n");
        }
        s.append("    ifg.open_SPP_panel(header=\"comment\")\n");
    }
    s.append("myspp.calculate(");
    s.append(rf.as_str());
    s.append(", ");
    s.append(ord.as_str());
    s.append(", show_graph=False)\n");
    s.append(hook_lines(&config.after_evaluate).as_str());
    proof {
        assert(s@ =~= spec_render_spp(
            ifg_files@.map_values(|f: String| f@),
            sam_files@.map_values(|f: String| f@),
            ref_files@.map_values(|f: String| f@),
            path@,
            config@,
        ));
    }
    Ok(s)
}

/// The import preamble a persisted script carries: the library aliases the
/// analysis runtime provides to generated code.
pub open spec fn spec_import_preamble() -> Seq<char> {
    "import numpy as np\nimport pysprint as ps\nimport matplotlib.pyplot as plt\n\n"@
}

/// The import preamble of a persisted script.
pub fn import_preamble() -> (r: &'static str)
    ensures
        r@ == spec_import_preamble(),
{
    "import numpy as np\nimport pysprint as ps\nimport matplotlib.pyplot as plt\n\n"
}

/// A script body prefixed with the import preamble and closed with a final
/// newline: the exact text a persisted script file holds.
pub fn script_with_imports(content: &str) -> (r: String)
    ensures
        r@ == spec_import_preamble() + content@ + "\n"@,
{
    let mut s = String::from_str(import_preamble());
    s.append(content);
    s.append("\n");
    proof {
        assert(s@ =~= spec_import_preamble() + content@ + "\n"@);
    }
    s
}

} // verus!
