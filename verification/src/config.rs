//! The layered configuration model: a plain document tree, the validated
//! option groups, and the validation pass that turns the one into the other.

use vstd::prelude::*;

verus! {

/// A configuration document: the shape a markup file takes once decoded.
/// Numbers keep their literal text, so no precision is lost and no
/// floating-point value enters the core.
pub enum DocValue {
    Null,
    Bool(bool),
    Int(i64),
    /// A non-integer numeric literal, kept as its text.
    Num(String),
    Str(String),
    List(Vec<DocValue>),
    /// A mapping, as key/value pairs in document order.
    Mapping(Vec<(String, DocValue)>),
}

/// One of the five analysis methods.
#[derive(Clone, Copy, PartialEq, Eq, Structural, Debug)]
pub enum MethodType {
    CosFitMethod,
    FFTMethod,
    WFTMethod,
    MinMaxMethod,
    SPPMethod,
}

impl MethodType {
    /// Aggregate methods take the whole classified set in one script.
    pub open spec fn spec_is_aggregate(self) -> bool {
        self is SPPMethod
    }

    /// Whether this method evaluates the whole classified set at once.
    pub fn is_aggregate(&self) -> (r: bool)
        ensures
            r == self.spec_is_aggregate(),
    {
        matches!(self, MethodType::SPPMethod)
    }
}

/// How discovered files are partitioned into measurement arms.
#[derive(Clone, Copy, PartialEq, Eq, Structural, Debug)]
pub enum GroupingMode {
    /// Consecutive groups of three: interferogram, sample, reference.
    Triple,
    /// Every file is evaluated on its own.
    AllAsPrimary,
    /// Group in threes, then evaluate only the interferogram arm.
    PrimaryOnly,
}

/// A field that accepts either one string or a list of strings.
#[derive(Clone, Debug)]
pub enum StringSequence {
    Vector(Vec<String>),
    Single(String),
}

impl StringSequence {
    /// The strings held, as a sequence.
    pub open spec fn spec_strings(self) -> Seq<String> {
        match self {
            StringSequence::Single(s) => seq![s],
            StringSequence::Vector(v) => v@,
        }
    }

    /// The character sequences held.
    pub open spec fn items(self) -> Seq<Seq<char>> {
        self.spec_strings().map_values(|s: String| s@)
    }

    /// Flattens to a plain vector of strings.
    pub fn into_comparable(self) -> (r: Vec<String>)
        ensures
            r@ == self.spec_strings(),
    {
        match self {
            StringSequence::Single(single) => {
                let mut v = Vec::new();
                v.push(single);
                proof {
                    assert(v@ =~= seq![single]);
                }
                v
            },
            StringSequence::Vector(v) => v,
        }
    }
}

/// File discovery and loading options.
#[derive(Clone, Debug)]
pub struct LoadOptions {
    pub extensions: StringSequence,
    pub exclude_patterns: StringSequence,
    pub skip_files: StringSequence,
    pub skiprows: u32,
    pub meta_len: u32,
    pub decimal: String,
    pub delimiter: String,
    pub grouping: GroupingMode,
    pub no_comment_check: bool,
}

/// Preprocessing options applied before a method runs.
#[derive(Clone, Debug)]
pub struct Preprocess {
    pub chdomain: bool,
    pub input_unit: String,
    pub slice_start: Option<String>,
    pub slice_stop: Option<String>,
}

/// Method-specific detail options; every field is optional in the document.
#[derive(Clone, Debug)]
pub struct MethodDetails {
    pub heatmap: bool,
    pub windows: Option<i32>,
    pub fwhm: Option<String>,
    pub std_dev: Option<String>,
    pub parallel: bool,
    pub plot: bool,
    pub min: bool,
    pub max: bool,
    pub both: bool,
    pub eager: bool,
    pub detach: bool,
}

/// Evaluation options shared by every method.
#[derive(Clone, Debug)]
pub struct Evaluate {
    pub reference_frequency: Option<String>,
    pub order: Option<u32>,
    pub only_phase: bool,
}

/// The validated option set: one immutable value per invocation.
#[derive(Clone, Debug)]
pub struct Config {
    pub load_options: LoadOptions,
    pub preprocess: Preprocess,
    pub method: MethodType,
    pub method_details: MethodDetails,
    pub evaluate: Evaluate,
    pub before_evaluate: Vec<String>,
    pub after_evaluate: Vec<String>,
}

/// Mathematical image of `LoadOptions`.
#[verifier::ext_equal]
pub ghost struct LoadOptionsModel {
    pub extensions: Seq<Seq<char>>,
    pub exclude_patterns: Seq<Seq<char>>,
    pub skip_files: Seq<Seq<char>>,
    pub skiprows: u32,
    pub meta_len: u32,
    pub decimal: Seq<char>,
    pub delimiter: Seq<char>,
    pub grouping: GroupingMode,
    pub no_comment_check: bool,
}

/// Mathematical image of `Preprocess`.
#[verifier::ext_equal]
pub ghost struct PreprocessModel {
    pub chdomain: bool,
    pub input_unit: Seq<char>,
    pub slice_start: Option<Seq<char>>,
    pub slice_stop: Option<Seq<char>>,
}

/// Mathematical image of `MethodDetails`.
#[verifier::ext_equal]
pub ghost struct MethodDetailsModel {
    pub heatmap: bool,
    pub windows: Option<i32>,
    pub fwhm: Option<Seq<char>>,
    pub std_dev: Option<Seq<char>>,
    pub parallel: bool,
    pub plot: bool,
    pub min: bool,
    pub max: bool,
    pub both: bool,
    pub eager: bool,
    pub detach: bool,
}

/// Mathematical image of `Evaluate`.
#[verifier::ext_equal]
pub ghost struct EvaluateModel {
    pub reference_frequency: Option<Seq<char>>,
    pub order: Option<u32>,
    pub only_phase: bool,
}

/// Mathematical image of `Config`.
#[verifier::ext_equal]
pub ghost struct ConfigModel {
    pub load_options: LoadOptionsModel,
    pub preprocess: PreprocessModel,
    pub method: MethodType,
    pub method_details: MethodDetailsModel,
    pub evaluate: EvaluateModel,
    pub before_evaluate: Seq<Seq<char>>,
    pub after_evaluate: Seq<Seq<char>>,
}

impl View for LoadOptions {
    type V = LoadOptionsModel;

    open spec fn view(&self) -> LoadOptionsModel {
        LoadOptionsModel {
            extensions: self.extensions.items(),
            exclude_patterns: self.exclude_patterns.items(),
            skip_files: self.skip_files.items(),
            skiprows: self.skiprows,
            meta_len: self.meta_len,
            decimal: self.decimal@,
            delimiter: self.delimiter@,
            grouping: self.grouping,
            no_comment_check: self.no_comment_check,
        }
    }
}

impl View for Preprocess {
    type V = PreprocessModel;

    open spec fn view(&self) -> PreprocessModel {
        PreprocessModel {
            chdomain: self.chdomain,
            input_unit: self.input_unit@,
            slice_start: match self.slice_start {
                Some(s) => Some(s@),
                None => None,
            },
            slice_stop: match self.slice_stop {
                Some(s) => Some(s@),
                None => None,
            },
        }
    }
}

impl View for MethodDetails {
    type V = MethodDetailsModel;

    open spec fn view(&self) -> MethodDetailsModel {
        MethodDetailsModel {
            heatmap: self.heatmap,
            windows: self.windows,
            fwhm: match self.fwhm {
                Some(s) => Some(s@),
                None => None,
            },
            std_dev: match self.std_dev {
                Some(s) => Some(s@),
                None => None,
            },
            parallel: self.parallel,
            plot: self.plot,
            min: self.min,
            max: self.max,
            both: self.both,
            eager: self.eager,
            detach: self.detach,
        }
    }
}

impl View for Evaluate {
    type V = EvaluateModel;

    open spec fn view(&self) -> EvaluateModel {
        EvaluateModel {
            reference_frequency: match self.reference_frequency {
                Some(s) => Some(s@),
                None => None,
            },
            order: self.order,
            only_phase: self.only_phase,
        }
    }
}

impl View for Config {
    type V = ConfigModel;

    open spec fn view(&self) -> ConfigModel {
        ConfigModel {
            load_options: self.load_options@,
            preprocess: self.preprocess@,
            method: self.method,
            method_details: self.method_details@,
            evaluate: self.evaluate@,
            before_evaluate: self.before_evaluate@.map_values(|s: String| s@),
            after_evaluate: self.after_evaluate@.map_values(|s: String| s@),
        }
    }
}

/// A validation failure, naming the offending key.
#[derive(Clone, Debug)]
pub enum ValidationError {
    MissingKey(String),
    WrongType(String),
    UnknownMethod(String),
}

/// Mathematical image of `ValidationError`.
pub ghost enum ValidationErrorModel {
    MissingKey(Seq<char>),
    WrongType(Seq<char>),
    UnknownMethod(Seq<char>),
}

impl View for ValidationError {
    type V = ValidationErrorModel;

    open spec fn view(&self) -> ValidationErrorModel {
        match self {
            ValidationError::MissingKey(k) => ValidationErrorModel::MissingKey(k@),
            ValidationError::WrongType(k) => ValidationErrorModel::WrongType(k@),
            ValidationError::UnknownMethod(m) => ValidationErrorModel::UnknownMethod(m@),
        }
    }
}

/// The diagnostic text of a validation failure.
pub open spec fn spec_error_message(e: ValidationErrorModel) -> Seq<char> {
    match e {
        ValidationErrorModel::MissingKey(k) => "missing required key: "@ + k,
        ValidationErrorModel::WrongType(k) => "wrong type for key: "@ + k,
        ValidationErrorModel::UnknownMethod(m) => "expected valid method name, found "@ + m,
    }
}

impl ValidationError {
    /// One diagnostic line naming the offending key.
    pub fn message(&self) -> (r: String)
        ensures
            r@ == spec_error_message(self@),
    {
        match self {
            ValidationError::MissingKey(k) => {
                let mut s = String::from_str("missing required key: ");
                s.append(k.as_str());
                s
            },
            ValidationError::WrongType(k) => {
                let mut s = String::from_str("wrong type for key: ");
                s.append(k.as_str());
                s
            },
            ValidationError::UnknownMethod(m) => {
                let mut s = String::from_str("expected valid method name, found ");
                s.append(m.as_str());
                s
            },
        }
    }
}

/// The default input unit: nanometers.
pub fn input_unit_default() -> (r: Option<String>)
    ensures
        r is Some,
        r.unwrap()@ == "nm"@,
{
    Some(String::from_str("nm"))
}

/// By default the comment-based skip check stays enabled.
pub fn no_comment_check_default() -> (r: Option<bool>)
    ensures
        r == Some(false),
{
    Some(false)
}

/// The default hook command list: no commands.
pub fn default_trigger() -> (r: Option<StringSequence>)
    ensures
        r is Some,
        r.unwrap().items() == Seq::<Seq<char>>::empty(),
{
    let v: Vec<String> = Vec::new();
    let r = StringSequence::Vector(v);
    proof {
        assert(r.items() =~= Seq::<Seq<char>>::empty());
    }
    Some(r)
}

/// The default pattern and skip lists: empty.
pub fn default_placeholder() -> (r: StringSequence)
    ensures
        r.items() == Seq::<Seq<char>>::empty(),
{
    let v: Vec<String> = Vec::new();
    let r = StringSequence::Vector(v);
    proof {
        assert(r.items() =~= Seq::<Seq<char>>::empty());
    }
    r
}

/// Looks a key up in a mapping's entries; the first matching pair wins.
pub open spec fn spec_lookup(m: Seq<(String, DocValue)>, key: Seq<char>) -> Option<DocValue>
    decreases m.len(),
{
    if m.len() == 0 {
        None
    } else if m[0].0@ == key {
        Some(m[0].1)
    } else {
        spec_lookup(m.drop_first(), key)
    }
}

fn doc_lookup<'a>(m: &'a Vec<(String, DocValue)>, key: &str) -> (r: Option<&'a DocValue>)
    ensures
        match r {
            Some(v) => spec_lookup(m@, key@) == Some(*v),
            None => spec_lookup(m@, key@) is None,
        },
{
    let mut i: usize = 0;
    proof {
        assert(m@.skip(0) =~= m@);
    }
    while i < m.len()
        invariant
            i <= m@.len(),
            spec_lookup(m@, key@) == spec_lookup(m@.skip(i as int), key@),
        decreases m@.len() - i,
    {
        proof {
            assert(m@.skip(i as int)[0] == m@[i as int]);
            assert(m@.skip(i as int).drop_first() =~= m@.skip(i + 1));
        }
        let entry = &m[i];
        if crate::text::str_eq(entry.0.as_str(), key) {
            return Some(&entry.1);
        }
        i += 1;
    }
    None
}

/// The text of a string document value; empty for any other kind.
pub open spec fn text_of(d: DocValue) -> Seq<char> {
    match d {
        DocValue::Str(s) => s@,
        _ => Seq::empty(),
    }
}

pub open spec fn spec_as_bool(v: DocValue) -> Option<bool> {
    match v {
        DocValue::Bool(b) => Some(b),
        _ => None,
    }
}

pub open spec fn spec_as_u32(v: DocValue) -> Option<u32> {
    match v {
        DocValue::Int(i) => if 0 <= i <= u32::MAX {
            Some(i as u32)
        } else {
            None
        },
        _ => None,
    }
}

pub open spec fn spec_as_i32(v: DocValue) -> Option<i32> {
    match v {
        DocValue::Int(i) => if i32::MIN <= i <= i32::MAX {
            Some(i as i32)
        } else {
            None
        },
        _ => None,
    }
}

/// A single-character text value, as the options for the decimal mark and
/// the column delimiter require.
pub open spec fn spec_as_char(v: DocValue) -> Option<Seq<char>> {
    match v {
        DocValue::Str(s) => if s@.len() == 1 {
            Some(s@)
        } else {
            None
        },
        _ => None,
    }
}

pub open spec fn spec_as_text(v: DocValue) -> Option<Seq<char>> {
    match v {
        DocValue::Str(s) => Some(s@),
        _ => None,
    }
}

/// The literal text of a numeric value: integers render in decimal,
/// non-integer literals keep their own text.
pub open spec fn spec_as_number_text(v: DocValue) -> Option<Seq<char>> {
    match v {
        DocValue::Int(i) => Some(crate::text::spec_idec(i as int)),
        DocValue::Num(s) => Some(s@),
        _ => None,
    }
}

/// The grouping encoded in the document's `mod` key: `3`, `1` or `-1`.
pub open spec fn spec_as_grouping(v: DocValue) -> Option<GroupingMode> {
    match v {
        DocValue::Int(i) => if i == 3 {
            Some(GroupingMode::Triple)
        } else if i == 1 {
            Some(GroupingMode::AllAsPrimary)
        } else if i == -1 {
            Some(GroupingMode::PrimaryOnly)
        } else {
            None
        },
        _ => None,
    }
}

/// The method named by its configuration shorthand.
pub open spec fn spec_method_of(s: Seq<char>) -> Option<MethodType> {
    if s == "wft"@ {
        Some(MethodType::WFTMethod)
    } else if s == "fft"@ {
        Some(MethodType::FFTMethod)
    } else if s == "spp"@ {
        Some(MethodType::SPPMethod)
    } else if s == "cff"@ {
        Some(MethodType::CosFitMethod)
    } else if s == "mm"@ {
        Some(MethodType::MinMaxMethod)
    } else {
        None
    }
}

/// The texts of a list of string values; `None` when any element is not a
/// string.
pub open spec fn spec_str_items(items: Seq<DocValue>) -> Option<Seq<Seq<char>>>
    decreases items.len(),
{
    if items.len() == 0 {
        Some(Seq::empty())
    } else {
        match items[0] {
            DocValue::Str(s) => match spec_str_items(items.drop_first()) {
                Some(rest) => Some(seq![s@] + rest),
                None => None,
            },
            _ => None,
        }
    }
}

/// The one-or-many coercion: a single string stands for a list of one.
pub open spec fn spec_one_or_many(v: DocValue) -> Option<Seq<Seq<char>>> {
    match v {
        DocValue::Str(s) => Some(seq![s@]),
        DocValue::List(xs) => spec_str_items(xs@),
        _ => None,
    }
}

proof fn lemma_str_items_all_strings(items: Seq<DocValue>)
    requires
        forall|k: int| 0 <= k < items.len() ==> items[k] is Str,
    ensures
        spec_str_items(items) == Some(items.map_values(|d: DocValue| text_of(d))),
    decreases items.len(),
{
    let f = |d: DocValue| text_of(d);
    if items.len() == 0 {
        assert(items.map_values(f) =~= Seq::<Seq<char>>::empty());
    } else {
        lemma_str_items_all_strings(items.drop_first());
        assert(seq![text_of(items[0])] + items.drop_first().map_values(f) =~= items.map_values(f));
    }
}

proof fn lemma_str_items_bad(items: Seq<DocValue>, j: int)
    requires
        0 <= j < items.len(),
        !(items[j] is Str),
    ensures
        spec_str_items(items) is None,
    decreases items.len(),
{
    if j > 0 {
        lemma_str_items_bad(items.drop_first(), j - 1);
    }
}

fn bool_of(v: &DocValue) -> (r: Option<bool>)
    ensures
        r == spec_as_bool(*v),
{
    match v {
        DocValue::Bool(b) => Some(*b),
        _ => None,
    }
}

fn u32_of(v: &DocValue) -> (r: Option<u32>)
    ensures
        r == spec_as_u32(*v),
{
    match v {
        DocValue::Int(i) => if 0 <= *i && *i <= u32::MAX as i64 {
            Some(*i as u32)
        } else {
            None
        },
        _ => None,
    }
}

fn i32_of(v: &DocValue) -> (r: Option<i32>)
    ensures
        r == spec_as_i32(*v),
{
    match v {
        DocValue::Int(i) => if i32::MIN as i64 <= *i && *i <= i32::MAX as i64 {
            Some(*i as i32)
        } else {
            None
        },
        _ => None,
    }
}

fn char_of(v: &DocValue) -> (r: Option<String>)
    ensures
        match r {
            Some(c) => spec_as_char(*v) == Some(c@),
            None => spec_as_char(*v) is None,
        },
{
    match v {
        DocValue::Str(s) => {
            if s.as_str().unicode_len() == 1 {
                Some(s.clone())
            } else {
                None
            }
        },
        _ => None,
    }
}

fn string_of(v: &DocValue) -> (r: Option<String>)
    ensures
        match r {
            Some(s) => spec_as_text(*v) == Some(s@),
            None => spec_as_text(*v) is None,
        },
{
    match v {
        DocValue::Str(s) => Some(s.clone()),
        _ => None,
    }
}

fn number_text_of(v: &DocValue) -> (r: Option<String>)
    ensures
        match r {
            Some(s) => spec_as_number_text(*v) == Some(s@),
            None => spec_as_number_text(*v) is None,
        },
{
    match v {
        DocValue::Int(i) => Some(crate::text::i64_to_string(*i)),
        DocValue::Num(s) => Some(s.clone()),
        _ => None,
    }
}

fn grouping_of(v: &DocValue) -> (r: Option<GroupingMode>)
    ensures
        r == spec_as_grouping(*v),
{
    match v {
        DocValue::Int(i) => if *i == 3 {
            Some(GroupingMode::Triple)
        } else if *i == 1 {
            Some(GroupingMode::AllAsPrimary)
        } else if *i == -1 {
            Some(GroupingMode::PrimaryOnly)
        } else {
            None
        },
        _ => None,
    }
}

fn method_of(s: &str) -> (r: Option<MethodType>)
    ensures
        r == spec_method_of(s@),
{
    if crate::text::str_eq(s, "wft") {
        Some(MethodType::WFTMethod)
    } else if crate::text::str_eq(s, "fft") {
        Some(MethodType::FFTMethod)
    } else if crate::text::str_eq(s, "spp") {
        Some(MethodType::SPPMethod)
    } else if crate::text::str_eq(s, "cff") {
        Some(MethodType::CosFitMethod)
    } else if crate::text::str_eq(s, "mm") {
        Some(MethodType::MinMaxMethod)
    } else {
        None
    }
}

fn string_sequence_of(v: &DocValue) -> (r: Option<StringSequence>)
    ensures
        match r {
            Some(ss) => spec_one_or_many(*v) == Some(ss.items()),
            None => spec_one_or_many(*v) is None,
        },
{
    match v {
        DocValue::Str(s) => {
            let r = StringSequence::Single(s.clone());
            proof {
                assert(r.items() =~= seq![s@]);
            }
            Some(r)
        },
        DocValue::List(xs) => {
            let mut out: Vec<String> = Vec::new();
            let mut i: usize = 0;
            while i < xs.len()
                invariant
                    i <= xs@.len(),
                    out@.len() == i,
                    spec_one_or_many(*v) == spec_str_items(xs@),
                    forall|k: int|
                        0 <= k < i ==> (#[trigger] xs@[k]) is Str && out@[k]@ == text_of(xs@[k]),
                decreases xs@.len() - i,
            {
                match &xs[i] {
                    DocValue::Str(s) => {
                        out.push(s.clone());
                    },
                    _ => {
                        proof {
                            assert(!(xs@[i as int] is Str));
                            lemma_str_items_bad(xs@, i as int);
                            assert(spec_str_items(xs@) is None);
                        }
                        return None;
                    },
                }
                i += 1;
            }
            let r = StringSequence::Vector(out);
            proof {
                lemma_str_items_all_strings(xs@);
                assert(r.items() =~= xs@.map_values(|d: DocValue| text_of(d)));
            }
            Some(r)
        },
        _ => None,
    }
}

/// The value under `key`, with `Null` standing in when the key is absent.
pub open spec fn val_at(m: Seq<(String, DocValue)>, key: Seq<char>) -> DocValue {
    match spec_lookup(m, key) {
        Some(v) => v,
        None => DocValue::Null,
    }
}

pub open spec fn has_key(m: Seq<(String, DocValue)>, key: Seq<char>) -> bool {
    spec_lookup(m, key) is Some
}

/// An optional key is in order when it is absent or holds the right type.
pub open spec fn opt_bool_ok(m: Seq<(String, DocValue)>, key: Seq<char>) -> bool {
    !has_key(m, key) || spec_as_bool(val_at(m, key)) is Some
}

pub open spec fn opt_bool_val(m: Seq<(String, DocValue)>, key: Seq<char>, dflt: bool) -> bool {
    if has_key(m, key) {
        match spec_as_bool(val_at(m, key)) {
            Some(b) => b,
            None => dflt,
        }
    } else {
        dflt
    }
}

pub open spec fn opt_u32_ok(m: Seq<(String, DocValue)>, key: Seq<char>) -> bool {
    !has_key(m, key) || spec_as_u32(val_at(m, key)) is Some
}

pub open spec fn opt_u32_val(m: Seq<(String, DocValue)>, key: Seq<char>) -> Option<u32> {
    if has_key(m, key) {
        spec_as_u32(val_at(m, key))
    } else {
        None
    }
}

pub open spec fn opt_i32_ok(m: Seq<(String, DocValue)>, key: Seq<char>) -> bool {
    !has_key(m, key) || spec_as_i32(val_at(m, key)) is Some
}

pub open spec fn opt_i32_val(m: Seq<(String, DocValue)>, key: Seq<char>) -> Option<i32> {
    if has_key(m, key) {
        spec_as_i32(val_at(m, key))
    } else {
        None
    }
}

pub open spec fn opt_num_ok(m: Seq<(String, DocValue)>, key: Seq<char>) -> bool {
    !has_key(m, key) || spec_as_number_text(val_at(m, key)) is Some
}

pub open spec fn opt_num_val(m: Seq<(String, DocValue)>, key: Seq<char>) -> Option<Seq<char>> {
    if has_key(m, key) {
        spec_as_number_text(val_at(m, key))
    } else {
        None
    }
}

pub open spec fn opt_text_ok(m: Seq<(String, DocValue)>, key: Seq<char>) -> bool {
    !has_key(m, key) || spec_as_text(val_at(m, key)) is Some
}

pub open spec fn opt_text_val(m: Seq<(String, DocValue)>, key: Seq<char>, dflt: Seq<char>) -> Seq<
    char,
> {
    if has_key(m, key) {
        match spec_as_text(val_at(m, key)) {
            Some(t) => t,
            None => dflt,
        }
    } else {
        dflt
    }
}

pub open spec fn opt_grouping_ok(m: Seq<(String, DocValue)>, key: Seq<char>) -> bool {
    !has_key(m, key) || spec_as_grouping(val_at(m, key)) is Some
}

pub open spec fn opt_grouping_val(m: Seq<(String, DocValue)>, key: Seq<char>) -> GroupingMode {
    if has_key(m, key) {
        match spec_as_grouping(val_at(m, key)) {
            Some(g) => g,
            None => GroupingMode::AllAsPrimary,
        }
    } else {
        GroupingMode::AllAsPrimary
    }
}

pub open spec fn opt_list_ok(m: Seq<(String, DocValue)>, key: Seq<char>) -> bool {
    !has_key(m, key) || spec_one_or_many(val_at(m, key)) is Some
}

pub open spec fn opt_list_val(m: Seq<(String, DocValue)>, key: Seq<char>) -> Seq<Seq<char>> {
    if has_key(m, key) {
        match spec_one_or_many(val_at(m, key)) {
            Some(items) => items,
            None => Seq::empty(),
        }
    } else {
        Seq::empty()
    }
}

fn wrong_type(key: &str) -> (r: ValidationError)
    ensures
        r@ == ValidationErrorModel::WrongType(key@),
{
    ValidationError::WrongType(String::from_str(key))
}

fn missing_key(key: &str) -> (r: ValidationError)
    ensures
        r@ == ValidationErrorModel::MissingKey(key@),
{
    ValidationError::MissingKey(String::from_str(key))
}

fn get_opt_bool(m: &Vec<(String, DocValue)>, key: &str, dflt: bool) -> (r: Result<
    bool,
    ValidationError,
>)
    ensures
        match r {
            Ok(b) => opt_bool_ok(m@, key@) && b == opt_bool_val(m@, key@, dflt),
            Err(e) => !opt_bool_ok(m@, key@) && e@ == ValidationErrorModel::WrongType(key@),
        },
{
    match doc_lookup(m, key) {
        None => Ok(dflt),
        Some(v) => match bool_of(v) {
            Some(b) => Ok(b),
            None => Err(wrong_type(key)),
        },
    }
}

fn get_opt_u32(m: &Vec<(String, DocValue)>, key: &str) -> (r: Result<Option<u32>, ValidationError>)
    ensures
        match r {
            Ok(v) => opt_u32_ok(m@, key@) && v == opt_u32_val(m@, key@),
            Err(e) => !opt_u32_ok(m@, key@) && e@ == ValidationErrorModel::WrongType(key@),
        },
{
    match doc_lookup(m, key) {
        None => Ok(None),
        Some(v) => match u32_of(v) {
            Some(x) => Ok(Some(x)),
            None => Err(wrong_type(key)),
        },
    }
}

fn get_opt_i32(m: &Vec<(String, DocValue)>, key: &str) -> (r: Result<Option<i32>, ValidationError>)
    ensures
        match r {
            Ok(v) => opt_i32_ok(m@, key@) && v == opt_i32_val(m@, key@),
            Err(e) => !opt_i32_ok(m@, key@) && e@ == ValidationErrorModel::WrongType(key@),
        },
{
    match doc_lookup(m, key) {
        None => Ok(None),
        Some(v) => match i32_of(v) {
            Some(x) => Ok(Some(x)),
            None => Err(wrong_type(key)),
        },
    }
}

fn get_opt_num(m: &Vec<(String, DocValue)>, key: &str) -> (r: Result<
    Option<String>,
    ValidationError,
>)
    ensures
        match r {
            Ok(v) => opt_num_ok(m@, key@) && (match v {
                Some(s) => opt_num_val(m@, key@) == Some(s@),
                None => opt_num_val(m@, key@) is None,
            }),
            Err(e) => !opt_num_ok(m@, key@) && e@ == ValidationErrorModel::WrongType(key@),
        },
{
    match doc_lookup(m, key) {
        None => Ok(None),
        Some(v) => match number_text_of(v) {
            Some(s) => Ok(Some(s)),
            None => Err(wrong_type(key)),
        },
    }
}

fn get_opt_text(m: &Vec<(String, DocValue)>, key: &str, dflt: &str) -> (r: Result<
    String,
    ValidationError,
>)
    ensures
        match r {
            Ok(s) => opt_text_ok(m@, key@) && s@ == opt_text_val(m@, key@, dflt@),
            Err(e) => !opt_text_ok(m@, key@) && e@ == ValidationErrorModel::WrongType(key@),
        },
{
    match doc_lookup(m, key) {
        None => Ok(String::from_str(dflt)),
        Some(v) => match string_of(v) {
            Some(s) => Ok(s),
            None => Err(wrong_type(key)),
        },
    }
}

fn get_opt_grouping(m: &Vec<(String, DocValue)>, key: &str) -> (r: Result<
    GroupingMode,
    ValidationError,
>)
    ensures
        match r {
            Ok(g) => opt_grouping_ok(m@, key@) && g == opt_grouping_val(m@, key@),
            Err(e) => !opt_grouping_ok(m@, key@) && e@ == ValidationErrorModel::WrongType(key@),
        },
{
    match doc_lookup(m, key) {
        None => Ok(GroupingMode::AllAsPrimary),
        Some(v) => match grouping_of(v) {
            Some(g) => Ok(g),
            None => Err(wrong_type(key)),
        },
    }
}

fn get_opt_list(m: &Vec<(String, DocValue)>, key: &str) -> (r: Result<
    StringSequence,
    ValidationError,
>)
    ensures
        match r {
            Ok(ss) => opt_list_ok(m@, key@) && ss.items() == opt_list_val(m@, key@),
            Err(e) => !opt_list_ok(m@, key@) && e@ == ValidationErrorModel::WrongType(key@),
        },
{
    match doc_lookup(m, key) {
        None => Ok(default_placeholder()),
        Some(v) => match string_sequence_of(v) {
            Some(ss) => Ok(ss),
            None => Err(wrong_type(key)),
        },
    }
}

fn get_hooks(m: &Vec<(String, DocValue)>, key: &str) -> (r: Result<Vec<String>, ValidationError>)
    ensures
        match r {
            Ok(out) => opt_list_ok(m@, key@) && out@.map_values(|s: String| s@) == opt_list_val(
                m@,
                key@,
            ),
            Err(e) => !opt_list_ok(m@, key@) && e@ == ValidationErrorModel::WrongType(key@),
        },
{
    match doc_lookup(m, key) {
        None => {
            let out: Vec<String> = Vec::new();
            proof {
                assert(out@.map_values(|s: String| s@) =~= Seq::<Seq<char>>::empty());
            }
            Ok(out)
        },
        Some(v) => match strings_of(v) {
            Some(out) => Ok(out),
            None => Err(wrong_type(key)),
        },
    }
}

fn get_req_u32(m: &Vec<(String, DocValue)>, key: &str) -> (r: Result<u32, ValidationError>)
    ensures
        match r {
            Ok(x) => has_key(m@, key@) && spec_as_u32(val_at(m@, key@)) == Some(x),
            Err(e) => (!has_key(m@, key@) && e@ == ValidationErrorModel::MissingKey(key@)) || (
            has_key(m@, key@) && spec_as_u32(val_at(m@, key@)) is None && e@
                == ValidationErrorModel::WrongType(key@)),
        },
{
    match doc_lookup(m, key) {
        None => Err(missing_key(key)),
        Some(v) => match u32_of(v) {
            Some(x) => Ok(x),
            None => Err(wrong_type(key)),
        },
    }
}

fn get_req_char(m: &Vec<(String, DocValue)>, key: &str) -> (r: Result<String, ValidationError>)
    ensures
        match r {
            Ok(c) => has_key(m@, key@) && spec_as_char(val_at(m@, key@)) == Some(c@),
            Err(e) => (!has_key(m@, key@) && e@ == ValidationErrorModel::MissingKey(key@)) || (
            has_key(m@, key@) && spec_as_char(val_at(m@, key@)) is None && e@
                == ValidationErrorModel::WrongType(key@)),
        },
{
    match doc_lookup(m, key) {
        None => Err(missing_key(key)),
        Some(v) => match char_of(v) {
            Some(c) => Ok(c),
            None => Err(wrong_type(key)),
        },
    }
}

fn get_req_list(m: &Vec<(String, DocValue)>, key: &str) -> (r: Result<
    StringSequence,
    ValidationError,
>)
    ensures
        match r {
            Ok(ss) => has_key(m@, key@) && spec_one_or_many(val_at(m@, key@)) == Some(ss.items()),
            Err(e) => (!has_key(m@, key@) && e@ == ValidationErrorModel::MissingKey(key@)) || (
            has_key(m@, key@) && spec_one_or_many(val_at(m@, key@)) is None && e@
                == ValidationErrorModel::WrongType(key@)),
        },
{
    match doc_lookup(m, key) {
        None => Err(missing_key(key)),
        Some(v) => match string_sequence_of(v) {
            Some(ss) => Ok(ss),
            None => Err(wrong_type(key)),
        },
    }
}

fn strings_of(v: &DocValue) -> (r: Option<Vec<String>>)
    ensures
        match r {
            Some(out) => spec_one_or_many(*v) == Some(out@.map_values(|s: String| s@)),
            None => spec_one_or_many(*v) is None,
        },
{
    match string_sequence_of(v) {
        Some(ss) => {
            let out = ss.into_comparable();
            proof {
                assert(out@.map_values(|s: String| s@) =~= spec_one_or_many(*v).unwrap());
            }
            Some(out)
        },
        None => None,
    }
}

/// The validated load options of a `load_options` section, or the first
/// failure in key order.
pub open spec fn spec_load_options(m: Seq<(String, DocValue)>) -> Result<
    LoadOptionsModel,
    ValidationErrorModel,
> {
    if !has_key(m, "extensions"@) {
        Err(ValidationErrorModel::MissingKey("extensions"@))
    } else if spec_one_or_many(val_at(m, "extensions"@)) is None {
        Err(ValidationErrorModel::WrongType("extensions"@))
    } else if !opt_list_ok(m, "exclude_patterns"@) {
        Err(ValidationErrorModel::WrongType("exclude_patterns"@))
    } else if !opt_list_ok(m, "skip_files"@) {
        Err(ValidationErrorModel::WrongType("skip_files"@))
    } else if !has_key(m, "skiprows"@) {
        Err(ValidationErrorModel::MissingKey("skiprows"@))
    } else if spec_as_u32(val_at(m, "skiprows"@)) is None {
        Err(ValidationErrorModel::WrongType("skiprows"@))
    } else if !has_key(m, "meta_len"@) {
        Err(ValidationErrorModel::MissingKey("meta_len"@))
    } else if spec_as_u32(val_at(m, "meta_len"@)) is None {
        Err(ValidationErrorModel::WrongType("meta_len"@))
    } else if !has_key(m, "decimal"@) {
        Err(ValidationErrorModel::MissingKey("decimal"@))
    } else if spec_as_char(val_at(m, "decimal"@)) is None {
        Err(ValidationErrorModel::WrongType("decimal"@))
    } else if !has_key(m, "delimiter"@) {
        Err(ValidationErrorModel::MissingKey("delimiter"@))
    } else if spec_as_char(val_at(m, "delimiter"@)) is None {
        Err(ValidationErrorModel::WrongType("delimiter"@))
    } else if !opt_grouping_ok(m, "mod"@) {
        Err(ValidationErrorModel::WrongType("mod"@))
    } else if !opt_bool_ok(m, "no_comment_check"@) {
        Err(ValidationErrorModel::WrongType("no_comment_check"@))
    } else {
        Ok(
            LoadOptionsModel {
                extensions: spec_one_or_many(val_at(m, "extensions"@)).unwrap(),
                exclude_patterns: opt_list_val(m, "exclude_patterns"@),
                skip_files: opt_list_val(m, "skip_files"@),
                skiprows: spec_as_u32(val_at(m, "skiprows"@)).unwrap(),
                meta_len: spec_as_u32(val_at(m, "meta_len"@)).unwrap(),
                decimal: spec_as_char(val_at(m, "decimal"@))->0,
                delimiter: spec_as_char(val_at(m, "delimiter"@))->0,
                grouping: opt_grouping_val(m, "mod"@),
                no_comment_check: opt_bool_val(m, "no_comment_check"@, false),
            },
        )
    }
}

/// The validated preprocessing options of a `preprocess` section.
pub open spec fn spec_preprocess(m: Seq<(String, DocValue)>) -> Result<
    PreprocessModel,
    ValidationErrorModel,
> {
    if !opt_bool_ok(m, "chdomain"@) {
        Err(ValidationErrorModel::WrongType("chdomain"@))
    } else if !opt_text_ok(m, "input_unit"@) {
        Err(ValidationErrorModel::WrongType("input_unit"@))
    } else if !opt_num_ok(m, "slice_start"@) {
        Err(ValidationErrorModel::WrongType("slice_start"@))
    } else if !opt_num_ok(m, "slice_stop"@) {
        Err(ValidationErrorModel::WrongType("slice_stop"@))
    } else {
        Ok(
            PreprocessModel {
                chdomain: opt_bool_val(m, "chdomain"@, false),
                input_unit: opt_text_val(m, "input_unit"@, "nm"@),
                slice_start: opt_num_val(m, "slice_start"@),
                slice_stop: opt_num_val(m, "slice_stop"@),
            },
        )
    }
}

/// The validated detail options of a `method_details` section.
pub open spec fn spec_method_details(m: Seq<(String, DocValue)>) -> Result<
    MethodDetailsModel,
    ValidationErrorModel,
> {
    if !opt_bool_ok(m, "heatmap"@) {
        Err(ValidationErrorModel::WrongType("heatmap"@))
    } else if !opt_i32_ok(m, "windows"@) {
        Err(ValidationErrorModel::WrongType("windows"@))
    } else if !opt_num_ok(m, "fwhm"@) {
        Err(ValidationErrorModel::WrongType("fwhm"@))
    } else if !opt_num_ok(m, "std"@) {
        Err(ValidationErrorModel::WrongType("std"@))
    } else if !opt_bool_ok(m, "parallel"@) {
        Err(ValidationErrorModel::WrongType("parallel"@))
    } else if !opt_bool_ok(m, "plot"@) {
        Err(ValidationErrorModel::WrongType("plot"@))
    } else if !opt_bool_ok(m, "min"@) {
        Err(ValidationErrorModel::WrongType("min"@))
    } else if !opt_bool_ok(m, "max"@) {
        Err(ValidationErrorModel::WrongType("max"@))
    } else if !opt_bool_ok(m, "both"@) {
        Err(ValidationErrorModel::WrongType("both"@))
    } else if !opt_bool_ok(m, "eager"@) {
        Err(ValidationErrorModel::WrongType("eager"@))
    } else if !opt_bool_ok(m, "detach"@) {
        Err(ValidationErrorModel::WrongType("detach"@))
    } else {
        Ok(
            MethodDetailsModel {
                heatmap: opt_bool_val(m, "heatmap"@, false),
                windows: opt_i32_val(m, "windows"@),
                fwhm: opt_num_val(m, "fwhm"@),
                std_dev: opt_num_val(m, "std"@),
                parallel: opt_bool_val(m, "parallel"@, false),
                plot: opt_bool_val(m, "plot"@, false),
                min: opt_bool_val(m, "min"@, false),
                max: opt_bool_val(m, "max"@, false),
                both: opt_bool_val(m, "both"@, false),
                eager: opt_bool_val(m, "eager"@, false),
                detach: opt_bool_val(m, "detach"@, false),
            },
        )
    }
}

/// The validated evaluation options of an `evaluate` section.
pub open spec fn spec_evaluate(m: Seq<(String, DocValue)>) -> Result<
    EvaluateModel,
    ValidationErrorModel,
> {
    if !opt_num_ok(m, "reference_frequency"@) {
        Err(ValidationErrorModel::WrongType("reference_frequency"@))
    } else if !opt_u32_ok(m, "order"@) {
        Err(ValidationErrorModel::WrongType("order"@))
    } else if !opt_bool_ok(m, "only_phase"@) {
        Err(ValidationErrorModel::WrongType("only_phase"@))
    } else {
        Ok(
            EvaluateModel {
                reference_frequency: opt_num_val(m, "reference_frequency"@),
                order: opt_u32_val(m, "order"@),
                only_phase: opt_bool_val(m, "only_phase"@, false),
            },
        )
    }
}

/// A required section: present and itself a mapping.
pub open spec fn spec_required_section(m: Seq<(String, DocValue)>, key: Seq<char>) -> Result<
    Seq<(String, DocValue)>,
    ValidationErrorModel,
> {
    match spec_lookup(m, key) {
        None => Err(ValidationErrorModel::MissingKey(key)),
        Some(DocValue::Mapping(entries)) => Ok(entries@),
        Some(_) => Err(ValidationErrorModel::WrongType(key)),
    }
}

/// The method key: a string naming one of the five methods.
pub open spec fn spec_method_key(m: Seq<(String, DocValue)>) -> Result<
    MethodType,
    ValidationErrorModel,
> {
    match spec_lookup(m, "method"@) {
        None => Err(ValidationErrorModel::MissingKey("method"@)),
        Some(DocValue::Str(s)) => match spec_method_of(s@) {
            Some(mt) => Ok(mt),
            None => Err(ValidationErrorModel::UnknownMethod(s@)),
        },
        Some(_) => Err(ValidationErrorModel::WrongType("method"@)),
    }
}

/// The `evaluate` section is optional; when absent every option defaults.
pub open spec fn spec_evaluate_section(m: Seq<(String, DocValue)>) -> Result<
    EvaluateModel,
    ValidationErrorModel,
> {
    match spec_lookup(m, "evaluate"@) {
        None => Ok(
            EvaluateModel { reference_frequency: None, order: None, only_phase: false },
        ),
        Some(DocValue::Mapping(entries)) => spec_evaluate(entries@),
        Some(_) => Err(ValidationErrorModel::WrongType("evaluate"@)),
    }
}

/// A hook list: absent means no commands.
pub open spec fn spec_hooks(m: Seq<(String, DocValue)>, key: Seq<char>) -> Result<
    Seq<Seq<char>>,
    ValidationErrorModel,
> {
    if !opt_list_ok(m, key) {
        Err(ValidationErrorModel::WrongType(key))
    } else {
        Ok(opt_list_val(m, key))
    }
}

/// The validated form of a whole configuration document, or the first
/// failure: sections in the order `load_options`, `preprocess`, `method`,
/// `method_details`, `evaluate`, `before_evaluate`, `after_evaluate`.
pub open spec fn spec_from_document(doc: DocValue) -> Result<ConfigModel, ValidationErrorModel> {
    match doc {
        DocValue::Mapping(top) => spec_from_top(top@),
        _ => Err(ValidationErrorModel::WrongType("document"@)),
    }
}

pub open spec fn spec_from_top(m: Seq<(String, DocValue)>) -> Result<
    ConfigModel,
    ValidationErrorModel,
> {
    match spec_required_section(m, "load_options"@) {
        Err(e) => Err(e),
        Ok(lo_m) => match spec_load_options(lo_m) {
            Err(e) => Err(e),
            Ok(lo) => match spec_required_section(m, "preprocess"@) {
                Err(e) => Err(e),
                Ok(pre_m) => match spec_preprocess(pre_m) {
                    Err(e) => Err(e),
                    Ok(pre) => match spec_method_key(m) {
                        Err(e) => Err(e),
                        Ok(method) => match spec_required_section(m, "method_details"@) {
                            Err(e) => Err(e),
                            Ok(md_m) => match spec_method_details(md_m) {
                                Err(e) => Err(e),
                                Ok(md) => match spec_evaluate_section(m) {
                                    Err(e) => Err(e),
                                    Ok(ev) => match spec_hooks(m, "before_evaluate"@) {
                                        Err(e) => Err(e),
                                        Ok(bet) => match spec_hooks(m, "after_evaluate"@) {
                                            Err(e) => Err(e),
                                            Ok(aet) => Ok(
                                                ConfigModel {
                                                    load_options: lo,
                                                    preprocess: pre,
                                                    method,
                                                    method_details: md,
                                                    evaluate: ev,
                                                    before_evaluate: bet,
                                                    after_evaluate: aet,
                                                },
                                            ),
                                        },
                                    },
                                },
                            },
                        },
                    },
                },
            },
        },
    }
}

fn load_options_from(m: &Vec<(String, DocValue)>) -> (r: Result<LoadOptions, ValidationError>)
    ensures
        match r {
            Ok(o) => spec_load_options(m@) == Ok::<LoadOptionsModel, ValidationErrorModel>(o@),
            Err(e) => spec_load_options(m@) == Err::<LoadOptionsModel, ValidationErrorModel>(e@),
        },
{
    let extensions = match get_req_list(m, "extensions") {
        Ok(v) => v,
        Err(e) => return Err(e),
    };
    let exclude_patterns = match get_opt_list(m, "exclude_patterns") {
        Ok(v) => v,
        Err(e) => return Err(e),
    };
    let skip_files = match get_opt_list(m, "skip_files") {
        Ok(v) => v,
        Err(e) => return Err(e),
    };
    let skiprows = match get_req_u32(m, "skiprows") {
        Ok(v) => v,
        Err(e) => return Err(e),
    };
    let meta_len = match get_req_u32(m, "meta_len") {
        Ok(v) => v,
        Err(e) => return Err(e),
    };
    let decimal = match get_req_char(m, "decimal") {
        Ok(v) => v,
        Err(e) => return Err(e),
    };
    let delimiter = match get_req_char(m, "delimiter") {
        Ok(v) => v,
        Err(e) => return Err(e),
    };
    let grouping = match get_opt_grouping(m, "mod") {
        Ok(v) => v,
        Err(e) => return Err(e),
    };
    let no_comment_check = match get_opt_bool(m, "no_comment_check", false) {
        Ok(v) => v,
        Err(e) => return Err(e),
    };
    let o = LoadOptions {
        extensions,
        exclude_patterns,
        skip_files,
        skiprows,
        meta_len,
        decimal,
        delimiter,
        grouping,
        no_comment_check,
    };
    proof {
        assert(spec_load_options(m@) is Ok);
        assert(o@ =~= spec_load_options(m@)->Ok_0);
    }
    Ok(o)
}

fn preprocess_from(m: &Vec<(String, DocValue)>) -> (r: Result<Preprocess, ValidationError>)
    ensures
        match r {
            Ok(o) => spec_preprocess(m@) == Ok::<PreprocessModel, ValidationErrorModel>(o@),
            Err(e) => spec_preprocess(m@) == Err::<PreprocessModel, ValidationErrorModel>(e@),
        },
{
    let chdomain = match get_opt_bool(m, "chdomain", false) {
        Ok(v) => v,
        Err(e) => return Err(e),
    };
    let input_unit = match get_opt_text(m, "input_unit", "nm") {
        Ok(v) => v,
        Err(e) => return Err(e),
    };
    let slice_start = match get_opt_num(m, "slice_start") {
        Ok(v) => v,
        Err(e) => return Err(e),
    };
    let slice_stop = match get_opt_num(m, "slice_stop") {
        Ok(v) => v,
        Err(e) => return Err(e),
    };
    let o = Preprocess { chdomain, input_unit, slice_start, slice_stop };
    proof {
        assert(spec_preprocess(m@) is Ok);
        assert(o@ =~= spec_preprocess(m@)->Ok_0);
    }
    Ok(o)
}

fn method_details_from(m: &Vec<(String, DocValue)>) -> (r: Result<MethodDetails, ValidationError>)
    ensures
        match r {
            Ok(o) => spec_method_details(m@) == Ok::<MethodDetailsModel, ValidationErrorModel>(o@),
            Err(e) => spec_method_details(m@) == Err::<MethodDetailsModel, ValidationErrorModel>(
                e@,
            ),
        },
{
    let heatmap = match get_opt_bool(m, "heatmap", false) {
        Ok(v) => v,
        Err(e) => return Err(e),
    };
    let windows = match get_opt_i32(m, "windows") {
        Ok(v) => v,
        Err(e) => return Err(e),
    };
    let fwhm = match get_opt_num(m, "fwhm") {
        Ok(v) => v,
        Err(e) => return Err(e),
    };
    let std_dev = match get_opt_num(m, "std") {
        Ok(v) => v,
        Err(e) => return Err(e),
    };
    let parallel = match get_opt_bool(m, "parallel", false) {
        Ok(v) => v,
        Err(e) => return Err(e),
    };
    let plot = match get_opt_bool(m, "plot", false) {
        Ok(v) => v,
        Err(e) => return Err(e),
    };
    let min = match get_opt_bool(m, "min", false) {
        Ok(v) => v,
        Err(e) => return Err(e),
    };
    let max = match get_opt_bool(m, "max", false) {
        Ok(v) => v,
        Err(e) => return Err(e),
    };
    let both = match get_opt_bool(m, "both", false) {
        Ok(v) => v,
        Err(e) => return Err(e),
    };
    let eager = match get_opt_bool(m, "eager", false) {
        Ok(v) => v,
        Err(e) => return Err(e),
    };
    let detach = match get_opt_bool(m, "detach", false) {
        Ok(v) => v,
        Err(e) => return Err(e),
    };
    let o = MethodDetails {
        heatmap,
        windows,
        fwhm,
        std_dev,
        parallel,
        plot,
        min,
        max,
        both,
        eager,
        detach,
    };
    proof {
        assert(spec_method_details(m@) is Ok);
        assert(o@ =~= spec_method_details(m@)->Ok_0);
    }
    Ok(o)
}

fn evaluate_from(m: &Vec<(String, DocValue)>) -> (r: Result<Evaluate, ValidationError>)
    ensures
        match r {
            Ok(o) => spec_evaluate(m@) == Ok::<EvaluateModel, ValidationErrorModel>(o@),
            Err(e) => spec_evaluate(m@) == Err::<EvaluateModel, ValidationErrorModel>(e@),
        },
{
    let reference_frequency = match get_opt_num(m, "reference_frequency") {
        Ok(v) => v,
        Err(e) => return Err(e),
    };
    let order = match get_opt_u32(m, "order") {
        Ok(v) => v,
        Err(e) => return Err(e),
    };
    let only_phase = match get_opt_bool(m, "only_phase", false) {
        Ok(v) => v,
        Err(e) => return Err(e),
    };
    let o = Evaluate { reference_frequency, order, only_phase };
    proof {
        assert(spec_evaluate(m@) is Ok);
        assert(o@ =~= spec_evaluate(m@)->Ok_0);
    }
    Ok(o)
}

fn required_section<'a>(m: &'a Vec<(String, DocValue)>, key: &str) -> (r: Result<
    &'a Vec<(String, DocValue)>,
    ValidationError,
>)
    ensures
        match r {
            Ok(sec) => spec_required_section(m@, key@) == Ok::<
                Seq<(String, DocValue)>,
                ValidationErrorModel,
            >(sec@),
            Err(e) => spec_required_section(m@, key@) == Err::<
                Seq<(String, DocValue)>,
                ValidationErrorModel,
            >(e@),
        },
{
    match doc_lookup(m, key) {
        None => Err(missing_key(key)),
        Some(v) => match v {
            DocValue::Mapping(entries) => Ok(entries),
            _ => Err(wrong_type(key)),
        },
    }
}

impl Config {
    /// Validates a configuration document into the typed option set, or
    /// reports the first failing key.
    pub fn from_document(doc: &DocValue) -> (r: Result<Config, ValidationError>)
        ensures
            match r {
                Ok(c) => spec_from_document(*doc) == Ok::<ConfigModel, ValidationErrorModel>(c@),
                Err(e) => spec_from_document(*doc) == Err::<ConfigModel, ValidationErrorModel>(e@),
            },
    {
        let top = match doc {
            DocValue::Mapping(entries) => entries,
            _ => {
                return Err(wrong_type("document"));
            },
        };
        let lo_section = match required_section(top, "load_options") {
            Ok(v) => v,
            Err(e) => return Err(e),
        };
        let load_options = match load_options_from(lo_section) {
            Ok(v) => v,
            Err(e) => return Err(e),
        };
        let pre_section = match required_section(top, "preprocess") {
            Ok(v) => v,
            Err(e) => return Err(e),
        };
        let preprocess = match preprocess_from(pre_section) {
            Ok(v) => v,
            Err(e) => return Err(e),
        };
        let method = match doc_lookup(top, "method") {
            None => return Err(missing_key("method")),
            Some(v) => match v {
                DocValue::Str(s) => match method_of(s.as_str()) {
                    Some(mt) => mt,
                    None => {
                        return Err(ValidationError::UnknownMethod(s.clone()));
                    },
                },
                _ => {
                    return Err(wrong_type("method"));
                },
            },
        };
        let md_section = match required_section(top, "method_details") {
            Ok(v) => v,
            Err(e) => return Err(e),
        };
        let method_details = match method_details_from(md_section) {
            Ok(v) => v,
            Err(e) => return Err(e),
        };
        let evaluate = match doc_lookup(top, "evaluate") {
            None => Evaluate { reference_frequency: None, order: None, only_phase: false },
            Some(v) => match v {
                DocValue::Mapping(entries) => match evaluate_from(entries) {
                    Ok(ev) => ev,
                    Err(e) => return Err(e),
                },
                _ => {
                    return Err(wrong_type("evaluate"));
                },
            },
        };
        let before_evaluate = match get_hooks(top, "before_evaluate") {
            Ok(v) => v,
            Err(e) => return Err(e),
        };
        let after_evaluate = match get_hooks(top, "after_evaluate") {
            Ok(v) => v,
            Err(e) => return Err(e),
        };
        let c = Config {
            load_options,
            preprocess,
            method,
            method_details,
            evaluate,
            before_evaluate,
            after_evaluate,
        };
        proof {
            assert(spec_from_top(top@) is Ok);
            assert(c@ =~= spec_from_top(top@)->Ok_0);
        }
        Ok(c)
    }
}

} // verus!
