//! Field validators: pure predicates over single, already-typed values.
//!
//! A validator sees a value only when the setting is present; absence is
//! always legal and is not its business.  Each accepts the value or names the
//! rule it breaks.
//!
//! Two generations of the general settings exist and they disagree on the
//! legal quantized data types.  The generation is therefore an explicit
//! argument of that validator: no data type is accepted under one generation
//! because the other would accept it.  Every other rule is the same for
//! both.
use crate::text::{has_prefix, str_eq};
use vstd::prelude::*;

verus! {

/// Which generation of the general settings a value is judged by.
#[derive(Clone, Copy, Debug, PartialEq, Eq, Structural)]
pub enum SchemaGeneration {
    /// The four-section document: one quantized data type.
    Legacy,
    /// The extended general settings: five quantized data types.
    Extended,
}

/// The rule that a rejected value breaks.
#[derive(Clone, Copy, Debug, PartialEq, Eq, Structural)]
pub enum FailureKind {
    InvalidQuantizedDtype,
    InvalidQuantizedAlgorithm,
    InvalidQuantizedMethod,
    InvalidFloatDtype,
    /// A string shorter than its minimum length.
    Length,
    /// A number outside its range.
    Range,
    /// A key that occurs twice in a mapping.
    DuplicateKey,
    /// A required setting that the document does not give.
    Missing,
}

impl FailureKind {
    /// The code under which the rule is reported.
    pub open spec fn spec_code(self) -> Seq<char> {
        match self {
            FailureKind::InvalidQuantizedDtype => "invalid_quantized_dtype"@,
            FailureKind::InvalidQuantizedAlgorithm => "invalid_quantized_algorithm"@,
            FailureKind::InvalidQuantizedMethod => "invalid_quantized_method"@,
            FailureKind::InvalidFloatDtype => "invalid_float_dtype"@,
            FailureKind::Length => "length"@,
            FailureKind::Range => "range"@,
            FailureKind::DuplicateKey => "duplicate_key"@,
            FailureKind::Missing => "missing"@,
        }
    }

    /// The code under which the rule is reported.
    pub fn code(&self) -> (code: &'static str)
        ensures
            code@ == self.spec_code(),
    {
        match self {
            FailureKind::InvalidQuantizedDtype => "invalid_quantized_dtype",
            FailureKind::InvalidQuantizedAlgorithm => "invalid_quantized_algorithm",
            FailureKind::InvalidQuantizedMethod => "invalid_quantized_method",
            FailureKind::InvalidFloatDtype => "invalid_float_dtype",
            FailureKind::Length => "length",
            FailureKind::Range => "range",
            FailureKind::DuplicateKey => "duplicate_key",
            FailureKind::Missing => "missing",
        }
    }
}

/// The quantized data types that `generation` knows.
pub open spec fn is_quantized_dtype(generation: SchemaGeneration, value: Seq<char>) -> bool {
    match generation {
        SchemaGeneration::Legacy => value == "asymmetric_quantized-8"@,
        SchemaGeneration::Extended => {
            ||| value == "w8a8"@
            ||| value == "w8a16"@
            ||| value == "w16a16i"@
            ||| value == "w16a16i_dfp"@
            ||| value == "w4a16"@
        },
    }
}

/// The quantization algorithms: `normal`, `mmse`, `kl_divergence` and
/// `gdq`, in both generations.
pub open spec fn is_quantized_algorithm(value: Seq<char>) -> bool {
    ||| value == "normal"@
    ||| value == "mmse"@
    ||| value == "kl_divergence"@
    ||| value == "gdq"@
}

/// The quantization methods: per layer, per channel, or any name that begins
/// with `group`.
pub open spec fn is_quantized_method(value: Seq<char>) -> bool {
    ||| value == "layer"@
    ||| value == "channel"@
    ||| "group"@.is_prefix_of(value)
}

/// The float data types: `float16` alone.
pub open spec fn is_float_dtype(value: Seq<char>) -> bool {
    value == "float16"@
}

/// The optimization levels: 0 to 3.
pub open spec fn is_optimization_level(level: int) -> bool {
    0 <= level <= 3
}

/// Accepts the quantized data types of `generation`.
pub fn validate_quantized_dtype(generation: SchemaGeneration, value: &str) -> (verdict: Result<
    (),
    FailureKind,
>)
    ensures
        verdict is Ok <==> is_quantized_dtype(generation, value@),
        verdict is Err ==> verdict == Err::<(), FailureKind>(FailureKind::InvalidQuantizedDtype),
{
    let known = match generation {
        SchemaGeneration::Legacy => str_eq(value, "asymmetric_quantized-8"),
        SchemaGeneration::Extended => str_eq(value, "w8a8") || str_eq(value, "w8a16") || str_eq(
            value,
            "w16a16i",
        ) || str_eq(value, "w16a16i_dfp") || str_eq(value, "w4a16"),
    };
    if known {
        Ok(())
    } else {
        Err(FailureKind::InvalidQuantizedDtype)
    }
}

/// Accepts `normal`, `mmse`, `kl_divergence` and `gdq`.
pub fn validate_quantized_algorithm(value: &str) -> (verdict: Result<(), FailureKind>)
    ensures
        verdict is Ok <==> is_quantized_algorithm(value@),
        verdict is Err ==> verdict == Err::<(), FailureKind>(
            FailureKind::InvalidQuantizedAlgorithm,
        ),
{
    let known = str_eq(value, "normal") || str_eq(value, "mmse") || str_eq(value, "kl_divergence")
        || str_eq(value, "gdq");
    if known {
        Ok(())
    } else {
        Err(FailureKind::InvalidQuantizedAlgorithm)
    }
}

/// Accepts `layer`, `channel` and every name that begins with `group`.
pub fn validate_quantized_method(value: &str) -> (verdict: Result<(), FailureKind>)
    ensures
        verdict is Ok <==> is_quantized_method(value@),
        verdict is Err ==> verdict == Err::<(), FailureKind>(FailureKind::InvalidQuantizedMethod),
{
    if str_eq(value, "layer") || str_eq(value, "channel") || has_prefix(value, "group") {
        Ok(())
    } else {
        Err(FailureKind::InvalidQuantizedMethod)
    }
}

/// Accepts `float16`.
pub fn validate_float_dtype(value: &str) -> (verdict: Result<(), FailureKind>)
    ensures
        verdict is Ok <==> is_float_dtype(value@),
        verdict is Err ==> verdict == Err::<(), FailureKind>(FailureKind::InvalidFloatDtype),
{
    if str_eq(value, "float16") {
        Ok(())
    } else {
        Err(FailureKind::InvalidFloatDtype)
    }
}

/// Accepts a target platform of at least one character.
pub fn validate_target_platform(value: &str) -> (verdict: Result<(), FailureKind>)
    ensures
        verdict is Ok <==> value@.len() >= 1,
        verdict is Err ==> verdict == Err::<(), FailureKind>(FailureKind::Length),
{
    if value.unicode_len() >= 1 {
        Ok(())
    } else {
        Err(FailureKind::Length)
    }
}

/// Accepts the optimization levels 0, 1, 2 and 3.
pub fn validate_optimization_level(level: i64) -> (verdict: Result<(), FailureKind>)
    ensures
        verdict is Ok <==> is_optimization_level(level as int),
        verdict is Err ==> verdict == Err::<(), FailureKind>(FailureKind::Range),
{
    if 0 <= level && level <= 3 {
        Ok(())
    } else {
        Err(FailureKind::Range)
    }
}

/// One rejected setting: which one, and the rule it breaks.
#[derive(Clone, Debug, PartialEq)]
pub struct ValidationFailure {
    pub field: String,
    pub kind: FailureKind,
}

/// What a [`ValidationFailure`] means.
pub struct FailureView {
    pub field: Seq<char>,
    pub kind: FailureKind,
}

impl DeepView for ValidationFailure {
    type V = FailureView;

    open spec fn deep_view(&self) -> FailureView {
        FailureView { field: self.field@, kind: self.kind }
    }
}

impl View for ValidationFailure {
    type V = FailureView;

    open spec fn view(&self) -> FailureView {
        self.deep_view()
    }
}

impl ValidationFailure {
    /// The failure of `field` against the rule `kind`.
    pub fn new(field: &str, kind: FailureKind) -> (failure: ValidationFailure)
        ensures
            failure@ == (FailureView { field: field@, kind }),
    {
        ValidationFailure { field: field.to_owned(), kind }
    }

    /// The failure in words: the setting, a colon and a space, the code of
    /// the rule.
    pub fn message(&self) -> (text: String)
        ensures
            text@ == self.field@ + ": "@ + self.kind.spec_code(),
    {
        let mut text = self.field.clone();
        text.append(": ");
        text.append(self.kind.code());
        text
    }
}

/// The failure of `field` against `kind` if `broken`, nothing otherwise.
pub open spec fn failure_if(broken: bool, field: Seq<char>, kind: FailureKind) -> Seq<
    FailureView,
> {
    if broken {
        seq![FailureView { field, kind }]
    } else {
        Seq::empty()
    }
}

/// Adds to `failures` the failure of `field` against the rule that `verdict`
/// names, if it names one.
pub fn note_failure(
    failures: &mut Vec<ValidationFailure>,
    field: &str,
    verdict: Result<(), FailureKind>,
)
    ensures
        final(failures).deep_view() == old(failures).deep_view() + (match verdict {
            Ok(_) => Seq::<FailureView>::empty(),
            Err(kind) => seq![FailureView { field: field@, kind }],
        }),
{
    let ghost before = failures.deep_view();
    match verdict {
        Ok(_) => {
            assert(failures.deep_view() =~= before + Seq::<FailureView>::empty());
        },
        Err(kind) => {
            failures.push(ValidationFailure::new(field, kind));
            assert(failures.deep_view() =~= before + seq![FailureView { field: field@, kind }]);
        },
    }
}

/// Whether the general settings that are present satisfy their validators.
/// `None` stands for a setting that is left out.
pub open spec fn settings_valid(
    generation: SchemaGeneration,
    quantized_dtype: Option<Seq<char>>,
    quantized_algorithm: Option<Seq<char>>,
    quantized_method: Option<Seq<char>>,
    target_platform: Option<Seq<char>>,
    float_dtype: Option<Seq<char>>,
    optimization_level: Option<i64>,
) -> bool {
    &&& quantized_dtype matches Some(value) ==> is_quantized_dtype(generation, value)
    &&& quantized_algorithm matches Some(value) ==> is_quantized_algorithm(value)
    &&& quantized_method matches Some(value) ==> is_quantized_method(value)
    &&& target_platform matches Some(value) ==> value.len() >= 1
    &&& float_dtype matches Some(value) ==> is_float_dtype(value)
    &&& optimization_level matches Some(level) ==> is_optimization_level(level as int)
}

/// Every failure of the general settings, in the order of the settings: one
/// for each setting that is present and breaks its rule.
pub open spec fn settings_failures(
    generation: SchemaGeneration,
    quantized_dtype: Option<Seq<char>>,
    quantized_algorithm: Option<Seq<char>>,
    quantized_method: Option<Seq<char>>,
    target_platform: Option<Seq<char>>,
    float_dtype: Option<Seq<char>>,
    optimization_level: Option<i64>,
) -> Seq<FailureView> {
    failure_if(
        quantized_dtype matches Some(value) && !is_quantized_dtype(generation, value),
        "quantized_dtype"@,
        FailureKind::InvalidQuantizedDtype,
    ) + failure_if(
        quantized_algorithm matches Some(value) && !is_quantized_algorithm(value),
        "quantized_algorithm"@,
        FailureKind::InvalidQuantizedAlgorithm,
    ) + failure_if(
        quantized_method matches Some(value) && !is_quantized_method(value),
        "quantized_method"@,
        FailureKind::InvalidQuantizedMethod,
    ) + failure_if(
        target_platform matches Some(value) && value.len() < 1,
        "target_platform"@,
        FailureKind::Length,
    ) + failure_if(
        float_dtype matches Some(value) && !is_float_dtype(value),
        "float_dtype"@,
        FailureKind::InvalidFloatDtype,
    ) + failure_if(
        optimization_level matches Some(level) && !is_optimization_level(level as int),
        "optimization_level"@,
        FailureKind::Range,
    )
}

/// There is a failure exactly when a setting that is present breaks its
/// rule.
pub proof fn lemma_failures_iff_invalid(
    generation: SchemaGeneration,
    quantized_dtype: Option<Seq<char>>,
    quantized_algorithm: Option<Seq<char>>,
    quantized_method: Option<Seq<char>>,
    target_platform: Option<Seq<char>>,
    float_dtype: Option<Seq<char>>,
    optimization_level: Option<i64>,
)
    ensures
        settings_failures(
            generation,
            quantized_dtype,
            quantized_algorithm,
            quantized_method,
            target_platform,
            float_dtype,
            optimization_level,
        ).len() == 0 <==> settings_valid(
            generation,
            quantized_dtype,
            quantized_algorithm,
            quantized_method,
            target_platform,
            float_dtype,
            optimization_level,
        ),
{
}

/// Runs every validator of the general settings on every setting that is
/// present and collects all the failures, not the first alone.  A setting
/// that is left out is never judged.
pub fn validate_settings(
    generation: SchemaGeneration,
    quantized_dtype: &Option<String>,
    quantized_algorithm: &Option<String>,
    quantized_method: &Option<String>,
    target_platform: &Option<String>,
    float_dtype: &Option<String>,
    optimization_level: Option<i64>,
) -> (failures: Vec<ValidationFailure>)
    ensures
        failures.deep_view() == settings_failures(
            generation,
            quantized_dtype.deep_view(),
            quantized_algorithm.deep_view(),
            quantized_method.deep_view(),
            target_platform.deep_view(),
            float_dtype.deep_view(),
            optimization_level,
        ),
        failures.len() == 0 <==> settings_valid(
            generation,
            quantized_dtype.deep_view(),
            quantized_algorithm.deep_view(),
            quantized_method.deep_view(),
            target_platform.deep_view(),
            float_dtype.deep_view(),
            optimization_level,
        ),
{
    let ghost dtype_failure = failure_if(
        quantized_dtype.deep_view() matches Some(value) && !is_quantized_dtype(generation, value),
        "quantized_dtype"@,
        FailureKind::InvalidQuantizedDtype,
    );
    let ghost algorithm_failure = failure_if(
        quantized_algorithm.deep_view() matches Some(value) && !is_quantized_algorithm(value),
        "quantized_algorithm"@,
        FailureKind::InvalidQuantizedAlgorithm,
    );
    let ghost method_failure = failure_if(
        quantized_method.deep_view() matches Some(value) && !is_quantized_method(value),
        "quantized_method"@,
        FailureKind::InvalidQuantizedMethod,
    );
    let ghost platform_failure = failure_if(
        target_platform.deep_view() matches Some(value) && value.len() < 1,
        "target_platform"@,
        FailureKind::Length,
    );
    let ghost float_failure = failure_if(
        float_dtype.deep_view() matches Some(value) && !is_float_dtype(value),
        "float_dtype"@,
        FailureKind::InvalidFloatDtype,
    );
    let ghost level_failure = failure_if(
        optimization_level matches Some(level) && !is_optimization_level(level as int),
        "optimization_level"@,
        FailureKind::Range,
    );
    let mut failures: Vec<ValidationFailure> = Vec::new();
    assert(failures.deep_view() =~= Seq::<FailureView>::empty());
    let dtype = match quantized_dtype {
        Some(value) => validate_quantized_dtype(generation, value.as_str()),
        None => Ok(()),
    };
    note_failure(&mut failures, "quantized_dtype", dtype);
    assert(failures.deep_view() =~= dtype_failure);
    let algorithm = match quantized_algorithm {
        Some(value) => validate_quantized_algorithm(value.as_str()),
        None => Ok(()),
    };
    note_failure(&mut failures, "quantized_algorithm", algorithm);
    assert(failures.deep_view() == dtype_failure + algorithm_failure);
    let method = match quantized_method {
        Some(value) => validate_quantized_method(value.as_str()),
        None => Ok(()),
    };
    note_failure(&mut failures, "quantized_method", method);
    assert(failures.deep_view() == dtype_failure + algorithm_failure + method_failure);
    let platform = match target_platform {
        Some(value) => validate_target_platform(value.as_str()),
        None => Ok(()),
    };
    note_failure(&mut failures, "target_platform", platform);
    assert(failures.deep_view() == dtype_failure + algorithm_failure + method_failure
        + platform_failure);
    let float = match float_dtype {
        Some(value) => validate_float_dtype(value.as_str()),
        None => Ok(()),
    };
    note_failure(&mut failures, "float_dtype", float);
    assert(failures.deep_view() == dtype_failure + algorithm_failure + method_failure
        + platform_failure + float_failure);
    let level = match optimization_level {
        Some(level) => validate_optimization_level(level),
        None => Ok(()),
    };
    note_failure(&mut failures, "optimization_level", level);
    assert(failures.deep_view() == dtype_failure + algorithm_failure + method_failure
        + platform_failure + float_failure + level_failure);
    assert(failures.deep_view().len() == failures.len());
    failures
}

} // verus!
