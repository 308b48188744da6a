//! The extended general settings and the description of the model to load.
//!
//! In this generation every key is optional and nothing is defaulted: a key
//! that the document leaves out is left out of the call too, and the toolkit
//! applies its own default.  The four-section document with its documented
//! defaults lives in [`structs`].
use crate::arrays::{ArrayFileError, ArrayResolution};
use crate::payload::{
    is_mapping, lemma_nothing_set_marshals_empty, lemma_present_is_mapping, marshal, present,
    PyDict,
};
use crate::plain::Plain;
use crate::text::str_eq;
use crate::validators::{
    failure_if, note_failure, settings_failures, settings_valid, validate_settings, FailureKind,
    FailureView, SchemaGeneration, ValidationFailure,
};
use crate::value::{
    bool_value, float_list_value, float_value, int_value, names_distinct, shape_list_value,
    shape_sets_value, str_list_value, str_map_value, str_value, Decimal, Field, FieldView, Value,
    ValueView,
};
use vstd::prelude::*;

pub mod impls;
pub mod structs;

verus! {

/// The extended general settings: quantization, normalization and the
/// switches of the converter.  `None` means that the document says nothing.
#[derive(Clone, Debug, PartialEq)]
pub struct Config {
    /// Mean values for normalization, one per channel.
    pub mean_values: Option<Vec<Decimal>>,
    /// Standard deviations for normalization, one per channel.
    pub std_values: Option<Vec<Decimal>>,
    pub quantized_dtype: Option<String>,
    pub quantized_algorithm: Option<String>,
    pub quantized_method: Option<String>,
    pub target_platform: Option<String>,
    pub quant_img_RGB2BGR: Option<bool>,
    pub float_dtype: Option<String>,
    pub optimization_level: Option<i64>,
    pub custom_string: Option<String>,
    pub remove_weight: Option<bool>,
    pub compress_weight: Option<bool>,
    pub inputs_yuv_fmt: Option<String>,
    pub single_core_mode: Option<bool>,
    pub model_pruning: Option<bool>,
    /// Operator names with the backend each one runs on.  No name occurs
    /// twice in a valid configuration.
    pub op_target: Option<Vec<(String, String)>>,
    /// Sets of input shapes to build for, each set a list of shapes.
    pub dynamic_input: Option<Vec<Vec<Vec<usize>>>>,
    pub quantize_weight: Option<bool>,
    pub remove_reshape: Option<bool>,
    pub sparse_infer: Option<bool>,
    pub enable_flash_attention: Option<bool>,
    pub auto_hybrid_cos_thresh: Option<Decimal>,
    pub auto_hybrid_euc_thresh: Option<Decimal>,
}

/// Whether no key occurs twice.
pub open spec fn keys_unique(entries: Seq<(Seq<char>, Seq<char>)>) -> bool {
    forall|i: int, j: int| 0 <= i < j < entries.len() ==> entries[i].0 != entries[j].0
}

/// Whether no key occurs twice in `entries`.
pub fn check_keys_unique(entries: &Vec<(String, String)>) -> (unique: bool)
    ensures
        unique == keys_unique(entries.deep_view()),
{
    let ghost view = entries.deep_view();
    let mut j: usize = 0;
    while j < entries.len()
        invariant
            j <= entries.len(),
            view == entries.deep_view(),
            forall|a: int, b: int| 0 <= a < b < j ==> view[a].0 != view[b].0,
        decreases entries.len() - j,
    {
        let mut i: usize = 0;
        while i < j
            invariant
                i <= j < entries.len(),
                view == entries.deep_view(),
                forall|a: int| 0 <= a < i ==> view[a].0 != view[j as int].0,
            decreases j - i,
        {
            if str_eq(entries[i].0.as_str(), entries[j].0.as_str()) {
                assert(view[i as int].0 == view[j as int].0);
                return false;
            }
            i += 1;
        }
        j += 1;
    }
    true
}

impl Config {
    /// The settings with every key left out.
    pub fn empty() -> (config: Config)
        ensures
            config.is_unset(),
    {
        Config {
            mean_values: None,
            std_values: None,
            quantized_dtype: None,
            quantized_algorithm: None,
            quantized_method: None,
            target_platform: None,
            quant_img_RGB2BGR: None,
            float_dtype: None,
            optimization_level: None,
            custom_string: None,
            remove_weight: None,
            compress_weight: None,
            inputs_yuv_fmt: None,
            single_core_mode: None,
            model_pruning: None,
            op_target: None,
            dynamic_input: None,
            quantize_weight: None,
            remove_reshape: None,
            sparse_infer: None,
            enable_flash_attention: None,
            auto_hybrid_cos_thresh: None,
            auto_hybrid_euc_thresh: None,
        }
    }

    /// Whether every key is left out.
    pub open spec fn is_unset(self) -> bool {
        &&& self.mean_values is None
        &&& self.std_values is None
        &&& self.quantized_dtype is None
        &&& self.quantized_algorithm is None
        &&& self.quantized_method is None
        &&& self.target_platform is None
        &&& self.quant_img_RGB2BGR is None
        &&& self.float_dtype is None
        &&& self.optimization_level is None
        &&& self.custom_string is None
        &&& self.remove_weight is None
        &&& self.compress_weight is None
        &&& self.inputs_yuv_fmt is None
        &&& self.single_core_mode is None
        &&& self.model_pruning is None
        &&& self.op_target is None
        &&& self.dynamic_input is None
        &&& self.quantize_weight is None
        &&& self.remove_reshape is None
        &&& self.sparse_infer is None
        &&& self.enable_flash_attention is None
        &&& self.auto_hybrid_cos_thresh is None
        &&& self.auto_hybrid_euc_thresh is None
    }

    /// The settings as named values, in the order the call lists them.
    pub open spec fn spec_fields(self) -> Seq<FieldView> {
        seq![
            FieldView {
                name: "mean_values"@,
                value: float_list_value(self.mean_values.deep_view()),
            },
            FieldView { name: "std_values"@, value: float_list_value(self.std_values.deep_view()) },
            FieldView {
                name: "quantized_dtype"@,
                value: str_value(self.quantized_dtype.deep_view()),
            },
            FieldView {
                name: "quantized_algorithm"@,
                value: str_value(self.quantized_algorithm.deep_view()),
            },
            FieldView {
                name: "quantized_method"@,
                value: str_value(self.quantized_method.deep_view()),
            },
            FieldView {
                name: "target_platform"@,
                value: str_value(self.target_platform.deep_view()),
            },
            FieldView { name: "quant_img_RGB2BGR"@, value: bool_value(self.quant_img_RGB2BGR) },
            FieldView { name: "float_dtype"@, value: str_value(self.float_dtype.deep_view()) },
            FieldView { name: "optimization_level"@, value: int_value(self.optimization_level) },
            FieldView { name: "custom_string"@, value: str_value(self.custom_string.deep_view()) },
            FieldView { name: "remove_weight"@, value: bool_value(self.remove_weight) },
            FieldView { name: "compress_weight"@, value: bool_value(self.compress_weight) },
            FieldView {
                name: "inputs_yuv_fmt"@,
                value: str_value(self.inputs_yuv_fmt.deep_view()),
            },
            FieldView { name: "single_core_mode"@, value: bool_value(self.single_core_mode) },
            FieldView { name: "model_pruning"@, value: bool_value(self.model_pruning) },
            FieldView { name: "quantize_weight"@, value: bool_value(self.quantize_weight) },
            FieldView { name: "remove_reshape"@, value: bool_value(self.remove_reshape) },
            FieldView { name: "sparse_infer"@, value: bool_value(self.sparse_infer) },
            FieldView {
                name: "enable_flash_attention"@,
                value: bool_value(self.enable_flash_attention),
            },
            FieldView {
                name: "auto_hybrid_cos_thresh"@,
                value: float_value(self.auto_hybrid_cos_thresh.deep_view()),
            },
            FieldView {
                name: "auto_hybrid_euc_thresh"@,
                value: float_value(self.auto_hybrid_euc_thresh.deep_view()),
            },
            FieldView { name: "op_target"@, value: str_map_value(self.op_target.deep_view()) },
            FieldView {
                name: "dynamic_input"@,
                value: shape_sets_value(self.dynamic_input.deep_view()),
            },
        ]
    }

    /// The settings as named values, in the order the call lists them.
    pub fn fields(&self) -> (fields: Vec<Field>)
        ensures
            fields.deep_view() == self.spec_fields(),
    {
        let mut fields: Vec<Field> = Vec::new();
        fields.push(Field::new("mean_values", Value::of_float_list(&self.mean_values)));
        fields.push(Field::new("std_values", Value::of_float_list(&self.std_values)));
        fields.push(Field::new("quantized_dtype", Value::of_str(&self.quantized_dtype)));
        fields.push(Field::new("quantized_algorithm", Value::of_str(&self.quantized_algorithm)));
        fields.push(Field::new("quantized_method", Value::of_str(&self.quantized_method)));
        fields.push(Field::new("target_platform", Value::of_str(&self.target_platform)));
        fields.push(Field::new("quant_img_RGB2BGR", Value::of_bool(&self.quant_img_RGB2BGR)));
        fields.push(Field::new("float_dtype", Value::of_str(&self.float_dtype)));
        fields.push(Field::new("optimization_level", Value::of_int(self.optimization_level)));
        fields.push(Field::new("custom_string", Value::of_str(&self.custom_string)));
        fields.push(Field::new("remove_weight", Value::of_bool(&self.remove_weight)));
        fields.push(Field::new("compress_weight", Value::of_bool(&self.compress_weight)));
        fields.push(Field::new("inputs_yuv_fmt", Value::of_str(&self.inputs_yuv_fmt)));
        fields.push(Field::new("single_core_mode", Value::of_bool(&self.single_core_mode)));
        fields.push(Field::new("model_pruning", Value::of_bool(&self.model_pruning)));
        fields.push(Field::new("quantize_weight", Value::of_bool(&self.quantize_weight)));
        fields.push(Field::new("remove_reshape", Value::of_bool(&self.remove_reshape)));
        fields.push(Field::new("sparse_infer", Value::of_bool(&self.sparse_infer)));
        fields.push(
            Field::new("enable_flash_attention", Value::of_bool(&self.enable_flash_attention)),
        );
        fields.push(
            Field::new("auto_hybrid_cos_thresh", Value::of_float(&self.auto_hybrid_cos_thresh)),
        );
        fields.push(
            Field::new("auto_hybrid_euc_thresh", Value::of_float(&self.auto_hybrid_euc_thresh)),
        );
        fields.push(Field::new("op_target", Value::of_str_map(&self.op_target)));
        fields.push(Field::new("dynamic_input", Value::of_shape_sets(&self.dynamic_input)));
        assert(fields.deep_view() =~= self.spec_fields());
        fields
    }

    /// Whether every setting that is present satisfies its validator, by
    /// the rules of the extended generation, and no operator is targeted
    /// twice.
    pub open spec fn valid(self) -> bool {
        &&& settings_valid(
            SchemaGeneration::Extended,
            self.quantized_dtype.deep_view(),
            self.quantized_algorithm.deep_view(),
            self.quantized_method.deep_view(),
            self.target_platform.deep_view(),
            self.float_dtype.deep_view(),
            self.optimization_level,
        )
        &&& self.op_target matches Some(entries) ==> keys_unique(entries.deep_view())
    }

    /// Every failure of these settings, in the order of the settings: one
    /// for each setting that is present and breaks its rule.
    pub open spec fn spec_failures(self) -> Seq<FailureView> {
        settings_failures(
            SchemaGeneration::Extended,
            self.quantized_dtype.deep_view(),
            self.quantized_algorithm.deep_view(),
            self.quantized_method.deep_view(),
            self.target_platform.deep_view(),
            self.float_dtype.deep_view(),
            self.optimization_level,
        ) + failure_if(
            self.op_target matches Some(entries) && !keys_unique(entries.deep_view()),
            "op_target"@,
            FailureKind::DuplicateKey,
        )
    }

    /// Runs every validator on every setting that is present and collects
    /// all the failures; a setting that is left out is never judged.
    pub fn validate(&self) -> (failures: Vec<ValidationFailure>)
        ensures
            failures.deep_view() == self.spec_failures(),
            failures.len() == 0 <==> self.valid(),
    {
        let mut failures = validate_settings(
            SchemaGeneration::Extended,
            &self.quantized_dtype,
            &self.quantized_algorithm,
            &self.quantized_method,
            &self.target_platform,
            &self.float_dtype,
            self.optimization_level,
        );
        let targets = match &self.op_target {
            Some(entries) => if check_keys_unique(entries) {
                Ok(())
            } else {
                Err(FailureKind::DuplicateKey)
            },
            None => Ok(()),
        };
        note_failure(&mut failures, "op_target", targets);
        failures
    }

    /// The keyword payload of the `config` call: one key for each setting
    /// that is present, none for a setting that is left out.
    pub fn to_pydict(&self) -> (dict: PyDict)
        ensures
            dict@ == present(self.spec_fields()),
            is_mapping(dict@),
            self.is_unset() ==> dict@.len() == 0,
    {
        let dict = marshal(&self.fields());
        proof {
            lemma_config_names_distinct(*self);
            lemma_present_is_mapping(self.spec_fields());
            if self.is_unset() {
                lemma_nothing_set_marshals_empty(self.spec_fields());
            }
        }
        dict
    }
}

/// What tells the names of the extended settings apart: the length, the
/// ninth character and the eighth from the end.
pub open spec fn wide_mark(name: Seq<char>) -> (nat, char, char) {
    (name.len(), name[8], name[name.len() - 8])
}

/// The extended settings have distinct names.
pub proof fn lemma_config_names_distinct(config: Config)
    ensures
        names_distinct(config.spec_fields()),
{
    reveal_strlit("mean_values");
    reveal_strlit("std_values");
    reveal_strlit("quantized_dtype");
    reveal_strlit("quantized_algorithm");
    reveal_strlit("quantized_method");
    reveal_strlit("target_platform");
    reveal_strlit("quant_img_RGB2BGR");
    reveal_strlit("float_dtype");
    reveal_strlit("optimization_level");
    reveal_strlit("custom_string");
    reveal_strlit("remove_weight");
    reveal_strlit("compress_weight");
    reveal_strlit("inputs_yuv_fmt");
    reveal_strlit("single_core_mode");
    reveal_strlit("model_pruning");
    reveal_strlit("quantize_weight");
    reveal_strlit("remove_reshape");
    reveal_strlit("sparse_infer");
    reveal_strlit("enable_flash_attention");
    reveal_strlit("auto_hybrid_cos_thresh");
    reveal_strlit("auto_hybrid_euc_thresh");
    reveal_strlit("op_target");
    reveal_strlit("dynamic_input");
    let names = config.spec_fields();
    assert(wide_mark(names[0].name) == (11nat, 'u', 'n'));
    assert(wide_mark(names[1].name) == (10nat, 'e', 'd'));
    assert(wide_mark(names[2].name) == (15nat, 'd', 'e'));
    assert(wide_mark(names[3].name) == (19nat, 'd', 'l'));
    assert(wide_mark(names[4].name) == (16nat, 'd', 'd'));
    assert(wide_mark(names[5].name) == (15nat, 'l', 'p'));
    assert(wide_mark(names[6].name) == (17nat, 'g', '_'));
    assert(wide_mark(names[7].name) == (11nat, 'y', 'a'));
    assert(wide_mark(names[8].name) == (18nat, 't', 'o'));
    assert(wide_mark(names[9].name) == (13nat, 't', 'm'));
    assert(wide_mark(names[10].name) == (13nat, 'e', 'e'));
    assert(wide_mark(names[11].name) == (15nat, '_', 's'));
    assert(wide_mark(names[12].name) == (14nat, 'u', '_'));
    assert(wide_mark(names[13].name) == (16nat, 'o', 'o'));
    assert(wide_mark(names[14].name) == (13nat, 'u', '_'));
    assert(wide_mark(names[15].name) == (15nat, '_', 'e'));
    assert(wide_mark(names[16].name) == (14nat, 'e', '_'));
    assert(wide_mark(names[17].name) == (12nat, 'n', 's'));
    assert(wide_mark(names[18].name) == (22nat, 'l', 't'));
    assert(wide_mark(names[19].name) == (22nat, 'r', 's'));
    assert(wide_mark(names[20].name) == (22nat, 'r', 'c'));
    assert(wide_mark(names[21].name) == (9nat, 't', 'p'));
    assert(wide_mark(names[22].name) == (13nat, 'i', 'i'));
    assert forall|i: int, j: int| 0 <= i < j < names.len() implies names[i].name
        != names[j].name by {
        assert(wide_mark(names[i].name) != wide_mark(names[j].name));
    }
}

/// The keyword arguments of the `load_onnx` call have distinct names.
pub proof fn lemma_onnx_names_distinct(
    inputs: Option<Seq<Seq<char>>>,
    outputs: Option<Seq<Seq<char>>>,
    input_size_list: Option<Seq<Seq<usize>>>,
    arrays: ValueView,
)
    ensures
        names_distinct(onnx_fields(inputs, outputs, input_size_list, arrays)),
{
    reveal_strlit("inputs");
    reveal_strlit("outputs");
    reveal_strlit("input_size_list");
    reveal_strlit("input_initial_val");
    let names = onnx_fields(inputs, outputs, input_size_list, arrays);
    assert(names[0].name.len() == 6);
    assert(names[1].name.len() == 7);
    assert(names[2].name.len() == 15);
    assert(names[3].name.len() == 17);
}

/// Why a section could not be marshalled.
#[derive(Clone, Debug, PartialEq)]
pub enum MarshalError {
    /// The section names an array file and nothing was loaded for it.
    ArrayFileNotLoaded { path: String },
    /// The loader failed on the array file that the section names.
    ArrayFileFailed { path: String, error: ArrayFileError },
    /// The document gave no path of a model to load.
    ModelNotGiven,
}

impl MarshalError {
    /// The error in words: what failed, on which file, and the loader's own
    /// words where it gave any.
    pub open spec fn spec_message(self) -> Seq<char> {
        match self {
            MarshalError::ArrayFileNotLoaded { path } => "array file "@ + path@
                + " was not loaded"@,
            MarshalError::ArrayFileFailed { path, error } => "array file "@ + path@ + ": "@
                + error.kind.spec_description() + ": "@ + error.cause@,
            MarshalError::ModelNotGiven => "no model path was given"@,
        }
    }

    /// The error in words.
    pub fn message(&self) -> (text: String)
        ensures
            text@ == self.spec_message(),
    {
        match self {
            MarshalError::ArrayFileNotLoaded { path } => {
                let mut text = "array file ".to_owned();
                text.append(path.as_str());
                text.append(" was not loaded");
                text
            },
            MarshalError::ArrayFileFailed { path, error } => {
                let mut text = "array file ".to_owned();
                text.append(path.as_str());
                text.append(": ");
                text.append(error.kind.description());
                text.append(": ");
                text.append(error.cause.as_str());
                text
            },
            MarshalError::ModelNotGiven => "no model path was given".to_owned(),
        }
    }
}

/// The keyword arguments of the `load_onnx` call as named values, in the
/// order the call lists them.  The model path is not among them: it is the
/// call's positional argument.  `arrays` is what the array file resolved to.
pub open spec fn onnx_fields(
    inputs: Option<Seq<Seq<char>>>,
    outputs: Option<Seq<Seq<char>>>,
    input_size_list: Option<Seq<Seq<usize>>>,
    arrays: ValueView,
) -> Seq<FieldView> {
    seq![
        FieldView { name: "inputs"@, value: str_list_value(inputs) },
        FieldView { name: "outputs"@, value: str_list_value(outputs) },
        FieldView { name: "input_size_list"@, value: shape_list_value(input_size_list) },
        FieldView { name: "input_initial_val"@, value: arrays },
    ]
}

/// What the array file of a section resolves to: nothing where the section
/// names no file, the arrays of the file where it was loaded, an error where
/// it was not or could not be.
pub open spec fn resolved_arrays(file: Option<String>, arrays: ArrayResolution) -> Result<
    ValueView,
    MarshalError,
> {
    match file {
        None => Ok(ValueView::Null),
        Some(path) => match arrays {
            ArrayResolution::Loaded(loaded) => Ok(ValueView::Arrays(loaded.spec_arrays())),
            ArrayResolution::Failed(error) => Err(MarshalError::ArrayFileFailed { path, error }),
            ArrayResolution::NotLoaded => Err(MarshalError::ArrayFileNotLoaded { path }),
        },
    }
}

/// Whether two marshalling errors say the same.
pub open spec fn same_error(a: MarshalError, b: MarshalError) -> bool {
    match (a, b) {
        (
            MarshalError::ArrayFileNotLoaded { path: p },
            MarshalError::ArrayFileNotLoaded { path: q },
        ) => p@ == q@,
        (
            MarshalError::ArrayFileFailed { path: p, error: e },
            MarshalError::ArrayFileFailed { path: q, error: f },
        ) => p@ == q@ && e.kind == f.kind && e.cause@ == f.cause@,
        (MarshalError::ModelNotGiven, MarshalError::ModelNotGiven) => true,
        _ => false,
    }
}

/// Marshals the keyword arguments of the `load_onnx` call.
///
/// The array file, where the section names one, must have been resolved by
/// the caller: a single array becomes a list of one, an archive the list of
/// its arrays in the loader's order, both under the key `input_initial_val`.
/// A failed or missing load fails the marshalling.
pub fn marshal_onnx(
    inputs: &Option<Vec<String>>,
    outputs: &Option<Vec<String>>,
    input_size_list: &Option<Vec<Vec<usize>>>,
    input_initial_val_file: &Option<String>,
    arrays: &ArrayResolution,
) -> (result: Result<PyDict, MarshalError>)
    ensures
        match resolved_arrays(*input_initial_val_file, *arrays) {
            Ok(value) => result matches Ok(dict) && dict@ == present(
                onnx_fields(
                    inputs.deep_view(),
                    outputs.deep_view(),
                    input_size_list.deep_view(),
                    value,
                ),
            ),
            Err(error) => result matches Err(found) && same_error(found, error),
        },
        result matches Ok(dict) ==> is_mapping(dict@),
        inputs is None && outputs is None && input_size_list is None && input_initial_val_file
            is None ==> (result matches Ok(dict) && dict@.len() == 0),
{
    let resolved = match input_initial_val_file {
        None => Value::Null,
        Some(path) => match arrays {
            ArrayResolution::Loaded(loaded) => loaded.to_value(),
            ArrayResolution::Failed(error) => {
                return Err(
                    MarshalError::ArrayFileFailed { path: path.copy(), error: error.copy() },
                );
            },
            ArrayResolution::NotLoaded => {
                return Err(MarshalError::ArrayFileNotLoaded { path: path.copy() });
            },
        },
    };
    let mut fields: Vec<Field> = Vec::new();
    fields.push(Field::new("inputs", Value::of_str_list(inputs)));
    fields.push(Field::new("outputs", Value::of_str_list(outputs)));
    fields.push(Field::new("input_size_list", Value::of_shape_list(input_size_list)));
    fields.push(Field::new("input_initial_val", resolved));
    assert(fields.deep_view() =~= onnx_fields(
        inputs.deep_view(),
        outputs.deep_view(),
        input_size_list.deep_view(),
        resolved@,
    ));
    proof {
        lemma_onnx_names_distinct(
            inputs.deep_view(),
            outputs.deep_view(),
            input_size_list.deep_view(),
            resolved@,
        );
        lemma_present_is_mapping(fields.deep_view());
        if inputs is None && outputs is None && input_size_list is None && input_initial_val_file
            is None {
            lemma_nothing_set_marshals_empty(fields.deep_view());
        }
    }
    Ok(marshal(&fields))
}

/// How to load an ONNX model.
#[derive(Clone, Debug, PartialEq)]
pub struct OnnxLoading {
    /// Path to the ONNX model file.
    pub model: String,
    /// Names of the inputs.
    pub inputs: Option<Vec<String>>,
    /// One shape for each input.
    pub input_size_list: Option<Vec<Vec<usize>>>,
    /// Path to an array file with initial values for the inputs.
    pub input_initial_val_file: Option<String>,
    /// Names of the outputs.
    pub outputs: Option<Vec<String>>,
}

impl OnnxLoading {
    /// Whether nothing but the model path is given.
    pub open spec fn is_unset(self) -> bool {
        &&& self.inputs is None
        &&& self.outputs is None
        &&& self.input_size_list is None
        &&& self.input_initial_val_file is None
    }

    /// The keyword payload of the `load_onnx` call; see [`marshal_onnx`].
    pub fn to_pydict(&self, arrays: &ArrayResolution) -> (result: Result<PyDict, MarshalError>)
        ensures
            match resolved_arrays(self.input_initial_val_file, *arrays) {
                Ok(value) => result matches Ok(dict) && dict@ == present(
                    onnx_fields(
                        self.inputs.deep_view(),
                        self.outputs.deep_view(),
                        self.input_size_list.deep_view(),
                        value,
                    ),
                ),
                Err(error) => result matches Err(found) && same_error(found, error),
            },
            result matches Ok(dict) ==> is_mapping(dict@),
            self.is_unset() ==> (result matches Ok(dict) && dict@.len() == 0),
    {
        marshal_onnx(
            &self.inputs,
            &self.outputs,
            &self.input_size_list,
            &self.input_initial_val_file,
            arrays,
        )
    }
}

/// The model to load, by its format.  A new format is a new variant.
#[derive(Clone, Debug, PartialEq)]
pub enum ModelLoading {
    Onnx(OnnxLoading),
}

/// A configuration of the extended generation: the general settings and the
/// model to load.
#[derive(Clone, Debug, PartialEq)]
pub struct Configuration {
    pub config: Config,
    pub model: ModelLoading,
}

impl Configuration {
    /// Every failure of this configuration; see [`Config::validate`].  The
    /// description of the model has no rule to break.
    pub fn validate(&self) -> (failures: Vec<ValidationFailure>)
        ensures
            failures.deep_view() == self.config.spec_failures(),
            failures.len() == 0 <==> self.config.valid(),
    {
        self.config.validate()
    }
}

} // verus!
