//! The four-section document and its documented defaults.
//!
//! A document says what the user wrote: every key may be missing.  A section
//! is what the converter runs with: every key that has a documented default
//! is resolved.  Resolving happens once, key by key, when the configuration
//! is built; a key that the document leaves out takes its default and is
//! never shown to a validator, a key that the document sets is validated and
//! kept as it is.
//!
//! The model path is required.  It has a default all the same, which serves
//! to compare with in a report; the load section records whether the
//! document gave the path, and a configuration whose path was not given can
//! be explained but not run.
//!
//! The quantized data type of this generation is judged by the rule of
//! [`SchemaGeneration::Legacy`].
use crate::plain::Plain;
use crate::validators::{
    failure_if, note_failure, settings_failures, settings_valid, validate_settings, FailureKind,
    FailureView, SchemaGeneration, ValidationFailure,
};
use crate::value::{
    bool_value, float_list_value, int_value, shape_list_value, str_list_value, str_value, Decimal,
    Field, FieldView, Value, ValueView,
};
use vstd::prelude::*;

verus! {

/// The fields of a document with every missing value taken from `defaults`.
/// A field that the document sets stays as it is.
pub open spec fn resolve_fields(document: Seq<FieldView>, defaults: Seq<FieldView>) -> Seq<
    FieldView,
> {
    Seq::new(
        document.len(),
        |i: int|
            if document[i].value is Null {
                FieldView { name: document[i].name, value: defaults[i].value }
            } else {
                document[i]
            },
    )
}

/// Defaulting is idempotent: resolving what is already resolved changes
/// nothing.
pub proof fn lemma_resolve_idempotent(document: Seq<FieldView>, defaults: Seq<FieldView>)
    ensures
        resolve_fields(resolve_fields(document, defaults), defaults) == resolve_fields(
            document,
            defaults,
        ),
{
    assert(resolve_fields(resolve_fields(document, defaults), defaults) =~= resolve_fields(
        document,
        defaults,
    ));
}

/// Round trip: resolving keeps every field that the document sets, name and
/// value, and gives every other field the value of its default.
pub proof fn lemma_resolve_keeps_set(document: Seq<FieldView>, defaults: Seq<FieldView>)
    ensures
        resolve_fields(document, defaults).len() == document.len(),
        forall|i: int|
            0 <= i < document.len() && !(document[i].value is Null) ==> #[trigger] resolve_fields(
                document,
                defaults,
            )[i] == document[i],
        forall|i: int|
            0 <= i < document.len() && document[i].value is Null ==> (#[trigger] resolve_fields(
                document,
                defaults,
            )[i]).value == defaults[i].value,
{
}

/// The general settings as a document gives them: `None` where it says
/// nothing.
#[derive(Clone, Debug, PartialEq)]
pub struct ConfigDocument {
    pub mean_values: Option<Vec<Decimal>>,
    pub std_values: Option<Vec<Decimal>>,
    pub quantized_dtype: Option<String>,
    pub quantized_algorithm: Option<String>,
    pub quantized_method: Option<String>,
    pub target_platform: Option<String>,
    pub quant_img_RGB2BGR: Option<bool>,
    pub float_dtype: Option<String>,
    pub optimization_level: Option<i64>,
    pub custom_string: Option<String>,
    pub remove_weight: Option<bool>,
    pub compress_weight: Option<bool>,
    pub inputs_yuv_fmt: Option<String>,
    pub single_core_mode: Option<bool>,
}

/// The general settings, resolved.
#[derive(Clone, Debug, PartialEq)]
pub struct ConfigConfig {
    /// Mean values for normalization.
    pub mean_values: Option<Vec<Decimal>>,
    /// Standard deviation values for normalization.
    pub std_values: Option<Vec<Decimal>>,
    /// Quantized data type.
    pub quantized_dtype: String,
    /// Quantization algorithm.
    pub quantized_algorithm: String,
    /// Quantization method.
    pub quantized_method: String,
    /// Target platform; not empty where it is given.
    pub target_platform: Option<String>,
    /// BGR channel order instead of RGB.
    pub quant_img_RGB2BGR: Option<bool>,
    /// Float data type.
    pub float_dtype: Option<String>,
    /// Optimization level, 0 to 3.
    pub optimization_level: u8,
    /// A custom string to add to the model.
    pub custom_string: Option<String>,
    /// Remove the weights from the model.
    pub remove_weight: Option<bool>,
    /// Compress the model weights.
    pub compress_weight: Option<bool>,
    /// Input YUV format.
    pub inputs_yuv_fmt: Option<String>,
    /// Single core mode.
    pub single_core_mode: Option<bool>,
}

/// The documented defaults of the general settings.
pub open spec fn config_defaults() -> Seq<FieldView> {
    seq![
        FieldView { name: "mean_values"@, value: ValueView::Null },
        FieldView { name: "std_values"@, value: ValueView::Null },
        FieldView { name: "quantized_dtype"@, value: ValueView::Str("asymmetric_quantized-8"@) },
        FieldView { name: "quantized_algorithm"@, value: ValueView::Str("normal"@) },
        FieldView { name: "quantized_method"@, value: ValueView::Str("channel"@) },
        FieldView { name: "target_platform"@, value: ValueView::Null },
        FieldView { name: "quant_img_RGB2BGR"@, value: ValueView::Bool(false) },
        FieldView { name: "float_dtype"@, value: ValueView::Str("float16"@) },
        FieldView { name: "optimization_level"@, value: ValueView::Int(3) },
        FieldView { name: "custom_string"@, value: ValueView::Null },
        FieldView { name: "remove_weight"@, value: ValueView::Bool(false) },
        FieldView { name: "compress_weight"@, value: ValueView::Bool(false) },
        FieldView { name: "inputs_yuv_fmt"@, value: ValueView::Null },
        FieldView { name: "single_core_mode"@, value: ValueView::Bool(false) },
    ]
}

/// `value` where it is given, `default` where it is not.
pub fn flag_or(value: &Option<bool>, default: Option<bool>) -> (resolved: Option<bool>)
    ensures
        resolved == (if value is Some {
            *value
        } else {
            default
        }),
{
    match value {
        Some(flag) => Some(*flag),
        None => default,
    }
}

/// `value` where it is given, `default` where it is not.
pub fn text_or(value: &Option<String>, default: &str) -> (resolved: String)
    ensures
        resolved@ == (match value {
            Some(text) => text@,
            None => default@,
        }),
{
    match value {
        Some(text) => text.copy(),
        None => default.to_owned(),
    }
}

impl ConfigDocument {
    /// The document that says nothing.
    pub fn empty() -> (document: ConfigDocument)
        ensures
            forall|i: int|
                0 <= i < document.spec_fields().len() ==> document.spec_fields()[i].value is Null,
            document.valid(),
    {
        ConfigDocument {
            mean_values: None,
            std_values: None,
            quantized_dtype: None,
            quantized_algorithm: None,
            quantized_method: None,
            target_platform: None,
            quant_img_RGB2BGR: None,
            float_dtype: None,
            optimization_level: None,
            custom_string: None,
            remove_weight: None,
            compress_weight: None,
            inputs_yuv_fmt: None,
            single_core_mode: None,
        }
    }

    /// The document as named values, in declared order; `Null` where it says
    /// nothing.
    pub open spec fn spec_fields(self) -> Seq<FieldView> {
        seq![
            FieldView {
                name: "mean_values"@,
                value: float_list_value(self.mean_values.deep_view()),
            },
            FieldView { name: "std_values"@, value: float_list_value(self.std_values.deep_view()) },
            FieldView {
                name: "quantized_dtype"@,
                value: str_value(self.quantized_dtype.deep_view()),
            },
            FieldView {
                name: "quantized_algorithm"@,
                value: str_value(self.quantized_algorithm.deep_view()),
            },
            FieldView {
                name: "quantized_method"@,
                value: str_value(self.quantized_method.deep_view()),
            },
            FieldView {
                name: "target_platform"@,
                value: str_value(self.target_platform.deep_view()),
            },
            FieldView { name: "quant_img_RGB2BGR"@, value: bool_value(self.quant_img_RGB2BGR) },
            FieldView { name: "float_dtype"@, value: str_value(self.float_dtype.deep_view()) },
            FieldView { name: "optimization_level"@, value: int_value(self.optimization_level) },
            FieldView { name: "custom_string"@, value: str_value(self.custom_string.deep_view()) },
            FieldView { name: "remove_weight"@, value: bool_value(self.remove_weight) },
            FieldView { name: "compress_weight"@, value: bool_value(self.compress_weight) },
            FieldView {
                name: "inputs_yuv_fmt"@,
                value: str_value(self.inputs_yuv_fmt.deep_view()),
            },
            FieldView { name: "single_core_mode"@, value: bool_value(self.single_core_mode) },
        ]
    }

    /// Whether every setting that the document gives satisfies its
    /// validator.
    pub open spec fn valid(self) -> bool {
        settings_valid(
            SchemaGeneration::Legacy,
            self.quantized_dtype.deep_view(),
            self.quantized_algorithm.deep_view(),
            self.quantized_method.deep_view(),
            self.target_platform.deep_view(),
            self.float_dtype.deep_view(),
            self.optimization_level,
        )
    }

    /// Every failure of the document, in the order of the settings.
    pub open spec fn spec_failures(self) -> Seq<FailureView> {
        settings_failures(
            SchemaGeneration::Legacy,
            self.quantized_dtype.deep_view(),
            self.quantized_algorithm.deep_view(),
            self.quantized_method.deep_view(),
            self.target_platform.deep_view(),
            self.float_dtype.deep_view(),
            self.optimization_level,
        )
    }

    /// Runs every validator on every setting that the document gives and
    /// collects all the failures.
    pub fn validate(&self) -> (failures: Vec<ValidationFailure>)
        ensures
            failures.deep_view() == self.spec_failures(),
            failures.len() == 0 <==> self.valid(),
    {
        validate_settings(
            SchemaGeneration::Legacy,
            &self.quantized_dtype,
            &self.quantized_algorithm,
            &self.quantized_method,
            &self.target_platform,
            &self.float_dtype,
            self.optimization_level,
        )
    }
}

impl Default for ConfigConfig {
    /// The general settings with every documented default.
    fn default() -> (config: ConfigConfig)
        ensures
            config.spec_fields() == config_defaults(),
            config.valid(),
    {
        let config = ConfigConfig {
            mean_values: None,
            std_values: None,
            quantized_dtype: "asymmetric_quantized-8".to_owned(),
            quantized_algorithm: "normal".to_owned(),
            quantized_method: "channel".to_owned(),
            target_platform: None,
            quant_img_RGB2BGR: Some(false),
            float_dtype: Some("float16".to_owned()),
            optimization_level: 3,
            custom_string: None,
            remove_weight: Some(false),
            compress_weight: Some(false),
            inputs_yuv_fmt: None,
            single_core_mode: Some(false),
        };
        assert(config.spec_fields() =~= config_defaults());
        config
    }
}

impl ConfigConfig {
    /// The settings as named values, in declared order.
    pub open spec fn spec_fields(self) -> Seq<FieldView> {
        seq![
            FieldView {
                name: "mean_values"@,
                value: float_list_value(self.mean_values.deep_view()),
            },
            FieldView { name: "std_values"@, value: float_list_value(self.std_values.deep_view()) },
            FieldView { name: "quantized_dtype"@, value: ValueView::Str(self.quantized_dtype@) },
            FieldView {
                name: "quantized_algorithm"@,
                value: ValueView::Str(self.quantized_algorithm@),
            },
            FieldView { name: "quantized_method"@, value: ValueView::Str(self.quantized_method@) },
            FieldView {
                name: "target_platform"@,
                value: str_value(self.target_platform.deep_view()),
            },
            FieldView { name: "quant_img_RGB2BGR"@, value: bool_value(self.quant_img_RGB2BGR) },
            FieldView { name: "float_dtype"@, value: str_value(self.float_dtype.deep_view()) },
            FieldView {
                name: "optimization_level"@,
                value: ValueView::Int(self.optimization_level as int),
            },
            FieldView { name: "custom_string"@, value: str_value(self.custom_string.deep_view()) },
            FieldView { name: "remove_weight"@, value: bool_value(self.remove_weight) },
            FieldView { name: "compress_weight"@, value: bool_value(self.compress_weight) },
            FieldView {
                name: "inputs_yuv_fmt"@,
                value: str_value(self.inputs_yuv_fmt.deep_view()),
            },
            FieldView { name: "single_core_mode"@, value: bool_value(self.single_core_mode) },
        ]
    }

    /// The settings as named values, in declared order.
    pub fn fields(&self) -> (fields: Vec<Field>)
        ensures
            fields.deep_view() == self.spec_fields(),
    {
        let mut fields: Vec<Field> = Vec::new();
        fields.push(Field::new("mean_values", Value::of_float_list(&self.mean_values)));
        fields.push(Field::new("std_values", Value::of_float_list(&self.std_values)));
        fields.push(Field::new("quantized_dtype", Value::Str(self.quantized_dtype.copy())));
        fields.push(Field::new("quantized_algorithm", Value::Str(self.quantized_algorithm.copy())));
        fields.push(Field::new("quantized_method", Value::Str(self.quantized_method.copy())));
        fields.push(Field::new("target_platform", Value::of_str(&self.target_platform)));
        fields.push(Field::new("quant_img_RGB2BGR", Value::of_bool(&self.quant_img_RGB2BGR)));
        fields.push(Field::new("float_dtype", Value::of_str(&self.float_dtype)));
        fields.push(Field::new("optimization_level", Value::Int(self.optimization_level as i64)));
        fields.push(Field::new("custom_string", Value::of_str(&self.custom_string)));
        fields.push(Field::new("remove_weight", Value::of_bool(&self.remove_weight)));
        fields.push(Field::new("compress_weight", Value::of_bool(&self.compress_weight)));
        fields.push(Field::new("inputs_yuv_fmt", Value::of_str(&self.inputs_yuv_fmt)));
        fields.push(Field::new("single_core_mode", Value::of_bool(&self.single_core_mode)));
        assert(fields.deep_view() =~= self.spec_fields());
        fields
    }

    /// Whether every setting satisfies its validator.
    pub open spec fn valid(self) -> bool {
        settings_valid(
            SchemaGeneration::Legacy,
            Some(self.quantized_dtype@),
            Some(self.quantized_algorithm@),
            Some(self.quantized_method@),
            self.target_platform.deep_view(),
            self.float_dtype.deep_view(),
            Some(self.optimization_level as i64),
        )
    }

    /// Every failure of the settings, in the order of the settings.
    pub open spec fn spec_failures(self) -> Seq<FailureView> {
        settings_failures(
            SchemaGeneration::Legacy,
            Some(self.quantized_dtype@),
            Some(self.quantized_algorithm@),
            Some(self.quantized_method@),
            self.target_platform.deep_view(),
            self.float_dtype.deep_view(),
            Some(self.optimization_level as i64),
        )
    }

    /// Runs every validator on the settings and collects all the failures.
    pub fn validate(&self) -> (failures: Vec<ValidationFailure>)
        ensures
            failures.deep_view() == self.spec_failures(),
            failures.len() == 0 <==> self.valid(),
    {
        validate_settings(
            SchemaGeneration::Legacy,
            &Some(self.quantized_dtype.copy()),
            &Some(self.quantized_algorithm.copy()),
            &Some(self.quantized_method.copy()),
            &self.target_platform,
            &self.float_dtype,
            Some(self.optimization_level as i64),
        )
    }

    /// Builds the general settings from what a document gives.
    ///
    /// Every setting that the document gives is validated, and all failures
    /// are reported together.  Where there is none, each setting is the
    /// document's where the document gives it and the documented default
    /// where it does not; defaults are not validated.
    pub fn from_document(document: &ConfigDocument) -> (result: Result<
        ConfigConfig,
        Vec<ValidationFailure>,
    >)
        ensures
            match result {
                Ok(config) => {
                    &&& document.valid()
                    &&& config.spec_fields() == resolve_fields(
                        document.spec_fields(),
                        config_defaults(),
                    )
                    &&& config.valid()
                },
                Err(failures) => {
                    &&& !document.valid()
                    &&& failures.len() > 0
                    &&& failures.deep_view() == document.spec_failures()
                },
            },
    {
        let failures = document.validate();
        if failures.len() > 0 {
            return Err(failures);
        }
        let level: u8 = match document.optimization_level {
            Some(level) => level as u8,
            None => 3,
        };
        let config = ConfigConfig {
            mean_values: document.mean_values.copy(),
            std_values: document.std_values.copy(),
            quantized_dtype: text_or(&document.quantized_dtype, "asymmetric_quantized-8"),
            quantized_algorithm: text_or(&document.quantized_algorithm, "normal"),
            quantized_method: text_or(&document.quantized_method, "channel"),
            target_platform: document.target_platform.copy(),
            quant_img_RGB2BGR: flag_or(&document.quant_img_RGB2BGR, Some(false)),
            float_dtype: Some(text_or(&document.float_dtype, "float16")),
            optimization_level: level,
            custom_string: document.custom_string.copy(),
            remove_weight: flag_or(&document.remove_weight, Some(false)),
            compress_weight: flag_or(&document.compress_weight, Some(false)),
            inputs_yuv_fmt: document.inputs_yuv_fmt.copy(),
            single_core_mode: flag_or(&document.single_core_mode, Some(false)),
        };
        assert(config.spec_fields() =~= resolve_fields(document.spec_fields(), config_defaults()));
        Ok(config)
    }

    /// The settings written back as a document: every setting that has a
    /// value is given.
    pub fn to_document(&self) -> (document: ConfigDocument)
        ensures
            document.spec_fields() == self.spec_fields(),
            document.valid() == self.valid(),
    {
        let document = ConfigDocument {
            mean_values: self.mean_values.copy(),
            std_values: self.std_values.copy(),
            quantized_dtype: Some(self.quantized_dtype.copy()),
            quantized_algorithm: Some(self.quantized_algorithm.copy()),
            quantized_method: Some(self.quantized_method.copy()),
            target_platform: self.target_platform.copy(),
            quant_img_RGB2BGR: self.quant_img_RGB2BGR,
            float_dtype: self.float_dtype.copy(),
            optimization_level: Some(self.optimization_level as i64),
            custom_string: self.custom_string.copy(),
            remove_weight: self.remove_weight,
            compress_weight: self.compress_weight,
            inputs_yuv_fmt: self.inputs_yuv_fmt.copy(),
            single_core_mode: self.single_core_mode,
        };
        assert(document.spec_fields() =~= self.spec_fields());
        document
    }
}

/// How to load an ONNX model, as a document gives it.
#[derive(Clone, Debug, PartialEq)]
pub struct OnnxLoadDocument {
    pub model: Option<String>,
    pub inputs: Option<Vec<String>>,
    pub input_size_list: Option<Vec<Vec<usize>>>,
    pub input_initial_val_file: Option<String>,
    pub outputs: Option<Vec<String>>,
}

/// How to load an ONNX model, resolved.
#[derive(Clone, Debug, PartialEq)]
pub struct OnnxLoadConfig {
    /// Path to the ONNX model file.
    pub model: String,
    /// Whether the document gave the model path.  Where it did not, `model`
    /// holds the documented default: a report shows it, and no run loads it.
    pub model_given: bool,
    /// Names of the inputs.
    pub inputs: Option<Vec<String>>,
    /// One shape for each input.
    pub input_size_list: Option<Vec<Vec<usize>>>,
    /// Path to an array file with initial values for the inputs.
    pub input_initial_val_file: Option<String>,
    /// Names of the outputs.
    pub outputs: Option<Vec<String>>,
}

/// The documented defaults of the ONNX load section.
pub open spec fn onnx_defaults() -> Seq<FieldView> {
    seq![
        FieldView { name: "model"@, value: ValueView::Str("model.onnx"@) },
        FieldView { name: "inputs"@, value: ValueView::Null },
        FieldView { name: "input_size_list"@, value: ValueView::Null },
        FieldView { name: "input_initial_val_file"@, value: ValueView::Null },
        FieldView { name: "outputs"@, value: ValueView::Null },
    ]
}

impl OnnxLoadDocument {
    /// The document as named values, in declared order; `Null` where it says
    /// nothing.
    pub open spec fn spec_fields(self) -> Seq<FieldView> {
        seq![
            FieldView { name: "model"@, value: str_value(self.model.deep_view()) },
            FieldView { name: "inputs"@, value: str_list_value(self.inputs.deep_view()) },
            FieldView {
                name: "input_size_list"@,
                value: shape_list_value(self.input_size_list.deep_view()),
            },
            FieldView {
                name: "input_initial_val_file"@,
                value: str_value(self.input_initial_val_file.deep_view()),
            },
            FieldView { name: "outputs"@, value: str_list_value(self.outputs.deep_view()) },
        ]
    }
}

impl Default for OnnxLoadConfig {
    /// The load section with every documented default.  Its model path is
    /// the default for comparison, not a path that was given.
    fn default() -> (config: OnnxLoadConfig)
        ensures
            config.spec_fields() == onnx_defaults(),
            !config.model_given,
    {
        let config = OnnxLoadConfig {
            model: "model.onnx".to_owned(),
            model_given: false,
            inputs: None,
            input_size_list: None,
            input_initial_val_file: None,
            outputs: None,
        };
        assert(config.spec_fields() =~= onnx_defaults());
        config
    }
}

impl OnnxLoadConfig {
    /// The section as named values, in declared order.
    pub open spec fn spec_fields(self) -> Seq<FieldView> {
        seq![
            FieldView { name: "model"@, value: ValueView::Str(self.model@) },
            FieldView { name: "inputs"@, value: str_list_value(self.inputs.deep_view()) },
            FieldView {
                name: "input_size_list"@,
                value: shape_list_value(self.input_size_list.deep_view()),
            },
            FieldView {
                name: "input_initial_val_file"@,
                value: str_value(self.input_initial_val_file.deep_view()),
            },
            FieldView { name: "outputs"@, value: str_list_value(self.outputs.deep_view()) },
        ]
    }

    /// The section as named values, in declared order.
    pub fn fields(&self) -> (fields: Vec<Field>)
        ensures
            fields.deep_view() == self.spec_fields(),
    {
        let mut fields: Vec<Field> = Vec::new();
        fields.push(Field::new("model", Value::Str(self.model.copy())));
        fields.push(Field::new("inputs", Value::of_str_list(&self.inputs)));
        fields.push(Field::new("input_size_list", Value::of_shape_list(&self.input_size_list)));
        fields.push(
            Field::new("input_initial_val_file", Value::of_str(&self.input_initial_val_file)),
        );
        fields.push(Field::new("outputs", Value::of_str_list(&self.outputs)));
        assert(fields.deep_view() =~= self.spec_fields());
        fields
    }

    /// The section as a document gives it back: the fields of the section,
    /// but no model path where none was given.
    pub open spec fn written_fields(self) -> Seq<FieldView> {
        if self.model_given {
            self.spec_fields()
        } else {
            self.spec_fields().update(0, FieldView { name: "model"@, value: ValueView::Null })
        }
    }

    /// Builds the load section from what a document gives: each key is the
    /// document's where the document gives it and the documented default
    /// where it does not.  Whether the model path was given is recorded.
    pub fn from_document(document: &OnnxLoadDocument) -> (config: OnnxLoadConfig)
        ensures
            config.spec_fields() == resolve_fields(document.spec_fields(), onnx_defaults()),
            config.model_given == (document.model is Some),
    {
        let config = OnnxLoadConfig {
            model: text_or(&document.model, "model.onnx"),
            model_given: document.model.is_some(),
            inputs: document.inputs.copy(),
            input_size_list: document.input_size_list.copy(),
            input_initial_val_file: document.input_initial_val_file.copy(),
            outputs: document.outputs.copy(),
        };
        assert(config.spec_fields() =~= resolve_fields(document.spec_fields(), onnx_defaults()));
        config
    }

    /// The section written back as a document.  The model path is written
    /// only where it was given: a default never turns into a given path.
    pub fn to_document(&self) -> (document: OnnxLoadDocument)
        ensures
            document.spec_fields() == self.written_fields(),
            (document.model is Some) == self.model_given,
    {
        let document = OnnxLoadDocument {
            model: if self.model_given {
                Some(self.model.copy())
            } else {
                None
            },
            inputs: self.inputs.copy(),
            input_size_list: self.input_size_list.copy(),
            input_initial_val_file: self.input_initial_val_file.copy(),
            outputs: self.outputs.copy(),
        };
        assert(document.spec_fields() =~= self.written_fields());
        document
    }
}

/// The model to load as a document gives it, by the format it names.
#[derive(Clone, Debug, PartialEq)]
pub enum LoadDocument {
    Onnx(OnnxLoadDocument),
}

/// The model to load, by its format.  A new format is a new variant.
#[derive(Clone, Debug, PartialEq)]
pub enum LoadConfig {
    Onnx(OnnxLoadConfig),
}

impl LoadDocument {
    /// The document as named values.
    pub open spec fn spec_fields(self) -> Seq<FieldView> {
        match self {
            LoadDocument::Onnx(onnx) => onnx.spec_fields(),
        }
    }

    /// Whether the document gives the model path.
    pub open spec fn gives_model(self) -> bool {
        match self {
            LoadDocument::Onnx(onnx) => onnx.model is Some,
        }
    }
}

impl Default for LoadConfig {
    /// Loading an ONNX model with every documented default.  Its model path
    /// is the default for comparison, not a path that was given.
    fn default() -> (config: LoadConfig)
        ensures
            config.spec_fields() == onnx_defaults(),
            !config.model_given(),
    {
        LoadConfig::Onnx(OnnxLoadConfig::default())
    }
}

impl LoadConfig {
    /// The section as named values.
    pub open spec fn spec_fields(self) -> Seq<FieldView> {
        match self {
            LoadConfig::Onnx(onnx) => onnx.spec_fields(),
        }
    }

    /// Whether the document gave the model path.
    pub open spec fn model_given(self) -> bool {
        match self {
            LoadConfig::Onnx(onnx) => onnx.model_given,
        }
    }

    /// The section as a document gives it back.
    pub open spec fn written_fields(self) -> Seq<FieldView> {
        match self {
            LoadConfig::Onnx(onnx) => onnx.written_fields(),
        }
    }

    /// Whether the document gave the model path.
    pub fn has_model(&self) -> (given: bool)
        ensures
            given == self.model_given(),
    {
        match self {
            LoadConfig::Onnx(onnx) => onnx.model_given,
        }
    }

    /// Builds the load section from what a document gives, format by format.
    pub fn from_document(document: &LoadDocument) -> (config: LoadConfig)
        ensures
            config.spec_fields() == resolve_fields(document.spec_fields(), onnx_defaults()),
            config.model_given() == document.gives_model(),
    {
        match document {
            LoadDocument::Onnx(onnx) => LoadConfig::Onnx(OnnxLoadConfig::from_document(onnx)),
        }
    }

    /// The section written back as a document.
    pub fn to_document(&self) -> (document: LoadDocument)
        ensures
            document.spec_fields() == self.written_fields(),
            document.gives_model() == self.model_given(),
    {
        match self {
            LoadConfig::Onnx(onnx) => LoadDocument::Onnx(onnx.to_document()),
        }
    }
}

/// The build settings.  A document gives them in this same shape, with
/// `None` where it says nothing; [`BuildConfig::resolved`] resolves them.
#[derive(Clone, Debug, PartialEq)]
pub struct BuildConfig {
    /// Whether to quantize the model (default: true).
    pub do_quantization: Option<bool>,
    /// Path to the dataset file for quantization (default: none).
    pub dataset: Option<String>,
    /// Batch size for inference (default: none).
    pub rknn_batch_size: Option<i32>,
    /// Enable automatic hybrid quantization (default: false).
    pub auto_hybrid: Option<bool>,
}

/// The documented defaults of the build settings.
pub open spec fn build_defaults() -> Seq<FieldView> {
    seq![
        FieldView { name: "do_quantization"@, value: ValueView::Bool(true) },
        FieldView { name: "dataset"@, value: ValueView::Null },
        FieldView { name: "rknn_batch_size"@, value: ValueView::Null },
        FieldView { name: "auto_hybrid"@, value: ValueView::Bool(false) },
    ]
}

/// The value of an optional batch size: `Null` when it is absent.
pub open spec fn batch_value(size: Option<i32>) -> ValueView {
    match size {
        Some(n) => ValueView::Int(n as int),
        None => ValueView::Null,
    }
}

impl Default for BuildConfig {
    /// The build settings with every documented default.
    fn default() -> (config: BuildConfig)
        ensures
            config.spec_fields() == build_defaults(),
    {
        let config = BuildConfig {
            do_quantization: Some(true),
            dataset: None,
            rknn_batch_size: None,
            auto_hybrid: Some(false),
        };
        assert(config.spec_fields() =~= build_defaults());
        config
    }
}

impl BuildConfig {
    /// The settings as named values, in declared order.
    pub open spec fn spec_fields(self) -> Seq<FieldView> {
        seq![
            FieldView { name: "do_quantization"@, value: bool_value(self.do_quantization) },
            FieldView { name: "dataset"@, value: str_value(self.dataset.deep_view()) },
            FieldView { name: "rknn_batch_size"@, value: batch_value(self.rknn_batch_size) },
            FieldView { name: "auto_hybrid"@, value: bool_value(self.auto_hybrid) },
        ]
    }

    /// Whether no setting is given.
    pub open spec fn is_unset(self) -> bool {
        &&& self.do_quantization is None
        &&& self.dataset is None
        &&& self.rknn_batch_size is None
        &&& self.auto_hybrid is None
    }

    /// The settings as named values, in declared order.
    pub fn fields(&self) -> (fields: Vec<Field>)
        ensures
            fields.deep_view() == self.spec_fields(),
    {
        let batch = match self.rknn_batch_size {
            Some(n) => Value::Int(n as i64),
            None => Value::Null,
        };
        let mut fields: Vec<Field> = Vec::new();
        fields.push(Field::new("do_quantization", Value::of_bool(&self.do_quantization)));
        fields.push(Field::new("dataset", Value::of_str(&self.dataset)));
        fields.push(Field::new("rknn_batch_size", batch));
        fields.push(Field::new("auto_hybrid", Value::of_bool(&self.auto_hybrid)));
        assert(fields.deep_view() =~= self.spec_fields());
        fields
    }

    /// These settings with every missing one taken from the documented
    /// defaults.
    pub fn resolved(&self) -> (config: BuildConfig)
        ensures
            config.spec_fields() == resolve_fields(self.spec_fields(), build_defaults()),
    {
        let config = BuildConfig {
            do_quantization: flag_or(&self.do_quantization, Some(true)),
            dataset: self.dataset.copy(),
            rknn_batch_size: self.rknn_batch_size,
            auto_hybrid: flag_or(&self.auto_hybrid, Some(false)),
        };
        assert(config.spec_fields() =~= resolve_fields(self.spec_fields(), build_defaults()));
        config
    }
}

/// The export settings.  A document gives them in this same shape.
#[derive(Clone, Debug, PartialEq)]
pub struct ExportConfig {
    /// Where to write the converted model.
    pub export_path: Option<String>,
}

/// The documented defaults of the export settings.
pub open spec fn export_defaults() -> Seq<FieldView> {
    seq![FieldView { name: "export_path"@, value: ValueView::Null }]
}

impl Default for ExportConfig {
    /// The export settings with every documented default.
    fn default() -> (config: ExportConfig)
        ensures
            config.spec_fields() == export_defaults(),
    {
        let config = ExportConfig { export_path: None };
        assert(config.spec_fields() =~= export_defaults());
        config
    }
}

impl ExportConfig {
    /// The settings as named values, in declared order.
    pub open spec fn spec_fields(self) -> Seq<FieldView> {
        seq![FieldView { name: "export_path"@, value: str_value(self.export_path.deep_view()) }]
    }

    /// The settings as named values, in declared order.
    pub fn fields(&self) -> (fields: Vec<Field>)
        ensures
            fields.deep_view() == self.spec_fields(),
    {
        let mut fields: Vec<Field> = Vec::new();
        fields.push(Field::new("export_path", Value::of_str(&self.export_path)));
        assert(fields.deep_view() =~= self.spec_fields());
        fields
    }

    /// These settings with every missing one taken from the documented
    /// defaults.
    pub fn resolved(&self) -> (config: ExportConfig)
        ensures
            config.spec_fields() == resolve_fields(self.spec_fields(), export_defaults()),
    {
        let config = ExportConfig { export_path: self.export_path.copy() };
        assert(config.spec_fields() =~= resolve_fields(self.spec_fields(), export_defaults()));
        config
    }
}

/// The fields of a section that the document leaves out altogether: every
/// field of `defaults`, without a value.
pub open spec fn unset_fields(defaults: Seq<FieldView>) -> Seq<FieldView> {
    Seq::new(defaults.len(), |i: int| FieldView { name: defaults[i].name, value: ValueView::Null })
}

/// A section that is left out resolves to its defaults.
pub proof fn lemma_unset_resolves_to_defaults(defaults: Seq<FieldView>)
    ensures
        resolve_fields(unset_fields(defaults), defaults) == defaults,
{
    assert(resolve_fields(unset_fields(defaults), defaults) =~= defaults);
}

/// A configuration document: the four sections `config`, `load`, `build` and
/// `export`, each of which may be missing.
#[derive(Clone, Debug, PartialEq)]
pub struct Document {
    pub config: Option<ConfigDocument>,
    pub load: Option<LoadDocument>,
    pub build: Option<BuildConfig>,
    pub export: Option<ExportConfig>,
}

/// A configuration: the four sections, resolved.
#[derive(Clone, Debug, PartialEq)]
pub struct Configuration {
    pub config: ConfigConfig,
    pub load: LoadConfig,
    pub build: BuildConfig,
    pub export: ExportConfig,
}

impl Document {
    /// What the document gives for the general settings.
    pub open spec fn config_fields(self) -> Seq<FieldView> {
        match self.config {
            Some(section) => section.spec_fields(),
            None => unset_fields(config_defaults()),
        }
    }

    /// What the document gives for the load section.
    pub open spec fn load_fields(self) -> Seq<FieldView> {
        match self.load {
            Some(section) => section.spec_fields(),
            None => unset_fields(onnx_defaults()),
        }
    }

    /// What the document gives for the build settings.
    pub open spec fn build_fields(self) -> Seq<FieldView> {
        match self.build {
            Some(section) => section.spec_fields(),
            None => unset_fields(build_defaults()),
        }
    }

    /// What the document gives for the export settings.
    pub open spec fn export_fields(self) -> Seq<FieldView> {
        match self.export {
            Some(section) => section.spec_fields(),
            None => unset_fields(export_defaults()),
        }
    }

    /// Whether every setting that the document gives satisfies its
    /// validator.
    pub open spec fn valid(self) -> bool {
        self.config matches Some(section) ==> section.valid()
    }

    /// Whether the document gives the path of the model to load.
    pub open spec fn gives_model(self) -> bool {
        self.load matches Some(section) && section.gives_model()
    }

    /// Whether the document gives exactly what `configuration` holds,
    /// section by section and field by field, and a model path exactly where
    /// one was given.
    pub open spec fn writes(self, configuration: Configuration) -> bool {
        &&& self.config_fields() == configuration.config.spec_fields()
        &&& self.load_fields() == configuration.load.written_fields()
        &&& self.build_fields() == configuration.build.spec_fields()
        &&& self.export_fields() == configuration.export.spec_fields()
        &&& self.gives_model() == configuration.load.model_given()
    }

    /// Every failure of the document, in the order of the settings.
    pub open spec fn spec_failures(self) -> Seq<FailureView> {
        match self.config {
            Some(section) => section.spec_failures(),
            None => Seq::empty(),
        }
    }
}

impl Default for Configuration {
    /// The configuration with every documented default.  It serves for
    /// comparison; it names no model of its own and cannot be run.
    fn default() -> (configuration: Configuration)
        ensures
            configuration.config.spec_fields() == config_defaults(),
            configuration.load.spec_fields() == onnx_defaults(),
            configuration.build.spec_fields() == build_defaults(),
            configuration.export.spec_fields() == export_defaults(),
            configuration.valid(),
            !configuration.load.model_given(),
            !configuration.runnable(),
    {
        Configuration {
            config: ConfigConfig::default(),
            load: LoadConfig::default(),
            build: BuildConfig::default(),
            export: ExportConfig::default(),
        }
    }
}

impl Configuration {
    /// Whether the configuration is usable: every general setting satisfies
    /// its validator.
    pub open spec fn valid(self) -> bool {
        self.config.valid()
    }

    /// Whether the configuration can be run: it is usable, and the document
    /// gave the path of the model to load.  The default of the model path is
    /// there to compare with, never to be loaded.
    pub open spec fn runnable(self) -> bool {
        self.valid() && self.load.model_given()
    }

    /// Everything that keeps the configuration from being run, in the order
    /// of the settings: the failures of the general settings, then the
    /// missing model path.
    pub open spec fn run_failures(self) -> Seq<FailureView> {
        self.config.spec_failures() + failure_if(
            !self.load.model_given(),
            "model"@,
            FailureKind::Missing,
        )
    }

    /// Judges whether the configuration can be run, and collects everything
    /// that keeps it from being run: every general setting that breaks its
    /// rule, and the model path where the document gave none.
    pub fn check_runnable(&self) -> (failures: Vec<ValidationFailure>)
        ensures
            failures.deep_view() == self.run_failures(),
            failures.len() == 0 <==> self.runnable(),
    {
        let mut failures = self.config.validate();
        let ghost general = failures.deep_view();
        let given = if self.load.has_model() {
            Ok(())
        } else {
            Err(FailureKind::Missing)
        };
        note_failure(&mut failures, "model", given);
        assert(failures.deep_view() =~= self.run_failures());
        assert(failures.deep_view().len() == failures.len());
        assert(general.len() == 0 <==> self.valid());
        failures
    }

    /// Whether the configuration is `document` resolved: every field of
    /// every section is the document's where the document gives it and the
    /// documented default where it does not, and the model path counts as
    /// given exactly where the document gives it.
    pub open spec fn resolves(self, document: Document) -> bool {
        &&& self.config.spec_fields() == resolve_fields(
            document.config_fields(),
            config_defaults(),
        )
        &&& self.load.spec_fields() == resolve_fields(document.load_fields(), onnx_defaults())
        &&& self.build.spec_fields() == resolve_fields(document.build_fields(), build_defaults())
        &&& self.export.spec_fields() == resolve_fields(
            document.export_fields(),
            export_defaults(),
        )
        &&& self.load.model_given() == document.gives_model()
    }

    /// Builds a configuration from a document.
    ///
    /// Every setting that the document gives is validated; if any fails, all
    /// the failures are returned and no configuration.  Otherwise every
    /// setting of every section is the document's where the document gives
    /// it and the documented default where it does not, a missing section
    /// counting as one that gives nothing.
    ///
    /// A document that gives no model path still resolves, so that it can be
    /// explained; the configuration records that the path is missing and
    /// cannot be run.
    pub fn from_document(document: &Document) -> (result: Result<
        Configuration,
        Vec<ValidationFailure>,
    >)
        ensures
            match result {
                Ok(configuration) => {
                    &&& document.valid()
                    &&& configuration.valid()
                    &&& configuration.resolves(*document)
                    &&& configuration.runnable() == document.gives_model()
                },
                Err(failures) => {
                    &&& !document.valid()
                    &&& failures.len() > 0
                    &&& failures.deep_view() == document.spec_failures()
                },
            },
    {
        proof {
            lemma_unset_resolves_to_defaults(config_defaults());
            lemma_unset_resolves_to_defaults(onnx_defaults());
            lemma_unset_resolves_to_defaults(build_defaults());
            lemma_unset_resolves_to_defaults(export_defaults());
        }
        let config = match &document.config {
            Some(section) => match ConfigConfig::from_document(section) {
                Ok(config) => config,
                Err(failures) => {
                    return Err(failures);
                },
            },
            None => ConfigConfig::default(),
        };
        let load = match &document.load {
            Some(section) => LoadConfig::from_document(section),
            None => LoadConfig::default(),
        };
        let build = match &document.build {
            Some(section) => section.resolved(),
            None => BuildConfig::default(),
        };
        let export = match &document.export {
            Some(section) => section.resolved(),
            None => ExportConfig::default(),
        };
        Ok(Configuration { config, load, build, export })
    }

    /// The configuration written back as a document that gives every setting
    /// that has a value, but the model path only where it was given.
    pub fn to_document(&self) -> (document: Document)
        ensures
            document.writes(*self),
            document.valid() == self.valid(),
    {
        let build = BuildConfig {
            do_quantization: self.build.do_quantization,
            dataset: self.build.dataset.copy(),
            rknn_batch_size: self.build.rknn_batch_size,
            auto_hybrid: self.build.auto_hybrid,
        };
        let export = ExportConfig { export_path: self.export.export_path.copy() };
        assert(build.spec_fields() =~= self.build.spec_fields());
        assert(export.spec_fields() =~= self.export.spec_fields());
        Document {
            config: Some(self.config.to_document()),
            load: Some(self.load.to_document()),
            build: Some(build),
            export: Some(export),
        }
    }
}

/// Defaulting is idempotent: a configuration that was resolved from a
/// document, written back and resolved again is the same configuration,
/// field by field.
pub proof fn lemma_resolving_again_changes_nothing(
    document: Document,
    first: Configuration,
    written: Document,
    second: Configuration,
)
    requires
        first.resolves(document),
        written.writes(first),
        second.resolves(written),
    ensures
        second.config.spec_fields() == first.config.spec_fields(),
        second.load.spec_fields() == first.load.spec_fields(),
        second.build.spec_fields() == first.build.spec_fields(),
        second.export.spec_fields() == first.export.spec_fields(),
        second.load.model_given() == first.load.model_given(),
{
    lemma_resolve_idempotent(document.config_fields(), config_defaults());
    lemma_resolve_idempotent(document.load_fields(), onnx_defaults());
    lemma_resolve_idempotent(document.build_fields(), build_defaults());
    lemma_resolve_idempotent(document.export_fields(), export_defaults());
    lemma_model_given_shows(document);
    let given = document.load_fields();
    let back = written.load_fields();
    assert(back.len() == given.len());
    assert forall|i: int| 0 <= i < back.len() implies resolve_fields(back, onnx_defaults())[i]
        == first.load.spec_fields()[i] by {
        if i == 0 && !first.load.model_given() {
            assert(given[0].value is Null);
            assert(given[0].name == "model"@);
        } else {
            assert(back[i] == first.load.spec_fields()[i]);
        }
    }
    assert(resolve_fields(back, onnx_defaults()) =~= first.load.spec_fields());
}

/// A document gives the model path exactly when the first field of its load
/// section, which is the model path, has a value.
pub proof fn lemma_model_given_shows(document: Document)
    ensures
        document.load_fields().len() == 5,
        document.load_fields()[0].name == "model"@,
        document.gives_model() == !(document.load_fields()[0].value is Null),
{
}

/// Round trip: when a document is resolved and the configuration is written
/// back, every field that the document sets comes back as it was set, and
/// the model path comes back exactly where the document gave it.
pub proof fn lemma_round_trip_keeps_what_was_set(
    document: Document,
    configuration: Configuration,
    written: Document,
)
    requires
        configuration.resolves(document),
        written.writes(configuration),
    ensures
        written.gives_model() == document.gives_model(),
        forall|i: int|
            0 <= i < document.config_fields().len() && !(document.config_fields()[i].value is Null)
                ==> #[trigger] written.config_fields()[i] == document.config_fields()[i],
        forall|i: int|
            0 <= i < document.load_fields().len() && !(document.load_fields()[i].value is Null)
                ==> #[trigger] written.load_fields()[i] == document.load_fields()[i],
        forall|i: int|
            0 <= i < document.build_fields().len() && !(document.build_fields()[i].value is Null)
                ==> #[trigger] written.build_fields()[i] == document.build_fields()[i],
        forall|i: int|
            0 <= i < document.export_fields().len() && !(document.export_fields()[i].value is Null)
                ==> #[trigger] written.export_fields()[i] == document.export_fields()[i],
{
    lemma_resolve_keeps_set(document.config_fields(), config_defaults());
    lemma_resolve_keeps_set(document.load_fields(), onnx_defaults());
    lemma_resolve_keeps_set(document.build_fields(), build_defaults());
    lemma_resolve_keeps_set(document.export_fields(), export_defaults());
}

} // verus!
