//! Marshalling and reporting for the four-section document.
use crate::arrays::ArrayResolution;
use crate::configuration::structs::{
    build_defaults, config_defaults, export_defaults, onnx_defaults, BuildConfig, ConfigConfig,
    Configuration, ExportConfig, LoadConfig, OnnxLoadConfig,
};
use crate::configuration::{marshal_onnx, onnx_fields, resolved_arrays, same_error, MarshalError};
use crate::payload::{
    is_mapping, lemma_all_set_marshals_all, lemma_nothing_set_marshals_empty,
    lemma_present_concat, lemma_present_is_mapping, marshal, present, PyDict,
};
use crate::section::{add_section, declares, section_text, spec_rows, FieldDoc, FieldDocView};
use crate::value::{lemma_named_alike, mark, names_distinct, FieldView, ValueView};
use vstd::prelude::*;

verus! {

/// The declared fields of the general settings.
pub open spec fn config_schema() -> Seq<FieldDocView> {
    seq![
        FieldDocView { name: "mean_values"@, description: "Mean values for normalization."@ },
        FieldDocView {
            name: "std_values"@,
            description: "Standard deviation values for normalization."@,
        },
        FieldDocView {
            name: "quantized_dtype"@,
            description: "Quantized dtype. [asymmetric_quantized-8]"@,
        },
        FieldDocView {
            name: "quantized_algorithm"@,
            description: "Quantized algorithm. [normal, mmse, kl_divergence, gdq]"@,
        },
        FieldDocView {
            name: "quantized_method"@,
            description: "Quantized method. [channel, group, layers]"@,
        },
        FieldDocView {
            name: "target_platform"@,
            description: "target platform [rk3588, rk3576, rk3568, rk3562, rk2118, rv1126B, rv1106, ...]"@,
        },
        FieldDocView {
            name: "quant_img_RGB2BGR"@,
            description: "BGR channel order instead of RGB"@,
        },
        FieldDocView {
            name: "float_dtype"@,
            description: "float_dtype [float16, float32, bfloat16]"@,
        },
        FieldDocView {
            name: "optimization_level"@,
            description: "Optimization level [0, 1, 2, 3]"@,
        },
        FieldDocView {
            name: "custom_string"@,
            description: "A custom string to add to the model."@,
        },
        FieldDocView {
            name: "remove_weight"@,
            description: "Remove the weights from the model."@,
        },
        FieldDocView { name: "compress_weight"@, description: "Compress the model weights."@ },
        FieldDocView { name: "inputs_yuv_fmt"@, description: "Input YUV format."@ },
        FieldDocView { name: "single_core_mode"@, description: "Single core mode."@ },
    ]
}

/// The declared fields of the ONNX load section.
pub open spec fn onnx_schema() -> Seq<FieldDocView> {
    seq![
        FieldDocView { name: "model"@, description: "Path to the ONNX model file"@ },
        FieldDocView {
            name: "inputs"@,
            description: "Optional list of input names (e.g. [\"input0\"])"@,
        },
        FieldDocView {
            name: "input_size_list"@,
            description: "Optional shape list matching each input (e.g. [[1, 3, 224, 224]])"@,
        },
        FieldDocView {
            name: "input_initial_val_file"@,
            description: "Path to a `.npy` or `.npz` file containing a list of NumPy arrays"@,
        },
        FieldDocView { name: "outputs"@, description: "Optional list of output names"@ },
    ]
}

/// The declared fields of the build settings.
pub open spec fn build_schema() -> Seq<FieldDocView> {
    seq![
        FieldDocView {
            name: "do_quantization"@,
            description: "Whether to quantize the model (default: true)"@,
        },
        FieldDocView {
            name: "dataset"@,
            description: "Path to dataset file for quantization (default: None)"@,
        },
        FieldDocView {
            name: "rknn_batch_size"@,
            description: "Batch size for inference (default: None)"@,
        },
        FieldDocView {
            name: "auto_hybrid"@,
            description: "Enable automatic hybrid quantization (default: false)"@,
        },
    ]
}

/// The declared fields of the export settings.
pub open spec fn export_schema() -> Seq<FieldDocView> {
    seq![FieldDocView { name: "export_path"@, description: ""@ }]
}

impl ConfigConfig {
    /// The declared fields of the general settings, in declared order.
    pub fn schema() -> (schema: Vec<FieldDoc>)
        ensures
            schema.deep_view() == config_schema(),
    {
        let mut schema: Vec<FieldDoc> = Vec::new();
        schema.push(FieldDoc::new("mean_values", "Mean values for normalization."));
        schema.push(FieldDoc::new("std_values", "Standard deviation values for normalization."));
        schema.push(FieldDoc::new("quantized_dtype", "Quantized dtype. [asymmetric_quantized-8]"));
        schema.push(
            FieldDoc::new(
                "quantized_algorithm",
                "Quantized algorithm. [normal, mmse, kl_divergence, gdq]",
            ),
        );
        schema.push(
            FieldDoc::new("quantized_method", "Quantized method. [channel, group, layers]"),
        );
        schema.push(
            FieldDoc::new(
                "target_platform",
                "target platform [rk3588, rk3576, rk3568, rk3562, rk2118, rv1126B, rv1106, ...]",
            ),
        );
        schema.push(FieldDoc::new("quant_img_RGB2BGR", "BGR channel order instead of RGB"));
        schema.push(FieldDoc::new("float_dtype", "float_dtype [float16, float32, bfloat16]"));
        schema.push(FieldDoc::new("optimization_level", "Optimization level [0, 1, 2, 3]"));
        schema.push(FieldDoc::new("custom_string", "A custom string to add to the model."));
        schema.push(FieldDoc::new("remove_weight", "Remove the weights from the model."));
        schema.push(FieldDoc::new("compress_weight", "Compress the model weights."));
        schema.push(FieldDoc::new("inputs_yuv_fmt", "Input YUV format."));
        schema.push(FieldDoc::new("single_core_mode", "Single core mode."));
        assert(schema.deep_view() =~= config_schema());
        schema
    }

    /// Whether none of the settings that may be left out has a value.
    pub open spec fn is_unset(self) -> bool {
        &&& self.mean_values is None
        &&& self.std_values is None
        &&& self.target_platform is None
        &&& self.quant_img_RGB2BGR is None
        &&& self.float_dtype is None
        &&& self.custom_string is None
        &&& self.remove_weight is None
        &&& self.compress_weight is None
        &&& self.inputs_yuv_fmt is None
        &&& self.single_core_mode is None
    }

    /// The four settings that always have a value, as the payload holds
    /// them.
    pub open spec fn required_fields(self) -> Seq<FieldView> {
        seq![
            FieldView { name: "quantized_dtype"@, value: ValueView::Str(self.quantized_dtype@) },
            FieldView {
                name: "quantized_algorithm"@,
                value: ValueView::Str(self.quantized_algorithm@),
            },
            FieldView { name: "quantized_method"@, value: ValueView::Str(self.quantized_method@) },
            FieldView {
                name: "optimization_level"@,
                value: ValueView::Int(self.optimization_level as int),
            },
        ]
    }

    /// The keyword payload of the `config` call: one key for each setting
    /// that has a value, in declared order, and none for a setting without
    /// one.  The four settings that always have a value are always passed,
    /// and they are all that is passed when nothing else has a value.
    pub fn to_pydict(&self) -> (dict: PyDict)
        ensures
            dict@ == present(self.spec_fields()),
            is_mapping(dict@),
            self.is_unset() ==> dict@ == self.required_fields(),
    {
        let dict = marshal(&self.fields());
        proof {
            lemma_config_schema_sound();
            lemma_named_alike(self.spec_fields(), config_defaults());
            lemma_present_is_mapping(self.spec_fields());
            if self.is_unset() {
                let fields = self.spec_fields();
                let required = self.required_fields();
                let head = fields.take(2);
                let algorithm = fields.subrange(2, 5);
                let middle = fields.subrange(5, 8);
                let level = fields.subrange(8, 9);
                let tail = fields.skip(9);
                assert(fields =~= head + algorithm + middle + level + tail);
                lemma_present_concat(head + algorithm + middle + level, tail);
                lemma_present_concat(head + algorithm + middle, level);
                lemma_present_concat(head + algorithm, middle);
                lemma_present_concat(head, algorithm);
                lemma_nothing_set_marshals_empty(head);
                lemma_nothing_set_marshals_empty(middle);
                lemma_nothing_set_marshals_empty(tail);
                lemma_all_set_marshals_all(algorithm);
                lemma_all_set_marshals_all(level);
                assert(present(fields) =~= required);
            }
        }
        dict
    }
}

impl OnnxLoadConfig {
    /// Whether nothing but the model path is given.
    pub open spec fn is_unset(self) -> bool {
        &&& self.inputs is None
        &&& self.outputs is None
        &&& self.input_size_list is None
        &&& self.input_initial_val_file is None
    }

    /// The declared fields of the ONNX load section, in declared order.
    pub fn schema() -> (schema: Vec<FieldDoc>)
        ensures
            schema.deep_view() == onnx_schema(),
    {
        let mut schema: Vec<FieldDoc> = Vec::new();
        schema.push(FieldDoc::new("model", "Path to the ONNX model file"));
        schema.push(FieldDoc::new("inputs", "Optional list of input names (e.g. [\"input0\"])"));
        schema.push(
            FieldDoc::new(
                "input_size_list",
                "Optional shape list matching each input (e.g. [[1, 3, 224, 224]])",
            ),
        );
        schema.push(
            FieldDoc::new(
                "input_initial_val_file",
                "Path to a `.npy` or `.npz` file containing a list of NumPy arrays",
            ),
        );
        schema.push(FieldDoc::new("outputs", "Optional list of output names"));
        assert(schema.deep_view() =~= onnx_schema());
        schema
    }

    /// The keyword payload of the `load_onnx` call; see [`marshal_onnx`].
    /// The model path is the positional argument of the call and has no
    /// key.
    pub fn to_pydict(&self, arrays: &ArrayResolution) -> (result: Result<PyDict, MarshalError>)
        ensures
            match resolved_arrays(self.input_initial_val_file, *arrays) {
                Ok(value) => result matches Ok(dict) && dict@ == present(
                    onnx_fields(
                        self.inputs.deep_view(),
                        self.outputs.deep_view(),
                        self.input_size_list.deep_view(),
                        value,
                    ),
                ),
                Err(error) => result matches Err(found) && same_error(found, error),
            },
            result matches Ok(dict) ==> is_mapping(dict@),
            self.is_unset() ==> (result matches Ok(dict) && dict@.len() == 0),
    {
        marshal_onnx(
            &self.inputs,
            &self.outputs,
            &self.input_size_list,
            &self.input_initial_val_file,
            arrays,
        )
    }
}

impl BuildConfig {
    /// The declared fields of the build settings, in declared order.
    pub fn schema() -> (schema: Vec<FieldDoc>)
        ensures
            schema.deep_view() == build_schema(),
    {
        let mut schema: Vec<FieldDoc> = Vec::new();
        schema.push(
            FieldDoc::new("do_quantization", "Whether to quantize the model (default: true)"),
        );
        schema.push(
            FieldDoc::new("dataset", "Path to dataset file for quantization (default: None)"),
        );
        schema.push(FieldDoc::new("rknn_batch_size", "Batch size for inference (default: None)"));
        schema.push(
            FieldDoc::new("auto_hybrid", "Enable automatic hybrid quantization (default: false)"),
        );
        assert(schema.deep_view() =~= build_schema());
        schema
    }

    /// The keyword payload of the `build` call: one key for each setting
    /// that has a value, in declared order, and none for a setting without
    /// one.
    pub fn to_pydict(&self) -> (dict: PyDict)
        ensures
            dict@ == present(self.spec_fields()),
            is_mapping(dict@),
            self.is_unset() ==> dict@.len() == 0,
    {
        let dict = marshal(&self.fields());
        proof {
            lemma_build_schema_sound();
            lemma_named_alike(self.spec_fields(), build_defaults());
            lemma_present_is_mapping(self.spec_fields());
            if self.is_unset() {
                lemma_nothing_set_marshals_empty(self.spec_fields());
            }
        }
        dict
    }
}

impl ExportConfig {
    /// The declared fields of the export settings.
    pub fn schema() -> (schema: Vec<FieldDoc>)
        ensures
            schema.deep_view() == export_schema(),
    {
        let mut schema: Vec<FieldDoc> = Vec::new();
        schema.push(FieldDoc::new("export_path", ""));
        assert(schema.deep_view() =~= export_schema());
        schema
    }
}

impl Configuration {
    /// The report of the whole configuration in text: a heading, then the
    /// sections `config`, `load`, `build` and `export` in this order, each
    /// contrasted with its documented defaults.
    pub open spec fn spec_explain(self) -> Seq<char> {
        "\n[Configuration Summary]\n\n"@ + section_text(
            "config"@,
            spec_rows(config_schema(), self.config.spec_fields(), config_defaults()),
        ) + section_text(
            "load"@,
            spec_rows(onnx_schema(), self.load.spec_fields(), onnx_defaults()),
        ) + section_text(
            "build"@,
            spec_rows(build_schema(), self.build.spec_fields(), build_defaults()),
        ) + section_text(
            "export"@,
            spec_rows(export_schema(), self.export.spec_fields(), export_defaults()),
        )
    }

    /// Explains the configuration: for every known key its value, its
    /// default, whether the user set it, and what it is for.  Nothing is
    /// printed and nothing is called: the text is the result.
    pub fn explain(&self) -> (text: String)
        ensures
            text@ == self.spec_explain(),
    {
        let mut text = "\n[Configuration Summary]\n\n".to_owned();
        text.append(
            add_section(
                "config",
                &ConfigConfig::schema(),
                &self.config.fields(),
                &ConfigConfig::default().fields(),
            ).as_str(),
        );
        match &self.load {
            LoadConfig::Onnx(load) => {
                text.append(
                    add_section(
                        "load",
                        &OnnxLoadConfig::schema(),
                        &load.fields(),
                        &OnnxLoadConfig::default().fields(),
                    ).as_str(),
                );
            },
        }
        text.append(
            add_section(
                "build",
                &BuildConfig::schema(),
                &self.build.fields(),
                &BuildConfig::default().fields(),
            ).as_str(),
        );
        text.append(
            add_section(
                "export",
                &ExportConfig::schema(),
                &self.export.fields(),
                &ExportConfig::default().fields(),
            ).as_str(),
        );
        text
    }
}

/// The general settings are declared with distinct names, in the order of
/// their defaults.
pub proof fn lemma_config_schema_sound()
    ensures
        declares(config_schema(), config_defaults()),
        names_distinct(config_defaults()),
{
    reveal_strlit("mean_values");
    reveal_strlit("std_values");
    reveal_strlit("quantized_dtype");
    reveal_strlit("quantized_algorithm");
    reveal_strlit("quantized_method");
    reveal_strlit("target_platform");
    reveal_strlit("quant_img_RGB2BGR");
    reveal_strlit("float_dtype");
    reveal_strlit("optimization_level");
    reveal_strlit("custom_string");
    reveal_strlit("remove_weight");
    reveal_strlit("compress_weight");
    reveal_strlit("inputs_yuv_fmt");
    reveal_strlit("single_core_mode");
    let names = config_defaults();
    assert(mark(names[0].name) == (11nat, 'm'));
    assert(mark(names[1].name) == (10nat, 's'));
    assert(mark(names[2].name) == (15nat, 'q'));
    assert(mark(names[3].name) == (19nat, 'q'));
    assert(mark(names[4].name) == (16nat, 'q'));
    assert(mark(names[5].name) == (15nat, 't'));
    assert(mark(names[6].name) == (17nat, 'q'));
    assert(mark(names[7].name) == (11nat, 'f'));
    assert(mark(names[8].name) == (18nat, 'o'));
    assert(mark(names[9].name) == (13nat, 'c'));
    assert(mark(names[10].name) == (13nat, 'r'));
    assert(mark(names[11].name) == (15nat, 'c'));
    assert(mark(names[12].name) == (14nat, 'i'));
    assert(mark(names[13].name) == (16nat, 's'));
    assert forall|i: int, j: int| 0 <= i < j < names.len() implies names[i].name
        != names[j].name by {
        assert(mark(names[i].name) != mark(names[j].name));
    }
}

/// The ONNX load section is declared with distinct names, in the order of
/// its defaults.
pub proof fn lemma_onnx_schema_sound()
    ensures
        declares(onnx_schema(), onnx_defaults()),
        names_distinct(onnx_defaults()),
{
    reveal_strlit("model");
    reveal_strlit("inputs");
    reveal_strlit("input_size_list");
    reveal_strlit("input_initial_val_file");
    reveal_strlit("outputs");
    let names = onnx_defaults();
    assert(mark(names[0].name) == (5nat, 'm'));
    assert(mark(names[1].name) == (6nat, 'i'));
    assert(mark(names[2].name) == (15nat, 'i'));
    assert(mark(names[3].name) == (22nat, 'i'));
    assert(mark(names[4].name) == (7nat, 'o'));
    assert forall|i: int, j: int| 0 <= i < j < names.len() implies names[i].name
        != names[j].name by {
        assert(mark(names[i].name) != mark(names[j].name));
    }
}

/// The build settings are declared with distinct names, in the order of
/// their defaults.
pub proof fn lemma_build_schema_sound()
    ensures
        declares(build_schema(), build_defaults()),
        names_distinct(build_defaults()),
{
    reveal_strlit("do_quantization");
    reveal_strlit("dataset");
    reveal_strlit("rknn_batch_size");
    reveal_strlit("auto_hybrid");
    let names = build_defaults();
    assert(mark(names[0].name) == (15nat, 'd'));
    assert(mark(names[1].name) == (7nat, 'd'));
    assert(mark(names[2].name) == (15nat, 'r'));
    assert(mark(names[3].name) == (11nat, 'a'));
    assert forall|i: int, j: int| 0 <= i < j < names.len() implies names[i].name
        != names[j].name by {
        assert(mark(names[i].name) != mark(names[j].name));
    }
}

/// The export settings are declared in the order of their defaults; there
/// is one.
pub proof fn lemma_export_schema_sound()
    ensures
        declares(export_schema(), export_defaults()),
        names_distinct(export_defaults()),
{
}

} // verus!
