use rknn_convert::arrays::{
    ArrayFile, ArrayFileError, ArrayFileErrorKind, ArrayResolution, NamedArray,
};
use rknn_convert::configuration::structs::{BuildConfig, ConfigConfig, OnnxLoadConfig};
use rknn_convert::configuration::{marshal_onnx, Config, MarshalError, OnnxLoading};
use rknn_convert::payload::{marshal, PyDict};
use rknn_convert::value::{ArrayHandle, Decimal, Field, Value};

fn text(s: &str) -> Option<String> {
    Some(s.to_string())
}

fn number(s: &str) -> Decimal {
    Decimal { text: s.to_string() }
}

fn keys(dict: &PyDict) -> Vec<String> {
    dict.entries.iter().map(|entry| entry.name.clone()).collect()
}

fn bare_onnx() -> OnnxLoadConfig {
    OnnxLoadConfig {
        model: "net.onnx".to_string(),
        model_given: true,
        inputs: None,
        input_size_list: None,
        input_initial_val_file: None,
        outputs: None,
    }
}

fn bare_build() -> BuildConfig {
    BuildConfig { do_quantization: None, dataset: None, rknn_batch_size: None, auto_hybrid: None }
}

#[test]
fn marshal_drops_fields_without_a_value() {
    let fields = vec![
        Field::new("a", Value::Null),
        Field::new("b", Value::Int(2)),
        Field::new("c", Value::Null),
        Field::new("d", Value::Str("x".to_string())),
    ];
    let dict = marshal(&fields);
    assert_eq!(dict.len(), 2);
    assert_eq!(
        dict.entries,
        vec![Field::new("b", Value::Int(2)), Field::new("d", Value::Str("x".to_string()))]
    );
}

#[test]
fn marshal_of_nothing_is_empty() {
    assert_eq!(marshal(&vec![]).len(), 0);
    assert_eq!(marshal(&vec![Field::new("a", Value::Null)]).len(), 0);
    assert_eq!(PyDict::new().len(), 0);
}

#[test]
fn dict_get_finds_the_value_under_a_key() {
    let dict = marshal(&vec![
        Field::new("a", Value::Bool(true)),
        Field::new("b", Value::Int(2)),
    ]);
    assert_eq!(dict.get("b"), Some(&Value::Int(2)));
    assert_eq!(dict.get("a"), Some(&Value::Bool(true)));
    assert_eq!(dict.get("c"), None);
    assert_eq!(dict.get(""), None);
}

#[test]
fn unset_extended_settings_marshal_to_no_key() {
    let dict = Config::empty().to_pydict();
    assert_eq!(dict.len(), 0);
    assert!(dict.entries.is_empty());
}

#[test]
fn unset_load_section_marshals_to_no_key() {
    let dict = bare_onnx().to_pydict(&ArrayResolution::NotLoaded).unwrap();
    assert_eq!(dict.len(), 0);
    let extended = OnnxLoading {
        model: "net.onnx".to_string(),
        inputs: None,
        input_size_list: None,
        input_initial_val_file: None,
        outputs: None,
    };
    assert_eq!(extended.to_pydict(&ArrayResolution::NotLoaded).unwrap().len(), 0);
}

#[test]
fn unset_build_settings_marshal_to_no_key() {
    assert_eq!(bare_build().to_pydict().len(), 0);
}

#[test]
fn general_settings_always_pass_the_four_that_always_have_a_value() {
    let config = ConfigConfig {
        mean_values: None,
        std_values: None,
        quantized_dtype: "asymmetric_quantized-8".to_string(),
        quantized_algorithm: "mmse".to_string(),
        quantized_method: "layer".to_string(),
        target_platform: None,
        quant_img_RGB2BGR: None,
        float_dtype: None,
        optimization_level: 2,
        custom_string: None,
        remove_weight: None,
        compress_weight: None,
        inputs_yuv_fmt: None,
        single_core_mode: None,
    };
    let dict = config.to_pydict();
    assert_eq!(
        dict.entries,
        vec![
            Field::new("quantized_dtype", Value::Str("asymmetric_quantized-8".to_string())),
            Field::new("quantized_algorithm", Value::Str("mmse".to_string())),
            Field::new("quantized_method", Value::Str("layer".to_string())),
            Field::new("optimization_level", Value::Int(2)),
        ]
    );
}

#[test]
fn an_absent_target_platform_is_left_out_not_passed_as_nothing() {
    let dict = ConfigConfig::default().to_pydict();
    assert_eq!(dict.get("target_platform"), None);
    assert!(dict.entries.iter().all(|entry| entry.value != Value::Null));
    let mut config = ConfigConfig::default();
    config.target_platform = text("rk3588");
    assert_eq!(config.to_pydict().get("target_platform"), Some(&Value::Str("rk3588".to_string())));
}

#[test]
fn default_general_settings_marshal_in_declared_order() {
    let dict = ConfigConfig::default().to_pydict();
    assert_eq!(
        keys(&dict),
        vec![
            "quantized_dtype",
            "quantized_algorithm",
            "quantized_method",
            "quant_img_RGB2BGR",
            "float_dtype",
            "optimization_level",
            "remove_weight",
            "compress_weight",
            "single_core_mode",
        ]
    );
    assert_eq!(dict.get("optimization_level"), Some(&Value::Int(3)));
    assert_eq!(dict.get("quant_img_RGB2BGR"), Some(&Value::Bool(false)));
    assert_eq!(dict.get("float_dtype"), Some(&Value::Str("float16".to_string())));
}

#[test]
fn setting_one_field_adds_exactly_its_key() {
    let mut build = bare_build();
    build.dataset = text("data.txt");
    let dict = build.to_pydict();
    assert_eq!(dict.entries, vec![Field::new("dataset", Value::Str("data.txt".to_string()))]);

    let mut build = BuildConfig::default();
    let before = build.to_pydict();
    build.rknn_batch_size = Some(8);
    let after = build.to_pydict();
    assert_eq!(keys(&before), vec!["do_quantization", "auto_hybrid"]);
    assert_eq!(keys(&after), vec!["do_quantization", "rknn_batch_size", "auto_hybrid"]);
    assert_eq!(after.get("rknn_batch_size"), Some(&Value::Int(8)));
    assert_eq!(after.get("do_quantization"), before.get("do_quantization"));
    assert_eq!(after.get("auto_hybrid"), before.get("auto_hybrid"));
}

#[test]
fn every_extended_setting_marshals_under_its_own_name() {
    let mut config = Config::empty();
    config.mean_values = Some(vec![number("123.675"), number("116.28"), number("103.53")]);
    config.std_values = Some(vec![number("58.395")]);
    config.quantized_dtype = text("w8a8");
    config.quantized_algorithm = text("kl_divergence");
    config.quantized_method = text("channel");
    config.target_platform = text("rk3588");
    config.quant_img_RGB2BGR = Some(true);
    config.float_dtype = text("float16");
    config.optimization_level = Some(1);
    config.custom_string = text("v1");
    config.remove_weight = Some(false);
    config.compress_weight = Some(true);
    config.inputs_yuv_fmt = text("nv12");
    config.single_core_mode = Some(true);
    config.model_pruning = Some(false);
    config.op_target = Some(vec![("Conv".to_string(), "npu".to_string())]);
    config.dynamic_input = Some(vec![vec![vec![1, 3, 224, 224]], vec![vec![1, 3, 448, 448]]]);
    config.quantize_weight = Some(true);
    config.remove_reshape = Some(false);
    config.sparse_infer = Some(true);
    config.enable_flash_attention = Some(false);
    config.auto_hybrid_cos_thresh = Some(number("0.98"));
    config.auto_hybrid_euc_thresh = Some(number("0.5"));
    let dict = config.to_pydict();
    assert_eq!(dict.len(), 23);
    assert_eq!(
        dict.get("mean_values"),
        Some(&Value::FloatList(vec![number("123.675"), number("116.28"), number("103.53")]))
    );
    assert_eq!(dict.get("optimization_level"), Some(&Value::Int(1)));
    assert_eq!(dict.get("quant_img_RGB2BGR"), Some(&Value::Bool(true)));
    assert_eq!(dict.get("auto_hybrid_cos_thresh"), Some(&Value::Float(number("0.98"))));
    assert_eq!(
        dict.get("op_target"),
        Some(&Value::StrMap(vec![("Conv".to_string(), "npu".to_string())]))
    );
    assert_eq!(
        dict.get("dynamic_input"),
        Some(&Value::ShapeSets(vec![vec![vec![1, 3, 224, 224]], vec![vec![1, 3, 448, 448]]]))
    );
    assert_eq!(keys(&dict)[21], "op_target");
    assert_eq!(keys(&dict)[22], "dynamic_input");
}

#[test]
fn one_extended_setting_alone_is_the_whole_payload() {
    let mut config = Config::empty();
    config.sparse_infer = Some(true);
    assert_eq!(config.to_pydict().entries, vec![Field::new("sparse_infer", Value::Bool(true))]);
}

#[test]
fn load_section_marshals_lists_in_order_and_never_the_model() {
    let mut onnx = bare_onnx();
    onnx.inputs = Some(vec!["b".to_string(), "a".to_string()]);
    onnx.outputs = Some(vec!["out".to_string()]);
    onnx.input_size_list = Some(vec![vec![1, 3, 224, 224], vec![1, 10]]);
    let dict = onnx.to_pydict(&ArrayResolution::NotLoaded).unwrap();
    assert_eq!(keys(&dict), vec!["inputs", "outputs", "input_size_list"]);
    assert_eq!(dict.get("inputs"), Some(&Value::StrList(vec!["b".to_string(), "a".to_string()])));
    assert_eq!(
        dict.get("input_size_list"),
        Some(&Value::ShapeList(vec![vec![1, 3, 224, 224], vec![1, 10]]))
    );
    assert_eq!(dict.get("model"), None);
    assert_eq!(dict.get("input_initial_val_file"), None);
}

#[test]
fn a_single_array_file_becomes_a_list_of_one() {
    let file = ArrayFile::Single(ArrayHandle { id: 7 });
    assert_eq!(file.arrays(), vec![ArrayHandle { id: 7 }]);
    assert_eq!(file.to_value(), Value::Arrays(vec![ArrayHandle { id: 7 }]));
    let mut onnx = bare_onnx();
    onnx.input_initial_val_file = text("init.npy");
    let dict = onnx.to_pydict(&ArrayResolution::Loaded(file)).unwrap();
    assert_eq!(keys(&dict), vec!["input_initial_val"]);
    assert_eq!(dict.get("input_initial_val"), Some(&Value::Arrays(vec![ArrayHandle { id: 7 }])));
}

#[test]
fn an_archive_becomes_the_list_of_its_arrays_in_reported_order() {
    let file = ArrayFile::Archive(vec![
        NamedArray { name: "zeta".to_string(), array: ArrayHandle { id: 2 } },
        NamedArray { name: "alpha".to_string(), array: ArrayHandle { id: 1 } },
    ]);
    assert_eq!(file.arrays(), vec![ArrayHandle { id: 2 }, ArrayHandle { id: 1 }]);
    let mut onnx = bare_onnx();
    onnx.input_initial_val_file = text("init.npz");
    let dict = onnx.to_pydict(&ArrayResolution::Loaded(file)).unwrap();
    assert_eq!(
        dict.get("input_initial_val"),
        Some(&Value::Arrays(vec![ArrayHandle { id: 2 }, ArrayHandle { id: 1 }]))
    );
}

#[test]
fn an_empty_archive_becomes_an_empty_list() {
    let file = ArrayFile::Archive(vec![]);
    assert_eq!(file.arrays(), vec![]);
    let mut onnx = bare_onnx();
    onnx.input_initial_val_file = text("init.npz");
    let dict = onnx.to_pydict(&ArrayResolution::Loaded(file)).unwrap();
    assert_eq!(dict.get("input_initial_val"), Some(&Value::Arrays(vec![])));
}

#[test]
fn a_failed_load_fails_the_marshalling() {
    let mut onnx = bare_onnx();
    onnx.inputs = Some(vec!["a".to_string()]);
    onnx.input_initial_val_file = text("init.npy");
    let error =
        ArrayFileError { kind: ArrayFileErrorKind::NotFound, cause: "no such file".to_string() };
    let result = onnx.to_pydict(&ArrayResolution::Failed(error.clone()));
    assert_eq!(
        result,
        Err(MarshalError::ArrayFileFailed { path: "init.npy".to_string(), error })
    );
    assert_eq!(
        result.unwrap_err().message(),
        "array file init.npy: file not found: no such file"
    );
}

#[test]
fn every_kind_of_load_failure_is_described() {
    assert_eq!(ArrayFileErrorKind::NotFound.description(), "file not found");
    assert_eq!(ArrayFileErrorKind::UnsupportedFormat.description(), "unsupported format");
    assert_eq!(ArrayFileErrorKind::Corrupt.description(), "corrupt content");
    let error = MarshalError::ArrayFileFailed {
        path: "a.bin".to_string(),
        error: ArrayFileError {
            kind: ArrayFileErrorKind::UnsupportedFormat,
            cause: "pickle".to_string(),
        },
    };
    assert_eq!(error.message(), "array file a.bin: unsupported format: pickle");
    let error = MarshalError::ArrayFileFailed {
        path: "a.npz".to_string(),
        error: ArrayFileError { kind: ArrayFileErrorKind::Corrupt, cause: "bad zip".to_string() },
    };
    assert_eq!(error.message(), "array file a.npz: corrupt content: bad zip");
}

#[test]
fn a_named_array_file_that_was_not_loaded_fails_the_marshalling() {
    let mut onnx = bare_onnx();
    onnx.input_initial_val_file = text("init.npy");
    let result = onnx.to_pydict(&ArrayResolution::NotLoaded);
    assert_eq!(result, Err(MarshalError::ArrayFileNotLoaded { path: "init.npy".to_string() }));
    assert_eq!(result.unwrap_err().message(), "array file init.npy was not loaded");
}

#[test]
fn arrays_are_ignored_where_the_section_names_no_file() {
    let onnx = bare_onnx();
    let loaded = ArrayResolution::Loaded(ArrayFile::Single(ArrayHandle { id: 1 }));
    assert_eq!(onnx.to_pydict(&loaded).unwrap().len(), 0);
    let failed = ArrayResolution::Failed(ArrayFileError {
        kind: ArrayFileErrorKind::Corrupt,
        cause: String::new(),
    });
    assert_eq!(onnx.to_pydict(&failed).unwrap().len(), 0);
}

#[test]
fn both_generations_marshal_the_load_section_alike() {
    let inputs = Some(vec!["x".to_string()]);
    let sizes = Some(vec![vec![1usize, 2]]);
    let legacy = OnnxLoadConfig {
        model: "m.onnx".to_string(),
        model_given: true,
        inputs: inputs.clone(),
        input_size_list: sizes.clone(),
        input_initial_val_file: None,
        outputs: None,
    };
    let extended = OnnxLoading {
        model: "m.onnx".to_string(),
        inputs: inputs.clone(),
        input_size_list: sizes.clone(),
        input_initial_val_file: None,
        outputs: None,
    };
    let none = ArrayResolution::NotLoaded;
    assert_eq!(legacy.to_pydict(&none), extended.to_pydict(&none));
    assert_eq!(legacy.to_pydict(&none), marshal_onnx(&inputs, &None, &sizes, &None, &none));
}

#[test]
fn a_payload_holds_every_key_once_and_never_without_a_value() {
    let mut config = Config::empty();
    config.quantized_dtype = text("w8a8");
    config.model_pruning = Some(true);
    config.op_target = Some(vec![]);
    let mut onnx = bare_onnx();
    onnx.outputs = Some(vec![]);
    onnx.input_initial_val_file = text("a.npy");
    let loaded = ArrayResolution::Loaded(ArrayFile::Single(ArrayHandle { id: 3 }));
    for dict in [
        config.to_pydict(),
        ConfigConfig::default().to_pydict(),
        BuildConfig::default().to_pydict(),
        onnx.to_pydict(&loaded).unwrap(),
    ] {
        let names = keys(&dict);
        for (i, name) in names.iter().enumerate() {
            assert!(!names[i + 1..].contains(name));
        }
        assert!(dict.entries.iter().all(|entry| entry.value != Value::Null));
    }
    assert_eq!(keys(&config.to_pydict()), vec!["quantized_dtype", "model_pruning", "op_target"]);
    assert_eq!(keys(&onnx.to_pydict(&loaded).unwrap()), vec!["outputs", "input_initial_val"]);
}
