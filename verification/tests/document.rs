use rknn_convert::configuration::structs::{
    BuildConfig, ConfigConfig, ConfigDocument, Configuration, Document, ExportConfig, LoadConfig,
    LoadDocument, OnnxLoadConfig, OnnxLoadDocument,
};
use rknn_convert::plain::Plain;
use rknn_convert::validators::FailureKind;
use rknn_convert::value::{Decimal, Field, Value};

fn text(s: &str) -> Option<String> {
    Some(s.to_string())
}

fn empty_document() -> Document {
    Document { config: None, load: None, build: None, export: None }
}

#[test]
fn general_settings_have_their_documented_defaults() {
    let config = ConfigConfig::default();
    assert_eq!(config.mean_values, None);
    assert_eq!(config.std_values, None);
    assert_eq!(config.quantized_dtype, "asymmetric_quantized-8");
    assert_eq!(config.quantized_algorithm, "normal");
    assert_eq!(config.quantized_method, "channel");
    assert_eq!(config.target_platform, None);
    assert_eq!(config.quant_img_RGB2BGR, Some(false));
    assert_eq!(config.float_dtype, text("float16"));
    assert_eq!(config.optimization_level, 3);
    assert_eq!(config.custom_string, None);
    assert_eq!(config.remove_weight, Some(false));
    assert_eq!(config.compress_weight, Some(false));
    assert_eq!(config.inputs_yuv_fmt, None);
    assert_eq!(config.single_core_mode, Some(false));
    assert!(config.validate().is_empty());
}

#[test]
fn load_build_and_export_have_their_documented_defaults() {
    let onnx = OnnxLoadConfig::default();
    assert_eq!(onnx.model, "model.onnx");
    assert_eq!(onnx.inputs, None);
    assert_eq!(onnx.input_size_list, None);
    assert_eq!(onnx.input_initial_val_file, None);
    assert_eq!(onnx.outputs, None);
    assert_eq!(LoadConfig::default(), LoadConfig::Onnx(OnnxLoadConfig::default()));
    let build = BuildConfig::default();
    assert_eq!(build.do_quantization, Some(true));
    assert_eq!(build.dataset, None);
    assert_eq!(build.rknn_batch_size, None);
    assert_eq!(build.auto_hybrid, Some(false));
    assert_eq!(ExportConfig::default().export_path, None);
}

#[test]
fn sections_list_their_fields_in_declared_order() {
    let names = |fields: Vec<Field>| -> Vec<String> {
        fields.into_iter().map(|field| field.name).collect()
    };
    assert_eq!(
        names(ConfigConfig::default().fields()),
        vec![
            "mean_values",
            "std_values",
            "quantized_dtype",
            "quantized_algorithm",
            "quantized_method",
            "target_platform",
            "quant_img_RGB2BGR",
            "float_dtype",
            "optimization_level",
            "custom_string",
            "remove_weight",
            "compress_weight",
            "inputs_yuv_fmt",
            "single_core_mode",
        ]
    );
    assert_eq!(
        names(OnnxLoadConfig::default().fields()),
        vec!["model", "inputs", "input_size_list", "input_initial_val_file", "outputs"]
    );
    assert_eq!(
        names(BuildConfig::default().fields()),
        vec!["do_quantization", "dataset", "rknn_batch_size", "auto_hybrid"]
    );
    assert_eq!(names(ExportConfig::default().fields()), vec!["export_path"]);
    assert_eq!(
        BuildConfig::default().fields()[0],
        Field::new("do_quantization", Value::Bool(true))
    );
    assert_eq!(BuildConfig::default().fields()[1], Field::new("dataset", Value::Null));
}

#[test]
fn an_empty_document_resolves_to_the_defaults() {
    let configuration = Configuration::from_document(&empty_document()).unwrap();
    assert_eq!(configuration, Configuration::default());
    let sections = Document {
        config: Some(ConfigDocument::empty()),
        load: Some(LoadDocument::Onnx(OnnxLoadDocument {
            model: None,
            inputs: None,
            input_size_list: None,
            input_initial_val_file: None,
            outputs: None,
        })),
        build: Some(BuildConfig {
            do_quantization: None,
            dataset: None,
            rknn_batch_size: None,
            auto_hybrid: None,
        }),
        export: Some(ExportConfig { export_path: None }),
    };
    assert_eq!(Configuration::from_document(&sections).unwrap(), Configuration::default());
}

#[test]
fn what_the_document_sets_is_kept_and_the_rest_is_defaulted() {
    let mut config = ConfigDocument::empty();
    config.mean_values = Some(vec![Decimal { text: "0.5".to_string() }]);
    config.quantized_algorithm = text("mmse");
    config.quantized_method = text("group8");
    config.target_platform = text("rk3566");
    config.quant_img_RGB2BGR = Some(true);
    config.optimization_level = Some(0);
    config.compress_weight = Some(true);
    let document = Document {
        config: Some(config),
        load: Some(LoadDocument::Onnx(OnnxLoadDocument {
            model: text("yolo.onnx"),
            inputs: Some(vec!["images".to_string()]),
            input_size_list: Some(vec![vec![1, 3, 640, 640]]),
            input_initial_val_file: None,
            outputs: None,
        })),
        build: Some(BuildConfig {
            do_quantization: Some(false),
            dataset: text("calib.txt"),
            rknn_batch_size: Some(4),
            auto_hybrid: None,
        }),
        export: Some(ExportConfig { export_path: text("yolo.rknn") }),
    };
    let configuration = Configuration::from_document(&document).unwrap();
    let general = &configuration.config;
    assert_eq!(general.mean_values, Some(vec![Decimal { text: "0.5".to_string() }]));
    assert_eq!(general.std_values, None);
    assert_eq!(general.quantized_dtype, "asymmetric_quantized-8");
    assert_eq!(general.quantized_algorithm, "mmse");
    assert_eq!(general.quantized_method, "group8");
    assert_eq!(general.target_platform, text("rk3566"));
    assert_eq!(general.quant_img_RGB2BGR, Some(true));
    assert_eq!(general.float_dtype, text("float16"));
    assert_eq!(general.optimization_level, 0);
    assert_eq!(general.remove_weight, Some(false));
    assert_eq!(general.compress_weight, Some(true));
    assert_eq!(general.single_core_mode, Some(false));
    let LoadConfig::Onnx(onnx) = &configuration.load;
    assert_eq!(onnx.model, "yolo.onnx");
    assert_eq!(onnx.inputs, Some(vec!["images".to_string()]));
    assert_eq!(onnx.input_size_list, Some(vec![vec![1, 3, 640, 640]]));
    assert_eq!(onnx.outputs, None);
    assert_eq!(configuration.build.do_quantization, Some(false));
    assert_eq!(configuration.build.dataset, text("calib.txt"));
    assert_eq!(configuration.build.rknn_batch_size, Some(4));
    assert_eq!(configuration.build.auto_hybrid, Some(false));
    assert_eq!(configuration.export.export_path, text("yolo.rknn"));
}

#[test]
fn every_broken_setting_of_a_document_is_reported() {
    let mut config = ConfigDocument::empty();
    config.quantized_dtype = text("w8a8");
    config.quantized_method = text("row");
    config.target_platform = text("");
    config.optimization_level = Some(4);
    let document = Document { config: Some(config), load: None, build: None, export: None };
    let failures = Configuration::from_document(&document).unwrap_err();
    let found: Vec<(String, FailureKind)> =
        failures.iter().map(|f| (f.field.clone(), f.kind)).collect();
    assert_eq!(
        found,
        vec![
            ("quantized_dtype".to_string(), FailureKind::InvalidQuantizedDtype),
            ("quantized_method".to_string(), FailureKind::InvalidQuantizedMethod),
            ("target_platform".to_string(), FailureKind::Length),
            ("optimization_level".to_string(), FailureKind::Range),
        ]
    );
}

#[test]
fn a_negative_optimization_level_is_a_validation_failure() {
    let mut config = ConfigDocument::empty();
    config.optimization_level = Some(-1);
    let failures = ConfigConfig::from_document(&config).unwrap_err();
    assert_eq!(failures.len(), 1);
    assert_eq!(failures[0].field, "optimization_level");
    assert_eq!(failures[0].kind, FailureKind::Range);
    for level in 0..=3 {
        config.optimization_level = Some(level);
        assert_eq!(
            ConfigConfig::from_document(&config).unwrap().optimization_level as i64,
            level
        );
    }
}

#[test]
fn a_large_optimization_level_is_refused_not_truncated() {
    let mut config = ConfigDocument::empty();
    config.optimization_level = Some(256);
    assert!(ConfigConfig::from_document(&config).is_err());
    config.optimization_level = Some(259);
    assert!(ConfigConfig::from_document(&config).is_err());
}

#[test]
fn defaults_are_not_validated_but_are_valid() {
    let config = ConfigConfig::from_document(&ConfigDocument::empty()).unwrap();
    assert!(config.validate().is_empty());
    assert!(ConfigDocument::empty().validate().is_empty());
}

#[test]
fn resolved_settings_can_break_rules_only_when_built_by_hand() {
    let mut config = ConfigConfig::default();
    config.quantized_dtype = "w8a8".to_string();
    config.optimization_level = 7;
    let failures = config.validate();
    assert_eq!(failures.len(), 2);
    assert_eq!(failures[0].kind, FailureKind::InvalidQuantizedDtype);
    assert_eq!(failures[1].kind, FailureKind::Range);
}

#[test]
fn defaulting_again_changes_nothing() {
    let mut config = ConfigDocument::empty();
    config.quantized_method = text("layer");
    config.remove_weight = Some(true);
    let document = Document {
        config: Some(config),
        load: None,
        build: Some(BuildConfig {
            do_quantization: None,
            dataset: text("d.txt"),
            rknn_batch_size: None,
            auto_hybrid: Some(true),
        }),
        export: None,
    };
    let once = Configuration::from_document(&document).unwrap();
    let twice = Configuration::from_document(&once.to_document()).unwrap();
    assert_eq!(once, twice);
    let thrice = Configuration::from_document(&twice.to_document()).unwrap();
    assert_eq!(twice, thrice);
    let defaults = Configuration::default();
    assert_eq!(Configuration::from_document(&defaults.to_document()).unwrap(), defaults);
    assert_eq!(BuildConfig::default().resolved(), BuildConfig::default());
    assert_eq!(ExportConfig::default().resolved(), ExportConfig::default());
}

#[test]
fn writing_a_configuration_back_gives_every_value() {
    let configuration = Configuration::default();
    let document = configuration.to_document();
    let general = document.config.unwrap();
    assert_eq!(general.quantized_dtype, text("asymmetric_quantized-8"));
    assert_eq!(general.optimization_level, Some(3));
    assert_eq!(general.target_platform, None);
    assert_eq!(general.quant_img_RGB2BGR, Some(false));
    let Some(LoadDocument::Onnx(onnx)) = document.load else {
        panic!("the load section is written back");
    };
    assert_eq!(onnx.model, None);
    assert_eq!(document.build, Some(BuildConfig::default()));
    assert_eq!(document.export, Some(ExportConfig::default()));
}

#[test]
fn copies_are_the_same_and_differences_are_seen() {
    let a = Field::new("dataset", Value::Str("a.txt".to_string()));
    let b = a.copy();
    assert!(a.same(&b));
    assert_eq!(a, b);
    let c = Field::new("dataset", Value::Str("b.txt".to_string()));
    assert!(!a.same(&c));
    let d = Field::new("other", Value::Str("a.txt".to_string()));
    assert!(!a.same(&d));
    assert!(Value::Null.same(&Value::Null));
    assert!(!Value::Null.same(&Value::Bool(false)));
    assert!(!Value::Int(1).same(&Value::Int(2)));
    assert!(Value::ShapeList(vec![vec![1, 2], vec![]]).same(&Value::ShapeList(vec![vec![1, 2], vec![]])));
    assert!(!Value::ShapeList(vec![vec![1, 2]]).same(&Value::ShapeList(vec![vec![1], vec![2]])));
    assert!(!Value::StrList(vec!["a".to_string()]).same(&Value::StrList(vec![])));
    assert!(!Value::Str("1".to_string()).same(&Value::Int(1)));
    let list = vec![Some("x".to_string()), None];
    assert_eq!(list.copy(), list);
    assert!(list.same(&list.copy()));
}


#[test]
fn a_document_may_name_every_algorithm() {
    for algorithm in ["normal", "mmse", "kl_divergence", "gdq"] {
        let mut config = ConfigDocument::empty();
        config.quantized_algorithm = text(algorithm);
        assert_eq!(ConfigConfig::from_document(&config).unwrap().quantized_algorithm, algorithm);
    }
}

#[test]
fn whether_the_model_path_was_given_is_recorded() {
    let absent = OnnxLoadDocument {
        model: None,
        inputs: None,
        input_size_list: None,
        input_initial_val_file: None,
        outputs: None,
    };
    let resolved = OnnxLoadConfig::from_document(&absent);
    assert_eq!(resolved.model, "model.onnx");
    assert!(!resolved.model_given);
    assert_eq!(resolved, OnnxLoadConfig::default());
    let mut given = absent.clone();
    given.model = text("net.onnx");
    let resolved = OnnxLoadConfig::from_document(&given);
    assert_eq!(resolved.model, "net.onnx");
    assert!(resolved.model_given);
    assert!(!OnnxLoadConfig::default().model_given);
    assert!(!LoadConfig::default().has_model());
    assert!(LoadConfig::Onnx(resolved).has_model());
}

#[test]
fn a_default_model_path_is_not_written_back_as_given() {
    let document = Configuration::default().to_document();
    let Some(LoadDocument::Onnx(onnx)) = &document.load else {
        panic!("the load section is written back");
    };
    assert_eq!(onnx.model, None);
    let again = Configuration::from_document(&document).unwrap();
    assert_eq!(again, Configuration::default());
    assert!(!again.load.has_model());

    let mut given = OnnxLoadConfig::default();
    given.model = "net.onnx".to_string();
    given.model_given = true;
    assert_eq!(given.to_document().model, text("net.onnx"));
    assert_eq!(OnnxLoadConfig::from_document(&given.to_document()), given);
}
