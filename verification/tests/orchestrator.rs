use rknn_convert::arrays::{
    ArrayFile, ArrayFileError, ArrayFileErrorKind, ArrayResolution, NamedArray,
};
use rknn_convert::configuration::structs::{
    BuildConfig, ConfigConfig, ConfigDocument, Configuration, Document, ExportConfig, LoadConfig,
    LoadDocument, OnnxLoadConfig, OnnxLoadDocument,
};
use rknn_convert::configuration::MarshalError;
use rknn_convert::functions::{
    call_rknn_build, call_rknn_config, call_rknn_export, call_rknn_load_onnx, check_status,
    BoundaryCall, CallError, Operation,
};
use rknn_convert::orchestrator::{Action, Orchestrator, RunError, Stage};
use rknn_convert::validators::FailureKind;
use rknn_convert::value::{ArrayHandle, Value};

fn runnable() -> Configuration {
    configuration_with_arrays(None)
}

fn configuration_with_arrays(path: Option<&str>) -> Configuration {
    let mut configuration = Configuration::default();
    configuration.load = LoadConfig::Onnx(OnnxLoadConfig {
        model: "net.onnx".to_string(),
        model_given: true,
        inputs: Some(vec!["x".to_string()]),
        input_size_list: None,
        input_initial_val_file: path.map(|p| p.to_string()),
        outputs: None,
    });
    configuration.export = ExportConfig { export_path: Some("net.rknn".to_string()) };
    configuration
}

/// Drives a run against a toolkit that answers call number `i` with
/// `codes[i]`, and returns the operations that were called and how the run
/// ended.
fn drive(configuration: Configuration, codes: &[i32]) -> (Vec<Operation>, Action) {
    let mut run = Orchestrator::new(configuration).unwrap();
    let mut called = Vec::new();
    loop {
        match run.next_action() {
            Action::Call(call) => {
                let code = codes[called.len()];
                called.push(call.operation);
                run.status_returned(code);
            }
            Action::LoadArrays(_) => {
                run.arrays_loaded(Ok(ArrayFile::Single(ArrayHandle { id: 0 })));
            }
            outcome => return (called, outcome),
        }
    }
}

#[test]
fn status_zero_is_success_and_every_other_status_is_failure() {
    assert_eq!(check_status(Operation::Build, 0), Ok(()));
    assert_eq!(
        check_status(Operation::Build, 1),
        Err(CallError { operation: Operation::Build, code: 1 })
    );
    assert_eq!(
        check_status(Operation::Export, -1),
        Err(CallError { operation: Operation::Export, code: -1 })
    );
    assert_eq!(
        check_status(Operation::Configure, i32::MIN),
        Err(CallError { operation: Operation::Configure, code: i32::MIN })
    );
}

#[test]
fn a_failed_call_is_reported_with_its_method_and_status() {
    assert_eq!(Operation::Configure.method(), "config");
    assert_eq!(Operation::LoadModel.method(), "load_onnx");
    assert_eq!(Operation::Build.method(), "build");
    assert_eq!(Operation::Export.method(), "export_rknn");
    let message = |operation, code| CallError { operation, code }.message();
    assert_eq!(message(Operation::Configure, 3), "rknn.config failed with code 3");
    assert_eq!(message(Operation::LoadModel, -1), "rknn.load_onnx failed with code -1");
    assert_eq!(message(Operation::Build, 255), "rknn.build failed with code 255");
    assert_eq!(
        message(Operation::Export, i32::MIN),
        "rknn.export_rknn failed with code -2147483648"
    );
    assert_eq!(
        RunError::Call(CallError { operation: Operation::Build, code: 2 }).message(),
        "rknn.build failed with code 2"
    );
    assert_eq!(
        RunError::Marshal(MarshalError::ArrayFileNotLoaded { path: "a.npy".to_string() }).message(),
        "array file a.npy was not loaded"
    );
}

#[test]
fn each_call_is_handed_its_own_section() {
    let configuration = configuration_with_arrays(None);
    let call = call_rknn_config(&configuration.config);
    assert_eq!(call.operation, Operation::Configure);
    assert!(call.args.is_empty());
    assert_eq!(call.kwargs, Some(configuration.config.to_pydict()));

    let LoadConfig::Onnx(onnx) = &configuration.load;
    let call = call_rknn_load_onnx(onnx, &ArrayResolution::NotLoaded).unwrap();
    assert_eq!(call.operation, Operation::LoadModel);
    assert_eq!(call.args, vec![Some("net.onnx".to_string())]);
    let kwargs = call.kwargs.unwrap();
    assert_eq!(kwargs.len(), 1);
    assert_eq!(kwargs.get("inputs"), Some(&Value::StrList(vec!["x".to_string()])));

    let call = call_rknn_build(&configuration.build);
    assert_eq!(call.operation, Operation::Build);
    assert!(call.args.is_empty());
    assert_eq!(call.kwargs, Some(BuildConfig::default().to_pydict()));

    let call = call_rknn_export(&configuration.export);
    assert_eq!(
        call,
        BoundaryCall {
            operation: Operation::Export,
            args: vec![Some("net.rknn".to_string())],
            kwargs: None,
        }
    );
    let call = call_rknn_export(&ExportConfig::default());
    assert_eq!(call.args, vec![None]);
    assert_eq!(call.kwargs, None);
}

#[test]
fn the_load_call_cannot_be_made_without_its_arrays() {
    let configuration = configuration_with_arrays(Some("init.npz"));
    let LoadConfig::Onnx(onnx) = &configuration.load;
    assert_eq!(
        call_rknn_load_onnx(onnx, &ArrayResolution::NotLoaded),
        Err(MarshalError::ArrayFileNotLoaded { path: "init.npz".to_string() })
    );
}

#[test]
fn a_run_makes_the_four_calls_in_order() {
    let (called, outcome) = drive(configuration_with_arrays(None), &[0, 0, 0, 0]);
    assert_eq!(
        called,
        vec![Operation::Configure, Operation::LoadModel, Operation::Build, Operation::Export]
    );
    assert_eq!(outcome, Action::Succeeded);
}

#[test]
fn a_failing_second_call_ends_the_run_before_the_third() {
    let (called, outcome) = drive(configuration_with_arrays(None), &[0, 5, 0, 0]);
    assert_eq!(called, vec![Operation::Configure, Operation::LoadModel]);
    assert_eq!(
        outcome,
        Action::Failed(RunError::Call(CallError { operation: Operation::LoadModel, code: 5 }))
    );
}

#[test]
fn the_first_failure_ends_the_run_wherever_it_comes() {
    let order = [Operation::Configure, Operation::LoadModel, Operation::Build, Operation::Export];
    for failing in 0..4 {
        let mut codes = [0, 0, 0, 0];
        codes[failing] = -3;
        let (called, outcome) = drive(configuration_with_arrays(Some("init.npy")), &codes);
        assert_eq!(called, order[..=failing].to_vec());
        assert_eq!(
            outcome,
            Action::Failed(RunError::Call(CallError { operation: order[failing], code: -3 }))
        );
    }
}

#[test]
fn an_ended_run_stays_ended() {
    let mut run = Orchestrator::new(runnable()).unwrap();
    run.status_returned(0);
    run.status_returned(9);
    let failed = Stage::CallFailed(CallError { operation: Operation::LoadModel, code: 9 });
    assert_eq!(run.current_stage(), failed);
    run.status_returned(0);
    run.status_returned(1);
    run.arrays_loaded(Ok(ArrayFile::Single(ArrayHandle { id: 1 })));
    assert_eq!(run.current_stage(), failed);
    assert_eq!(
        run.next_action(),
        Action::Failed(RunError::Call(CallError { operation: Operation::LoadModel, code: 9 }))
    );

    let mut run = Orchestrator::new(runnable()).unwrap();
    for _ in 0..4 {
        run.status_returned(0);
    }
    assert_eq!(run.current_stage(), Stage::Done);
    run.status_returned(7);
    assert_eq!(run.current_stage(), Stage::Done);
    assert_eq!(run.next_action(), Action::Succeeded);
}

#[test]
fn the_stages_follow_one_another() {
    let mut run = Orchestrator::new(runnable()).unwrap();
    assert_eq!(run.current_stage(), Stage::Configure);
    run.status_returned(0);
    assert_eq!(run.current_stage(), Stage::LoadModel);
    run.status_returned(0);
    assert_eq!(run.current_stage(), Stage::Build);
    run.status_returned(0);
    assert_eq!(run.current_stage(), Stage::Export);
    run.status_returned(0);
    assert_eq!(run.current_stage(), Stage::Done);
    assert_eq!(run.settings(), &runnable());
}

#[test]
fn the_array_file_is_loaded_before_the_model() {
    let mut run = Orchestrator::new(configuration_with_arrays(Some("init.npz"))).unwrap();
    assert!(matches!(run.next_action(), Action::Call(call) if call.operation == Operation::Configure));
    run.status_returned(0);
    assert_eq!(run.next_action(), Action::LoadArrays("init.npz".to_string()));
    run.status_returned(0);
    assert_eq!(run.current_stage(), Stage::LoadModel);
    assert_eq!(run.next_action(), Action::LoadArrays("init.npz".to_string()));
    run.arrays_loaded(Ok(ArrayFile::Archive(vec![
        NamedArray { name: "b".to_string(), array: ArrayHandle { id: 11 } },
        NamedArray { name: "a".to_string(), array: ArrayHandle { id: 10 } },
    ])));
    let Action::Call(call) = run.next_action() else {
        panic!("the model is to be loaded");
    };
    assert_eq!(call.operation, Operation::LoadModel);
    assert_eq!(call.args, vec![Some("net.onnx".to_string())]);
    let kwargs = call.kwargs.unwrap();
    assert_eq!(
        kwargs.get("input_initial_val"),
        Some(&Value::Arrays(vec![ArrayHandle { id: 11 }, ArrayHandle { id: 10 }]))
    );
    run.arrays_loaded(Ok(ArrayFile::Single(ArrayHandle { id: 99 })));
    let Action::Call(again) = run.next_action() else {
        panic!("the model is still to be loaded");
    };
    assert_eq!(again.kwargs, Some(kwargs));
    run.status_returned(0);
    assert_eq!(run.current_stage(), Stage::Build);
}

#[test]
fn a_failed_array_load_ends_the_run() {
    let mut run = Orchestrator::new(configuration_with_arrays(Some("init.npy"))).unwrap();
    run.status_returned(0);
    let error =
        ArrayFileError { kind: ArrayFileErrorKind::Corrupt, cause: "bad magic".to_string() };
    run.arrays_loaded(Err(error.clone()));
    assert_eq!(run.current_stage(), Stage::ArraysFailed);
    let failed = Action::Failed(RunError::Marshal(MarshalError::ArrayFileFailed {
        path: "init.npy".to_string(),
        error,
    }));
    assert_eq!(run.next_action(), failed);
    run.status_returned(0);
    run.arrays_loaded(Ok(ArrayFile::Single(ArrayHandle { id: 1 })));
    assert_eq!(run.current_stage(), Stage::ArraysFailed);
    assert_eq!(run.next_action(), failed);
    let Action::Failed(error) = failed else {
        panic!("the run has failed");
    };
    assert_eq!(error.message(), "array file init.npy: corrupt content: bad magic");
}

#[test]
fn arrays_are_not_taken_before_they_are_asked_for() {
    let mut run = Orchestrator::new(configuration_with_arrays(Some("init.npy"))).unwrap();
    run.arrays_loaded(Err(ArrayFileError {
        kind: ArrayFileErrorKind::NotFound,
        cause: String::new(),
    }));
    assert_eq!(run.current_stage(), Stage::Configure);
    run.status_returned(0);
    assert_eq!(run.next_action(), Action::LoadArrays("init.npy".to_string()));
}

#[test]
fn a_configuration_that_breaks_a_rule_gets_no_run() {
    let mut configuration = runnable();
    configuration.config.quantized_method = "row".to_string();
    configuration.config.float_dtype = Some("float32".to_string());
    let failures = Orchestrator::new(configuration).unwrap_err();
    assert_eq!(failures.len(), 2);
    assert_eq!(failures[0].field, "quantized_method");
    assert_eq!(failures[0].kind, FailureKind::InvalidQuantizedMethod);
    assert_eq!(failures[1].field, "float_dtype");
    assert_eq!(failures[1].kind, FailureKind::InvalidFloatDtype);
    assert!(Orchestrator::new(runnable()).is_ok());
    let mut configuration = runnable();
    configuration.config = ConfigConfig::default();
    configuration.config.target_platform = Some(String::new());
    assert!(Orchestrator::new(configuration).is_err());
}


fn failures_of(configuration: Configuration) -> Vec<(String, FailureKind)> {
    Orchestrator::new(configuration)
        .unwrap_err()
        .into_iter()
        .map(|failure| (failure.field, failure.kind))
        .collect()
}

#[test]
fn the_default_configuration_cannot_be_run() {
    assert!(Configuration::default().check_runnable().len() == 1);
    assert_eq!(
        failures_of(Configuration::default()),
        vec![("model".to_string(), FailureKind::Missing)]
    );
}

#[test]
fn a_document_without_a_model_path_is_explained_but_not_run() {
    let empty = Document { config: None, load: None, build: None, export: None };
    let no_model = Document {
        config: None,
        load: Some(LoadDocument::Onnx(OnnxLoadDocument {
            model: None,
            inputs: Some(vec!["x".to_string()]),
            input_size_list: None,
            input_initial_val_file: None,
            outputs: None,
        })),
        build: None,
        export: None,
    };
    for document in [empty, no_model] {
        let configuration = Configuration::from_document(&document).unwrap();
        let LoadConfig::Onnx(onnx) = &configuration.load;
        assert_eq!(onnx.model, "model.onnx");
        assert!(!onnx.model_given);
        assert!(!configuration.load.has_model());
        let report = configuration.explain();
        assert!(report.contains("model.onnx"));
        assert_eq!(
            failures_of(configuration),
            vec![("model".to_string(), FailureKind::Missing)]
        );
    }
}

#[test]
fn naming_the_default_path_is_giving_a_path() {
    let document = Document {
        config: None,
        load: Some(LoadDocument::Onnx(OnnxLoadDocument {
            model: Some("model.onnx".to_string()),
            inputs: None,
            input_size_list: None,
            input_initial_val_file: None,
            outputs: None,
        })),
        build: None,
        export: None,
    };
    let configuration = Configuration::from_document(&document).unwrap();
    assert!(configuration.load.has_model());
    assert!(configuration.check_runnable().is_empty());
    let (called, outcome) = drive(configuration, &[0, 0, 0, 0]);
    assert_eq!(called.len(), 4);
    assert_eq!(outcome, Action::Succeeded);
    let mut run = Orchestrator::new(Configuration::from_document(&document).unwrap()).unwrap();
    run.status_returned(0);
    let Action::Call(call) = run.next_action() else {
        panic!("the model is to be loaded");
    };
    assert_eq!(call.operation, Operation::LoadModel);
    assert_eq!(call.args, vec![Some("model.onnx".to_string())]);
}

#[test]
fn a_missing_model_path_is_reported_after_the_broken_settings() {
    let mut general = ConfigDocument::empty();
    general.quantized_method = Some("layer".to_string());
    let document = Document { config: Some(general), load: None, build: None, export: None };
    let mut configuration = Configuration::from_document(&document).unwrap();
    configuration.config.optimization_level = 9;
    configuration.config.float_dtype = Some("float32".to_string());
    assert_eq!(
        failures_of(configuration),
        vec![
            ("float_dtype".to_string(), FailureKind::InvalidFloatDtype),
            ("optimization_level".to_string(), FailureKind::Range),
            ("model".to_string(), FailureKind::Missing),
        ]
    );
}

#[test]
fn the_load_call_is_never_made_with_the_default_path() {
    let onnx = OnnxLoadConfig::default();
    assert_eq!(
        call_rknn_load_onnx(&onnx, &ArrayResolution::NotLoaded),
        Err(MarshalError::ModelNotGiven)
    );
    let loaded = ArrayResolution::Loaded(ArrayFile::Single(ArrayHandle { id: 1 }));
    assert_eq!(call_rknn_load_onnx(&onnx, &loaded), Err(MarshalError::ModelNotGiven));
    assert_eq!(MarshalError::ModelNotGiven.message(), "no model path was given");
    let mut given = OnnxLoadConfig::default();
    given.model_given = true;
    let call = call_rknn_load_onnx(&given, &ArrayResolution::NotLoaded).unwrap();
    assert_eq!(call.args, vec![Some("model.onnx".to_string())]);
}
