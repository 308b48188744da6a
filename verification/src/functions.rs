//! The four toolkit calls: what each one is handed, and how its status is
//! judged.
//!
//! The library never makes a call.  It says which method to call with which
//! arguments, and, once the caller reports the status that came back,
//! whether the call succeeded.
use crate::arrays::ArrayResolution;
use crate::configuration::structs::{BuildConfig, ConfigConfig, ExportConfig, OnnxLoadConfig};
use crate::configuration::{onnx_fields, resolved_arrays, same_error, MarshalError};
use crate::payload::{is_mapping, present, PyDict};
use crate::plain::Plain;
use crate::text::{decimal, decimal_text};
use vstd::prelude::*;

verus! {

/// One of the four operations of the toolkit.
#[derive(Clone, Copy, Debug, PartialEq, Eq, Structural)]
pub enum Operation {
    Configure,
    LoadModel,
    Build,
    Export,
}

impl Operation {
    /// The name of the toolkit method that performs the operation.
    pub open spec fn spec_method(self) -> Seq<char> {
        match self {
            Operation::Configure => "config"@,
            Operation::LoadModel => "load_onnx"@,
            Operation::Build => "build"@,
            Operation::Export => "export_rknn"@,
        }
    }

    /// The name of the toolkit method that performs the operation.
    pub fn method(&self) -> (name: &'static str)
        ensures
            name@ == self.spec_method(),
    {
        match self {
            Operation::Configure => "config",
            Operation::LoadModel => "load_onnx",
            Operation::Build => "build",
            Operation::Export => "export_rknn",
        }
    }
}

/// A call that the caller is to make on the toolkit.
#[derive(Clone, Debug, PartialEq)]
pub struct BoundaryCall {
    pub operation: Operation,
    /// The positional arguments, each a string or nothing.
    pub args: Vec<Option<String>>,
    /// The keyword arguments, where the call takes any.
    pub kwargs: Option<PyDict>,
}

/// A call that returned a status other than 0.
#[derive(Clone, Copy, Debug, PartialEq, Eq, Structural)]
pub struct CallError {
    pub operation: Operation,
    pub code: i32,
}

impl CallError {
    /// The error in words: the method that failed and the status it
    /// returned.
    pub open spec fn spec_message(self) -> Seq<char> {
        "rknn."@ + self.operation.spec_method() + " failed with code "@ + decimal(self.code as int)
    }

    /// The error in words.
    pub fn message(&self) -> (text: String)
        ensures
            text@ == self.spec_message(),
    {
        let mut text = "rknn.".to_owned();
        text.append(self.operation.method());
        text.append(" failed with code ");
        text.append(decimal_text(self.code as i64).as_str());
        text
    }
}

/// Judges the status that a call returned: 0 is success, every other status
/// is the failure of that operation, whatever the toolkit means by it.
pub fn check_status(operation: Operation, code: i32) -> (verdict: Result<(), CallError>)
    ensures
        verdict is Ok <==> code == 0,
        verdict is Err ==> verdict == Err::<(), CallError>(CallError { operation, code }),
{
    if code == 0 {
        Ok(())
    } else {
        Err(CallError { operation, code })
    }
}

/// The `config` call: no positional argument, the general settings as
/// keyword arguments.
pub fn call_rknn_config(config: &ConfigConfig) -> (call: BoundaryCall)
    ensures
        call.operation == Operation::Configure,
        call.args@.len() == 0,
        call.kwargs matches Some(dict) && dict@ == present(config.spec_fields()) && is_mapping(
            dict@,
        ),
{
    BoundaryCall {
        operation: Operation::Configure,
        args: Vec::new(),
        kwargs: Some(config.to_pydict()),
    }
}

/// The `load_onnx` call: the model path as the one positional argument, the
/// rest of the section as keyword arguments.  It cannot be made where the
/// document gave no model path, for the default of that path is never
/// loaded, nor where the array file of the section is not resolved.
pub fn call_rknn_load_onnx(onnx: &OnnxLoadConfig, arrays: &ArrayResolution) -> (result: Result<
    BoundaryCall,
    MarshalError,
>)
    ensures
        !onnx.model_given ==> result matches Err(MarshalError::ModelNotGiven),
        onnx.model_given ==> match resolved_arrays(onnx.input_initial_val_file, *arrays) {
            Ok(value) => {
                &&& result matches Ok(call)
                &&& call.operation == Operation::LoadModel
                &&& call.args.deep_view() == seq![Some(onnx.model@)]
                &&& call.kwargs matches Some(dict)
                &&& is_mapping(dict@)
                &&& dict@ == present(
                    onnx_fields(
                        onnx.inputs.deep_view(),
                        onnx.outputs.deep_view(),
                        onnx.input_size_list.deep_view(),
                        value,
                    ),
                )
            },
            Err(error) => result matches Err(found) && same_error(found, error),
        },
{
    if !onnx.model_given {
        return Err(MarshalError::ModelNotGiven);
    }
    match onnx.to_pydict(arrays) {
        Ok(dict) => {
            let mut args: Vec<Option<String>> = Vec::new();
            args.push(Some(onnx.model.copy()));
            assert(args.deep_view() =~= seq![Some(onnx.model@)]);
            Ok(BoundaryCall { operation: Operation::LoadModel, args, kwargs: Some(dict) })
        },
        Err(error) => Err(error),
    }
}

/// The `build` call: no positional argument, the build settings as keyword
/// arguments.
pub fn call_rknn_build(build: &BuildConfig) -> (call: BoundaryCall)
    ensures
        call.operation == Operation::Build,
        call.args@.len() == 0,
        call.kwargs matches Some(dict) && dict@ == present(build.spec_fields()) && is_mapping(
            dict@,
        ),
{
    BoundaryCall { operation: Operation::Build, args: Vec::new(), kwargs: Some(build.to_pydict()) }
}

/// The `export_rknn` call: the export path as the one positional argument,
/// passed as nothing where the section gives none, and no keyword argument.
pub fn call_rknn_export(export: &ExportConfig) -> (call: BoundaryCall)
    ensures
        call.operation == Operation::Export,
        call.args.deep_view() == seq![export.export_path.deep_view()],
        call.kwargs is None,
{
    let mut args: Vec<Option<String>> = Vec::new();
    args.push(export.export_path.copy());
    assert(args.deep_view() =~= seq![export.export_path.deep_view()]);
    BoundaryCall { operation: Operation::Export, args, kwargs: None }
}

} // verus!
