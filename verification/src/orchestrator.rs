//! The run of a conversion: configure, load the model, build, export.
//!
//! The run is a state machine.  The caller asks it what to do next, does it,
//! and reports what came back; the machine decides how the run goes on.  The
//! four calls are made strictly in order.  A call that returns a status
//! other than 0 ends the run: nothing is retried, nothing is skipped and
//! nothing is rolled back, because the state of the toolkit after a failure
//! is not known.
use crate::arrays::{ArrayFile, ArrayFileError, ArrayResolution};
use crate::configuration::structs::{Configuration, LoadConfig};
use crate::configuration::{onnx_fields, resolved_arrays, same_error, MarshalError};
use crate::functions::{
    call_rknn_build, call_rknn_config, call_rknn_export, call_rknn_load_onnx, check_status,
    BoundaryCall, CallError, Operation,
};
use crate::payload::present;
use crate::plain::Plain;
use crate::validators::{FailureKind, FailureView, ValidationFailure};
use vstd::prelude::*;

verus! {

/// Where a run stands.
#[derive(Clone, Copy, Debug, PartialEq, Eq, Structural)]
pub enum Stage {
    Configure,
    LoadModel,
    Build,
    Export,
    /// All four calls succeeded.
    Done,
    /// A call returned a status other than 0.
    CallFailed(CallError),
    /// The array file of the load section could not be loaded.
    ArraysFailed,
}

/// The operation that is due at `stage`, if the run is still going.
pub open spec fn operation_due(stage: Stage) -> Option<Operation> {
    match stage {
        Stage::Configure => Some(Operation::Configure),
        Stage::LoadModel => Some(Operation::LoadModel),
        Stage::Build => Some(Operation::Build),
        Stage::Export => Some(Operation::Export),
        _ => None,
    }
}

/// The stage after the call that is due at `stage` has returned `code`:
/// the next stage for 0, failure of that call for every other status.  A run
/// that has ended stays as it is.
pub open spec fn stage_after(stage: Stage, code: i32) -> Stage {
    match operation_due(stage) {
        None => stage,
        Some(operation) => if code != 0 {
            Stage::CallFailed(CallError { operation, code })
        } else {
            match operation {
                Operation::Configure => Stage::LoadModel,
                Operation::LoadModel => Stage::Build,
                Operation::Build => Stage::Export,
                Operation::Export => Stage::Done,
            }
        },
    }
}

/// The stage after the calls of a run have returned `codes`, one after the
/// other.
pub open spec fn stage_after_all(stage: Stage, codes: Seq<i32>) -> Stage
    decreases codes.len(),
{
    if codes.len() == 0 {
        stage
    } else {
        stage_after_all(stage_after(stage, codes[0]), codes.skip(1))
    }
}

/// How many calls a run makes from `stage` on when the toolkit answers the
/// first with `codes[0]`, the second with `codes[1]` and so on.
pub open spec fn calls_made(stage: Stage, codes: Seq<i32>) -> nat
    decreases codes.len(),
{
    if codes.len() == 0 || operation_due(stage) is None {
        0
    } else {
        1 + calls_made(stage_after(stage, codes[0]), codes.skip(1))
    }
}

/// The operation that a run makes as its call number `index`.
pub open spec fn operation_number(index: int) -> Operation {
    if index == 0 {
        Operation::Configure
    } else if index == 1 {
        Operation::LoadModel
    } else if index == 2 {
        Operation::Build
    } else {
        Operation::Export
    }
}

/// Why a run failed.
#[derive(Clone, Debug, PartialEq)]
pub enum RunError {
    /// A section could not be marshalled.
    Marshal(MarshalError),
    /// A call returned a status other than 0.
    Call(CallError),
}

impl RunError {
    /// The error in words.
    pub open spec fn spec_message(self) -> Seq<char> {
        match self {
            RunError::Marshal(error) => error.spec_message(),
            RunError::Call(error) => error.spec_message(),
        }
    }

    /// The error in words.
    pub fn message(&self) -> (text: String)
        ensures
            text@ == self.spec_message(),
    {
        match self {
            RunError::Marshal(error) => error.message(),
            RunError::Call(error) => error.message(),
        }
    }
}

/// What the caller is to do next.
#[derive(Clone, Debug, PartialEq)]
pub enum Action {
    /// Load the array file at this path and report the outcome with
    /// [`Orchestrator::arrays_loaded`].
    LoadArrays(String),
    /// Make this call and report its status with
    /// [`Orchestrator::status_returned`].
    Call(BoundaryCall),
    /// Nothing: the run has succeeded.
    Succeeded,
    /// Nothing: the run has failed.
    Failed(RunError),
}

/// How far a run has come, with what it has learned on the way.
#[derive(Clone, Debug, PartialEq)]
pub enum Progress {
    Configure,
    /// The model is to be loaded; the array file of the load section is
    /// resolved this far.
    LoadModel(ArrayResolution),
    Build,
    Export,
    Done,
    CallFailed(CallError),
}

/// One run of a conversion.  A run exists only for a configuration that can
/// be run: its settings break no rule and the document gave the path of the
/// model to load.  So no call is ever asked for on behalf of settings that
/// break a rule, and the default of the model path is never loaded.
#[derive(Debug)]
pub struct Orchestrator {
    configuration: Configuration,
    progress: Progress,
}

impl Orchestrator {
    /// Every run is the run of a configuration that can be run.
    #[verifier::type_invariant]
    spec fn usable(self) -> bool {
        self.configuration.runnable()
    }

    /// The configuration that the run converts with.
    pub closed spec fn configuration(self) -> Configuration {
        self.configuration
    }

    /// How far the run has come.
    pub closed spec fn progress(self) -> Progress {
        self.progress
    }

    /// Starts a run of `configuration`.
    ///
    /// There is a run exactly when the configuration can be run: every
    /// general setting satisfies its validator, and the document gave the
    /// path of the model to load.  Otherwise there is none, and everything
    /// that stands in the way is returned: the failures of the general
    /// settings, then the missing field `model`.
    pub fn new(configuration: Configuration) -> (result: Result<
        Orchestrator,
        Vec<ValidationFailure>,
    >)
        ensures
            result is Ok <==> configuration.valid() && configuration.load.model_given(),
            match result {
                Ok(run) => {
                    &&& run.configuration() == configuration
                    &&& run.progress() is Configure
                },
                Err(failures) => {
                    &&& failures.len() > 0
                    &&& failures.deep_view() == configuration.run_failures()
                    &&& !configuration.load.model_given() ==> failures.deep_view().last() == (
                    FailureView { field: "model"@, kind: FailureKind::Missing })
                },
            },
    {
        let failures = configuration.check_runnable();
        if failures.len() > 0 {
            return Err(failures);
        }
        Ok(Orchestrator { configuration, progress: Progress::Configure })
    }

    /// The configuration that the run converts with.
    pub fn settings(&self) -> (configuration: &Configuration)
        ensures
            *configuration == self.configuration(),
            configuration.runnable(),
    {
        proof {
            use_type_invariant(self);
        }
        &self.configuration
    }

    /// The path of the array file that the load section names, if any.
    pub open spec fn array_file(self) -> Option<String> {
        match self.configuration().load {
            LoadConfig::Onnx(onnx) => onnx.input_initial_val_file,
        }
    }

    /// Whether the run waits for the array file to be loaded: the model is
    /// to be loaded, the load section names an array file, and nothing was
    /// reported about it yet.
    pub open spec fn awaits_arrays(self) -> bool {
        self.progress() matches Progress::LoadModel(ArrayResolution::NotLoaded)
            && self.array_file() is Some
    }

    /// Where the run stands.
    pub open spec fn stage(self) -> Stage {
        match self.progress() {
            Progress::Configure => Stage::Configure,
            Progress::LoadModel(arrays) => if arrays is Failed && self.array_file() is Some {
                Stage::ArraysFailed
            } else {
                Stage::LoadModel
            },
            Progress::Build => Stage::Build,
            Progress::Export => Stage::Export,
            Progress::Done => Stage::Done,
            Progress::CallFailed(error) => Stage::CallFailed(error),
        }
    }

    /// Where the run stands.
    pub fn current_stage(&self) -> (stage: Stage)
        ensures
            stage == self.stage(),
    {
        match &self.progress {
            Progress::Configure => Stage::Configure,
            Progress::LoadModel(arrays) => {
                let named = match &self.configuration.load {
                    LoadConfig::Onnx(onnx) => onnx.input_initial_val_file.is_some(),
                };
                match arrays {
                    ArrayResolution::Failed(_) => if named {
                        Stage::ArraysFailed
                    } else {
                        Stage::LoadModel
                    },
                    _ => Stage::LoadModel,
                }
            },
            Progress::Build => Stage::Build,
            Progress::Export => Stage::Export,
            Progress::Done => Stage::Done,
            Progress::CallFailed(error) => Stage::CallFailed(*error),
        }
    }

    /// What the caller is to do next.
    ///
    /// While the run is going this is the call that is due, with the section
    /// of that call marshalled, or, before the model is loaded, the loading
    /// of the array file that the load section names.  The model that the
    /// load call names is always one whose path the document gave.  Once
    /// the run has ended it is the outcome, and no call is ever asked for
    /// again.
    pub fn next_action(&self) -> (action: Action)
        ensures
            self.configuration().runnable(),
            self.awaits_arrays() ==> (action matches Action::LoadArrays(path) && path@
                == self.array_file()->0@),
            !self.awaits_arrays() ==> match self.stage() {
                Stage::Configure => {
                    &&& action matches Action::Call(call)
                    &&& call.operation == Operation::Configure
                    &&& call.args@.len() == 0
                    &&& call.kwargs matches Some(dict)
                    &&& dict@ == present(self.configuration().config.spec_fields())
                },
                Stage::LoadModel => {
                    &&& action matches Action::Call(call)
                    &&& call.operation == Operation::LoadModel
                    &&& self.configuration().load matches LoadConfig::Onnx(onnx)
                    &&& onnx.model_given
                    &&& self.progress() matches Progress::LoadModel(arrays)
                    &&& resolved_arrays(onnx.input_initial_val_file, arrays) matches Ok(value)
                    &&& call.args.deep_view() == seq![Some(onnx.model@)]
                    &&& call.kwargs matches Some(dict)
                    &&& dict@ == present(
                        onnx_fields(
                            onnx.inputs.deep_view(),
                            onnx.outputs.deep_view(),
                            onnx.input_size_list.deep_view(),
                            value,
                        ),
                    )
                },
                Stage::Build => {
                    &&& action matches Action::Call(call)
                    &&& call.operation == Operation::Build
                    &&& call.args@.len() == 0
                    &&& call.kwargs matches Some(dict)
                    &&& dict@ == present(self.configuration().build.spec_fields())
                },
                Stage::Export => {
                    &&& action matches Action::Call(call)
                    &&& call.operation == Operation::Export
                    &&& call.args.deep_view() == seq![
                        self.configuration().export.export_path.deep_view(),
                    ]
                    &&& call.kwargs is None
                },
                Stage::Done => action is Succeeded,
                Stage::CallFailed(error) => action matches Action::Failed(RunError::Call(found))
                    && found == error,
                Stage::ArraysFailed => {
                    &&& action matches Action::Failed(RunError::Marshal(found))
                    &&& self.configuration().load matches LoadConfig::Onnx(onnx)
                    &&& self.progress() matches Progress::LoadModel(arrays)
                    &&& resolved_arrays(onnx.input_initial_val_file, arrays) matches Err(error)
                    &&& same_error(found, error)
                },
            },
    {
        proof {
            use_type_invariant(self);
        }
        match &self.progress {
            Progress::Configure => Action::Call(call_rknn_config(&self.configuration.config)),
            Progress::LoadModel(arrays) => match &self.configuration.load {
                LoadConfig::Onnx(onnx) => {
                    match (&onnx.input_initial_val_file, arrays) {
                        (Some(path), ArrayResolution::NotLoaded) => Action::LoadArrays(path.copy()),
                        _ => match call_rknn_load_onnx(onnx, arrays) {
                            Ok(call) => Action::Call(call),
                            Err(error) => Action::Failed(RunError::Marshal(error)),
                        },
                    }
                },
            },
            Progress::Build => Action::Call(call_rknn_build(&self.configuration.build)),
            Progress::Export => Action::Call(call_rknn_export(&self.configuration.export)),
            Progress::Done => Action::Succeeded,
            Progress::CallFailed(error) => Action::Failed(RunError::Call(*error)),
        }
    }

    /// Takes the outcome of loading the array file.
    ///
    /// Where the run waits for it, the arrays are kept for the call that
    /// loads the model, or the failure ends the run.  Where the run does not
    /// wait for it, nothing changes.
    pub fn arrays_loaded(&mut self, outcome: Result<ArrayFile, ArrayFileError>)
        ensures
            final(self).configuration() == old(self).configuration(),
            old(self).awaits_arrays() ==> final(self).progress() == Progress::LoadModel(
                match outcome {
                    Ok(file) => ArrayResolution::Loaded(file),
                    Err(error) => ArrayResolution::Failed(error),
                },
            ),
            old(self).awaits_arrays() ==> final(self).stage() == (if outcome is Ok {
                Stage::LoadModel
            } else {
                Stage::ArraysFailed
            }),
            !old(self).awaits_arrays() ==> final(self).progress() == old(self).progress(),
    {
        proof {
            use_type_invariant(&*self);
        }
        let waiting = match (&self.progress, &self.configuration.load) {
            (Progress::LoadModel(ArrayResolution::NotLoaded), LoadConfig::Onnx(onnx)) => {
                onnx.input_initial_val_file.is_some()
            },
            _ => false,
        };
        if waiting {
            self.progress = Progress::LoadModel(
                match outcome {
                    Ok(file) => ArrayResolution::Loaded(file),
                    Err(error) => ArrayResolution::Failed(error),
                },
            );
        }
    }

    /// Takes the status that the call that was due has returned.
    ///
    /// Status 0 moves the run to the next stage; every other status ends it
    /// with the failure of that call.  Where no call is due, because the run
    /// has ended or waits for the array file, nothing changes.
    pub fn status_returned(&mut self, code: i32)
        ensures
            final(self).configuration() == old(self).configuration(),
            old(self).awaits_arrays() ==> final(self).progress() == old(self).progress(),
            !old(self).awaits_arrays() ==> final(self).stage() == stage_after(
                old(self).stage(),
                code,
            ),
            operation_due(old(self).stage()) is None ==> final(self).progress() == old(
                self,
            ).progress(),
            final(self).progress() matches Progress::LoadModel(arrays) ==> (old(self).progress()
                == final(self).progress() || arrays is NotLoaded),
    {
        proof {
            use_type_invariant(&*self);
        }
        let due = match &self.progress {
            Progress::Configure => Some(Operation::Configure),
            Progress::LoadModel(arrays) => {
                let named = match &self.configuration.load {
                    LoadConfig::Onnx(onnx) => onnx.input_initial_val_file.is_some(),
                };
                match arrays {
                    ArrayResolution::NotLoaded => if named {
                        None
                    } else {
                        Some(Operation::LoadModel)
                    },
                    ArrayResolution::Loaded(_) => Some(Operation::LoadModel),
                    ArrayResolution::Failed(_) => if named {
                        None
                    } else {
                        Some(Operation::LoadModel)
                    },
                }
            },
            Progress::Build => Some(Operation::Build),
            Progress::Export => Some(Operation::Export),
            Progress::Done => None,
            Progress::CallFailed(_) => None,
        };
        match due {
            None => {},
            Some(operation) => match check_status(operation, code) {
                Err(error) => {
                    self.progress = Progress::CallFailed(error);
                },
                Ok(_) => {
                    self.progress = match operation {
                        Operation::Configure => Progress::LoadModel(ArrayResolution::NotLoaded),
                        Operation::LoadModel => Progress::Build,
                        Operation::Build => Progress::Export,
                        Operation::Export => Progress::Done,
                    };
                },
            },
        }
    }
}

/// Short circuit: when the calls before call number `failing` return 0 and
/// that call returns another status, the run makes no call after it, and it
/// ends with the failure of that very operation and status, whatever the
/// toolkit would have answered to later calls.
pub proof fn lemma_first_failure_ends_run(codes: Seq<i32>, failing: int)
    requires
        0 <= failing < codes.len(),
        failing < 4,
        codes[failing] != 0,
        forall|i: int| 0 <= i < failing ==> codes[i] == 0,
    ensures
        calls_made(Stage::Configure, codes) == failing + 1,
        stage_after_all(Stage::Configure, codes) == Stage::CallFailed(
            CallError { operation: operation_number(failing), code: codes[failing] },
        ),
{
    lemma_failure_from(Stage::Configure, codes, failing, 0);
}

/// The stage that a run is at when its first `index` calls have succeeded.
pub open spec fn stage_number(index: int) -> Stage {
    if index == 0 {
        Stage::Configure
    } else if index == 1 {
        Stage::LoadModel
    } else if index == 2 {
        Stage::Build
    } else if index == 3 {
        Stage::Export
    } else {
        Stage::Done
    }
}

proof fn lemma_ended_stays(stage: Stage, codes: Seq<i32>)
    requires
        operation_due(stage) is None,
    ensures
        stage_after_all(stage, codes) == stage,
        calls_made(stage, codes) == 0,
    decreases codes.len(),
{
    if codes.len() > 0 {
        lemma_ended_stays(stage, codes.skip(1));
    }
}

proof fn lemma_failure_from(stage: Stage, codes: Seq<i32>, failing: int, done: int)
    requires
        0 <= done <= 3,
        stage == stage_number(done),
        0 <= failing < codes.len(),
        done + failing < 4,
        codes[failing] != 0,
        forall|i: int| 0 <= i < failing ==> codes[i] == 0,
    ensures
        calls_made(stage, codes) == failing + 1,
        stage_after_all(stage, codes) == Stage::CallFailed(
            CallError { operation: operation_number(done + failing), code: codes[failing] },
        ),
    decreases codes.len(),
{
    if failing == 0 {
        lemma_ended_stays(stage_after(stage, codes[0]), codes.skip(1));
    } else {
        let rest = codes.skip(1);
        assert(rest[failing - 1] == codes[failing]);
        assert forall|i: int| 0 <= i < failing - 1 implies rest[i] == 0 by {
            assert(rest[i] == codes[i + 1]);
        }
        assert(codes[0] == 0);
        lemma_failure_from(stage_after(stage, codes[0]), rest, failing - 1, done + 1);
    }
}

/// A run whose four calls all return 0 makes exactly these four calls and
/// ends as done.
pub proof fn lemma_success_runs_all(codes: Seq<i32>)
    requires
        codes.len() >= 4,
        forall|i: int| 0 <= i < 4 ==> codes[i] == 0,
    ensures
        calls_made(Stage::Configure, codes) == 4,
        stage_after_all(Stage::Configure, codes) == Stage::Done,
{
    let c1 = codes.skip(1);
    let c2 = c1.skip(1);
    let c3 = c2.skip(1);
    let c4 = c3.skip(1);
    assert(c1[0] == codes[1]);
    assert(c2[0] == codes[2]);
    assert(c3[0] == codes[3]);
    reveal_with_fuel(stage_after_all, 5);
    reveal_with_fuel(calls_made, 5);
    lemma_ended_stays(Stage::Done, c4);
}

} // verus!
