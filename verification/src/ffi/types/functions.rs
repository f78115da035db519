//! The shapes of the calls across the boundary.
//!
//! The first group is what the host calls in a module library, the second
//! what a module calls back in the host, the third what the host calls to
//! give back what a module handed out. These are the calls as the two sides
//! see them; the functions of this crate that serve them take the registry
//! or the bridge they work on as a further, first argument.

use vstd::prelude::*;
use crate::ffi::types::module::{
    LibInfo, LibListenerInitArgs, LibPipelineInitArgs, ModuleHandle, ModuleListenerConfigureArgs,
    ModuleListenerConfigureFnResult, ModulePipelineConfigureArgs, ModulePipelineConfigureFnResult,
    ModulePipelineProcessRecordFnResult, Record, StepStartFnResult,
};
use crate::ffi::types::std_types::{CharString, Uint};

verus! {

/// Asks a library to describe itself.
pub type LibGetInfoFn = fn() -> LibInfo;

/// Initialises a pipeline library.
pub type LibPipelineInitFn = fn(
    LibPipelineInitArgs<ModuleTerminationHandlerFn, ModuleOnDataReceiveCb>,
);

/// Initialises a listener library.
pub type LibListenerInitFn = fn(LibListenerInitArgs<ModuleTerminationHandlerFn>);

/// Configures a listener module.
pub type ModuleListenerConfigureFn = fn(
    ModuleListenerConfigureArgs,
) -> ModuleListenerConfigureFnResult;

/// Tells a listener that a step received a record.
pub type ModuleListenerRecordRcvFn = fn(ModuleHandle, &Record);

/// Tells a listener that a step sent a record on.
pub type ModuleListenerRecordSendSuccessFn = fn(ModuleHandle, &Record);

/// Tells a listener that a step failed to send a record on.
pub type ModuleListenerRecordSendFailureFn = fn(ModuleHandle, &Record);

/// Configures a pipeline module for a step.
pub type ModulePipelineConfigureFn = fn(
    ModulePipelineConfigureArgs,
) -> ModulePipelineConfigureFnResult;

/// Hands a record to a step. With the result comes the record itself where
/// the step did not take it.
pub type ModulePipelineProcessRecordFn = fn(ModuleHandle, Record) -> (
    ModulePipelineProcessRecordFnResult,
    Option<Record>,
);

/// Starts what runs inside a step; afterwards the step takes records.
pub type StepStartFn = fn(ModuleHandle) -> StepStartFnResult;

/// Sets a parameter of a step: the handle, the name, the value.
pub type StepSetParamFn = fn(ModuleHandle, &CharString, &CharString);

/// Tells a step to shut down.
pub type ModuleStepShutdownFn = fn(ModuleHandle);

/// Hands a record that a step produced to the host: the handle of the step,
/// and the record.
pub type ModuleOnDataReceiveCb = fn(ModuleHandle, Record);

/// Tells the host that a step has terminated.
pub type ModuleTerminationHandlerFn = fn(Uint);

/// Gives a record back to the module that handed it out.
pub type ModuleFreeRecordFn = fn(Record);

/// Gives a text back to the module that handed it out.
pub type ModuleFreeCharPtrFn = fn(CharString);

} // verus!
