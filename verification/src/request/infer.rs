//! Starting an inference: the hand-over of a built request to the engine.
//!
//! [`Request::infer_async`] validates the request, registers the model's
//! outputs, and splits it into the three parts of an in-flight inference:
//! the caller's future state, the allocator bridge, and the engine-side
//! request. The unverified layer wires them to the engine's callbacks.

use vstd::prelude::*;

use crate::allocator::AllocatorBridge;
use crate::error::{Error, ErrorCode};
use crate::memory::{Buffer, DataType};
use crate::parameter::Parameter;
use crate::request::utils::{InputRelease, RequestCanceller, ResponseFuture};
use crate::request::{Correlation, Request, Sequence};
use crate::trace::Trace;

verus! {

/// Inference result error: carries the output buffers that the
/// user-provided allocator produced before the failure, so that they can
/// be reclaimed even when the inference fails.
#[derive(Debug)]
pub struct InferenceError {
    pub error: Error,
    pub output_buffers: Vec<(String, Buffer)>,
}

impl InferenceError {
    /// An inference error that carries no output buffers.
    pub fn from_error(error: Error) -> (r: InferenceError)
        ensures
            r.error == error,
            r.output_buffers@ == Seq::<(String, Buffer)>::empty(),
    {
        InferenceError { error, output_buffers: Vec::new() }
    }
}

/// The part of an in-flight inference that passes into the engine's
/// custody: the inputs, the registered outputs, and the per-request
/// settings, as plain values.
pub struct EngineRequest {
    pub model_name: String,
    pub inputs: Vec<(String, Buffer)>,
    pub requested_outputs: Vec<String>,
    pub id: String,
    pub flags: Option<Sequence>,
    pub correlation: Correlation,
    pub priority: u32,
    pub timeout_micros: u64,
    pub parameters: Vec<Parameter>,
    pub trace: Option<Trace>,
}

/// An inference in flight: the caller keeps `future`, the engine receives
/// `engine`, and `bridge` stands between the engine's allocation callbacks
/// and the user allocator.
pub struct InflightRequest {
    pub future: ResponseFuture,
    pub bridge: AllocatorBridge,
    pub engine: EngineRequest,
}

impl Request {
    /// Perform inference using the metadata and inputs supplied by the
    /// request, consuming it. Fails with `NotFound`, before anything is
    /// handed to the engine, when no input is attached or when no
    /// allocator is attached. On success every output declared by the
    /// model is registered, with its data type as the allocation hint, and
    /// the request's parts pass into the in-flight state: inputs and
    /// settings to the engine, the allocator to the bridge, and a fresh
    /// future state to the caller.
    pub fn infer_async(self) -> (r: Result<InflightRequest, Error>)
        ensures
            match r {
                Ok(fl) => {
                    &&& self.input@.len() > 0
                    &&& self.custom_allocator is Some
                    &&& fl.engine.model_name == self.model.name
                    &&& fl.engine.inputs@ == self.input@
                    &&& fl.engine.requested_outputs@.len() == self.model.outputs@.len()
                    &&& forall|j: int|
                        0 <= j < self.model.outputs@.len()
                            ==> (#[trigger] fl.engine.requested_outputs@[j])@
                            == self.model.outputs@[j].name@
                    &&& fl.engine.id == self.id
                    &&& fl.engine.flags == self.flags
                    &&& fl.engine.correlation == self.correlation
                    &&& fl.engine.priority == self.priority
                    &&& fl.engine.timeout_micros == self.timeout_micros
                    &&& fl.engine.parameters == self.parameters
                    &&& fl.engine.trace == self.custom_trace
                    &&& fl.bridge.hints@.len() == self.model.outputs@.len()
                    &&& forall|j: int|
                        0 <= j < self.model.outputs@.len() ==> (#[trigger] fl.bridge.hints@[j]).0@
                            == self.model.outputs@[j].name@ && fl.bridge.hints@[j].1
                            == self.model.outputs@[j].datatype
                    &&& fl.bridge.output_buffers@ == Seq::<(String, Buffer)>::empty()
                    &&& !fl.bridge.alloc_called
                    &&& fl.bridge.granted == 0
                    &&& fl.bridge.returned_buffers == 0
                    &&& !fl.future.canceller.is_inferenced
                    &&& !fl.future.canceller.cancelled
                    &&& fl.future.input_release == Some(InputRelease::Pending)
                },
                Err(e) => {
                    &&& e.code == ErrorCode::NotFound
                    &&& (self.input@.len() == 0 || self.custom_allocator is None)
                },
            },
    {
        if self.input.len() == 0 {
            return Err(Error::new(ErrorCode::NotFound, "the request has no input attached"));
        }
        let Request {
            model,
            input,
            custom_allocator,
            custom_trace,
            id,
            flags,
            correlation,
            priority,
            timeout_micros,
            parameters,
        } = self;
        let allocator = match custom_allocator {
            Some(a) => a,
            None => {
                return Err(
                    Error::new(ErrorCode::NotFound, "the request has no output allocator attached"),
                );
            },
        };
        // register every output the model declares, with its datatype hint
        let mut requested_outputs: Vec<String> = Vec::new();
        let mut hints: Vec<(String, DataType)> = Vec::new();
        let mut k: usize = 0;
        while k < model.outputs.len()
            invariant
                k <= model.outputs@.len(),
                requested_outputs@.len() == k,
                hints@.len() == k,
                forall|j: int|
                    0 <= j < k ==> (#[trigger] requested_outputs@[j])@
                        == model.outputs@[j].name@,
                forall|j: int|
                    0 <= j < k ==> (#[trigger] hints@[j]).0@ == model.outputs@[j].name@
                        && hints@[j].1 == model.outputs@[j].datatype,
            decreases model.outputs@.len() - k,
        {
            let name = model.outputs[k].name.clone();
            let datatype = model.outputs[k].datatype;
            requested_outputs.push(name.clone());
            hints.push((name, datatype));
            k += 1;
        }
        let bridge = AllocatorBridge::new(allocator, hints);
        let engine = EngineRequest {
            model_name: model.name,
            inputs: input,
            requested_outputs,
            id,
            flags,
            correlation,
            priority,
            timeout_micros,
            parameters,
            trace: custom_trace,
        };
        let future = ResponseFuture {
            canceller: RequestCanceller::new(),
            input_release: Some(InputRelease::Pending),
        };
        Ok(InflightRequest { future, bridge, engine })
    }
}

} // verus!
