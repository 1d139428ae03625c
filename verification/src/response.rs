//! Reading the result of an inference.
//!
//! The engine's response callback delivers an [`EngineReport`];
//! [`Response::new`] turns it into a [`Response`] on success, or into an
//! [`InferenceError`] carrying every already-returned output buffer on
//! failure. Harvesting buffers out of the bridge, here and in
//! [`Response::return_buffers`], is only allowed once every granted buffer
//! has been released — the caller waits on
//! [`AllocatorBridge::harvest_ready`](crate::allocator::AllocatorBridge::harvest_ready)
//! first, after dropping whatever still borrows the response.

use vstd::prelude::*;

use crate::allocator::AllocatorBridge;
use crate::memory::{Buffer, DataType, MemoryType};
use crate::parameter::Parameter;
use crate::request::infer::InferenceError;

verus! {

/// Output tensor of the model: its name, its shape, and the buffer view
/// holding the result data.
#[derive(Debug)]
pub struct Output {
    /// Name of the output tensor.
    pub name: String,
    /// Shape (dims) of the output tensor.
    pub shape: Vec<i64>,
    /// The data of the output tensor. Borrowed from the engine's response
    /// (`owned` is false) until the buffers are reclaimed through
    /// [`Response::return_buffers`].
    pub buffer: Buffer,
}

impl Output {
    /// Get the buffer containing the inference result.
    pub fn get_buffer(&self) -> (r: &Buffer)
        ensures
            *r == self.buffer,
    {
        &self.buffer
    }

    /// Get the memory type of the output tensor.
    pub fn memory_type(&self) -> (r: MemoryType)
        ensures
            r == self.buffer.memory_type,
    {
        self.buffer.memory_type
    }

    /// Get the data type of the output tensor.
    pub fn data_type(&self) -> (r: DataType)
        ensures
            r == self.buffer.data_type,
    {
        self.buffer.data_type
    }
}

/// What the engine's response callback reports: a failure, or the
/// complete output set with the response metadata.
pub enum EngineReport {
    Failure(crate::error::Error),
    Success {
        model_name: String,
        model_version: i64,
        id: String,
        outputs: Vec<Output>,
        parameters: Vec<Parameter>,
    },
}

/// A successful inference response: the ordered output set and the
/// response metadata.
#[derive(Debug)]
pub struct Response {
    pub outputs: Vec<Output>,
    /// The number of outputs that were registered for the request; the
    /// target the released-buffer counter reaches when all their buffers
    /// have come back.
    pub buffers_count: u32,
    pub parameters: Vec<Parameter>,
    pub model_name: String,
    pub model_version: i64,
    pub id: String,
}

impl Response {
    /// Read one engine report. A success report becomes a `Response`; the
    /// bridge is kept as it is, since the granted buffers are still in the
    /// engine's custody until the response is deleted. A failure report
    /// becomes an [`InferenceError`] carrying exactly the returned-buffer
    /// map, which then leaves the bridge; the caller must have waited for
    /// every granted buffer to be released.
    pub fn new(report: EngineReport, buffers_count: u32, bridge: &mut AllocatorBridge) -> (r:
        Result<Response, InferenceError>)
        requires
            report is Failure ==> old(bridge).harvest_ready_spec(),
        ensures
            final(bridge).hints@ == old(bridge).hints@,
            final(bridge).alloc_called == old(bridge).alloc_called,
            final(bridge).granted == old(bridge).granted,
            final(bridge).returned_buffers == old(bridge).returned_buffers,
            match report {
                EngineReport::Failure(e) => {
                    &&& r matches Err(ie)
                    &&& (r matches Err(ie) ==> ie.error == e && ie.output_buffers@ == old(
                        bridge,
                    ).output_buffers@)
                    &&& final(bridge).output_buffers@ == Seq::<(String, Buffer)>::empty()
                },
                EngineReport::Success { model_name, model_version, id, outputs, parameters } => {
                    &&& final(bridge).output_buffers@ == old(bridge).output_buffers@
                    &&& r matches Ok(resp)
                    &&& (r matches Ok(resp) ==> {
                        &&& resp.outputs@ == outputs@
                        &&& resp.buffers_count == buffers_count
                        &&& resp.parameters@ == parameters@
                        &&& resp.model_name == model_name
                        &&& resp.model_version == model_version
                        &&& resp.id == id
                    })
                },
            },
    {
        match report {
            EngineReport::Failure(error) => {
                let output_buffers = bridge.drain_outputs();
                Err(InferenceError { error, output_buffers })
            },
            EngineReport::Success { model_name, model_version, id, outputs, parameters } => {
                Ok(
                    Response {
                        outputs,
                        buffers_count,
                        parameters,
                        model_name,
                        model_version,
                        id,
                    },
                )
            },
        }
    }

    /// The results of the inference.
    pub fn get_outputs(&self) -> (r: &Vec<Output>)
        ensures
            r@ == self.outputs@,
    {
        &self.outputs
    }

    /// Get the result of the inference for the output named
    /// `output_name`: the first output of that name, if any.
    pub fn get_output(&self, output_name: &str) -> (r: Option<&Output>)
        ensures
            match r {
                Some(o) => exists|i: int|
                    {
                        &&& 0 <= i < self.outputs@.len()
                        &&& *o == #[trigger] self.outputs@[i]
                        &&& self.outputs@[i].name@ == output_name@
                        &&& forall|j: int|
                            0 <= j < i ==> (#[trigger] self.outputs@[j]).name@ != output_name@
                    },
                None => forall|j: int|
                    0 <= j < self.outputs@.len() ==> (#[trigger] self.outputs@[j]).name@
                        != output_name@,
            },
    {
        let needle = output_name.to_owned();
        let mut i: usize = 0;
        while i < self.outputs.len()
            invariant
                i <= self.outputs@.len(),
                needle@ == output_name@,
                forall|j: int|
                    0 <= j < i ==> (#[trigger] self.outputs@[j]).name@ != output_name@,
            decreases self.outputs@.len() - i,
        {
            if self.outputs[i].name == needle {
                return Some(&self.outputs[i]);
            }
            i += 1;
        }
        None
    }

    /// Deconstruct the response and take all the output buffers that the
    /// engine has released back. Requires that every granted buffer has
    /// come back: the caller first drops every borrowed output view (this
    /// call consumes them with the response) and then waits until
    /// [`AllocatorBridge::harvest_ready`](crate::allocator::AllocatorBridge::harvest_ready)
    /// holds — the engine releases the buffers only after the response is
    /// deleted.
    pub fn return_buffers(self, bridge: &mut AllocatorBridge) -> (r: Vec<(String, Buffer)>)
        requires
            old(bridge).harvest_ready_spec(),
        ensures
            r@ == old(bridge).output_buffers@,
            final(bridge).output_buffers@ == Seq::<(String, Buffer)>::empty(),
            final(bridge).hints@ == old(bridge).hints@,
            final(bridge).alloc_called == old(bridge).alloc_called,
            final(bridge).granted == old(bridge).granted,
            final(bridge).returned_buffers == old(bridge).returned_buffers,
    {
        bridge.drain_outputs()
    }

    /// Get the model name and version used to produce the response.
    pub fn model(&self) -> (r: (&str, i64))
        ensures
            r.0@ == self.model_name@,
            r.1 == self.model_version,
    {
        (self.model_name.as_str(), self.model_version)
    }

    /// Get the id of the request corresponding to the response.
    pub fn id(&self) -> (r: &str)
        ensures
            r@ == self.id@,
    {
        self.id.as_str()
    }

    /// Get the parameters of the response.
    pub fn parameters(&self) -> (r: &Vec<Parameter>)
        ensures
            r@ == self.parameters@,
    {
        &self.parameters
    }
}

} // verus!
