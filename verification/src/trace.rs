//! Tracing of inference requests.
//!
//! A [`Trace`] mirrors the engine-side trace object: its identity, the model
//! it reports on, its context, and the custom activities reported through
//! it. User handlers implement [`TraceHandler`] or [`TensorTraceHandler`];
//! the engine invokes them through the unverified callback layer, which
//! shares one handler block between a trace and all its children.

use vstd::prelude::*;

use crate::memory::Buffer;
use crate::message::Shape;

verus! {

/// Inference timeline events reported to a trace handler.
#[derive(Debug, Copy, Clone, PartialEq, Eq, Structural, Hash)]
pub enum Activity {
    RequestStart,
    QueueStart,
    ComputeStart,
    ComputeInputEnd,
    ComputeOutputStart,
    ComputeEnd,
    RequestEnd,
    TensorQueueInput,
    TensorBackendInput,
    TensorBackendOutput,
    CustomActivity,
}

/// Inference event handler: invoked each time a timeline event occurs, for
/// a trace and for every child trace spawned from it.
pub trait TraceHandler: Send + Sync {
    /// Report that `event` occurred at `event_time_nanos` on `trace`.
    fn trace_activity(&self, trace: &Trace, event: Activity, event_time_nanos: u64);
}

/// Tensor event handler: invoked each time a tensor passes a traced
/// boundary, for a trace and for every child trace spawned from it.
pub trait TensorTraceHandler: Send + Sync {
    /// Report that `event` occurred with the given tensor data and shape.
    fn trace_tensor_activity(
        &self,
        trace: &Trace,
        event: Activity,
        tensor_data: &Buffer,
        tensor_shape: &Shape,
    );
}

/// Inference trace object: identity, subject, and reported activities.
#[derive(Debug, Clone)]
pub struct Trace {
    pub id: u64,
    pub parent_id: u64,
    pub model_name: String,
    pub model_version: i64,
    pub request_id: String,
    pub context: String,
    pub activities: Vec<(u64, String)>,
}

impl PartialEq for Trace {
    /// Two traces are the same trace exactly when their ids agree: ids are
    /// unique across all traces created for one server.
    fn eq(&self, other: &Trace) -> (r: bool) {
        self.id == other.id
    }
}

impl vstd::std_specs::cmp::PartialEqSpecImpl for Trace {
    open spec fn obeys_eq_spec() -> bool {
        true
    }

    open spec fn eq_spec(&self, other: &Trace) -> bool {
        self.id == other.id
    }
}

impl Eq for Trace {

}

impl Trace {
    /// Create a trace with the given identity and no recorded state.
    /// Trace ids are assigned by the engine, uniquely across the server.
    pub fn new(id: u64, parent_id: u64) -> (r: Trace)
        ensures
            r.id == id,
            r.parent_id == parent_id,
            r.model_name@ == Seq::<char>::empty(),
            r.model_version == 0,
            r.request_id@ == Seq::<char>::empty(),
            r.context@ == Seq::<char>::empty(),
            r.activities@ == Seq::<(u64, String)>::empty(),
    {
        Trace {
            id,
            parent_id,
            model_name: String::new(),
            model_version: 0,
            request_id: String::new(),
            context: String::new(),
            activities: Vec::new(),
        }
    }

    /// Report a custom trace activity: it is recorded on this trace with
    /// the given timestamp and name.
    pub fn report_activity(&mut self, timestamp_nanos: u64, activity_name: &str)
        ensures
            final(self).activities@.len() == old(self).activities@.len() + 1,
            final(self).activities@.last().0 == timestamp_nanos,
            final(self).activities@.last().1@ == activity_name@,
            final(self).activities@.take(old(self).activities@.len() as int) == old(
                self,
            ).activities@,
            final(self).id == old(self).id,
            final(self).parent_id == old(self).parent_id,
            final(self).model_name == old(self).model_name,
            final(self).model_version == old(self).model_version,
            final(self).request_id == old(self).request_id,
            final(self).context == old(self).context,
    {
        self.activities.push((timestamp_nanos, activity_name.to_owned()));
        proof {
            assert(self.activities@.take(old(self).activities@.len() as int) =~= old(
                self,
            ).activities@);
        }
    }

    /// The id associated with the trace: unique across all traces created
    /// for one server.
    pub fn id(&self) -> (r: u64)
        ensures
            r == self.id,
    {
        self.id
    }

    /// The parent id associated with the trace; zero means it has no
    /// parent.
    pub fn parent_id(&self) -> (r: u64)
        ensures
            r == self.parent_id,
    {
        self.parent_id
    }

    /// The name of the model associated with the trace.
    pub fn model_name(&self) -> (r: &str)
        ensures
            r@ == self.model_name@,
    {
        self.model_name.as_str()
    }

    /// The version of the model associated with the trace.
    pub fn model_version(&self) -> (r: i64)
        ensures
            r == self.model_version,
    {
        self.model_version
    }

    /// The id of the request associated with the trace.
    pub fn request_id(&self) -> (r: &str)
        ensures
            r@ == self.request_id@,
    {
        self.request_id.as_str()
    }

    /// Spawn a child trace: the engine assigns it the fresh id `child_id`,
    /// and it reports to the same handlers as its parent.
    pub fn spawn_child(&self, child_id: u64) -> (r: Trace)
        ensures
            r.id == child_id,
            r.parent_id == self.id,
            r.model_name@ == Seq::<char>::empty(),
            r.model_version == 0,
            r.request_id@ == Seq::<char>::empty(),
            r.context@ == Seq::<char>::empty(),
            r.activities@ == Seq::<(u64, String)>::empty(),
    {
        Trace::new(child_id, self.id)
    }

    /// Set the trace context.
    pub fn set_context(&mut self, context: String)
        ensures
            *final(self) == (Trace { context, ..*old(self) }),
    {
        self.context = context;
    }

    /// Get the trace context.
    pub fn context(&self) -> (r: &str)
        ensures
            r@ == self.context@,
    {
        self.context.as_str()
    }
}

} // verus!
