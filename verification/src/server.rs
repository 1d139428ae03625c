//! Server-side classifications this layer shares with its callers.
//!
//! The server process itself — creation, model loading, shutdown — lives
//! behind the engine's interface and outside this crate; what remains here
//! is the vocabulary that requests and metadata use.

use vstd::prelude::*;

verus! {

/// Kinds of instance groups recognized by the engine.
#[derive(Debug, Clone, Copy, PartialEq, Eq, Structural, Hash)]
pub enum InstanceGroup {
    /// Instances run on GPU devices when available, else on the CPU.
    Auto,
    /// Instances must run on the CPU.
    Cpu,
    /// Instances must run on the GPU.
    Gpu,
    /// Instances run where the model or backend itself specifies.
    Model,
}

impl InstanceGroup {
    /// The name of this instance-group kind, as the engine spells it.
    pub open spec fn name_spec(self) -> Seq<char> {
        match self {
            InstanceGroup::Auto => "KIND_AUTO"@,
            InstanceGroup::Cpu => "KIND_CPU"@,
            InstanceGroup::Gpu => "KIND_GPU"@,
            InstanceGroup::Model => "KIND_MODEL"@,
        }
    }

    /// Get the string representation of an instance-group kind.
    pub fn as_str(self) -> (r: &'static str)
        ensures
            r@ == self.name_spec(),
    {
        match self {
            InstanceGroup::Auto => "KIND_AUTO",
            InstanceGroup::Cpu => "KIND_CPU",
            InstanceGroup::Gpu => "KIND_GPU",
            InstanceGroup::Model => "KIND_MODEL",
        }
    }
}

} // verus!
