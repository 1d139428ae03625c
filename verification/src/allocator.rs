//! The response-allocator bridge.
//!
//! One [`AllocatorBridge`] serves one in-flight request. The engine asks it
//! for output buffers ([`allocate`](AllocatorBridge::allocate)), holds the granted
//! buffer for the duration of the inference, and hands it back
//! ([`release`](AllocatorBridge::release)) once the memory may be reclaimed.
//! Released buffers gather in the returned-buffer map, from which the caller
//! harvests them after the response has settled; the released counter
//! against the granted counter is the readiness signal for that harvest.

use vstd::prelude::*;

use crate::error::{Error, ErrorCode};
use crate::memory::{Buffer, DataType, MemoryType};
use crate::request::Allocator;

verus! {

/// Whether a produced buffer's location stays on the same side of the
/// host/device boundary as the requested one: pinned host memory may stand
/// in for either side, but plain host and device memory never substitute
/// for each other.
pub open spec fn location_family_ok(requested: MemoryType, got: MemoryType) -> bool {
    !(requested == MemoryType::Cpu && got == MemoryType::Gpu) && !(requested == MemoryType::Gpu
        && got == MemoryType::Cpu)
}

/// The record that travels with a granted output buffer: the engine holds
/// it while it uses the buffer and returns it through
/// [`AllocatorBridge::release`], which is the only way the buffer becomes
/// retrievable again. Only the bridge mints tickets, so a buffer cannot be
/// released more often than it was granted.
pub struct ReleaseTicket {
    name: String,
    buffer: Buffer,
}

impl ReleaseTicket {
    /// The name of the output tensor the buffer was granted for.
    pub closed spec fn name_spec(&self) -> Seq<char> {
        self.name@
    }

    /// The granted buffer.
    pub closed spec fn buffer_spec(&self) -> Buffer {
        self.buffer
    }

    /// The name of the output tensor the buffer was granted for.
    pub fn name(&self) -> (r: &str)
        ensures
            r@ == self.name_spec(),
    {
        self.name.as_str()
    }

    /// The granted buffer.
    pub fn buffer(&self) -> (r: &Buffer)
        ensures
            *r == self.buffer_spec(),
    {
        &self.buffer
    }
}

/// How a user allocator broke its contract. Either fault would hand the
/// engine memory it cannot safely use, so the process must abort: this is
/// a caller bug, not a recoverable error.
#[derive(Debug, Copy, Clone, PartialEq, Eq, Structural)]
pub enum AllocFault {
    /// The produced buffer is smaller than the requested byte size.
    TooSmall,
    /// The produced buffer's location crosses the host/device boundary.
    LocationCrossing,
}

impl AllocFault {
    /// A description of the fault.
    pub fn as_str(self) -> (r: &'static str)
        ensures
            r@ == (match self {
                AllocFault::TooSmall => "the allocator produced a smaller buffer than requested"@,
                AllocFault::LocationCrossing => "the allocator produced a buffer on the wrong side of the host/device boundary"@,
            }),
    {
        match self {
            AllocFault::TooSmall => "the allocator produced a smaller buffer than requested",
            AllocFault::LocationCrossing => "the allocator produced a buffer on the wrong side of the host/device boundary",
        }
    }
}

/// The outcome of one allocation callback.
pub enum AllocOutcome {
    /// The buffer was accepted: the engine receives it, together with the
    /// ticket it must hand back through [`AllocatorBridge::release`] once
    /// the memory may be reclaimed.
    Granted(ReleaseTicket),
    /// No buffer was produced: the error is reported back to the engine
    /// through its error convention, and the inference as a whole fails
    /// with it. Outputs already granted stay recoverable.
    Refused(Error),
    /// The user allocator broke its contract; the caller must abort the
    /// process rather than hand the buffer to the engine.
    Fatal(AllocFault),
}

/// The first datatype hint of this name, if any.
pub open spec fn find_hint(hints: Seq<(String, DataType)>, name: Seq<char>) -> Option<DataType>
    decreases hints.len(),
{
    if hints.len() == 0 {
        None
    } else if hints[0].0@ == name {
        Some(hints[0].1)
    } else {
        find_hint(hints.drop_first(), name)
    }
}

pub proof fn lemma_find_hint_at(hints: Seq<(String, DataType)>, name: Seq<char>, i: int)
    requires
        0 <= i < hints.len(),
        hints[i].0@ == name,
        forall|j: int| 0 <= j < i ==> (#[trigger] hints[j]).0@ != name,
    ensures
        find_hint(hints, name) == Some(hints[i].1),
    decreases i,
{
    if i > 0 {
        lemma_find_hint_at(hints.drop_first(), name, i - 1);
        assert(hints.drop_first()[i - 1] == hints[i]);
    }
}

pub proof fn lemma_find_hint_none(hints: Seq<(String, DataType)>, name: Seq<char>)
    requires
        forall|j: int| 0 <= j < hints.len() ==> (#[trigger] hints[j]).0@ != name,
    ensures
        find_hint(hints, name) is None,
    decreases hints.len(),
{
    if hints.len() > 0 {
        lemma_find_hint_none(hints.drop_first(), name);
    }
}

/// Look up the declared data type of the named output.
fn lookup_hint(hints: &Vec<(String, DataType)>, needle: &String) -> (r: Option<DataType>)
    ensures
        r == find_hint(hints@, needle@),
{
    let mut k: usize = 0;
    while k < hints.len()
        invariant
            k <= hints@.len(),
            forall|j: int| 0 <= j < k ==> (#[trigger] hints@[j]).0@ != needle@,
        decreases hints@.len() - k,
    {
        if hints[k].0 == *needle {
            proof {
                lemma_find_hint_at(hints@, needle@, k as int);
            }
            return Some(hints[k].1);
        }
        k += 1;
    }
    proof {
        lemma_find_hint_none(hints@, needle@);
    }
    None
}

/// The outcome owed for what the user allocator produced. Its own error
/// is passed on unchanged, failing this output; a produced buffer smaller
/// than requested, or one crossing the host/device boundary, is a fatal
/// contract breach; anything else is granted, under a ticket carrying
/// exactly the produced buffer.
pub open spec fn produced_verdict(
    produced: Result<Buffer, Error>,
    name: Seq<char>,
    requested: MemoryType,
    byte_size: int,
    r: AllocOutcome,
) -> bool {
    match produced {
        Err(e) => r matches AllocOutcome::Refused(err) && err == e,
        Ok(b) => if b.data@.len() < byte_size {
            r == AllocOutcome::Fatal(AllocFault::TooSmall)
        } else if !location_family_ok(requested, b.memory_type) {
            r == AllocOutcome::Fatal(AllocFault::LocationCrossing)
        } else {
            r matches AllocOutcome::Granted(t) && t.name_spec() == name && t.buffer_spec() == b
        },
    }
}

/// Classify what the user allocator produced for the named output:
/// exactly the verdict of [`produced_verdict`], for every possible result.
pub fn vet_produced(
    produced: Result<Buffer, Error>,
    tensor_name: &str,
    requested_memory_type: MemoryType,
    byte_size: usize,
) -> (r: AllocOutcome)
    ensures
        produced_verdict(produced, tensor_name@, requested_memory_type, byte_size as int, r),
{
    let users_buffer = match produced {
        Ok(b) => b,
        Err(e) => {
            return AllocOutcome::Refused(e);
        },
    };
    if users_buffer.size() < byte_size {
        return AllocOutcome::Fatal(AllocFault::TooSmall);
    }
    let crossing = (matches!(requested_memory_type, MemoryType::Cpu) && matches!(
        users_buffer.memory_type(),
        MemoryType::Gpu,
    )) || (matches!(requested_memory_type, MemoryType::Gpu) && matches!(
        users_buffer.memory_type(),
        MemoryType::Cpu,
    ));
    if crossing {
        return AllocOutcome::Fatal(AllocFault::LocationCrossing);
    }
    AllocOutcome::Granted(ReleaseTicket { name: tensor_name.to_owned(), buffer: users_buffer })
}

/// The bridge between the engine's allocation callbacks and the user
/// allocator. A new bridge serves each request.
pub struct AllocatorBridge {
    /// The user allocator that produces the output buffers.
    pub custom: Box<dyn Allocator>,
    /// The declared data type of each requested output, by name.
    pub hints: Vec<(String, DataType)>,
    /// The returned-buffer map: what `release` has handed back so far.
    pub output_buffers: Vec<(String, Buffer)>,
    /// Whether any allocation was asked of the user allocator.
    pub alloc_called: bool,
    /// How many buffers were granted to the engine.
    pub granted: u32,
    /// How many granted buffers the engine has released. Monotonically
    /// increasing; the sole readiness signal for harvesting.
    pub returned_buffers: u32,
}

impl AllocatorBridge {
    /// A fresh bridge for one request, with the given datatype hints.
    pub fn new(custom: Box<dyn Allocator>, hints: Vec<(String, DataType)>) -> (r: AllocatorBridge)
        ensures
            r.hints@ == hints@,
            r.output_buffers@ == Seq::<(String, Buffer)>::empty(),
            !r.alloc_called,
            r.granted == 0,
            r.returned_buffers == 0,
    {
        AllocatorBridge {
            custom,
            hints,
            output_buffers: Vec::new(),
            alloc_called: false,
            granted: 0,
            returned_buffers: 0,
        }
    }

    /// Whether every granted buffer has been released: then, and only
    /// then, may the returned-buffer map be harvested.
    pub open spec fn harvest_ready_spec(&self) -> bool {
        self.returned_buffers >= self.granted
    }

    /// Whether any allocation was asked of the user allocator.
    pub fn is_alloc_called(&self) -> (r: bool)
        ensures
            r == self.alloc_called,
    {
        self.alloc_called
    }

    /// Whether every granted buffer has been released. The caller polls
    /// this before harvesting: the engine releases the granted buffers on
    /// its own threads, so readiness arrives asynchronously.
    pub fn harvest_ready(&self) -> (r: bool)
        ensures
            r == self.harvest_ready_spec(),
    {
        self.returned_buffers >= self.granted
    }

    /// Serve one allocation callback: look up the output's declared data
    /// type, ask the user allocator for a buffer, and classify what it
    /// produced through [`vet_produced`], whose contract fixes the outcome
    /// for every possible result of that call — the user's own error is
    /// refused onward unchanged, and a fault is fatal exactly on a
    /// contract breach. An unknown output name is refused with an
    /// `Internal` error before the user allocator is involved.
    pub fn allocate(&mut self, tensor_name: &str, requested_memory_type: MemoryType, byte_size: usize)
        -> (r: AllocOutcome)
        requires
            old(self).granted < u32::MAX,
        ensures
            final(self).hints@ == old(self).hints@,
            final(self).output_buffers@ == old(self).output_buffers@,
            final(self).returned_buffers == old(self).returned_buffers,
            match r {
                AllocOutcome::Granted(t) => {
                    &&& find_hint(old(self).hints@, tensor_name@) is Some
                    &&& final(self).alloc_called
                    &&& final(self).granted == old(self).granted + 1
                    &&& t.name_spec() == tensor_name@
                    &&& t.buffer_spec().data@.len() >= byte_size
                    &&& location_family_ok(requested_memory_type, t.buffer_spec().memory_type)
                },
                AllocOutcome::Refused(e) => {
                    &&& final(self).granted == old(self).granted
                    &&& if find_hint(old(self).hints@, tensor_name@) is None {
                        e.code == ErrorCode::Internal && final(self).alloc_called == old(
                            self,
                        ).alloc_called
                    } else {
                        final(self).alloc_called
                    }
                },
                AllocOutcome::Fatal(_) => {
                    &&& find_hint(old(self).hints@, tensor_name@) is Some
                    &&& final(self).granted == old(self).granted
                    &&& final(self).alloc_called
                },
            },
    {
        let needle = tensor_name.to_owned();
        let data_type = match lookup_hint(&self.hints, &needle) {
            Some(dt) => dt,
            None => {
                let mut message = String::from_str("no datatype hint for output tensor ");
                message.append(tensor_name);
                return AllocOutcome::Refused(Error { code: ErrorCode::Internal, message });
            },
        };
        self.alloc_called = true;
        let produced = self.custom.allocate(
            needle,
            requested_memory_type,
            byte_size,
            data_type,
        );
        let outcome = vet_produced(produced, tensor_name, requested_memory_type, byte_size);
        match outcome {
            AllocOutcome::Granted(ticket) => {
                self.granted = self.granted + 1;
                AllocOutcome::Granted(ticket)
            },
            other => other,
        }
    }

    /// Serve one release callback: the granted buffer comes back and is
    /// put into the returned-buffer map under its tensor name; the
    /// released counter grows by one. This is the only path by which a
    /// buffer becomes retrievable after inference.
    pub fn release(&mut self, ticket: ReleaseTicket)
        requires
            old(self).returned_buffers < u32::MAX,
        ensures
            final(self).output_buffers@.len() == old(self).output_buffers@.len() + 1,
            final(self).output_buffers@.last().0@ == ticket.name_spec(),
            final(self).output_buffers@.last().1 == ticket.buffer_spec(),
            final(self).output_buffers@.take(old(self).output_buffers@.len() as int) == old(
                self,
            ).output_buffers@,
            final(self).returned_buffers == old(self).returned_buffers + 1,
            final(self).alloc_called == old(self).alloc_called,
            final(self).granted == old(self).granted,
            final(self).hints@ == old(self).hints@,
    {
        let ReleaseTicket { name, buffer } = ticket;
        let ghost before = self.output_buffers@;
        self.output_buffers.push((name, buffer));
        self.returned_buffers = self.returned_buffers + 1;
        proof {
            assert(self.output_buffers@.take(before.len() as int) =~= before);
        }
    }

    /// Serve one pre-allocation query: bridge it to the user allocator's
    /// preference. The bridge state is not touched.
    pub fn query(
        &mut self,
        tensor_name: Option<String>,
        byte_size: Option<usize>,
        memory_type: MemoryType,
    ) -> (r: MemoryType)
        ensures
            final(self).hints@ == old(self).hints@,
            final(self).output_buffers@ == old(self).output_buffers@,
            final(self).alloc_called == old(self).alloc_called,
            final(self).granted == old(self).granted,
            final(self).returned_buffers == old(self).returned_buffers,
    {
        self.custom.pre_allocation_query(tensor_name, byte_size, memory_type)
    }

    /// Take the returned-buffer map out of the bridge.
    pub fn drain_outputs(&mut self) -> (r: Vec<(String, Buffer)>)
        ensures
            r@ == old(self).output_buffers@,
            final(self).output_buffers@ == Seq::<(String, Buffer)>::empty(),
            final(self).hints@ == old(self).hints@,
            final(self).alloc_called == old(self).alloc_called,
            final(self).granted == old(self).granted,
            final(self).returned_buffers == old(self).returned_buffers,
    {
        let mut drained: Vec<(String, Buffer)> = Vec::new();
        core::mem::swap(&mut drained, &mut self.output_buffers);
        drained
    }
}

/// A request whose allocator was never asked for a buffer has nothing to
/// wait for: the readiness signal holds from the start, so harvesting the
/// returned buffers can never hang on such a request.
pub proof fn lemma_harvest_ready_without_grants(bridge: AllocatorBridge)
    requires
        bridge.granted == 0,
    ensures
        bridge.harvest_ready_spec(),
{
}

} // verus!
