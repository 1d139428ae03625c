//! Building inference requests.
//!
//! A [`Request`] accumulates named input buffers and per-request settings,
//! validating every input against the model's declared signature before it
//! is accepted. Handing a request over to the engine consumes it; see
//! [`Request::infer_async`](crate::request::Request::infer_async).

pub mod infer;
pub mod utils;

use vstd::prelude::*;

use crate::error::{Error, ErrorCode};
use crate::memory::{Buffer, DataType, MemoryType};
use crate::message::{dims_fit, min_byte_size, Model, Shape};
use crate::parameter::{Parameter, ParameterContent};
use crate::trace::Trace;

verus! {

/// Inference request sequence flag.
#[derive(Debug, Copy, Clone, PartialEq, Eq, Structural, Hash)]
pub enum Sequence {
    Start,
    End,
}

impl Sequence {
    /// The flag bits the engine uses for this flag.
    pub open spec fn bits_spec(self) -> u32 {
        match self {
            Sequence::Start => 1,
            Sequence::End => 2,
        }
    }

    /// Get the flag bits the engine uses for this flag.
    pub fn bits(self) -> (r: u32)
        ensures
            r == self.bits_spec(),
    {
        match self {
            Sequence::Start => 1,
            Sequence::End => 2,
        }
    }
}

/// The correlation of a request with related requests: unset, an unsigned
/// id, or a textual id.
#[derive(Debug, Clone, PartialEq, Eq, Hash)]
pub enum Correlation {
    Unset,
    Id(u64),
    Text(String),
}

/// Allocator that the user provides in order to produce output buffers when
/// the engine needs them. `allocate` is invoked once per requested output
/// after the inference starts.
///
/// The contract on implementors: return a buffer of at least `byte_size`
/// bytes whose location does not cross the host/device boundary relative to
/// `requested_memory_type`, and whose data type matches the output's
/// declared type. The bridge checks the size and the location at run time
/// and treats a violation as a fatal fault, never as a recoverable error;
/// see [`AllocOutcome`](crate::allocator::AllocOutcome).
pub trait Allocator: Send {
    /// Allocate an output buffer for the output named `tensor_name`.
    fn allocate(
        &mut self,
        tensor_name: String,
        requested_memory_type: MemoryType,
        byte_size: usize,
        data_type: DataType,
    ) -> Result<Buffer, Error>;

    /// Whether pre-allocation queries are answered; `false` by default.
    fn enable_queries(&self) -> bool {
        false
    }

    /// If queries are enabled, report the memory type this allocator
    /// prefers for the described output. The default returns the type the
    /// engine suggested.
    fn pre_allocation_query(
        &mut self,
        tensor_name: Option<String>,
        byte_size: Option<usize>,
        requested_memory_type: MemoryType,
    ) -> MemoryType {
        requested_memory_type
    }
}

/// Default allocator: allocates exactly the requested byte size at the
/// requested location, zero-initialized, with the hinted element type.
#[derive(Debug, Clone, Copy)]
pub struct DefaultAllocator;

impl Allocator for DefaultAllocator {
    fn allocate(
        &mut self,
        tensor_name: String,
        requested_memory_type: MemoryType,
        byte_size: usize,
        data_type: DataType,
    ) -> (r: Result<Buffer, Error>)
        ensures
            match r {
                Ok(b) => {
                    &&& requested_memory_type == MemoryType::Cpu
                    &&& b.data@.len() == byte_size
                    &&& forall|i: int| 0 <= i < b.data@.len() ==> b.data@[i] == 0
                    &&& b.data_type == data_type
                    &&& b.memory_type == requested_memory_type
                    &&& b.owned
                },
                Err(e) => requested_memory_type != MemoryType::Cpu && e.code
                    == ErrorCode::Unsupported,
            },
    {
        if !matches!(requested_memory_type, MemoryType::Cpu) {
            return Err(Error::wrong_type(requested_memory_type));
        }
        let mut data: Vec<u8> = Vec::new();
        let mut i: usize = 0;
        while i < byte_size
            invariant
                i <= byte_size,
                data@.len() == i,
                forall|j: int| 0 <= j < i ==> data@[j] == 0,
            decreases byte_size - i,
        {
            data.push(0);
            i += 1;
        }
        Ok(Buffer { data, data_type, memory_type: requested_memory_type, owned: true })
    }
}

/// Whether an input of this name is attached.
pub open spec fn has_input(inputs: Seq<(String, Buffer)>, name: Seq<char>) -> bool {
    exists|i: int| 0 <= i < inputs.len() && #[trigger] inputs[i].0@ == name
}

/// The attached inputs form a map: no name occurs twice.
pub open spec fn inputs_unique(inputs: Seq<(String, Buffer)>) -> bool {
    forall|i: int, j: int|
        0 <= i < j < inputs.len() ==> (#[trigger] inputs[i]).0@ != (#[trigger] inputs[j]).0@
}

/// The first shape of this name among `shapes`, if any.
pub open spec fn find_shape(shapes: Seq<Shape>, name: Seq<char>) -> Option<Shape>
    decreases shapes.len(),
{
    if shapes.len() == 0 {
        None
    } else if shapes[0].name@ == name {
        Some(shapes[0])
    } else {
        find_shape(shapes.drop_first(), name)
    }
}

/// `find_shape` returns the first match.
pub proof fn lemma_find_shape_at(shapes: Seq<Shape>, name: Seq<char>, i: int)
    requires
        0 <= i < shapes.len(),
        shapes[i].name@ == name,
        forall|j: int| 0 <= j < i ==> #[trigger] shapes[j].name@ != name,
    ensures
        find_shape(shapes, name) == Some(shapes[i]),
    decreases i,
{
    if i > 0 {
        lemma_find_shape_at(shapes.drop_first(), name, i - 1);
        assert(shapes.drop_first()[i - 1] == shapes[i]);
    }
}

/// `find_shape` finds nothing when no shape has the name.
pub proof fn lemma_find_shape_none(shapes: Seq<Shape>, name: Seq<char>)
    requires
        forall|j: int| 0 <= j < shapes.len() ==> #[trigger] shapes[j].name@ != name,
    ensures
        find_shape(shapes, name) is None,
    decreases shapes.len(),
{
    if shapes.len() > 0 {
        lemma_find_shape_none(shapes.drop_first(), name);
    }
}

/// The dimension list an added input is validated against: the caller's
/// override when one is given, else the model's declared dimensions.
pub open spec fn effective_dims(model_shape: Shape, dims: Option<Seq<i64>>) -> Seq<i64> {
    match dims {
        Some(d) => d,
        None => model_shape.dims@,
    }
}

/// Inference request object.
///
/// It is required to add input data and an allocator to this structure
/// before the inference is started with
/// [`infer_async`](crate::request::Request::infer_async).
pub struct Request {
    /// The metadata of the model this request addresses.
    pub model: Model,
    /// The attached inputs: one buffer per distinct input name.
    pub input: Vec<(String, Buffer)>,
    /// The allocator that will produce the output buffers.
    pub custom_allocator: Option<Box<dyn Allocator>>,
    /// The trace attached to this request, if any.
    pub custom_trace: Option<Trace>,
    pub id: String,
    pub flags: Option<Sequence>,
    pub correlation: Correlation,
    pub priority: u32,
    pub timeout_micros: u64,
    pub parameters: Vec<Parameter>,
}

/// All parts of two requests agree except the attached inputs; of the
/// allocator only its presence is compared, a capability has no deeper
/// equality.
pub open spec fn settings_eq(a: Request, b: Request) -> bool {
    &&& a.model == b.model
    &&& (a.custom_allocator is Some <==> b.custom_allocator is Some)
    &&& a.custom_trace == b.custom_trace
    &&& a.id == b.id
    &&& a.flags == b.flags
    &&& a.correlation == b.correlation
    &&& a.priority == b.priority
    &&& a.timeout_micros == b.timeout_micros
    &&& a.parameters == b.parameters
}

impl Request {
    /// The outcome that adding an input of this name, buffer and dimension
    /// override must have: `None` for acceptance, or the error code that
    /// refuses it. A duplicate name is refused first; then the name must be
    /// declared by the model; then the buffer's data type must match the
    /// declared one exactly, and the buffer must hold at least the volume
    /// that the effective dimensions describe.
    pub open spec fn input_verdict(
        self,
        name: Seq<char>,
        buffer: Buffer,
        dims: Option<Seq<i64>>,
    ) -> Option<ErrorCode> {
        if has_input(self.input@, name) {
            Some(ErrorCode::Alreadyxists)
        } else {
            match find_shape(self.model.inputs@, name) {
                None => Some(ErrorCode::NotFound),
                Some(ms) => if ms.datatype != buffer.data_type {
                    Some(ErrorCode::InvalidArg)
                } else if min_byte_size(effective_dims(ms, dims), ms.datatype)
                    > buffer.data@.len() {
                    Some(ErrorCode::InvalidArg)
                } else {
                    None
                },
            }
        }
    }

    /// Create a request against a model with the given metadata. All
    /// settings start unset, no inputs are attached, and no allocator or
    /// trace is present.
    pub fn new(model: Model) -> (r: Request)
        ensures
            r.model == model,
            r.input@ == Seq::<(String, Buffer)>::empty(),
            r.custom_allocator is None,
            r.custom_trace is None,
            r.id@ == Seq::<char>::empty(),
            r.flags is None,
            r.correlation == Correlation::Unset,
            r.priority == 0,
            r.timeout_micros == 0,
            r.parameters@ == Seq::<Parameter>::empty(),
    {
        Request {
            model,
            input: Vec::new(),
            custom_allocator: None,
            custom_trace: None,
            id: String::new(),
            flags: None,
            correlation: Correlation::Unset,
            priority: 0,
            timeout_micros: 0,
            parameters: Vec::new(),
        }
    }

    /// The name of the model this request addresses.
    pub fn model_name(&self) -> (r: &str)
        ensures
            r@ == self.model.name@,
    {
        self.model.name.as_str()
    }

    /// Attach a custom allocator to the request, replacing any attached one.
    pub fn add_allocator(&mut self, custom_allocator: Box<dyn Allocator>)
        ensures
            final(self).custom_allocator is Some,
            settings_eq(
                Request { custom_allocator: None, ..*final(self) },
                Request { custom_allocator: None, ..*old(self) },
            ),
            final(self).input@ == old(self).input@,
    {
        self.custom_allocator = Some(custom_allocator);
    }

    /// Attach the [`DefaultAllocator`] to the request.
    pub fn add_default_allocator(&mut self)
        ensures
            final(self).custom_allocator is Some,
            settings_eq(
                Request { custom_allocator: None, ..*final(self) },
                Request { custom_allocator: None, ..*old(self) },
            ),
            final(self).input@ == old(self).input@,
    {
        self.custom_allocator = Some(Box::new(DefaultAllocator));
    }

    /// Attach a trace to the request. If no trace is attached, no tracing
    /// is provided.
    pub fn add_trace(&mut self, custom_trace: Trace)
        ensures
            *final(self) == (Request { custom_trace: Some(custom_trace), ..*old(self) }),
    {
        self.custom_trace = Some(custom_trace);
    }

    /// Get the id of the request.
    pub fn get_id(&self) -> (r: &str)
        ensures
            r@ == self.id@,
    {
        self.id.as_str()
    }

    /// Set the id of the request.
    pub fn set_id(&mut self, id: &str)
        ensures
            final(self).id@ == id@,
            *final(self) == (Request { id: final(self).id, ..*old(self) }),
    {
        self.id = id.to_owned();
    }

    /// Get the sequence flag associated with the request, if one was set.
    pub fn get_flags(&self) -> (r: Option<Sequence>)
        ensures
            r == self.flags,
    {
        self.flags
    }

    /// Set the sequence flag associated with the request.
    pub fn set_flags(&mut self, flags: Sequence)
        ensures
            *final(self) == (Request { flags: Some(flags), ..*old(self) }),
    {
        self.flags = Some(flags);
    }

    /// Get the correlation id of the request as an unsigned integer. The
    /// default is zero, which indicates that the request has no correlation
    /// id; if the correlation id is textual this call fails.
    pub fn get_correlation_id(&self) -> (r: Result<u64, Error>)
        ensures
            match r {
                Ok(v) => match self.correlation {
                    Correlation::Unset => v == 0,
                    Correlation::Id(id) => v == id,
                    Correlation::Text(_) => false,
                },
                Err(e) => self.correlation is Text && e.code == ErrorCode::InvalidArg,
            },
    {
        match &self.correlation {
            Correlation::Unset => Ok(0),
            Correlation::Id(id) => Ok(*id),
            Correlation::Text(_) => Err(
                Error::new(ErrorCode::InvalidArg, "the correlation id is a string"),
            ),
        }
    }

    /// Get the correlation id of the request as a string. The default is
    /// the empty string, which indicates that the request has no
    /// correlation id; if the correlation id is an unsigned integer this
    /// call fails.
    pub fn get_correlation_id_as_string(&self) -> (r: Result<String, Error>)
        ensures
            match r {
                Ok(v) => match self.correlation {
                    Correlation::Unset => v@ == Seq::<char>::empty(),
                    Correlation::Id(_) => false,
                    Correlation::Text(t) => v@ == t@,
                },
                Err(e) => self.correlation is Id && e.code == ErrorCode::InvalidArg,
            },
    {
        match &self.correlation {
            Correlation::Unset => Ok(String::new()),
            Correlation::Id(_) => Err(
                Error::new(ErrorCode::InvalidArg, "the correlation id is an unsigned integer"),
            ),
            Correlation::Text(t) => Ok(t.clone()),
        }
    }

    /// Set the correlation id of the request to an unsigned integer.
    pub fn set_correlation_id(&mut self, id: u64)
        ensures
            *final(self) == (Request { correlation: Correlation::Id(id), ..*old(self) }),
    {
        self.correlation = Correlation::Id(id);
    }

    /// Set the correlation id of the request to a string.
    pub fn set_correlation_id_as_str(&mut self, id: &str)
        ensures
            (final(self).correlation matches Correlation::Text(t) && t@ == id@),
            *final(self) == (Request { correlation: final(self).correlation, ..*old(self) }),
    {
        self.correlation = Correlation::Text(id.to_owned());
    }

    /// Get the priority of the request. Zero indicates that the request
    /// does not specify a priority and the model's default applies.
    pub fn get_priority(&self) -> (r: u32)
        ensures
            r == self.priority,
    {
        self.priority
    }

    /// Set the priority of the request.
    pub fn set_priority(&mut self, priority: u32)
        ensures
            *final(self) == (Request { priority, ..*old(self) }),
    {
        self.priority = priority;
    }

    /// Get the timeout of the request, in microseconds. Zero indicates
    /// that the request has no timeout.
    pub fn get_timeout(&self) -> (r: u64)
        ensures
            r == self.timeout_micros,
    {
        self.timeout_micros
    }

    /// Set the timeout of the request, in microseconds.
    pub fn set_timeout(&mut self, timeout_micros: u64)
        ensures
            *final(self) == (Request { timeout_micros, ..*old(self) }),
    {
        self.timeout_micros = timeout_micros;
    }

    /// Add an input to the request, validated against the model's declared
    /// shape; see [`Request::input_verdict`] for exactly when this
    /// succeeds. The input data is returned after the inference; check
    /// [`get_input_release`](crate::request::utils) for more info.
    pub fn add_input(&mut self, input_name: &str, buffer: Buffer) -> (r: Result<(), Error>)
        ensures
            add_input_outcome(*old(self), *final(self), input_name@, buffer, None, r),
    {
        self.add_input_inner(input_name, buffer, None)
    }

    /// Add an input with the given dimensions to the request: they replace
    /// the model's declared dimensions in the size validation.
    pub fn add_input_with_dims(&mut self, input_name: &str, buffer: Buffer, dims: &Vec<i64>) -> (r:
        Result<(), Error>)
        ensures
            add_input_outcome(*old(self), *final(self), input_name@, buffer, Some(dims@), r),
    {
        self.add_input_inner(input_name, buffer, Some(dims))
    }

    /// Add an input with the given host policy. The policy name is passed
    /// on to the engine with the input data; it plays no part in
    /// validation and is not retained here.
    pub fn add_input_with_policy(&mut self, input_name: &str, buffer: Buffer, policy: &str) -> (r:
        Result<(), Error>)
        ensures
            add_input_outcome(*old(self), *final(self), input_name@, buffer, None, r),
    {
        let _ = policy;
        self.add_input_inner(input_name, buffer, None)
    }

    /// Add an input with the given host policy and dimensions.
    pub fn add_input_with_policy_and_dims(
        &mut self,
        input_name: &str,
        buffer: Buffer,
        policy: &str,
        dims: &Vec<i64>,
    ) -> (r: Result<(), Error>)
        ensures
            add_input_outcome(*old(self), *final(self), input_name@, buffer, Some(dims@), r),
    {
        let _ = policy;
        self.add_input_inner(input_name, buffer, Some(dims))
    }

    fn add_input_inner(&mut self, input_name: &str, buffer: Buffer, dims: Option<&Vec<i64>>) -> (r:
        Result<(), Error>)
        ensures
            add_input_outcome(
                *old(self),
                *final(self),
                input_name@,
                buffer,
                match dims {
                    Some(d) => Some(d@),
                    None => None,
                },
                r,
            ),
    {
        let needle = input_name.to_owned();
        // duplicate input names are refused before anything else
        let mut i: usize = 0;
        while i < self.input.len()
            invariant
                i <= self.input@.len(),
                needle@ == input_name@,
                settings_eq(*self, *old(self)),
                self.input@ == old(self).input@,
                forall|j: int| 0 <= j < i ==> #[trigger] self.input@[j].0@ != input_name@,
            decreases self.input@.len() - i,
        {
            if self.input[i].0 == needle {
                let mut message = String::from_str("the request already has a buffer for input ");
                message.append(input_name);
                return Err(Error { code: ErrorCode::Alreadyxists, message });
            }
            i += 1;
        }
        // the name must be declared by the model
        let mut k: usize = 0;
        while k < self.model.inputs.len()
            invariant
                k <= self.model.inputs@.len(),
                needle@ == input_name@,
                settings_eq(*self, *old(self)),
                self.input@ == old(self).input@,
                !has_input(old(self).input@, input_name@),
                forall|j: int|
                    0 <= j < k ==> #[trigger] self.model.inputs@[j].name@ != input_name@,
            decreases self.model.inputs@.len() - k,
        {
            if self.model.inputs[k].name == needle {
                proof {
                    lemma_find_shape_at(self.model.inputs@, input_name@, k as int);
                }
                let model_shape = &self.model.inputs[k];
                if buffer.data_type() != model_shape.datatype {
                    let mut message = String::from_str(
                        "the buffer's data type does not match the model shape for input ",
                    );
                    message.append(input_name);
                    return Err(Error { code: ErrorCode::InvalidArg, message });
                }
                let fits = match dims {
                    Some(d) => dims_fit(d, model_shape.datatype.size(), buffer.size()),
                    None => dims_fit(&model_shape.dims, model_shape.datatype.size(), buffer.size()),
                };
                if !fits {
                    let mut message = String::from_str(
                        "the buffer is smaller than the shape's minimal size for input ",
                    );
                    message.append(input_name);
                    return Err(Error { code: ErrorCode::InvalidArg, message });
                }
                let ghost before = self.input@;
                self.input.push((input_name.to_owned(), buffer));
                proof {
                    assert(self.input@.take(before.len() as int) =~= before);
                }
                return Ok(());
            }
            k += 1;
        }
        proof {
            lemma_find_shape_none(self.model.inputs@, input_name@);
        }
        let mut message = String::from_str("the model has no input named ");
        message.append(input_name);
        Err(Error { code: ErrorCode::NotFound, message })
    }

    /// Remove an input from the request; its buffer is returned. Fails
    /// with `InvalidArg` when no input of this name is attached.
    pub fn remove_input(&mut self, name: &str) -> (r: Result<Buffer, Error>)
        ensures
            settings_eq(*final(self), *old(self)),
            match r {
                Ok(buffer) => {
                    &&& exists|i: int|
                        {
                            &&& 0 <= i < old(self).input@.len()
                            &&& (#[trigger] old(self).input@[i]).0@ == name@
                            &&& old(self).input@[i].1 == buffer
                            &&& final(self).input@ == old(self).input@.remove(i)
                            &&& forall|j: int|
                                0 <= j < i ==> #[trigger] old(self).input@[j].0@ != name@
                        }
                },
                Err(e) => {
                    &&& final(self).input@ == old(self).input@
                    &&& e.code == ErrorCode::InvalidArg
                    &&& !has_input(old(self).input@, name@)
                },
            },
    {
        let needle = name.to_owned();
        let mut i: usize = 0;
        while i < self.input.len()
            invariant
                i <= self.input@.len(),
                forall|j: int| 0 <= j < i ==> #[trigger] self.input@[j].0@ != name@,
                needle@ == name@,
                settings_eq(*self, *old(self)),
                self.input@ == old(self).input@,
            decreases self.input@.len() - i,
        {
            if self.input[i].0 == needle {
                let (_, buffer) = self.input.remove(i);
                return Ok(buffer);
            }
            i += 1;
        }
        let mut message = String::from_str("no input named ");
        message.append(name);
        message.append(" is attached to the request");
        Err(Error { code: ErrorCode::InvalidArg, message })
    }

    /// Remove all the inputs from the request, returning them.
    pub fn remove_all_inputs(&mut self) -> (r: Vec<(String, Buffer)>)
        ensures
            r@ == old(self).input@,
            final(self).input@ == Seq::<(String, Buffer)>::empty(),
            settings_eq(*final(self), *old(self)),
    {
        let mut buffers: Vec<(String, Buffer)> = Vec::new();
        core::mem::swap(&mut buffers, &mut self.input);
        buffers
    }

    /// Set a parameter in the request. Byte-valued parameters are not
    /// supported by the engine's request parameter interface and are
    /// refused with `Unsupported`.
    pub fn set_parameter(&mut self, parameter: Parameter) -> (r: Result<(), Error>)
        ensures
            match r {
                Ok(()) => {
                    &&& !(parameter.content is Bytes)
                    &&& final(self).parameters@ == old(self).parameters@.push(parameter)
                    &&& *final(self) == (Request {
                        parameters: final(self).parameters,
                        ..*old(self)
                    })
                },
                Err(e) => {
                    &&& parameter.content is Bytes
                    &&& e.code == ErrorCode::Unsupported
                    &&& *final(self) == *old(self)
                },
            },
    {
        if matches!(parameter.content, ParameterContent::Bytes(_)) {
            return Err(
                Error::new(
                    ErrorCode::Unsupported,
                    "byte-valued request parameters are not supported",
                ),
            );
        }
        self.parameters.push(parameter);
        Ok(())
    }
}

/// The full outcome of adding one input: on acceptance the entry is
/// appended and everything else is untouched; on refusal the code is the
/// verdict's and nothing changes.
pub open spec fn add_input_outcome(
    pre: Request,
    post: Request,
    name: Seq<char>,
    buffer: Buffer,
    dims: Option<Seq<i64>>,
    r: Result<(), Error>,
) -> bool {
    match r {
        Ok(()) => {
            &&& pre.input_verdict(name, buffer, dims) is None
            &&& post.input@.len() == pre.input@.len() + 1
            &&& post.input@.last().0@ == name
            &&& post.input@.last().1 == buffer
            &&& post.input@.take(pre.input@.len() as int) == pre.input@
            &&& settings_eq(post, pre)
        },
        Err(e) => {
            &&& Some(e.code) == pre.input_verdict(name, buffer, dims)
            &&& post.input@ == pre.input@
            &&& settings_eq(post, pre)
        },
    }
}

/// Accepting an input keeps the input map a map: a request whose input
/// names are unique still has unique input names after any accepted
/// `add_input` call, because a duplicate name is refused.
pub proof fn lemma_add_input_keeps_names_unique(
    pre: Request,
    post: Request,
    name: Seq<char>,
    buffer: Buffer,
    dims: Option<Seq<i64>>,
)
    requires
        inputs_unique(pre.input@),
        add_input_outcome(pre, post, name, buffer, dims, Ok(())),
    ensures
        inputs_unique(post.input@),
{
    let n = pre.input@.len() as int;
    assert(!has_input(pre.input@, name));
    assert(post.input@.take(n) == pre.input@);
    assert forall|k: int| 0 <= k < n implies post.input@[k] == pre.input@[k] by {
        assert(post.input@.take(n)[k] == post.input@[k]);
    }
    assert forall|i: int, j: int|
        0 <= i < j < post.input@.len() implies (#[trigger] post.input@[i]).0@ != (
    #[trigger] post.input@[j]).0@ by {
        if j < n {
            assert(pre.input@[i].0@ != pre.input@[j].0@);
        } else {
            assert(j == n);
            assert(post.input@[j].0@ == name);
            assert(pre.input@[i].0@ != name);
        }
    }
}

} // verus!
