//! Request and response parameters.
//!
//! The engine also knows double-valued parameters; those cannot be
//! represented here, where floating point is out of bounds, and are handled
//! by the unverified layer around this crate.

use vstd::prelude::*;

verus! {

/// Types of parameters recognized by the inference engine.
#[derive(Debug, Copy, Clone, PartialEq, Eq, Structural, Hash)]
pub enum TritonParameterType {
    String,
    Int,
    Bool,
    Double,
    Bytes,
}

/// The value a parameter carries.
#[derive(Debug, Clone)]
pub enum ParameterContent {
    String(String),
    Int(i64),
    Bool(bool),
    Bytes(Vec<u8>),
}

/// A named parameter of a request or a response.
#[derive(Debug, Clone)]
pub struct Parameter {
    pub name: String,
    pub content: ParameterContent,
}

impl Parameter {
    /// Create a new parameter.
    pub fn new(name: &str, value: ParameterContent) -> (r: Parameter)
        ensures
            r.name@ == name@,
            r.content == value,
    {
        Parameter { name: name.to_owned(), content: value }
    }

    /// The engine-level type tag of this parameter's content.
    pub fn triton_type(&self) -> (r: TritonParameterType)
        ensures
            r == (match self.content {
                ParameterContent::String(_) => TritonParameterType::String,
                ParameterContent::Int(_) => TritonParameterType::Int,
                ParameterContent::Bool(_) => TritonParameterType::Bool,
                ParameterContent::Bytes(_) => TritonParameterType::Bytes,
            }),
    {
        match &self.content {
            ParameterContent::String(_) => TritonParameterType::String,
            ParameterContent::Int(_) => TritonParameterType::Int,
            ParameterContent::Bool(_) => TritonParameterType::Bool,
            ParameterContent::Bytes(_) => TritonParameterType::Bytes,
        }
    }
}

} // verus!
