//! Error codes and the error value used across the crate.

use vstd::prelude::*;

verus! {

/// Error codes reported by the inference engine and by this layer.
#[derive(Debug, Clone, Copy, PartialEq, Eq, Structural, Hash)]
pub enum ErrorCode {
    Unknown,
    Internal,
    NotFound,
    InvalidArg,
    Unavailable,
    Unsupported,
    Alreadyxists,
}

/// An error: a code together with a human-readable description.
#[derive(Debug, Clone)]
pub struct Error {
    pub code: ErrorCode,
    pub message: String,
}

impl Error {
    /// Create a new error with the given code and description.
    pub fn new(code: ErrorCode, message: &str) -> (r: Error)
        ensures
            r.code == code,
            r.message@ == message@,
    {
        Error { code, message: message.to_owned() }
    }

    /// The code of this error.
    pub fn code(&self) -> (r: ErrorCode)
        ensures
            r == self.code,
    {
        self.code
    }

    /// The description this error was created with.
    pub fn message(&self) -> (r: &str)
        ensures
            r@ == self.message@,
    {
        self.message.as_str()
    }

    /// The string representation of this error's code, as the engine
    /// spells it.
    pub fn name(&self) -> (r: &'static str)
        ensures
            r@ == (match self.code {
                ErrorCode::Unknown => "Unknown"@,
                ErrorCode::Internal => "Internal"@,
                ErrorCode::NotFound => "Not found"@,
                ErrorCode::InvalidArg => "Invalid argument"@,
                ErrorCode::Unavailable => "Unavailable"@,
                ErrorCode::Unsupported => "Unsupported"@,
                ErrorCode::Alreadyxists => "Already exists"@,
            }),
    {
        match self.code {
            ErrorCode::Unknown => "Unknown",
            ErrorCode::Internal => "Internal",
            ErrorCode::NotFound => "Not found",
            ErrorCode::InvalidArg => "Invalid argument",
            ErrorCode::Unavailable => "Unavailable",
            ErrorCode::Unsupported => "Unsupported",
            ErrorCode::Alreadyxists => "Already exists",
        }
    }

    /// The error raised when a memory location is requested that this build
    /// cannot serve: device support is compiled out, so only host memory can
    /// be handled.
    pub fn wrong_type(mem_type: crate::memory::MemoryType) -> (r: Error)
        ensures
            r.code == ErrorCode::Unsupported,
    {
        let mut message = String::from_str("Got ");
        message.append(mem_type.as_str());
        message.append(" memory type with device support disabled");
        Error { code: ErrorCode::Unsupported, message }
    }
}

} // verus!
