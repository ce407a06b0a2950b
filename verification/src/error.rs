//! The error type shared by the editor's subsystems.
use vstd::prelude::*;

verus! {

#[derive(Debug, Clone, PartialEq, Eq)]
pub enum ElcaraxError {
    InvalidInput(String),
    Io(String),
    NotFound(String),
    Project(String),
    Adapter(String),
    Command(String),
    Internal(String),
}

/// The text an error is shown with: a kind prefix and its message.
pub open spec fn elcarax_error_text(e: ElcaraxError) -> Seq<char> {
    match e {
        ElcaraxError::InvalidInput(m) => "invalid input: "@ + m@,
        ElcaraxError::Io(m) => "io error: "@ + m@,
        ElcaraxError::NotFound(m) => "not found: "@ + m@,
        ElcaraxError::Project(m) => "project error: "@ + m@,
        ElcaraxError::Adapter(m) => "adapter error: "@ + m@,
        ElcaraxError::Command(m) => "command error: "@ + m@,
        ElcaraxError::Internal(m) => "internal error: "@ + m@,
    }
}

impl ElcaraxError {
    pub fn invalid_input(message: &str) -> (r: Self)
        ensures
            r matches ElcaraxError::InvalidInput(m) && m@ == message@,
    {
        ElcaraxError::InvalidInput(message.to_owned())
    }

    pub fn not_found(message: &str) -> (r: Self)
        ensures
            r matches ElcaraxError::NotFound(m) && m@ == message@,
    {
        ElcaraxError::NotFound(message.to_owned())
    }

    /// The text this error is shown with.
    pub fn message(&self) -> (r: String)
        ensures
            r@ == elcarax_error_text(*self),
    {
        match self {
            ElcaraxError::InvalidInput(m) => crate::text::concat2("invalid input: ", m.as_str()),
            ElcaraxError::Io(m) => crate::text::concat2("io error: ", m.as_str()),
            ElcaraxError::NotFound(m) => crate::text::concat2("not found: ", m.as_str()),
            ElcaraxError::Project(m) => crate::text::concat2("project error: ", m.as_str()),
            ElcaraxError::Adapter(m) => crate::text::concat2("adapter error: ", m.as_str()),
            ElcaraxError::Command(m) => crate::text::concat2("command error: ", m.as_str()),
            ElcaraxError::Internal(m) => crate::text::concat2("internal error: ", m.as_str()),
        }
    }
}

} // verus!
