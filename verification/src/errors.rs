use vstd::prelude::*;

verus! {

/// The error taxonomy of the control core.
///
/// `InvalidInput` rejects a session transition or battery mutation that
/// violates a precondition; `InvalidData` rejects a command whose topic is
/// unknown or whose payload does not parse. Both are recoverable: the state
/// is left unchanged and only the offending command is dropped.
#[derive(Clone, Copy, Debug, PartialEq, Eq, Structural)]
pub enum ErrorKind {
    InvalidInput,
    InvalidData,
}

/// A rejected command: its category and a human-readable reason.
#[derive(Clone, Copy, Debug, PartialEq, Eq)]
pub struct ControllerError {
    pub kind: ErrorKind,
    pub message: &'static str,
}

impl ControllerError {
    pub fn invalid_input(message: &'static str) -> (r: Self)
        ensures
            r == (ControllerError { kind: ErrorKind::InvalidInput, message }),
    {
        ControllerError { kind: ErrorKind::InvalidInput, message }
    }

    pub fn invalid_data(message: &'static str) -> (r: Self)
        ensures
            r == (ControllerError { kind: ErrorKind::InvalidData, message }),
    {
        ControllerError { kind: ErrorKind::InvalidData, message }
    }
}

} // verus!
