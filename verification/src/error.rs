//! The engine's result codes and the messages they are reported under.
use vstd::prelude::*;

verus! {

/// What the engine answers when it is asked to create, enter or leave a
/// context.
#[derive(Clone, Copy, Debug, PartialEq, Eq, Hash, Structural)]
pub enum EngineResult {
    Success,
    GenericError,
    InvalidPointer,
    InvalidCoroutine,
    NotSuspended,
    NotRunning,
    MakeContextError,
    SwitchContextError,
    NotEnoughSpace,
    OutOfMemory,
    InvalidArguments,
    InvalidOperation,
    StackOverflow,
}

impl EngineResult {
    /// Success as `Ok`, every other code as `Err` with its message.
    pub open spec fn spec_into_result(self) -> Result<(), &'static str> {
        if self == EngineResult::Success {
            Ok(())
        } else {
            Err(message_of(self))
        }
    }

    /// Turns the engine's answer into a result: the engine succeeded, or it
    /// failed and this is the message to report.
    pub fn into_result(self) -> (r: Result<(), &'static str>)
        ensures
            r == self.spec_into_result(),
    {
        match self {
            EngineResult::Success => Ok(()),
            _ => Err(error_to_str(self)),
        }
    }
}

/// The message for each result code.
pub open spec fn message_of(e: EngineResult) -> &'static str {
    match e {
        EngineResult::Success => "No error",
        EngineResult::GenericError => "Generic error",
        EngineResult::InvalidArguments => "Invalid arguments",
        EngineResult::InvalidCoroutine => "Invalid coroutine",
        EngineResult::InvalidOperation => "Invalid operation",
        EngineResult::InvalidPointer => "Invalid pointer",
        EngineResult::MakeContextError => "Make context error",
        EngineResult::NotEnoughSpace => "Not enough space",
        EngineResult::NotRunning => "Not running",
        EngineResult::NotSuspended => "Not suspended",
        EngineResult::OutOfMemory => "Out of Memory",
        EngineResult::StackOverflow => "Stack overflow",
        EngineResult::SwitchContextError => "Switch context error",
    }
}

/// The static, human-readable message of a result code.
pub fn error_to_str(e: EngineResult) -> (msg: &'static str)
    ensures
        msg == message_of(e),
{
    match e {
        EngineResult::Success => "No error",
        EngineResult::GenericError => "Generic error",
        EngineResult::InvalidArguments => "Invalid arguments",
        EngineResult::InvalidCoroutine => "Invalid coroutine",
        EngineResult::InvalidOperation => "Invalid operation",
        EngineResult::InvalidPointer => "Invalid pointer",
        EngineResult::MakeContextError => "Make context error",
        EngineResult::NotEnoughSpace => "Not enough space",
        EngineResult::NotRunning => "Not running",
        EngineResult::NotSuspended => "Not suspended",
        EngineResult::OutOfMemory => "Out of Memory",
        EngineResult::StackOverflow => "Stack overflow",
        EngineResult::SwitchContextError => "Switch context error",
    }
}

} // verus!
