use vstd::prelude::*;
use vstd::string::StringExecFns;

verus! {

/// The recoverable failures the bridge surfaces to the managed caller.
///
/// A failed native initialization is not here: it aborts the process
/// rather than returning, so no value ever carries it.
#[derive(Clone, Copy, PartialEq, Eq, Structural, Debug)]
pub enum BridgeError {
    /// The prompt text embeds a null byte and cannot back a C string.
    PromptNullByte,
    /// The JSON-encoded message history embeds a null byte.
    HistoryNullByte,
    /// A one-shot native call handed back a null result pointer.
    GenerationFailed,
}

impl BridgeError {
    /// The human-readable reason attached to the error handed to the host
    /// runtime's completion callback.
    pub fn reason(&self) -> (r: String)
        ensures
            *self is PromptNullByte ==> r@ == "Prompt contained null byte"@,
            *self is HistoryNullByte ==> r@ == "JSON contained null byte"@,
            *self is GenerationFailed ==> r@ == "Generation returned null"@,
    {
        match self {
            BridgeError::PromptNullByte => String::from_str("Prompt contained null byte"),
            BridgeError::HistoryNullByte => String::from_str("JSON contained null byte"),
            BridgeError::GenerationFailed => String::from_str("Generation returned null"),
        }
    }
}

} // verus!
