use vstd::prelude::*;
use crate::encode::{encode_c_string, no_null_bytes, nul_terminated};
use crate::error::BridgeError;

verus! {

/// Temperature used when the caller passes none: 0.0, carried as its
/// IEEE-754 bit pattern, which is all zero.
pub const DEFAULT_TEMPERATURE_BITS: u64 = 0;

/// Token limit used when the caller passes none: 0 tells the native side
/// to use its own default.
pub const DEFAULT_MAX_TOKENS: i32 = 0;

/// A one-shot plain-prompt generation request, owned by the background
/// task until it completes.
///
/// The temperature is never read by the bridge, only passed across the
/// boundary, so it is carried as an opaque IEEE-754 bit pattern.
pub struct GenerateTask {
    /// UTF-8 bytes of the prompt text.
    pub prompt: Vec<u8>,
    pub temperature_bits: u64,
    pub max_tokens: i32,
}

/// A one-shot generation request over a JSON-encoded message history.
pub struct GenerateHistoryTask {
    /// UTF-8 bytes of the JSON-encoded message list.
    pub messages_json: Vec<u8>,
    pub temperature_bits: u64,
    pub max_tokens: i32,
}

/// The value an optional parameter contributes, or its default.
pub open spec fn or_default<T>(given: Option<T>, default: T) -> T {
    match given {
        Some(v) => v,
        None => default,
    }
}

/// Build a plain-prompt task, filling in the documented defaults for the
/// optional temperature and token limit.
pub fn generate_response(
    prompt: Vec<u8>,
    temperature_bits: Option<u64>,
    max_tokens: Option<i32>,
) -> (t: GenerateTask)
    ensures
        t.prompt@ == prompt@,
        t.temperature_bits == or_default(temperature_bits, DEFAULT_TEMPERATURE_BITS),
        t.max_tokens == or_default(max_tokens, DEFAULT_MAX_TOKENS),
{
    GenerateTask {
        prompt,
        temperature_bits: temperature_bits.unwrap_or(DEFAULT_TEMPERATURE_BITS),
        max_tokens: max_tokens.unwrap_or(DEFAULT_MAX_TOKENS),
    }
}

/// Build a message-history task, filling in the same defaults.
pub fn generate_response_with_history(
    messages_json: Vec<u8>,
    temperature_bits: Option<u64>,
    max_tokens: Option<i32>,
) -> (t: GenerateHistoryTask)
    ensures
        t.messages_json@ == messages_json@,
        t.temperature_bits == or_default(temperature_bits, DEFAULT_TEMPERATURE_BITS),
        t.max_tokens == or_default(max_tokens, DEFAULT_MAX_TOKENS),
{
    GenerateHistoryTask {
        messages_json,
        temperature_bits: temperature_bits.unwrap_or(DEFAULT_TEMPERATURE_BITS),
        max_tokens: max_tokens.unwrap_or(DEFAULT_MAX_TOKENS),
    }
}

/// The outcome of a one-shot call, over the input bytes and the reply the
/// native side would give: an embedded null fails validation before the
/// native layer is reached; a null result pointer or an empty reply is a
/// surfaced failure; otherwise the copied text is returned. A success is
/// never silently empty.
pub open spec fn one_shot_outcome(
    input: Seq<u8>,
    native: Option<Seq<u8>>,
    null_err: BridgeError,
) -> Result<Seq<u8>, BridgeError> {
    if !no_null_bytes(input) {
        Err(null_err)
    } else {
        match native {
            None => Err(BridgeError::GenerationFailed),
            Some(text) => if text.len() == 0 {
                Err(BridgeError::GenerationFailed)
            } else {
                Ok(text)
            },
        }
    }
}

impl GenerateTask {
    /// Encode the prompt for the native call, rejecting an embedded null
    /// before anything crosses the boundary.
    pub fn marshal_prompt(&self) -> (r: Result<Vec<u8>, BridgeError>)
        ensures
            r is Ok <==> no_null_bytes(self.prompt@),
            r matches Ok(buf) ==> buf@ == nul_terminated(self.prompt@),
            r matches Err(e) ==> e == BridgeError::PromptNullByte,
            r matches Err(e) ==> forall|native: Option<Seq<u8>>|
                one_shot_outcome(self.prompt@, native, BridgeError::PromptNullByte) == Err::<
                    Seq<u8>,
                    BridgeError,
                >(e),
    {
        match encode_c_string(&self.prompt) {
            Some(buf) => Ok(buf),
            None => Err(BridgeError::PromptNullByte),
        }
    }
}

impl GenerateHistoryTask {
    /// Encode the message-history JSON for the native call, rejecting an
    /// embedded null before anything crosses the boundary.
    pub fn marshal_messages(&self) -> (r: Result<Vec<u8>, BridgeError>)
        ensures
            r is Ok <==> no_null_bytes(self.messages_json@),
            r matches Ok(buf) ==> buf@ == nul_terminated(self.messages_json@),
            r matches Err(e) ==> e == BridgeError::HistoryNullByte,
            r matches Err(e) ==> forall|native: Option<Seq<u8>>|
                one_shot_outcome(self.messages_json@, native, BridgeError::HistoryNullByte)
                    == Err::<Seq<u8>, BridgeError>(e),
    {
        match encode_c_string(&self.messages_json) {
            Some(buf) => Ok(buf),
            None => Err(BridgeError::HistoryNullByte),
        }
    }
}

/// Interpret what a one-shot native call handed back: a null result
/// pointer (`None`) or an empty reply is a surfaced failure, anything
/// else is the copied text — a success is never silently empty.
pub fn complete_generation(native: Option<Vec<u8>>) -> (r: Result<Vec<u8>, BridgeError>)
    ensures
        r is Ok <==> (native matches Some(reply) && reply@.len() > 0),
        r matches Ok(text) ==> native matches Some(reply) && text@ == reply@,
        r matches Err(e) ==> e == BridgeError::GenerationFailed,
{
    match native {
        Some(reply) => if reply.len() == 0 {
            Err(BridgeError::GenerationFailed)
        } else {
            Ok(reply)
        },
        None => Err(BridgeError::GenerationFailed),
    }
}

/// A prompt with an embedded null byte fails before reaching the native
/// layer: the outcome is the validation error no matter what the native
/// side would have replied.
pub proof fn lemma_null_byte_blocks_call(
    input: Seq<u8>,
    native: Option<Seq<u8>>,
    null_err: BridgeError,
)
    requires
        !no_null_bytes(input),
    ensures
        one_shot_outcome(input, native, null_err) == Err::<Seq<u8>, BridgeError>(null_err),
{
}

/// A one-shot call on a null-free input never succeeds silently empty:
/// it succeeds exactly when the native side replies with non-empty text,
/// yielding that text; a null or empty reply is a surfaced failure.
pub proof fn lemma_no_silent_empty_success(
    input: Seq<u8>,
    native: Option<Seq<u8>>,
    null_err: BridgeError,
)
    requires
        no_null_bytes(input),
    ensures
        one_shot_outcome(input, native, null_err) matches Ok(text) ==> text.len() > 0,
        one_shot_outcome(input, native, null_err) is Ok <==> (native matches Some(reply)
            && reply.len() > 0),
{
}

} // verus!
