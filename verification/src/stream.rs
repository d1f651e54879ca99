use vstd::prelude::*;
use crate::encode::{encode_c_string, no_null_bytes, nul_terminated};
use crate::error::BridgeError;

verus! {

/// Reserved first byte of a streamed chunk: the remaining bytes are an
/// error message, not generated text.
pub const ERROR_SENTINEL: u8 = 2;

/// One delivery the trampoline hands to the managed per-chunk callback.
pub enum StreamDelivery {
    /// A successful chunk of generated text.
    Text(Vec<u8>),
    /// A failure carrying the error message of a sentinel-prefixed chunk.
    Failure(Vec<u8>),
    /// The terminal delivery at end of stream: an empty success, after
    /// which the callback handle is retired.
    Finished,
}

/// The retained state of the active stream.
pub struct StreamSession {
    /// The encoded prompt, kept alive because the native side holds a raw
    /// pointer into it for the duration of the call.
    pub prompt_buffer: Vec<u8>,
}

/// The slot guarding the single stream in flight. The trampoline and the
/// stream-start routine are the only writers; the caller serializes them
/// behind one lock.
pub struct StreamSlot {
    pub session: Option<StreamSession>,
}

impl StreamSlot {
    /// Whether a stream is in flight.
    pub open spec fn is_active(&self) -> bool {
        self.session is Some
    }

    /// The retained prompt buffer of the active stream.
    pub open spec fn retained_prompt(&self) -> Seq<u8>
        recommends
            self.is_active(),
    {
        self.session->0.prompt_buffer@
    }

    /// An empty slot: no stream in flight.
    pub fn new() -> (slot: StreamSlot)
        ensures
            !slot.is_active(),
    {
        StreamSlot { session: None }
    }
}

/// What the trampoline does with one chunk, at the specification level.
pub enum ChunkEffect {
    /// Deliver these bytes as a successful chunk.
    Deliver(Seq<u8>),
    /// Deliver this error message as a failure; the stream stays open.
    Fail(Seq<u8>),
    /// Deliver the terminal empty success and retire the session.
    Finish,
    /// Invoke no callback at all.
    Skip,
}

/// A received chunk: `None` is the native side's terminating null
/// pointer, `Some` the copied bytes of a chunk buffer.
pub open spec fn chunk_view(chunk: Option<Vec<u8>>) -> Option<Seq<u8>> {
    match chunk {
        None => None,
        Some(bytes) => Some(bytes@),
    }
}

/// The delivery an exec result stands for.
pub open spec fn delivery_effect(d: Option<StreamDelivery>) -> ChunkEffect {
    match d {
        None => ChunkEffect::Skip,
        Some(StreamDelivery::Text(bytes)) => ChunkEffect::Deliver(bytes@),
        Some(StreamDelivery::Failure(message)) => ChunkEffect::Fail(message@),
        Some(StreamDelivery::Finished) => ChunkEffect::Finish,
    }
}

/// The trampoline's decision for one chunk: nothing without an active
/// session; end of stream on the null sentinel; empty chunks dropped;
/// sentinel-prefixed chunks delivered as failures; all else as text.
pub open spec fn chunk_effect(active: bool, chunk: Option<Seq<u8>>) -> ChunkEffect {
    if !active {
        ChunkEffect::Skip
    } else {
        match chunk {
            None => ChunkEffect::Finish,
            Some(bytes) => if bytes.len() == 0 {
                ChunkEffect::Skip
            } else if bytes[0] == ERROR_SENTINEL {
                ChunkEffect::Fail(bytes.subrange(1, bytes.len() as int))
            } else {
                ChunkEffect::Deliver(bytes)
            },
        }
    }
}

/// Whether the session survives the chunk: only the terminating null
/// pointer retires an active session.
pub open spec fn chunk_next_active(active: bool, chunk: Option<Seq<u8>>) -> bool {
    active && chunk is Some
}

/// The per-chunk trampoline's decision. The caller holds the slot's lock,
/// hands in the copied chunk bytes (`None` for the terminating null
/// pointer), and forwards the returned delivery, if any, to the managed
/// callback handle — retiring the handle on `Finished`.
pub fn chunk_callback(slot: &mut StreamSlot, chunk: Option<Vec<u8>>) -> (d: Option<StreamDelivery>)
    ensures
        delivery_effect(d) == chunk_effect(old(slot).is_active(), chunk_view(chunk)),
        final(slot).is_active() == chunk_next_active(old(slot).is_active(), chunk_view(chunk)),
        final(slot).is_active() ==> final(slot).retained_prompt() == old(slot).retained_prompt(),
{
    if slot.session.is_none() {
        return None;
    }
    match chunk {
        None => {
            // End of stream: clear the session; the caller delivers the
            // empty terminal success and retires the callback handle.
            slot.session = None;
            Some(StreamDelivery::Finished)
        },
        Some(bytes) => {
            if bytes.len() == 0 {
                None
            } else if bytes[0] == ERROR_SENTINEL {
                let mut message: Vec<u8> = Vec::new();
                let mut i: usize = 1;
                while i < bytes.len()
                    invariant
                        1 <= i <= bytes@.len(),
                        message@ == bytes@.subrange(1, i as int),
                    decreases bytes@.len() - i,
                {
                    message.push(bytes[i]);
                    proof {
                        assert(message@ =~= bytes@.subrange(1, i + 1));
                    }
                    i = i + 1;
                }
                Some(StreamDelivery::Failure(message))
            } else {
                Some(StreamDelivery::Text(bytes))
            }
        },
    }
}

/// Start a stream: encode the prompt and install the session, replacing
/// whatever was in the slot, as the singleton slot of the bridge does.
/// The returned buffer is the one whose pointer the native streaming call
/// retains; the session keeps an identical copy alive until the
/// terminating null pointer arrives.
pub fn generate_response_stream(slot: &mut StreamSlot, prompt: Vec<u8>) -> (r: Result<
    Vec<u8>,
    BridgeError,
>)
    ensures
        r is Ok <==> no_null_bytes(prompt@),
        r matches Ok(buf) ==> buf@ == nul_terminated(prompt@),
        r is Ok ==> final(slot).is_active() && final(slot).retained_prompt() == nul_terminated(
            prompt@,
        ),
        r matches Err(e) ==> e == BridgeError::PromptNullByte,
        r is Err ==> final(slot).is_active() == old(slot).is_active(),
        r is Err && final(slot).is_active() ==> final(slot).retained_prompt() == old(
            slot,
        ).retained_prompt(),
{
    match encode_c_string(&prompt) {
        None => Err(BridgeError::PromptNullByte),
        Some(buf) => {
            let retained = buf.clone();
            slot.session = Some(StreamSession { prompt_buffer: retained });
            proof {
                assert(slot.retained_prompt() =~= buf@);
            }
            Ok(buf)
        },
    }
}

/// Every delivery made over a whole sequence of chunks, in order; chunks
/// that invoke no callback contribute nothing.
pub open spec fn stream_deliveries(active: bool, chunks: Seq<Option<Seq<u8>>>) -> Seq<ChunkEffect>
    decreases chunks.len(),
{
    if chunks.len() == 0 {
        Seq::empty()
    } else {
        let first = chunk_effect(active, chunks[0]);
        let rest = stream_deliveries(chunk_next_active(active, chunks[0]), chunks.drop_first());
        if first is Skip {
            rest
        } else {
            seq![first] + rest
        }
    }
}

/// A run of non-empty, non-error chunks closed by the terminating null
/// pointer is delivered exactly once each, in order, followed by one
/// terminal empty success.
pub proof fn lemma_stream_delivered_in_order(chunks: Seq<Option<Seq<u8>>>)
    requires
        forall|i: int| 0 <= i < chunks.len() ==> {
            &&& #[trigger] chunks[i] is Some
            &&& chunks[i]->0.len() > 0
            &&& chunks[i]->0[0] != ERROR_SENTINEL
        },
    ensures
        stream_deliveries(true, chunks.push(None)).len() == chunks.len() + 1,
        forall|i: int| 0 <= i < chunks.len() ==> stream_deliveries(true, chunks.push(None))[i]
            == ChunkEffect::Deliver(chunks[i]->0),
        stream_deliveries(true, chunks.push(None))[chunks.len() as int] == ChunkEffect::Finish,
    decreases chunks.len(),
{
    let all = chunks.push(None);
    if chunks.len() == 0 {
        assert(all[0] is None);
        assert(all.drop_first() =~= Seq::<Option<Seq<u8>>>::empty());
        assert(stream_deliveries(false, all.drop_first()) =~= Seq::<ChunkEffect>::empty());
        assert(stream_deliveries(true, all) =~= seq![ChunkEffect::Finish]);
    } else {
        let tail = chunks.drop_first();
        assert(all.drop_first() =~= tail.push(None));
        lemma_stream_delivered_in_order(tail);
        assert(chunk_effect(true, all[0]) == ChunkEffect::Deliver(chunks[0]->0));
        assert(stream_deliveries(true, all) == seq![ChunkEffect::Deliver(chunks[0]->0)]
            + stream_deliveries(true, tail.push(None)));
        assert forall|i: int| 0 <= i < chunks.len() implies stream_deliveries(true, all)[i]
            == ChunkEffect::Deliver(chunks[i]->0) by {
            if i > 0 {
                assert(stream_deliveries(true, all)[i] == stream_deliveries(true, tail.push(None))[
                    i - 1
                ]);
                assert(tail[i - 1] == chunks[i]);
            }
        }
    }
}

/// A sentinel-prefixed chunk is delivered as a failure whose message is
/// the remaining bytes, and does not terminate the stream.
pub proof fn lemma_error_chunk_keeps_stream_open(bytes: Seq<u8>)
    requires
        bytes.len() > 0,
        bytes[0] == ERROR_SENTINEL,
    ensures
        chunk_effect(true, Some(bytes)) == ChunkEffect::Fail(bytes.subrange(1, bytes.len() as int)),
        chunk_next_active(true, Some(bytes)),
{
}

} // verus!
