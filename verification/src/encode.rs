use vstd::prelude::*;

verus! {

/// True when `bytes` embeds no null, so it can back a C string.
pub open spec fn no_null_bytes(bytes: Seq<u8>) -> bool {
    forall|i: int| 0 <= i < bytes.len() ==> bytes[i] != 0u8
}

/// The null-terminated image of `bytes` whose pointer crosses the boundary.
pub open spec fn nul_terminated(bytes: Seq<u8>) -> Seq<u8> {
    bytes.push(0u8)
}

/// Scan for an embedded null byte, as the C-string conversion does.
pub fn has_null_byte(bytes: &Vec<u8>) -> (found: bool)
    ensures
        found <==> !no_null_bytes(bytes@),
{
    let mut i: usize = 0;
    while i < bytes.len()
        invariant
            i <= bytes@.len(),
            forall|j: int| 0 <= j < i ==> bytes@[j] != 0u8,
        decreases bytes@.len() - i,
    {
        if bytes[i] == 0u8 {
            return true;
        }
        i = i + 1;
    }
    false
}

/// Encode `bytes` as a null-terminated buffer for a native call.
///
/// Succeeds exactly when no null byte is embedded; the buffer is the input
/// followed by the terminator.
pub fn encode_c_string(bytes: &Vec<u8>) -> (r: Option<Vec<u8>>)
    ensures
        r is Some <==> no_null_bytes(bytes@),
        r matches Some(buf) ==> buf@ == nul_terminated(bytes@),
{
    if has_null_byte(bytes) {
        None
    } else {
        let mut buf: Vec<u8> = Vec::new();
        let mut i: usize = 0;
        while i < bytes.len()
            invariant
                i <= bytes@.len(),
                buf@ == bytes@.take(i as int),
            decreases bytes@.len() - i,
        {
            buf.push(bytes[i]);
            proof {
                assert(buf@ =~= bytes@.take(i + 1));
            }
            i = i + 1;
        }
        proof {
            assert(buf@ =~= bytes@);
        }
        buf.push(0u8);
        Some(buf)
    }
}

} // verus!
