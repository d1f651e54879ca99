use vstd::prelude::*;
use vstd::string::StringExecFns;

verus! {

/// The status code with which the native side reports the model available.
pub const AVAILABLE_STATUS: i32 = 1;

/// What the availability query reports to the managed caller.
pub struct ModelAvailability {
    pub available: bool,
    pub reason: String,
}

/// Whether a native status code counts as available: only the exact
/// success code does.
pub open spec fn spec_available(status: int) -> bool {
    status == AVAILABLE_STATUS as int
}

/// The reason the report carries: a fixed text on success; otherwise the
/// reason string fetched from the native side, with a fixed fallback when
/// the native side gave none (a null reason pointer), so an unavailable
/// report always explains itself.
pub open spec fn spec_reason(status: int, native_reason: Seq<char>) -> Seq<char> {
    if spec_available(status) {
        "Available"@
    } else if native_reason.len() == 0 {
        "Unavailable"@
    } else {
        native_reason
    }
}

/// Build the availability report from the native status code and the
/// reason string fetched on non-success.
///
/// The caller fetches `native_reason` from the native side only when the
/// status is not the success code; on success any value may be passed and
/// is ignored.
pub fn check_availability(status: i32, native_reason: String) -> (r: ModelAvailability)
    ensures
        r.available == spec_available(status as int),
        r.reason@ == spec_reason(status as int, native_reason@),
{
    if status == AVAILABLE_STATUS {
        ModelAvailability { available: true, reason: String::from_str("Available") }
    } else if native_reason.as_str().is_empty() {
        ModelAvailability { available: false, reason: String::from_str("Unavailable") }
    } else {
        ModelAvailability { available: false, reason: native_reason }
    }
}

/// The report says available only on the exact success status, and its
/// reason is never empty: every other status carries the native reason
/// through when there is one, and the fixed fallback when there is none.
pub proof fn lemma_availability_report(status: int, native_reason: Seq<char>)
    ensures
        spec_available(status) <==> status == AVAILABLE_STATUS as int,
        spec_reason(status, native_reason).len() > 0,
        !spec_available(status) && native_reason.len() > 0 ==> spec_reason(status, native_reason)
            == native_reason,
{
    reveal_strlit("Available");
    reveal_strlit("Unavailable");
}

} // verus!
