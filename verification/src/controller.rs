use vstd::prelude::*;
use crate::monitor::{BrightnessReading, RawBrightness};

verus! {

/// This monitor does not expose DDC/CI brightness control (a non-DDC
/// display, or an OS/driver limitation). Expected, not an application
/// error.
#[derive(Clone, Copy, Debug, PartialEq, Eq, Structural)]
pub struct Unsupported;

/// A raw read counts as a success: the primitive did not report its
/// failure sentinel, and the triple satisfies the reading invariant.
pub open spec fn query_ok(raw: RawBrightness) -> bool {
    raw.ok && raw.minimum <= raw.current <= raw.maximum
}

/// Brightness controller `query` policy: interpret one raw platform
/// read. A read that reported the failure sentinel — or whose triple
/// breaks the reading invariant — means the monitor is unsupported;
/// any other read yields the (minimum, current, maximum) reading
/// unchanged.
pub fn query(raw: RawBrightness) -> (r: Result<BrightnessReading, Unsupported>)
    ensures
        r is Ok <==> query_ok(raw),
        r matches Ok(b) ==> b == (BrightnessReading {
            minimum: raw.minimum,
            current: raw.current,
            maximum: raw.maximum,
        }) && b.wf(),
{
    if raw.ok && raw.minimum <= raw.current && raw.current <= raw.maximum {
        Ok(BrightnessReading { minimum: raw.minimum, current: raw.current, maximum: raw.maximum })
    } else {
        Err(Unsupported)
    }
}

/// Brightness controller `apply` policy: a set-brightness call that
/// reported its failure sentinel earns the user a non-fatal notice;
/// nothing is retried and no state is rolled back, since brightness is
/// an idempotent device setting with no local cache to reconcile.
pub fn apply_notice(raw_ok: bool) -> (notice: bool)
    ensures
        notice == !raw_ok,
{
    !raw_ok
}

} // verus!
