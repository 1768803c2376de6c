use vstd::prelude::*;

verus! {

/// One physical display as enumeration reports it: an opaque
/// device handle (owned and later freed by the platform, never by this
/// crate) and a human-readable description.
#[derive(Clone, Debug)]
pub struct Monitor {
    pub handle: u64,
    pub description: String,
}

/// What the platform's get-brightness primitive hands back: whether the
/// call reported its failure sentinel, and the three raw values.
#[derive(Clone, Copy, Debug, PartialEq, Eq, Structural)]
pub struct RawBrightness {
    pub ok: bool,
    pub minimum: u32,
    pub current: u32,
    pub maximum: u32,
}

/// A successful brightness reading. Transient: recomputed on every
/// query, never persisted.
#[derive(Clone, Copy, Debug, PartialEq, Eq, Structural)]
pub struct BrightnessReading {
    pub minimum: u32,
    pub current: u32,
    pub maximum: u32,
}

impl BrightnessReading {
    /// Data invariant: the current value lies within the range.
    pub open spec fn wf(self) -> bool {
        self.minimum <= self.current <= self.maximum
    }
}

/// Enumerating monitors failed at the access layer. The registry is
/// left empty and the caller surfaces a blocking error to the user.
#[derive(Clone, Copy, Debug, PartialEq, Eq, Structural)]
pub struct EnumerationError;

} // verus!
