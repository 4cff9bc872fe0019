//! The ceilings every plugin call runs under.

use vstd::prelude::*;

verus! {

/// Bytes of linear memory a call may hold: 256 MiB.
pub const MEMORY_LIMIT_BYTES: usize = 268435456;

/// Instances a call may have alive at once.
pub const INSTANCE_LIMIT: usize = 10;

/// The resource ceilings of one call's sandbox. Every call gets a fresh
/// sandbox with these ceilings, its own resource table, and the host's
/// standard streams; nothing is carried from one call to the next.
#[derive(Debug, Clone, Copy, PartialEq, Eq)]
pub struct SandboxLimits {
    pub memory_bytes: usize,
    pub instances: usize,
}

impl SandboxLimits {
    /// The ceilings of a plugin call.
    pub fn per_call() -> (r: Self)
        ensures
            r.memory_bytes == 256 * 1024 * 1024,
            r.instances == 10,
    {
        SandboxLimits { memory_bytes: MEMORY_LIMIT_BYTES, instances: INSTANCE_LIMIT }
    }
}

} // verus!
