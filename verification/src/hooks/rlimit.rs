//! Resource caps of a hook.

use crate::time::Duration;
use vstd::prelude::*;

verus! {

/// Caps applied to the hook child.
#[derive(Debug, Clone, Copy, PartialEq, Eq, Structural)]
pub struct RlimitCaps {
    /// CPU seconds.
    pub cpu_seconds: u64,
    /// Open file descriptors.
    pub max_open_files: u64,
    /// Process count.
    pub max_processes: u64,
    /// Maximum file size in bytes.
    pub max_file_size_bytes: u64,
}

/// CPU seconds for a timeout: twice as many, at least two, at most what 64 bits hold.
pub open spec fn cpu_seconds_for(secs: u64) -> int {
    if secs == 0 {
        2
    } else if 2 * secs > u64::MAX {
        u64::MAX as int
    } else {
        2 * secs
    }
}

/// Default caps for a hook's timeout.
pub fn default_caps_for_timeout(timeout: Duration) -> (r: RlimitCaps)
    ensures
        r.cpu_seconds == cpu_seconds_for(timeout.secs),
        r.max_open_files == 256,
        r.max_processes == 64,
        r.max_file_size_bytes == 1024 * 1024,
{
    let secs: u64 = timeout.as_secs();
    let cpu_seconds: u64 = if secs == 0 {
        2
    } else if secs > u64::MAX / 2 {
        u64::MAX
    } else {
        2 * secs
    };
    RlimitCaps {
        cpu_seconds,
        max_open_files: 256,
        max_processes: 64,
        max_file_size_bytes: 1048576,
    }
}

/// A hook may use twice its timeout of processor time, as far as 64 bits hold that, and never less
/// than two seconds.
pub proof fn processor_time_is_twice_the_timeout(secs: u64)
    ensures
        cpu_seconds_for(secs) >= 2,
        1 <= secs <= 120 ==> cpu_seconds_for(secs) == secs + secs,
        secs < 0x8000_0000_0000_0000 && secs > 0 ==> cpu_seconds_for(secs) == secs + secs,
        secs >= 0x8000_0000_0000_0000 ==> cpu_seconds_for(secs) == u64::MAX,
{
}

} // verus!
