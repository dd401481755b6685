//! Process-wide constants: the reserved application root PID, exit codes,
//! and the image format version the supervisor expects.

use vstd::prelude::*;

verus! {

/// The fixed low PID reserved for the application root process. Every cold
/// start and restore places the application root at exactly this PID so that
/// checkpoint images are reproducible and the supervisor can signal the
/// application unambiguously.
pub const APP_ROOT_PID: i32 = 300;

/// Where the kernel's `ns_last_pid` is driven when the supervisor finds its
/// own PID conflicting with the application's: the next invocation then
/// obtains a low PID.
pub const MIN_PID: i32 = 1;

/// Exit code for a failure during restore or while fetching the image
/// manifest; retrying with restore disabled avoids it.
pub const EXIT_CODE_RESTORE_FAILURE: u8 = 171;

/// Exit code for any failure before the application was ready.
pub const EXIT_CODE_FAILURE: u8 = 170;

/// The image manifest format version this supervisor produces and accepts.
pub const CURRENT_IMG_VERSION: u32 = 1;

/// Upper bound on a single control-socket request, in bytes.
pub const CONTROL_REQUEST_MAX: usize = 1024;

} // verus!
