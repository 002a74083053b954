//! Platform capability adapter.
//!
//! The zero-copy hint is a buffer-negotiation descriptor placed directly
//! after the capture source: on the platform whose capture buffers are
//! GPU-resident it names that memory domain explicitly, so that an
//! unintended negotiation fails loudly instead of silently copying through
//! the CPU; everywhere else it is the generic raw-buffer descriptor.

use vstd::prelude::*;
use vstd::string::StringExecFns;

verus! {

/// Platform identity, as far as buffer negotiation cares about it. The
/// surrounding glue determines the variant from its build target.
#[derive(Clone, Copy, Debug, PartialEq, Eq, Structural)]
pub enum Platform {
    /// Capture buffers are GPU-resident pixel buffers.
    MacOs,
    /// Capture delivers generic raw buffers.
    Generic,
}

/// The buffer-negotiation descriptor for each platform.
pub open spec fn spec_zero_copy_hint(p: Platform) -> Seq<char> {
    match p {
        Platform::MacOs => "video/x-raw(memory:CVPixelBuffer)"@,
        Platform::Generic => "video/x-raw"@,
    }
}

/// Returns the platform's zero-copy buffer-negotiation descriptor. A pure
/// function of platform identity, not of runtime state.
pub fn zero_copy_hint(p: Platform) -> (r: String)
    ensures
        r@ == spec_zero_copy_hint(p),
{
    match p {
        Platform::MacOs => String::from_str("video/x-raw(memory:CVPixelBuffer)"),
        Platform::Generic => String::from_str("video/x-raw"),
    }
}

} // verus!
