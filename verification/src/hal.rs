//! The capability set the host environment must supply to run the driver on
//! real hardware: address translation, a clock and cache maintenance.

use vstd::prelude::*;

verus! {

/// Host-environment primitives. A bus implementation built over a real MMIO
/// window draws on these; a simulated controller needs none of them.
pub trait Hal {
    /// Translate a virtual address inside a DMA allocation to the physical
    /// address the device sees. Must be stable for the lifetime of the
    /// allocation.
    fn virt_to_phys(va: usize) -> usize;

    /// Monotonic milliseconds; used only for timeouts.
    fn current_ms() -> u64;

    /// Make all prior CPU stores to DMA buffers visible to the device, and
    /// invalidate cached reads so device-written bytes are observed.
    fn flush_dcache();
}

} // verus!
