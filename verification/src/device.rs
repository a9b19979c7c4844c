//! The addressable-device contract.
//!
//! Every peripheral implements this uniform capability: address probing for
//! diagnostics, and 32-bit read/write with a typed result.  The bus locates a
//! device by physical address and calls these methods; the contract is the
//! abstraction boundary between the bus and the closed set of device kinds.

use vstd::prelude::*;

use crate::mem::MemResult;

verus! {

/// The classification `probe` gives an offset: either this device does not
/// decode it at all, or it is one of the device's registers, named for
/// tracing and debugging front-ends.
#[derive(Clone, Copy, Debug, PartialEq, Eq)]
pub enum Probe {
    /// The offset is not decoded by this device.
    Unmapped,
    /// The offset is a register of this device, with its diagnostic name.
    Register(&'static str),
}

/// An addressable peripheral on the memory bus.
///
/// `probe` is a pure, side-effect-free lookup used only by tracing and
/// debugging front-ends; it must classify offsets the same way the real
/// access paths do.  `read32` and `write32` may have side effects (byte
/// latches, register mutation) and classify every offset into a
/// [`MemResult`](crate::mem::MemResult); they never panic.
///
/// Each implementation defines `wf`, its own well-formedness invariant,
/// which the access methods preserve.
pub trait Device {
    /// The implementation's well-formedness invariant.
    spec fn wf(&self) -> bool;

    /// A short human-readable name for the device kind.
    fn kind(&self) -> (name: &'static str);

    /// Classify `offset` without side effects.
    fn probe(&self, offset: u32) -> (r: Probe);

    /// Read 32 bits from `offset`.
    fn read32(&mut self, offset: u32) -> (r: MemResult<u32>)
        requires
            old(self).wf(),
        ensures
            final(self).wf(),
    ;

    /// Write 32 bits to `offset`.
    fn write32(&mut self, offset: u32, value: u32) -> (r: MemResult<()>)
        requires
            old(self).wf(),
        ensures
            final(self).wf(),
    ;
}

} // verus!
