//! The typed error/side-channel result that every bus access returns.
//!
//! A device never panics on an out-of-range access: every offset classifies
//! into exactly one of the variants below.  Only `FatalError` terminates the
//! run loop; the other variants are terminal to the single bus transaction
//! that produced them.

use vstd::prelude::*;

verus! {

/// Log level attached to stubbed accesses and contract violations.
#[derive(Clone, Copy, Debug, PartialEq, Eq, Structural)]
pub enum Severity {
    Info,
    Warn,
    Error,
}

/// A documented hardware constraint that the emulated software broke.
/// Recoverable: the access is refused, no state is corrupted.
#[derive(Clone, Copy, Debug, PartialEq, Eq, Structural)]
pub enum Violation {
    /// The Index Register was set outside the valid command range.
    /// Carries the offending value, which is still recorded for diagnostics.
    InvalidLcdCommand(u16),
    /// The Entry Mode AM field was written with the structurally invalid
    /// bit pattern `0b11`.
    InvalidEntryModeAm,
}

/// Behaviour the emulator cannot correctly reproduce.  Unrecoverable: the
/// whole system must halt, since continuing would silently diverge from the
/// hardware.  One variant per unimplemented path keeps the fatal/non-fatal
/// distinction explicit instead of hiding it behind a generic panic.
#[derive(Clone, Copy, Debug, PartialEq, Eq, Structural)]
pub enum Fatal {
    /// A command the hardware defines but the emulation does not model.
    UnimplementedLcdCommand(u16),
    /// A data write arrived while the Index Register held a value that is
    /// not a command at all: the dispatch and the validity check diverged.
    InvalidLcdCommand(u16),
    /// Vertical (AM = `0b01`) video-RAM write mode.
    UnimplementedVerticalWrite,
    /// Two-word vertical (AM = `0b10`) video-RAM write mode.
    UnimplementedTwoWordWrite,
    /// A video-RAM write found AM = `0b11`, which the Entry Mode check
    /// should have refused.
    EntryModeAmForbidden,
}

/// The outcome classification of a 32-bit bus access.
#[derive(Clone, Copy, Debug, PartialEq, Eq, Structural)]
pub enum MemException {
    /// The offset is not handled by this device: a routing miss at the
    /// device boundary, not a hardware error.
    Unmapped,
    /// The offset is a real register whose behaviour is not modelled; the
    /// carried value is a best-effort read result.
    StubRead(Severity, u32),
    /// The offset is a real register whose write behaviour is not modelled.
    StubWrite(Severity),
    /// The emulated software violated a documented hardware constraint.
    ContractViolation(Violation, Severity),
    /// The emulator met behaviour it cannot reproduce; the system must halt.
    FatalError(Fatal),
}

/// Result of a bus access: a value (or unit) on success, a classified
/// exception otherwise.
pub type MemResult<T> = Result<T, MemException>;

} // verus!
