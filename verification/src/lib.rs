//! Memory-mapped peripheral emulation for a handheld system-on-chip.
//!
//! Every hardware block is presented as an addressable register file that a
//! CPU-emulation core reads and writes 32 bits wide.  The centrepiece is the
//! monochrome LCD controller: its 8-bit-latched bus protocol, its
//! command/register state machine, the non-linear video-RAM addressing quirk,
//! and the palette decode that turns packed video RAM into pixels.  Beside it
//! stand a storage-controller register shim and an I/O-expander stub, both
//! implementing the same addressable-device contract.

pub mod bits;
pub mod device;
pub mod eide;
pub mod hd66753;
pub mod i2c;
pub mod ide;
pub mod mem;
pub mod render;
