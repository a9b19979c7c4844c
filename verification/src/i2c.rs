//! The I/O-expander stub: an I2C controller whose registers are recognised
//! but not modelled.
//!
//! Every known offset answers reads with a stub zero value and accepts but
//! does not model writes; one offset is documented as carrying button and
//! scroll-wheel input state in a future revision.

use vstd::prelude::*;

use crate::device::{Device, Probe};
use crate::mem::{MemException, MemResult, Severity};

verus! {

/// Whether `offset` is one of the stub's known registers.
pub open spec fn is_i2c_reg(offset: u32) -> bool {
    offset == 0x00c || offset == 0x100 || offset == 0x104 || offset == 0x120 || offset == 0x140
}

/// The classification `probe` gives each offset of this device.
pub open spec fn i2c_probe_spec(offset: u32) -> Probe {
    if offset == 0x00c {
        Probe::Register("Data0 (?)")
    } else if offset == 0x100 {
        Probe::Register("?")
    } else if offset == 0x104 {
        Probe::Register("?")
    } else if offset == 0x120 {
        Probe::Register("?")
    } else if offset == 0x140 {
        Probe::Register("Scroll Wheel + Keypad Buttons")
    } else {
        Probe::Unmapped
    }
}

/// I2C controller.
pub struct I2CCon {}

impl I2CCon {
    /// Construct the stub.
    pub fn new_hle() -> (c: I2CCon) {
        I2CCon {  }
    }
}

impl Device for I2CCon {
    open spec fn wf(&self) -> bool {
        true
    }

    fn kind(&self) -> (name: &'static str)
        ensures
            name@ == "I2CCon"@,
    {
        "I2CCon"
    }

    fn probe(&self, offset: u32) -> (r: Probe)
        ensures
            r == i2c_probe_spec(offset),
    {
        if offset == 0x00c {
            Probe::Register("Data0 (?)")
        } else if offset == 0x100 {
            Probe::Register("?")
        } else if offset == 0x104 {
            Probe::Register("?")
        } else if offset == 0x120 {
            Probe::Register("?")
        } else if offset == 0x140 {
            Probe::Register("Scroll Wheel + Keypad Buttons")
        } else {
            Probe::Unmapped
        }
    }

    fn read32(&mut self, offset: u32) -> (r: MemResult<u32>)
        ensures
            r == if is_i2c_reg(offset) {
                Err::<u32, MemException>(MemException::StubRead(Severity::Info, 0))
            } else {
                Err::<u32, MemException>(MemException::Unmapped)
            },
    {
        if offset == 0x00c || offset == 0x100 || offset == 0x104 || offset == 0x120 || offset
            == 0x140 {
            Err(MemException::StubRead(Severity::Info, 0))
        } else {
            Err(MemException::Unmapped)
        }
    }

    fn write32(&mut self, offset: u32, value: u32) -> (r: MemResult<()>)
        ensures
            r == if is_i2c_reg(offset) {
                Err::<(), MemException>(MemException::StubWrite(Severity::Info))
            } else {
                Err::<(), MemException>(MemException::Unmapped)
            },
    {
        if offset == 0x00c || offset == 0x100 || offset == 0x104 || offset == 0x120 || offset
            == 0x140 {
            Err(MemException::StubWrite(Severity::Info))
        } else {
            Err(MemException::Unmapped)
        }
    }
}

/// Probe consistency for the I2C stub: `probe` reports a register exactly
/// where the access paths answer as stubs; everything else is unmapped on
/// both paths.
pub proof fn lemma_i2c_probe_consistency(offset: u32)
    ensures
        i2c_probe_spec(offset) is Register <==> is_i2c_reg(offset),
{
}

} // verus!
