//! The generic IDE command-register sub-device, at the register-table level.
//!
//! The storage shim forwards 8- and 16-bit sub-accesses here, keyed by a
//! small enumeration of register roles.  The command engine that would act
//! on these registers (issuing disk operations, raising interrupts on
//! completion) is an external collaborator; this model holds the register
//! file itself and the per-channel interrupt lines the shim exposes.

use vstd::prelude::*;

use crate::mem::MemResult;

verus! {

/// The two drive channels of the controller.
#[derive(Clone, Copy, Debug, PartialEq, Eq, Structural)]
pub enum IdeIdx {
    Ide0,
    Ide1,
}

/// The roles of the IDE command-register block.  Error/Features and
/// Status/Command are read/write pairs sharing an address; AltStatus is a
/// second read window onto Status.
#[derive(Clone, Copy, Debug, PartialEq, Eq, Structural)]
pub enum IdeReg {
    Data,
    Error,
    Features,
    SectorCount,
    SectorNo,
    CylinderLo,
    CylinderHi,
    DeviceHead,
    Status,
    Command,
    AltStatus,
    DevControl,
    DataLatch,
}

/// The register file of the IDE command block, plus the two interrupt
/// lines.  Every field is plain storage: reads return what was last stored,
/// writes replace it.
#[derive(Clone, Copy, Debug, PartialEq, Eq, Structural)]
pub struct IdeController {
    /// 16-bit data port.
    pub data: u16,
    pub error: u8,
    pub features: u8,
    pub sector_count: u8,
    pub sector_no: u8,
    pub cylinder_lo: u8,
    pub cylinder_hi: u8,
    pub device_head: u8,
    /// Status; also visible through the AltStatus window.
    pub status: u8,
    pub command: u8,
    pub dev_control: u8,
    pub data_latch: u8,
    /// Interrupt state of channel 0, asserted by the command engine and
    /// cleared through the shim's config register.
    pub irq_ide0: bool,
    /// Interrupt state of channel 1.
    pub irq_ide1: bool,
}

/// The 8-bit register a role reads: its backing field, with AltStatus
/// reading Status and the data port reading its low byte.
pub open spec fn ide_read8_spec(c: IdeController, reg: IdeReg) -> u8 {
    match reg {
        IdeReg::Data => (c.data & 0xff) as u8,
        IdeReg::Error => c.error,
        IdeReg::Features => c.features,
        IdeReg::SectorCount => c.sector_count,
        IdeReg::SectorNo => c.sector_no,
        IdeReg::CylinderLo => c.cylinder_lo,
        IdeReg::CylinderHi => c.cylinder_hi,
        IdeReg::DeviceHead => c.device_head,
        IdeReg::Status => c.status,
        IdeReg::Command => c.command,
        IdeReg::AltStatus => c.status,
        IdeReg::DevControl => c.dev_control,
        IdeReg::DataLatch => c.data_latch,
    }
}

/// The register file after an 8-bit write to a role: the backing field
/// replaced, with AltStatus writing Status and the data port taking the
/// byte zero-extended.
pub open spec fn ide_write8_spec(c: IdeController, reg: IdeReg, v: u8) -> IdeController {
    match reg {
        IdeReg::Data => IdeController { data: v as u16, ..c },
        IdeReg::Error => IdeController { error: v, ..c },
        IdeReg::Features => IdeController { features: v, ..c },
        IdeReg::SectorCount => IdeController { sector_count: v, ..c },
        IdeReg::SectorNo => IdeController { sector_no: v, ..c },
        IdeReg::CylinderLo => IdeController { cylinder_lo: v, ..c },
        IdeReg::CylinderHi => IdeController { cylinder_hi: v, ..c },
        IdeReg::DeviceHead => IdeController { device_head: v, ..c },
        IdeReg::Status => IdeController { status: v, ..c },
        IdeReg::Command => IdeController { command: v, ..c },
        IdeReg::AltStatus => IdeController { status: v, ..c },
        IdeReg::DevControl => IdeController { dev_control: v, ..c },
        IdeReg::DataLatch => IdeController { data_latch: v, ..c },
    }
}

/// The interrupt line of a channel.
pub open spec fn ide_irq_spec(c: IdeController, idx: IdeIdx) -> bool {
    match idx {
        IdeIdx::Ide0 => c.irq_ide0,
        IdeIdx::Ide1 => c.irq_ide1,
    }
}

/// The reset state of the register file: every register and both interrupt
/// lines cleared.
pub open spec fn initial_ide() -> IdeController {
    IdeController {
        data: 0,
        error: 0,
        features: 0,
        sector_count: 0,
        sector_no: 0,
        cylinder_lo: 0,
        cylinder_hi: 0,
        device_head: 0,
        status: 0,
        command: 0,
        dev_control: 0,
        data_latch: 0,
        irq_ide0: false,
        irq_ide1: false,
    }
}

impl IdeController {
    /// A controller with every register and both interrupt lines cleared.
    pub fn new() -> (c: IdeController)
        ensures
            c == initial_ide(),
    {
        IdeController {
            data: 0,
            error: 0,
            features: 0,
            sector_count: 0,
            sector_no: 0,
            cylinder_lo: 0,
            cylinder_hi: 0,
            device_head: 0,
            status: 0,
            command: 0,
            dev_control: 0,
            data_latch: 0,
            irq_ide0: false,
            irq_ide1: false,
        }
    }

    /// Whether the channel's interrupt line is asserted.
    pub fn irq_state(&self, idx: IdeIdx) -> (r: bool)
        ensures
            r == ide_irq_spec(*self, idx),
    {
        match idx {
            IdeIdx::Ide0 => self.irq_ide0,
            IdeIdx::Ide1 => self.irq_ide1,
        }
    }

    /// Assert a channel's interrupt line.  The command engine that decides
    /// when an operation completes is outside this model; it hands the
    /// event in through this method.
    pub fn raise_irq(&mut self, idx: IdeIdx)
        ensures
            idx == IdeIdx::Ide0 ==> *final(self) == (IdeController {
                irq_ide0: true,
                ..*old(self)
            }),
            idx == IdeIdx::Ide1 ==> *final(self) == (IdeController {
                irq_ide1: true,
                ..*old(self)
            }),
    {
        match idx {
            IdeIdx::Ide0 => self.irq_ide0 = true,
            IdeIdx::Ide1 => self.irq_ide1 = true,
        }
    }

    /// Clear a channel's interrupt line.
    pub fn clear_irq(&mut self, idx: IdeIdx)
        ensures
            idx == IdeIdx::Ide0 ==> *final(self) == (IdeController {
                irq_ide0: false,
                ..*old(self)
            }),
            idx == IdeIdx::Ide1 ==> *final(self) == (IdeController {
                irq_ide1: false,
                ..*old(self)
            }),
    {
        match idx {
            IdeIdx::Ide0 => self.irq_ide0 = false,
            IdeIdx::Ide1 => self.irq_ide1 = false,
        }
    }

    /// Read the 8-bit register behind a role.
    pub fn read8(&mut self, reg: IdeReg) -> (r: MemResult<u8>)
        ensures
            *final(self) == *old(self),
            r == Ok::<u8, crate::mem::MemException>(ide_read8_spec(*old(self), reg)),
    {
        let v = match reg {
            IdeReg::Data => {
                let w = self.data;
                proof {
                    assert(w & 0xff <= 0xff) by (bit_vector);
                }
                (w & 0xff) as u8
            }
            IdeReg::Error => self.error,
            IdeReg::Features => self.features,
            IdeReg::SectorCount => self.sector_count,
            IdeReg::SectorNo => self.sector_no,
            IdeReg::CylinderLo => self.cylinder_lo,
            IdeReg::CylinderHi => self.cylinder_hi,
            IdeReg::DeviceHead => self.device_head,
            IdeReg::Status => self.status,
            IdeReg::Command => self.command,
            IdeReg::AltStatus => self.status,
            IdeReg::DevControl => self.dev_control,
            IdeReg::DataLatch => self.data_latch,
        };
        Ok(v)
    }

    /// Write the 8-bit register behind a role.
    pub fn write8(&mut self, reg: IdeReg, v: u8) -> (r: MemResult<()>)
        ensures
            *final(self) == ide_write8_spec(*old(self), reg, v),
            r == Ok::<(), crate::mem::MemException>(()),
    {
        match reg {
            IdeReg::Data => self.data = v as u16,
            IdeReg::Error => self.error = v,
            IdeReg::Features => self.features = v,
            IdeReg::SectorCount => self.sector_count = v,
            IdeReg::SectorNo => self.sector_no = v,
            IdeReg::CylinderLo => self.cylinder_lo = v,
            IdeReg::CylinderHi => self.cylinder_hi = v,
            IdeReg::DeviceHead => self.device_head = v,
            IdeReg::Status => self.status = v,
            IdeReg::Command => self.command = v,
            IdeReg::AltStatus => self.status = v,
            IdeReg::DevControl => self.dev_control = v,
            IdeReg::DataLatch => self.data_latch = v,
        }
        Ok(())
    }

    /// Read the 16-bit data port.
    pub fn read16(&mut self, reg: IdeReg) -> (r: MemResult<u16>)
        requires
            reg == IdeReg::Data,
        ensures
            *final(self) == *old(self),
            r == Ok::<u16, crate::mem::MemException>(old(self).data),
    {
        Ok(self.data)
    }

    /// Write the 16-bit data port.
    pub fn write16(&mut self, reg: IdeReg, v: u16) -> (r: MemResult<()>)
        requires
            reg == IdeReg::Data,
        ensures
            *final(self) == (IdeController { data: v, ..*old(self) }),
            r == Ok::<(), crate::mem::MemException>(()),
    {
        self.data = v;
        Ok(())
    }
}

} // verus!
