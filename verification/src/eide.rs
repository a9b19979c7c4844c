//! The EIDE storage-controller register shim.
//!
//! A flat table of memory-mapped registers: per-drive timing configuration
//! stored directly, a config/status register exposing and clearing the two
//! channels' interrupt state, the standard IDE command-register block
//! forwarded to the generic sub-device, and unmodelled DMA registers that
//! answer as stubs -- real hardware addresses whose behaviour is not
//! emulated, kept distinct from addresses that do not exist on the device.

use vstd::prelude::*;

use crate::device::{Device, Probe};
use crate::ide::{ide_read8_spec, ide_write8_spec, IdeController, IdeIdx, IdeReg};
use crate::mem::{MemException, MemResult, Severity};

verus! {

/// Timing configuration of one drive channel, stored as written.
#[derive(Clone, Copy, Debug, PartialEq, Eq, Structural)]
pub struct IdeDriveCfg {
    pub primary_timing0: u32,
    pub primary_timing1: u32,
    pub secondary_timing0: u32,
    pub secondary_timing1: u32,
}

/// All-zero timing configuration.
pub open spec fn initial_drive_cfg() -> IdeDriveCfg {
    IdeDriveCfg { primary_timing0: 0, primary_timing1: 0, secondary_timing0: 0, secondary_timing1: 0 }
}

impl IdeDriveCfg {
    /// All-zero timing configuration.
    pub fn new() -> (c: IdeDriveCfg)
        ensures
            c == initial_drive_cfg(),
    {
        IdeDriveCfg { primary_timing0: 0, primary_timing1: 0, secondary_timing0: 0, secondary_timing1: 0 }
    }
}

/// PP5020 EIDE controller.
pub struct EIDECon {
    pub ide0_cfg: IdeDriveCfg,
    pub ide1_cfg: IdeDriveCfg,
    pub ide: IdeController,
    pub dma_control: u32,
    pub dma_length: u32,
    pub dma_addr: u32,
    pub unknown: u32,
}

/// The value the config/status register reads: bits 4 and 5 expose the two
/// channels' interrupt state.
pub open spec fn eide_cfg_status(s: EIDECon) -> u32 {
    (if s.ide.irq_ide0 {
        0x10u32
    } else {
        0u32
    }) | (if s.ide.irq_ide1 {
        0x20u32
    } else {
        0u32
    })
}

/// The result a 32-bit read returns for each offset of the register table.
/// Reads never change the shim's state.
pub open spec fn eide_read_spec(s: EIDECon, offset: u32) -> MemResult<u32> {
    if offset == 0x000 {
        Ok(s.ide0_cfg.primary_timing0)
    } else if offset == 0x004 {
        Ok(s.ide0_cfg.primary_timing1)
    } else if offset == 0x008 {
        Ok(s.ide0_cfg.secondary_timing0)
    } else if offset == 0x00c {
        Ok(s.ide0_cfg.secondary_timing1)
    } else if offset == 0x010 {
        Ok(s.ide1_cfg.primary_timing0)
    } else if offset == 0x014 {
        Ok(s.ide1_cfg.primary_timing1)
    } else if offset == 0x018 {
        Ok(s.ide1_cfg.secondary_timing0)
    } else if offset == 0x01c {
        Ok(s.ide1_cfg.secondary_timing1)
    } else if offset == 0x028 {
        Err(MemException::StubRead(Severity::Info, eide_cfg_status(s)))
    } else if offset == 0x02c {
        Err(MemException::StubRead(Severity::Error, 0))
    } else if offset == 0x1e0 {
        Ok(s.ide.data as u32)
    } else if offset == 0x1e4 {
        Ok(ide_read8_spec(s.ide, IdeReg::Error) as u32)
    } else if offset == 0x1e8 {
        Ok(ide_read8_spec(s.ide, IdeReg::SectorCount) as u32)
    } else if offset == 0x1ec {
        Ok(ide_read8_spec(s.ide, IdeReg::SectorNo) as u32)
    } else if offset == 0x1f0 {
        Ok(ide_read8_spec(s.ide, IdeReg::CylinderLo) as u32)
    } else if offset == 0x1f4 {
        Ok(ide_read8_spec(s.ide, IdeReg::CylinderHi) as u32)
    } else if offset == 0x1f8 {
        Ok(ide_read8_spec(s.ide, IdeReg::DeviceHead) as u32)
    } else if offset == 0x1fc {
        Ok(ide_read8_spec(s.ide, IdeReg::Status) as u32)
    } else if offset == 0x3f8 {
        Ok(ide_read8_spec(s.ide, IdeReg::AltStatus) as u32)
    } else if offset == 0x3fc {
        Ok(ide_read8_spec(s.ide, IdeReg::DataLatch) as u32)
    } else if offset == 0x400 {
        Err(MemException::StubRead(Severity::Error, s.dma_control))
    } else if offset == 0x408 {
        Err(MemException::StubRead(Severity::Error, s.dma_length))
    } else if offset == 0x40c {
        Err(MemException::StubRead(Severity::Error, s.dma_addr))
    } else if offset == 0x410 {
        Err(MemException::StubRead(Severity::Error, s.unknown))
    } else {
        Err(MemException::Unmapped)
    }
}

/// The transition a 32-bit write makes: the shim afterwards, and the result.
pub open spec fn eide_write_spec(s: EIDECon, offset: u32, val: u32) -> (EIDECon, MemResult<()>) {
    if offset == 0x000 {
        (EIDECon { ide0_cfg: IdeDriveCfg { primary_timing0: val, ..s.ide0_cfg }, ..s }, Ok(()))
    } else if offset == 0x004 {
        (EIDECon { ide0_cfg: IdeDriveCfg { primary_timing1: val, ..s.ide0_cfg }, ..s }, Ok(()))
    } else if offset == 0x008 {
        (EIDECon { ide0_cfg: IdeDriveCfg { secondary_timing0: val, ..s.ide0_cfg }, ..s }, Ok(()))
    } else if offset == 0x00c {
        (EIDECon { ide0_cfg: IdeDriveCfg { secondary_timing1: val, ..s.ide0_cfg }, ..s }, Ok(()))
    } else if offset == 0x010 {
        (EIDECon { ide1_cfg: IdeDriveCfg { primary_timing0: val, ..s.ide1_cfg }, ..s }, Ok(()))
    } else if offset == 0x014 {
        (EIDECon { ide1_cfg: IdeDriveCfg { primary_timing1: val, ..s.ide1_cfg }, ..s }, Ok(()))
    } else if offset == 0x018 {
        (EIDECon { ide1_cfg: IdeDriveCfg { secondary_timing0: val, ..s.ide1_cfg }, ..s }, Ok(()))
    } else if offset == 0x01c {
        (EIDECon { ide1_cfg: IdeDriveCfg { secondary_timing1: val, ..s.ide1_cfg }, ..s }, Ok(()))
    } else if offset == 0x028 {
        // Bits 4 and 5 written high clear the channels' interrupt state;
        // the rest of the register is unmodelled.
        let ide0 = if val & 0x10 != 0 {
            IdeController { irq_ide0: false, ..s.ide }
        } else {
            s.ide
        };
        let ide1 = if val & 0x20 != 0 {
            IdeController { irq_ide1: false, ..ide0 }
        } else {
            ide0
        };
        (EIDECon { ide: ide1, ..s }, Err(MemException::StubWrite(Severity::Info)))
    } else if offset == 0x02c {
        (s, Err(MemException::StubWrite(Severity::Error)))
    } else if offset == 0x1e0 {
        (EIDECon { ide: IdeController { data: val as u16, ..s.ide }, ..s }, Ok(()))
    } else if offset == 0x1e4 {
        (EIDECon { ide: ide_write8_spec(s.ide, IdeReg::Features, val as u8), ..s }, Ok(()))
    } else if offset == 0x1e8 {
        (EIDECon { ide: ide_write8_spec(s.ide, IdeReg::SectorCount, val as u8), ..s }, Ok(()))
    } else if offset == 0x1ec {
        (EIDECon { ide: ide_write8_spec(s.ide, IdeReg::SectorNo, val as u8), ..s }, Ok(()))
    } else if offset == 0x1f0 {
        (EIDECon { ide: ide_write8_spec(s.ide, IdeReg::CylinderLo, val as u8), ..s }, Ok(()))
    } else if offset == 0x1f4 {
        (EIDECon { ide: ide_write8_spec(s.ide, IdeReg::CylinderHi, val as u8), ..s }, Ok(()))
    } else if offset == 0x1f8 {
        (EIDECon { ide: ide_write8_spec(s.ide, IdeReg::DeviceHead, val as u8), ..s }, Ok(()))
    } else if offset == 0x1fc {
        (EIDECon { ide: ide_write8_spec(s.ide, IdeReg::Command, val as u8), ..s }, Ok(()))
    } else if offset == 0x3f8 {
        (EIDECon { ide: ide_write8_spec(s.ide, IdeReg::DevControl, val as u8), ..s }, Ok(()))
    } else if offset == 0x3fc {
        (EIDECon { ide: ide_write8_spec(s.ide, IdeReg::DataLatch, val as u8), ..s }, Ok(()))
    } else if offset == 0x400 {
        (EIDECon { dma_control: val, ..s }, Err(MemException::StubWrite(Severity::Error)))
    } else if offset == 0x408 {
        (EIDECon { dma_length: val, ..s }, Err(MemException::StubWrite(Severity::Error)))
    } else if offset == 0x40c {
        (EIDECon { dma_addr: val, ..s }, Err(MemException::StubWrite(Severity::Error)))
    } else if offset == 0x410 {
        (EIDECon { unknown: val, ..s }, Err(MemException::StubWrite(Severity::Error)))
    } else {
        (s, Err(MemException::Unmapped))
    }
}

/// The classification `probe` gives each offset of the register table.
pub open spec fn eide_probe_spec(offset: u32) -> Probe {
    if offset == 0x000 {
        Probe::Register("IDE0 Primary Timing 0")
    } else if offset == 0x004 {
        Probe::Register("IDE0 Primary Timing 1")
    } else if offset == 0x008 {
        Probe::Register("IDE0 Secondary Timing 0")
    } else if offset == 0x00c {
        Probe::Register("IDE0 Secondary Timing 1")
    } else if offset == 0x010 {
        Probe::Register("IDE1 Primary Timing 0")
    } else if offset == 0x014 {
        Probe::Register("IDE1 Primary Timing 1")
    } else if offset == 0x018 {
        Probe::Register("IDE1 Secondary Timing 0")
    } else if offset == 0x01c {
        Probe::Register("IDE1 Secondary Timing 1")
    } else if offset == 0x028 {
        Probe::Register("IDE0 Cfg")
    } else if offset == 0x02c {
        Probe::Register("IDE1 Cfg")
    } else if offset == 0x1e0 {
        Probe::Register("Data")
    } else if offset == 0x1e4 {
        Probe::Register("Error/Features")
    } else if offset == 0x1e8 {
        Probe::Register("Sector Count")
    } else if offset == 0x1ec {
        Probe::Register("Sector Number")
    } else if offset == 0x1f0 {
        Probe::Register("Cylinder Low")
    } else if offset == 0x1f4 {
        Probe::Register("Cylinder High")
    } else if offset == 0x1f8 {
        Probe::Register("Device Head")
    } else if offset == 0x1fc {
        Probe::Register("Status/Command")
    } else if offset == 0x3f8 {
        Probe::Register("AltStatus/DeviceControl")
    } else if offset == 0x3fc {
        Probe::Register("Data Latch")
    } else if offset == 0x400 {
        Probe::Register("DMA Control")
    } else if offset == 0x408 {
        Probe::Register("DMA Length")
    } else if offset == 0x40c {
        Probe::Register("DMA Addr")
    } else if offset == 0x410 {
        Probe::Register("?")
    } else {
        Probe::Unmapped
    }
}

impl EIDECon {
    /// A shim with zeroed timing, DMA and command registers.
    pub fn new() -> (c: EIDECon)
        ensures
            c.ide0_cfg == initial_drive_cfg(),
            c.ide1_cfg == initial_drive_cfg(),
            c.ide == crate::ide::initial_ide(),
            c.dma_control == 0,
            c.dma_length == 0,
            c.dma_addr == 0,
            c.unknown == 0,
    {
        EIDECon {
            ide0_cfg: IdeDriveCfg::new(),
            ide1_cfg: IdeDriveCfg::new(),
            ide: IdeController::new(),
            dma_control: 0,
            dma_length: 0,
            dma_addr: 0,
            unknown: 0,
        }
    }

    /// Borrow the inner IDE command block, for the storage collaborator
    /// that drives disk operations.
    pub fn as_ide(&mut self) -> (r: &mut IdeController)
        ensures
            *r == old(self).ide,
            *final(self) == (EIDECon { ide: *final(r), ..*old(self) }),
    {
        &mut self.ide
    }
}

impl Device for EIDECon {
    open spec fn wf(&self) -> bool {
        true
    }

    fn kind(&self) -> (name: &'static str)
        ensures
            name@ == "EIDE Controller"@,
    {
        "EIDE Controller"
    }

    fn probe(&self, offset: u32) -> (r: Probe)
        ensures
            r == eide_probe_spec(offset),
    {
        if offset == 0x000 {
            Probe::Register("IDE0 Primary Timing 0")
        } else if offset == 0x004 {
            Probe::Register("IDE0 Primary Timing 1")
        } else if offset == 0x008 {
            Probe::Register("IDE0 Secondary Timing 0")
        } else if offset == 0x00c {
            Probe::Register("IDE0 Secondary Timing 1")
        } else if offset == 0x010 {
            Probe::Register("IDE1 Primary Timing 0")
        } else if offset == 0x014 {
            Probe::Register("IDE1 Primary Timing 1")
        } else if offset == 0x018 {
            Probe::Register("IDE1 Secondary Timing 0")
        } else if offset == 0x01c {
            Probe::Register("IDE1 Secondary Timing 1")
        } else if offset == 0x028 {
            Probe::Register("IDE0 Cfg")
        } else if offset == 0x02c {
            Probe::Register("IDE1 Cfg")
        } else if offset == 0x1e0 {
            Probe::Register("Data")
        } else if offset == 0x1e4 {
            Probe::Register("Error/Features")
        } else if offset == 0x1e8 {
            Probe::Register("Sector Count")
        } else if offset == 0x1ec {
            Probe::Register("Sector Number")
        } else if offset == 0x1f0 {
            Probe::Register("Cylinder Low")
        } else if offset == 0x1f4 {
            Probe::Register("Cylinder High")
        } else if offset == 0x1f8 {
            Probe::Register("Device Head")
        } else if offset == 0x1fc {
            Probe::Register("Status/Command")
        } else if offset == 0x3f8 {
            Probe::Register("AltStatus/DeviceControl")
        } else if offset == 0x3fc {
            Probe::Register("Data Latch")
        } else if offset == 0x400 {
            Probe::Register("DMA Control")
        } else if offset == 0x408 {
            Probe::Register("DMA Length")
        } else if offset == 0x40c {
            Probe::Register("DMA Addr")
        } else if offset == 0x410 {
            Probe::Register("?")
        } else {
            Probe::Unmapped
        }
    }

    fn read32(&mut self, offset: u32) -> (r: MemResult<u32>)
        ensures
            *final(self) == *old(self),
            r == eide_read_spec(*old(self), offset),
    {
        if offset == 0x000 {
            Ok(self.ide0_cfg.primary_timing0)
        } else if offset == 0x004 {
            Ok(self.ide0_cfg.primary_timing1)
        } else if offset == 0x008 {
            Ok(self.ide0_cfg.secondary_timing0)
        } else if offset == 0x00c {
            Ok(self.ide0_cfg.secondary_timing1)
        } else if offset == 0x010 {
            Ok(self.ide1_cfg.primary_timing0)
        } else if offset == 0x014 {
            Ok(self.ide1_cfg.primary_timing1)
        } else if offset == 0x018 {
            Ok(self.ide1_cfg.secondary_timing0)
        } else if offset == 0x01c {
            Ok(self.ide1_cfg.secondary_timing1)
        } else if offset == 0x028 {
            let v0: u32 = if self.ide.irq_state(IdeIdx::Ide0) {
                0x10
            } else {
                0
            };
            let v1: u32 = if self.ide.irq_state(IdeIdx::Ide1) {
                0x20
            } else {
                0
            };
            Err(MemException::StubRead(Severity::Info, v0 | v1))
        } else if offset == 0x02c {
            Err(MemException::StubRead(Severity::Error, 0))
        } else if offset == 0x1e0 {
            match self.ide.read16(IdeReg::Data) {
                Ok(v) => Ok(v as u32),
                Err(e) => Err(e),
            }
        } else if offset == 0x1e4 {
            match self.ide.read8(IdeReg::Error) {
                Ok(v) => Ok(v as u32),
                Err(e) => Err(e),
            }
        } else if offset == 0x1e8 {
            match self.ide.read8(IdeReg::SectorCount) {
                Ok(v) => Ok(v as u32),
                Err(e) => Err(e),
            }
        } else if offset == 0x1ec {
            match self.ide.read8(IdeReg::SectorNo) {
                Ok(v) => Ok(v as u32),
                Err(e) => Err(e),
            }
        } else if offset == 0x1f0 {
            match self.ide.read8(IdeReg::CylinderLo) {
                Ok(v) => Ok(v as u32),
                Err(e) => Err(e),
            }
        } else if offset == 0x1f4 {
            match self.ide.read8(IdeReg::CylinderHi) {
                Ok(v) => Ok(v as u32),
                Err(e) => Err(e),
            }
        } else if offset == 0x1f8 {
            match self.ide.read8(IdeReg::DeviceHead) {
                Ok(v) => Ok(v as u32),
                Err(e) => Err(e),
            }
        } else if offset == 0x1fc {
            match self.ide.read8(IdeReg::Status) {
                Ok(v) => Ok(v as u32),
                Err(e) => Err(e),
            }
        } else if offset == 0x3f8 {
            match self.ide.read8(IdeReg::AltStatus) {
                Ok(v) => Ok(v as u32),
                Err(e) => Err(e),
            }
        } else if offset == 0x3fc {
            match self.ide.read8(IdeReg::DataLatch) {
                Ok(v) => Ok(v as u32),
                Err(e) => Err(e),
            }
        } else if offset == 0x400 {
            Err(MemException::StubRead(Severity::Error, self.dma_control))
        } else if offset == 0x408 {
            Err(MemException::StubRead(Severity::Error, self.dma_length))
        } else if offset == 0x40c {
            Err(MemException::StubRead(Severity::Error, self.dma_addr))
        } else if offset == 0x410 {
            Err(MemException::StubRead(Severity::Error, self.unknown))
        } else {
            Err(MemException::Unmapped)
        }
    }

    fn write32(&mut self, offset: u32, value: u32) -> (r: MemResult<()>)
        ensures
            *final(self) == eide_write_spec(*old(self), offset, value).0,
            r == eide_write_spec(*old(self), offset, value).1,
    {
        if offset == 0x000 {
            self.ide0_cfg.primary_timing0 = value;
            Ok(())
        } else if offset == 0x004 {
            self.ide0_cfg.primary_timing1 = value;
            Ok(())
        } else if offset == 0x008 {
            self.ide0_cfg.secondary_timing0 = value;
            Ok(())
        } else if offset == 0x00c {
            self.ide0_cfg.secondary_timing1 = value;
            Ok(())
        } else if offset == 0x010 {
            self.ide1_cfg.primary_timing0 = value;
            Ok(())
        } else if offset == 0x014 {
            self.ide1_cfg.primary_timing1 = value;
            Ok(())
        } else if offset == 0x018 {
            self.ide1_cfg.secondary_timing0 = value;
            Ok(())
        } else if offset == 0x01c {
            self.ide1_cfg.secondary_timing1 = value;
            Ok(())
        } else if offset == 0x028 {
            if value & 0x10 != 0 {
                self.ide.clear_irq(IdeIdx::Ide0);
            }
            if value & 0x20 != 0 {
                self.ide.clear_irq(IdeIdx::Ide1);
            }
            Err(MemException::StubWrite(Severity::Info))
        } else if offset == 0x02c {
            Err(MemException::StubWrite(Severity::Error))
        } else if offset == 0x1e0 {
            self.ide.write16(IdeReg::Data, value as u16)
        } else if offset == 0x1e4 {
            self.ide.write8(IdeReg::Features, value as u8)
        } else if offset == 0x1e8 {
            self.ide.write8(IdeReg::SectorCount, value as u8)
        } else if offset == 0x1ec {
            self.ide.write8(IdeReg::SectorNo, value as u8)
        } else if offset == 0x1f0 {
            self.ide.write8(IdeReg::CylinderLo, value as u8)
        } else if offset == 0x1f4 {
            self.ide.write8(IdeReg::CylinderHi, value as u8)
        } else if offset == 0x1f8 {
            self.ide.write8(IdeReg::DeviceHead, value as u8)
        } else if offset == 0x1fc {
            self.ide.write8(IdeReg::Command, value as u8)
        } else if offset == 0x3f8 {
            self.ide.write8(IdeReg::DevControl, value as u8)
        } else if offset == 0x3fc {
            self.ide.write8(IdeReg::DataLatch, value as u8)
        } else if offset == 0x400 {
            self.dma_control = value;
            Err(MemException::StubWrite(Severity::Error))
        } else if offset == 0x408 {
            self.dma_length = value;
            Err(MemException::StubWrite(Severity::Error))
        } else if offset == 0x40c {
            self.dma_addr = value;
            Err(MemException::StubWrite(Severity::Error))
        } else if offset == 0x410 {
            self.unknown = value;
            Err(MemException::StubWrite(Severity::Error))
        } else {
            Err(MemException::Unmapped)
        }
    }
}

/// Probe consistency for the storage shim: `probe` reports a register
/// exactly at the offsets the access paths accept, and the two paths agree.
/// Every real but unmodelled register answers as a stub, never as unmapped.
pub proof fn lemma_eide_probe_access_consistency(s: EIDECon, offset: u32, value: u32)
    ensures
        eide_probe_spec(offset) is Unmapped <==> eide_read_spec(s, offset) == Err::<
            u32,
            MemException,
        >(MemException::Unmapped),
        eide_probe_spec(offset) is Unmapped <==> eide_write_spec(s, offset, value).1 == Err::<
            (),
            MemException,
        >(MemException::Unmapped),
{
}

} // verus!
