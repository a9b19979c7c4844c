//! The monochrome LCD controller: an 8-bit-latched bus front end over a
//! command/register state machine and a non-linearly addressed video RAM.
//!
//! The controller drives a 168x132 display at 2 bits per pixel.  Its video
//! RAM is not linearly addressed: within every 0x20-word row only columns
//! `0x00..=0x14` exist on the hardware.  The emulated store is padded to the
//! full 256-column layout so the Address Counter indexes it directly, and the
//! auto-increment logic reproduces the hardware's two-level wraparound.

use vstd::prelude::*;

use crate::bits::{
    apply_mask, bit, combine, field, get_bit, get_field, lemma_mask_all, lemma_mask_none,
    rotate_left16, rotl16,
};
use crate::device::{Device, Probe};
use crate::mem::{Fatal, MemException, MemResult, Severity, Violation};

verus! {

/// Logical display width in pixels.
pub const CGRAM_WIDTH: usize = 168;

/// Logical display height in pixels.
pub const CGRAM_HEIGHT: usize = 132;

/// The padded store is 256 columns wide, 2 bits per pixel, so each row of
/// the store is 0x20 words of 16 bits and the whole store is 0x1080 words.
pub const EMU_CGRAM_LEN: usize = 0x1080;

/// The internal register set: configuration fields extracted from command
/// words.  Fields are only written by a successful command decode.
#[derive(Clone, Copy, Debug, PartialEq, Eq)]
pub struct LcdRegs {
    /// Driver Output Control: common-driver shift direction.
    pub cms: bool,
    /// Driver Output Control: segment-driver shift direction.
    pub sgs: bool,
    /// Driver Output Control: number of lines, 5 bits.
    pub nl: u16,
    /// Contrast Control: voltage regulator amplification, 3 bits.
    pub vr: u16,
    /// Contrast Control: contrast level, 7 bits.
    pub ct: u16,
    /// Entry Mode: increment (`true`) or decrement (`false`) direction.
    pub i_d: bool,
    /// Entry Mode: address-counter update mode, 2 bits; `0b11` is invalid.
    pub am: u16,
    /// Entry Mode: logical-operation selector for video-RAM writes, 2 bits.
    pub lg: u16,
    /// Rotation: left-rotate amount in units of 2 bits, 3 bits.
    pub rt: u16,
    /// Display Control: screen-partition flag.
    pub spt: bool,
    /// Display Control: grayscale high level, 2 bits.
    pub gsh: u16,
    /// Display Control: grayscale low level, 2 bits.
    pub gsl: u16,
    /// Display Control: invert flag, shared with the renderer.
    pub rev: bool,
    /// Display Control: display-on flag.
    pub d: bool,
    /// Write Data Mask: bits set here retain the stored video-RAM value.
    pub wm: u16,
}

/// The abstract state of the controller: byte latches, Index Register,
/// Address Counter, configuration registers, and the video-RAM contents.
#[verifier::ext_equal]
pub ghost struct LcdV {
    /// Visible display width the controller was constructed for.
    pub width: usize,
    /// Visible display height the controller was constructed for.
    pub height: usize,
    /// Pending high byte of a 16-bit Command-register write.
    pub cmd_write_latch: Option<u8>,
    /// Pending high byte of a 16-bit Data-register write.
    pub data_write_latch: Option<u8>,
    /// Pending low byte of a 16-bit register read.
    pub read_latch: Option<u8>,
    /// Index Register: selects the command a data write affects.
    pub ir: u16,
    /// Address Counter: word index into video RAM, in `[0, 0x1080)`.
    pub ac: u16,
    /// Configuration registers.
    pub regs: LcdRegs,
    /// Video RAM, one 16-bit word per entry, padded to the 256-column layout.
    pub cgram: Seq<u16>,
}

impl LcdV {
    /// Well-formedness: the Address Counter stays inside the padded store
    /// and every configuration field fits its documented bit width.
    pub open spec fn inv(self) -> bool {
        &&& self.cgram.len() == EMU_CGRAM_LEN
        &&& self.ac < 0x1080
        &&& self.regs.nl <= 0x1f
        &&& self.regs.vr <= 0x7
        &&& self.regs.ct <= 0x7f
        &&& self.regs.am <= 2
        &&& self.regs.lg <= 3
        &&& self.regs.rt <= 7
        &&& self.regs.gsh <= 3
        &&& self.regs.gsl <= 3
    }
}

/// The configuration registers of a freshly constructed controller.
pub open spec fn initial_regs() -> LcdRegs {
    LcdRegs {
        cms: false,
        sgs: false,
        nl: 0,
        vr: 0,
        ct: 0,
        i_d: false,
        am: 0,
        lg: 0,
        rt: 0,
        spt: false,
        gsh: 0,
        gsl: 0,
        rev: false,
        d: false,
        wm: 0,
    }
}

/// The state of a freshly constructed controller: empty latches, Index
/// Register and Address Counter at zero, video RAM cleared.
pub open spec fn initial(width: usize, height: usize) -> LcdV {
    LcdV {
        width: width,
        height: height,
        cmd_write_latch: None,
        data_write_latch: None,
        read_latch: None,
        ir: 0,
        ac: 0,
        regs: initial_regs(),
        cgram: Seq::new(EMU_CGRAM_LEN as nat, |i: int| 0u16),
    }
}

/// Commands the hardware defines but the emulation does not model: Screen
/// Driving Waveform (0x02), Power Control (0x03), Cursor Control (0x08),
/// Horizontal/Vertical Cursor Position (0x0b, 0x0c), and the two Screen
/// Driving Position commands (0x0d, 0x0e).
pub open spec fn is_unimplemented_cmd(ir: u16) -> bool {
    ir == 0x02 || ir == 0x03 || ir == 0x08 || (0x0b <= ir && ir <= 0x0e)
}

/// One auto-update of the Address Counter after a video-RAM write, in the
/// direction given by `inc`.  First a plain increment or decrement modulo
/// the full store size 0x1080; then, if that leaves the counter past the
/// last valid column 0x14 of its row, a jump to the start of the next row
/// (incrementing) or to column 0x14 of the current row (decrementing, which
/// the plain decrement has already moved into), again modulo 0x1080.
pub open spec fn ac_advance(ac: u16, inc: bool) -> u16
    recommends
        ac < 0x1080,
{
    let a0 = (if inc {
        (ac + 1) % 0x1080
    } else {
        (ac + 0x107f) % 0x1080
    }) as u16;
    if a0 & 0x1f > 0x14 {
        (((if inc {
            (a0 & !0x1f) + 0x20
        } else {
            (a0 & !0x1f) + 0x14
        })) % 0x1080) as u16
    } else {
        a0
    }
}

/// The transition a latched 16-bit data write makes, dispatched on the
/// current Index Register: the state after the write and its result.
pub open spec fn handle_data_spec(s: LcdV, val: u16) -> (LcdV, MemResult<()>) {
    if s.ir == 0x01 {
        // Driver Output Control
        (
            LcdV {
                regs: LcdRegs {
                    cms: bit(val, 9),
                    sgs: bit(val, 8),
                    nl: field(val, 0, 0x1f),
                    ..s.regs
                },
                ..s
            },
            Ok(()),
        )
    } else if s.ir == 0x04 {
        // Contrast Control
        (
            LcdV {
                regs: LcdRegs { vr: field(val, 8, 0x7), ct: field(val, 0, 0x7f), ..s.regs },
                ..s
            },
            Ok(()),
        )
    } else if s.ir == 0x05 {
        // Entry Mode; AM = 0b11 is structurally invalid and sets nothing.
        if field(val, 2, 0x3) == 3 {
            (s, Err(MemException::ContractViolation(Violation::InvalidEntryModeAm, Severity::Error)))
        } else {
            (
                LcdV {
                    regs: LcdRegs {
                        i_d: bit(val, 4),
                        am: field(val, 2, 0x3),
                        lg: field(val, 0, 0x3),
                        ..s.regs
                    },
                    ..s
                },
                Ok(()),
            )
        }
    } else if s.ir == 0x06 {
        // Rotation
        (LcdV { regs: LcdRegs { rt: field(val, 0, 0x7), ..s.regs }, ..s }, Ok(()))
    } else if s.ir == 0x07 {
        // Display Control
        (
            LcdV {
                regs: LcdRegs {
                    spt: bit(val, 8),
                    gsh: field(val, 4, 0x3),
                    gsl: field(val, 2, 0x3),
                    rev: bit(val, 1),
                    d: bit(val, 0),
                    ..s.regs
                },
                ..s
            },
            Ok(()),
        )
    } else if s.ir == 0x09 || s.ir == 0x0a {
        // No-ops: legal, no effect.
        (s, Ok(()))
    } else if s.ir == 0x10 {
        // RAM Write Data Mask
        (LcdV { regs: LcdRegs { wm: val, ..s.regs }, ..s }, Ok(()))
    } else if s.ir == 0x11 {
        // RAM Address Set
        (LcdV { ac: val % 0x1080, ..s }, Ok(()))
    } else if s.ir == 0x12 {
        // Write Data to CGRAM: rotate, combine, mask, store, advance.
        let rot = rotl16(val, (s.regs.rt * 2) as u16);
        let stored = s.cgram[s.ac as int];
        let neww = apply_mask(s.regs.wm, stored, combine(s.regs.lg, stored, rot));
        let cg = s.cgram.update(s.ac as int, neww);
        if s.regs.am == 0 {
            (LcdV { cgram: cg, ac: ac_advance(s.ac, s.regs.i_d), ..s }, Ok(()))
        } else if s.regs.am == 1 {
            (LcdV { cgram: cg, ..s }, Err(MemException::FatalError(Fatal::UnimplementedVerticalWrite)))
        } else if s.regs.am == 2 {
            (LcdV { cgram: cg, ..s }, Err(MemException::FatalError(Fatal::UnimplementedTwoWordWrite)))
        } else {
            (LcdV { cgram: cg, ..s }, Err(MemException::FatalError(Fatal::EntryModeAmForbidden)))
        }
    } else if is_unimplemented_cmd(s.ir) {
        (s, Err(MemException::FatalError(Fatal::UnimplementedLcdCommand(s.ir))))
    } else {
        // 0x00, 0x0f, and anything past 0x12: not a command at all.
        (s, Err(MemException::FatalError(Fatal::InvalidLcdCommand(s.ir))))
    }
}

/// The transition a 32-bit bus write makes.  The Command and Data registers
/// each have their own write latch: the first byte of a pair is stored with
/// no other effect, the second combines as `(first << 8) | second` into the
/// logical 16-bit transaction.
pub open spec fn write_step(s: LcdV, offset: u32, value: u32) -> (LcdV, MemResult<()>) {
    let b = value as u8;
    if offset == 0x8 {
        match s.cmd_write_latch {
            None => (LcdV { cmd_write_latch: Some(b), ..s }, Ok(())),
            Some(hi) => {
                let w = ((hi as u16) << 8u16) | (b as u16);
                let s1 = LcdV { cmd_write_latch: None, ir: w, ..s };
                if w > 0x12 {
                    (
                        s1,
                        Err(MemException::ContractViolation(
                            Violation::InvalidLcdCommand(w),
                            Severity::Error,
                        )),
                    )
                } else {
                    (s1, Ok(()))
                }
            }
        }
    } else if offset == 0x10 {
        match s.data_write_latch {
            None => (LcdV { data_write_latch: Some(b), ..s }, Ok(())),
            Some(hi) => {
                let w = ((hi as u16) << 8u16) | (b as u16);
                handle_data_spec(LcdV { data_write_latch: None, ..s }, w)
            }
        }
    } else {
        (s, Err(MemException::Unmapped))
    }
}

/// The transition a 32-bit bus read makes.  A pending low byte from an
/// earlier read is drained first, whatever the offset; otherwise the full
/// 16-bit register value is computed, its low byte latched, and its high
/// byte returned.
pub open spec fn read_step(s: LcdV, offset: u32) -> (LcdV, MemResult<u32>) {
    match s.read_latch {
        Some(b) => (LcdV { read_latch: None, ..s }, Ok(b as u32)),
        None => {
            if offset == 0x0 {
                // Control/status: the emulated LCD is never busy.
                (LcdV { read_latch: Some(0u8), ..s }, Ok(0u32))
            } else if offset == 0x8 {
                let w = s.regs.ct;
                (LcdV { read_latch: Some((w & 0xff) as u8), ..s }, Ok((w >> 8u16) as u32))
            } else {
                (s, Err(MemException::Unmapped))
            }
        }
    }
}

/// The classification `probe` gives each offset of this device.
pub open spec fn probe_spec(offset: u32) -> Probe {
    if offset == 0x0 {
        Probe::Register("LCD Control")
    } else if offset == 0x8 {
        Probe::Register("LCD Command")
    } else if offset == 0x10 {
        Probe::Register("LCD Data")
    } else {
        Probe::Unmapped
    }
}

/// Every implemented configuration command stores exactly the documented
/// bit fields of the written word, so writing a value and reading the
/// affected field back returns the value masked to the field's width.
pub proof fn lemma_register_field_roundtrip(s: LcdV, val: u16)
    requires
        s.inv(),
    ensures
        s.ir == 0x01 ==> handle_data_spec(s, val).1 is Ok
            && handle_data_spec(s, val).0.regs.cms == bit(val, 9)
            && handle_data_spec(s, val).0.regs.sgs == bit(val, 8)
            && handle_data_spec(s, val).0.regs.nl == field(val, 0, 0x1f),
        s.ir == 0x04 ==> handle_data_spec(s, val).1 is Ok
            && handle_data_spec(s, val).0.regs.vr == field(val, 8, 0x7)
            && handle_data_spec(s, val).0.regs.ct == field(val, 0, 0x7f),
        s.ir == 0x05 && field(val, 2, 0x3) != 3 ==> handle_data_spec(s, val).1 is Ok
            && handle_data_spec(s, val).0.regs.i_d == bit(val, 4)
            && handle_data_spec(s, val).0.regs.am == field(val, 2, 0x3)
            && handle_data_spec(s, val).0.regs.lg == field(val, 0, 0x3),
        s.ir == 0x06 ==> handle_data_spec(s, val).1 is Ok
            && handle_data_spec(s, val).0.regs.rt == field(val, 0, 0x7),
        s.ir == 0x07 ==> handle_data_spec(s, val).1 is Ok
            && handle_data_spec(s, val).0.regs.spt == bit(val, 8)
            && handle_data_spec(s, val).0.regs.gsh == field(val, 4, 0x3)
            && handle_data_spec(s, val).0.regs.gsl == field(val, 2, 0x3)
            && handle_data_spec(s, val).0.regs.rev == bit(val, 1)
            && handle_data_spec(s, val).0.regs.d == bit(val, 0),
        s.ir == 0x09 || s.ir == 0x0a ==> handle_data_spec(s, val) == (s, Ok::<(), MemException>(())),
        s.ir == 0x10 ==> handle_data_spec(s, val).1 is Ok
            && handle_data_spec(s, val).0.regs.wm == val,
        s.ir == 0x11 ==> handle_data_spec(s, val).1 is Ok
            && handle_data_spec(s, val).0.ac == val % 0x1080,
{
}

/// Entry Mode AM field: writing a word whose AM bits are `0b11` always
/// yields a contract violation and sets nothing; any other AM value never
/// yields one, and a data write under Entry Mode always succeeds.
pub proof fn lemma_entry_mode_am(s: LcdV, val: u16)
    requires
        s.inv(),
        s.ir == 0x05,
    ensures
        handle_data_spec(s, val).1 == Err::<(), MemException>(MemException::ContractViolation(
            Violation::InvalidEntryModeAm,
            Severity::Error,
        )) <==> field(val, 2, 0x3) == 3,
        field(val, 2, 0x3) == 3 ==> handle_data_spec(s, val).0 == s,
        field(val, 2, 0x3) != 3 ==> handle_data_spec(s, val).1 is Ok,
{
}

/// A video-RAM write with LG = replace and an all-zero write mask stores
/// exactly the rotated input word at the Address Counter.
pub proof fn lemma_vram_replace_unmasked(s: LcdV, val: u16)
    requires
        s.inv(),
        s.ir == 0x12,
        s.regs.lg == 0,
        s.regs.wm == 0,
    ensures
        handle_data_spec(s, val).0.cgram == s.cgram.update(
            s.ac as int,
            rotl16(val, (s.regs.rt * 2) as u16),
        ),
        handle_data_spec(s, val).0.cgram[s.ac as int] == rotl16(val, (s.regs.rt * 2) as u16),
{
    let rot = rotl16(val, (s.regs.rt * 2) as u16);
    lemma_mask_none(s.cgram[s.ac as int], rot);
}

/// A video-RAM write with an all-ones write mask leaves the stored word
/// unchanged, whatever the logical operation and the input word.
pub proof fn lemma_vram_write_mask_all(s: LcdV, val: u16)
    requires
        s.inv(),
        s.ir == 0x12,
        s.regs.wm == 0xffff,
    ensures
        handle_data_spec(s, val).0.cgram == s.cgram,
{
    let rot = rotl16(val, (s.regs.rt * 2) as u16);
    let stored = s.cgram[s.ac as int];
    lemma_mask_all(stored, combine(s.regs.lg, stored, rot));
    assert(s.cgram.update(s.ac as int, stored) =~= s.cgram);
}

/// Address Counter wraparound, incrementing: from the last valid column
/// 0x14 of any row, one increment jumps to the start of the next row --
/// an advance of 0xc, not 0x1 -- wrapping to address zero from the last
/// row of the store.
pub proof fn lemma_ac_wrap_increment(ac: u16)
    requires
        ac < 0x1080,
        ac % 0x20 == 0x14,
    ensures
        ac_advance(ac, true) == (ac + 0xc) % 0x1080,
{
    assert(ac_advance(ac, true) == ((ac + 0xc) % 0x1080) as u16) by (bit_vector)
        requires
            ac < 0x1080,
            ac % 0x20 == 0x14,
    ;
}

/// Address Counter wraparound, decrementing: from column zero of any row,
/// one decrement lands on the last valid column 0x14 of the previous row --
/// a retreat of 0xc -- wrapping to the end of the store from address zero.
pub proof fn lemma_ac_wrap_decrement(ac: u16)
    requires
        ac < 0x1080,
        ac % 0x20 == 0,
    ensures
        ac_advance(ac, false) == (ac + 0x1074) % 0x1080,
{
    assert(ac_advance(ac, false) == ((ac + 0x1074) % 0x1080) as u16) by (bit_vector)
        requires
            ac < 0x1080,
            ac % 0x20 == 0,
    ;
}

/// After any auto-advance the Address Counter rests on a valid column:
/// within its 0x20-word row it points at most at column 0x14, the last
/// word that exists on the hardware, and it stays inside the store.
pub proof fn lemma_ac_lands_on_valid_column(ac: u16, inc: bool)
    requires
        ac < 0x1080,
    ensures
        ac_advance(ac, inc) % 0x20 <= 0x14,
        ac_advance(ac, inc) < 0x1080,
{
    assert(ac_advance(ac, inc) % 0x20 <= 0x14 && ac_advance(ac, inc) < 0x1080) by (bit_vector)
        requires
            ac < 0x1080,
    ;
}

/// Byte-latch ordering: with no data byte pending, writing a 16-bit value
/// as two 8-bit transactions -- high byte, then low byte -- dispatches
/// exactly the transition of the combined word, and the first byte alone
/// has no effect beyond filling the latch.
pub proof fn lemma_byte_latch_pairing(s: LcdV, hi: u32, lo: u32)
    requires
        s.inv(),
        s.data_write_latch is None,
    ensures
        write_step(s, 0x10, hi).1 == Ok::<(), MemException>(()),
        write_step(s, 0x10, hi).0 == (LcdV { data_write_latch: Some(hi as u8), ..s }),
        write_step(write_step(s, 0x10, hi).0, 0x10, lo) == handle_data_spec(
            s,
            ((hi as u8) as u16) << 8u16 | (lo as u8) as u16,
        ),
{
    let s1 = write_step(s, 0x10, hi).0;
    assert(LcdV { data_write_latch: None, ..s1 } =~= s);
}

/// The same pairing for the Command register: the first byte only fills
/// its own latch, and the second makes the combined word the new Index
/// Register, valid exactly when it does not exceed 0x12.
pub proof fn lemma_command_latch_pairing(s: LcdV, hi: u32, lo: u32)
    requires
        s.inv(),
        s.cmd_write_latch is None,
    ensures
        write_step(s, 0x8, hi).1 == Ok::<(), MemException>(()),
        write_step(s, 0x8, hi).0 == (LcdV { cmd_write_latch: Some(hi as u8), ..s }),
        write_step(write_step(s, 0x8, hi).0, 0x8, lo).0 == (LcdV {
            ir: ((hi as u8) as u16) << 8u16 | (lo as u8) as u16,
            ..s
        }),
        write_step(write_step(s, 0x8, hi).0, 0x8, lo).1 is Ok <==> ((hi as u8) as u16) << 8u16 | (
        lo as u8) as u16 <= 0x12,
{
}

/// Writes to any of the commands the hardware defines but the emulation
/// does not model -- among them 0x0b, Horizontal Cursor Position -- always
/// yield a fatal error naming the command, never a silent no-op.
pub proof fn lemma_unimplemented_command(s: LcdV, val: u16)
    requires
        s.inv(),
        is_unimplemented_cmd(s.ir),
    ensures
        handle_data_spec(s, val).1 == Err::<(), MemException>(MemException::FatalError(
            Fatal::UnimplementedLcdCommand(s.ir),
        )),
        handle_data_spec(s, val).0 == s,
{
}

/// Probe consistency: `probe` classifies an offset as unmapped exactly when
/// both access paths refuse it as unmapped.  (The Control register is
/// read-only status and the Data register is write-only, so only the
/// conjunction of the two paths matches the probe classification.)
pub proof fn lemma_probe_access_consistency(s: LcdV, offset: u32, value: u32)
    requires
        s.inv(),
        s.read_latch is None,
    ensures
        probe_spec(offset) is Unmapped <==> (read_step(s, offset).1 == Err::<u32, MemException>(
            MemException::Unmapped,
        ) && write_step(s, offset, value).1 == Err::<(), MemException>(MemException::Unmapped)),
{
}

/// Hitachi HD66753 168x132 monochrome LCD controller.
///
/// Whether the hardware shares one write latch between the Command and
/// Data registers is not settled; here each register latches its bytes
/// independently, and a test pins the observable difference.  Reads share
/// a single pending-byte latch, drained by the following read.
#[derive(Debug)]
pub struct Hd66753 {
    width: usize,
    height: usize,
    cmd_write_latch: Option<u8>,
    data_write_latch: Option<u8>,
    read_latch: Option<u8>,
    ir: u16,
    ac: u16,
    regs: LcdRegs,
    cgram: Vec<u16>,
}

impl View for Hd66753 {
    type V = LcdV;

    closed spec fn view(&self) -> LcdV {
        LcdV {
            width: self.width,
            height: self.height,
            cmd_write_latch: self.cmd_write_latch,
            data_write_latch: self.data_write_latch,
            read_latch: self.read_latch,
            ir: self.ir,
            ac: self.ac,
            regs: self.regs,
            cgram: self.cgram@,
        }
    }
}

/// A vector of `n` zero words.
fn zeroed_words(n: usize) -> (v: Vec<u16>)
    ensures
        v@.len() == n,
        forall|i: int| 0 <= i < n ==> v@[i] == 0,
{
    let mut v: Vec<u16> = Vec::new();
    let mut k: usize = 0;
    while k < n
        invariant
            k <= n,
            v@.len() == k,
            forall|i: int| 0 <= i < k ==> v@[i] == 0,
        decreases n - k,
    {
        v.push(0);
        k = k + 1;
    }
    v
}

impl Hd66753 {
    /// Construct a controller for a display of the given visible size, with
    /// cleared video RAM and every register at its reset value.
    pub fn new_hle(width: usize, height: usize) -> (lcd: Hd66753)
        ensures
            lcd@ == initial(width, height),
            lcd@.inv(),
    {
        let lcd = Hd66753 {
            width,
            height,
            cmd_write_latch: None,
            data_write_latch: None,
            read_latch: None,
            ir: 0,
            ac: 0,
            regs: LcdRegs {
                cms: false,
                sgs: false,
                nl: 0,
                vr: 0,
                ct: 0,
                i_d: false,
                am: 0,
                lg: 0,
                rt: 0,
                spt: false,
                gsh: 0,
                gsl: 0,
                rev: false,
                d: false,
                wm: 0,
            },
            cgram: zeroed_words(EMU_CGRAM_LEN),
        };
        proof {
            assert(lcd@.cgram =~= initial(width, height).cgram);
            assert(lcd@ =~= initial(width, height));
        }
        lcd
    }

    /// The visible display width this controller was constructed for.
    pub fn width(&self) -> (r: usize)
        ensures
            r == self@.width,
    {
        self.width
    }

    /// The visible display height this controller was constructed for.
    pub fn height(&self) -> (r: usize)
        ensures
            r == self@.height,
    {
        self.height
    }

    /// The current Index Register value.
    pub fn ir(&self) -> (r: u16)
        ensures
            r == self@.ir,
    {
        self.ir
    }

    /// The current Address Counter value.
    pub fn ac(&self) -> (r: u16)
        ensures
            r == self@.ac,
    {
        self.ac
    }

    /// A copy of the configuration registers.
    pub fn regs(&self) -> (r: LcdRegs)
        ensures
            r == self@.regs,
    {
        self.regs
    }

    /// The invert flag, the one register the renderer reads on every frame.
    pub fn invert(&self) -> (r: bool)
        ensures
            r == self@.regs.rev,
    {
        self.regs.rev
    }

    /// The video-RAM word at index `i`.
    pub fn cgram_word(&self, i: usize) -> (r: u16)
        requires
            self@.inv(),
            i < EMU_CGRAM_LEN,
        ensures
            r == self@.cgram[i as int],
    {
        self.cgram[i]
    }

    /// An instantaneous full copy of video RAM, for the renderer.
    pub fn cgram_snapshot(&self) -> (v: Vec<u16>)
        ensures
            v@ == self@.cgram,
    {
        let v = self.cgram.clone();
        proof {
            assert forall|i: int| 0 <= i < self.cgram@.len() implies v@[i] == self.cgram@[i] by {
            }
            assert(v@ =~= self.cgram@);
        }
        v
    }

    /// Advance the Address Counter after a video-RAM write.
    fn advance_ac(&mut self)
        requires
            old(self)@.inv(),
        ensures
            final(self)@ == (LcdV { ac: ac_advance(old(self)@.ac, old(self)@.regs.i_d), ..old(self)@ }),
            final(self)@.ac < 0x1080,
    {
        let a0: u16 = if self.regs.i_d {
            (self.ac + 1) % 0x1080
        } else {
            (self.ac + 0x107f) % 0x1080
        };
        if a0 & 0x1f > 0x14 {
            let base = a0 & !0x1f;
            proof {
                assert(a0 & !0x1fu16 <= 0x1060) by (bit_vector)
                    requires
                        a0 < 0x1080,
                ;
            }
            self.ac = if self.regs.i_d {
                (base + 0x20) % 0x1080
            } else {
                (base + 0x14) % 0x1080
            };
        } else {
            self.ac = a0;
        }
    }

    /// Dispatch a latched 16-bit data write on the current Index Register.
    fn handle_data(&mut self, val: u16) -> (r: MemResult<()>)
        requires
            old(self)@.inv(),
        ensures
            final(self)@.inv(),
            final(self)@ == handle_data_spec(old(self)@, val).0,
            r == handle_data_spec(old(self)@, val).1,
    {
        match self.ir {
            // Driver Output Control
            0x01 => {
                self.regs.cms = get_bit(val, 9);
                self.regs.sgs = get_bit(val, 8);
                self.regs.nl = get_field(val, 0, 0x1f);
                Ok(())
            }
            // Contrast Control
            0x04 => {
                self.regs.vr = get_field(val, 8, 0x7);
                self.regs.ct = get_field(val, 0, 0x7f);
                Ok(())
            }
            // Entry Mode
            0x05 => {
                let am = get_field(val, 2, 0x3);
                if am == 3 {
                    return Err(MemException::ContractViolation(
                        Violation::InvalidEntryModeAm,
                        Severity::Error,
                    ));
                }
                self.regs.i_d = get_bit(val, 4);
                self.regs.am = am;
                self.regs.lg = get_field(val, 0, 0x3);
                Ok(())
            }
            // Rotation
            0x06 => {
                self.regs.rt = get_field(val, 0, 0x7);
                Ok(())
            }
            // Display Control
            0x07 => {
                self.regs.spt = get_bit(val, 8);
                self.regs.gsh = get_field(val, 4, 0x3);
                self.regs.gsl = get_field(val, 2, 0x3);
                self.regs.rev = get_bit(val, 1);
                self.regs.d = get_bit(val, 0);
                Ok(())
            }
            // No-ops
            0x09 | 0x0a => Ok(()),
            // RAM Write Data Mask
            0x10 => {
                self.regs.wm = val;
                Ok(())
            }
            // RAM Address Set
            0x11 => {
                self.ac = val % 0x1080;
                Ok(())
            }
            // Write Data to CGRAM
            0x12 => {
                let rot = rotate_left16(val, self.regs.rt * 2);
                let stored = self.cgram[self.ac as usize];
                let comb = if self.regs.lg == 0 {
                    rot
                } else if self.regs.lg == 1 {
                    stored | rot
                } else if self.regs.lg == 2 {
                    stored & rot
                } else {
                    stored ^ rot
                };
                let neww = (stored & self.regs.wm) | (comb & !self.regs.wm);
                self.cgram.set(self.ac as usize, neww);
                match self.regs.am {
                    0 => {
                        self.advance_ac();
                        Ok(())
                    }
                    1 => Err(MemException::FatalError(Fatal::UnimplementedVerticalWrite)),
                    2 => Err(MemException::FatalError(Fatal::UnimplementedTwoWordWrite)),
                    _ => Err(MemException::FatalError(Fatal::EntryModeAmForbidden)),
                }
            }
            // Unimplemented hardware commands
            0x02 | 0x03 | 0x08 | 0x0b | 0x0c | 0x0d | 0x0e => {
                Err(MemException::FatalError(Fatal::UnimplementedLcdCommand(self.ir)))
            }
            // Not a command at all
            _ => Err(MemException::FatalError(Fatal::InvalidLcdCommand(self.ir))),
        }
    }
}

impl Device for Hd66753 {
    open spec fn wf(&self) -> bool {
        self@.inv()
    }

    fn kind(&self) -> (name: &'static str)
        ensures
            name@ == "HD 66753"@,
    {
        "HD 66753"
    }

    fn probe(&self, offset: u32) -> (r: Probe)
        ensures
            r == probe_spec(offset),
    {
        if offset == 0x0 {
            Probe::Register("LCD Control")
        } else if offset == 0x8 {
            Probe::Register("LCD Command")
        } else if offset == 0x10 {
            Probe::Register("LCD Data")
        } else {
            Probe::Unmapped
        }
    }

    fn read32(&mut self, offset: u32) -> (r: MemResult<u32>)
        ensures
            final(self)@ == read_step(old(self)@, offset).0,
            r == read_step(old(self)@, offset).1,
    {
        if let Some(b) = self.read_latch {
            self.read_latch = None;
            return Ok(b as u32);
        }
        if offset == 0x0 {
            // The emulated LCD is never busy.
            self.read_latch = Some(0);
            Ok(0)
        } else if offset == 0x8 {
            let w = self.regs.ct;
            proof {
                assert(w & 0xff <= 0xff) by (bit_vector);
            }
            self.read_latch = Some((w & 0xff) as u8);
            Ok((w >> 8u16) as u32)
        } else {
            Err(MemException::Unmapped)
        }
    }

    fn write32(&mut self, offset: u32, value: u32) -> (r: MemResult<()>)
        ensures
            final(self)@ == write_step(old(self)@, offset, value).0,
            r == write_step(old(self)@, offset, value).1,
    {
        let b = value as u8;
        if offset == 0x8 {
            match self.cmd_write_latch {
                None => {
                    self.cmd_write_latch = Some(b);
                    Ok(())
                }
                Some(hi) => {
                    self.cmd_write_latch = None;
                    let w = ((hi as u16) << 8u16) | (b as u16);
                    self.ir = w;
                    if w > 0x12 {
                        Err(MemException::ContractViolation(
                            Violation::InvalidLcdCommand(w),
                            Severity::Error,
                        ))
                    } else {
                        Ok(())
                    }
                }
            }
        } else if offset == 0x10 {
            match self.data_write_latch {
                None => {
                    self.data_write_latch = Some(b);
                    Ok(())
                }
                Some(hi) => {
                    self.data_write_latch = None;
                    let w = ((hi as u16) << 8u16) | (b as u16);
                    self.handle_data(w)
                }
            }
        } else {
            Err(MemException::Unmapped)
        }
    }
}

} // verus!
