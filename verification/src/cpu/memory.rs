//! The CPU-side address bus: a flat 64 KiB byte buffer plus memory-mapped
//! I/O routing.
//!
//! Every CPU load and store goes through `fetch_absolute` / `store_absolute`,
//! which route $2000-$2007 and $4014 to the PPU and $4016 to the controller
//! and mirror every written byte into the RAM cell. The observable behaviour
//! of a read is given by `spec_read_value` and the relation `spec_read_rel`;
//! of a write, by `spec_store_rel`. A read only ever changes scalar state
//! (PPU latches and the controller shift register), which is what lets a
//! read-modify-write access be described by composing these functions.

use vstd::prelude::*;

use crate::cpu::jsontest::DatabusLog;
use crate::ppu::memory::spec_vram_read;
use crate::ppu::{spec_ctrl_write, spec_mask_write, spec_status_byte, PpuRegs, PPU};
use crate::utils::filled_vec;

verus! {

/// One bus access recorded for inspection: the address and the value moved.
pub struct MemoryAccessLog {
    pub address: u16,
    pub value: u8,
}

/// Collects the data-bus traffic of an instruction under test.
pub struct DatabusLogger {
    pub log: Vec<DatabusLog>,
}

impl DatabusLogger {
    pub fn new() -> (r: DatabusLogger)
        ensures
            r.log@.len() == 0,
    {
        DatabusLogger { log: Vec::new() }
    }

    /// Appends a "read" entry for the given address and value.
    pub fn log_read(&mut self, address: u16, value: u8)
        ensures
            final(self).log@.len() == old(self).log@.len() + 1,
            final(self).log@ == old(self).log@.push(final(self).log@.last()),
            final(self).log@.last().0 == address,
            final(self).log@.last().1 == value,
            final(self).log@.last().2@ == "read"@,
    {
        let entry = DatabusLog(address, value, "read".to_string());
        proof {
            vstd::string::to_string_from_display_ensures_for_str("read", entry.2);
        }
        self.log.push(entry);
    }

    /// Appends a "write" entry for the given address and value.
    pub fn log_write(&mut self, address: u16, value: u8)
        ensures
            final(self).log@.len() == old(self).log@.len() + 1,
            final(self).log@ == old(self).log@.push(final(self).log@.last()),
            final(self).log@.last().0 == address,
            final(self).log@.last().1 == value,
            final(self).log@.last().2@ == "write"@,
    {
        let entry = DatabusLog(address, value, "write".to_string());
        proof {
            vstd::string::to_string_from_display_ensures_for_str("write", entry.2);
        }
        self.log.push(entry);
    }

    /// Drops all recorded accesses.
    pub fn clear(&mut self)
        ensures
            final(self).log@.len() == 0,
    {
        self.log = Vec::new();
    }
}

/// The $4016 controller port: an 8-bit shift register of button states
/// (A, B, Select, Start, Up, Down, Left, Right from bit 0 up, active low)
/// with a strobe that, while set, keeps reloading the register from the
/// latched button snapshot.
#[derive(Clone, Copy, PartialEq, Eq, Structural, Debug)]
pub struct KeyboardController {
    pub strobe_activated: bool,
    /// The shift register the CPU reads one bit at a time.
    pub button_register: u8,
    /// The host's current button snapshot.
    pub button_latch: u8,
    /// Reads since the last strobe; after 8 the port returns all ones.
    pub read_count: usize,
}

/// Controller state after a $4016 write: writing 1 raises the strobe and
/// reloads the shift register; anything else only drops the strobe.
pub open spec fn spec_controller_write(c: KeyboardController, value: u8) -> KeyboardController {
    if value == 1 {
        KeyboardController {
            read_count: 0,
            strobe_activated: true,
            button_register: c.button_latch,
            ..c
        }
    } else {
        KeyboardController { strobe_activated: false, ..c }
    }
}

/// The bit a $4016 read returns: the low bit of the shift register, or all
/// ones once 8 bits have been consumed.
pub open spec fn spec_controller_read_value(c: KeyboardController) -> u8 {
    if c.read_count >= 8 {
        0xFF
    } else {
        c.button_register & 1
    }
}

/// Controller state after a $4016 read: the shift register moves one bit
/// down and the read counter advances, until 8 bits have been consumed.
pub open spec fn spec_controller_read_post(c: KeyboardController) -> KeyboardController {
    if c.read_count >= 8 {
        c
    } else {
        KeyboardController {
            read_count: (c.read_count + 1) as usize,
            button_register: c.button_register >> 1,
            ..c
        }
    }
}

impl KeyboardController {
    pub fn new() -> (r: KeyboardController)
        ensures
            r == (KeyboardController {
                strobe_activated: false,
                button_register: 0xFF,
                button_latch: 0xFF,
                read_count: 0,
            }),
    {
        KeyboardController {
            strobe_activated: false,
            button_register: 0b1111_1111,
            button_latch: 0b1111_1111,
            read_count: 0,
        }
    }

    /// Records that button `id` (0 = A .. 7 = Right) is pressed or released
    /// in the active-low latch, then reloads the shift register if the
    /// strobe is up.
    pub fn set_button(&mut self, id: u8, pressed: bool)
        requires
            id < 8,
        ensures
            final(self).button_latch as usize == (if pressed {
                old(self).button_latch as usize & !(1usize << (id as usize))
            } else {
                old(self).button_latch as usize | (1usize << (id as usize))
            }),
            *final(self) == (KeyboardController {
                button_latch: final(self).button_latch,
                button_register: if old(self).strobe_activated {
                    final(self).button_latch
                } else {
                    old(self).button_register
                },
                ..*old(self)
            }),
    {
        if pressed {
            self.button_latch = crate::utils::unset_bit(self.button_latch as usize, id);
        } else {
            self.button_latch = crate::utils::set_bit(self.button_latch as usize, id);
        }
        self.latch();
    }

    /// Copies the latched snapshot into the shift register while the strobe
    /// is up; a no-op otherwise.
    pub fn latch(&mut self)
        ensures
            *final(self) == (KeyboardController {
                button_register: if old(self).strobe_activated {
                    old(self).button_latch
                } else {
                    old(self).button_register
                },
                ..*old(self)
            }),
    {
        if self.strobe_activated {
            self.button_register = self.button_latch;
        }
    }

    /// $4016 write.
    pub fn write_register(&mut self, value: u8)
        ensures
            *final(self) == spec_controller_write(*old(self), value),
    {
        if value == 1 {
            self.read_count = 0;
            self.strobe_activated = true;
            self.latch();
        } else {
            self.strobe_activated = false;
        }
    }

    /// $4016 read: returns one button bit per read in order A, B, Select,
    /// Start, Up, Down, Left, Right; after 8 reads, all ones.
    pub fn read_controller_one(&mut self) -> (r: u8)
        ensures
            r == spec_controller_read_value(*old(self)),
            *final(self) == spec_controller_read_post(*old(self)),
    {
        if self.read_count >= 8 {
            return 0b1111_1111;
        }

        self.read_count = self.read_count + 1;

        let curr_bit = self.button_register & 1;
        self.button_register = self.button_register >> 1;

        curr_bit
    }
}

/// The addresses with read or write side effects on the bus: the PPU
/// registers, the OAM DMA port and the controller port.
pub open spec fn spec_is_mmio(a: u16) -> bool {
    (0x2000 <= a && a <= 0x2007) || a == 0x4014 || a == 0x4016
}

/// The OAM slot that byte `k` of a DMA transfer lands in: the current OAM
/// address plus `k`, wrapping around the end of OAM.
pub open spec fn spec_dma_slot(oam_address: u8, k: int) -> int {
    (oam_address + k) % 256
}

/// The byte a CPU read of `addr` observes, with the scalar PPU and
/// controller state given separately (so that the effect of a chain of
/// reads can be written down): PPUSTATUS, OAMDATA, PPUDATA and the
/// controller port have their own read paths; every other address reads the
/// RAM cell.
pub open spec fn spec_read_value_x(
    m: Memory,
    regs: PpuRegs,
    input: KeyboardController,
    addr: u16,
) -> u8 {
    if addr == 0x2002 {
        spec_status_byte(regs)
    } else if addr == 0x2004 {
        m.ppu.oam.sprite_info@[regs.oam_address as int]
    } else if addr == 0x2007 {
        regs.read_buffer
    } else if addr == 0x4016 {
        spec_controller_read_value(input)
    } else {
        m.buffer@[addr as int]
    }
}

/// The byte a CPU read of `addr` observes in bus state `m`.
pub open spec fn spec_read_value(m: Memory, addr: u16) -> u8 {
    spec_read_value_x(m, m.ppu.regs, m.input, addr)
}

/// The scalar PPU state after a CPU read of `addr`: PPUSTATUS clears the
/// vertical-blank bit and the write latch; PPUDATA refills the read buffer
/// from VRAM under `v` and advances `v`; everything else is untouched.
pub open spec fn spec_read_regs_x(m: Memory, regs: PpuRegs, addr: u16) -> PpuRegs {
    if addr == 0x2002 {
        PpuRegs { w: false, is_vblank: false, ..regs }
    } else if addr == 0x2007 {
        PpuRegs {
            read_buffer: spec_vram_read(m.ppu.vram, regs.v as int),
            v: ((regs.v + regs.increment) % 0x4000) as u16,
            ..regs
        }
    } else {
        regs
    }
}

/// The controller state after a CPU read of `addr`.
pub open spec fn spec_read_input_x(input: KeyboardController, addr: u16) -> KeyboardController {
    if addr == 0x4016 {
        spec_controller_read_post(input)
    } else {
        input
    }
}

/// How a CPU read of `addr` relates the bus before (`pre`) and after
/// (`post`): only scalar PPU latches and the controller shift register can
/// change; every buffer is untouched.
pub open spec fn spec_read_rel(pre: Memory, post: Memory, addr: u16) -> bool {
    &&& post.ppu.regs == spec_read_regs_x(pre, pre.ppu.regs, addr)
    &&& post.input == spec_read_input_x(pre.input, addr)
    &&& post.buffer == pre.buffer
    &&& post.ppu.vram == pre.ppu.vram
    &&& post.ppu.oam.sprite_info == pre.ppu.oam.sprite_info
    &&& post.ppu.secondary_oam.sprite_info == pre.ppu.secondary_oam.sprite_info
    &&& post.ppu.fb == pre.ppu.fb
    &&& post.ppu.nametable_queue == pre.ppu.nametable_queue
    &&& post.ppu.sprite_queue == pre.ppu.sprite_queue
    &&& post.databus_logger.log == pre.databus_logger.log
    &&& post.dma_stall == pre.dma_stall
}

/// Nothing on the bus changed between `pre` and `post`.
pub open spec fn spec_mem_unchanged(pre: Memory, post: Memory) -> bool {
    &&& post.ppu.regs == pre.ppu.regs
    &&& post.input == pre.input
    &&& post.buffer == pre.buffer
    &&& post.ppu.vram == pre.ppu.vram
    &&& post.ppu.oam.sprite_info == pre.ppu.oam.sprite_info
    &&& post.ppu.secondary_oam.sprite_info == pre.ppu.secondary_oam.sprite_info
    &&& post.ppu.fb == pre.ppu.fb
    &&& post.ppu.nametable_queue == pre.ppu.nametable_queue
    &&& post.ppu.sprite_queue == pre.ppu.sprite_queue
    &&& post.databus_logger.log == pre.databus_logger.log
    &&& post.dma_stall == pre.dma_stall
}

/// Everything on the bus except the RAM image is unchanged between `pre`
/// and `post` (the RAM image is constrained separately, as the stack
/// operations write it directly).
pub open spec fn spec_mem_nonbuffer_unchanged(pre: Memory, post: Memory) -> bool {
    &&& post.ppu.regs == pre.ppu.regs
    &&& post.input == pre.input
    &&& post.ppu.vram == pre.ppu.vram
    &&& post.ppu.oam.sprite_info == pre.ppu.oam.sprite_info
    &&& post.ppu.secondary_oam.sprite_info == pre.ppu.secondary_oam.sprite_info
    &&& post.ppu.fb == pre.ppu.fb
    &&& post.ppu.nametable_queue == pre.ppu.nametable_queue
    &&& post.ppu.sprite_queue == pre.ppu.sprite_queue
    &&& post.databus_logger.log == pre.databus_logger.log
    &&& post.dma_stall == pre.dma_stall
}

/// How two CPU reads in a row, at `a1` then `a2`, relate the bus before and
/// after: the scalar read effects compose; no buffer changes.
pub open spec fn spec_read2_rel(pre: Memory, post: Memory, a1: u16, a2: u16) -> bool {
    &&& post.ppu.regs == spec_read_regs_x(pre, spec_read_regs_x(pre, pre.ppu.regs, a1), a2)
    &&& post.input == spec_read_input_x(spec_read_input_x(pre.input, a1), a2)
    &&& post.buffer == pre.buffer
    &&& post.ppu.vram == pre.ppu.vram
    &&& post.ppu.oam.sprite_info == pre.ppu.oam.sprite_info
    &&& post.ppu.secondary_oam.sprite_info == pre.ppu.secondary_oam.sprite_info
    &&& post.ppu.fb == pre.ppu.fb
    &&& post.ppu.nametable_queue == pre.ppu.nametable_queue
    &&& post.ppu.sprite_queue == pre.ppu.sprite_queue
    &&& post.databus_logger.log == pre.databus_logger.log
    &&& post.dma_stall == pre.dma_stall
}

/// The byte the second of two back-to-back reads (first `a1`, then `a2`)
/// observes.
pub open spec fn spec_read2_value(pre: Memory, a1: u16, a2: u16) -> u8 {
    spec_read_value_x(
        pre,
        spec_read_regs_x(pre, pre.ppu.regs, a1),
        spec_read_input_x(pre.input, a1),
        a2,
    )
}

/// How a CPU write of `value` to `addr` relates the bus before and after,
/// with the scalar PPU and controller state the write acts on given
/// separately (`regs`, `input`) so that a read-modify-write access can
/// compose a read's scalar effect with the write. The RAM cell always takes
/// the value; $2000-$2007 reach the PPU registers, $4014 performs the OAM
/// DMA copy out of RAM and records its 513-cycle stall, $4016 strobes the
/// controller.
pub open spec fn spec_store_rel_x(
    pre: Memory,
    regs: PpuRegs,
    input: KeyboardController,
    post: Memory,
    addr: u16,
    value: u8,
) -> bool {
    &&& post.buffer@ == pre.buffer@.update(addr as int, value)
    &&& spec_store_side_rel(pre, regs, input, post, addr, value)
}

/// Every effect of a CPU write except the RAM-cell mirror itself: the PPU
/// register, OAM, VRAM, controller and DMA-stall changes.
pub open spec fn spec_store_side_rel(
    pre: Memory,
    regs: PpuRegs,
    input: KeyboardController,
    post: Memory,
    addr: u16,
    value: u8,
) -> bool {
    &&& post.ppu.regs == (if addr == 0x2000 {
        spec_ctrl_write(regs, value)
    } else if addr == 0x2001 {
        spec_mask_write(regs, value)
    } else if addr == 0x2003 {
        PpuRegs { oam_address: value, ..regs }
    } else if addr == 0x2004 {
        PpuRegs {
            oam_address: vstd::wrapping::u8_specs::wrapping_add(regs.oam_address, 1),
            ..regs
        }
    } else if addr == 0x2005 {
        if regs.w == false {
            PpuRegs { x_scroll: value, w: true, ..regs }
        } else {
            PpuRegs { y_scroll: value, w: false, ..regs }
        }
    } else if addr == 0x2006 {
        if !regs.w {
            PpuRegs { t: (value as u16) << 8, w: true, ..regs }
        } else {
            PpuRegs {
                t: regs.t | value as u16,
                v: (regs.t | value as u16) % 0x4000,
                w: false,
                ..regs
            }
        }
    } else if addr == 0x2007 {
        PpuRegs { v: ((regs.v + regs.increment) % 0x4000) as u16, ..regs }
    } else {
        regs
    })
    &&& (if addr == 0x2004 {
        post.ppu.oam.sprite_info@ == pre.ppu.oam.sprite_info@.update(
            regs.oam_address as int,
            value,
        )
    } else if addr == 0x4014 {
        &&& post.ppu.oam.sprite_info@.len() == 256
        &&& forall|k: int|
            0 <= k < 256 ==> post.ppu.oam.sprite_info@[#[trigger] spec_dma_slot(
                regs.oam_address,
                k,
            )] == pre.buffer@[value * 256 + k]
    } else {
        post.ppu.oam.sprite_info == pre.ppu.oam.sprite_info
    })
    &&& (if addr == 0x2007 {
        &&& post.ppu.vram.arrangement == pre.ppu.vram.arrangement
        &&& post.ppu.vram.buffer@ == pre.ppu.vram.buffer@.update(
            crate::ppu::memory::spec_vram_index(pre.ppu.vram.arrangement, regs.v as int),
            value,
        )
    } else {
        post.ppu.vram == pre.ppu.vram
    })
    &&& post.input == (if addr == 0x4016 {
        spec_controller_write(input, value)
    } else {
        input
    })
    &&& post.dma_stall == (if addr == 0x4014 {
        513int
    } else {
        pre.dma_stall as int
    })
    &&& post.ppu.secondary_oam.sprite_info == pre.ppu.secondary_oam.sprite_info
    &&& post.ppu.fb == pre.ppu.fb
    &&& post.ppu.nametable_queue == pre.ppu.nametable_queue
    &&& post.ppu.sprite_queue == pre.ppu.sprite_queue
    &&& post.databus_logger.log == pre.databus_logger.log
}

/// How a plain CPU write of `value` to `addr` relates the bus before and
/// after.
pub open spec fn spec_store_rel(pre: Memory, post: Memory, addr: u16, value: u8) -> bool {
    spec_store_rel_x(pre, pre.ppu.regs, pre.input, post, addr, value)
}

/// Effective address of the zero page,X / zero page,Y modes: the operand
/// plus the index, wrapping inside the zero page.
pub open spec fn spec_zp_x_ea(addr_lower_byte: u8, index: u8) -> u16 {
    vstd::wrapping::u8_specs::wrapping_add(addr_lower_byte, index) as u16
}

/// Effective address of the absolute,X / absolute,Y modes: 16-bit wrap.
pub open spec fn spec_abs_x_ea(address: u16, index: u8) -> u16 {
    vstd::wrapping::u16_specs::wrapping_add(address, index as u16)
}

/// The zero-page cell holding the low pointer byte of (indirect,X).
pub open spec fn spec_ind_x_lo_ptr(addr_lower_byte: u8, index_x: u8) -> u8 {
    vstd::wrapping::u8_specs::wrapping_add(addr_lower_byte, index_x)
}

/// The pointer bytes of (indirect,X) live at operand+X and operand+X+1,
/// both wrapped inside the zero page; the effective address is the 16-bit
/// little-endian value they hold.
pub open spec fn spec_ind_x_ea(buf: Seq<u8>, addr_lower_byte: u8, index_x: u8) -> u16 {
    let lo_ptr = spec_ind_x_lo_ptr(addr_lower_byte, index_x);
    let hi_ptr = vstd::wrapping::u8_specs::wrapping_add(lo_ptr, 1);
    (buf[lo_ptr as int] + buf[hi_ptr as int] * 256) as u16
}

/// The pointer of (indirect),Y lives at the operand and operand+1 in the
/// zero page; the effective address is that pointer plus Y, wrapping at 16
/// bits.
pub open spec fn spec_ind_y_ea(buf: Seq<u8>, addr_lower_byte: u8, index_y: u8) -> u16 {
    let lo = buf[addr_lower_byte as int];
    let hi = buf[vstd::wrapping::u8_specs::wrapping_add(addr_lower_byte, 1) as int];
    vstd::wrapping::u16_specs::wrapping_add((lo + hi * 256) as u16, index_y as u16)
}

/// The second pointer byte of `JMP (addr)` comes from the same page as the
/// first: the low byte of `addr` increments without carrying into the high
/// byte.
pub open spec fn spec_quirk_next_addr(address: u16) -> u16 {
    ((address >> 8) << 8) | (vstd::wrapping::u8_specs::wrapping_add((address & 0xFF) as u8, 1)
        as u16)
}

/// Memory abstraction layer, acting as the data and address bus: the flat
/// 64 KiB RAM image, the PPU and the controller reached through it, and the
/// access log. The stack lives at $0100-$01FF, the zero page at $0000-$00FF,
/// PRG-ROM at $8000-$FFFF.
pub struct Memory {
    pub buffer: Vec<u8>,
    pub databus_logger: DatabusLogger,
    pub ppu: PPU,
    pub input: KeyboardController,
    /// CPU cycles still to charge for a just-triggered OAM DMA.
    pub dma_stall: usize,
}

impl Memory {
    pub open spec fn wf(self) -> bool {
        &&& self.buffer@.len() == 0x10000
        &&& self.ppu.wf()
    }

    pub fn new(ppu: PPU) -> (r: Memory)
        requires
            ppu.wf(),
        ensures
            r.wf(),
            r.buffer@ == Seq::new(0x10000, |i: int| 0u8),
            r.ppu == ppu,
            r.input == (KeyboardController {
                strobe_activated: false,
                button_register: 0xFF,
                button_latch: 0xFF,
                read_count: 0,
            }),
            r.dma_stall == 0,
            r.databus_logger.log@.len() == 0,
    {
        Memory {
            buffer: filled_vec(0x10000, 0u8),
            databus_logger: DatabusLogger::new(),
            input: KeyboardController::new(),
            ppu,
            dma_stall: 0,
        }
    }

    /// Hands the pending OAM DMA stall to the caller and clears it.
    pub fn take_dma_stall(&mut self) -> (r: usize)
        ensures
            r == old(self).dma_stall,
            *final(self) == (Memory { dma_stall: 0, ..*old(self) }),
    {
        let stall = self.dma_stall;
        self.dma_stall = 0;
        stall
    }

    /// CPU read: routes PPUSTATUS/OAMDATA/PPUDATA and the controller port,
    /// and reads the RAM cell everywhere else.
    #[verifier::spinoff_prover]
    pub fn fetch_absolute(&mut self, address: u16) -> (r: u8)
        requires
            old(self).wf(),
        ensures
            final(self).wf(),
            r == spec_read_value(*old(self), address),
            spec_read_rel(*old(self), *final(self), address),
            !spec_is_mmio(address) ==> *final(self) == *old(self),
    {
        let value = self.buffer[address as usize];
        match address {
            0x2002 => self.ppu.ppu_status(),
            0x2004 => self.ppu.oam_data_read(),
            0x2007 => self.ppu.ppu_data_read(),
            0x4016 => self.input.read_controller_one(),
            _ => value,
        }
    }

    /// The OAM DMA transfer of a $4014 write: copies the 256-byte RAM page
    /// selected by `value` into OAM (starting at the current OAM address,
    /// wrapping) and records the 513-cycle stall the CPU must charge.
    #[verifier::spinoff_prover]
    fn dma_transfer(&mut self, value: u8)
        requires
            old(self).wf(),
        ensures
            final(self).wf(),
            final(self).ppu.oam.sprite_info@.len() == 256,
            forall|k: int|
                0 <= k < 256 ==> final(self).ppu.oam.sprite_info@[#[trigger] spec_dma_slot(
                    old(self).ppu.regs.oam_address,
                    k,
                )] == old(self).buffer@[value * 256 + k],
            final(self).dma_stall == 513,
            final(self).ppu.regs == old(self).ppu.regs,
            final(self).input == old(self).input,
            final(self).buffer == old(self).buffer,
            final(self).ppu.vram == old(self).ppu.vram,
            final(self).ppu.secondary_oam.sprite_info == old(self).ppu.secondary_oam.sprite_info,
            final(self).ppu.fb == old(self).ppu.fb,
            final(self).ppu.nametable_queue == old(self).ppu.nametable_queue,
            final(self).ppu.sprite_queue == old(self).ppu.sprite_queue,
            final(self).databus_logger.log == old(self).databus_logger.log,
    {
        let page = (value as usize) * 256;
        let mut page_buf: Vec<u8> = Vec::new();
        for k in 0..256usize
            invariant
                old(self).wf(),
                spec_mem_unchanged(*old(self), *self),
                self.buffer@.len() == 0x10000,
                page == value * 256,
                page_buf@.len() == k,
                forall|j: int| 0 <= j < k ==> page_buf@[j] == self.buffer@[page + j],
        {
            let b = self.buffer[page + k];
            page_buf.push(b);
        }
        let ghost mid = self.ppu;
        self.ppu.oam_dma(page_buf.as_slice());
        self.dma_stall = 513;
        proof {
            assert forall|k: int| 0 <= k < 256 implies self.ppu.oam.sprite_info@[
                #[trigger] spec_dma_slot(old(self).ppu.regs.oam_address, k)] == old(
                self,
            ).buffer@[value * 256 + k] by {
                assert(self.ppu.oam.sprite_info@[(mid.regs.oam_address + k) % 256]
                    == page_buf@[k]);
                assert(page_buf@[k] == old(self).buffer@[page + k]);
            }
        }
    }

    /// CPU write: routes the PPU registers, OAM DMA and the controller
    /// strobe, then mirrors the byte into the RAM cell.
    pub fn store_absolute(&mut self, address: u16, value: u8)
        requires
            old(self).wf(),
        ensures
            final(self).wf(),
            spec_store_rel(*old(self), *final(self), address, value),
    {
        if address == 0x4014 {
            self.dma_transfer(value);
        } else if (0x2000 <= address && address <= 0x2007) || address == 0x4016 {
            self.store_mmio(address, value);
        }
        self.buffer[address as usize] = value;
    }

    /// The register-side effects of a write to one of the mapped addresses.
    #[verifier::spinoff_prover]
    #[verifier::rlimit(100)]
    fn store_mmio(&mut self, address: u16, value: u8)
        requires
            old(self).wf(),
            (0x2000 <= address && address <= 0x2007) || address == 0x4016,
        ensures
            final(self).wf(),
            final(self).buffer == old(self).buffer,
            spec_store_side_rel(
                *old(self),
                old(self).ppu.regs,
                old(self).input,
                *final(self),
                address,
                value,
            ),
    {
        if address == 0x2000 {
            self.ppu.ppu_ctrl(value);
            return ;
        }
        if address == 0x2001 {
            self.ppu.ppu_mask(value);
            return ;
        }
        if address == 0x2002 {
            return ;
        }
        if address == 0x2003 {
            self.ppu.oam_addr(value);
            return ;
        }
        if address == 0x2004 {
            self.ppu.oam_data_write(value);
            return ;
        }
        if address == 0x2005 {
            self.ppu.ppu_scroll(value);
            return ;
        }
        if address == 0x2006 {
            self.ppu.ppu_addr(value);
            return ;
        }
        if address == 0x2007 {
            self.ppu.ppu_data_write(value);
            return ;
        }
        proof {
            assert(address == 0x4016);
        }
        self.input.write_register(value);
    }

    /// Absolute,X / absolute,Y read (the caller passes whichever index the
    /// opcode uses).
    pub fn fetch_absolute_x(&mut self, address: u16, index_x: u8) -> (r: u8)
        requires
            old(self).wf(),
        ensures
            final(self).wf(),
            r == spec_read_value(*old(self), spec_abs_x_ea(address, index_x)),
            spec_read_rel(*old(self), *final(self), spec_abs_x_ea(address, index_x)),
    {
        let address = address.wrapping_add(index_x as u16);
        self.fetch_absolute(address)
    }

    /// Absolute,X / absolute,Y write.
    pub fn store_absolute_x(&mut self, address: u16, index_x: u8, value: u8)
        requires
            old(self).wf(),
        ensures
            final(self).wf(),
            spec_store_rel(*old(self), *final(self), spec_abs_x_ea(address, index_x), value),
    {
        let address = address.wrapping_add(index_x as u16);
        self.store_absolute(address, value)
    }

    /// Zero-page read; the zero page holds no mapped registers, so the bus
    /// state is untouched.
    pub fn fetch_zero_page(&mut self, addr_lower_byte: u8) -> (r: u8)
        requires
            old(self).wf(),
        ensures
            final(self).wf(),
            r == old(self).buffer@[addr_lower_byte as int],
            spec_mem_unchanged(*old(self), *final(self)),
    {
        let address = addr_lower_byte as u16;
        self.fetch_absolute(address)
    }

    /// Zero-page write.
    pub fn store_zero_page(&mut self, addr_lower_byte: u8, value: u8)
        requires
            old(self).wf(),
        ensures
            final(self).wf(),
            spec_store_rel(*old(self), *final(self), addr_lower_byte as u16, value),
    {
        let address = addr_lower_byte as u16;
        self.store_absolute(address, value)
    }

    /// Zero page,X / zero page,Y read: the operand plus index wraps inside
    /// the zero page, so no mapped register can be hit.
    pub fn fetch_zero_page_x(&mut self, addr_lower_byte: u8, index_x: u8) -> (r: u8)
        requires
            old(self).wf(),
        ensures
            final(self).wf(),
            r == old(self).buffer@[spec_zp_x_ea(addr_lower_byte, index_x) as int],
            spec_mem_unchanged(*old(self), *final(self)),
    {
        let address = addr_lower_byte.wrapping_add(index_x);
        self.fetch_zero_page(address)
    }

    /// Zero page,X / zero page,Y write.
    pub fn store_zero_page_x(&mut self, addr_lower_byte: u8, x: u8, value: u8)
        requires
            old(self).wf(),
        ensures
            final(self).wf(),
            spec_store_rel(*old(self), *final(self), spec_zp_x_ea(addr_lower_byte, x), value),
    {
        let address = addr_lower_byte.wrapping_add(x);
        self.store_absolute(address as u16, value);
    }

    /// The pointer read of `JMP (addr)`, reproducing the 6502 page-wrap
    /// defect: the high pointer byte comes from the start of the same page
    /// when `addr` sits on a page boundary.
    pub fn fetch_indirect_quirk(&mut self, address: u16) -> (r: u16)
        requires
            old(self).wf(),
        ensures
            final(self).wf(),
            r == spec_read_value(*old(self), address) + spec_read2_value(
                *old(self),
                address,
                spec_quirk_next_addr(address),
            ) * 256,
            spec_read2_rel(*old(self), *final(self), address, spec_quirk_next_addr(address)),
    {
        let next_address = ((address >> 8) << 8) | ((address & 0xFF) as u8).wrapping_add(1) as u16;
        let lo = self.fetch_absolute(address);
        let hi = self.fetch_absolute(next_address);
        lo as u16 + (hi as u16) * 256
    }

    /// (Indirect,X) read: both pointer bytes come from the zero page with
    /// 8-bit wraparound; only the final data access can reach a mapped
    /// register.
    pub fn fetch_indirect_x(&mut self, addr_lower_byte: u8, index_x: u8) -> (r: u8)
        requires
            old(self).wf(),
        ensures
            final(self).wf(),
            r == spec_read_value(*old(self), spec_ind_x_ea(old(self).buffer@, addr_lower_byte, index_x)),
            spec_read_rel(
                *old(self),
                *final(self),
                spec_ind_x_ea(old(self).buffer@, addr_lower_byte, index_x),
            ),
    {
        let addr = self.fetch_zero_page(addr_lower_byte.wrapping_add(index_x)) as u16
            + self.fetch_zero_page(addr_lower_byte.wrapping_add(index_x).wrapping_add(1)) as u16
            * 256;
        self.fetch_absolute(addr)
    }

    /// (Indirect,X) write.
    pub fn store_indirect_x(&mut self, addr_lower_byte: u8, index_x: u8, value: u8)
        requires
            old(self).wf(),
        ensures
            final(self).wf(),
            spec_store_rel(
                *old(self),
                *final(self),
                spec_ind_x_ea(old(self).buffer@, addr_lower_byte, index_x),
                value,
            ),
    {
        let addr = self.fetch_zero_page(addr_lower_byte.wrapping_add(index_x)) as u16
            + self.fetch_zero_page(addr_lower_byte.wrapping_add(index_x).wrapping_add(1)) as u16
            * 256;
        self.store_absolute(addr, value)
    }

    /// (Indirect),Y read: the pointer comes from the zero page, Y is added
    /// with 16-bit wrap, and only the final data access can reach a mapped
    /// register.
    pub fn fetch_indirect_y(&mut self, addr_lower_byte: u8, index_y: u8) -> (r: u8)
        requires
            old(self).wf(),
        ensures
            final(self).wf(),
            r == spec_read_value(*old(self), spec_ind_y_ea(old(self).buffer@, addr_lower_byte, index_y)),
            spec_read_rel(
                *old(self),
                *final(self),
                spec_ind_y_ea(old(self).buffer@, addr_lower_byte, index_y),
            ),
    {
        let addr = self.fetch_zero_page(addr_lower_byte) as u16;
        let addr = addr.wrapping_add(
            self.fetch_zero_page(addr_lower_byte.wrapping_add(1)) as u16 * 256,
        );
        let addr = addr.wrapping_add(index_y as u16);
        self.fetch_absolute(addr)
    }

    /// (Indirect),Y write.
    pub fn store_indirect_y(&mut self, addr_lower_byte: u8, index_y: u8, value: u8)
        requires
            old(self).wf(),
        ensures
            final(self).wf(),
            spec_store_rel(
                *old(self),
                *final(self),
                spec_ind_y_ea(old(self).buffer@, addr_lower_byte, index_y),
                value,
            ),
    {
        let addr = self.fetch_zero_page(addr_lower_byte) as u16;
        let addr = addr.wrapping_add(
            self.fetch_zero_page(addr_lower_byte.wrapping_add(1)) as u16 * 256,
        );
        let addr = addr.wrapping_add(index_y as u16);
        self.store_absolute(addr, value);
    }
}

} // verus!
