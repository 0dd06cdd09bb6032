//! The picture processing unit: memory-mapped registers, object attribute
//! memory, and the scanline renderer.
//!
//! The PPU owns the 16 KiB video address space (`memory::VRAM`), 256 bytes of
//! OAM holding 64 sprites of 4 bytes each, a 32-byte secondary OAM holding the
//! up-to-8 sprites selected for the next scanline, and the 256x240 RGBA
//! framebuffer. All scalar register state lives in the plain-data `PpuRegs`
//! record so that every register access can state, as one equation, which
//! fields changed and that nothing else did. The CPU reaches the PPU only
//! through the eight registers at $2000-$2007 and the OAM DMA port.

pub mod memory;

use vstd::prelude::*;

use crate::utils::filled_vec;
use memory::{spec_vram_read, VRAM};

verus! {

/// Number of 32-bit pixels in the framebuffer: 256 columns by 240 lines.
pub const FRAMEBUFFER_PIXELS: usize = 61440;

/// The dot counter after one 341-dot scanline; it saturates rather than
/// wrap, as nothing reads it back modularly.
pub open spec fn spec_cycles_plus_line(c: usize) -> usize {
    if c + 341 <= usize::MAX {
        (c + 341) as usize
    } else {
        usize::MAX
    }
}

/// How the two physical nametables are aliased over the four logical ones.
#[derive(Clone, Copy, PartialEq, Eq, Structural, Debug)]
pub enum NametableArrangement {
    HorizontalMirror,
    VerticalMirror,
}

/// Which of the two 4 KiB pattern tables a lookup refers to.
#[derive(Clone, Copy, PartialEq, Eq, Structural, Debug)]
pub enum PatternTableType {
    Background,
    Sprite,
}

/// One of the four logical nametable quadrants.
#[derive(Clone, Copy, PartialEq, Eq, Structural, Debug)]
pub enum Quadrant {
    TopLeft,
    TopRight,
    BottomLeft,
    BottomRight,
}

/// Selects one of the four background or four sprite palettes.
#[derive(Clone, Copy, PartialEq, Eq, Structural, Debug)]
pub enum PaletteIndex {
    Bg(u8),
    Sprite(u8),
}

/// A master-palette entry paired with its native color code.
pub struct NesColor {
    pub native_codes: u8,
    pub rgbs: (u8, u8, u8),
}

/// Object Attribute Memory: 64 sprites of 4 bytes each
/// (Y position, tile index, attributes, X position).
pub struct OAM {
    pub sprite_info: Vec<u8>,
}

impl OAM {
    pub open spec fn wf(self) -> bool {
        self.sprite_info@.len() == 256
    }

    pub fn new() -> (r: OAM)
        ensures
            r.wf(),
            r.sprite_info@ == Seq::new(256, |i: int| 0u8),
    {
        OAM { sprite_info: filled_vec(256, 0u8) }
    }
}

/// Per-scanline scratch holding the up-to-8 sprites selected for the next
/// line; cleared to $FF before each evaluation.
#[allow(non_camel_case_types)]
pub struct SEC_OAM {
    pub sprite_info: Vec<u8>,
}

impl SEC_OAM {
    pub open spec fn wf(self) -> bool {
        self.sprite_info@.len() == 32
    }

    pub fn new() -> (r: SEC_OAM)
        ensures
            r.wf(),
            r.sprite_info@ == Seq::new(32, |i: int| 0xFFu8),
    {
        SEC_OAM { sprite_info: filled_vec(32, 0xFFu8) }
    }
}

/// The pattern data and attributes fetched for one sprite of the next
/// scanline.
#[derive(Clone, Copy, PartialEq, Eq, Structural, Debug)]
pub struct Sprite {
    pub horizontal_flip: bool,
    pub vertical_flip: bool,
    pub priority: bool,
    pub lo_byte: u8,
    pub hi_byte: u8,
}

impl Sprite {
    pub fn new(
        horizontal_flip: bool,
        vertical_flip: bool,
        priority: bool,
        lo_byte: u8,
        hi_byte: u8,
    ) -> (r: Sprite)
        ensures
            r == (Sprite { horizontal_flip, vertical_flip, priority, lo_byte, hi_byte }),
    {
        Sprite { horizontal_flip, vertical_flip, priority, lo_byte, hi_byte }
    }
}

/// The bytes fetched for one background tile of the current scanline: the
/// nametable byte, the two palette-select bits from the attribute table, and
/// the two pattern-table bitplanes for the current pixel row.
#[derive(Clone, Copy, PartialEq, Eq, Structural, Debug)]
pub struct TileFetch {
    pub nt_byte: u8,
    pub attr_two_bit: u8,
    pub pt_low_byte: u8,
    pub pt_hi_byte: u8,
}

/// All scalar PPU state: internal latches, decoded PPUCTRL/PPUMASK bits,
/// status flags and the scanline bookkeeping.
#[derive(Clone, Copy, PartialEq, Eq, Structural, Debug)]
pub struct PpuRegs {
    /// PPU dots elapsed; every scanline advances this by 341.
    pub num_cycles: usize,
    pub curr_tile_row: usize,
    pub curr_tile_col: usize,
    /// Scanline processed by the next tick, from -1 (pre-render) to 260
    /// (last vertical-blank line); 261 is the transient value that wraps.
    pub curr_scanline: i32,

    /// Current VRAM address, 14 bits.
    pub v: u16,
    /// Address latch being assembled by PPUADDR writes.
    pub t: u16,
    /// Fine-x scroll.
    pub fine_x: u16,
    /// Write latch: false means the next PPUSCROLL/PPUADDR write is the
    /// first of its pair. Reading PPUSTATUS resets it to false.
    pub w: bool,

    /// VRAM address step per PPUDATA access: 1 or 32, from PPUCTRL bit 2.
    pub increment: u8,
    pub sprite_pattern_address: u16,
    pub bg_pattern_address: u16,
    /// True selects 8x16 sprites (PPUCTRL bit 5).
    pub sprite_size: bool,
    pub mode: bool,
    pub generate_nmi: bool,
    pub master_slave_select: bool,
    /// Sprites selected into secondary OAM for the next scanline.
    pub num_sprites: usize,
    pub is_vblank: bool,
    /// True exactly after the tick that entered the vertical blank, so the
    /// driver can deliver at most one NMI per frame.
    pub vblank_started: bool,
    pub sprite_hit: bool,
    pub sprite_overflow: bool,

    pub base_nametable_address: usize,
    /// The buffered byte returned by the next PPUDATA read.
    pub read_buffer: u8,
    pub oam_address: u8,
    pub x_scroll: u8,
    pub y_scroll: u8,

    pub is_greyscale: bool,
    pub clip_background: bool,
    pub clip_sprites: bool,
    pub show_background: bool,
    pub show_sprites: bool,
    pub emphasize_red: bool,
    pub emphasize_green: bool,
    pub emphasize_blue: bool,
}

/// Status byte delivered by a PPUSTATUS ($2002) read: sprite overflow in bit
/// 5, sprite-0 hit in bit 6, vertical blank in bit 7; the open-bus bits read
/// as 0.
pub open spec fn spec_status_byte(r: PpuRegs) -> u8 {
    let v0: u8 = 0;
    let v1: u8 = if r.sprite_overflow {
        v0 | 0x20
    } else {
        v0
    };
    let v2: u8 = if r.sprite_hit {
        v1 | 0x40
    } else {
        v1
    };
    if r.is_vblank {
        v2 | 0x80
    } else {
        v2
    }
}

/// Base address selected by the low two bits of PPUCTRL.
pub open spec fn spec_nametable_base(value: u8) -> usize {
    if value % 4 == 0 {
        0x2000
    } else if value % 4 == 1 {
        0x2400
    } else if value % 4 == 2 {
        0x2800
    } else {
        0x2C00
    }
}

/// The register record after a PPUCTRL ($2000) write of `value`.
pub open spec fn spec_ctrl_write(r: PpuRegs, value: u8) -> PpuRegs {
    PpuRegs {
        base_nametable_address: spec_nametable_base(value),
        increment: if value & 0x04 == 0 {
            1u8
        } else {
            32u8
        },
        sprite_pattern_address: if value & 0x08 != 0 {
            0x1000u16
        } else {
            0u16
        },
        bg_pattern_address: if value & 0x10 != 0 {
            0x1000u16
        } else {
            0u16
        },
        sprite_size: value & 0x20 != 0,
        mode: value & 0x20 != 0,
        master_slave_select: value & 0x40 != 0,
        generate_nmi: value & 0x80 != 0,
        ..r
    }
}

/// The register record after a PPUMASK ($2001) write of `value`.
pub open spec fn spec_mask_write(r: PpuRegs, value: u8) -> PpuRegs {
    PpuRegs {
        is_greyscale: value & 0x01 != 0,
        clip_background: value & 0x02 != 0,
        clip_sprites: value & 0x04 != 0,
        show_background: value & 0x08 != 0,
        show_sprites: value & 0x10 != 0,
        emphasize_red: value & 0x20 != 0,
        emphasize_green: value & 0x40 != 0,
        emphasize_blue: value & 0x80 != 0,
        ..r
    }
}

#[verifier::ext_equal]
pub struct PPU {
    /// All scalar register and bookkeeping state.
    pub regs: PpuRegs,
    pub secondary_oam: SEC_OAM,
    /// 256x240 output pixels, packed RGBA, one scanline at a time.
    pub fb: Vec<u32>,

    pub nametable_queue: Vec<TileFetch>,
    pub sprite_queue: Vec<Sprite>,

    pub vram: VRAM,
    pub oam: OAM,
}

impl PPU {
    /// Structural invariant: every buffer has its hardware size and every
    /// derived register field holds one of the values its PPUCTRL bits can
    /// select.
    pub open spec fn wf(self) -> bool {
        &&& self.vram.wf()
        &&& self.oam.wf()
        &&& self.secondary_oam.wf()
        &&& self.fb@.len() == FRAMEBUFFER_PIXELS
        &&& self.regs.num_sprites <= 8
        &&& self.sprite_queue@.len() == self.regs.num_sprites
        &&& self.regs.v < 0x4000
        &&& (self.regs.increment == 1 || self.regs.increment == 32)
        &&& (self.regs.base_nametable_address == 0x2000 || self.regs.base_nametable_address
            == 0x2400 || self.regs.base_nametable_address == 0x2800
            || self.regs.base_nametable_address == 0x2C00)
        &&& (self.regs.bg_pattern_address == 0 || self.regs.bg_pattern_address == 0x1000)
        &&& (self.regs.sprite_pattern_address == 0 || self.regs.sprite_pattern_address == 0x1000)
        &&& -2 <= self.regs.curr_scanline <= 261
    }

    /// The buffers and queues of `b` are those of `a`, untouched.
    pub open spec fn same_buffers(a: PPU, b: PPU) -> bool {
        &&& a.secondary_oam.sprite_info == b.secondary_oam.sprite_info
        &&& a.fb == b.fb
        &&& a.nametable_queue == b.nametable_queue
        &&& a.sprite_queue == b.sprite_queue
        &&& a.vram == b.vram
        &&& a.oam.sprite_info == b.oam.sprite_info
    }

    /// The cold-boot register record: everything cleared, VRAM increment 1,
    /// nametable base $2000.
    pub open spec fn spec_boot_regs() -> PpuRegs {
        PpuRegs {
            num_cycles: 0,
            curr_tile_row: 0,
            curr_tile_col: 0,
            curr_scanline: 0,
            v: 0,
            t: 0,
            fine_x: 0,
            w: false,
            increment: 1,
            sprite_pattern_address: 0,
            bg_pattern_address: 0,
            sprite_size: false,
            mode: false,
            generate_nmi: false,
            master_slave_select: false,
            num_sprites: 0,
            is_vblank: false,
            vblank_started: false,
            sprite_hit: false,
            sprite_overflow: false,
            base_nametable_address: 0x2000,
            read_buffer: 0,
            oam_address: 0,
            x_scroll: 0,
            y_scroll: 0,
            is_greyscale: false,
            clip_background: false,
            clip_sprites: false,
            show_background: false,
            show_sprites: false,
            emphasize_red: false,
            emphasize_green: false,
            emphasize_blue: false,
        }
    }

    pub fn new() -> (r: PPU)
        ensures
            r.wf(),
            r.regs == PPU::spec_boot_regs(),
            r.vram.buffer@ == Seq::new(0x4000, |i: int| 0u8),
            r.vram.arrangement == NametableArrangement::HorizontalMirror,
            r.oam.sprite_info@ == Seq::new(256, |i: int| 0u8),
            r.secondary_oam.sprite_info@ == Seq::new(32, |i: int| 0xFFu8),
            r.fb@ == Seq::new(FRAMEBUFFER_PIXELS as nat, |i: int| 0u32),
            r.nametable_queue@.len() == 0,
            r.sprite_queue@.len() == 0,
    {
        PPU {
            regs: PpuRegs {
                num_cycles: 0,
                curr_tile_row: 0,
                curr_tile_col: 0,
                curr_scanline: 0,
                v: 0,
                t: 0,
                fine_x: 0,
                w: false,
                increment: 1,
                sprite_pattern_address: 0x0000,
                bg_pattern_address: 0x0000,
                sprite_size: false,
                mode: false,
                generate_nmi: false,
                master_slave_select: false,
                num_sprites: 0,
                is_vblank: false,
                vblank_started: false,
                sprite_hit: false,
                sprite_overflow: false,
                base_nametable_address: 0x2000,
                read_buffer: 0,
                oam_address: 0,
                x_scroll: 0,
                y_scroll: 0,
                is_greyscale: false,
                clip_background: false,
                clip_sprites: false,
                show_background: false,
                show_sprites: false,
                emphasize_red: false,
                emphasize_green: false,
                emphasize_blue: false,
            },
            secondary_oam: SEC_OAM::new(),
            fb: filled_vec(FRAMEBUFFER_PIXELS, 0u32),
            nametable_queue: Vec::new(),
            sprite_queue: Vec::new(),
            vram: VRAM::new(),
            oam: OAM::new(),
        }
    }

    /// A read-only view of the 256x240 packed-RGBA output pixels.
    pub fn framebuffer(&self) -> (r: &Vec<u32>)
        ensures
            r == self.fb,
    {
        &self.fb
    }

    /// PPUCTRL ($2000, write): bits 0-1 select the base nametable, bit 2 the
    /// VRAM increment (1 or 32), bit 3 the sprite pattern table, bit 4 the
    /// background pattern table, bit 5 the sprite size, bit 6 master/slave,
    /// bit 7 whether vertical blank raises an NMI.
    pub fn ppu_ctrl(&mut self, value: u8)
        requires
            old(self).wf(),
        ensures
            final(self).wf(),
            final(self).regs == spec_ctrl_write(old(self).regs, value),
            PPU::same_buffers(*old(self), *final(self)),
    {
        let base: usize = match value % 4 {
            0 => 0x2000,
            1 => 0x2400,
            2 => 0x2800,
            _ => 0x2C00,
        };
        self.regs = PpuRegs {
            base_nametable_address: base,
            increment: if value & 0x04 == 0 {
                1
            } else {
                32
            },
            sprite_pattern_address: if value & 0x08 != 0 {
                0x1000
            } else {
                0x0000
            },
            bg_pattern_address: if value & 0x10 != 0 {
                0x1000
            } else {
                0x0000
            },
            sprite_size: value & 0x20 != 0,
            mode: value & 0x20 != 0,
            master_slave_select: value & 0x40 != 0,
            generate_nmi: value & 0x80 != 0,
            ..self.regs
        };
    }

    /// PPUMASK ($2001, write): grayscale, left-8 clipping, rendering enables
    /// and color emphasis bits.
    pub fn ppu_mask(&mut self, value: u8)
        requires
            old(self).wf(),
        ensures
            final(self).wf(),
            final(self).regs == spec_mask_write(old(self).regs, value),
            PPU::same_buffers(*old(self), *final(self)),
    {
        self.regs = PpuRegs {
            is_greyscale: value & 0x01 != 0,
            clip_background: value & 0x02 != 0,
            clip_sprites: value & 0x04 != 0,
            show_background: value & 0x08 != 0,
            show_sprites: value & 0x10 != 0,
            emphasize_red: value & 0x20 != 0,
            emphasize_green: value & 0x40 != 0,
            emphasize_blue: value & 0x80 != 0,
            ..self.regs
        };
    }

    /// PPUSTATUS ($2002, read): returns overflow/hit/vblank in the top three
    /// bits, then clears the vertical-blank bit and resets the write latch to
    /// the first-write state.
    pub fn ppu_status(&mut self) -> (r: u8)
        requires
            old(self).wf(),
        ensures
            final(self).wf(),
            r == spec_status_byte(old(self).regs),
            final(self).regs == (PpuRegs { w: false, is_vblank: false, ..old(self).regs }),
            PPU::same_buffers(*old(self), *final(self)),
    {
        let mut val: u8 = 0;
        if self.regs.sprite_overflow {
            val = val | 0x20;
        }
        if self.regs.sprite_hit {
            val = val | 0x40;
        }
        if self.regs.is_vblank {
            val = val | 0x80;
        }
        self.regs = PpuRegs { w: false, is_vblank: false, ..self.regs };
        val
    }

    /// OAMADDR ($2003, write): sets the OAM index the next OAMDATA access
    /// uses.
    pub fn oam_addr(&mut self, value: u8)
        requires
            old(self).wf(),
        ensures
            final(self).wf(),
            final(self).regs == (PpuRegs { oam_address: value, ..old(self).regs }),
            PPU::same_buffers(*old(self), *final(self)),
    {
        self.regs = PpuRegs { oam_address: value, ..self.regs };
    }

    /// OAMDATA ($2004, read): returns the OAM byte under the current OAM
    /// address, without side effects.
    pub fn oam_data_read(&self) -> (r: u8)
        requires
            self.wf(),
        ensures
            r == self.oam.sprite_info@[self.regs.oam_address as int],
    {
        self.oam.sprite_info[self.regs.oam_address as usize]
    }

    /// OAMDATA ($2004, write): stores at the current OAM address, which then
    /// post-increments modulo 256.
    pub fn oam_data_write(&mut self, value: u8)
        requires
            old(self).wf(),
        ensures
            final(self).wf(),
            final(self).oam.sprite_info@ == old(self).oam.sprite_info@.update(
                old(self).regs.oam_address as int,
                value,
            ),
            final(self).regs == (PpuRegs {
                oam_address: vstd::wrapping::u8_specs::wrapping_add(old(self).regs.oam_address, 1),
                ..old(self).regs
            }),
            final(self).secondary_oam.sprite_info == old(self).secondary_oam.sprite_info,
            final(self).fb == old(self).fb,
            final(self).nametable_queue == old(self).nametable_queue,
            final(self).sprite_queue == old(self).sprite_queue,
            final(self).vram == old(self).vram,
    {
        let idx = self.regs.oam_address as usize;
        self.oam.sprite_info[idx] = value;
        self.regs = PpuRegs { oam_address: self.regs.oam_address.wrapping_add(1), ..self.regs };
    }

    /// PPUSCROLL ($2005, write): the first write of a pair sets the X scroll,
    /// the second the Y scroll; the write latch toggles each time.
    pub fn ppu_scroll(&mut self, value: u8)
        requires
            old(self).wf(),
        ensures
            final(self).wf(),
            final(self).regs == (if old(self).regs.w == false {
                PpuRegs { x_scroll: value, w: true, ..old(self).regs }
            } else {
                PpuRegs { y_scroll: value, w: false, ..old(self).regs }
            }),
            PPU::same_buffers(*old(self), *final(self)),
    {
        if self.regs.w == false {
            self.regs = PpuRegs { x_scroll: value, w: true, ..self.regs };
        } else {
            self.regs = PpuRegs { y_scroll: value, w: false, ..self.regs };
        }
    }

    /// PPUADDR ($2006, write): the first write of a pair latches the high
    /// byte of the address into `t`, the second completes the low byte and
    /// copies `t` (masked to 14 bits) into `v`; the write latch toggles each
    /// time.
    pub fn ppu_addr(&mut self, value: u8)
        requires
            old(self).wf(),
        ensures
            final(self).wf(),
            final(self).regs == (if !old(self).regs.w {
                PpuRegs { t: (value as u16) << 8, w: true, ..old(self).regs }
            } else {
                PpuRegs {
                    t: old(self).regs.t | value as u16,
                    v: (old(self).regs.t | value as u16) % 0x4000,
                    w: false,
                    ..old(self).regs
                }
            }),
            PPU::same_buffers(*old(self), *final(self)),
    {
        if !self.regs.w {
            self.regs = PpuRegs { t: (value as u16) << 8, w: true, ..self.regs };
        } else {
            let assembled = self.regs.t | value as u16;
            self.regs = PpuRegs { t: assembled, v: assembled % 0x4000, w: false, ..self.regs };
        }
    }

    /// PPUDATA ($2007, read): returns the internal read buffer, refills the
    /// buffer from the VRAM cell under `v`, and advances `v` by the PPUCTRL
    /// increment, modulo $4000.
    pub fn ppu_data_read(&mut self) -> (r: u8)
        requires
            old(self).wf(),
        ensures
            final(self).wf(),
            r == old(self).regs.read_buffer,
            final(self).regs == (PpuRegs {
                read_buffer: spec_vram_read(old(self).vram, old(self).regs.v as int),
                v: ((old(self).regs.v + old(self).regs.increment) % 0x4000) as u16,
                ..old(self).regs
            }),
            PPU::same_buffers(*old(self), *final(self)),
    {
        let old_buffer = self.regs.read_buffer;

        let read_result = self.vram.get(self.regs.v as usize);

        self.regs = PpuRegs {
            read_buffer: read_result,
            v: (self.regs.v + self.regs.increment as u16) % 0x4000,
            ..self.regs
        };

        old_buffer
    }

    /// PPUDATA ($2007, write): stores to the VRAM cell under `v` (observing
    /// mirroring), then advances `v` by the PPUCTRL increment, modulo $4000.
    pub fn ppu_data_write(&mut self, value: u8)
        requires
            old(self).wf(),
        ensures
            final(self).wf(),
            final(self).vram.arrangement == old(self).vram.arrangement,
            final(self).vram.buffer@ == old(self).vram.buffer@.update(
                memory::spec_vram_index(old(self).vram.arrangement, old(self).regs.v as int),
                value,
            ),
            final(self).regs == (PpuRegs {
                v: ((old(self).regs.v + old(self).regs.increment) % 0x4000) as u16,
                ..old(self).regs
            }),
            final(self).secondary_oam.sprite_info == old(self).secondary_oam.sprite_info,
            final(self).fb == old(self).fb,
            final(self).nametable_queue == old(self).nametable_queue,
            final(self).sprite_queue == old(self).sprite_queue,
            final(self).oam.sprite_info == old(self).oam.sprite_info,
    {
        self.vram.set(self.regs.v as usize, value);

        self.regs = PpuRegs { v: (self.regs.v + self.regs.increment as u16) % 0x4000, ..self.regs };
    }

    /// OAMDMA ($4014): copies the given 256-byte page into OAM, starting at
    /// the current OAM address and wrapping around the end of OAM.
    pub fn oam_dma(&mut self, mem_slice: &[u8])
        requires
            old(self).wf(),
            mem_slice@.len() == 256,
        ensures
            final(self).wf(),
            forall|k: int|
                0 <= k < 256 ==> final(self).oam.sprite_info@[(old(self).regs.oam_address + k)
                    % 256] == mem_slice@[k],
            final(self).oam.sprite_info@.len() == 256,
            final(self).regs == old(self).regs,
            final(self).secondary_oam.sprite_info == old(self).secondary_oam.sprite_info,
            final(self).fb == old(self).fb,
            final(self).nametable_queue == old(self).nametable_queue,
            final(self).sprite_queue == old(self).sprite_queue,
            final(self).vram == old(self).vram,
    {
        let base = self.regs.oam_address as usize;
        for k in 0..256usize
            invariant
                self.oam.wf(),
                mem_slice@.len() == 256,
                base == old(self).regs.oam_address as usize,
                forall|j: int|
                    0 <= j < k ==> self.oam.sprite_info@[(base + j) % 256] == mem_slice@[j],
                self.regs == old(self).regs,
                self.secondary_oam.sprite_info == old(self).secondary_oam.sprite_info,
                self.fb == old(self).fb,
                self.nametable_queue == old(self).nametable_queue,
                self.sprite_queue == old(self).sprite_queue,
                self.vram == old(self).vram,
        {
            let idx = (base + k) % 256;
            let value = *vstd::slice::slice_index_get(mem_slice, k);
            self.oam.sprite_info[idx] = value;
            proof {
                assert forall|j: int| 0 <= j < k + 1 implies self.oam.sprite_info@[(base + j) % 256]
                    == mem_slice@[j] by {
                    if j < k {
                        assert((base + j) % 256 != (base + k) % 256);
                    }
                }
            }
        }
    }

    /// Clears secondary OAM to $FF and resets the per-scanline sprite count,
    /// as the hardware does before each sprite evaluation.
    pub fn clear_secondary_oam(&mut self)
        requires
            old(self).wf(),
        ensures
            final(self).wf(),
            final(self).secondary_oam.sprite_info@ == Seq::new(32, |i: int| 0xFFu8),
            final(self).regs == (PpuRegs { num_sprites: 0, ..old(self).regs }),
            final(self).sprite_queue@.len() == 0,
            final(self).fb == old(self).fb,
            final(self).nametable_queue == old(self).nametable_queue,
            final(self).vram == old(self).vram,
            final(self).oam.sprite_info == old(self).oam.sprite_info,
    {
        self.secondary_oam = SEC_OAM::new();
        self.sprite_queue = Vec::new();
        self.regs = PpuRegs { num_sprites: 0, ..self.regs };
    }

    /// A scanline on which nothing is fetched or drawn; only the dot counter
    /// advances by the 341 dots every scanline takes.
    pub fn noop_scanline(&mut self)
        requires
            old(self).wf(),
        ensures
            final(self).wf(),
            final(self).regs == (PpuRegs {
                num_cycles: spec_cycles_plus_line(old(self).regs.num_cycles),
                ..old(self).regs
            }),
            PPU::same_buffers(*old(self), *final(self)),
    {
        self.regs = PpuRegs { num_cycles: self.regs.num_cycles.saturating_add(341), ..self.regs };
    }
}

/// The fixed 64-entry master palette, mapping a 6-bit color code to its
/// output RGB triple; the values are bit-exact.
pub open spec fn spec_master_palette_lo(idx: int) -> (u8, u8, u8) {
    if idx == 0 {
        (98, 98, 98)
    } else if idx == 1 {
        (1, 32, 144)
    } else if idx == 2 {
        (36, 11, 160)
    } else if idx == 3 {
        (71, 0, 144)
    } else if idx == 4 {
        (96, 0, 98)
    } else if idx == 5 {
        (106, 0, 36)
    } else if idx == 6 {
        (96, 17, 0)
    } else if idx == 7 {
        (71, 39, 0)
    } else if idx == 8 {
        (36, 60, 0)
    } else if idx == 9 {
        (1, 74, 0)
    } else if idx == 10 {
        (0, 79, 0)
    } else if idx == 11 {
        (0, 71, 36)
    } else if idx == 12 {
        (0, 54, 98)
    } else if idx == 13 {
        (0, 0, 0)
    } else if idx == 14 {
        (0, 0, 0)
    } else if idx == 15 {
        (0, 0, 0)
    } else if idx == 16 {
        (171, 171, 171)
    } else if idx == 17 {
        (31, 86, 225)
    } else if idx == 18 {
        (77, 57, 255)
    } else if idx == 19 {
        (126, 35, 239)
    } else if idx == 20 {
        (163, 27, 183)
    } else if idx == 21 {
        (180, 34, 100)
    } else if idx == 22 {
        (172, 55, 14)
    } else if idx == 23 {
        (140, 85, 0)
    } else if idx == 24 {
        (94, 114, 0)
    } else if idx == 25 {
        (45, 136, 0)
    } else if idx == 26 {
        (7, 144, 0)
    } else if idx == 27 {
        (0, 137, 71)
    } else if idx == 28 {
        (0, 115, 157)
    } else if idx == 29 {
        (0, 0, 0)
    } else if idx == 30 {
        (0, 0, 0)
    } else {
        (0, 0, 0)
    }
}

/// Continuation of the master palette for codes 32 and up.
pub open spec fn spec_master_palette_hi(idx: int) -> (u8, u8, u8) {
    if idx == 32 {
        (255, 255, 255)
    } else if idx == 33 {
        (103, 172, 255)
    } else if idx == 34 {
        (149, 141, 255)
    } else if idx == 35 {
        (200, 117, 255)
    } else if idx == 36 {
        (242, 106, 255)
    } else if idx == 37 {
        (255, 111, 197)
    } else if idx == 38 {
        (255, 131, 106)
    } else if idx == 39 {
        (230, 160, 31)
    } else if idx == 40 {
        (184, 191, 0)
    } else if idx == 41 {
        (133, 216, 1)
    } else if idx == 42 {
        (91, 227, 53)
    } else if idx == 43 {
        (69, 222, 136)
    } else if idx == 44 {
        (73, 202, 227)
    } else if idx == 45 {
        (78, 78, 78)
    } else if idx == 46 {
        (0, 0, 0)
    } else if idx == 47 {
        (0, 0, 0)
    } else if idx == 48 {
        (255, 255, 255)
    } else if idx == 49 {
        (191, 224, 255)
    } else if idx == 50 {
        (209, 211, 255)
    } else if idx == 51 {
        (230, 201, 255)
    } else if idx == 52 {
        (247, 195, 255)
    } else if idx == 53 {
        (255, 196, 238)
    } else if idx == 54 {
        (255, 203, 201)
    } else if idx == 55 {
        (247, 215, 169)
    } else if idx == 56 {
        (230, 227, 151)
    } else if idx == 57 {
        (209, 238, 151)
    } else if idx == 58 {
        (191, 243, 169)
    } else if idx == 59 {
        (181, 242, 201)
    } else if idx == 60 {
        (181, 235, 238)
    } else if idx == 61 {
        (184, 184, 184)
    } else if idx == 62 {
        (0, 0, 0)
    } else {
        (0, 0, 0)
    }
}

/// The fixed 64-entry master palette.
pub open spec fn spec_master_palette(idx: int) -> (u8, u8, u8) {
    if idx < 32 {
        spec_master_palette_lo(idx)
    } else {
        spec_master_palette_hi(idx)
    }
}

/// Looks a 6-bit color code up in the master palette.
pub fn master_palette(idx: u8) -> (r: (u8, u8, u8))
    requires
        idx < 64,
    ensures
        r == spec_master_palette(idx as int),
{
    match idx {
            0 => (98, 98, 98),
            1 => (1, 32, 144),
            2 => (36, 11, 160),
            3 => (71, 0, 144),
            4 => (96, 0, 98),
            5 => (106, 0, 36),
            6 => (96, 17, 0),
            7 => (71, 39, 0),
            8 => (36, 60, 0),
            9 => (1, 74, 0),
            10 => (0, 79, 0),
            11 => (0, 71, 36),
            12 => (0, 54, 98),
            13 => (0, 0, 0),
            14 => (0, 0, 0),
            15 => (0, 0, 0),
            16 => (171, 171, 171),
            17 => (31, 86, 225),
            18 => (77, 57, 255),
            19 => (126, 35, 239),
            20 => (163, 27, 183),
            21 => (180, 34, 100),
            22 => (172, 55, 14),
            23 => (140, 85, 0),
            24 => (94, 114, 0),
            25 => (45, 136, 0),
            26 => (7, 144, 0),
            27 => (0, 137, 71),
            28 => (0, 115, 157),
            29 => (0, 0, 0),
            30 => (0, 0, 0),
            31 => (0, 0, 0),
            32 => (255, 255, 255),
            33 => (103, 172, 255),
            34 => (149, 141, 255),
            35 => (200, 117, 255),
            36 => (242, 106, 255),
            37 => (255, 111, 197),
            38 => (255, 131, 106),
            39 => (230, 160, 31),
            40 => (184, 191, 0),
            41 => (133, 216, 1),
            42 => (91, 227, 53),
            43 => (69, 222, 136),
            44 => (73, 202, 227),
            45 => (78, 78, 78),
            46 => (0, 0, 0),
            47 => (0, 0, 0),
            48 => (255, 255, 255),
            49 => (191, 224, 255),
            50 => (209, 211, 255),
            51 => (230, 201, 255),
            52 => (247, 195, 255),
            53 => (255, 196, 238),
            54 => (255, 203, 201),
            55 => (247, 215, 169),
            56 => (230, 227, 151),
            57 => (209, 238, 151),
            58 => (191, 243, 169),
            59 => (181, 242, 201),
            60 => (181, 235, 238),
            61 => (184, 184, 184),
            62 => (0, 0, 0),
            63 => (0, 0, 0),
            _ => (0, 0, 0),
    }
}

/// A packed RGBA pixel: red in the top byte, then green and blue, with a
/// fully opaque alpha byte.
pub open spec fn spec_pack_rgba(c: (u8, u8, u8)) -> u32 {
    (c.0 * 0x1000000 + c.1 * 0x10000 + c.2 * 0x100 + 0xFF) as u32
}

/// Packs an RGB triple into a 32-bit RGBA pixel.
pub fn pack_rgba(c: (u8, u8, u8)) -> (r: u32)
    ensures
        r == spec_pack_rgba(c),
{
    c.0 as u32 * 0x1000000 + c.1 as u32 * 0x10000 + c.2 as u32 * 0x100 + 0xFF
}

/// The palette-RAM cell a palette selector starts at: background palette
/// `n` at $3F01 + 4n, sprite palette `n` at $3F11 + 4n; out-of-range
/// selectors fall back to address 0, as the lookup cannot fail.
pub open spec fn spec_palette_base(p: PaletteIndex) -> usize {
    match p {
        PaletteIndex::Bg(n) => if n < 4 {
            (0x3F01 + 4 * n) as usize
        } else {
            0
        },
        PaletteIndex::Sprite(n) => if n < 4 {
            (0x3F11 + 4 * n) as usize
        } else {
            0
        },
    }
}

/// The output color of palette entry `addr`: the stored 6-bit code, looked
/// up in the master palette.
pub open spec fn spec_palette_color(vram: VRAM, addr: int) -> (u8, u8, u8) {
    spec_master_palette(spec_vram_read(vram, addr) as int % 64)
}

/// One of the four background or sprite palettes: three colors starting at
/// its palette-RAM base, preceded by the universal background color at
/// $3F00.
pub struct Palette {
    pub palette_index: PaletteIndex,
    pub starting_addr: usize,
}

impl Palette {
    pub open spec fn wf(self) -> bool {
        self.starting_addr == spec_palette_base(self.palette_index)
    }

    pub fn new(p_idx: PaletteIndex) -> (r: Palette)
        ensures
            r.wf(),
            r.palette_index == p_idx,
    {
        let starting_addr: usize = match p_idx {
            PaletteIndex::Bg(table_num) => match table_num {
                0 => 0x3F01,
                1 => 0x3F05,
                2 => 0x3F09,
                3 => 0x3F0D,
                _ => 0,
            },
            PaletteIndex::Sprite(table_num) => match table_num {
                0 => 0x3F11,
                1 => 0x3F15,
                2 => 0x3F19,
                3 => 0x3F1D,
                _ => 0,
            },
        };

        Palette { palette_index: p_idx, starting_addr }
    }

    /// The four colors a 2-bit color index selects from: index 0 is the
    /// universal background color, indexes 1-3 the palette's own entries.
    pub fn get_colors(&self, vram: &VRAM) -> (r: Vec<(u8, u8, u8)>)
        requires
            self.wf(),
            vram.wf(),
        ensures
            r@.len() == 4,
            r@[0] == spec_palette_color(*vram, 0x3F00),
            forall|k: int|
                1 <= k < 4 ==> r@[k] == spec_palette_color(
                    *vram,
                    self.starting_addr + k - 1,
                ),
    {
        let mut colors: Vec<(u8, u8, u8)> = Vec::new();
        colors.push(master_palette(vram.peek(0x3F00) % 64));
        colors.push(master_palette(vram.peek(self.starting_addr) % 64));
        colors.push(master_palette(vram.peek(self.starting_addr + 1) % 64));
        colors.push(master_palette(vram.peek(self.starting_addr + 2) % 64));

        colors
    }

    /// The color a 2-bit color index selects.
    pub fn get_color(&self, vram: &VRAM, idx: usize) -> (r: (u8, u8, u8))
        requires
            self.wf(),
            vram.wf(),
            idx < 4,
        ensures
            r == (if idx == 0 {
                spec_palette_color(*vram, 0x3F00)
            } else {
                spec_palette_color(*vram, self.starting_addr + idx - 1)
            }),
    {
        if idx == 0 {
            master_palette(vram.peek(0x3F00) % 64)
        } else {
            master_palette(vram.peek(self.starting_addr + idx - 1) % 64)
        }
    }
}

/// A 4 KiB pattern table decoded into 256 tiles of 16 bytes (two 8-byte
/// bitplanes each).
pub struct PatternTable {
    pub tile_map: Vec<Vec<u8>>,
}

impl PatternTable {
    pub open spec fn wf(self) -> bool {
        &&& self.tile_map@.len() == 256
        &&& forall|k: int| 0 <= k < 256 ==> (#[trigger] self.tile_map@[k])@.len() == 16
    }

    /// Copies the 256 tiles starting at `addr` out of video memory; tile
    /// `k` holds bytes `addr + 16k .. addr + 16k + 16`.
    pub fn from_memory(ptype: PatternTableType, vram: &VRAM, addr: u16) -> (r: PatternTable)
        requires
            vram.wf(),
            addr <= 0x3000,
        ensures
            r.wf(),
            forall|k: int, j: int|
                0 <= k < 256 && 0 <= j < 16 ==> #[trigger] r.tile_map@[k]@[j]
                    == vram.buffer@[addr + 16 * k + j],
    {
        let mut tile_map: Vec<Vec<u8>> = Vec::new();
        let base = addr as usize;
        for k in 0..256usize
            invariant
                vram.wf(),
                base == addr as usize,
                base <= 0x3000,
                tile_map@.len() == k,
                forall|k2: int, j: int|
                    0 <= k2 < k && 0 <= j < 16 ==> #[trigger] tile_map@[k2]@[j]
                        == vram.buffer@[addr + 16 * k2 + j],
                forall|k2: int| 0 <= k2 < k ==> (#[trigger] tile_map@[k2])@.len() == 16,
        {
            let mut tile: Vec<u8> = Vec::new();
            for j in 0..16usize
                invariant
                    vram.wf(),
                    base <= 0x3000,
                    k < 256,
                    tile@.len() == j,
                    forall|j2: int|
                        0 <= j2 < j ==> tile@[j2] == vram.buffer@[base + 16 * k + j2],
            {
                let b = vram.buffer[base + 16 * k + j];
                tile.push(b);
            }
            tile_map.push(tile);
        }
        PatternTable { tile_map }
    }
}

/// The attribute entry of tile (row, col) of a nametable at `start`: the
/// attribute byte of its 4x4 block, shifted down to the 2 bits of the 2x2
/// quadrant the tile falls in.
pub open spec fn spec_attr_entry(buf: Seq<u8>, start: int, row: int, col: int) -> u8 {
    let attr_byte = buf[start + 960 + (row / 4) * 8 + col / 4];
    let shift = ((row % 4) / 2) * 4 + ((col % 4) / 2) * 2;
    (attr_byte >> (shift as u8)) % 4
}

/// A nametable decoded into its 30x32 grid of tile indexes and the 2-bit
/// palette selector of every tile.
pub struct Nametable {
    pub table_2d: Vec<Vec<u8>>,
    pub attr: Vec<Vec<u8>>,
}

/// The base address of a nametable quadrant.
pub open spec fn spec_quadrant_base(quad: Quadrant) -> int {
    match quad {
        Quadrant::TopLeft => 0x2000,
        Quadrant::TopRight => 0x2400,
        Quadrant::BottomLeft => 0x2800,
        Quadrant::BottomRight => 0x2C00,
    }
}

impl Nametable {
    /// Decodes the nametable in the given quadrant: entry (r, c) of the
    /// tile grid is the byte at base + 32r + c, and entry (r, c) of the
    /// attribute grid is that tile's 2-bit palette selector.
    pub fn new(quad: Quadrant, mem: &VRAM) -> (r: Nametable)
        requires
            mem.wf(),
        ensures
            r.table_2d@.len() == 30,
            r.attr@.len() == 30,
            forall|i: int| 0 <= i < 30 ==> (#[trigger] r.table_2d@[i])@.len() == 32,
            forall|i: int| 0 <= i < 30 ==> (#[trigger] r.attr@[i])@.len() == 32,
            forall|i: int, j: int|
                0 <= i < 30 && 0 <= j < 32 ==> #[trigger] r.table_2d@[i]@[j]
                    == mem.buffer@[spec_quadrant_base(quad) + 32 * i + j],
            forall|i: int, j: int|
                0 <= i < 30 && 0 <= j < 32 ==> #[trigger] r.attr@[i]@[j] == spec_attr_entry(
                    mem.buffer@,
                    spec_quadrant_base(quad),
                    i,
                    j,
                ),
    {
        let starting_addr: usize = match quad {
            Quadrant::TopLeft => 0x2000,
            Quadrant::TopRight => 0x2400,
            Quadrant::BottomLeft => 0x2800,
            Quadrant::BottomRight => 0x2C00,
        };

        let mut table_2d: Vec<Vec<u8>> = Vec::new();
        let mut attr: Vec<Vec<u8>> = Vec::new();
        for i in 0..30usize
            invariant
                mem.wf(),
                starting_addr == spec_quadrant_base(quad),
                table_2d@.len() == i,
                attr@.len() == i,
                forall|i2: int| 0 <= i2 < i ==> (#[trigger] table_2d@[i2])@.len() == 32,
                forall|i2: int| 0 <= i2 < i ==> (#[trigger] attr@[i2])@.len() == 32,
                forall|i2: int, j: int|
                    0 <= i2 < i && 0 <= j < 32 ==> #[trigger] table_2d@[i2]@[j]
                        == mem.buffer@[spec_quadrant_base(quad) + 32 * i2 + j],
                forall|i2: int, j: int|
                    0 <= i2 < i && 0 <= j < 32 ==> #[trigger] attr@[i2]@[j] == spec_attr_entry(
                        mem.buffer@,
                        spec_quadrant_base(quad),
                        i2,
                        j,
                    ),
        {
            let mut trow: Vec<u8> = Vec::new();
            let mut arow: Vec<u8> = Vec::new();
            for j in 0..32usize
                invariant
                    mem.wf(),
                    starting_addr == spec_quadrant_base(quad),
                    i < 30,
                    trow@.len() == j,
                    arow@.len() == j,
                    forall|j2: int|
                        0 <= j2 < j ==> trow@[j2] == mem.buffer@[spec_quadrant_base(quad) + 32 * i
                            + j2],
                    forall|j2: int|
                        0 <= j2 < j ==> arow@[j2] == spec_attr_entry(
                            mem.buffer@,
                            spec_quadrant_base(quad),
                            i as int,
                            j2,
                        ),
            {
                let t = mem.buffer[starting_addr + 32 * i + j];
                trow.push(t);

                let attr_byte = mem.buffer[starting_addr + 960 + (i / 4) * 8 + j / 4];
                let shift = ((i % 4) / 2) * 4 + ((j % 4) / 2) * 2;
                let a = (attr_byte >> (shift as u8)) % 4;
                arow.push(a);
            }
            table_2d.push(trow);
            attr.push(arow);
        }
        Nametable { table_2d, attr }
    }
}

/// The scalar register fields the scanline render path never touches are
/// the same in `a` and `b`.
pub open spec fn spec_scanline_frame(a: PpuRegs, b: PpuRegs) -> bool {
    &&& b.curr_scanline == a.curr_scanline
    &&& b.v == a.v
    &&& b.t == a.t
    &&& b.fine_x == a.fine_x
    &&& b.w == a.w
    &&& b.increment == a.increment
    &&& b.sprite_pattern_address == a.sprite_pattern_address
    &&& b.bg_pattern_address == a.bg_pattern_address
    &&& b.sprite_size == a.sprite_size
    &&& b.mode == a.mode
    &&& b.generate_nmi == a.generate_nmi
    &&& b.master_slave_select == a.master_slave_select
    &&& b.is_vblank == a.is_vblank
    &&& b.vblank_started == a.vblank_started
    &&& b.base_nametable_address == a.base_nametable_address
    &&& b.read_buffer == a.read_buffer
    &&& b.oam_address == a.oam_address
    &&& b.x_scroll == a.x_scroll
    &&& b.y_scroll == a.y_scroll
    &&& b.is_greyscale == a.is_greyscale
    &&& b.clip_background == a.clip_background
    &&& b.clip_sprites == a.clip_sprites
    &&& b.show_background == a.show_background
    &&& b.show_sprites == a.show_sprites
    &&& b.emphasize_red == a.emphasize_red
    &&& b.emphasize_green == a.emphasize_green
    &&& b.emphasize_blue == a.emphasize_blue
}

/// The scanline whose pixels are being produced, clamped so that the
/// pre-render line prepares line 0.
pub open spec fn spec_render_line(regs: PpuRegs) -> int {
    if regs.curr_scanline < 0 {
        0
    } else {
        regs.curr_scanline as int
    }
}

/// The background tile fetch of §4.5 for the PPU's current tile row and
/// column: the nametable byte, its 2-bit attribute selector, and the two
/// pattern bitplanes of the current pixel row.
pub open spec fn spec_bg_fetch_core(
    vram: VRAM,
    base: int,
    row: int,
    col: int,
    line: int,
    bg_pat: int,
) -> TileFetch {
    let nt_byte = spec_vram_read(vram, base + row * 32 + col);
    let attr_two_bit = spec_attr_entry(
        Seq::new(0x4000, |i: int| spec_vram_read(vram, i)),
        base,
        row,
        col,
    );
    let fine = line % 8;
    let pt = bg_pat + nt_byte * 16;
    TileFetch {
        nt_byte,
        attr_two_bit,
        pt_low_byte: spec_vram_read(vram, pt + fine),
        pt_hi_byte: spec_vram_read(vram, pt + fine + 8),
    }
}

/// The background tile fetch for the PPU's current tile row and column.
pub open spec fn spec_bg_fetch(p: PPU) -> TileFetch {
    spec_bg_fetch_core(
        p.vram,
        p.regs.base_nametable_address as int,
        p.regs.curr_tile_row as int,
        p.regs.curr_tile_col as int,
        spec_render_line(p.regs),
        p.regs.bg_pattern_address as int,
    )
}

/// The 2-bit background color index of pixel `i` (0 = leftmost) of a
/// fetched tile: bit 7-i of the high plane over bit 7-i of the low plane.
pub open spec fn spec_bg_ci(tf: TileFetch, i: int) -> int {
    ((tf.pt_hi_byte >> ((7 - i) as u8)) % 2) * 2 + ((tf.pt_low_byte >> ((7 - i) as u8)) % 2)
}

/// The 2-bit color index sprite `i` (of the secondary-OAM bytes `sec` and
/// the fetched pattern data `queue`) produces at screen column `col`,
/// honouring horizontal flip; 0 when the sprite does not cover the column.
pub open spec fn spec_sprite_ci_core(sec: Seq<u8>, queue: Seq<Sprite>, i: int, col: int) -> int {
    let x = sec[4 * i + 3];
    if x <= col < x + 8 {
        let sp = queue[i];
        let b = if sp.horizontal_flip {
            7 - (col - x)
        } else {
            col - x
        };
        ((sp.hi_byte >> ((7 - b) as u8)) % 2) * 2 + ((sp.lo_byte >> ((7 - b) as u8)) % 2)
    } else {
        0
    }
}

/// The first sprite at slot `i` or later (among `n` selected sprites) with
/// a nonzero pixel at screen column `col`; `n` when none has one. The
/// lowest-index sprite wins the pixel.
pub open spec fn spec_first_sprite_from(
    sec: Seq<u8>,
    queue: Seq<Sprite>,
    n: int,
    col: int,
    i: int,
) -> int
    decreases n - i,
{
    if i >= n {
        n
    } else if spec_sprite_ci_core(sec, queue, i, col) != 0 {
        i
    } else {
        spec_first_sprite_from(sec, queue, n, col, i + 1)
    }
}

/// The composited output pixel of §4.5/§4.6 for pixel `i` of the tile at
/// `tile_col`: the background color index comes from the fetched bitplanes
/// (0 when background rendering is off while sprites are on); the winning
/// sprite's color replaces it when the sprite is in front or the
/// background pixel is transparent; color index 0 reads the universal
/// background color at $3F00.
pub open spec fn spec_pixel_core(
    vram: VRAM,
    sec: Seq<u8>,
    queue: Seq<Sprite>,
    n: int,
    show_bg: bool,
    show_sp: bool,
    tile_col: int,
    tf: TileFetch,
    i: int,
) -> u32 {
    let col = tile_col * 8 + i;
    let bg_ci = if show_bg || !show_sp {
        spec_bg_ci(tf, i)
    } else {
        0
    };
    let bg_px = if bg_ci == 0 {
        spec_pack_rgba(spec_palette_color(vram, 0x3F00))
    } else {
        spec_pack_rgba(spec_palette_color(vram, 0x3F01 + 4 * (tf.attr_two_bit % 4) + bg_ci - 1))
    };
    if show_sp {
        let fi = spec_first_sprite_from(sec, queue, n, col, 0);
        if fi < n && (!queue[fi].priority || bg_ci == 0) {
            let sci = spec_sprite_ci_core(sec, queue, fi, col);
            let pal = sec[4 * fi + 2] % 4;
            spec_pack_rgba(spec_palette_color(vram, 0x3F11 + 4 * pal + sci - 1))
        } else {
            bg_px
        }
    } else {
        bg_px
    }
}

/// Whether any of the first `k` pixels of the tile at `tile_col` is a
/// sprite-0 hit: a nonzero pixel of sprite 0 over a nonzero background
/// pixel, with both renderers enabled.
pub open spec fn spec_tile_s0_hit(
    sec: Seq<u8>,
    queue: Seq<Sprite>,
    n: int,
    show_bg: bool,
    show_sp: bool,
    tile_col: int,
    tf: TileFetch,
    k: int,
) -> bool
    decreases k,
{
    if k <= 0 {
        false
    } else {
        spec_tile_s0_hit(sec, queue, n, show_bg, show_sp, tile_col, tf, k - 1) || ({
            let i = k - 1;
            let col = tile_col * 8 + i;
            let bg_ci = if show_bg || !show_sp {
                spec_bg_ci(tf, i)
            } else {
                0
            };
            show_sp && show_bg && bg_ci != 0 && n > 0 && spec_first_sprite_from(
                sec,
                queue,
                n,
                col,
                0,
            ) == 0
        })
    }
}

/// The sprite work a scanline performs for the coming line, over the state
/// `pre` at the start of the line: secondary OAM holds the first up-to-8
/// sprites on the line (4 bytes each, in OAM order), the count and the
/// overflow flag follow the number of matches, and the fetched pattern
/// queue holds each selected sprite's bitplanes and attribute bits.
pub open spec fn spec_line_sprites_rel(pre: PPU, post: PPU) -> bool {
    let oam = pre.oam.sprite_info@;
    let line = spec_render_line(pre.regs);
    let tall = pre.regs.sprite_size;
    let k = spec_match_count(oam, line, tall, 64);
    &&& post.regs.num_sprites == (if k <= 8 {
        k
    } else {
        8int
    })
    &&& post.regs.sprite_overflow == (pre.regs.sprite_overflow || k > 8)
    &&& forall|t: int, b: int|
        0 <= t < 64 && 0 <= b < 4 && spec_sprite_matches(oam, line, tall, t)
            && spec_match_count(oam, line, tall, t) < 8
            ==> #[trigger] post.secondary_oam.sprite_info@[spec_secondary_slot(
            spec_match_count(oam, line, tall, t),
            b,
        )] == oam[4 * t + b]
    &&& post.sprite_queue@.len() == post.regs.num_sprites
    &&& forall|i: int|
        0 <= i < post.regs.num_sprites ==> #[trigger] post.sprite_queue@[i]
            == spec_sprite_fetch_core(
            pre.vram,
            post.secondary_oam.sprite_info@,
            spec_scan8(pre.regs),
            tall,
            pre.regs.sprite_pattern_address as int,
            i,
        )
}

/// The composited output pixel of screen column `c` on the line the PPU is
/// rendering, over the state at the start of the line.
pub open spec fn spec_line_pixel(p: PPU, c: int) -> u32 {
    let row = if p.regs.curr_scanline < 0 {
        0int
    } else {
        p.regs.curr_scanline / 8
    };
    spec_pixel_core(
        p.vram,
        p.secondary_oam.sprite_info@,
        p.sprite_queue@,
        p.regs.num_sprites as int,
        p.regs.show_background,
        p.regs.show_sprites,
        c / 8,
        spec_bg_fetch_core(
            p.vram,
            p.regs.base_nametable_address as int,
            row,
            c / 8,
            spec_render_line(p.regs),
            p.regs.bg_pattern_address as int,
        ),
        c % 8,
    )
}

impl PPU {
    /// Fetches the background tile data for the current tile row and
    /// column, per the §4.5 address formulas; the PPU itself is untouched.
    pub fn fetch_bg_tile(&mut self) -> (r: TileFetch)
        requires
            old(self).wf(),
            old(self).regs.curr_tile_row < 30,
            old(self).regs.curr_tile_col < 32,
            -1 <= old(self).regs.curr_scanline <= 239,
        ensures
            final(self).regs == old(self).regs,
            PPU::same_buffers(*old(self), *final(self)),
            r == spec_bg_fetch(*old(self)),
    {
        let base = self.regs.base_nametable_address;
        let row = self.regs.curr_tile_row;
        let col = self.regs.curr_tile_col;

        let nt_byte = self.vram.peek(base + row * 32 + col);

        let attr_byte = self.vram.peek(base + 960 + (row / 4) * 8 + col / 4);
        let shift = ((row % 4) / 2) * 4 + ((col % 4) / 2) * 2;
        let attr_two_bit = (attr_byte >> (shift as u8)) % 4;

        let line: usize = if self.regs.curr_scanline < 0 {
            0
        } else {
            self.regs.curr_scanline as usize
        };
        let fine = line % 8;
        let pt = self.regs.bg_pattern_address as usize + nt_byte as usize * 16;
        let pt_low_byte = self.vram.peek(pt + fine);
        let pt_hi_byte = self.vram.peek(pt + fine + 8);

        proof {
            assert(Seq::new(0x4000, |i: int| spec_vram_read(self.vram, i))[base + 960 + (row / 4)
                * 8 + col / 4] == spec_vram_read(self.vram, base + 960 + (row / 4) * 8 + col / 4));
        }

        TileFetch { nt_byte, attr_two_bit, pt_low_byte, pt_hi_byte }
    }

    /// The sprite pixel winning at screen column `col`, if any: the
    /// lowest-index sprite of secondary OAM with a nonzero pixel there.
    /// Returns its color index, its palette selector, whether it sits
    /// behind the background, and whether it is sprite 0.
    fn sprite_pixel(&self, col: usize) -> (r: Option<(u8, u8, bool, bool)>)
        requires
            self.wf(),
            col < 256,
        ensures
            ({
                let sec = self.secondary_oam.sprite_info@;
                let q = self.sprite_queue@;
                let n = self.regs.num_sprites as int;
                let fi = spec_first_sprite_from(sec, q, n, col as int, 0);
                if fi < n {
                    r == Some(
                        (
                            spec_sprite_ci_core(sec, q, fi, col as int) as u8,
                            sec[4 * fi + 2] % 4,
                            q[fi].priority,
                            fi == 0,
                        ),
                    )
                } else {
                    r is None
                }
            }),
            match r {
                Some(t) => 1 <= t.0 < 4 && t.1 < 4,
                None => true,
            },
    {
        let n = self.regs.num_sprites;
        for i in 0..n
            invariant
                self.wf(),
                n == self.regs.num_sprites,
                col < 256,
                spec_first_sprite_from(
                    self.secondary_oam.sprite_info@,
                    self.sprite_queue@,
                    n as int,
                    col as int,
                    0,
                ) == spec_first_sprite_from(
                    self.secondary_oam.sprite_info@,
                    self.sprite_queue@,
                    n as int,
                    col as int,
                    i as int,
                ),
        {
            let x = self.secondary_oam.sprite_info[4 * i + 3];
            if x as usize <= col && col < x as usize + 8 {
                let s = self.sprite_queue[i];
                let off = col - x as usize;
                let b: usize = if s.horizontal_flip {
                    7 - off
                } else {
                    off
                };
                let shift = (7 - b) as u8;
                let ci = ((s.hi_byte >> shift) % 2) * 2 + ((s.lo_byte >> shift) % 2);
                if ci != 0 {
                    let palette = self.secondary_oam.sprite_info[4 * i + 2] % 4;
                    return Some((ci, palette, s.priority, i == 0));
                }
            }
        }
        None
    }

    /// Emits the 8 pixels of one background tile into the framebuffer,
    /// compositing the fetched sprites per §4.6: a sprite with a nonzero
    /// pixel wins when its priority bit is clear or the background pixel is
    /// transparent, and a nonzero overlap of sprite 0 with a nonzero
    /// background pixel sets the sprite-0-hit flag. With sprites disabled
    /// the emitted pixels are exactly the §4.5 background pixels.
    #[verifier::spinoff_prover]
    #[verifier::rlimit(100)]
    pub fn render_tile(&mut self, tile_data: TileFetch)
        requires
            old(self).wf(),
            0 <= old(self).regs.curr_scanline <= 239,
            old(self).regs.curr_tile_col < 32,
        ensures
            final(self).wf(),
            final(self).fb@.len() == old(self).fb@.len(),
            forall|j: int|
                0 <= j < FRAMEBUFFER_PIXELS && !(old(self).regs.curr_scanline * 256 + old(
                    self,
                ).regs.curr_tile_col * 8 <= j < old(self).regs.curr_scanline * 256 + old(
                    self,
                ).regs.curr_tile_col * 8 + 8) ==> final(self).fb@[j] == old(self).fb@[j],
            forall|i: int|
                0 <= i < 8 ==> final(self).fb@[old(self).regs.curr_scanline * 256 + old(
                    self,
                ).regs.curr_tile_col * 8 + i] == spec_pixel_core(
                    old(self).vram,
                    old(self).secondary_oam.sprite_info@,
                    old(self).sprite_queue@,
                    old(self).regs.num_sprites as int,
                    old(self).regs.show_background,
                    old(self).regs.show_sprites,
                    old(self).regs.curr_tile_col as int,
                    tile_data,
                    i,
                ),
            final(self).regs.sprite_hit == (old(self).regs.sprite_hit || spec_tile_s0_hit(
                old(self).secondary_oam.sprite_info@,
                old(self).sprite_queue@,
                old(self).regs.num_sprites as int,
                old(self).regs.show_background,
                old(self).regs.show_sprites,
                old(self).regs.curr_tile_col as int,
                tile_data,
                8,
            )),
            spec_scanline_frame(old(self).regs, final(self).regs),
            final(self).regs.num_cycles == old(self).regs.num_cycles,
            final(self).regs.curr_tile_row == old(self).regs.curr_tile_row,
            final(self).regs.curr_tile_col == old(self).regs.curr_tile_col,
            final(self).regs.num_sprites == old(self).regs.num_sprites,
            final(self).regs.sprite_overflow == old(self).regs.sprite_overflow,
            final(self).vram == old(self).vram,
            final(self).oam.sprite_info == old(self).oam.sprite_info,
            final(self).secondary_oam.sprite_info == old(self).secondary_oam.sprite_info,
            final(self).nametable_queue == old(self).nametable_queue,
            final(self).sprite_queue == old(self).sprite_queue,
    {
        let pix_row = self.regs.curr_scanline as usize;
        let pix_col = self.regs.curr_tile_col * 8;
        let base = pix_row * 256 + pix_col;
        for i in 0..8usize
            invariant
                self.wf(),
                spec_scanline_frame(old(self).regs, self.regs),
                self.regs.num_cycles == old(self).regs.num_cycles,
                self.regs.curr_tile_row == old(self).regs.curr_tile_row,
                self.regs.curr_tile_col == old(self).regs.curr_tile_col,
                self.regs.num_sprites == old(self).regs.num_sprites,
                self.regs.sprite_overflow == old(self).regs.sprite_overflow,
                self.regs.sprite_hit == (old(self).regs.sprite_hit || spec_tile_s0_hit(
                    old(self).secondary_oam.sprite_info@,
                    old(self).sprite_queue@,
                    old(self).regs.num_sprites as int,
                    old(self).regs.show_background,
                    old(self).regs.show_sprites,
                    old(self).regs.curr_tile_col as int,
                    tile_data,
                    i as int,
                )),
                0 <= self.regs.curr_scanline <= 239,
                self.regs.curr_tile_col < 32,
                pix_row == self.regs.curr_scanline,
                pix_col == self.regs.curr_tile_col * 8,
                base == pix_row * 256 + pix_col,
                self.fb@.len() == old(self).fb@.len(),
                forall|j: int|
                    0 <= j < FRAMEBUFFER_PIXELS && !(base <= j < base + i) ==> self.fb@[j] == old(
                        self,
                    ).fb@[j],
                forall|k: int|
                    0 <= k < i ==> self.fb@[base + k] == spec_pixel_core(
                        old(self).vram,
                        old(self).secondary_oam.sprite_info@,
                        old(self).sprite_queue@,
                        old(self).regs.num_sprites as int,
                        old(self).regs.show_background,
                        old(self).regs.show_sprites,
                        old(self).regs.curr_tile_col as int,
                        tile_data,
                        k,
                    ),
                self.vram == old(self).vram,
                self.oam.sprite_info == old(self).oam.sprite_info,
                self.secondary_oam.sprite_info == old(self).secondary_oam.sprite_info,
                self.nametable_queue == old(self).nametable_queue,
                self.sprite_queue == old(self).sprite_queue,
        {
            let (pixel, hit) = self.tile_pixel_at(tile_data, i);
            if hit {
                self.regs = PpuRegs { sprite_hit: true, ..self.regs };
            }
            self.fb[base + i] = pixel;
        }
    }

    /// Composites one pixel of a tile: the background color from the
    /// fetched bitplanes and the winning sprite's color per the §4.6
    /// priority rule. Also reports whether this pixel is a sprite-0 hit.
    fn tile_pixel_at(&self, tile_data: TileFetch, i: usize) -> (r: (u32, bool))
        requires
            self.wf(),
            i < 8,
            self.regs.curr_tile_col < 32,
        ensures
            r.0 == spec_pixel_core(
                self.vram,
                self.secondary_oam.sprite_info@,
                self.sprite_queue@,
                self.regs.num_sprites as int,
                self.regs.show_background,
                self.regs.show_sprites,
                self.regs.curr_tile_col as int,
                tile_data,
                i as int,
            ),
            r.1 == ({
                let col = self.regs.curr_tile_col * 8 + i;
                let bg_ci = if self.regs.show_background || !self.regs.show_sprites {
                    spec_bg_ci(tile_data, i as int)
                } else {
                    0
                };
                self.regs.show_sprites && self.regs.show_background && bg_ci != 0
                    && self.regs.num_sprites > 0 && spec_first_sprite_from(
                    self.secondary_oam.sprite_info@,
                    self.sprite_queue@,
                    self.regs.num_sprites as int,
                    col as int,
                    0,
                ) == 0
            }),
    {
        let shift = (7 - i) as u8;
        let bg_ci: u8 = if self.regs.show_background || !self.regs.show_sprites {
            ((tile_data.pt_hi_byte >> shift) % 2) * 2 + ((tile_data.pt_low_byte >> shift) % 2)
        } else {
            0
        };

        let bg_pixel: u32 = if bg_ci == 0 {
            pack_rgba(master_palette(self.vram.peek(0x3F00) % 64))
        } else {
            let addr = 0x3F01 + 4 * (tile_data.attr_two_bit as usize % 4) + bg_ci as usize - 1;
            pack_rgba(master_palette(self.vram.peek(addr) % 64))
        };

        let col = self.regs.curr_tile_col * 8 + i;
        let mut pixel = bg_pixel;
        let mut hit = false;
        if self.regs.show_sprites {
            match self.sprite_pixel(col) {
                Some((sci, palette, behind, is_zero)) => {
                    if is_zero && bg_ci != 0 && self.regs.show_background {
                        hit = true;
                    }
                    if !behind || bg_ci == 0 {
                        let addr = 0x3F11 + 4 * (palette as usize) + sci as usize - 1;
                        pixel = pack_rgba(master_palette(self.vram.peek(addr) % 64));
                    }
                },
                None => {},
            }
        }
        (pixel, hit)
    }

    /// Copies the 4 bytes of OAM sprite `i` into secondary OAM slot `slot`.
    fn copy_sprite_to_secondary(&mut self, i: usize, slot: usize)
        requires
            old(self).oam.wf(),
            old(self).secondary_oam.wf(),
            i < 64,
            slot < 8,
        ensures
            final(self).secondary_oam.sprite_info@ == old(self).secondary_oam.sprite_info@.update(
                4 * slot as int,
                old(self).oam.sprite_info@[4 * i],
            ).update(4 * slot + 1, old(self).oam.sprite_info@[4 * i + 1]).update(
                4 * slot + 2,
                old(self).oam.sprite_info@[4 * i + 2],
            ).update(4 * slot + 3, old(self).oam.sprite_info@[4 * i + 3]),
            final(self).regs == old(self).regs,
            final(self).fb == old(self).fb,
            final(self).vram == old(self).vram,
            final(self).oam.sprite_info == old(self).oam.sprite_info,
            final(self).nametable_queue == old(self).nametable_queue,
            final(self).sprite_queue == old(self).sprite_queue,
    {
        let b0 = self.oam.sprite_info[i * 4];
        let b1 = self.oam.sprite_info[i * 4 + 1];
        let b2 = self.oam.sprite_info[i * 4 + 2];
        let b3 = self.oam.sprite_info[i * 4 + 3];
        self.secondary_oam.sprite_info[slot * 4] = b0;
        self.secondary_oam.sprite_info[slot * 4 + 1] = b1;
        self.secondary_oam.sprite_info[slot * 4 + 2] = b2;
        self.secondary_oam.sprite_info[slot * 4 + 3] = b3;
    }

    /// Selects the sprites of the coming scanline out of OAM, per §4.6: a
    /// sprite matches when its Y byte satisfies Y <= line < Y + height; the
    /// first eight matches are copied into secondary OAM in order, and a
    /// ninth match sets the sprite-overflow flag and stops the scan.
    #[verifier::spinoff_prover]
    #[verifier::rlimit(100)]
    /// Selects the sprites of the coming scanline out of OAM, per the
    /// sprite pipeline's first evaluation step: a sprite is on the line
    /// when its Y byte satisfies Y <= line < Y + height; the first eight
    /// matches are copied, 4 bytes each and in OAM order, into secondary
    /// OAM slots 0 up; a ninth match sets the sprite-overflow flag and
    /// selects nothing more.
    #[verifier::spinoff_prover]
    #[verifier::rlimit(100)]
    pub fn evaluate_sprite(&mut self)
        requires
            old(self).wf(),
            old(self).regs.num_sprites == 0,
            old(self).sprite_queue@.len() == 0,
        ensures
            final(self).wf(),
            final(self).regs.num_sprites <= 8,
            final(self).regs.num_sprites == ({
                let k = spec_match_count(
                    old(self).oam.sprite_info@,
                    spec_render_line(old(self).regs),
                    old(self).regs.sprite_size,
                    64,
                );
                if k <= 8 {
                    k
                } else {
                    8int
                }
            }),
            final(self).regs.sprite_overflow == (old(self).regs.sprite_overflow
                || spec_match_count(
                old(self).oam.sprite_info@,
                spec_render_line(old(self).regs),
                old(self).regs.sprite_size,
                64,
            ) > 8),
            forall|t: int, b: int|
                0 <= t < 64 && 0 <= b < 4 && spec_sprite_matches(
                    old(self).oam.sprite_info@,
                    spec_render_line(old(self).regs),
                    old(self).regs.sprite_size,
                    t,
                ) && spec_match_count(
                    old(self).oam.sprite_info@,
                    spec_render_line(old(self).regs),
                    old(self).regs.sprite_size,
                    t,
                ) < 8 ==> #[trigger] final(self).secondary_oam.sprite_info@[spec_secondary_slot(
                    spec_match_count(
                        old(self).oam.sprite_info@,
                        spec_render_line(old(self).regs),
                        old(self).regs.sprite_size,
                        t,
                    ),
                    b,
                )] == old(self).oam.sprite_info@[4 * t + b],
            spec_scanline_frame(old(self).regs, final(self).regs),
            final(self).regs.num_cycles == old(self).regs.num_cycles,
            final(self).regs.curr_tile_row == old(self).regs.curr_tile_row,
            final(self).regs.curr_tile_col == old(self).regs.curr_tile_col,
            final(self).regs.sprite_hit == old(self).regs.sprite_hit,
            final(self).secondary_oam.sprite_info@.len() == 32,
            final(self).fb == old(self).fb,
            final(self).vram == old(self).vram,
            final(self).oam.sprite_info == old(self).oam.sprite_info,
            final(self).nametable_queue == old(self).nametable_queue,
    {
        let ghost oam0 = self.oam.sprite_info@;
        let ghost line = spec_render_line(old(self).regs);
        let ghost tall0 = old(self).regs.sprite_size;
        let curr_scanline: usize = if self.regs.curr_scanline < 0 {
            0
        } else {
            self.regs.curr_scanline as usize
        };
        let tall = self.regs.sprite_size;
        let height: usize = if tall {
            16
        } else {
            8
        };
        for i in 0..64usize
            invariant
                self.wf(),
                oam0 == old(self).oam.sprite_info@,
                line == spec_render_line(old(self).regs),
                tall0 == old(self).regs.sprite_size,
                curr_scanline == line,
                tall == tall0,
                height == (if tall { 16int } else { 8 }),
                self.regs.num_sprites <= 8,
                self.regs.num_sprites == ({
                    let c = spec_match_count(oam0, line, tall0, i as int);
                    if c <= 8 {
                        c
                    } else {
                        8int
                    }
                }),
                self.regs.sprite_overflow == (old(self).regs.sprite_overflow || spec_match_count(
                    oam0,
                    line,
                    tall0,
                    i as int,
                ) > 8),
                forall|t: int, b: int|
                    0 <= t < i && 0 <= b < 4 && spec_sprite_matches(oam0, line, tall0, t)
                        && spec_match_count(oam0, line, tall0, t) < 8
                        ==> #[trigger] self.secondary_oam.sprite_info@[spec_secondary_slot(
                        spec_match_count(oam0, line, tall0, t),
                        b,
                    )] == oam0[4 * t + b],
                spec_scanline_frame(old(self).regs, self.regs),
                self.regs.num_cycles == old(self).regs.num_cycles,
                self.regs.curr_tile_row == old(self).regs.curr_tile_row,
                self.regs.curr_tile_col == old(self).regs.curr_tile_col,
                self.regs.sprite_hit == old(self).regs.sprite_hit,
                self.sprite_queue@.len() == self.regs.num_sprites,
                self.fb == old(self).fb,
                self.vram == old(self).vram,
                self.oam.sprite_info == old(self).oam.sprite_info,
                self.nametable_queue == old(self).nametable_queue,
        {
            let curr_y = self.oam.sprite_info[i * 4] as usize;
            if curr_y <= curr_scanline && curr_scanline < curr_y + height {
                proof {
                    assert(spec_sprite_matches(oam0, line, tall0, i as int));
                }
                if self.regs.num_sprites < 8 {
                    let slot = self.regs.num_sprites;
                    proof {
                        assert(slot == spec_match_count(oam0, line, tall0, i as int));
                    }
                    let ghost sec_before = self.secondary_oam.sprite_info@;
                    self.copy_sprite_to_secondary(i, slot);
                    let q = Sprite::new(false, false, false, 0, 0);
                    self.sprite_queue.push(q);
                    self.regs = PpuRegs { num_sprites: self.regs.num_sprites + 1, ..self.regs };
                    proof {
                        assert(self.secondary_oam.sprite_info@ == sec_before.update(
                            4 * slot as int,
                            oam0[4 * i],
                        ).update(4 * slot + 1, oam0[4 * i + 1]).update(
                            4 * slot + 2,
                            oam0[4 * i + 2],
                        ).update(4 * slot + 3, oam0[4 * i + 3]));
                        assert forall|idx: int| 0 <= idx < 4 * slot implies #[trigger] self
                            .secondary_oam.sprite_info@[idx] == sec_before[idx] by {}
                    }
                    proof {
                        assert forall|t: int, b: int|
                            0 <= t < i + 1 && 0 <= b < 4 && spec_sprite_matches(
                                oam0,
                                line,
                                tall0,
                                t,
                            ) && spec_match_count(oam0, line, tall0, t)
                                < 8 implies #[trigger] self.secondary_oam.sprite_info@[
                            spec_secondary_slot(spec_match_count(oam0, line, tall0, t), b)]
                            == oam0[4 * t + b] by {
                            let c_t = spec_match_count(oam0, line, tall0, t);
                            lemma_match_count_bounds(oam0, line, tall0, t);
                            if t < i {
                                assert(spec_match_count(oam0, line, tall0, t + 1) == c_t + 1);
                                lemma_match_count_mono(oam0, line, tall0, t + 1, i as int);
                                assert(c_t < slot);
                                assert(sec_before.len() == 32);
                                assert(0 <= spec_secondary_slot(c_t, b) < 32);
                                assert(spec_secondary_slot(c_t, b) != 4 * slot as int);
                                assert(spec_secondary_slot(c_t, b) != 4 * slot + 1);
                                assert(spec_secondary_slot(c_t, b) != 4 * slot + 2);
                                assert(spec_secondary_slot(c_t, b) != 4 * slot + 3);
                                assert(self.secondary_oam.sprite_info@[spec_secondary_slot(
                                    c_t,
                                    b,
                                )] == sec_before[spec_secondary_slot(c_t, b)]);
                            } else {
                                assert(t == i && c_t == slot);
                                assert(self.secondary_oam.sprite_info@[spec_secondary_slot(
                                    c_t,
                                    b,
                                )] == oam0[4 * i + b]);
                            }
                        }
                    }
                } else {
                    self.regs = PpuRegs { sprite_overflow: true, ..self.regs };
                }
            } else {
                proof {
                    assert(!spec_sprite_matches(oam0, line, tall0, i as int));
                }
            }
        }
    }

    /// Computes the pattern-table row address of the sprite in secondary
    /// OAM slot `i` (honouring 8x16 tile selection) and fetches its two
    /// bitplanes and attribute bits, per §4.6.
    pub fn fetch_sprite_data(&mut self)
        requires
            old(self).wf(),
            0 <= old(self).regs.curr_scanline <= 255 || old(self).regs.curr_scanline == -1,
        ensures
            final(self).wf(),
            final(self).sprite_queue@.len() == old(self).regs.num_sprites,
            forall|i: int|
                0 <= i < old(self).regs.num_sprites ==> #[trigger] final(self).sprite_queue@[i]
                    == spec_sprite_fetch(*old(self), i),
            final(self).regs == old(self).regs,
            final(self).fb == old(self).fb,
            final(self).vram == old(self).vram,
            final(self).oam.sprite_info == old(self).oam.sprite_info,
            final(self).secondary_oam.sprite_info == old(self).secondary_oam.sprite_info,
            final(self).nametable_queue == old(self).nametable_queue,
    {
        let scan8: u8 = if self.regs.curr_scanline < 0 {
            0
        } else {
            (self.regs.curr_scanline % 256) as u8
        };
        let n = self.regs.num_sprites;
        let mut queue: Vec<Sprite> = Vec::new();
        for i in 0..n
            invariant
                self.wf(),
                *self == *old(self),
                n == self.regs.num_sprites,
                scan8 == spec_scan8(old(self).regs),
                queue@.len() == i,
                forall|i2: int|
                    0 <= i2 < i ==> #[trigger] queue@[i2] == spec_sprite_fetch(*old(self), i2),
        {
            let y = self.secondary_oam.sprite_info[i * 4];
            let tile_idx = self.secondary_oam.sprite_info[i * 4 + 1];
            let attribute_byte = self.secondary_oam.sprite_info[i * 4 + 2];
            let vflip = attribute_byte & 0x40 != 0;

            let row = scan8.wrapping_sub(y);
            let mut actual_address: usize;

            if self.regs.sprite_size {
                let bottom = tile_idx % 2;
                let base: usize = if bottom == 1 {
                    0x1000
                } else {
                    0x0000
                };
                let actual_idx = (tile_idx / 2) * 2;
                let in_sprite: usize = if vflip {
                    15 - (row % 16) as usize
                } else {
                    (row % 16) as usize
                };
                actual_address = base + actual_idx as usize * 16 + (if in_sprite >= 8 {
                    16 + in_sprite % 8
                } else {
                    in_sprite
                });
            } else {
                let in_tile: usize = if vflip {
                    7 - (row % 8) as usize
                } else {
                    (row % 8) as usize
                };
                actual_address = self.regs.sprite_pattern_address as usize + tile_idx as usize * 16
                    + in_tile;
            }

            let pattern_lo = self.vram.peek(actual_address);
            let pattern_hi = self.vram.peek(actual_address + 8);

            let horizontal_flip_bit = attribute_byte & 0x20 != 0;
            let vertical_flip_bit = attribute_byte & 0x40 != 0;
            let priority_bit = attribute_byte & 0x80 != 0;

            queue.push(
                Sprite::new(
                    horizontal_flip_bit,
                    vertical_flip_bit,
                    priority_bit,
                    pattern_lo,
                    pattern_hi,
                ),
            );
        }
        self.sprite_queue = queue;
    }

    /// Emits one tile through `render_tile`, exposing only the frame
    /// facts the scanline loop needs.
    fn render_tile_framed(&mut self, tile_data: TileFetch)
        requires
            old(self).wf(),
            0 <= old(self).regs.curr_scanline <= 239,
            old(self).regs.curr_tile_col < 32,
        ensures
            final(self).wf(),
            final(self).fb@.len() == old(self).fb@.len(),
            spec_scanline_frame(old(self).regs, final(self).regs),
            final(self).regs.num_cycles == old(self).regs.num_cycles,
            final(self).regs.curr_tile_row == old(self).regs.curr_tile_row,
            final(self).regs.curr_tile_col == old(self).regs.curr_tile_col,
            final(self).regs.num_sprites == old(self).regs.num_sprites,
            final(self).regs.sprite_overflow == old(self).regs.sprite_overflow,
            old(self).regs.sprite_hit ==> final(self).regs.sprite_hit,
            forall|i: int|
                0 <= i < 8 ==> final(self).fb@[old(self).regs.curr_scanline * 256 + old(
                    self,
                ).regs.curr_tile_col * 8 + i] == spec_pixel_core(
                    old(self).vram,
                    old(self).secondary_oam.sprite_info@,
                    old(self).sprite_queue@,
                    old(self).regs.num_sprites as int,
                    old(self).regs.show_background,
                    old(self).regs.show_sprites,
                    old(self).regs.curr_tile_col as int,
                    tile_data,
                    i,
                ),
            forall|j: int|
                0 <= j < FRAMEBUFFER_PIXELS && !(old(self).regs.curr_scanline * 256 + old(
                    self,
                ).regs.curr_tile_col * 8 <= j < old(self).regs.curr_scanline * 256 + old(
                    self,
                ).regs.curr_tile_col * 8 + 8) ==> final(self).fb@[j] == old(self).fb@[j],
            final(self).vram == old(self).vram,
            final(self).oam.sprite_info == old(self).oam.sprite_info,
            final(self).secondary_oam.sprite_info == old(self).secondary_oam.sprite_info,
            final(self).nametable_queue == old(self).nametable_queue,
            final(self).sprite_queue == old(self).sprite_queue,
    {
        self.render_tile(tile_data);
    }

    /// One scanline's worth of work: 32 background tile fetches with pixel
    /// emission when rendering is on, then sprite evaluation and sprite
    /// fetch for the coming line, and 341 dots on the clock. With both
    /// rendering enables clear the framebuffer is not written at all.
    #[verifier::spinoff_prover]
    #[verifier::rlimit(100)]
    pub fn tick_scanline(&mut self, should_render: bool)
        requires
            old(self).wf(),
            -1 <= old(self).regs.curr_scanline <= 239,
        ensures
            final(self).wf(),
            final(self).regs.num_cycles == spec_cycles_plus_line(old(self).regs.num_cycles),
            spec_scanline_frame(old(self).regs, final(self).regs),
            spec_line_sprites_rel(*old(self), *final(self)),
            (should_render && (old(self).regs.show_background || old(self).regs.show_sprites)
                && old(self).regs.curr_scanline >= 0) ==> forall|c: int|
                0 <= c < 256 ==> final(self).fb@[old(self).regs.curr_scanline * 256 + c]
                    == spec_line_pixel(*old(self), c),
            final(self).fb@.len() == old(self).fb@.len(),
            (!should_render || (!old(self).regs.show_background && !old(
                self,
            ).regs.show_sprites)) ==> final(self).fb == old(self).fb,
            !should_render ==> final(self).regs.sprite_hit == old(self).regs.sprite_hit,
            final(self).vram == old(self).vram,
            final(self).oam.sprite_info == old(self).oam.sprite_info,
    {
        let render_enabled = should_render && (self.regs.show_background
            || self.regs.show_sprites);

        self.render_line(render_enabled);

        let ghost rendered = *self;
        self.prepare_next_line();
        proof {
            assert(spec_render_line(rendered.regs) == spec_render_line(old(self).regs));
            assert(spec_scan8(rendered.regs) == spec_scan8(old(self).regs));
            assert(rendered.oam.sprite_info@ == old(self).oam.sprite_info@);
        }

        self.regs = PpuRegs { num_cycles: self.regs.num_cycles.saturating_add(341), ..self.regs };
    }

    /// Fetches the 32 background tiles of the current line, emitting their
    /// pixels when rendering is enabled.
    #[verifier::spinoff_prover]
    #[verifier::rlimit(100)]
    fn render_line(&mut self, render_enabled: bool)
        requires
            old(self).wf(),
            -1 <= old(self).regs.curr_scanline <= 239,
        ensures
            final(self).wf(),
            spec_scanline_frame(old(self).regs, final(self).regs),
            final(self).regs.num_cycles == old(self).regs.num_cycles,
            final(self).regs.num_sprites == old(self).regs.num_sprites,
            final(self).regs.sprite_overflow == old(self).regs.sprite_overflow,
            (!render_enabled || old(self).regs.curr_scanline < 0) ==> final(self).fb == old(
                self,
            ).fb,
            !render_enabled ==> final(self).regs.sprite_hit == old(self).regs.sprite_hit,
            old(self).regs.sprite_hit ==> final(self).regs.sprite_hit,
            (render_enabled && old(self).regs.curr_scanline >= 0) ==> forall|c: int|
                0 <= c < 256 ==> final(self).fb@[old(self).regs.curr_scanline * 256 + c]
                    == spec_line_pixel(*old(self), c),
            forall|j: int|
                0 <= j < FRAMEBUFFER_PIXELS && !(old(self).regs.curr_scanline * 256 <= j < old(
                    self,
                ).regs.curr_scanline * 256 + 256) ==> final(self).fb@[j] == old(self).fb@[j],
            final(self).fb@.len() == old(self).fb@.len(),
            final(self).vram == old(self).vram,
            final(self).oam.sprite_info == old(self).oam.sprite_info,
            final(self).secondary_oam.sprite_info == old(self).secondary_oam.sprite_info,
            final(self).sprite_queue == old(self).sprite_queue,
            final(self).nametable_queue == old(self).nametable_queue,
    {
        let ghost p0 = *old(self);
        let row: usize = if self.regs.curr_scanline < 0 {
            0
        } else {
            self.regs.curr_scanline as usize / 8
        };
        let line_base: usize = if self.regs.curr_scanline < 0 {
            0
        } else {
            self.regs.curr_scanline as usize * 256
        };
        self.regs = PpuRegs { curr_tile_row: row, curr_tile_col: 0, ..self.regs };

        for col in 0..32usize
            invariant
                self.wf(),
                -1 <= self.regs.curr_scanline <= 239,
                self.regs.curr_tile_row < 30,
                p0 == *old(self),
                row == (if p0.regs.curr_scanline < 0 {
                    0int
                } else {
                    p0.regs.curr_scanline / 8
                }),
                self.regs.curr_tile_row == row,
                line_base == (if p0.regs.curr_scanline < 0 {
                    0int
                } else {
                    p0.regs.curr_scanline * 256
                }),
                spec_scanline_frame(old(self).regs, self.regs),
                self.regs.num_cycles == old(self).regs.num_cycles,
                self.regs.num_sprites == old(self).regs.num_sprites,
                self.regs.sprite_overflow == old(self).regs.sprite_overflow,
                (!render_enabled || old(self).regs.curr_scanline < 0) ==> self.fb == old(
                    self,
                ).fb,
                !render_enabled ==> self.regs.sprite_hit == old(self).regs.sprite_hit,
                old(self).regs.sprite_hit ==> self.regs.sprite_hit,
                (render_enabled && old(self).regs.curr_scanline >= 0) ==> forall|c: int|
                    0 <= c < 8 * col ==> self.fb@[line_base + c] == spec_line_pixel(p0, c),
                forall|j: int|
                    0 <= j < FRAMEBUFFER_PIXELS && !(line_base <= j < line_base + 8 * col)
                        ==> self.fb@[j] == old(self).fb@[j],
                self.fb@.len() == old(self).fb@.len(),
                self.vram == old(self).vram,
                self.oam.sprite_info == old(self).oam.sprite_info,
                self.secondary_oam.sprite_info == old(self).secondary_oam.sprite_info,
                self.sprite_queue == old(self).sprite_queue,
                self.nametable_queue == old(self).nametable_queue,
        {
            self.regs = PpuRegs { curr_tile_col: col, ..self.regs };
            let tf = self.fetch_bg_tile();
            if render_enabled && self.regs.curr_scanline >= 0 {
                let ghost before = *self;
                self.render_tile_framed(tf);
                proof {
                    assert forall|c: int| 8 * col <= c < 8 * col + 8 implies self.fb@[line_base
                        + c] == spec_line_pixel(p0, c) by {
                        let i = c - 8 * col;
                        assert(c / 8 == col && c % 8 == i);
                        assert(tf == spec_bg_fetch_core(
                            p0.vram,
                            p0.regs.base_nametable_address as int,
                            row as int,
                            col as int,
                            spec_render_line(p0.regs),
                            p0.regs.bg_pattern_address as int,
                        ));
                        assert(self.fb@[before.regs.curr_scanline * 256
                            + before.regs.curr_tile_col * 8 + i] == spec_pixel_core(
                            before.vram,
                            before.secondary_oam.sprite_info@,
                            before.sprite_queue@,
                            before.regs.num_sprites as int,
                            before.regs.show_background,
                            before.regs.show_sprites,
                            before.regs.curr_tile_col as int,
                            tf,
                            i,
                        ));
                    }
                }
            }
        }
    }

    /// Clears secondary OAM, evaluates the sprites of the coming line and
    /// fetches their pattern data.
    #[verifier::spinoff_prover]
    #[verifier::rlimit(100)]
    fn prepare_next_line(&mut self)
        requires
            old(self).wf(),
            -1 <= old(self).regs.curr_scanline <= 239,
        ensures
            final(self).wf(),
            spec_line_sprites_rel(*old(self), *final(self)),
            spec_scanline_frame(old(self).regs, final(self).regs),
            final(self).regs.num_cycles == old(self).regs.num_cycles,
            final(self).regs.curr_tile_row == old(self).regs.curr_tile_row,
            final(self).regs.curr_tile_col == old(self).regs.curr_tile_col,
            final(self).regs.sprite_hit == old(self).regs.sprite_hit,
            final(self).fb == old(self).fb,
            final(self).vram == old(self).vram,
            final(self).oam.sprite_info == old(self).oam.sprite_info,
    {
        self.clear_secondary_oam();
        let ghost cleared = *self;
        self.evaluate_sprite();
        let ghost evaluated = *self;
        self.fetch_sprite_data();
        proof {
            assert(spec_render_line(cleared.regs) == spec_render_line(old(self).regs));
            assert(spec_scan8(evaluated.regs) == spec_scan8(old(self).regs));
            assert(cleared.oam.sprite_info@ == old(self).oam.sprite_info@);
        }
    }

    /// Advances one scanline of the §4.8 schedule: the pre-render line
    /// clears the vertical-blank, sprite-0-hit and sprite-overflow flags
    /// and prefetches without drawing; lines 0-239 render; line 240 idles;
    /// lines 241-260 hold the vertical blank, which begins (raising
    /// `vblank_started` for exactly one tick) when line 241 is processed.
    #[verifier::spinoff_prover]
    #[verifier::rlimit(100)]
    pub fn tick(&mut self)
        requires
            old(self).wf(),
        ensures
            final(self).wf(),
            final(self).regs.num_cycles == spec_cycles_plus_line(old(self).regs.num_cycles),
            final(self).regs.curr_scanline == (if old(self).regs.curr_scanline == 260 || old(
                self,
            ).regs.curr_scanline == 261 {
                -1int
            } else {
                old(self).regs.curr_scanline + 1
            }),
            final(self).regs.vblank_started == (old(self).regs.curr_scanline == 241),
            final(self).regs.is_vblank == (if 241 <= old(self).regs.curr_scanline <= 260 {
                true
            } else if old(self).regs.curr_scanline == -1 {
                false
            } else {
                old(self).regs.is_vblank
            }),
            old(self).regs.curr_scanline == -1 ==> final(self).regs.sprite_hit == false,
            0 <= old(self).regs.curr_scanline <= 239 ==> spec_line_sprites_rel(
                *old(self),
                *final(self),
            ),
            (0 <= old(self).regs.curr_scanline <= 239 && (old(self).regs.show_background || old(
                self,
            ).regs.show_sprites)) ==> forall|c: int|
                0 <= c < 256 ==> final(self).fb@[old(self).regs.curr_scanline * 256 + c]
                    == spec_line_pixel(*old(self), c),
            240 <= old(self).regs.curr_scanline <= 261 ==> (final(self).regs.sprite_hit == old(
                self,
            ).regs.sprite_hit && final(self).regs.sprite_overflow == old(
                self,
            ).regs.sprite_overflow && final(self).fb == old(self).fb && PPU::same_buffers(
                *old(self),
                *final(self),
            )),
            final(self).regs.generate_nmi == old(self).regs.generate_nmi,
            final(self).regs.show_background == old(self).regs.show_background,
            final(self).regs.show_sprites == old(self).regs.show_sprites,
            final(self).regs.v == old(self).regs.v,
            final(self).regs.t == old(self).regs.t,
            final(self).regs.w == old(self).regs.w,
            final(self).regs.read_buffer == old(self).regs.read_buffer,
            final(self).regs.oam_address == old(self).regs.oam_address,
            final(self).regs.increment == old(self).regs.increment,
            final(self).fb@.len() == old(self).fb@.len(),
            (!old(self).regs.show_background && !old(self).regs.show_sprites) ==> final(self).fb
                == old(self).fb,
            final(self).vram == old(self).vram,
            final(self).oam.sprite_info == old(self).oam.sprite_info,
    {
        let line = self.regs.curr_scanline;
        if line == -1 {
            self.tick_prerender_line();
            return ;
        }
        if 0 <= line && line <= 239 {
            self.tick_visible_line();
            return ;
        }
        self.tick_idle_line();
    }

    /// A post-render, vertical-blank or wrapping line: nothing is fetched
    /// or drawn; the blank flag is held through lines 241-260, raising the
    /// one-tick start signal on line 241, and the dot clock and line
    /// counter advance.
    #[verifier::spinoff_prover]
    #[verifier::rlimit(100)]
    fn tick_idle_line(&mut self)
        requires
            old(self).wf(),
            old(self).regs.curr_scanline == -2 || 240 <= old(self).regs.curr_scanline <= 261,
        ensures
            final(self).wf(),
            final(self).regs.num_cycles == spec_cycles_plus_line(old(self).regs.num_cycles),
            final(self).regs.curr_scanline == (if old(self).regs.curr_scanline == 260 || old(
                self,
            ).regs.curr_scanline == 261 {
                -1int
            } else {
                old(self).regs.curr_scanline + 1
            }),
            final(self).regs.vblank_started == (old(self).regs.curr_scanline == 241),
            final(self).regs.is_vblank == (if 241 <= old(self).regs.curr_scanline <= 260 {
                true
            } else {
                old(self).regs.is_vblank
            }),
            final(self).regs.sprite_hit == old(self).regs.sprite_hit,
            final(self).regs.sprite_overflow == old(self).regs.sprite_overflow,
            final(self).regs.num_sprites == old(self).regs.num_sprites,
            final(self).regs.generate_nmi == old(self).regs.generate_nmi,
            final(self).regs.show_background == old(self).regs.show_background,
            final(self).regs.show_sprites == old(self).regs.show_sprites,
            final(self).regs.v == old(self).regs.v,
            final(self).regs.t == old(self).regs.t,
            final(self).regs.w == old(self).regs.w,
            final(self).regs.read_buffer == old(self).regs.read_buffer,
            final(self).regs.oam_address == old(self).regs.oam_address,
            final(self).regs.increment == old(self).regs.increment,
            final(self).fb == old(self).fb,
            PPU::same_buffers(*old(self), *final(self)),
    {
        let line = self.regs.curr_scanline;
        if line == 240 {
            self.regs = PpuRegs { vblank_started: false, ..self.regs };
            self.noop_scanline();
            self.advance_scanline();
            return ;
        }
        if 241 <= line && line <= 260 {
            self.regs = PpuRegs { is_vblank: true, vblank_started: line == 241, ..self.regs };
            self.noop_scanline();
            self.advance_scanline();
            return ;
        }
        self.regs = PpuRegs { curr_scanline: -2, vblank_started: false, ..self.regs };
        self.noop_scanline();
        self.advance_scanline();
    }

    /// The pre-render line: clears the blank and sprite status flags,
    /// prefetches without drawing, and advances to line 0.
    #[verifier::spinoff_prover]
    #[verifier::rlimit(100)]
    fn tick_prerender_line(&mut self)
        requires
            old(self).wf(),
            old(self).regs.curr_scanline == -1,
        ensures
            final(self).wf(),
            final(self).regs.num_cycles == spec_cycles_plus_line(old(self).regs.num_cycles),
            final(self).regs.curr_scanline == 0,
            final(self).regs.vblank_started == false,
            final(self).regs.is_vblank == false,
            final(self).regs.sprite_hit == false,
            final(self).regs.generate_nmi == old(self).regs.generate_nmi,
            final(self).regs.show_background == old(self).regs.show_background,
            final(self).regs.show_sprites == old(self).regs.show_sprites,
            final(self).regs.v == old(self).regs.v,
            final(self).regs.t == old(self).regs.t,
            final(self).regs.w == old(self).regs.w,
            final(self).regs.read_buffer == old(self).regs.read_buffer,
            final(self).regs.oam_address == old(self).regs.oam_address,
            final(self).regs.increment == old(self).regs.increment,
            final(self).fb@.len() == old(self).fb@.len(),
            final(self).fb == old(self).fb,
            final(self).vram == old(self).vram,
            final(self).oam.sprite_info == old(self).oam.sprite_info,
    {
        self.regs = PpuRegs {
            is_vblank: false,
            sprite_hit: false,
            sprite_overflow: false,
            vblank_started: false,
            ..self.regs
        };
        self.tick_scanline(false);
        self.advance_scanline();
    }

    /// One visible scanline: renders, prepares the next line's sprites,
    /// clears the one-tick blank signal and advances the line counter.
    #[verifier::spinoff_prover]
    #[verifier::rlimit(100)]
    fn tick_visible_line(&mut self)
        requires
            old(self).wf(),
            0 <= old(self).regs.curr_scanline <= 239,
        ensures
            final(self).wf(),
            final(self).regs.num_cycles == spec_cycles_plus_line(old(self).regs.num_cycles),
            final(self).regs.curr_scanline == old(self).regs.curr_scanline + 1,
            final(self).regs.vblank_started == false,
            final(self).regs.is_vblank == old(self).regs.is_vblank,
            spec_line_sprites_rel(*old(self), *final(self)),
            (old(self).regs.show_background || old(self).regs.show_sprites) ==> forall|c: int|
                0 <= c < 256 ==> final(self).fb@[old(self).regs.curr_scanline * 256 + c]
                    == spec_line_pixel(*old(self), c),
            final(self).regs.generate_nmi == old(self).regs.generate_nmi,
            final(self).regs.show_background == old(self).regs.show_background,
            final(self).regs.show_sprites == old(self).regs.show_sprites,
            final(self).regs.v == old(self).regs.v,
            final(self).regs.t == old(self).regs.t,
            final(self).regs.w == old(self).regs.w,
            final(self).regs.read_buffer == old(self).regs.read_buffer,
            final(self).regs.oam_address == old(self).regs.oam_address,
            final(self).regs.increment == old(self).regs.increment,
            final(self).fb@.len() == old(self).fb@.len(),
            (!old(self).regs.show_background && !old(self).regs.show_sprites) ==> final(self).fb
                == old(self).fb,
            final(self).vram == old(self).vram,
            final(self).oam.sprite_info == old(self).oam.sprite_info,
    {
        self.tick_scanline(true);
        self.regs = PpuRegs { vblank_started: false, ..self.regs };
        self.advance_scanline();
    }

    /// Steps to the next scanline, wrapping back to the pre-render line
    /// after line 260, and refreshes the tile-row index.
    fn advance_scanline(&mut self)
        requires
            -2 <= old(self).regs.curr_scanline <= 261,
        ensures
            final(self).regs == (PpuRegs {
                curr_scanline: final(self).regs.curr_scanline,
                curr_tile_row: final(self).regs.curr_tile_row,
                ..old(self).regs
            }),
            final(self).regs.curr_scanline == (if old(self).regs.curr_scanline == 260 || old(
                self,
            ).regs.curr_scanline == 261 {
                -1int
            } else {
                old(self).regs.curr_scanline + 1
            }),
            final(self).regs.curr_tile_row == (if final(self).regs.curr_scanline < 0 {
                0int
            } else {
                final(self).regs.curr_scanline / 8
            }),
            -1 <= final(self).regs.curr_scanline <= 261,
            PPU::same_buffers(*old(self), *final(self)),
    {
        if self.regs.curr_scanline == 260 || self.regs.curr_scanline == 261 {
            self.regs = PpuRegs { curr_scanline: -2, ..self.regs };
        }
        let next = self.regs.curr_scanline + 1;
        let row: usize = if next < 0 {
            0
        } else {
            (next / 8) as usize
        };
        self.regs = PpuRegs { curr_scanline: next, curr_tile_row: row, ..self.regs };
    }
}

/// How many of the OAM sprites with index below `n` are on the rendered
/// line.
pub open spec fn spec_match_count(oam: Seq<u8>, line: int, tall: bool, n: int) -> int
    decreases n,
{
    if n <= 0 {
        0
    } else {
        spec_match_count(oam, line, tall, n - 1) + (if spec_sprite_matches(
            oam,
            line,
            tall,
            n - 1,
        ) {
            1int
        } else {
            0
        })
    }
}

/// The match count is non-negative and at most the number of sprites
/// scanned.
pub proof fn lemma_match_count_bounds(oam: Seq<u8>, line: int, tall: bool, n: int)
    ensures
        0 <= spec_match_count(oam, line, tall, n),
        n >= 0 ==> spec_match_count(oam, line, tall, n) <= n,
    decreases n,
{
    if n > 0 {
        lemma_match_count_bounds(oam, line, tall, n - 1);
    }
}

/// Extending the scan never loses matches.
pub proof fn lemma_match_count_mono(oam: Seq<u8>, line: int, tall: bool, m: int, n: int)
    requires
        m <= n,
    ensures
        spec_match_count(oam, line, tall, m) <= spec_match_count(oam, line, tall, n),
    decreases n - m,
{
    if m < n {
        lemma_match_count_mono(oam, line, tall, m, n - 1);
    }
}

/// The secondary OAM byte offset of byte `b` of slot `c`.
pub open spec fn spec_secondary_slot(c: int, b: int) -> int {
    4 * c + b
}

/// Whether OAM sprite `s` is on the rendered line: its Y byte satisfies
/// Y <= line < Y + height, with height 16 for 8x16 sprites.
pub open spec fn spec_sprite_matches(oam: Seq<u8>, line: int, tall: bool, s: int) -> bool {
    let y = oam[4 * s];
    y <= line < y + (if tall {
        16int
    } else {
        8
    })
}

/// The rendered line as the byte the sprite row arithmetic uses.
pub open spec fn spec_scan8(regs: PpuRegs) -> u8 {
    if regs.curr_scanline < 0 {
        0
    } else {
        (regs.curr_scanline % 256) as u8
    }
}

/// The pattern row address of the sprite in secondary OAM slot `i`: for
/// 8x8 sprites the PPUCTRL-selected table, the tile index and the row
/// within the sprite; for 8x16 sprites the table and tile come from the
/// index byte itself and the second tile supplies rows 8-15. A set
/// vertical-flip bit reads the rows bottom-up.
pub open spec fn spec_sprite_pattern_addr_core(
    sec: Seq<u8>,
    scan8: u8,
    tall: bool,
    spa: int,
    i: int,
) -> int {
    let y = sec[4 * i];
    let tile_idx = sec[4 * i + 1];
    let attr = sec[4 * i + 2];
    let vflip = attr & 0x40 != 0;
    let row = vstd::wrapping::u8_specs::wrapping_sub(scan8, y);
    if tall {
        let base = if tile_idx % 2 == 1 {
            0x1000int
        } else {
            0
        };
        let in_sprite: int = if vflip {
            15 - row % 16
        } else {
            (row % 16) as int
        };
        base + (tile_idx / 2) * 2 * 16 + (if in_sprite >= 8 {
            16 + in_sprite % 8
        } else {
            in_sprite as int
        })
    } else {
        let in_tile: int = if vflip {
            7 - row % 8
        } else {
            (row % 8) as int
        };
        spa + tile_idx * 16 + in_tile
    }
}

/// The §4.6 sprite fetch of secondary OAM slot `i`: the two pattern
/// bitplanes of its current row and the flip and priority bits of its
/// attribute byte.
pub open spec fn spec_sprite_fetch_core(
    vram: VRAM,
    sec: Seq<u8>,
    scan8: u8,
    tall: bool,
    spa: int,
    i: int,
) -> Sprite {
    let attr = sec[4 * i + 2];
    let addr = spec_sprite_pattern_addr_core(sec, scan8, tall, spa, i);
    Sprite {
        horizontal_flip: attr & 0x20 != 0,
        vertical_flip: attr & 0x40 != 0,
        priority: attr & 0x80 != 0,
        lo_byte: spec_vram_read(vram, addr),
        hi_byte: spec_vram_read(vram, addr + 8),
    }
}

/// The sprite fetch of secondary OAM slot `i`, over the PPU's own state.
pub open spec fn spec_sprite_fetch(p: PPU, i: int) -> Sprite {
    spec_sprite_fetch_core(
        p.vram,
        p.secondary_oam.sprite_info@,
        spec_scan8(p.regs),
        p.regs.sprite_size,
        p.regs.sprite_pattern_address as int,
        i,
    )
}

} // verus!
