//! The 16 KiB PPU address space.
//!
//! Pattern tables live at $0000-$1FFF, the four nametables at $2000-$2FFF
//! (physically two, aliased according to the cartridge's mirroring bit), and
//! palette RAM at $3F00-$3F1F. Every read and write goes through one
//! canonical-address function, so the mirroring invariants hold by
//! construction: with horizontal mirroring $2000 aliases $2400 and $2800
//! aliases $2C00; with vertical mirroring $2000 aliases $2800 and $2400
//! aliases $2C00; and the palette entries $3F10/$3F14/$3F18/$3F1C alias
//! $3F00/$3F04/$3F08/$3F0C.

use vstd::prelude::*;

use crate::ppu::NametableArrangement;
use crate::utils::filled_vec;

verus! {

/// The canonical cell that PPU address `addr` resolves to, after nametable
/// mirroring and palette aliasing.
pub open spec fn spec_vram_index(arrangement: NametableArrangement, addr: int) -> int {
    if addr == 0x3F10 || addr == 0x3F14 || addr == 0x3F18 || addr == 0x3F1C {
        addr - 0x10
    } else if 0x2000 <= addr && addr < 0x3000 {
        match arrangement {
            NametableArrangement::HorizontalMirror => {
                if (0x2400 <= addr && addr < 0x2800) || 0x2C00 <= addr {
                    addr - 0x400
                } else {
                    addr
                }
            },
            NametableArrangement::VerticalMirror => {
                if 0x2800 <= addr {
                    addr - 0x800
                } else {
                    addr
                }
            },
        }
    } else {
        addr
    }
}

/// The byte a read of PPU address `addr` observes.
pub open spec fn spec_vram_read(vram: VRAM, addr: int) -> u8 {
    vram.buffer@[spec_vram_index(vram.arrangement, addr)]
}

/// The palette aliases resolve to the same cell in both directions: a
/// write to $3F10/$3F14/$3F18/$3F1C lands in the cell every read of
/// $3F00/$3F04/$3F08/$3F0C observes, and the other way round, whatever the
/// nametable arrangement.
pub proof fn lemma_palette_mirror(arrangement: NametableArrangement, addr: int)
    requires
        addr == 0x3F10 || addr == 0x3F14 || addr == 0x3F18 || addr == 0x3F1C,
    ensures
        spec_vram_index(arrangement, addr) == spec_vram_index(arrangement, addr - 0x10),
{
}

pub struct VRAM {
    pub buffer: Vec<u8>,
    /// Nametable mirroring wired by the cartridge.
    pub arrangement: NametableArrangement,
}

impl VRAM {
    /// All 16 KiB of video memory hold well-defined, addressable cells.
    pub open spec fn wf(self) -> bool {
        self.buffer@.len() == 0x4000
    }

    pub fn new() -> (r: VRAM)
        ensures
            r.wf(),
            r.buffer@ == Seq::new(0x4000, |i: int| 0u8),
            r.arrangement == NametableArrangement::HorizontalMirror,
    {
        VRAM { buffer: filled_vec(0x4000, 0u8), arrangement: NametableArrangement::HorizontalMirror }
    }

    /// Maps a PPU address onto the canonical cell it aliases.
    fn mirror(&self, address: usize) -> (r: usize)
        requires
            address < 0x4000,
        ensures
            r == spec_vram_index(self.arrangement, address as int),
            r < 0x4000,
    {
        if address == 0x3F10 || address == 0x3F14 || address == 0x3F18 || address == 0x3F1C {
            address - 0x10
        } else if 0x2000 <= address && address < 0x3000 {
            match self.arrangement {
                NametableArrangement::HorizontalMirror => {
                    if (0x2400 <= address && address < 0x2800) || 0x2C00 <= address {
                        address - 0x400
                    } else {
                        address
                    }
                },
                NametableArrangement::VerticalMirror => {
                    if 0x2800 <= address {
                        address - 0x800
                    } else {
                        address
                    }
                },
            }
        } else {
            address
        }
    }

    /// Reads the byte that `address` resolves to under mirroring, without
    /// needing exclusive access.
    pub fn peek(&self, address: usize) -> (r: u8)
        requires
            self.wf(),
            address < 0x4000,
        ensures
            r == spec_vram_read(*self, address as int),
    {
        let idx = self.mirror(address);
        self.buffer[idx]
    }

    /// Reads the byte that `address` resolves to under mirroring.
    pub fn get(&mut self, address: usize) -> (r: u8)
        requires
            old(self).wf(),
            address < 0x4000,
        ensures
            *final(self) == *old(self),
            r == spec_vram_read(*old(self), address as int),
    {
        let idx = self.mirror(address);
        self.buffer[idx]
    }

    /// Stores `value` in the canonical cell `address` resolves to, so the
    /// write is observed at every alias of that cell.
    pub fn set(&mut self, address: usize, value: u8)
        requires
            old(self).wf(),
            address < 0x4000,
        ensures
            final(self).wf(),
            final(self).arrangement == old(self).arrangement,
            final(self).buffer@ == old(self).buffer@.update(
                spec_vram_index(old(self).arrangement, address as int),
                value,
            ),
    {
        let idx = self.mirror(address);
        self.buffer[idx] = value;
    }

    /// Bulk-copies `buffer` into video memory starting at `starting_address`,
    /// without mirroring; bytes that would land past the end are dropped.
    /// This is the cartridge-load path for CHR data.
    pub fn copy_into_memory(&mut self, buffer: &[u8], starting_address: usize)
        requires
            old(self).wf(),
            starting_address <= 0x4000,
            buffer@.len() <= 0x10000,
        ensures
            final(self).wf(),
            final(self).arrangement == old(self).arrangement,
            forall|i: int|
                0 <= i < 0x4000 ==> final(self).buffer@[i] == (if starting_address <= i
                    < starting_address + buffer@.len() {
                    buffer@[i - starting_address]
                } else {
                    old(self).buffer@[i]
                }),
    {
        let len = buffer.len();
        for k in 0..len
            invariant
                self.wf(),
                self.arrangement == old(self).arrangement,
                len == buffer@.len(),
                len <= 0x10000,
                starting_address <= 0x4000,
                forall|i: int|
                    0 <= i < 0x4000 ==> self.buffer@[i] == (if starting_address <= i
                        < starting_address + k {
                        buffer@[i - starting_address]
                    } else {
                        old(self).buffer@[i]
                    }),
        {
            let curr_addr = starting_address + k;
            if curr_addr < 0x4000 {
                let value = *vstd::slice::slice_index_get(buffer, k);
                self.buffer[curr_addr] = value;
            }
        }
    }
}

} // verus!
