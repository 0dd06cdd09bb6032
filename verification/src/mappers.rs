//! Cartridge mapping: parsing an iNES image and loading its PRG and CHR
//! data into the two address spaces.
//!
//! Only mapper 0 (NROM) is supported: the PRG bank is mapped at $8000 and
//! mirrored at $C000 when it is a single 16 KiB bank, the CHR bank is
//! copied to the start of video memory, and header byte 6 bit 0 selects the
//! nametable mirroring. A malformed header is rejected before anything is
//! written.

use vstd::prelude::*;

use crate::cpu::memory::{spec_mem_nonbuffer_unchanged, Memory};
use crate::ppu::memory::VRAM;
use crate::ppu::NametableArrangement;

verus! {

/// Why a cartridge image was rejected.
#[derive(Clone, Copy, PartialEq, Eq, Structural, Debug)]
pub enum CartridgeError {
    /// The iNES magic is missing or the byte layout is inconsistent.
    MalformedHeader,
    /// The mapper number is outside the supported set (only 0, NROM).
    UnsupportedMapper,
}

/// A structurally sound iNES image: the 4-byte magic, a PRG size of 1 or 2
/// banks, a CHR size of 0 or 1 banks, and enough bytes to hold both.
pub open spec fn spec_ines_header_ok(b: Seq<u8>) -> bool {
    &&& b.len() >= 16
    &&& b[0] == 0x4E
    &&& b[1] == 0x45
    &&& b[2] == 0x53
    &&& b[3] == 0x1A
    &&& (b[4] == 1 || b[4] == 2)
    &&& (b[5] == 0 || b[5] == 1)
    &&& b.len() >= 16 + b[4] * 16384 + b[5] * 8192
}

/// The mapper number: the high nibble of header byte 7.
pub open spec fn spec_ines_mapper(b: Seq<u8>) -> int {
    b[7] as int / 16
}

/// The nametable arrangement selected by header byte 6 bit 0.
pub open spec fn spec_ines_arrangement(b: Seq<u8>) -> NametableArrangement {
    if b[6] % 2 == 0 {
        NametableArrangement::HorizontalMirror
    } else {
        NametableArrangement::VerticalMirror
    }
}

/// A cartridge mapper: populates work RAM and video memory from an iNES
/// image. Loading must be total over arbitrary byte strings: a malformed
/// header or an unsupported mapper is reported without touching any state.
pub trait Mapper: Sized {
    fn from_ines_rom(bytes: &Vec<u8>, vram: &mut VRAM, wram: &mut Memory) -> (r: Result<
        Self,
        CartridgeError,
    >)
        requires
            old(vram).wf(),
            old(wram).wf(),
        ensures
            final(vram).wf(),
            final(wram).wf(),
            r is Ok <==> (spec_ines_header_ok(bytes@) && spec_ines_mapper(bytes@) == 0),
            r == Result::<Self, CartridgeError>::Err(CartridgeError::MalformedHeader)
                <==> !spec_ines_header_ok(bytes@),
            r == Result::<Self, CartridgeError>::Err(CartridgeError::UnsupportedMapper) <==> (
            spec_ines_header_ok(bytes@) && spec_ines_mapper(bytes@) != 0),
            r is Ok ==> {
                &&& forall|a: int|
                    0x8000 <= a < 0x10000 ==> #[trigger] final(wram).buffer@[a] == bytes@[16 + ((a
                        - 0x8000) % (bytes@[4] * 16384))]
                &&& forall|i: int|
                    0 <= i < 0x8000 ==> final(wram).buffer@[i] == old(wram).buffer@[i]
                &&& spec_mem_nonbuffer_unchanged(*old(wram), *final(wram))
                &&& forall|i: int|
                    0 <= i < 0x4000 ==> final(vram).buffer@[i] == (if i < bytes@[5] * 8192 {
                        bytes@[16 + bytes@[4] * 16384 + i]
                    } else {
                        old(vram).buffer@[i]
                    })
                &&& final(vram).arrangement == spec_ines_arrangement(bytes@)
            },
            !(r is Ok) ==> {
                &&& *final(vram) == *old(vram)
                &&& final(wram).buffer == old(wram).buffer
                &&& spec_mem_nonbuffer_unchanged(*old(wram), *final(wram))
            },
    ;
}

/// The NROM (mapper 0) cartridge: fixed PRG at $8000-$FFFF, CHR at the
/// start of video memory, no banking.
pub struct NROM {
    pub nt_arrangement: NametableArrangement,
}

impl Mapper for NROM {
    fn from_ines_rom(bytes: &Vec<u8>, vram: &mut VRAM, wram: &mut Memory) -> (r: Result<
        NROM,
        CartridgeError,
    >) {
        if bytes.len() < 16 {
            return Err(CartridgeError::MalformedHeader);
        }
        if !(bytes[0] == 0x4E && bytes[1] == 0x45 && bytes[2] == 0x53 && bytes[3] == 0x1A) {
            return Err(CartridgeError::MalformedHeader);
        }
        let prg_banks = bytes[4];
        let chr_banks = bytes[5];
        if !(prg_banks == 1 || prg_banks == 2) {
            return Err(CartridgeError::MalformedHeader);
        }
        if !(chr_banks == 0 || chr_banks == 1) {
            return Err(CartridgeError::MalformedHeader);
        }
        let prg_rom_size = prg_banks as usize * 16384;
        let chr_rom_size = chr_banks as usize * 8192;
        if bytes.len() < 16 + prg_rom_size + chr_rom_size {
            return Err(CartridgeError::MalformedHeader);
        }
        if bytes[7] / 16 != 0 {
            return Err(CartridgeError::UnsupportedMapper);
        }

        for i in 0..0x8000usize
            invariant
                wram.wf(),
                bytes@.len() >= 16 + prg_rom_size,
                prg_rom_size == prg_banks * 16384,
                prg_banks == 1 || prg_banks == 2,
                forall|a: int|
                    0x8000 <= a < 0x8000 + i ==> #[trigger] wram.buffer@[a] == bytes@[16 + ((a
                        - 0x8000) % (prg_banks * 16384))],
                forall|j: int| 0 <= j < 0x8000 ==> wram.buffer@[j] == old(wram).buffer@[j],
                spec_mem_nonbuffer_unchanged(*old(wram), *wram),
        {
            let b = bytes[16 + i % prg_rom_size];
            wram.buffer[0x8000 + i] = b;
        }

        let chr_rom = vstd::slice::slice_subrange(
            bytes.as_slice(),
            16 + prg_rom_size,
            16 + prg_rom_size + chr_rom_size,
        );
        vram.copy_into_memory(chr_rom, 0);

        let nt_arrangement = if bytes[6] % 2 == 0 {
            NametableArrangement::HorizontalMirror
        } else {
            NametableArrangement::VerticalMirror
        };
        vram.arrangement = nt_arrangement;

        Ok(NROM { nt_arrangement })
    }
}

} // verus!
