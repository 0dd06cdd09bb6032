//! Core of a cycle-counted emulator for the 8-bit console built around a
//! MOS 6502-derived CPU and its picture processing unit (PPU).
//!
//! The crate is organised as the hardware is: `cpu` holds the register file,
//! the 64 KiB address bus with its memory-mapped I/O routing, and the
//! instruction interpreter; `ppu` holds the 16 KiB video address space, the
//! eight memory-mapped PPU registers, and the scanline renderer; `mappers`
//! loads an iNES cartridge image into both address spaces.

pub mod cpu;
pub mod mappers;
pub mod ppu;
pub mod utils;
