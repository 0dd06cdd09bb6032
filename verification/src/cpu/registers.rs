//! The 6502 architectural register file.
//!
//! The processor status byte `P` is laid out, from bit 0 up: carry, zero,
//! interrupt-disable, decimal, break, unused (observed as 1), overflow,
//! negative. Every flag accessor states exactly which mask it applies, so
//! callers can reason about the status byte bit by bit.

use vstd::prelude::*;

verus! {

/// Mask of the carry flag (bit 0) in the status byte.
pub const FLAG_CARRY: u8 = 0x01;

/// Mask of the zero flag (bit 1) in the status byte.
pub const FLAG_ZERO: u8 = 0x02;

/// Mask of the interrupt-disable flag (bit 2) in the status byte.
pub const FLAG_INTERRUPT_DISABLE: u8 = 0x04;

/// Mask of the decimal-mode flag (bit 3) in the status byte. The flag can be
/// set and cleared but has no effect on arithmetic on this CPU variant.
pub const FLAG_DECIMAL: u8 = 0x08;

/// Mask of the break flag (bit 4). It is never a real stored flag: it is
/// synthesized when the status byte is pushed by BRK or PHP.
pub const FLAG_BREAK: u8 = 0x10;

/// Mask of the unused bit (bit 5), observed as 1 whenever `P` is pushed.
pub const FLAG_UNUSED: u8 = 0x20;

/// Mask of the overflow flag (bit 6).
pub const FLAG_OVERFLOW: u8 = 0x40;

/// Mask of the negative flag (bit 7).
pub const FLAG_NEGATIVE: u8 = 0x80;

#[derive(Clone, Copy, PartialEq, Eq, Structural, Debug)]
pub struct Registers {
    /// Address of the next instruction to execute.
    pub program_counter: u16,
    /// Low byte of the next free stack slot; the high byte is implicitly $01.
    pub stack_pointer: u8,
    /// Accumulator, operand and result of the arithmetic and logic family.
    pub accumulator: u8,
    /// Index register X.
    pub index_x: u8,
    /// Index register Y.
    pub index_y: u8,
    /// Processor status byte `P`.
    pub processor_status: u8,
}

impl Registers {
    /// Cold-boot register file: SP at $FD and `P` = $24 (interrupt-disable
    /// and the unused bit set); the program counter is loaded later from the
    /// reset vector.
    pub fn new() -> (r: Registers)
        ensures
            r == (Registers {
                program_counter: 0,
                stack_pointer: 0xfd,
                accumulator: 0,
                index_x: 0,
                index_y: 0,
                processor_status: 0x24,
            }),
    {
        Registers {
            program_counter: 0,
            stack_pointer: 0xfd,
            accumulator: 0,
            index_x: 0,
            index_y: 0,
            processor_status: 0x24,
        }
    }

    pub fn set_carry(&mut self)
        ensures
            *final(self) == (Registers {
                processor_status: old(self).processor_status | FLAG_CARRY,
                ..*old(self)
            }),
    {
        self.processor_status = self.processor_status | FLAG_CARRY;
    }

    pub fn unset_carry(&mut self)
        ensures
            *final(self) == (Registers {
                processor_status: old(self).processor_status & !FLAG_CARRY,
                ..*old(self)
            }),
    {
        self.processor_status = self.processor_status & !FLAG_CARRY;
    }

    pub fn get_carry(&mut self) -> (r: u8)
        ensures
            *final(self) == *old(self),
            r == old(self).processor_status & FLAG_CARRY,
    {
        self.processor_status & FLAG_CARRY
    }

    pub fn set_zero(&mut self)
        ensures
            *final(self) == (Registers {
                processor_status: old(self).processor_status | FLAG_ZERO,
                ..*old(self)
            }),
    {
        self.processor_status = self.processor_status | FLAG_ZERO;
    }

    pub fn unset_zero(&mut self)
        ensures
            *final(self) == (Registers {
                processor_status: old(self).processor_status & !FLAG_ZERO,
                ..*old(self)
            }),
    {
        self.processor_status = self.processor_status & !FLAG_ZERO;
    }

    pub fn get_zero(&mut self) -> (r: u8)
        ensures
            *final(self) == *old(self),
            r == old(self).processor_status & FLAG_ZERO,
    {
        self.processor_status & FLAG_ZERO
    }

    pub fn set_interrupt_disable(&mut self)
        ensures
            *final(self) == (Registers {
                processor_status: old(self).processor_status | FLAG_INTERRUPT_DISABLE,
                ..*old(self)
            }),
    {
        self.processor_status = self.processor_status | FLAG_INTERRUPT_DISABLE;
    }

    pub fn unset_interrupt_disable(&mut self)
        ensures
            *final(self) == (Registers {
                processor_status: old(self).processor_status & !FLAG_INTERRUPT_DISABLE,
                ..*old(self)
            }),
    {
        self.processor_status = self.processor_status & !FLAG_INTERRUPT_DISABLE;
    }

    pub fn get_interrupt_disable(&mut self) -> (r: u8)
        ensures
            *final(self) == *old(self),
            r == old(self).processor_status & FLAG_INTERRUPT_DISABLE,
    {
        self.processor_status & FLAG_INTERRUPT_DISABLE
    }

    pub fn set_decimal(&mut self)
        ensures
            *final(self) == (Registers {
                processor_status: old(self).processor_status | FLAG_DECIMAL,
                ..*old(self)
            }),
    {
        self.processor_status = self.processor_status | FLAG_DECIMAL;
    }

    pub fn unset_decimal(&mut self)
        ensures
            *final(self) == (Registers {
                processor_status: old(self).processor_status & !FLAG_DECIMAL,
                ..*old(self)
            }),
    {
        self.processor_status = self.processor_status & !FLAG_DECIMAL;
    }

    pub fn get_decimal(&mut self) -> (r: u8)
        ensures
            *final(self) == *old(self),
            r == old(self).processor_status & FLAG_DECIMAL,
    {
        self.processor_status & FLAG_DECIMAL
    }

    pub fn set_break(&mut self)
        ensures
            *final(self) == (Registers {
                processor_status: old(self).processor_status | FLAG_BREAK,
                ..*old(self)
            }),
    {
        self.processor_status = self.processor_status | FLAG_BREAK;
    }

    pub fn unset_break(&mut self)
        ensures
            *final(self) == (Registers {
                processor_status: old(self).processor_status & !FLAG_BREAK,
                ..*old(self)
            }),
    {
        self.processor_status = self.processor_status & !FLAG_BREAK;
    }

    pub fn get_break(&mut self) -> (r: u8)
        ensures
            *final(self) == *old(self),
            r == old(self).processor_status & FLAG_BREAK,
    {
        self.processor_status & FLAG_BREAK
    }

    pub fn set_overflow(&mut self)
        ensures
            *final(self) == (Registers {
                processor_status: old(self).processor_status | FLAG_OVERFLOW,
                ..*old(self)
            }),
    {
        self.processor_status = self.processor_status | FLAG_OVERFLOW;
    }

    pub fn unset_overflow(&mut self)
        ensures
            *final(self) == (Registers {
                processor_status: old(self).processor_status & !FLAG_OVERFLOW,
                ..*old(self)
            }),
    {
        self.processor_status = self.processor_status & !FLAG_OVERFLOW;
    }

    pub fn get_overflow(&mut self) -> (r: u8)
        ensures
            *final(self) == *old(self),
            r == old(self).processor_status & FLAG_OVERFLOW,
    {
        self.processor_status & FLAG_OVERFLOW
    }

    pub fn set_neg(&mut self)
        ensures
            *final(self) == (Registers {
                processor_status: old(self).processor_status | FLAG_NEGATIVE,
                ..*old(self)
            }),
    {
        self.processor_status = self.processor_status | FLAG_NEGATIVE;
    }

    pub fn unset_neg(&mut self)
        ensures
            *final(self) == (Registers {
                processor_status: old(self).processor_status & !FLAG_NEGATIVE,
                ..*old(self)
            }),
    {
        self.processor_status = self.processor_status & !FLAG_NEGATIVE;
    }

    pub fn get_neg(&mut self) -> (r: u8)
        ensures
            *final(self) == *old(self),
            r == old(self).processor_status & FLAG_NEGATIVE,
    {
        self.processor_status & FLAG_NEGATIVE
    }
}

} // verus!
