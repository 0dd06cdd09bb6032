//! The 6502 CPU core: the register file, the instruction interpreter and
//! its cycle accounting.
//!
//! Every instruction is a method whose contract states, over the
//! `spec_..._regs` register-transform functions and the bus relations of
//! `memory`, exactly which registers and memory cells change, which value
//! each takes, and how many cycles the instruction costs. The dispatcher
//! `decode_execute` maps each opcode to its handler and is specified by the
//! opcode-length table `spec_opcode_len`; unknown opcodes consume their
//! bytes and no cycles so that execution always continues.

pub mod jsontest;
pub mod memory;
pub mod registers;

use vstd::prelude::*;

use crate::ppu::PPU;
use jsontest::CpuTestState;
use memory::{
    spec_abs_x_ea, spec_is_mmio, spec_ind_x_ea, spec_ind_x_lo_ptr, spec_ind_y_ea, spec_mem_nonbuffer_unchanged,
    spec_mem_unchanged, spec_quirk_next_addr, spec_read2_rel, spec_read2_value, spec_read_input_x,
    spec_read_regs_x, spec_read_rel, spec_read_value, spec_store_rel, spec_store_rel_x,
    spec_zp_x_ea, Memory,
};
use registers::{
    Registers, FLAG_BREAK, FLAG_CARRY, FLAG_DECIMAL, FLAG_INTERRUPT_DISABLE, FLAG_NEGATIVE,
    FLAG_OVERFLOW, FLAG_UNUSED, FLAG_ZERO,
};

verus! {

/// The status byte with Z set iff `v` is zero and N copied from bit 7 of
/// `v`; no other flag moves.
pub open spec fn spec_nz(p: u8, v: u8) -> u8 {
    let p1 = if v == 0 {
        p | FLAG_ZERO
    } else {
        p & !FLAG_ZERO
    };
    if v & 0x80 != 0 {
        p1 | FLAG_NEGATIVE
    } else {
        p1 & !FLAG_NEGATIVE
    }
}

/// LDA: the accumulator takes `v`; Z and N follow it.
pub open spec fn spec_lda_regs(r: Registers, v: u8) -> Registers {
    Registers { accumulator: v, processor_status: spec_nz(r.processor_status, v), ..r }
}

/// LDX: X takes `v`; Z and N follow it.
pub open spec fn spec_ldx_regs(r: Registers, v: u8) -> Registers {
    Registers { index_x: v, processor_status: spec_nz(r.processor_status, v), ..r }
}

/// LDY: Y takes `v`; Z and N follow it.
pub open spec fn spec_ldy_regs(r: Registers, v: u8) -> Registers {
    Registers { index_y: v, processor_status: spec_nz(r.processor_status, v), ..r }
}

/// ADC: A becomes the low byte of A + M + C; C is the carry out of bit 7;
/// V is set exactly when A and M share a sign and the result's sign
/// differs, written ((A ^ R) & (M ^ R) & $80) != 0; Z and N follow the
/// result.
pub open spec fn spec_adc_regs(r: Registers, m: u8) -> Registers {
    let p = r.processor_status;
    let total = r.accumulator + m + (p & FLAG_CARRY);
    let result = (total % 256) as u8;
    let p1 = if (r.accumulator ^ result) & (m ^ result) & 0x80 != 0 {
        p | FLAG_OVERFLOW
    } else {
        p & !FLAG_OVERFLOW
    };
    let p2 = if total > 0xFF {
        p1 | FLAG_CARRY
    } else {
        p1 & !FLAG_CARRY
    };
    Registers { accumulator: result, processor_status: spec_nz(p2, result), ..r }
}

/// SBC is ADC of the bitwise complement of the operand.
pub open spec fn spec_sbc_regs(r: Registers, m: u8) -> Registers {
    spec_adc_regs(r, !m)
}

/// CMP/CPX/CPY flag rule: Z iff reg == M, C iff reg >= M, N from bit 7 of
/// the wrapping difference.
pub open spec fn spec_compare_p(p: u8, reg: u8, m: u8) -> u8 {
    let p1 = if reg == m {
        p | FLAG_ZERO
    } else {
        p & !FLAG_ZERO
    };
    let p2 = if reg >= m {
        p1 | FLAG_CARRY
    } else {
        p1 & !FLAG_CARRY
    };
    let diff = vstd::wrapping::u8_specs::wrapping_sub(reg, m);
    if diff & 0x80 != 0 {
        p2 | FLAG_NEGATIVE
    } else {
        p2 & !FLAG_NEGATIVE
    }
}

/// CMP compares the accumulator with the operand; only flags change.
pub open spec fn spec_cmp_regs(r: Registers, m: u8) -> Registers {
    Registers {
        processor_status: spec_compare_p(r.processor_status, r.accumulator, m),
        ..r
    }
}

/// CPX compares X with the operand; only flags change.
pub open spec fn spec_cpx_regs(r: Registers, m: u8) -> Registers {
    Registers { processor_status: spec_compare_p(r.processor_status, r.index_x, m), ..r }
}

/// CPY compares Y with the operand; only flags change.
pub open spec fn spec_cpy_regs(r: Registers, m: u8) -> Registers {
    Registers { processor_status: spec_compare_p(r.processor_status, r.index_y, m), ..r }
}

/// AND: A takes A & M; Z and N follow it.
pub open spec fn spec_and_regs(r: Registers, m: u8) -> Registers {
    let result = r.accumulator & m;
    Registers { accumulator: result, processor_status: spec_nz(r.processor_status, result), ..r }
}

/// EOR: A takes A ^ M; Z and N follow it.
pub open spec fn spec_eor_regs(r: Registers, m: u8) -> Registers {
    let result = r.accumulator ^ m;
    Registers { accumulator: result, processor_status: spec_nz(r.processor_status, result), ..r }
}

/// ORA: A takes A | M; Z and N follow it.
pub open spec fn spec_ora_regs(r: Registers, m: u8) -> Registers {
    let result = r.accumulator | m;
    Registers { accumulator: result, processor_status: spec_nz(r.processor_status, result), ..r }
}

/// BIT: Z from A & M, N from bit 7 of M, V from bit 6 of M; A untouched.
pub open spec fn spec_bit_regs(r: Registers, m: u8) -> Registers {
    let p = r.processor_status;
    let p1 = if r.accumulator & m == 0 {
        p | FLAG_ZERO
    } else {
        p & !FLAG_ZERO
    };
    let p2 = if m & 0x80 != 0 {
        p1 | FLAG_NEGATIVE
    } else {
        p1 & !FLAG_NEGATIVE
    };
    let p3 = if m & 0x40 != 0 {
        p2 | FLAG_OVERFLOW
    } else {
        p2 & !FLAG_OVERFLOW
    };
    Registers { processor_status: p3, ..r }
}

/// ASL result: the value shifted left once, bit 0 becoming 0.
pub open spec fn spec_asl_val(v: u8) -> u8 {
    v << 1
}

/// ASL flags: C takes the bit shifted out (bit 7); Z and N follow the
/// result.
pub open spec fn spec_asl_p(p: u8, v: u8) -> u8 {
    let pc = if v & 0x80 != 0 {
        p | FLAG_CARRY
    } else {
        p & !FLAG_CARRY
    };
    spec_nz(pc, spec_asl_val(v))
}

/// LSR result: the value shifted right once, bit 7 becoming 0.
pub open spec fn spec_lsr_val(v: u8) -> u8 {
    v >> 1
}

/// LSR flags: C takes the bit shifted out (bit 0); Z follows the result; N
/// is always cleared since the result's bit 7 is 0.
pub open spec fn spec_lsr_p(p: u8, v: u8) -> u8 {
    let pc = if v & 0x01 != 0 {
        p | FLAG_CARRY
    } else {
        p & !FLAG_CARRY
    };
    let pz = if spec_lsr_val(v) == 0 {
        pc | FLAG_ZERO
    } else {
        pc & !FLAG_ZERO
    };
    pz & !FLAG_NEGATIVE
}

/// ROL result: shifted left once with the old carry entering bit 0.
pub open spec fn spec_rol_val(p: u8, v: u8) -> u8 {
    (v << 1) | (p & FLAG_CARRY)
}

/// ROL flags: C takes the old bit 7; Z and N follow the result.
pub open spec fn spec_rol_p(p: u8, v: u8) -> u8 {
    let pc = if v & 0x80 != 0 {
        p | FLAG_CARRY
    } else {
        p & !FLAG_CARRY
    };
    spec_nz(pc, spec_rol_val(p, v))
}

/// ROR result: shifted right once with the old carry entering bit 7.
pub open spec fn spec_ror_val(p: u8, v: u8) -> u8 {
    (v >> 1) | ((p & FLAG_CARRY) << 7)
}

/// ROR flags: C takes the old bit 0; Z and N follow the result.
pub open spec fn spec_ror_p(p: u8, v: u8) -> u8 {
    let pc = if v & 0x01 != 0 {
        p | FLAG_CARRY
    } else {
        p & !FLAG_CARRY
    };
    spec_nz(pc, spec_ror_val(p, v))
}

/// INC/INX/INY result: the value plus one, wrapping at 8 bits.
pub open spec fn spec_inc_val(v: u8) -> u8 {
    vstd::wrapping::u8_specs::wrapping_add(v, 1)
}

/// DEC/DEX/DEY result: the value minus one, wrapping at 8 bits.
pub open spec fn spec_dec_val(v: u8) -> u8 {
    vstd::wrapping::u8_specs::wrapping_sub(v, 1)
}

/// High byte of a 16-bit word.
pub open spec fn spec_hi(w: u16) -> u8 {
    (w / 256) as u8
}

/// Low byte of a 16-bit word.
pub open spec fn spec_lo(w: u16) -> u8 {
    (w % 256) as u8
}

/// Where a taken branch lands: the program counter plus the signed 8-bit
/// displacement, wrapping at 16 bits.
pub open spec fn spec_branch_target(pc: u16, offset: u8) -> u16 {
    if offset < 0x80 {
        vstd::wrapping::u16_specs::wrapping_add(pc, offset as u16)
    } else {
        vstd::wrapping::u16_specs::wrapping_sub(
            vstd::wrapping::u16_specs::wrapping_add(pc, offset as u16),
            0x100,
        )
    }
}

/// Branch cost: 2 cycles untaken, 3 taken, 4 when the final target (the
/// displacement applied past the 2-byte instruction) leaves the page of the
/// branch instruction itself.
pub open spec fn spec_branch_cycles(pc: u16, offset: u8, taken: bool) -> u8 {
    if !taken {
        2
    } else {
        let after = spec_branch_target(vstd::wrapping::u16_specs::wrapping_add(pc, 2), offset);
        if pc / 256 != after / 256 {
            4
        } else {
            3
        }
    }
}

/// The 16-bit stack address of stack-pointer value `sp`.
pub open spec fn spec_stack_addr(sp: u8) -> int {
    0x100 + sp
}


/// The 6502 interpreter: the bus, the register file, and the elapsed-cycle
/// counter.
pub struct Cpu {
    pub memory: memory::Memory,
    pub registers: Registers,
    /// Elapsed CPU cycles.
    pub num_cycles: usize,
}

impl Cpu {
    /// Structural invariant: the bus is well formed and any pending DMA
    /// stall is the one value a DMA trigger leaves behind.
    pub open spec fn wf(self) -> bool {
        &&& self.memory.wf()
        &&& self.memory.dma_stall <= 513
    }

    pub fn new(ppu: PPU) -> (r: Cpu)
        requires
            ppu.wf(),
        ensures
            r.wf(),
            r.registers == (Registers {
                program_counter: 0,
                stack_pointer: 0xfd,
                accumulator: 0,
                index_x: 0,
                index_y: 0,
                processor_status: 0x24,
            }),
            r.num_cycles == 0,
            r.memory.buffer@ == Seq::new(0x10000, |i: int| 0u8),
            r.memory.ppu == ppu,
            r.memory.dma_stall == 0,
    {
        Cpu { memory: memory::Memory::new(ppu), registers: Registers::new(), num_cycles: 0 }
    }

    /// Loads the program counter from the reset vector at $FFFC/$FFFD.
    pub fn init_pc(&mut self)
        requires
            old(self).wf(),
        ensures
            final(self).wf(),
            final(self).registers == (Registers {
                program_counter: (old(self).memory.buffer@[0xFFFC] + old(self).memory.buffer@[0xFFFD]
                    * 256) as u16,
                ..old(self).registers
            }),
            spec_mem_unchanged(old(self).memory, final(self).memory),
            final(self).num_cycles == old(self).num_cycles,
            final(self).memory.ppu.regs.num_cycles == old(self).memory.ppu.regs.num_cycles,
    {
        let pc = self.fetch_u16(0xFFFC);
        self.registers.program_counter = pc;
    }

    /// Cold reset: the program counter comes from the reset vector, the
    /// status byte is $24, the stack pointer $FD, and the cycle counter is
    /// cleared.
    pub fn reset(&mut self)
        requires
            old(self).wf(),
        ensures
            final(self).wf(),
            final(self).registers == (Registers {
                program_counter: (old(self).memory.buffer@[0xFFFC] + old(self).memory.buffer@[0xFFFD]
                    * 256) as u16,
                stack_pointer: 0xfd,
                processor_status: 0x24,
                ..old(self).registers
            }),
            spec_mem_unchanged(old(self).memory, final(self).memory),
            final(self).num_cycles == 0,
    {
        let pc = self.fetch_u16(0xFFFC);
        self.registers.program_counter = pc;
        self.registers.stack_pointer = 0xfd;
        self.registers.processor_status = 0x24;
        self.num_cycles = 0;
    }

    /// Z follows whether `value` is zero and N follows its bit 7; no other
    /// flag moves.
    fn update_zero_negative_flags(&mut self, value: u8)
        ensures
            final(self).registers == (Registers {
                processor_status: spec_nz(old(self).registers.processor_status, value),
                ..old(self).registers
            }),
            final(self).memory == old(self).memory,
            final(self).num_cycles == old(self).num_cycles,
            final(self).memory.ppu.regs.num_cycles == old(self).memory.ppu.regs.num_cycles,
    {
        if value == 0 {
            self.registers.set_zero();
        } else {
            self.registers.unset_zero();
        }
        if value & 0b1000_0000 != 0 {
            self.registers.set_neg();
        } else {
            self.registers.unset_neg();
        }
    }

    /// Pushes one byte at $0100 + SP, then decrements SP with wrap; stack
    /// writes go straight to RAM and reach no mapped register.
    fn stack_push(&mut self, val: u8)
        requires
            old(self).wf(),
        ensures
            final(self).wf(),
            final(self).memory.buffer@ == old(self).memory.buffer@.update(
                spec_stack_addr(old(self).registers.stack_pointer),
                val,
            ),
            spec_mem_nonbuffer_unchanged(old(self).memory, final(self).memory),
            final(self).registers == (Registers {
                stack_pointer: vstd::wrapping::u8_specs::wrapping_sub(
                    old(self).registers.stack_pointer,
                    1,
                ),
                ..old(self).registers
            }),
            final(self).num_cycles == old(self).num_cycles,
            final(self).memory.ppu.regs.num_cycles == old(self).memory.ppu.regs.num_cycles,
    {
        let stack_addr: u16 = 0x0100 + self.registers.stack_pointer as u16;
        self.memory.buffer[stack_addr as usize] = val;
        self.registers.stack_pointer = self.registers.stack_pointer.wrapping_sub(1);
    }

    /// Increments SP with wrap, then reads the byte at $0100 + SP.
    fn stack_pop(&mut self) -> (r: u8)
        requires
            old(self).wf(),
        ensures
            final(self).wf(),
            final(self).registers == (Registers {
                stack_pointer: vstd::wrapping::u8_specs::wrapping_add(
                    old(self).registers.stack_pointer,
                    1,
                ),
                ..old(self).registers
            }),
            r == old(self).memory.buffer@[spec_stack_addr(final(self).registers.stack_pointer)],
            spec_mem_unchanged(old(self).memory, final(self).memory),
            final(self).num_cycles == old(self).num_cycles,
            final(self).memory.ppu.regs.num_cycles == old(self).memory.ppu.regs.num_cycles,
    {
        self.registers.stack_pointer = self.registers.stack_pointer.wrapping_add(1);
        let stack_addr: u16 = 0x0100 + self.registers.stack_pointer as u16;
        self.memory.buffer[stack_addr as usize]
    }

    /// Little-endian 16-bit read at `addr` and `addr + 1` (wrapping).
    fn fetch_u16(&mut self, addr: u16) -> (r: u16)
        requires
            old(self).wf(),
        ensures
            final(self).wf(),
            r == spec_read_value(old(self).memory, addr) + spec_read2_value(
                old(self).memory,
                addr,
                vstd::wrapping::u16_specs::wrapping_add(addr, 1),
            ) * 256,
            spec_read2_rel(
                old(self).memory,
                final(self).memory,
                addr,
                vstd::wrapping::u16_specs::wrapping_add(addr, 1),
            ),
            (!spec_is_mmio(addr) && !spec_is_mmio(
                vstd::wrapping::u16_specs::wrapping_add(addr, 1),
            )) ==> *final(self) == *old(self),
            final(self).registers == old(self).registers,
            final(self).num_cycles == old(self).num_cycles,
            final(self).memory.ppu.regs.num_cycles == old(self).memory.ppu.regs.num_cycles,
    {
        let lo = self.memory.fetch_absolute(addr);
        let hi = self.memory.fetch_absolute(addr.wrapping_add(1));
        proof {
            if !spec_is_mmio(addr) && !spec_is_mmio(
                vstd::wrapping::u16_specs::wrapping_add(addr, 1),
            ) {
                assert(*self == *old(self));
            }
        }
        lo as u16 + (hi as u16) * 256
    }

    /// ADC immediate; the flag rule is `spec_adc_regs`.
    pub fn adc_immediate(&mut self, value: u8) -> (cycles: u8)
        requires
            old(self).wf(),
        ensures
            final(self).wf(),
            final(self).registers == spec_adc_regs(old(self).registers, value),
            spec_mem_unchanged(old(self).memory, final(self).memory),
            final(self).num_cycles == old(self).num_cycles,
            final(self).memory.ppu.regs.num_cycles == old(self).memory.ppu.regs.num_cycles,
            cycles == 2,
    {
        let a = self.registers.accumulator;
        let carry = self.registers.get_carry();
        let total: u16 = a as u16 + value as u16 + carry as u16;
        let result: u8 = (total % 256) as u8;

        if (a ^ result) & (value ^ result) & 0x80 != 0 {
            self.registers.set_overflow();
        } else {
            self.registers.unset_overflow();
        }

        if total > 0xFF {
            self.registers.set_carry();
        } else {
            self.registers.unset_carry();
        }

        self.registers.accumulator = result;
        self.update_zero_negative_flags(result);

        2
    }

    /// SBC immediate: ADC of the complemented operand.
    pub fn sbc_immediate(&mut self, value: u8) -> (cycles: u8)
        requires
            old(self).wf(),
        ensures
            final(self).wf(),
            final(self).registers == spec_sbc_regs(old(self).registers, value),
            spec_mem_unchanged(old(self).memory, final(self).memory),
            final(self).num_cycles == old(self).num_cycles,
            final(self).memory.ppu.regs.num_cycles == old(self).memory.ppu.regs.num_cycles,
            cycles == 2,
    {
        self.adc_immediate(!value);

        2
    }

    /// USBC (unofficial): identical to SBC immediate.
    pub fn usbc(&mut self, val: u8) -> (cycles: u8)
        requires
            old(self).wf(),
        ensures
            final(self).wf(),
            final(self).registers == spec_sbc_regs(old(self).registers, val),
            spec_mem_unchanged(old(self).memory, final(self).memory),
            final(self).num_cycles == old(self).num_cycles,
            final(self).memory.ppu.regs.num_cycles == old(self).memory.ppu.regs.num_cycles,
            cycles == 2,
    {
        self.sbc_immediate(val);

        2
    }

    /// CMP immediate; only flags change, per `spec_compare_p`.
    pub fn cmp_immediate(&mut self, value: u8) -> (cycles: u8)
        requires
            old(self).wf(),
        ensures
            final(self).wf(),
            final(self).registers == spec_cmp_regs(old(self).registers, value),
            spec_mem_unchanged(old(self).memory, final(self).memory),
            final(self).num_cycles == old(self).num_cycles,
            final(self).memory.ppu.regs.num_cycles == old(self).memory.ppu.regs.num_cycles,
            cycles == 2,
    {
        if self.registers.accumulator == value {
            self.registers.set_zero();
        } else {
            self.registers.unset_zero();
        }
        if self.registers.accumulator >= value {
            self.registers.set_carry();
        } else {
            self.registers.unset_carry();
        }

        let result = self.registers.accumulator.wrapping_sub(value);

        if result & 0b1000_0000 != 0 {
            self.registers.set_neg();
        } else {
            self.registers.unset_neg();
        }

        2
    }

    /// CPX immediate.
    pub fn cpx_immediate(&mut self, value: u8) -> (cycles: u8)
        requires
            old(self).wf(),
        ensures
            final(self).wf(),
            final(self).registers == spec_cpx_regs(old(self).registers, value),
            spec_mem_unchanged(old(self).memory, final(self).memory),
            final(self).num_cycles == old(self).num_cycles,
            final(self).memory.ppu.regs.num_cycles == old(self).memory.ppu.regs.num_cycles,
            cycles == 2,
    {
        if self.registers.index_x == value {
            self.registers.set_zero();
        } else {
            self.registers.unset_zero();
        }
        if self.registers.index_x >= value {
            self.registers.set_carry();
        } else {
            self.registers.unset_carry();
        }

        let result = self.registers.index_x.wrapping_sub(value);

        if result & 0b1000_0000 != 0 {
            self.registers.set_neg();
        } else {
            self.registers.unset_neg();
        }

        2
    }

    /// CPY immediate.
    pub fn cpy_immediate(&mut self, value: u8) -> (cycles: u8)
        requires
            old(self).wf(),
        ensures
            final(self).wf(),
            final(self).registers == spec_cpy_regs(old(self).registers, value),
            spec_mem_unchanged(old(self).memory, final(self).memory),
            final(self).num_cycles == old(self).num_cycles,
            final(self).memory.ppu.regs.num_cycles == old(self).memory.ppu.regs.num_cycles,
            cycles == 2,
    {
        if self.registers.index_y == value {
            self.registers.set_zero();
        } else {
            self.registers.unset_zero();
        }
        if self.registers.index_y >= value {
            self.registers.set_carry();
        } else {
            self.registers.unset_carry();
        }

        let result = self.registers.index_y.wrapping_sub(value);

        if result & 0b1000_0000 != 0 {
            self.registers.set_neg();
        } else {
            self.registers.unset_neg();
        }

        2
    }

    /// AND immediate.
    pub fn and_immediate(&mut self, value: u8) -> (cycles: u8)
        requires
            old(self).wf(),
        ensures
            final(self).wf(),
            final(self).registers == spec_and_regs(old(self).registers, value),
            spec_mem_unchanged(old(self).memory, final(self).memory),
            final(self).num_cycles == old(self).num_cycles,
            final(self).memory.ppu.regs.num_cycles == old(self).memory.ppu.regs.num_cycles,
            cycles == 2,
    {
        self.registers.accumulator = self.registers.accumulator & value;

        let a = self.registers.accumulator;
        self.update_zero_negative_flags(a);

        2
    }

    /// EOR immediate.
    pub fn eor_immediate(&mut self, value: u8) -> (cycles: u8)
        requires
            old(self).wf(),
        ensures
            final(self).wf(),
            final(self).registers == spec_eor_regs(old(self).registers, value),
            spec_mem_unchanged(old(self).memory, final(self).memory),
            final(self).num_cycles == old(self).num_cycles,
            final(self).memory.ppu.regs.num_cycles == old(self).memory.ppu.regs.num_cycles,
            cycles == 2,
    {
        self.registers.accumulator = self.registers.accumulator ^ value;

        let a = self.registers.accumulator;
        self.update_zero_negative_flags(a);

        2
    }

    /// ORA immediate.
    pub fn ora_immediate(&mut self, value: u8) -> (cycles: u8)
        requires
            old(self).wf(),
        ensures
            final(self).wf(),
            final(self).registers == spec_ora_regs(old(self).registers, value),
            spec_mem_unchanged(old(self).memory, final(self).memory),
            final(self).num_cycles == old(self).num_cycles,
            final(self).memory.ppu.regs.num_cycles == old(self).memory.ppu.regs.num_cycles,
            cycles == 2,
    {
        self.registers.accumulator = self.registers.accumulator | value;

        let a = self.registers.accumulator;
        self.update_zero_negative_flags(a);

        2
    }

    /// LDA immediate.
    pub fn lda_immediate(&mut self, value: u8) -> (cycles: u8)
        requires
            old(self).wf(),
        ensures
            final(self).wf(),
            final(self).registers == spec_lda_regs(old(self).registers, value),
            spec_mem_unchanged(old(self).memory, final(self).memory),
            final(self).num_cycles == old(self).num_cycles,
            final(self).memory.ppu.regs.num_cycles == old(self).memory.ppu.regs.num_cycles,
            cycles == 2,
    {
        self.registers.accumulator = value;
        self.update_zero_negative_flags(value);

        2
    }

    /// LDX immediate.
    pub fn ldx_immediate(&mut self, value: u8) -> (cycles: u8)
        requires
            old(self).wf(),
        ensures
            final(self).wf(),
            final(self).registers == spec_ldx_regs(old(self).registers, value),
            spec_mem_unchanged(old(self).memory, final(self).memory),
            final(self).num_cycles == old(self).num_cycles,
            final(self).memory.ppu.regs.num_cycles == old(self).memory.ppu.regs.num_cycles,
            cycles == 2,
    {
        self.registers.index_x = value;
        self.update_zero_negative_flags(value);

        2
    }

    /// LDY immediate.
    pub fn ldy_immediate(&mut self, value: u8) -> (cycles: u8)
        requires
            old(self).wf(),
        ensures
            final(self).wf(),
            final(self).registers == spec_ldy_regs(old(self).registers, value),
            spec_mem_unchanged(old(self).memory, final(self).memory),
            final(self).num_cycles == old(self).num_cycles,
            final(self).memory.ppu.regs.num_cycles == old(self).memory.ppu.regs.num_cycles,
            cycles == 2,
    {
        self.registers.index_y = value;
        self.update_zero_negative_flags(value);

        2
    }

    /// The shared BIT flag update on a fetched operand.
    fn bit_immediate(&mut self, value: u8)
        requires
            old(self).wf(),
        ensures
            final(self).wf(),
            final(self).registers == spec_bit_regs(old(self).registers, value),
            spec_mem_unchanged(old(self).memory, final(self).memory),
            final(self).num_cycles == old(self).num_cycles,
            final(self).memory.ppu.regs.num_cycles == old(self).memory.ppu.regs.num_cycles,
    {
        let result = self.registers.accumulator & value;

        if result == 0 {
            self.registers.set_zero();
        } else {
            self.registers.unset_zero();
        }

        if value & 0b1000_0000 != 0 {
            self.registers.set_neg();
        } else {
            self.registers.unset_neg();
        }

        if value & 0b0100_0000 != 0 {
            self.registers.set_overflow();
        } else {
            self.registers.unset_overflow();
        }
    }

    /// ADC - add the operand and the carry into the accumulator.
    pub fn adc_zero_page(&mut self, addr_lower_byte: u8) -> (cycles: u8)
        requires
            old(self).wf(),
        ensures
            final(self).wf(),
            final(self).registers == spec_adc_regs(old(self).registers, old(self).memory.buffer@[addr_lower_byte as int]),
            spec_mem_unchanged(old(self).memory, final(self).memory),
            final(self).num_cycles == old(self).num_cycles,
            final(self).memory.ppu.regs.num_cycles == old(self).memory.ppu.regs.num_cycles,
            cycles == 3,
    {
        let value = self.memory.fetch_zero_page(addr_lower_byte);
        self.adc_immediate(value);

        3
    }

    /// ADC - add the operand and the carry into the accumulator.
    pub fn adc_zero_page_x(&mut self, addr_lower_byte: u8) -> (cycles: u8)
        requires
            old(self).wf(),
        ensures
            final(self).wf(),
            final(self).registers == spec_adc_regs(old(self).registers, old(self).memory.buffer@[spec_zp_x_ea(addr_lower_byte, old(self).registers.index_x) as int]),
            spec_mem_unchanged(old(self).memory, final(self).memory),
            final(self).num_cycles == old(self).num_cycles,
            final(self).memory.ppu.regs.num_cycles == old(self).memory.ppu.regs.num_cycles,
            cycles == 4,
    {
        let value = self.memory.fetch_zero_page_x(addr_lower_byte, self.registers.index_x);
        self.adc_immediate(value);

        4
    }

    /// ADC - add the operand and the carry into the accumulator.
    pub fn adc_absolute(&mut self, address: u16) -> (cycles: u8)
        requires
            old(self).wf(),
        ensures
            final(self).wf(),
            final(self).registers == spec_adc_regs(old(self).registers, spec_read_value(old(self).memory, address)),
            spec_read_rel(old(self).memory, final(self).memory, address),
            final(self).num_cycles == old(self).num_cycles,
            final(self).memory.ppu.regs.num_cycles == old(self).memory.ppu.regs.num_cycles,
            cycles == 4,
    {
        let value = self.memory.fetch_absolute(address);
        self.adc_immediate(value);

        4
    }

    /// ADC - add the operand and the carry into the accumulator.
    pub fn adc_absolute_x(&mut self, address: u16) -> (cycles: u8)
        requires
            old(self).wf(),
        ensures
            final(self).wf(),
            final(self).registers == spec_adc_regs(old(self).registers, spec_read_value(old(self).memory, spec_abs_x_ea(address, old(self).registers.index_x))),
            spec_read_rel(old(self).memory, final(self).memory, spec_abs_x_ea(address, old(self).registers.index_x)),
            final(self).num_cycles == old(self).num_cycles,
            final(self).memory.ppu.regs.num_cycles == old(self).memory.ppu.regs.num_cycles,
            cycles == 4,
    {
        let value = self.memory.fetch_absolute_x(address, self.registers.index_x);
        self.adc_immediate(value);

        4
    }

    /// ADC - add the operand and the carry into the accumulator.
    pub fn adc_absolute_y(&mut self, address: u16) -> (cycles: u8)
        requires
            old(self).wf(),
        ensures
            final(self).wf(),
            final(self).registers == spec_adc_regs(old(self).registers, spec_read_value(old(self).memory, spec_abs_x_ea(address, old(self).registers.index_y))),
            spec_read_rel(old(self).memory, final(self).memory, spec_abs_x_ea(address, old(self).registers.index_y)),
            final(self).num_cycles == old(self).num_cycles,
            final(self).memory.ppu.regs.num_cycles == old(self).memory.ppu.regs.num_cycles,
            cycles == 4,
    {
        let value = self.memory.fetch_absolute_x(address, self.registers.index_y);
        self.adc_immediate(value);

        4
    }

    /// ADC - add the operand and the carry into the accumulator.
    pub fn adc_indirect_x(&mut self, addr_lower_byte: u8) -> (cycles: u8)
        requires
            old(self).wf(),
        ensures
            final(self).wf(),
            final(self).registers == spec_adc_regs(old(self).registers, spec_read_value(old(self).memory, spec_ind_x_ea(old(self).memory.buffer@, addr_lower_byte, old(self).registers.index_x))),
            spec_read_rel(old(self).memory, final(self).memory, spec_ind_x_ea(old(self).memory.buffer@, addr_lower_byte, old(self).registers.index_x)),
            final(self).num_cycles == old(self).num_cycles,
            final(self).memory.ppu.regs.num_cycles == old(self).memory.ppu.regs.num_cycles,
            cycles == 6,
    {
        let value = self.memory.fetch_indirect_x(addr_lower_byte, self.registers.index_x);
        self.adc_immediate(value);

        6
    }

    /// ADC - add the operand and the carry into the accumulator.
    pub fn adc_indirect_y(&mut self, addr_lower_byte: u8) -> (cycles: u8)
        requires
            old(self).wf(),
        ensures
            final(self).wf(),
            final(self).registers == spec_adc_regs(old(self).registers, spec_read_value(old(self).memory, spec_ind_y_ea(old(self).memory.buffer@, addr_lower_byte, old(self).registers.index_y))),
            spec_read_rel(old(self).memory, final(self).memory, spec_ind_y_ea(old(self).memory.buffer@, addr_lower_byte, old(self).registers.index_y)),
            final(self).num_cycles == old(self).num_cycles,
            final(self).memory.ppu.regs.num_cycles == old(self).memory.ppu.regs.num_cycles,
            cycles == 5,
    {
        let value = self.memory.fetch_indirect_y(addr_lower_byte, self.registers.index_y);
        self.adc_immediate(value);

        5
    }

    /// SBC - subtract the operand and the borrow from the accumulator.
    pub fn sbc_zero_page(&mut self, addr_lower_byte: u8) -> (cycles: u8)
        requires
            old(self).wf(),
        ensures
            final(self).wf(),
            final(self).registers == spec_sbc_regs(old(self).registers, old(self).memory.buffer@[addr_lower_byte as int]),
            spec_mem_unchanged(old(self).memory, final(self).memory),
            final(self).num_cycles == old(self).num_cycles,
            final(self).memory.ppu.regs.num_cycles == old(self).memory.ppu.regs.num_cycles,
            cycles == 3,
    {
        let value = self.memory.fetch_zero_page(addr_lower_byte);
        self.sbc_immediate(value);

        3
    }

    /// SBC - subtract the operand and the borrow from the accumulator.
    pub fn sbc_zero_page_x(&mut self, addr_lower_byte: u8) -> (cycles: u8)
        requires
            old(self).wf(),
        ensures
            final(self).wf(),
            final(self).registers == spec_sbc_regs(old(self).registers, old(self).memory.buffer@[spec_zp_x_ea(addr_lower_byte, old(self).registers.index_x) as int]),
            spec_mem_unchanged(old(self).memory, final(self).memory),
            final(self).num_cycles == old(self).num_cycles,
            final(self).memory.ppu.regs.num_cycles == old(self).memory.ppu.regs.num_cycles,
            cycles == 4,
    {
        let value = self.memory.fetch_zero_page_x(addr_lower_byte, self.registers.index_x);
        self.sbc_immediate(value);

        4
    }

    /// SBC - subtract the operand and the borrow from the accumulator.
    pub fn sbc_absolute(&mut self, address: u16) -> (cycles: u8)
        requires
            old(self).wf(),
        ensures
            final(self).wf(),
            final(self).registers == spec_sbc_regs(old(self).registers, spec_read_value(old(self).memory, address)),
            spec_read_rel(old(self).memory, final(self).memory, address),
            final(self).num_cycles == old(self).num_cycles,
            final(self).memory.ppu.regs.num_cycles == old(self).memory.ppu.regs.num_cycles,
            cycles == 4,
    {
        let value = self.memory.fetch_absolute(address);
        self.sbc_immediate(value);

        4
    }

    /// SBC - subtract the operand and the borrow from the accumulator.
    pub fn sbc_absolute_x(&mut self, address: u16) -> (cycles: u8)
        requires
            old(self).wf(),
        ensures
            final(self).wf(),
            final(self).registers == spec_sbc_regs(old(self).registers, spec_read_value(old(self).memory, spec_abs_x_ea(address, old(self).registers.index_x))),
            spec_read_rel(old(self).memory, final(self).memory, spec_abs_x_ea(address, old(self).registers.index_x)),
            final(self).num_cycles == old(self).num_cycles,
            final(self).memory.ppu.regs.num_cycles == old(self).memory.ppu.regs.num_cycles,
            cycles == 4,
    {
        let value = self.memory.fetch_absolute_x(address, self.registers.index_x);
        self.sbc_immediate(value);

        4
    }

    /// SBC - subtract the operand and the borrow from the accumulator.
    pub fn sbc_absolute_y(&mut self, address: u16) -> (cycles: u8)
        requires
            old(self).wf(),
        ensures
            final(self).wf(),
            final(self).registers == spec_sbc_regs(old(self).registers, spec_read_value(old(self).memory, spec_abs_x_ea(address, old(self).registers.index_y))),
            spec_read_rel(old(self).memory, final(self).memory, spec_abs_x_ea(address, old(self).registers.index_y)),
            final(self).num_cycles == old(self).num_cycles,
            final(self).memory.ppu.regs.num_cycles == old(self).memory.ppu.regs.num_cycles,
            cycles == 4,
    {
        let value = self.memory.fetch_absolute_x(address, self.registers.index_y);
        self.sbc_immediate(value);

        4
    }

    /// SBC - subtract the operand and the borrow from the accumulator.
    pub fn sbc_indirect_x(&mut self, addr_lower_byte: u8) -> (cycles: u8)
        requires
            old(self).wf(),
        ensures
            final(self).wf(),
            final(self).registers == spec_sbc_regs(old(self).registers, spec_read_value(old(self).memory, spec_ind_x_ea(old(self).memory.buffer@, addr_lower_byte, old(self).registers.index_x))),
            spec_read_rel(old(self).memory, final(self).memory, spec_ind_x_ea(old(self).memory.buffer@, addr_lower_byte, old(self).registers.index_x)),
            final(self).num_cycles == old(self).num_cycles,
            final(self).memory.ppu.regs.num_cycles == old(self).memory.ppu.regs.num_cycles,
            cycles == 6,
    {
        let value = self.memory.fetch_indirect_x(addr_lower_byte, self.registers.index_x);
        self.sbc_immediate(value);

        6
    }

    /// SBC - subtract the operand and the borrow from the accumulator.
    pub fn sbc_indirect_y(&mut self, addr_lower_byte: u8) -> (cycles: u8)
        requires
            old(self).wf(),
        ensures
            final(self).wf(),
            final(self).registers == spec_sbc_regs(old(self).registers, spec_read_value(old(self).memory, spec_ind_y_ea(old(self).memory.buffer@, addr_lower_byte, old(self).registers.index_y))),
            spec_read_rel(old(self).memory, final(self).memory, spec_ind_y_ea(old(self).memory.buffer@, addr_lower_byte, old(self).registers.index_y)),
            final(self).num_cycles == old(self).num_cycles,
            final(self).memory.ppu.regs.num_cycles == old(self).memory.ppu.regs.num_cycles,
            cycles == 5,
    {
        let value = self.memory.fetch_indirect_y(addr_lower_byte, self.registers.index_y);
        self.sbc_immediate(value);

        5
    }

    /// CMP - compare the accumulator with the operand.
    pub fn cmp_zero_page(&mut self, addr_lower_byte: u8) -> (cycles: u8)
        requires
            old(self).wf(),
        ensures
            final(self).wf(),
            final(self).registers == spec_cmp_regs(old(self).registers, old(self).memory.buffer@[addr_lower_byte as int]),
            spec_mem_unchanged(old(self).memory, final(self).memory),
            final(self).num_cycles == old(self).num_cycles,
            final(self).memory.ppu.regs.num_cycles == old(self).memory.ppu.regs.num_cycles,
            cycles == 3,
    {
        let value = self.memory.fetch_zero_page(addr_lower_byte);
        self.cmp_immediate(value);

        3
    }

    /// CMP - compare the accumulator with the operand.
    pub fn cmp_zero_page_x(&mut self, addr_lower_byte: u8) -> (cycles: u8)
        requires
            old(self).wf(),
        ensures
            final(self).wf(),
            final(self).registers == spec_cmp_regs(old(self).registers, old(self).memory.buffer@[spec_zp_x_ea(addr_lower_byte, old(self).registers.index_x) as int]),
            spec_mem_unchanged(old(self).memory, final(self).memory),
            final(self).num_cycles == old(self).num_cycles,
            final(self).memory.ppu.regs.num_cycles == old(self).memory.ppu.regs.num_cycles,
            cycles == 4,
    {
        let value = self.memory.fetch_zero_page_x(addr_lower_byte, self.registers.index_x);
        self.cmp_immediate(value);

        4
    }

    /// CMP - compare the accumulator with the operand.
    pub fn cmp_absolute(&mut self, address: u16) -> (cycles: u8)
        requires
            old(self).wf(),
        ensures
            final(self).wf(),
            final(self).registers == spec_cmp_regs(old(self).registers, spec_read_value(old(self).memory, address)),
            spec_read_rel(old(self).memory, final(self).memory, address),
            final(self).num_cycles == old(self).num_cycles,
            final(self).memory.ppu.regs.num_cycles == old(self).memory.ppu.regs.num_cycles,
            cycles == 4,
    {
        let value = self.memory.fetch_absolute(address);
        self.cmp_immediate(value);

        4
    }

    /// CMP - compare the accumulator with the operand.
    pub fn cmp_absolute_x(&mut self, address: u16) -> (cycles: u8)
        requires
            old(self).wf(),
        ensures
            final(self).wf(),
            final(self).registers == spec_cmp_regs(old(self).registers, spec_read_value(old(self).memory, spec_abs_x_ea(address, old(self).registers.index_x))),
            spec_read_rel(old(self).memory, final(self).memory, spec_abs_x_ea(address, old(self).registers.index_x)),
            final(self).num_cycles == old(self).num_cycles,
            final(self).memory.ppu.regs.num_cycles == old(self).memory.ppu.regs.num_cycles,
            cycles == 4,
    {
        let value = self.memory.fetch_absolute_x(address, self.registers.index_x);
        self.cmp_immediate(value);

        4
    }

    /// CMP - compare the accumulator with the operand.
    pub fn cmp_absolute_y(&mut self, address: u16) -> (cycles: u8)
        requires
            old(self).wf(),
        ensures
            final(self).wf(),
            final(self).registers == spec_cmp_regs(old(self).registers, spec_read_value(old(self).memory, spec_abs_x_ea(address, old(self).registers.index_y))),
            spec_read_rel(old(self).memory, final(self).memory, spec_abs_x_ea(address, old(self).registers.index_y)),
            final(self).num_cycles == old(self).num_cycles,
            final(self).memory.ppu.regs.num_cycles == old(self).memory.ppu.regs.num_cycles,
            cycles == 4,
    {
        let value = self.memory.fetch_absolute_x(address, self.registers.index_y);
        self.cmp_immediate(value);

        4
    }

    /// CMP - compare the accumulator with the operand.
    pub fn cmp_indirect_x(&mut self, addr_lower_byte: u8) -> (cycles: u8)
        requires
            old(self).wf(),
        ensures
            final(self).wf(),
            final(self).registers == spec_cmp_regs(old(self).registers, spec_read_value(old(self).memory, spec_ind_x_ea(old(self).memory.buffer@, addr_lower_byte, old(self).registers.index_x))),
            spec_read_rel(old(self).memory, final(self).memory, spec_ind_x_ea(old(self).memory.buffer@, addr_lower_byte, old(self).registers.index_x)),
            final(self).num_cycles == old(self).num_cycles,
            final(self).memory.ppu.regs.num_cycles == old(self).memory.ppu.regs.num_cycles,
            cycles == 6,
    {
        let value = self.memory.fetch_indirect_x(addr_lower_byte, self.registers.index_x);
        self.cmp_immediate(value);

        6
    }

    /// CMP - compare the accumulator with the operand.
    pub fn cmp_indirect_y(&mut self, addr_lower_byte: u8) -> (cycles: u8)
        requires
            old(self).wf(),
        ensures
            final(self).wf(),
            final(self).registers == spec_cmp_regs(old(self).registers, spec_read_value(old(self).memory, spec_ind_y_ea(old(self).memory.buffer@, addr_lower_byte, old(self).registers.index_y))),
            spec_read_rel(old(self).memory, final(self).memory, spec_ind_y_ea(old(self).memory.buffer@, addr_lower_byte, old(self).registers.index_y)),
            final(self).num_cycles == old(self).num_cycles,
            final(self).memory.ppu.regs.num_cycles == old(self).memory.ppu.regs.num_cycles,
            cycles == 5,
    {
        let value = self.memory.fetch_indirect_y(addr_lower_byte, self.registers.index_y);
        self.cmp_immediate(value);

        5
    }

    /// CPX - compare X with the operand.
    pub fn cpx_zero_page(&mut self, addr_lower_byte: u8) -> (cycles: u8)
        requires
            old(self).wf(),
        ensures
            final(self).wf(),
            final(self).registers == spec_cpx_regs(old(self).registers, old(self).memory.buffer@[addr_lower_byte as int]),
            spec_mem_unchanged(old(self).memory, final(self).memory),
            final(self).num_cycles == old(self).num_cycles,
            final(self).memory.ppu.regs.num_cycles == old(self).memory.ppu.regs.num_cycles,
            cycles == 3,
    {
        let value = self.memory.fetch_zero_page(addr_lower_byte);
        self.cpx_immediate(value);

        3
    }

    /// CPX - compare X with the operand.
    pub fn cpx_absolute(&mut self, address: u16) -> (cycles: u8)
        requires
            old(self).wf(),
        ensures
            final(self).wf(),
            final(self).registers == spec_cpx_regs(old(self).registers, spec_read_value(old(self).memory, address)),
            spec_read_rel(old(self).memory, final(self).memory, address),
            final(self).num_cycles == old(self).num_cycles,
            final(self).memory.ppu.regs.num_cycles == old(self).memory.ppu.regs.num_cycles,
            cycles == 4,
    {
        let value = self.memory.fetch_absolute(address);
        self.cpx_immediate(value);

        4
    }

    /// CPY - compare Y with the operand.
    pub fn cpy_zero_page(&mut self, addr_lower_byte: u8) -> (cycles: u8)
        requires
            old(self).wf(),
        ensures
            final(self).wf(),
            final(self).registers == spec_cpy_regs(old(self).registers, old(self).memory.buffer@[addr_lower_byte as int]),
            spec_mem_unchanged(old(self).memory, final(self).memory),
            final(self).num_cycles == old(self).num_cycles,
            final(self).memory.ppu.regs.num_cycles == old(self).memory.ppu.regs.num_cycles,
            cycles == 3,
    {
        let value = self.memory.fetch_zero_page(addr_lower_byte);
        self.cpy_immediate(value);

        3
    }

    /// CPY - compare Y with the operand.
    pub fn cpy_absolute(&mut self, address: u16) -> (cycles: u8)
        requires
            old(self).wf(),
        ensures
            final(self).wf(),
            final(self).registers == spec_cpy_regs(old(self).registers, spec_read_value(old(self).memory, address)),
            spec_read_rel(old(self).memory, final(self).memory, address),
            final(self).num_cycles == old(self).num_cycles,
            final(self).memory.ppu.regs.num_cycles == old(self).memory.ppu.regs.num_cycles,
            cycles == 4,
    {
        let value = self.memory.fetch_absolute(address);
        self.cpy_immediate(value);

        4
    }

    /// AND - bitwise AND the operand into the accumulator.
    pub fn and_zero_page(&mut self, addr_lower_byte: u8) -> (cycles: u8)
        requires
            old(self).wf(),
        ensures
            final(self).wf(),
            final(self).registers == spec_and_regs(old(self).registers, old(self).memory.buffer@[addr_lower_byte as int]),
            spec_mem_unchanged(old(self).memory, final(self).memory),
            final(self).num_cycles == old(self).num_cycles,
            final(self).memory.ppu.regs.num_cycles == old(self).memory.ppu.regs.num_cycles,
            cycles == 3,
    {
        let value = self.memory.fetch_zero_page(addr_lower_byte);
        self.and_immediate(value);

        3
    }

    /// AND - bitwise AND the operand into the accumulator.
    pub fn and_zero_page_x(&mut self, addr_lower_byte: u8) -> (cycles: u8)
        requires
            old(self).wf(),
        ensures
            final(self).wf(),
            final(self).registers == spec_and_regs(old(self).registers, old(self).memory.buffer@[spec_zp_x_ea(addr_lower_byte, old(self).registers.index_x) as int]),
            spec_mem_unchanged(old(self).memory, final(self).memory),
            final(self).num_cycles == old(self).num_cycles,
            final(self).memory.ppu.regs.num_cycles == old(self).memory.ppu.regs.num_cycles,
            cycles == 4,
    {
        let value = self.memory.fetch_zero_page_x(addr_lower_byte, self.registers.index_x);
        self.and_immediate(value);

        4
    }

    /// AND - bitwise AND the operand into the accumulator.
    pub fn and_absolute(&mut self, address: u16) -> (cycles: u8)
        requires
            old(self).wf(),
        ensures
            final(self).wf(),
            final(self).registers == spec_and_regs(old(self).registers, spec_read_value(old(self).memory, address)),
            spec_read_rel(old(self).memory, final(self).memory, address),
            final(self).num_cycles == old(self).num_cycles,
            final(self).memory.ppu.regs.num_cycles == old(self).memory.ppu.regs.num_cycles,
            cycles == 4,
    {
        let value = self.memory.fetch_absolute(address);
        self.and_immediate(value);

        4
    }

    /// AND - bitwise AND the operand into the accumulator.
    pub fn and_absolute_x(&mut self, address: u16) -> (cycles: u8)
        requires
            old(self).wf(),
        ensures
            final(self).wf(),
            final(self).registers == spec_and_regs(old(self).registers, spec_read_value(old(self).memory, spec_abs_x_ea(address, old(self).registers.index_x))),
            spec_read_rel(old(self).memory, final(self).memory, spec_abs_x_ea(address, old(self).registers.index_x)),
            final(self).num_cycles == old(self).num_cycles,
            final(self).memory.ppu.regs.num_cycles == old(self).memory.ppu.regs.num_cycles,
            cycles == 4,
    {
        let value = self.memory.fetch_absolute_x(address, self.registers.index_x);
        self.and_immediate(value);

        4
    }

    /// AND - bitwise AND the operand into the accumulator.
    pub fn and_absolute_y(&mut self, address: u16) -> (cycles: u8)
        requires
            old(self).wf(),
        ensures
            final(self).wf(),
            final(self).registers == spec_and_regs(old(self).registers, spec_read_value(old(self).memory, spec_abs_x_ea(address, old(self).registers.index_y))),
            spec_read_rel(old(self).memory, final(self).memory, spec_abs_x_ea(address, old(self).registers.index_y)),
            final(self).num_cycles == old(self).num_cycles,
            final(self).memory.ppu.regs.num_cycles == old(self).memory.ppu.regs.num_cycles,
            cycles == 4,
    {
        let value = self.memory.fetch_absolute_x(address, self.registers.index_y);
        self.and_immediate(value);

        4
    }

    /// AND - bitwise AND the operand into the accumulator.
    pub fn and_indirect_x(&mut self, addr_lower_byte: u8) -> (cycles: u8)
        requires
            old(self).wf(),
        ensures
            final(self).wf(),
            final(self).registers == spec_and_regs(old(self).registers, spec_read_value(old(self).memory, spec_ind_x_ea(old(self).memory.buffer@, addr_lower_byte, old(self).registers.index_x))),
            spec_read_rel(old(self).memory, final(self).memory, spec_ind_x_ea(old(self).memory.buffer@, addr_lower_byte, old(self).registers.index_x)),
            final(self).num_cycles == old(self).num_cycles,
            final(self).memory.ppu.regs.num_cycles == old(self).memory.ppu.regs.num_cycles,
            cycles == 6,
    {
        let value = self.memory.fetch_indirect_x(addr_lower_byte, self.registers.index_x);
        self.and_immediate(value);

        6
    }

    /// AND - bitwise AND the operand into the accumulator.
    pub fn and_indirect_y(&mut self, addr_lower_byte: u8) -> (cycles: u8)
        requires
            old(self).wf(),
        ensures
            final(self).wf(),
            final(self).registers == spec_and_regs(old(self).registers, spec_read_value(old(self).memory, spec_ind_y_ea(old(self).memory.buffer@, addr_lower_byte, old(self).registers.index_y))),
            spec_read_rel(old(self).memory, final(self).memory, spec_ind_y_ea(old(self).memory.buffer@, addr_lower_byte, old(self).registers.index_y)),
            final(self).num_cycles == old(self).num_cycles,
            final(self).memory.ppu.regs.num_cycles == old(self).memory.ppu.regs.num_cycles,
            cycles == 5,
    {
        let value = self.memory.fetch_indirect_y(addr_lower_byte, self.registers.index_y);
        self.and_immediate(value);

        5
    }

    /// EOR - bitwise exclusive-or the operand into the accumulator.
    pub fn eor_zero_page(&mut self, addr_lower_byte: u8) -> (cycles: u8)
        requires
            old(self).wf(),
        ensures
            final(self).wf(),
            final(self).registers == spec_eor_regs(old(self).registers, old(self).memory.buffer@[addr_lower_byte as int]),
            spec_mem_unchanged(old(self).memory, final(self).memory),
            final(self).num_cycles == old(self).num_cycles,
            final(self).memory.ppu.regs.num_cycles == old(self).memory.ppu.regs.num_cycles,
            cycles == 3,
    {
        let value = self.memory.fetch_zero_page(addr_lower_byte);
        self.eor_immediate(value);

        3
    }

    /// EOR - bitwise exclusive-or the operand into the accumulator.
    pub fn eor_zero_page_x(&mut self, addr_lower_byte: u8) -> (cycles: u8)
        requires
            old(self).wf(),
        ensures
            final(self).wf(),
            final(self).registers == spec_eor_regs(old(self).registers, old(self).memory.buffer@[spec_zp_x_ea(addr_lower_byte, old(self).registers.index_x) as int]),
            spec_mem_unchanged(old(self).memory, final(self).memory),
            final(self).num_cycles == old(self).num_cycles,
            final(self).memory.ppu.regs.num_cycles == old(self).memory.ppu.regs.num_cycles,
            cycles == 4,
    {
        let value = self.memory.fetch_zero_page_x(addr_lower_byte, self.registers.index_x);
        self.eor_immediate(value);

        4
    }

    /// EOR - bitwise exclusive-or the operand into the accumulator.
    pub fn eor_absolute(&mut self, address: u16) -> (cycles: u8)
        requires
            old(self).wf(),
        ensures
            final(self).wf(),
            final(self).registers == spec_eor_regs(old(self).registers, spec_read_value(old(self).memory, address)),
            spec_read_rel(old(self).memory, final(self).memory, address),
            final(self).num_cycles == old(self).num_cycles,
            final(self).memory.ppu.regs.num_cycles == old(self).memory.ppu.regs.num_cycles,
            cycles == 4,
    {
        let value = self.memory.fetch_absolute(address);
        self.eor_immediate(value);

        4
    }

    /// EOR - bitwise exclusive-or the operand into the accumulator.
    pub fn eor_absolute_x(&mut self, address: u16) -> (cycles: u8)
        requires
            old(self).wf(),
        ensures
            final(self).wf(),
            final(self).registers == spec_eor_regs(old(self).registers, spec_read_value(old(self).memory, spec_abs_x_ea(address, old(self).registers.index_x))),
            spec_read_rel(old(self).memory, final(self).memory, spec_abs_x_ea(address, old(self).registers.index_x)),
            final(self).num_cycles == old(self).num_cycles,
            final(self).memory.ppu.regs.num_cycles == old(self).memory.ppu.regs.num_cycles,
            cycles == 4,
    {
        let value = self.memory.fetch_absolute_x(address, self.registers.index_x);
        self.eor_immediate(value);

        4
    }

    /// EOR - bitwise exclusive-or the operand into the accumulator.
    pub fn eor_absolute_y(&mut self, address: u16) -> (cycles: u8)
        requires
            old(self).wf(),
        ensures
            final(self).wf(),
            final(self).registers == spec_eor_regs(old(self).registers, spec_read_value(old(self).memory, spec_abs_x_ea(address, old(self).registers.index_y))),
            spec_read_rel(old(self).memory, final(self).memory, spec_abs_x_ea(address, old(self).registers.index_y)),
            final(self).num_cycles == old(self).num_cycles,
            final(self).memory.ppu.regs.num_cycles == old(self).memory.ppu.regs.num_cycles,
            cycles == 4,
    {
        let value = self.memory.fetch_absolute_x(address, self.registers.index_y);
        self.eor_immediate(value);

        4
    }

    /// EOR - bitwise exclusive-or the operand into the accumulator.
    pub fn eor_indirect_x(&mut self, addr_lower_byte: u8) -> (cycles: u8)
        requires
            old(self).wf(),
        ensures
            final(self).wf(),
            final(self).registers == spec_eor_regs(old(self).registers, spec_read_value(old(self).memory, spec_ind_x_ea(old(self).memory.buffer@, addr_lower_byte, old(self).registers.index_x))),
            spec_read_rel(old(self).memory, final(self).memory, spec_ind_x_ea(old(self).memory.buffer@, addr_lower_byte, old(self).registers.index_x)),
            final(self).num_cycles == old(self).num_cycles,
            final(self).memory.ppu.regs.num_cycles == old(self).memory.ppu.regs.num_cycles,
            cycles == 6,
    {
        let value = self.memory.fetch_indirect_x(addr_lower_byte, self.registers.index_x);
        self.eor_immediate(value);

        6
    }

    /// EOR - bitwise exclusive-or the operand into the accumulator.
    pub fn eor_indirect_y(&mut self, addr_lower_byte: u8) -> (cycles: u8)
        requires
            old(self).wf(),
        ensures
            final(self).wf(),
            final(self).registers == spec_eor_regs(old(self).registers, spec_read_value(old(self).memory, spec_ind_y_ea(old(self).memory.buffer@, addr_lower_byte, old(self).registers.index_y))),
            spec_read_rel(old(self).memory, final(self).memory, spec_ind_y_ea(old(self).memory.buffer@, addr_lower_byte, old(self).registers.index_y)),
            final(self).num_cycles == old(self).num_cycles,
            final(self).memory.ppu.regs.num_cycles == old(self).memory.ppu.regs.num_cycles,
            cycles == 5,
    {
        let value = self.memory.fetch_indirect_y(addr_lower_byte, self.registers.index_y);
        self.eor_immediate(value);

        5
    }

    /// ORA - bitwise OR the operand into the accumulator.
    pub fn ora_zero_page(&mut self, addr_lower_byte: u8) -> (cycles: u8)
        requires
            old(self).wf(),
        ensures
            final(self).wf(),
            final(self).registers == spec_ora_regs(old(self).registers, old(self).memory.buffer@[addr_lower_byte as int]),
            spec_mem_unchanged(old(self).memory, final(self).memory),
            final(self).num_cycles == old(self).num_cycles,
            final(self).memory.ppu.regs.num_cycles == old(self).memory.ppu.regs.num_cycles,
            cycles == 3,
    {
        let value = self.memory.fetch_zero_page(addr_lower_byte);
        self.ora_immediate(value);

        3
    }

    /// ORA - bitwise OR the operand into the accumulator.
    pub fn ora_zero_page_x(&mut self, addr_lower_byte: u8) -> (cycles: u8)
        requires
            old(self).wf(),
        ensures
            final(self).wf(),
            final(self).registers == spec_ora_regs(old(self).registers, old(self).memory.buffer@[spec_zp_x_ea(addr_lower_byte, old(self).registers.index_x) as int]),
            spec_mem_unchanged(old(self).memory, final(self).memory),
            final(self).num_cycles == old(self).num_cycles,
            final(self).memory.ppu.regs.num_cycles == old(self).memory.ppu.regs.num_cycles,
            cycles == 4,
    {
        let value = self.memory.fetch_zero_page_x(addr_lower_byte, self.registers.index_x);
        self.ora_immediate(value);

        4
    }

    /// ORA - bitwise OR the operand into the accumulator.
    pub fn ora_absolute(&mut self, address: u16) -> (cycles: u8)
        requires
            old(self).wf(),
        ensures
            final(self).wf(),
            final(self).registers == spec_ora_regs(old(self).registers, spec_read_value(old(self).memory, address)),
            spec_read_rel(old(self).memory, final(self).memory, address),
            final(self).num_cycles == old(self).num_cycles,
            final(self).memory.ppu.regs.num_cycles == old(self).memory.ppu.regs.num_cycles,
            cycles == 4,
    {
        let value = self.memory.fetch_absolute(address);
        self.ora_immediate(value);

        4
    }

    /// ORA - bitwise OR the operand into the accumulator.
    pub fn ora_absolute_x(&mut self, address: u16) -> (cycles: u8)
        requires
            old(self).wf(),
        ensures
            final(self).wf(),
            final(self).registers == spec_ora_regs(old(self).registers, spec_read_value(old(self).memory, spec_abs_x_ea(address, old(self).registers.index_x))),
            spec_read_rel(old(self).memory, final(self).memory, spec_abs_x_ea(address, old(self).registers.index_x)),
            final(self).num_cycles == old(self).num_cycles,
            final(self).memory.ppu.regs.num_cycles == old(self).memory.ppu.regs.num_cycles,
            cycles == 4,
    {
        let value = self.memory.fetch_absolute_x(address, self.registers.index_x);
        self.ora_immediate(value);

        4
    }

    /// ORA - bitwise OR the operand into the accumulator.
    pub fn ora_absolute_y(&mut self, address: u16) -> (cycles: u8)
        requires
            old(self).wf(),
        ensures
            final(self).wf(),
            final(self).registers == spec_ora_regs(old(self).registers, spec_read_value(old(self).memory, spec_abs_x_ea(address, old(self).registers.index_y))),
            spec_read_rel(old(self).memory, final(self).memory, spec_abs_x_ea(address, old(self).registers.index_y)),
            final(self).num_cycles == old(self).num_cycles,
            final(self).memory.ppu.regs.num_cycles == old(self).memory.ppu.regs.num_cycles,
            cycles == 4,
    {
        let value = self.memory.fetch_absolute_x(address, self.registers.index_y);
        self.ora_immediate(value);

        4
    }

    /// ORA - bitwise OR the operand into the accumulator.
    pub fn ora_indirect_x(&mut self, addr_lower_byte: u8) -> (cycles: u8)
        requires
            old(self).wf(),
        ensures
            final(self).wf(),
            final(self).registers == spec_ora_regs(old(self).registers, spec_read_value(old(self).memory, spec_ind_x_ea(old(self).memory.buffer@, addr_lower_byte, old(self).registers.index_x))),
            spec_read_rel(old(self).memory, final(self).memory, spec_ind_x_ea(old(self).memory.buffer@, addr_lower_byte, old(self).registers.index_x)),
            final(self).num_cycles == old(self).num_cycles,
            final(self).memory.ppu.regs.num_cycles == old(self).memory.ppu.regs.num_cycles,
            cycles == 6,
    {
        let value = self.memory.fetch_indirect_x(addr_lower_byte, self.registers.index_x);
        self.ora_immediate(value);

        6
    }

    /// ORA - bitwise OR the operand into the accumulator.
    pub fn ora_indirect_y(&mut self, addr_lower_byte: u8) -> (cycles: u8)
        requires
            old(self).wf(),
        ensures
            final(self).wf(),
            final(self).registers == spec_ora_regs(old(self).registers, spec_read_value(old(self).memory, spec_ind_y_ea(old(self).memory.buffer@, addr_lower_byte, old(self).registers.index_y))),
            spec_read_rel(old(self).memory, final(self).memory, spec_ind_y_ea(old(self).memory.buffer@, addr_lower_byte, old(self).registers.index_y)),
            final(self).num_cycles == old(self).num_cycles,
            final(self).memory.ppu.regs.num_cycles == old(self).memory.ppu.regs.num_cycles,
            cycles == 5,
    {
        let value = self.memory.fetch_indirect_y(addr_lower_byte, self.registers.index_y);
        self.ora_immediate(value);

        5
    }

    /// LDA - load the operand into the accumulator.
    pub fn lda_zero_page(&mut self, addr_lower_byte: u8) -> (cycles: u8)
        requires
            old(self).wf(),
        ensures
            final(self).wf(),
            final(self).registers == spec_lda_regs(old(self).registers, old(self).memory.buffer@[addr_lower_byte as int]),
            spec_mem_unchanged(old(self).memory, final(self).memory),
            final(self).num_cycles == old(self).num_cycles,
            final(self).memory.ppu.regs.num_cycles == old(self).memory.ppu.regs.num_cycles,
            cycles == 3,
    {
        let value = self.memory.fetch_zero_page(addr_lower_byte);
        self.lda_immediate(value);

        3
    }

    /// LDA - load the operand into the accumulator.
    pub fn lda_zero_page_x(&mut self, addr_lower_byte: u8) -> (cycles: u8)
        requires
            old(self).wf(),
        ensures
            final(self).wf(),
            final(self).registers == spec_lda_regs(old(self).registers, old(self).memory.buffer@[spec_zp_x_ea(addr_lower_byte, old(self).registers.index_x) as int]),
            spec_mem_unchanged(old(self).memory, final(self).memory),
            final(self).num_cycles == old(self).num_cycles,
            final(self).memory.ppu.regs.num_cycles == old(self).memory.ppu.regs.num_cycles,
            cycles == 4,
    {
        let value = self.memory.fetch_zero_page_x(addr_lower_byte, self.registers.index_x);
        self.lda_immediate(value);

        4
    }

    /// LDA - load the operand into the accumulator.
    pub fn lda_absolute(&mut self, address: u16) -> (cycles: u8)
        requires
            old(self).wf(),
        ensures
            final(self).wf(),
            final(self).registers == spec_lda_regs(old(self).registers, spec_read_value(old(self).memory, address)),
            spec_read_rel(old(self).memory, final(self).memory, address),
            final(self).num_cycles == old(self).num_cycles,
            final(self).memory.ppu.regs.num_cycles == old(self).memory.ppu.regs.num_cycles,
            cycles == 4,
    {
        let value = self.memory.fetch_absolute(address);
        self.lda_immediate(value);

        4
    }

    /// LDA - load the operand into the accumulator.
    pub fn lda_absolute_x(&mut self, address: u16) -> (cycles: u8)
        requires
            old(self).wf(),
        ensures
            final(self).wf(),
            final(self).registers == spec_lda_regs(old(self).registers, spec_read_value(old(self).memory, spec_abs_x_ea(address, old(self).registers.index_x))),
            spec_read_rel(old(self).memory, final(self).memory, spec_abs_x_ea(address, old(self).registers.index_x)),
            final(self).num_cycles == old(self).num_cycles,
            final(self).memory.ppu.regs.num_cycles == old(self).memory.ppu.regs.num_cycles,
            cycles == 4,
    {
        let value = self.memory.fetch_absolute_x(address, self.registers.index_x);
        self.lda_immediate(value);

        4
    }

    /// LDA - load the operand into the accumulator.
    pub fn lda_absolute_y(&mut self, address: u16) -> (cycles: u8)
        requires
            old(self).wf(),
        ensures
            final(self).wf(),
            final(self).registers == spec_lda_regs(old(self).registers, spec_read_value(old(self).memory, spec_abs_x_ea(address, old(self).registers.index_y))),
            spec_read_rel(old(self).memory, final(self).memory, spec_abs_x_ea(address, old(self).registers.index_y)),
            final(self).num_cycles == old(self).num_cycles,
            final(self).memory.ppu.regs.num_cycles == old(self).memory.ppu.regs.num_cycles,
            cycles == 4,
    {
        let value = self.memory.fetch_absolute_x(address, self.registers.index_y);
        self.lda_immediate(value);

        4
    }

    /// LDA - load the operand into the accumulator.
    pub fn lda_indirect_x(&mut self, addr_lower_byte: u8) -> (cycles: u8)
        requires
            old(self).wf(),
        ensures
            final(self).wf(),
            final(self).registers == spec_lda_regs(old(self).registers, spec_read_value(old(self).memory, spec_ind_x_ea(old(self).memory.buffer@, addr_lower_byte, old(self).registers.index_x))),
            spec_read_rel(old(self).memory, final(self).memory, spec_ind_x_ea(old(self).memory.buffer@, addr_lower_byte, old(self).registers.index_x)),
            final(self).num_cycles == old(self).num_cycles,
            final(self).memory.ppu.regs.num_cycles == old(self).memory.ppu.regs.num_cycles,
            cycles == 6,
    {
        let value = self.memory.fetch_indirect_x(addr_lower_byte, self.registers.index_x);
        self.lda_immediate(value);

        6
    }

    /// LDA - load the operand into the accumulator.
    pub fn lda_indirect_y(&mut self, addr_lower_byte: u8) -> (cycles: u8)
        requires
            old(self).wf(),
        ensures
            final(self).wf(),
            final(self).registers == spec_lda_regs(old(self).registers, spec_read_value(old(self).memory, spec_ind_y_ea(old(self).memory.buffer@, addr_lower_byte, old(self).registers.index_y))),
            spec_read_rel(old(self).memory, final(self).memory, spec_ind_y_ea(old(self).memory.buffer@, addr_lower_byte, old(self).registers.index_y)),
            final(self).num_cycles == old(self).num_cycles,
            final(self).memory.ppu.regs.num_cycles == old(self).memory.ppu.regs.num_cycles,
            cycles == 5,
    {
        let value = self.memory.fetch_indirect_y(addr_lower_byte, self.registers.index_y);
        self.lda_immediate(value);

        5
    }

    /// LDX - load the operand into X.
    pub fn ldx_zero_page(&mut self, addr_lower_byte: u8) -> (cycles: u8)
        requires
            old(self).wf(),
        ensures
            final(self).wf(),
            final(self).registers == spec_ldx_regs(old(self).registers, old(self).memory.buffer@[addr_lower_byte as int]),
            spec_mem_unchanged(old(self).memory, final(self).memory),
            final(self).num_cycles == old(self).num_cycles,
            final(self).memory.ppu.regs.num_cycles == old(self).memory.ppu.regs.num_cycles,
            cycles == 3,
    {
        let value = self.memory.fetch_zero_page(addr_lower_byte);
        self.ldx_immediate(value);

        3
    }

    /// LDX - load the operand into X.
    pub fn ldx_zero_page_y(&mut self, addr_lower_byte: u8) -> (cycles: u8)
        requires
            old(self).wf(),
        ensures
            final(self).wf(),
            final(self).registers == spec_ldx_regs(old(self).registers, old(self).memory.buffer@[spec_zp_x_ea(addr_lower_byte, old(self).registers.index_y) as int]),
            spec_mem_unchanged(old(self).memory, final(self).memory),
            final(self).num_cycles == old(self).num_cycles,
            final(self).memory.ppu.regs.num_cycles == old(self).memory.ppu.regs.num_cycles,
            cycles == 4,
    {
        let value = self.memory.fetch_zero_page_x(addr_lower_byte, self.registers.index_y);
        self.ldx_immediate(value);

        4
    }

    /// LDX - load the operand into X.
    pub fn ldx_absolute(&mut self, address: u16) -> (cycles: u8)
        requires
            old(self).wf(),
        ensures
            final(self).wf(),
            final(self).registers == spec_ldx_regs(old(self).registers, spec_read_value(old(self).memory, address)),
            spec_read_rel(old(self).memory, final(self).memory, address),
            final(self).num_cycles == old(self).num_cycles,
            final(self).memory.ppu.regs.num_cycles == old(self).memory.ppu.regs.num_cycles,
            cycles == 4,
    {
        let value = self.memory.fetch_absolute(address);
        self.ldx_immediate(value);

        4
    }

    /// LDX - load the operand into X.
    pub fn ldx_absolute_y(&mut self, address: u16) -> (cycles: u8)
        requires
            old(self).wf(),
        ensures
            final(self).wf(),
            final(self).registers == spec_ldx_regs(old(self).registers, spec_read_value(old(self).memory, spec_abs_x_ea(address, old(self).registers.index_y))),
            spec_read_rel(old(self).memory, final(self).memory, spec_abs_x_ea(address, old(self).registers.index_y)),
            final(self).num_cycles == old(self).num_cycles,
            final(self).memory.ppu.regs.num_cycles == old(self).memory.ppu.regs.num_cycles,
            cycles == 4,
    {
        let value = self.memory.fetch_absolute_x(address, self.registers.index_y);
        self.ldx_immediate(value);

        4
    }

    /// LDY - load the operand into Y.
    pub fn ldy_zero_page(&mut self, addr_lower_byte: u8) -> (cycles: u8)
        requires
            old(self).wf(),
        ensures
            final(self).wf(),
            final(self).registers == spec_ldy_regs(old(self).registers, old(self).memory.buffer@[addr_lower_byte as int]),
            spec_mem_unchanged(old(self).memory, final(self).memory),
            final(self).num_cycles == old(self).num_cycles,
            final(self).memory.ppu.regs.num_cycles == old(self).memory.ppu.regs.num_cycles,
            cycles == 3,
    {
        let value = self.memory.fetch_zero_page(addr_lower_byte);
        self.ldy_immediate(value);

        3
    }

    /// LDY - load the operand into Y.
    pub fn ldy_zero_page_x(&mut self, addr_lower_byte: u8) -> (cycles: u8)
        requires
            old(self).wf(),
        ensures
            final(self).wf(),
            final(self).registers == spec_ldy_regs(old(self).registers, old(self).memory.buffer@[spec_zp_x_ea(addr_lower_byte, old(self).registers.index_x) as int]),
            spec_mem_unchanged(old(self).memory, final(self).memory),
            final(self).num_cycles == old(self).num_cycles,
            final(self).memory.ppu.regs.num_cycles == old(self).memory.ppu.regs.num_cycles,
            cycles == 4,
    {
        let value = self.memory.fetch_zero_page_x(addr_lower_byte, self.registers.index_x);
        self.ldy_immediate(value);

        4
    }

    /// LDY - load the operand into Y.
    pub fn ldy_absolute(&mut self, address: u16) -> (cycles: u8)
        requires
            old(self).wf(),
        ensures
            final(self).wf(),
            final(self).registers == spec_ldy_regs(old(self).registers, spec_read_value(old(self).memory, address)),
            spec_read_rel(old(self).memory, final(self).memory, address),
            final(self).num_cycles == old(self).num_cycles,
            final(self).memory.ppu.regs.num_cycles == old(self).memory.ppu.regs.num_cycles,
            cycles == 4,
    {
        let value = self.memory.fetch_absolute(address);
        self.ldy_immediate(value);

        4
    }

    /// LDY - load the operand into Y.
    pub fn ldy_absolute_x(&mut self, address: u16) -> (cycles: u8)
        requires
            old(self).wf(),
        ensures
            final(self).wf(),
            final(self).registers == spec_ldy_regs(old(self).registers, spec_read_value(old(self).memory, spec_abs_x_ea(address, old(self).registers.index_x))),
            spec_read_rel(old(self).memory, final(self).memory, spec_abs_x_ea(address, old(self).registers.index_x)),
            final(self).num_cycles == old(self).num_cycles,
            final(self).memory.ppu.regs.num_cycles == old(self).memory.ppu.regs.num_cycles,
            cycles == 4,
    {
        let value = self.memory.fetch_absolute_x(address, self.registers.index_x);
        self.ldy_immediate(value);

        4
    }

    /// BIT - test the operand against the accumulator.
    pub fn bit_zero_page(&mut self, addr_lower_byte: u8) -> (cycles: u8)
        requires
            old(self).wf(),
        ensures
            final(self).wf(),
            final(self).registers == spec_bit_regs(old(self).registers, old(self).memory.buffer@[addr_lower_byte as int]),
            spec_mem_unchanged(old(self).memory, final(self).memory),
            final(self).num_cycles == old(self).num_cycles,
            final(self).memory.ppu.regs.num_cycles == old(self).memory.ppu.regs.num_cycles,
            cycles == 3,
    {
        let value = self.memory.fetch_zero_page(addr_lower_byte);
        self.bit_immediate(value);

        3
    }

    /// BIT - test the operand against the accumulator.
    pub fn bit_absolute(&mut self, address: u16) -> (cycles: u8)
        requires
            old(self).wf(),
        ensures
            final(self).wf(),
            final(self).registers == spec_bit_regs(old(self).registers, spec_read_value(old(self).memory, address)),
            spec_read_rel(old(self).memory, final(self).memory, address),
            final(self).num_cycles == old(self).num_cycles,
            final(self).memory.ppu.regs.num_cycles == old(self).memory.ppu.regs.num_cycles,
            cycles == 4,
    {
        let value = self.memory.fetch_absolute(address);
        self.bit_immediate(value);

        4
    }

    /// The shared ASL computation: sets C/Z/N and returns the shifted byte.
    fn asl_immediate(&mut self, value: u8) -> (new_value: u8)
        requires
            old(self).wf(),
        ensures
            final(self).wf(),
            final(self).registers == (Registers {
                processor_status: spec_asl_p(old(self).registers.processor_status, value),
                ..old(self).registers
            }),
            new_value == spec_asl_val(value),
            spec_mem_unchanged(old(self).memory, final(self).memory),
            final(self).num_cycles == old(self).num_cycles,
            final(self).memory.ppu.regs.num_cycles == old(self).memory.ppu.regs.num_cycles,
    {
        let first_bit = value & 0b1000_0000;
        if first_bit != 0 {
            self.registers.set_carry();
        } else {
            self.registers.unset_carry();
        }

        let new_value = value << 1;

        self.update_zero_negative_flags(new_value);

        new_value
    }

    /// ASL on the accumulator.
    pub fn asl_accumulator(&mut self) -> (cycles: u8)
        requires
            old(self).wf(),
        ensures
            final(self).wf(),
            final(self).registers == (Registers {
                accumulator: spec_asl_val(old(self).registers.accumulator),
                processor_status: spec_asl_p(
                    old(self).registers.processor_status,
                    old(self).registers.accumulator,
                ),
                ..old(self).registers
            }),
            spec_mem_unchanged(old(self).memory, final(self).memory),
            final(self).num_cycles == old(self).num_cycles,
            final(self).memory.ppu.regs.num_cycles == old(self).memory.ppu.regs.num_cycles,
            cycles == 2,
    {
        let a = self.registers.accumulator;
        let new_accum = self.asl_immediate(a);
        self.registers.accumulator = new_accum;

        2
    }

    /// The shared LSR computation: sets C/Z, clears N, returns the shifted
    /// byte.
    fn lsr_immediate(&mut self, value: u8) -> (new_value: u8)
        requires
            old(self).wf(),
        ensures
            final(self).wf(),
            final(self).registers == (Registers {
                processor_status: spec_lsr_p(old(self).registers.processor_status, value),
                ..old(self).registers
            }),
            new_value == spec_lsr_val(value),
            spec_mem_unchanged(old(self).memory, final(self).memory),
            final(self).num_cycles == old(self).num_cycles,
            final(self).memory.ppu.regs.num_cycles == old(self).memory.ppu.regs.num_cycles,
    {
        let first_bit = value & 0b0000_0001;
        if first_bit != 0 {
            self.registers.set_carry();
        } else {
            self.registers.unset_carry();
        }

        let new_value = value >> 1;

        if new_value == 0 {
            self.registers.set_zero();
        } else {
            self.registers.unset_zero();
        }

        self.registers.unset_neg();

        new_value
    }

    /// LSR on the accumulator.
    pub fn lsr_accumulator(&mut self) -> (cycles: u8)
        requires
            old(self).wf(),
        ensures
            final(self).wf(),
            final(self).registers == (Registers {
                accumulator: spec_lsr_val(old(self).registers.accumulator),
                processor_status: spec_lsr_p(
                    old(self).registers.processor_status,
                    old(self).registers.accumulator,
                ),
                ..old(self).registers
            }),
            spec_mem_unchanged(old(self).memory, final(self).memory),
            final(self).num_cycles == old(self).num_cycles,
            final(self).memory.ppu.regs.num_cycles == old(self).memory.ppu.regs.num_cycles,
            cycles == 2,
    {
        let a = self.registers.accumulator;
        let new_accum = self.lsr_immediate(a);
        self.registers.accumulator = new_accum;

        2
    }

    /// The shared ROL computation: rotates left through the carry.
    fn rol_immediate(&mut self, value: u8) -> (new_value: u8)
        requires
            old(self).wf(),
        ensures
            final(self).wf(),
            final(self).registers == (Registers {
                processor_status: spec_rol_p(old(self).registers.processor_status, value),
                ..old(self).registers
            }),
            new_value == spec_rol_val(old(self).registers.processor_status, value),
            spec_mem_unchanged(old(self).memory, final(self).memory),
            final(self).num_cycles == old(self).num_cycles,
            final(self).memory.ppu.regs.num_cycles == old(self).memory.ppu.regs.num_cycles,
    {
        let first_bit = value & 0b1000_0000;

        let new_value = value << 1;
        let new_value = new_value | self.registers.get_carry();

        if first_bit != 0 {
            self.registers.set_carry();
        } else {
            self.registers.unset_carry();
        }

        self.update_zero_negative_flags(new_value);
        new_value
    }

    /// ROL on the accumulator.
    pub fn rol_accumulator(&mut self) -> (cycles: u8)
        requires
            old(self).wf(),
        ensures
            final(self).wf(),
            final(self).registers == (Registers {
                accumulator: spec_rol_val(
                    old(self).registers.processor_status,
                    old(self).registers.accumulator,
                ),
                processor_status: spec_rol_p(
                    old(self).registers.processor_status,
                    old(self).registers.accumulator,
                ),
                ..old(self).registers
            }),
            spec_mem_unchanged(old(self).memory, final(self).memory),
            final(self).num_cycles == old(self).num_cycles,
            final(self).memory.ppu.regs.num_cycles == old(self).memory.ppu.regs.num_cycles,
            cycles == 2,
    {
        let a = self.registers.accumulator;
        let rolled = self.rol_immediate(a);
        self.registers.accumulator = rolled;

        2
    }

    /// The shared ROR computation: rotates right through the carry.
    fn ror_immediate(&mut self, value: u8) -> (new_value: u8)
        requires
            old(self).wf(),
        ensures
            final(self).wf(),
            final(self).registers == (Registers {
                processor_status: spec_ror_p(old(self).registers.processor_status, value),
                ..old(self).registers
            }),
            new_value == spec_ror_val(old(self).registers.processor_status, value),
            spec_mem_unchanged(old(self).memory, final(self).memory),
            final(self).num_cycles == old(self).num_cycles,
            final(self).memory.ppu.regs.num_cycles == old(self).memory.ppu.regs.num_cycles,
    {
        let last_bit = value & 0b0000_0001;

        let new_value = value >> 1;
        let new_value = new_value | (self.registers.get_carry() << 7);

        if last_bit != 0 {
            self.registers.set_carry();
        } else {
            self.registers.unset_carry();
        }

        self.update_zero_negative_flags(new_value);

        new_value
    }

    /// ROR on the accumulator.
    pub fn ror_accumulator(&mut self) -> (cycles: u8)
        requires
            old(self).wf(),
        ensures
            final(self).wf(),
            final(self).registers == (Registers {
                accumulator: spec_ror_val(
                    old(self).registers.processor_status,
                    old(self).registers.accumulator,
                ),
                processor_status: spec_ror_p(
                    old(self).registers.processor_status,
                    old(self).registers.accumulator,
                ),
                ..old(self).registers
            }),
            spec_mem_unchanged(old(self).memory, final(self).memory),
            final(self).num_cycles == old(self).num_cycles,
            final(self).memory.ppu.regs.num_cycles == old(self).memory.ppu.regs.num_cycles,
            cycles == 2,
    {
        let a = self.registers.accumulator;
        let rotated = self.ror_immediate(a);
        self.registers.accumulator = rotated;

        2
    }

    /// ASL - shift the addressed byte left once.
    pub fn asl_zero_page(&mut self, addr_lower_byte: u8) -> (cycles: u8)
        requires
            old(self).wf(),
        ensures
            final(self).wf(),
            final(self).registers == (Registers {
                processor_status: spec_asl_p(old(self).registers.processor_status, old(self).memory.buffer@[addr_lower_byte as int]),
                ..old(self).registers
            }),
            spec_store_rel(old(self).memory, final(self).memory, addr_lower_byte as u16, spec_asl_val(old(self).memory.buffer@[addr_lower_byte as int])),
            final(self).num_cycles == old(self).num_cycles,
            final(self).memory.ppu.regs.num_cycles == old(self).memory.ppu.regs.num_cycles,
            cycles == 5,
    {
        let value = self.memory.fetch_zero_page(addr_lower_byte);
        let value = self.asl_immediate(value);
        self.memory.store_zero_page(addr_lower_byte, value);

        5
    }

    /// ASL - shift the addressed byte left once.
    pub fn asl_zero_page_x(&mut self, addr_lower_byte: u8) -> (cycles: u8)
        requires
            old(self).wf(),
        ensures
            final(self).wf(),
            final(self).registers == (Registers {
                processor_status: spec_asl_p(old(self).registers.processor_status, old(self).memory.buffer@[spec_zp_x_ea(addr_lower_byte, old(self).registers.index_x) as int]),
                ..old(self).registers
            }),
            spec_store_rel(old(self).memory, final(self).memory, spec_zp_x_ea(addr_lower_byte, old(self).registers.index_x), spec_asl_val(old(self).memory.buffer@[spec_zp_x_ea(addr_lower_byte, old(self).registers.index_x) as int])),
            final(self).num_cycles == old(self).num_cycles,
            final(self).memory.ppu.regs.num_cycles == old(self).memory.ppu.regs.num_cycles,
            cycles == 6,
    {
        let value = self.memory.fetch_zero_page_x(addr_lower_byte, self.registers.index_x);
        let value = self.asl_immediate(value);
        self.memory.store_zero_page_x(addr_lower_byte, self.registers.index_x, value);

        6
    }

    /// ASL - shift the addressed byte left once.
    pub fn asl_absolute(&mut self, address: u16) -> (cycles: u8)
        requires
            old(self).wf(),
        ensures
            final(self).wf(),
            final(self).registers == (Registers {
                processor_status: spec_asl_p(old(self).registers.processor_status, spec_read_value(old(self).memory, address)),
                ..old(self).registers
            }),
            spec_store_rel_x(old(self).memory, spec_read_regs_x(old(self).memory, old(self).memory.ppu.regs, address), spec_read_input_x(old(self).memory.input, address), final(self).memory, address, spec_asl_val(spec_read_value(old(self).memory, address))),
            final(self).num_cycles == old(self).num_cycles,
            final(self).memory.ppu.regs.num_cycles == old(self).memory.ppu.regs.num_cycles,
            cycles == 6,
    {
        let value = self.memory.fetch_absolute(address);
        let value = self.asl_immediate(value);
        self.memory.store_absolute(address, value);

        6
    }

    /// ASL - shift the addressed byte left once.
    pub fn asl_absolute_x(&mut self, address: u16) -> (cycles: u8)
        requires
            old(self).wf(),
        ensures
            final(self).wf(),
            final(self).registers == (Registers {
                processor_status: spec_asl_p(old(self).registers.processor_status, spec_read_value(old(self).memory, spec_abs_x_ea(address, old(self).registers.index_x))),
                ..old(self).registers
            }),
            spec_store_rel_x(old(self).memory, spec_read_regs_x(old(self).memory, old(self).memory.ppu.regs, spec_abs_x_ea(address, old(self).registers.index_x)), spec_read_input_x(old(self).memory.input, spec_abs_x_ea(address, old(self).registers.index_x)), final(self).memory, spec_abs_x_ea(address, old(self).registers.index_x), spec_asl_val(spec_read_value(old(self).memory, spec_abs_x_ea(address, old(self).registers.index_x)))),
            final(self).num_cycles == old(self).num_cycles,
            final(self).memory.ppu.regs.num_cycles == old(self).memory.ppu.regs.num_cycles,
            cycles == 7,
    {
        let value = self.memory.fetch_absolute_x(address, self.registers.index_x);
        let value = self.asl_immediate(value);
        self.memory.store_absolute_x(address, self.registers.index_x, value);

        7
    }

    /// ASL - shift the addressed byte left once.
    pub fn asl_absolute_y(&mut self, address: u16) -> (cycles: u8)
        requires
            old(self).wf(),
        ensures
            final(self).wf(),
            final(self).registers == (Registers {
                processor_status: spec_asl_p(old(self).registers.processor_status, spec_read_value(old(self).memory, spec_abs_x_ea(address, old(self).registers.index_y))),
                ..old(self).registers
            }),
            spec_store_rel_x(old(self).memory, spec_read_regs_x(old(self).memory, old(self).memory.ppu.regs, spec_abs_x_ea(address, old(self).registers.index_y)), spec_read_input_x(old(self).memory.input, spec_abs_x_ea(address, old(self).registers.index_y)), final(self).memory, spec_abs_x_ea(address, old(self).registers.index_y), spec_asl_val(spec_read_value(old(self).memory, spec_abs_x_ea(address, old(self).registers.index_y)))),
            final(self).num_cycles == old(self).num_cycles,
            final(self).memory.ppu.regs.num_cycles == old(self).memory.ppu.regs.num_cycles,
            cycles == 7,
    {
        let value = self.memory.fetch_absolute_x(address, self.registers.index_y);
        let value = self.asl_immediate(value);
        self.memory.store_absolute_x(address, self.registers.index_y, value);

        7
    }

    /// LSR - shift the addressed byte right once.
    pub fn lsr_zero_page(&mut self, addr_lower_byte: u8) -> (cycles: u8)
        requires
            old(self).wf(),
        ensures
            final(self).wf(),
            final(self).registers == (Registers {
                processor_status: spec_lsr_p(old(self).registers.processor_status, old(self).memory.buffer@[addr_lower_byte as int]),
                ..old(self).registers
            }),
            spec_store_rel(old(self).memory, final(self).memory, addr_lower_byte as u16, spec_lsr_val(old(self).memory.buffer@[addr_lower_byte as int])),
            final(self).num_cycles == old(self).num_cycles,
            final(self).memory.ppu.regs.num_cycles == old(self).memory.ppu.regs.num_cycles,
            cycles == 5,
    {
        let value = self.memory.fetch_zero_page(addr_lower_byte);
        let value = self.lsr_immediate(value);
        self.memory.store_zero_page(addr_lower_byte, value);

        5
    }

    /// LSR - shift the addressed byte right once.
    pub fn lsr_zero_page_x(&mut self, addr_lower_byte: u8) -> (cycles: u8)
        requires
            old(self).wf(),
        ensures
            final(self).wf(),
            final(self).registers == (Registers {
                processor_status: spec_lsr_p(old(self).registers.processor_status, old(self).memory.buffer@[spec_zp_x_ea(addr_lower_byte, old(self).registers.index_x) as int]),
                ..old(self).registers
            }),
            spec_store_rel(old(self).memory, final(self).memory, spec_zp_x_ea(addr_lower_byte, old(self).registers.index_x), spec_lsr_val(old(self).memory.buffer@[spec_zp_x_ea(addr_lower_byte, old(self).registers.index_x) as int])),
            final(self).num_cycles == old(self).num_cycles,
            final(self).memory.ppu.regs.num_cycles == old(self).memory.ppu.regs.num_cycles,
            cycles == 6,
    {
        let value = self.memory.fetch_zero_page_x(addr_lower_byte, self.registers.index_x);
        let value = self.lsr_immediate(value);
        self.memory.store_zero_page_x(addr_lower_byte, self.registers.index_x, value);

        6
    }

    /// LSR - shift the addressed byte right once.
    pub fn lsr_absolute(&mut self, address: u16) -> (cycles: u8)
        requires
            old(self).wf(),
        ensures
            final(self).wf(),
            final(self).registers == (Registers {
                processor_status: spec_lsr_p(old(self).registers.processor_status, spec_read_value(old(self).memory, address)),
                ..old(self).registers
            }),
            spec_store_rel_x(old(self).memory, spec_read_regs_x(old(self).memory, old(self).memory.ppu.regs, address), spec_read_input_x(old(self).memory.input, address), final(self).memory, address, spec_lsr_val(spec_read_value(old(self).memory, address))),
            final(self).num_cycles == old(self).num_cycles,
            final(self).memory.ppu.regs.num_cycles == old(self).memory.ppu.regs.num_cycles,
            cycles == 6,
    {
        let value = self.memory.fetch_absolute(address);
        let value = self.lsr_immediate(value);
        self.memory.store_absolute(address, value);

        6
    }

    /// LSR - shift the addressed byte right once.
    pub fn lsr_absolute_x(&mut self, address: u16) -> (cycles: u8)
        requires
            old(self).wf(),
        ensures
            final(self).wf(),
            final(self).registers == (Registers {
                processor_status: spec_lsr_p(old(self).registers.processor_status, spec_read_value(old(self).memory, spec_abs_x_ea(address, old(self).registers.index_x))),
                ..old(self).registers
            }),
            spec_store_rel_x(old(self).memory, spec_read_regs_x(old(self).memory, old(self).memory.ppu.regs, spec_abs_x_ea(address, old(self).registers.index_x)), spec_read_input_x(old(self).memory.input, spec_abs_x_ea(address, old(self).registers.index_x)), final(self).memory, spec_abs_x_ea(address, old(self).registers.index_x), spec_lsr_val(spec_read_value(old(self).memory, spec_abs_x_ea(address, old(self).registers.index_x)))),
            final(self).num_cycles == old(self).num_cycles,
            final(self).memory.ppu.regs.num_cycles == old(self).memory.ppu.regs.num_cycles,
            cycles == 7,
    {
        let value = self.memory.fetch_absolute_x(address, self.registers.index_x);
        let value = self.lsr_immediate(value);
        self.memory.store_absolute_x(address, self.registers.index_x, value);

        7
    }

    /// LSR - shift the addressed byte right once.
    pub fn lsr_absolute_y(&mut self, address: u16) -> (cycles: u8)
        requires
            old(self).wf(),
        ensures
            final(self).wf(),
            final(self).registers == (Registers {
                processor_status: spec_lsr_p(old(self).registers.processor_status, spec_read_value(old(self).memory, spec_abs_x_ea(address, old(self).registers.index_y))),
                ..old(self).registers
            }),
            spec_store_rel_x(old(self).memory, spec_read_regs_x(old(self).memory, old(self).memory.ppu.regs, spec_abs_x_ea(address, old(self).registers.index_y)), spec_read_input_x(old(self).memory.input, spec_abs_x_ea(address, old(self).registers.index_y)), final(self).memory, spec_abs_x_ea(address, old(self).registers.index_y), spec_lsr_val(spec_read_value(old(self).memory, spec_abs_x_ea(address, old(self).registers.index_y)))),
            final(self).num_cycles == old(self).num_cycles,
            final(self).memory.ppu.regs.num_cycles == old(self).memory.ppu.regs.num_cycles,
            cycles == 7,
    {
        let value = self.memory.fetch_absolute_x(address, self.registers.index_y);
        let value = self.lsr_immediate(value);
        self.memory.store_absolute_x(address, self.registers.index_y, value);

        7
    }

    /// ROL - rotate the addressed byte left through the carry.
    pub fn rol_zero_page(&mut self, addr_lower_byte: u8) -> (cycles: u8)
        requires
            old(self).wf(),
        ensures
            final(self).wf(),
            final(self).registers == (Registers {
                processor_status: spec_rol_p(old(self).registers.processor_status, old(self).memory.buffer@[addr_lower_byte as int]),
                ..old(self).registers
            }),
            spec_store_rel(old(self).memory, final(self).memory, addr_lower_byte as u16, spec_rol_val(old(self).registers.processor_status, old(self).memory.buffer@[addr_lower_byte as int])),
            final(self).num_cycles == old(self).num_cycles,
            final(self).memory.ppu.regs.num_cycles == old(self).memory.ppu.regs.num_cycles,
            cycles == 5,
    {
        let value = self.memory.fetch_zero_page(addr_lower_byte);
        let value = self.rol_immediate(value);
        self.memory.store_zero_page(addr_lower_byte, value);

        5
    }

    /// ROL - rotate the addressed byte left through the carry.
    pub fn rol_zero_page_x(&mut self, addr_lower_byte: u8) -> (cycles: u8)
        requires
            old(self).wf(),
        ensures
            final(self).wf(),
            final(self).registers == (Registers {
                processor_status: spec_rol_p(old(self).registers.processor_status, old(self).memory.buffer@[spec_zp_x_ea(addr_lower_byte, old(self).registers.index_x) as int]),
                ..old(self).registers
            }),
            spec_store_rel(old(self).memory, final(self).memory, spec_zp_x_ea(addr_lower_byte, old(self).registers.index_x), spec_rol_val(old(self).registers.processor_status, old(self).memory.buffer@[spec_zp_x_ea(addr_lower_byte, old(self).registers.index_x) as int])),
            final(self).num_cycles == old(self).num_cycles,
            final(self).memory.ppu.regs.num_cycles == old(self).memory.ppu.regs.num_cycles,
            cycles == 6,
    {
        let value = self.memory.fetch_zero_page_x(addr_lower_byte, self.registers.index_x);
        let value = self.rol_immediate(value);
        self.memory.store_zero_page_x(addr_lower_byte, self.registers.index_x, value);

        6
    }

    /// ROL - rotate the addressed byte left through the carry.
    pub fn rol_absolute(&mut self, address: u16) -> (cycles: u8)
        requires
            old(self).wf(),
        ensures
            final(self).wf(),
            final(self).registers == (Registers {
                processor_status: spec_rol_p(old(self).registers.processor_status, spec_read_value(old(self).memory, address)),
                ..old(self).registers
            }),
            spec_store_rel_x(old(self).memory, spec_read_regs_x(old(self).memory, old(self).memory.ppu.regs, address), spec_read_input_x(old(self).memory.input, address), final(self).memory, address, spec_rol_val(old(self).registers.processor_status, spec_read_value(old(self).memory, address))),
            final(self).num_cycles == old(self).num_cycles,
            final(self).memory.ppu.regs.num_cycles == old(self).memory.ppu.regs.num_cycles,
            cycles == 6,
    {
        let value = self.memory.fetch_absolute(address);
        let value = self.rol_immediate(value);
        self.memory.store_absolute(address, value);

        6
    }

    /// ROL - rotate the addressed byte left through the carry.
    pub fn rol_absolute_x(&mut self, address: u16) -> (cycles: u8)
        requires
            old(self).wf(),
        ensures
            final(self).wf(),
            final(self).registers == (Registers {
                processor_status: spec_rol_p(old(self).registers.processor_status, spec_read_value(old(self).memory, spec_abs_x_ea(address, old(self).registers.index_x))),
                ..old(self).registers
            }),
            spec_store_rel_x(old(self).memory, spec_read_regs_x(old(self).memory, old(self).memory.ppu.regs, spec_abs_x_ea(address, old(self).registers.index_x)), spec_read_input_x(old(self).memory.input, spec_abs_x_ea(address, old(self).registers.index_x)), final(self).memory, spec_abs_x_ea(address, old(self).registers.index_x), spec_rol_val(old(self).registers.processor_status, spec_read_value(old(self).memory, spec_abs_x_ea(address, old(self).registers.index_x)))),
            final(self).num_cycles == old(self).num_cycles,
            final(self).memory.ppu.regs.num_cycles == old(self).memory.ppu.regs.num_cycles,
            cycles == 7,
    {
        let value = self.memory.fetch_absolute_x(address, self.registers.index_x);
        let value = self.rol_immediate(value);
        self.memory.store_absolute_x(address, self.registers.index_x, value);

        7
    }

    /// ROL - rotate the addressed byte left through the carry.
    pub fn rol_absolute_y(&mut self, address: u16) -> (cycles: u8)
        requires
            old(self).wf(),
        ensures
            final(self).wf(),
            final(self).registers == (Registers {
                processor_status: spec_rol_p(old(self).registers.processor_status, spec_read_value(old(self).memory, spec_abs_x_ea(address, old(self).registers.index_y))),
                ..old(self).registers
            }),
            spec_store_rel_x(old(self).memory, spec_read_regs_x(old(self).memory, old(self).memory.ppu.regs, spec_abs_x_ea(address, old(self).registers.index_y)), spec_read_input_x(old(self).memory.input, spec_abs_x_ea(address, old(self).registers.index_y)), final(self).memory, spec_abs_x_ea(address, old(self).registers.index_y), spec_rol_val(old(self).registers.processor_status, spec_read_value(old(self).memory, spec_abs_x_ea(address, old(self).registers.index_y)))),
            final(self).num_cycles == old(self).num_cycles,
            final(self).memory.ppu.regs.num_cycles == old(self).memory.ppu.regs.num_cycles,
            cycles == 7,
    {
        let value = self.memory.fetch_absolute_x(address, self.registers.index_y);
        let value = self.rol_immediate(value);
        self.memory.store_absolute_x(address, self.registers.index_y, value);

        7
    }

    /// ROR - rotate the addressed byte right through the carry.
    pub fn ror_zero_page(&mut self, addr_lower_byte: u8) -> (cycles: u8)
        requires
            old(self).wf(),
        ensures
            final(self).wf(),
            final(self).registers == (Registers {
                processor_status: spec_ror_p(old(self).registers.processor_status, old(self).memory.buffer@[addr_lower_byte as int]),
                ..old(self).registers
            }),
            spec_store_rel(old(self).memory, final(self).memory, addr_lower_byte as u16, spec_ror_val(old(self).registers.processor_status, old(self).memory.buffer@[addr_lower_byte as int])),
            final(self).num_cycles == old(self).num_cycles,
            final(self).memory.ppu.regs.num_cycles == old(self).memory.ppu.regs.num_cycles,
            cycles == 5,
    {
        let value = self.memory.fetch_zero_page(addr_lower_byte);
        let value = self.ror_immediate(value);
        self.memory.store_zero_page(addr_lower_byte, value);

        5
    }

    /// ROR - rotate the addressed byte right through the carry.
    pub fn ror_zero_page_x(&mut self, addr_lower_byte: u8) -> (cycles: u8)
        requires
            old(self).wf(),
        ensures
            final(self).wf(),
            final(self).registers == (Registers {
                processor_status: spec_ror_p(old(self).registers.processor_status, old(self).memory.buffer@[spec_zp_x_ea(addr_lower_byte, old(self).registers.index_x) as int]),
                ..old(self).registers
            }),
            spec_store_rel(old(self).memory, final(self).memory, spec_zp_x_ea(addr_lower_byte, old(self).registers.index_x), spec_ror_val(old(self).registers.processor_status, old(self).memory.buffer@[spec_zp_x_ea(addr_lower_byte, old(self).registers.index_x) as int])),
            final(self).num_cycles == old(self).num_cycles,
            final(self).memory.ppu.regs.num_cycles == old(self).memory.ppu.regs.num_cycles,
            cycles == 6,
    {
        let value = self.memory.fetch_zero_page_x(addr_lower_byte, self.registers.index_x);
        let value = self.ror_immediate(value);
        self.memory.store_zero_page_x(addr_lower_byte, self.registers.index_x, value);

        6
    }

    /// ROR - rotate the addressed byte right through the carry.
    pub fn ror_absolute(&mut self, address: u16) -> (cycles: u8)
        requires
            old(self).wf(),
        ensures
            final(self).wf(),
            final(self).registers == (Registers {
                processor_status: spec_ror_p(old(self).registers.processor_status, spec_read_value(old(self).memory, address)),
                ..old(self).registers
            }),
            spec_store_rel_x(old(self).memory, spec_read_regs_x(old(self).memory, old(self).memory.ppu.regs, address), spec_read_input_x(old(self).memory.input, address), final(self).memory, address, spec_ror_val(old(self).registers.processor_status, spec_read_value(old(self).memory, address))),
            final(self).num_cycles == old(self).num_cycles,
            final(self).memory.ppu.regs.num_cycles == old(self).memory.ppu.regs.num_cycles,
            cycles == 6,
    {
        let value = self.memory.fetch_absolute(address);
        let value = self.ror_immediate(value);
        self.memory.store_absolute(address, value);

        6
    }

    /// ROR - rotate the addressed byte right through the carry.
    pub fn ror_absolute_x(&mut self, address: u16) -> (cycles: u8)
        requires
            old(self).wf(),
        ensures
            final(self).wf(),
            final(self).registers == (Registers {
                processor_status: spec_ror_p(old(self).registers.processor_status, spec_read_value(old(self).memory, spec_abs_x_ea(address, old(self).registers.index_x))),
                ..old(self).registers
            }),
            spec_store_rel_x(old(self).memory, spec_read_regs_x(old(self).memory, old(self).memory.ppu.regs, spec_abs_x_ea(address, old(self).registers.index_x)), spec_read_input_x(old(self).memory.input, spec_abs_x_ea(address, old(self).registers.index_x)), final(self).memory, spec_abs_x_ea(address, old(self).registers.index_x), spec_ror_val(old(self).registers.processor_status, spec_read_value(old(self).memory, spec_abs_x_ea(address, old(self).registers.index_x)))),
            final(self).num_cycles == old(self).num_cycles,
            final(self).memory.ppu.regs.num_cycles == old(self).memory.ppu.regs.num_cycles,
            cycles == 7,
    {
        let value = self.memory.fetch_absolute_x(address, self.registers.index_x);
        let value = self.ror_immediate(value);
        self.memory.store_absolute_x(address, self.registers.index_x, value);

        7
    }

    /// ROR - rotate the addressed byte right through the carry.
    pub fn ror_absolute_y(&mut self, address: u16) -> (cycles: u8)
        requires
            old(self).wf(),
        ensures
            final(self).wf(),
            final(self).registers == (Registers {
                processor_status: spec_ror_p(old(self).registers.processor_status, spec_read_value(old(self).memory, spec_abs_x_ea(address, old(self).registers.index_y))),
                ..old(self).registers
            }),
            spec_store_rel_x(old(self).memory, spec_read_regs_x(old(self).memory, old(self).memory.ppu.regs, spec_abs_x_ea(address, old(self).registers.index_y)), spec_read_input_x(old(self).memory.input, spec_abs_x_ea(address, old(self).registers.index_y)), final(self).memory, spec_abs_x_ea(address, old(self).registers.index_y), spec_ror_val(old(self).registers.processor_status, spec_read_value(old(self).memory, spec_abs_x_ea(address, old(self).registers.index_y)))),
            final(self).num_cycles == old(self).num_cycles,
            final(self).memory.ppu.regs.num_cycles == old(self).memory.ppu.regs.num_cycles,
            cycles == 7,
    {
        let value = self.memory.fetch_absolute_x(address, self.registers.index_y);
        let value = self.ror_immediate(value);
        self.memory.store_absolute_x(address, self.registers.index_y, value);

        7
    }

    /// INC - increment the addressed byte.
    pub fn inc_zero_page(&mut self, addr_lower_byte: u8) -> (cycles: u8)
        requires
            old(self).wf(),
        ensures
            final(self).wf(),
            final(self).registers == (Registers {
                processor_status: spec_nz(old(self).registers.processor_status, spec_inc_val(old(self).memory.buffer@[addr_lower_byte as int])),
                ..old(self).registers
            }),
            spec_store_rel(old(self).memory, final(self).memory, addr_lower_byte as u16, spec_inc_val(old(self).memory.buffer@[addr_lower_byte as int])),
            final(self).num_cycles == old(self).num_cycles,
            final(self).memory.ppu.regs.num_cycles == old(self).memory.ppu.regs.num_cycles,
            cycles == 5,
    {
        let new_val = self.memory.fetch_zero_page(addr_lower_byte).wrapping_add(1);

        self.memory.store_zero_page(addr_lower_byte, new_val);
        self.update_zero_negative_flags(new_val);

        5
    }

    /// INC - increment the addressed byte.
    pub fn inc_zero_page_x(&mut self, addr_lower_byte: u8) -> (cycles: u8)
        requires
            old(self).wf(),
        ensures
            final(self).wf(),
            final(self).registers == (Registers {
                processor_status: spec_nz(old(self).registers.processor_status, spec_inc_val(old(self).memory.buffer@[spec_zp_x_ea(addr_lower_byte, old(self).registers.index_x) as int])),
                ..old(self).registers
            }),
            spec_store_rel(old(self).memory, final(self).memory, spec_zp_x_ea(addr_lower_byte, old(self).registers.index_x), spec_inc_val(old(self).memory.buffer@[spec_zp_x_ea(addr_lower_byte, old(self).registers.index_x) as int])),
            final(self).num_cycles == old(self).num_cycles,
            final(self).memory.ppu.regs.num_cycles == old(self).memory.ppu.regs.num_cycles,
            cycles == 6,
    {
        let new_val = self
            .memory
            .fetch_zero_page_x(addr_lower_byte, self.registers.index_x)
            .wrapping_add(1);

        self.memory.store_zero_page_x(addr_lower_byte, self.registers.index_x, new_val);
        self.update_zero_negative_flags(new_val);

        6
    }

    /// INC - increment the addressed byte.
    pub fn inc_absolute(&mut self, address: u16) -> (cycles: u8)
        requires
            old(self).wf(),
        ensures
            final(self).wf(),
            final(self).registers == (Registers {
                processor_status: spec_nz(old(self).registers.processor_status, spec_inc_val(spec_read_value(old(self).memory, address))),
                ..old(self).registers
            }),
            spec_store_rel_x(old(self).memory, spec_read_regs_x(old(self).memory, old(self).memory.ppu.regs, address), spec_read_input_x(old(self).memory.input, address), final(self).memory, address, spec_inc_val(spec_read_value(old(self).memory, address))),
            final(self).num_cycles == old(self).num_cycles,
            final(self).memory.ppu.regs.num_cycles == old(self).memory.ppu.regs.num_cycles,
            cycles == 6,
    {
        let new_val = self.memory.fetch_absolute(address).wrapping_add(1);

        self.memory.store_absolute(address, new_val);
        self.update_zero_negative_flags(new_val);

        6
    }

    /// INC - increment the addressed byte.
    pub fn inc_absolute_x(&mut self, address: u16) -> (cycles: u8)
        requires
            old(self).wf(),
        ensures
            final(self).wf(),
            final(self).registers == (Registers {
                processor_status: spec_nz(old(self).registers.processor_status, spec_inc_val(spec_read_value(old(self).memory, spec_abs_x_ea(address, old(self).registers.index_x)))),
                ..old(self).registers
            }),
            spec_store_rel_x(old(self).memory, spec_read_regs_x(old(self).memory, old(self).memory.ppu.regs, spec_abs_x_ea(address, old(self).registers.index_x)), spec_read_input_x(old(self).memory.input, spec_abs_x_ea(address, old(self).registers.index_x)), final(self).memory, spec_abs_x_ea(address, old(self).registers.index_x), spec_inc_val(spec_read_value(old(self).memory, spec_abs_x_ea(address, old(self).registers.index_x)))),
            final(self).num_cycles == old(self).num_cycles,
            final(self).memory.ppu.regs.num_cycles == old(self).memory.ppu.regs.num_cycles,
            cycles == 7,
    {
        let new_val = self.memory.fetch_absolute_x(address, self.registers.index_x).wrapping_add(1);

        self.memory.store_absolute_x(address, self.registers.index_x, new_val);
        self.update_zero_negative_flags(new_val);

        7
    }

    /// DEC - decrement the addressed byte.
    pub fn dec_zero_page(&mut self, addr_lower_byte: u8) -> (cycles: u8)
        requires
            old(self).wf(),
        ensures
            final(self).wf(),
            final(self).registers == (Registers {
                processor_status: spec_nz(old(self).registers.processor_status, spec_dec_val(old(self).memory.buffer@[addr_lower_byte as int])),
                ..old(self).registers
            }),
            spec_store_rel(old(self).memory, final(self).memory, addr_lower_byte as u16, spec_dec_val(old(self).memory.buffer@[addr_lower_byte as int])),
            final(self).num_cycles == old(self).num_cycles,
            final(self).memory.ppu.regs.num_cycles == old(self).memory.ppu.regs.num_cycles,
            cycles == 5,
    {
        let new_val = self.memory.fetch_zero_page(addr_lower_byte).wrapping_sub(1);

        self.memory.store_zero_page(addr_lower_byte, new_val);
        self.update_zero_negative_flags(new_val);

        5
    }

    /// DEC - decrement the addressed byte.
    pub fn dnc_zero_page_x(&mut self, addr_lower_byte: u8) -> (cycles: u8)
        requires
            old(self).wf(),
        ensures
            final(self).wf(),
            final(self).registers == (Registers {
                processor_status: spec_nz(old(self).registers.processor_status, spec_dec_val(old(self).memory.buffer@[spec_zp_x_ea(addr_lower_byte, old(self).registers.index_x) as int])),
                ..old(self).registers
            }),
            spec_store_rel(old(self).memory, final(self).memory, spec_zp_x_ea(addr_lower_byte, old(self).registers.index_x), spec_dec_val(old(self).memory.buffer@[spec_zp_x_ea(addr_lower_byte, old(self).registers.index_x) as int])),
            final(self).num_cycles == old(self).num_cycles,
            final(self).memory.ppu.regs.num_cycles == old(self).memory.ppu.regs.num_cycles,
            cycles == 6,
    {
        let new_val = self
            .memory
            .fetch_zero_page_x(addr_lower_byte, self.registers.index_x)
            .wrapping_sub(1);

        self.memory.store_zero_page_x(addr_lower_byte, self.registers.index_x, new_val);
        self.update_zero_negative_flags(new_val);

        6
    }

    /// DEC - decrement the addressed byte.
    pub fn dec_absolute(&mut self, address: u16) -> (cycles: u8)
        requires
            old(self).wf(),
        ensures
            final(self).wf(),
            final(self).registers == (Registers {
                processor_status: spec_nz(old(self).registers.processor_status, spec_dec_val(spec_read_value(old(self).memory, address))),
                ..old(self).registers
            }),
            spec_store_rel_x(old(self).memory, spec_read_regs_x(old(self).memory, old(self).memory.ppu.regs, address), spec_read_input_x(old(self).memory.input, address), final(self).memory, address, spec_dec_val(spec_read_value(old(self).memory, address))),
            final(self).num_cycles == old(self).num_cycles,
            final(self).memory.ppu.regs.num_cycles == old(self).memory.ppu.regs.num_cycles,
            cycles == 6,
    {
        let new_val = self.memory.fetch_absolute(address).wrapping_sub(1);

        self.memory.store_absolute(address, new_val);
        self.update_zero_negative_flags(new_val);

        6
    }

    /// DEC - decrement the addressed byte.
    pub fn dec_absolute_x(&mut self, address: u16) -> (cycles: u8)
        requires
            old(self).wf(),
        ensures
            final(self).wf(),
            final(self).registers == (Registers {
                processor_status: spec_nz(old(self).registers.processor_status, spec_dec_val(spec_read_value(old(self).memory, spec_abs_x_ea(address, old(self).registers.index_x)))),
                ..old(self).registers
            }),
            spec_store_rel_x(old(self).memory, spec_read_regs_x(old(self).memory, old(self).memory.ppu.regs, spec_abs_x_ea(address, old(self).registers.index_x)), spec_read_input_x(old(self).memory.input, spec_abs_x_ea(address, old(self).registers.index_x)), final(self).memory, spec_abs_x_ea(address, old(self).registers.index_x), spec_dec_val(spec_read_value(old(self).memory, spec_abs_x_ea(address, old(self).registers.index_x)))),
            final(self).num_cycles == old(self).num_cycles,
            final(self).memory.ppu.regs.num_cycles == old(self).memory.ppu.regs.num_cycles,
            cycles == 7,
    {
        let new_val = self.memory.fetch_absolute_x(address, self.registers.index_x).wrapping_sub(1);

        self.memory.store_absolute_x(address, self.registers.index_x, new_val);
        self.update_zero_negative_flags(new_val);

        7
    }

    /// STA - store the accumulator.
    pub fn sta_zero_page(&mut self, addr_lower_byte: u8) -> (cycles: u8)
        requires
            old(self).wf(),
        ensures
            final(self).wf(),
            final(self).registers == old(self).registers,
            spec_store_rel(old(self).memory, final(self).memory, addr_lower_byte as u16, old(self).registers.accumulator),
            final(self).num_cycles == old(self).num_cycles,
            final(self).memory.ppu.regs.num_cycles == old(self).memory.ppu.regs.num_cycles,
            cycles == 3,
    {
        self.memory.store_zero_page(addr_lower_byte, self.registers.accumulator);

        3
    }

    /// STA - store the accumulator.
    pub fn sta_zero_page_x(&mut self, addr_lower_byte: u8) -> (cycles: u8)
        requires
            old(self).wf(),
        ensures
            final(self).wf(),
            final(self).registers == old(self).registers,
            spec_store_rel(old(self).memory, final(self).memory, spec_zp_x_ea(addr_lower_byte, old(self).registers.index_x), old(self).registers.accumulator),
            final(self).num_cycles == old(self).num_cycles,
            final(self).memory.ppu.regs.num_cycles == old(self).memory.ppu.regs.num_cycles,
            cycles == 4,
    {
        self.memory.store_zero_page_x(addr_lower_byte, self.registers.index_x, self.registers.accumulator);

        4
    }

    /// STA - store the accumulator.
    pub fn sta_absolute(&mut self, address: u16) -> (cycles: u8)
        requires
            old(self).wf(),
        ensures
            final(self).wf(),
            final(self).registers == old(self).registers,
            spec_store_rel(old(self).memory, final(self).memory, address, old(self).registers.accumulator),
            final(self).num_cycles == old(self).num_cycles,
            final(self).memory.ppu.regs.num_cycles == old(self).memory.ppu.regs.num_cycles,
            cycles == 4,
    {
        self.memory.store_absolute(address, self.registers.accumulator);

        4
    }

    /// STA - store the accumulator.
    pub fn sta_absolute_x(&mut self, address: u16) -> (cycles: u8)
        requires
            old(self).wf(),
        ensures
            final(self).wf(),
            final(self).registers == old(self).registers,
            spec_store_rel(old(self).memory, final(self).memory, spec_abs_x_ea(address, old(self).registers.index_x), old(self).registers.accumulator),
            final(self).num_cycles == old(self).num_cycles,
            final(self).memory.ppu.regs.num_cycles == old(self).memory.ppu.regs.num_cycles,
            cycles == 5,
    {
        self.memory.store_absolute_x(address, self.registers.index_x, self.registers.accumulator);

        5
    }

    /// STA - store the accumulator.
    pub fn sta_absolute_y(&mut self, address: u16) -> (cycles: u8)
        requires
            old(self).wf(),
        ensures
            final(self).wf(),
            final(self).registers == old(self).registers,
            spec_store_rel(old(self).memory, final(self).memory, spec_abs_x_ea(address, old(self).registers.index_y), old(self).registers.accumulator),
            final(self).num_cycles == old(self).num_cycles,
            final(self).memory.ppu.regs.num_cycles == old(self).memory.ppu.regs.num_cycles,
            cycles == 5,
    {
        self.memory.store_absolute_x(address, self.registers.index_y, self.registers.accumulator);

        5
    }

    /// STA - store the accumulator.
    pub fn sta_indirect_x(&mut self, addr_lower_byte: u8) -> (cycles: u8)
        requires
            old(self).wf(),
        ensures
            final(self).wf(),
            final(self).registers == old(self).registers,
            spec_store_rel(old(self).memory, final(self).memory, spec_ind_x_ea(old(self).memory.buffer@, addr_lower_byte, old(self).registers.index_x), old(self).registers.accumulator),
            final(self).num_cycles == old(self).num_cycles,
            final(self).memory.ppu.regs.num_cycles == old(self).memory.ppu.regs.num_cycles,
            cycles == 6,
    {
        self.memory.store_indirect_x(addr_lower_byte, self.registers.index_x, self.registers.accumulator);

        6
    }

    /// STA - store the accumulator.
    pub fn sta_indirect_y(&mut self, addr_lower_byte: u8) -> (cycles: u8)
        requires
            old(self).wf(),
        ensures
            final(self).wf(),
            final(self).registers == old(self).registers,
            spec_store_rel(old(self).memory, final(self).memory, spec_ind_y_ea(old(self).memory.buffer@, addr_lower_byte, old(self).registers.index_y), old(self).registers.accumulator),
            final(self).num_cycles == old(self).num_cycles,
            final(self).memory.ppu.regs.num_cycles == old(self).memory.ppu.regs.num_cycles,
            cycles == 6,
    {
        self.memory.store_indirect_y(addr_lower_byte, self.registers.index_y, self.registers.accumulator);

        6
    }

    /// STX - store X.
    pub fn stx_zero_page(&mut self, addr_lower_byte: u8) -> (cycles: u8)
        requires
            old(self).wf(),
        ensures
            final(self).wf(),
            final(self).registers == old(self).registers,
            spec_store_rel(old(self).memory, final(self).memory, addr_lower_byte as u16, old(self).registers.index_x),
            final(self).num_cycles == old(self).num_cycles,
            final(self).memory.ppu.regs.num_cycles == old(self).memory.ppu.regs.num_cycles,
            cycles == 3,
    {
        self.memory.store_zero_page(addr_lower_byte, self.registers.index_x);

        3
    }

    /// STX - store X.
    pub fn stx_zero_page_y(&mut self, addr_lower_byte: u8) -> (cycles: u8)
        requires
            old(self).wf(),
        ensures
            final(self).wf(),
            final(self).registers == old(self).registers,
            spec_store_rel(old(self).memory, final(self).memory, spec_zp_x_ea(addr_lower_byte, old(self).registers.index_y), old(self).registers.index_x),
            final(self).num_cycles == old(self).num_cycles,
            final(self).memory.ppu.regs.num_cycles == old(self).memory.ppu.regs.num_cycles,
            cycles == 4,
    {
        self.memory.store_zero_page_x(addr_lower_byte, self.registers.index_y, self.registers.index_x);

        4
    }

    /// STX - store X.
    pub fn stx_absolute(&mut self, address: u16) -> (cycles: u8)
        requires
            old(self).wf(),
        ensures
            final(self).wf(),
            final(self).registers == old(self).registers,
            spec_store_rel(old(self).memory, final(self).memory, address, old(self).registers.index_x),
            final(self).num_cycles == old(self).num_cycles,
            final(self).memory.ppu.regs.num_cycles == old(self).memory.ppu.regs.num_cycles,
            cycles == 4,
    {
        self.memory.store_absolute(address, self.registers.index_x);

        4
    }

    /// STY - store Y.
    pub fn sty_zero_page(&mut self, addr_lower_byte: u8) -> (cycles: u8)
        requires
            old(self).wf(),
        ensures
            final(self).wf(),
            final(self).registers == old(self).registers,
            spec_store_rel(old(self).memory, final(self).memory, addr_lower_byte as u16, old(self).registers.index_y),
            final(self).num_cycles == old(self).num_cycles,
            final(self).memory.ppu.regs.num_cycles == old(self).memory.ppu.regs.num_cycles,
            cycles == 3,
    {
        self.memory.store_zero_page(addr_lower_byte, self.registers.index_y);

        3
    }

    /// STY - store Y.
    pub fn sty_zero_page_x(&mut self, addr_lower_byte: u8) -> (cycles: u8)
        requires
            old(self).wf(),
        ensures
            final(self).wf(),
            final(self).registers == old(self).registers,
            spec_store_rel(old(self).memory, final(self).memory, spec_zp_x_ea(addr_lower_byte, old(self).registers.index_x), old(self).registers.index_y),
            final(self).num_cycles == old(self).num_cycles,
            final(self).memory.ppu.regs.num_cycles == old(self).memory.ppu.regs.num_cycles,
            cycles == 4,
    {
        self.memory.store_zero_page_x(addr_lower_byte, self.registers.index_x, self.registers.index_y);

        4
    }

    /// STY - store Y.
    pub fn sty_absolute(&mut self, address: u16) -> (cycles: u8)
        requires
            old(self).wf(),
        ensures
            final(self).wf(),
            final(self).registers == old(self).registers,
            spec_store_rel(old(self).memory, final(self).memory, address, old(self).registers.index_y),
            final(self).num_cycles == old(self).num_cycles,
            final(self).memory.ppu.regs.num_cycles == old(self).memory.ppu.regs.num_cycles,
            cycles == 4,
    {
        self.memory.store_absolute(address, self.registers.index_y);

        4
    }

    /// SAX (unofficial) - store the bitwise AND of A and X.
    pub fn sax_zero_page(&mut self, addr_lower_byte: u8) -> (cycles: u8)
        requires
            old(self).wf(),
        ensures
            final(self).wf(),
            final(self).registers == old(self).registers,
            spec_store_rel(old(self).memory, final(self).memory, addr_lower_byte as u16, (old(self).registers.accumulator & old(self).registers.index_x)),
            final(self).num_cycles == old(self).num_cycles,
            final(self).memory.ppu.regs.num_cycles == old(self).memory.ppu.regs.num_cycles,
            cycles == 3,
    {
        self.memory.store_zero_page(addr_lower_byte, (self.registers.accumulator & self.registers.index_x));

        3
    }

    /// SAX (unofficial) - store the bitwise AND of A and X.
    pub fn sax_zero_page_y(&mut self, addr_lower_byte: u8) -> (cycles: u8)
        requires
            old(self).wf(),
        ensures
            final(self).wf(),
            final(self).registers == old(self).registers,
            spec_store_rel(old(self).memory, final(self).memory, spec_zp_x_ea(addr_lower_byte, old(self).registers.index_y), (old(self).registers.accumulator & old(self).registers.index_x)),
            final(self).num_cycles == old(self).num_cycles,
            final(self).memory.ppu.regs.num_cycles == old(self).memory.ppu.regs.num_cycles,
            cycles == 4,
    {
        self.memory.store_zero_page_x(addr_lower_byte, self.registers.index_y, (self.registers.accumulator & self.registers.index_x));

        4
    }

    /// SAX (unofficial) - store the bitwise AND of A and X.
    pub fn sax_absolute(&mut self, address: u16) -> (cycles: u8)
        requires
            old(self).wf(),
        ensures
            final(self).wf(),
            final(self).registers == old(self).registers,
            spec_store_rel(old(self).memory, final(self).memory, address, (old(self).registers.accumulator & old(self).registers.index_x)),
            final(self).num_cycles == old(self).num_cycles,
            final(self).memory.ppu.regs.num_cycles == old(self).memory.ppu.regs.num_cycles,
            cycles == 4,
    {
        self.memory.store_absolute(address, (self.registers.accumulator & self.registers.index_x));

        4
    }

    /// SAX (unofficial) - store the bitwise AND of A and X.
    pub fn sax_indirect_x(&mut self, addr_lower_byte: u8) -> (cycles: u8)
        requires
            old(self).wf(),
        ensures
            final(self).wf(),
            final(self).registers == old(self).registers,
            spec_store_rel(old(self).memory, final(self).memory, spec_ind_x_ea(old(self).memory.buffer@, addr_lower_byte, old(self).registers.index_x), (old(self).registers.accumulator & old(self).registers.index_x)),
            final(self).num_cycles == old(self).num_cycles,
            final(self).memory.ppu.regs.num_cycles == old(self).memory.ppu.regs.num_cycles,
            cycles == 6,
    {
        self.memory.store_indirect_x(addr_lower_byte, self.registers.index_x, (self.registers.accumulator & self.registers.index_x));

        6
    }

    /// BCC - branch when the carry flag is clear: the signed displacement applies to the address after the
    /// 2-byte instruction; a taken branch costs one extra cycle, and one
    /// more when the target leaves the current page.
    pub fn bcc(&mut self, offset: u8) -> (cycles: u8)
        requires
            old(self).wf(),
        ensures
            final(self).wf(),
            final(self).registers == (if old(self).registers.processor_status & FLAG_CARRY == 0 {
                Registers {
                    program_counter: spec_branch_target(old(self).registers.program_counter, offset),
                    ..old(self).registers
                }
            } else {
                old(self).registers
            }),
            spec_mem_unchanged(old(self).memory, final(self).memory),
            final(self).num_cycles == old(self).num_cycles,
            final(self).memory.ppu.regs.num_cycles == old(self).memory.ppu.regs.num_cycles,
            cycles == spec_branch_cycles(
                old(self).registers.program_counter,
                offset,
                old(self).registers.processor_status & FLAG_CARRY == 0,
            ),
    {
        if self.registers.processor_status & FLAG_CARRY == 0 {
            let pc = self.registers.program_counter;
            let target = if offset < 0x80 {
                pc.wrapping_add(offset as u16)
            } else {
                pc.wrapping_add(offset as u16).wrapping_sub(0x100)
            };
            let base = pc.wrapping_add(2);
            let after = if offset < 0x80 {
                base.wrapping_add(offset as u16)
            } else {
                base.wrapping_add(offset as u16).wrapping_sub(0x100)
            };
            let crossed = pc / 256 != after / 256;
            self.registers.program_counter = target;
            if crossed {
                4
            } else {
                3
            }
        } else {
            2
        }
    }

    /// BCS - branch when the carry flag is set: the signed displacement applies to the address after the
    /// 2-byte instruction; a taken branch costs one extra cycle, and one
    /// more when the target leaves the current page.
    pub fn bcs(&mut self, offset: u8) -> (cycles: u8)
        requires
            old(self).wf(),
        ensures
            final(self).wf(),
            final(self).registers == (if old(self).registers.processor_status & FLAG_CARRY != 0 {
                Registers {
                    program_counter: spec_branch_target(old(self).registers.program_counter, offset),
                    ..old(self).registers
                }
            } else {
                old(self).registers
            }),
            spec_mem_unchanged(old(self).memory, final(self).memory),
            final(self).num_cycles == old(self).num_cycles,
            final(self).memory.ppu.regs.num_cycles == old(self).memory.ppu.regs.num_cycles,
            cycles == spec_branch_cycles(
                old(self).registers.program_counter,
                offset,
                old(self).registers.processor_status & FLAG_CARRY != 0,
            ),
    {
        if self.registers.processor_status & FLAG_CARRY != 0 {
            let pc = self.registers.program_counter;
            let target = if offset < 0x80 {
                pc.wrapping_add(offset as u16)
            } else {
                pc.wrapping_add(offset as u16).wrapping_sub(0x100)
            };
            let base = pc.wrapping_add(2);
            let after = if offset < 0x80 {
                base.wrapping_add(offset as u16)
            } else {
                base.wrapping_add(offset as u16).wrapping_sub(0x100)
            };
            let crossed = pc / 256 != after / 256;
            self.registers.program_counter = target;
            if crossed {
                4
            } else {
                3
            }
        } else {
            2
        }
    }

    /// BEQ - branch when the zero flag is set: the signed displacement applies to the address after the
    /// 2-byte instruction; a taken branch costs one extra cycle, and one
    /// more when the target leaves the current page.
    pub fn beq(&mut self, offset: u8) -> (cycles: u8)
        requires
            old(self).wf(),
        ensures
            final(self).wf(),
            final(self).registers == (if old(self).registers.processor_status & FLAG_ZERO != 0 {
                Registers {
                    program_counter: spec_branch_target(old(self).registers.program_counter, offset),
                    ..old(self).registers
                }
            } else {
                old(self).registers
            }),
            spec_mem_unchanged(old(self).memory, final(self).memory),
            final(self).num_cycles == old(self).num_cycles,
            final(self).memory.ppu.regs.num_cycles == old(self).memory.ppu.regs.num_cycles,
            cycles == spec_branch_cycles(
                old(self).registers.program_counter,
                offset,
                old(self).registers.processor_status & FLAG_ZERO != 0,
            ),
    {
        if self.registers.processor_status & FLAG_ZERO != 0 {
            let pc = self.registers.program_counter;
            let target = if offset < 0x80 {
                pc.wrapping_add(offset as u16)
            } else {
                pc.wrapping_add(offset as u16).wrapping_sub(0x100)
            };
            let base = pc.wrapping_add(2);
            let after = if offset < 0x80 {
                base.wrapping_add(offset as u16)
            } else {
                base.wrapping_add(offset as u16).wrapping_sub(0x100)
            };
            let crossed = pc / 256 != after / 256;
            self.registers.program_counter = target;
            if crossed {
                4
            } else {
                3
            }
        } else {
            2
        }
    }

    /// BNE - branch when the zero flag is clear: the signed displacement applies to the address after the
    /// 2-byte instruction; a taken branch costs one extra cycle, and one
    /// more when the target leaves the current page.
    pub fn bne(&mut self, offset: u8) -> (cycles: u8)
        requires
            old(self).wf(),
        ensures
            final(self).wf(),
            final(self).registers == (if old(self).registers.processor_status & FLAG_ZERO == 0 {
                Registers {
                    program_counter: spec_branch_target(old(self).registers.program_counter, offset),
                    ..old(self).registers
                }
            } else {
                old(self).registers
            }),
            spec_mem_unchanged(old(self).memory, final(self).memory),
            final(self).num_cycles == old(self).num_cycles,
            final(self).memory.ppu.regs.num_cycles == old(self).memory.ppu.regs.num_cycles,
            cycles == spec_branch_cycles(
                old(self).registers.program_counter,
                offset,
                old(self).registers.processor_status & FLAG_ZERO == 0,
            ),
    {
        if self.registers.processor_status & FLAG_ZERO == 0 {
            let pc = self.registers.program_counter;
            let target = if offset < 0x80 {
                pc.wrapping_add(offset as u16)
            } else {
                pc.wrapping_add(offset as u16).wrapping_sub(0x100)
            };
            let base = pc.wrapping_add(2);
            let after = if offset < 0x80 {
                base.wrapping_add(offset as u16)
            } else {
                base.wrapping_add(offset as u16).wrapping_sub(0x100)
            };
            let crossed = pc / 256 != after / 256;
            self.registers.program_counter = target;
            if crossed {
                4
            } else {
                3
            }
        } else {
            2
        }
    }

    /// BMI - branch when the negative flag is set: the signed displacement applies to the address after the
    /// 2-byte instruction; a taken branch costs one extra cycle, and one
    /// more when the target leaves the current page.
    pub fn bmi(&mut self, offset: u8) -> (cycles: u8)
        requires
            old(self).wf(),
        ensures
            final(self).wf(),
            final(self).registers == (if old(self).registers.processor_status & FLAG_NEGATIVE != 0 {
                Registers {
                    program_counter: spec_branch_target(old(self).registers.program_counter, offset),
                    ..old(self).registers
                }
            } else {
                old(self).registers
            }),
            spec_mem_unchanged(old(self).memory, final(self).memory),
            final(self).num_cycles == old(self).num_cycles,
            final(self).memory.ppu.regs.num_cycles == old(self).memory.ppu.regs.num_cycles,
            cycles == spec_branch_cycles(
                old(self).registers.program_counter,
                offset,
                old(self).registers.processor_status & FLAG_NEGATIVE != 0,
            ),
    {
        if self.registers.processor_status & FLAG_NEGATIVE != 0 {
            let pc = self.registers.program_counter;
            let target = if offset < 0x80 {
                pc.wrapping_add(offset as u16)
            } else {
                pc.wrapping_add(offset as u16).wrapping_sub(0x100)
            };
            let base = pc.wrapping_add(2);
            let after = if offset < 0x80 {
                base.wrapping_add(offset as u16)
            } else {
                base.wrapping_add(offset as u16).wrapping_sub(0x100)
            };
            let crossed = pc / 256 != after / 256;
            self.registers.program_counter = target;
            if crossed {
                4
            } else {
                3
            }
        } else {
            2
        }
    }

    /// BPL - branch when the negative flag is clear: the signed displacement applies to the address after the
    /// 2-byte instruction; a taken branch costs one extra cycle, and one
    /// more when the target leaves the current page.
    pub fn bpl(&mut self, offset: u8) -> (cycles: u8)
        requires
            old(self).wf(),
        ensures
            final(self).wf(),
            final(self).registers == (if old(self).registers.processor_status & FLAG_NEGATIVE == 0 {
                Registers {
                    program_counter: spec_branch_target(old(self).registers.program_counter, offset),
                    ..old(self).registers
                }
            } else {
                old(self).registers
            }),
            spec_mem_unchanged(old(self).memory, final(self).memory),
            final(self).num_cycles == old(self).num_cycles,
            final(self).memory.ppu.regs.num_cycles == old(self).memory.ppu.regs.num_cycles,
            cycles == spec_branch_cycles(
                old(self).registers.program_counter,
                offset,
                old(self).registers.processor_status & FLAG_NEGATIVE == 0,
            ),
    {
        if self.registers.processor_status & FLAG_NEGATIVE == 0 {
            let pc = self.registers.program_counter;
            let target = if offset < 0x80 {
                pc.wrapping_add(offset as u16)
            } else {
                pc.wrapping_add(offset as u16).wrapping_sub(0x100)
            };
            let base = pc.wrapping_add(2);
            let after = if offset < 0x80 {
                base.wrapping_add(offset as u16)
            } else {
                base.wrapping_add(offset as u16).wrapping_sub(0x100)
            };
            let crossed = pc / 256 != after / 256;
            self.registers.program_counter = target;
            if crossed {
                4
            } else {
                3
            }
        } else {
            2
        }
    }

    /// BVC - branch when the overflow flag is clear: the signed displacement applies to the address after the
    /// 2-byte instruction; a taken branch costs one extra cycle, and one
    /// more when the target leaves the current page.
    pub fn bvc(&mut self, offset: u8) -> (cycles: u8)
        requires
            old(self).wf(),
        ensures
            final(self).wf(),
            final(self).registers == (if old(self).registers.processor_status & FLAG_OVERFLOW == 0 {
                Registers {
                    program_counter: spec_branch_target(old(self).registers.program_counter, offset),
                    ..old(self).registers
                }
            } else {
                old(self).registers
            }),
            spec_mem_unchanged(old(self).memory, final(self).memory),
            final(self).num_cycles == old(self).num_cycles,
            final(self).memory.ppu.regs.num_cycles == old(self).memory.ppu.regs.num_cycles,
            cycles == spec_branch_cycles(
                old(self).registers.program_counter,
                offset,
                old(self).registers.processor_status & FLAG_OVERFLOW == 0,
            ),
    {
        if self.registers.processor_status & FLAG_OVERFLOW == 0 {
            let pc = self.registers.program_counter;
            let target = if offset < 0x80 {
                pc.wrapping_add(offset as u16)
            } else {
                pc.wrapping_add(offset as u16).wrapping_sub(0x100)
            };
            let base = pc.wrapping_add(2);
            let after = if offset < 0x80 {
                base.wrapping_add(offset as u16)
            } else {
                base.wrapping_add(offset as u16).wrapping_sub(0x100)
            };
            let crossed = pc / 256 != after / 256;
            self.registers.program_counter = target;
            if crossed {
                4
            } else {
                3
            }
        } else {
            2
        }
    }

    /// BVS - branch when the overflow flag is set: the signed displacement applies to the address after the
    /// 2-byte instruction; a taken branch costs one extra cycle, and one
    /// more when the target leaves the current page.
    pub fn bvs(&mut self, offset: u8) -> (cycles: u8)
        requires
            old(self).wf(),
        ensures
            final(self).wf(),
            final(self).registers == (if old(self).registers.processor_status & FLAG_OVERFLOW != 0 {
                Registers {
                    program_counter: spec_branch_target(old(self).registers.program_counter, offset),
                    ..old(self).registers
                }
            } else {
                old(self).registers
            }),
            spec_mem_unchanged(old(self).memory, final(self).memory),
            final(self).num_cycles == old(self).num_cycles,
            final(self).memory.ppu.regs.num_cycles == old(self).memory.ppu.regs.num_cycles,
            cycles == spec_branch_cycles(
                old(self).registers.program_counter,
                offset,
                old(self).registers.processor_status & FLAG_OVERFLOW != 0,
            ),
    {
        if self.registers.processor_status & FLAG_OVERFLOW != 0 {
            let pc = self.registers.program_counter;
            let target = if offset < 0x80 {
                pc.wrapping_add(offset as u16)
            } else {
                pc.wrapping_add(offset as u16).wrapping_sub(0x100)
            };
            let base = pc.wrapping_add(2);
            let after = if offset < 0x80 {
                base.wrapping_add(offset as u16)
            } else {
                base.wrapping_add(offset as u16).wrapping_sub(0x100)
            };
            let crossed = pc / 256 != after / 256;
            self.registers.program_counter = target;
            if crossed {
                4
            } else {
                3
            }
        } else {
            2
        }
    }

    /// CLC - clear the carry flag.
    pub fn clc(&mut self) -> (cycles: u8)
        requires
            old(self).wf(),
        ensures
            final(self).wf(),
            final(self).registers == (Registers {
                processor_status: old(self).registers.processor_status & !FLAG_CARRY,
                ..old(self).registers
            }),
            spec_mem_unchanged(old(self).memory, final(self).memory),
            final(self).num_cycles == old(self).num_cycles,
            final(self).memory.ppu.regs.num_cycles == old(self).memory.ppu.regs.num_cycles,
            cycles == 2,
    {
        self.registers.unset_carry();

        2
    }

    /// CLD - clear the decimal-mode flag.
    pub fn cld(&mut self) -> (cycles: u8)
        requires
            old(self).wf(),
        ensures
            final(self).wf(),
            final(self).registers == (Registers {
                processor_status: old(self).registers.processor_status & !FLAG_DECIMAL,
                ..old(self).registers
            }),
            spec_mem_unchanged(old(self).memory, final(self).memory),
            final(self).num_cycles == old(self).num_cycles,
            final(self).memory.ppu.regs.num_cycles == old(self).memory.ppu.regs.num_cycles,
            cycles == 2,
    {
        self.registers.unset_decimal();

        2
    }

    /// CLI - clear the interrupt-disable flag.
    pub fn cli(&mut self) -> (cycles: u8)
        requires
            old(self).wf(),
        ensures
            final(self).wf(),
            final(self).registers == (Registers {
                processor_status: old(self).registers.processor_status & !FLAG_INTERRUPT_DISABLE,
                ..old(self).registers
            }),
            spec_mem_unchanged(old(self).memory, final(self).memory),
            final(self).num_cycles == old(self).num_cycles,
            final(self).memory.ppu.regs.num_cycles == old(self).memory.ppu.regs.num_cycles,
            cycles == 2,
    {
        self.registers.unset_interrupt_disable();

        2
    }

    /// CLV - clear the overflow flag.
    pub fn clv(&mut self) -> (cycles: u8)
        requires
            old(self).wf(),
        ensures
            final(self).wf(),
            final(self).registers == (Registers {
                processor_status: old(self).registers.processor_status & !FLAG_OVERFLOW,
                ..old(self).registers
            }),
            spec_mem_unchanged(old(self).memory, final(self).memory),
            final(self).num_cycles == old(self).num_cycles,
            final(self).memory.ppu.regs.num_cycles == old(self).memory.ppu.regs.num_cycles,
            cycles == 2,
    {
        self.registers.unset_overflow();

        2
    }

    /// SEC - set the carry flag.
    pub fn sec(&mut self) -> (cycles: u8)
        requires
            old(self).wf(),
        ensures
            final(self).wf(),
            final(self).registers == (Registers {
                processor_status: old(self).registers.processor_status | FLAG_CARRY,
                ..old(self).registers
            }),
            spec_mem_unchanged(old(self).memory, final(self).memory),
            final(self).num_cycles == old(self).num_cycles,
            final(self).memory.ppu.regs.num_cycles == old(self).memory.ppu.regs.num_cycles,
            cycles == 2,
    {
        self.registers.set_carry();

        2
    }

    /// SED - set the decimal-mode flag.
    pub fn sed(&mut self) -> (cycles: u8)
        requires
            old(self).wf(),
        ensures
            final(self).wf(),
            final(self).registers == (Registers {
                processor_status: old(self).registers.processor_status | FLAG_DECIMAL,
                ..old(self).registers
            }),
            spec_mem_unchanged(old(self).memory, final(self).memory),
            final(self).num_cycles == old(self).num_cycles,
            final(self).memory.ppu.regs.num_cycles == old(self).memory.ppu.regs.num_cycles,
            cycles == 2,
    {
        self.registers.set_decimal();

        2
    }

    /// SEI - set the interrupt-disable flag.
    pub fn sei(&mut self) -> (cycles: u8)
        requires
            old(self).wf(),
        ensures
            final(self).wf(),
            final(self).registers == (Registers {
                processor_status: old(self).registers.processor_status | FLAG_INTERRUPT_DISABLE,
                ..old(self).registers
            }),
            spec_mem_unchanged(old(self).memory, final(self).memory),
            final(self).num_cycles == old(self).num_cycles,
            final(self).memory.ppu.regs.num_cycles == old(self).memory.ppu.regs.num_cycles,
            cycles == 2,
    {
        self.registers.set_interrupt_disable();

        2
    }

    /// INX - increment X with wrap; Z and N follow the result.
    pub fn inx_implied(&mut self) -> (cycles: u8)
        requires
            old(self).wf(),
        ensures
            final(self).wf(),
            final(self).registers == spec_ldx_regs(
                old(self).registers,
                spec_inc_val(old(self).registers.index_x),
            ),
            spec_mem_unchanged(old(self).memory, final(self).memory),
            final(self).num_cycles == old(self).num_cycles,
            final(self).memory.ppu.regs.num_cycles == old(self).memory.ppu.regs.num_cycles,
            cycles == 2,
    {
        self.registers.index_x = self.registers.index_x.wrapping_add(1);
        let x = self.registers.index_x;
        self.update_zero_negative_flags(x);

        2
    }

    /// INY - increment Y with wrap; Z and N follow the result.
    pub fn iny_implied(&mut self) -> (cycles: u8)
        requires
            old(self).wf(),
        ensures
            final(self).wf(),
            final(self).registers == spec_ldy_regs(
                old(self).registers,
                spec_inc_val(old(self).registers.index_y),
            ),
            spec_mem_unchanged(old(self).memory, final(self).memory),
            final(self).num_cycles == old(self).num_cycles,
            final(self).memory.ppu.regs.num_cycles == old(self).memory.ppu.regs.num_cycles,
            cycles == 2,
    {
        self.registers.index_y = self.registers.index_y.wrapping_add(1);
        let y = self.registers.index_y;
        self.update_zero_negative_flags(y);

        2
    }

    /// DEX - decrement X with wrap; Z and N follow the result.
    pub fn dex_implied(&mut self) -> (cycles: u8)
        requires
            old(self).wf(),
        ensures
            final(self).wf(),
            final(self).registers == spec_ldx_regs(
                old(self).registers,
                spec_dec_val(old(self).registers.index_x),
            ),
            spec_mem_unchanged(old(self).memory, final(self).memory),
            final(self).num_cycles == old(self).num_cycles,
            final(self).memory.ppu.regs.num_cycles == old(self).memory.ppu.regs.num_cycles,
            cycles == 2,
    {
        self.registers.index_x = self.registers.index_x.wrapping_sub(1);
        let x = self.registers.index_x;
        self.update_zero_negative_flags(x);

        2
    }

    /// DEY - decrement Y with wrap; Z and N follow the result.
    pub fn dey_implied(&mut self) -> (cycles: u8)
        requires
            old(self).wf(),
        ensures
            final(self).wf(),
            final(self).registers == spec_ldy_regs(
                old(self).registers,
                spec_dec_val(old(self).registers.index_y),
            ),
            spec_mem_unchanged(old(self).memory, final(self).memory),
            final(self).num_cycles == old(self).num_cycles,
            final(self).memory.ppu.regs.num_cycles == old(self).memory.ppu.regs.num_cycles,
            cycles == 2,
    {
        self.registers.index_y = self.registers.index_y.wrapping_sub(1);
        let y = self.registers.index_y;
        self.update_zero_negative_flags(y);

        2
    }

    /// TAX - copy A into X; Z and N follow the value.
    pub fn tax(&mut self) -> (cycles: u8)
        requires
            old(self).wf(),
        ensures
            final(self).wf(),
            final(self).registers == spec_ldx_regs(
                old(self).registers,
                old(self).registers.accumulator,
            ),
            spec_mem_unchanged(old(self).memory, final(self).memory),
            final(self).num_cycles == old(self).num_cycles,
            final(self).memory.ppu.regs.num_cycles == old(self).memory.ppu.regs.num_cycles,
            cycles == 2,
    {
        let a = self.registers.accumulator;
        self.ldx_immediate(a);

        2
    }

    /// TAY - copy A into Y; Z and N follow the value.
    pub fn tay(&mut self) -> (cycles: u8)
        requires
            old(self).wf(),
        ensures
            final(self).wf(),
            final(self).registers == spec_ldy_regs(
                old(self).registers,
                old(self).registers.accumulator,
            ),
            spec_mem_unchanged(old(self).memory, final(self).memory),
            final(self).num_cycles == old(self).num_cycles,
            final(self).memory.ppu.regs.num_cycles == old(self).memory.ppu.regs.num_cycles,
            cycles == 2,
    {
        let a = self.registers.accumulator;
        self.ldy_immediate(a);

        2
    }

    /// TSX - copy SP into X; Z and N follow the value.
    pub fn tsx(&mut self) -> (cycles: u8)
        requires
            old(self).wf(),
        ensures
            final(self).wf(),
            final(self).registers == spec_ldx_regs(
                old(self).registers,
                old(self).registers.stack_pointer,
            ),
            spec_mem_unchanged(old(self).memory, final(self).memory),
            final(self).num_cycles == old(self).num_cycles,
            final(self).memory.ppu.regs.num_cycles == old(self).memory.ppu.regs.num_cycles,
            cycles == 2,
    {
        let sp = self.registers.stack_pointer;
        self.ldx_immediate(sp);

        2
    }

    /// TXA - copy X into A; Z and N follow the value.
    pub fn txa(&mut self) -> (cycles: u8)
        requires
            old(self).wf(),
        ensures
            final(self).wf(),
            final(self).registers == spec_lda_regs(old(self).registers, old(self).registers.index_x),
            spec_mem_unchanged(old(self).memory, final(self).memory),
            final(self).num_cycles == old(self).num_cycles,
            final(self).memory.ppu.regs.num_cycles == old(self).memory.ppu.regs.num_cycles,
            cycles == 2,
    {
        let x = self.registers.index_x;
        self.lda_immediate(x);

        2
    }

    /// TXS - copy X into SP; no flags move.
    pub fn txs(&mut self) -> (cycles: u8)
        requires
            old(self).wf(),
        ensures
            final(self).wf(),
            final(self).registers == (Registers {
                stack_pointer: old(self).registers.index_x,
                ..old(self).registers
            }),
            spec_mem_unchanged(old(self).memory, final(self).memory),
            final(self).num_cycles == old(self).num_cycles,
            final(self).memory.ppu.regs.num_cycles == old(self).memory.ppu.regs.num_cycles,
            cycles == 2,
    {
        self.registers.stack_pointer = self.registers.index_x;

        2
    }

    /// TYA - copy Y into A; Z and N follow the value.
    pub fn tya(&mut self) -> (cycles: u8)
        requires
            old(self).wf(),
        ensures
            final(self).wf(),
            final(self).registers == spec_lda_regs(old(self).registers, old(self).registers.index_y),
            spec_mem_unchanged(old(self).memory, final(self).memory),
            final(self).num_cycles == old(self).num_cycles,
            final(self).memory.ppu.regs.num_cycles == old(self).memory.ppu.regs.num_cycles,
            cycles == 2,
    {
        let y = self.registers.index_y;
        self.lda_immediate(y);

        2
    }

    /// NOP - no state changes besides the program counter advance handled
    /// by the dispatcher.
    pub fn nop_implied(&mut self) -> (cycles: u8)
        requires
            old(self).wf(),
        ensures
            final(self).wf(),
            final(self).registers == old(self).registers,
            spec_mem_unchanged(old(self).memory, final(self).memory),
            final(self).num_cycles == old(self).num_cycles,
            final(self).memory.ppu.regs.num_cycles == old(self).memory.ppu.regs.num_cycles,
            cycles == 2,
    {
        2
    }

    /// PHA - push the accumulator.
    pub fn pha(&mut self) -> (cycles: u8)
        requires
            old(self).wf(),
        ensures
            final(self).wf(),
            final(self).memory.buffer@ == old(self).memory.buffer@.update(
                spec_stack_addr(old(self).registers.stack_pointer),
                old(self).registers.accumulator,
            ),
            spec_mem_nonbuffer_unchanged(old(self).memory, final(self).memory),
            final(self).registers == (Registers {
                stack_pointer: vstd::wrapping::u8_specs::wrapping_sub(
                    old(self).registers.stack_pointer,
                    1,
                ),
                ..old(self).registers
            }),
            final(self).num_cycles == old(self).num_cycles,
            final(self).memory.ppu.regs.num_cycles == old(self).memory.ppu.regs.num_cycles,
            cycles == 3,
    {
        let a = self.registers.accumulator;
        self.stack_push(a);

        3
    }

    /// PHP - push the status byte with the break and unused bits forced to
    /// 1; the stored register itself does not change.
    pub fn php(&mut self) -> (cycles: u8)
        requires
            old(self).wf(),
        ensures
            final(self).wf(),
            final(self).memory.buffer@ == old(self).memory.buffer@.update(
                spec_stack_addr(old(self).registers.stack_pointer),
                old(self).registers.processor_status | 0x30,
            ),
            spec_mem_nonbuffer_unchanged(old(self).memory, final(self).memory),
            final(self).registers == (Registers {
                stack_pointer: vstd::wrapping::u8_specs::wrapping_sub(
                    old(self).registers.stack_pointer,
                    1,
                ),
                ..old(self).registers
            }),
            final(self).num_cycles == old(self).num_cycles,
            final(self).memory.ppu.regs.num_cycles == old(self).memory.ppu.regs.num_cycles,
            cycles == 3,
    {
        let p = self.registers.processor_status | 0x30;
        self.stack_push(p);

        3
    }

    /// PLA - pop into the accumulator; Z and N follow the value.
    pub fn pla(&mut self) -> (cycles: u8)
        requires
            old(self).wf(),
        ensures
            final(self).wf(),
            final(self).registers == (Registers {
                stack_pointer: vstd::wrapping::u8_specs::wrapping_add(
                    old(self).registers.stack_pointer,
                    1,
                ),
                ..spec_lda_regs(
                    old(self).registers,
                    old(self).memory.buffer@[spec_stack_addr(
                        vstd::wrapping::u8_specs::wrapping_add(
                            old(self).registers.stack_pointer,
                            1,
                        ),
                    )],
                )
            }),
            spec_mem_unchanged(old(self).memory, final(self).memory),
            final(self).num_cycles == old(self).num_cycles,
            final(self).memory.ppu.regs.num_cycles == old(self).memory.ppu.regs.num_cycles,
            cycles == 4,
    {
        let val = self.stack_pop();
        self.lda_immediate(val);

        4
    }

    /// PLP - pop into the status byte; the unused bit is forced to 1 and
    /// the break bit cleared, since neither is a stored flag.
    pub fn plp(&mut self) -> (cycles: u8)
        requires
            old(self).wf(),
        ensures
            final(self).wf(),
            final(self).registers == (Registers {
                stack_pointer: vstd::wrapping::u8_specs::wrapping_add(
                    old(self).registers.stack_pointer,
                    1,
                ),
                processor_status: (old(self).memory.buffer@[spec_stack_addr(
                    vstd::wrapping::u8_specs::wrapping_add(old(self).registers.stack_pointer, 1),
                )] | FLAG_UNUSED) & !FLAG_BREAK,
                ..old(self).registers
            }),
            spec_mem_unchanged(old(self).memory, final(self).memory),
            final(self).num_cycles == old(self).num_cycles,
            final(self).memory.ppu.regs.num_cycles == old(self).memory.ppu.regs.num_cycles,
            cycles == 4,
    {
        let val = self.stack_pop();
        self.registers.processor_status = val | 0b100000;
        self.registers.unset_break();

        4
    }

    /// JMP absolute: the program counter takes the operand.
    pub fn jmp_absolute(&mut self, address: u16) -> (cycles: u8)
        requires
            old(self).wf(),
        ensures
            final(self).wf(),
            final(self).registers == (Registers { program_counter: address, ..old(self).registers }),
            spec_mem_unchanged(old(self).memory, final(self).memory),
            final(self).num_cycles == old(self).num_cycles,
            final(self).memory.ppu.regs.num_cycles == old(self).memory.ppu.regs.num_cycles,
            cycles == 3,
    {
        self.registers.program_counter = address;

        3
    }

    /// JMP (indirect): the target comes through the page-wrap pointer read.
    pub fn jmp_indirect(&mut self, address: u16) -> (cycles: u8)
        requires
            old(self).wf(),
        ensures
            final(self).wf(),
            final(self).registers == (Registers {
                program_counter: (spec_read_value(old(self).memory, address) + spec_read2_value(
                    old(self).memory,
                    address,
                    spec_quirk_next_addr(address),
                ) * 256) as u16,
                ..old(self).registers
            }),
            spec_read2_rel(
                old(self).memory,
                final(self).memory,
                address,
                spec_quirk_next_addr(address),
            ),
            final(self).num_cycles == old(self).num_cycles,
            final(self).memory.ppu.regs.num_cycles == old(self).memory.ppu.regs.num_cycles,
            cycles == 5,
    {
        let value = self.memory.fetch_indirect_quirk(address);
        self.registers.program_counter = value;

        5
    }

    /// JSR: pushes the address of the instruction's last byte (the return
    /// point minus one), high byte first, then jumps.
    pub fn jsr(&mut self, address: u16) -> (cycles: u8)
        requires
            old(self).wf(),
        ensures
            final(self).wf(),
            final(self).memory.buffer@ == old(self).memory.buffer@.update(
                spec_stack_addr(old(self).registers.stack_pointer),
                spec_hi(vstd::wrapping::u16_specs::wrapping_add(
                    old(self).registers.program_counter,
                    2,
                )),
            ).update(
                spec_stack_addr(vstd::wrapping::u8_specs::wrapping_sub(
                    old(self).registers.stack_pointer,
                    1,
                )),
                spec_lo(vstd::wrapping::u16_specs::wrapping_add(
                    old(self).registers.program_counter,
                    2,
                )),
            ),
            spec_mem_nonbuffer_unchanged(old(self).memory, final(self).memory),
            final(self).registers == (Registers {
                program_counter: address,
                stack_pointer: vstd::wrapping::u8_specs::wrapping_sub(
                    old(self).registers.stack_pointer,
                    2,
                ),
                ..old(self).registers
            }),
            final(self).num_cycles == old(self).num_cycles,
            final(self).memory.ppu.regs.num_cycles == old(self).memory.ppu.regs.num_cycles,
            cycles == 6,
    {
        let ret = self.registers.program_counter.wrapping_add(2);
        let pc_high = (ret / 256) as u8;
        let pc_low = (ret % 256) as u8;
        self.stack_push(pc_high);
        self.stack_push(pc_low);

        self.registers.program_counter = address;

        6
    }

    /// RTS: pops the return address (low byte first); the dispatcher's
    /// one-byte advance supplies the +1.
    pub fn rts(&mut self) -> (cycles: u8)
        requires
            old(self).wf(),
        ensures
            final(self).wf(),
            final(self).registers == (Registers {
                program_counter: (old(self).memory.buffer@[spec_stack_addr(
                    vstd::wrapping::u8_specs::wrapping_add(old(self).registers.stack_pointer, 2),
                )] * 256 + old(self).memory.buffer@[spec_stack_addr(
                    vstd::wrapping::u8_specs::wrapping_add(old(self).registers.stack_pointer, 1),
                )]) as u16,
                stack_pointer: vstd::wrapping::u8_specs::wrapping_add(
                    old(self).registers.stack_pointer,
                    2,
                ),
                ..old(self).registers
            }),
            spec_mem_unchanged(old(self).memory, final(self).memory),
            final(self).num_cycles == old(self).num_cycles,
            final(self).memory.ppu.regs.num_cycles == old(self).memory.ppu.regs.num_cycles,
            cycles == 6,
    {
        let pc_low = self.stack_pop() as u16;
        let pc_high = self.stack_pop() as u16;

        let pc = pc_high * 256 + pc_low;

        self.registers.program_counter = pc;

        6
    }

    /// BRK: pushes the address two past the opcode and the status byte with
    /// break and unused set, sets interrupt-disable, and jumps through the
    /// IRQ vector at $FFFE/$FFFF.
    pub fn brk_implied(&mut self) -> (cycles: u8)
        requires
            old(self).wf(),
        ensures
            final(self).wf(),
            final(self).memory.buffer@ == old(self).memory.buffer@.update(
                spec_stack_addr(old(self).registers.stack_pointer),
                spec_hi(vstd::wrapping::u16_specs::wrapping_add(
                    old(self).registers.program_counter,
                    2,
                )),
            ).update(
                spec_stack_addr(vstd::wrapping::u8_specs::wrapping_sub(
                    old(self).registers.stack_pointer,
                    1,
                )),
                spec_lo(vstd::wrapping::u16_specs::wrapping_add(
                    old(self).registers.program_counter,
                    2,
                )),
            ).update(
                spec_stack_addr(vstd::wrapping::u8_specs::wrapping_sub(
                    old(self).registers.stack_pointer,
                    2,
                )),
                old(self).registers.processor_status | 0x30,
            ),
            spec_mem_nonbuffer_unchanged(old(self).memory, final(self).memory),
            final(self).registers == (Registers {
                program_counter: (old(self).memory.buffer@[0xFFFE] + old(self).memory.buffer@[0xFFFF]
                    * 256) as u16,
                stack_pointer: vstd::wrapping::u8_specs::wrapping_sub(
                    old(self).registers.stack_pointer,
                    3,
                ),
                processor_status: old(self).registers.processor_status | FLAG_INTERRUPT_DISABLE,
                ..old(self).registers
            }),
            final(self).num_cycles == old(self).num_cycles,
            final(self).memory.ppu.regs.num_cycles == old(self).memory.ppu.regs.num_cycles,
            cycles == 7,
    {
        let ret = self.registers.program_counter.wrapping_add(2);
        let pc_high = (ret / 256) as u8;
        self.stack_push(pc_high);

        let pc_low = (ret % 256) as u8;
        self.stack_push(pc_low);

        let p = self.registers.processor_status | 0x30;
        self.stack_push(p);

        let irq_vector_low = self.memory.fetch_absolute(0xFFFE) as u16;
        let irq_vector_high = self.memory.fetch_absolute(0xFFFF) as u16;
        let irq_vector = irq_vector_low + irq_vector_high * 256;
        self.registers.program_counter = irq_vector;

        self.registers.set_interrupt_disable();

        7
    }

    /// Services a non-maskable interrupt: pushes the program counter and
    /// the status byte with break clear and unused set, sets
    /// interrupt-disable, jumps through the NMI vector at $FFFA/$FFFB, and
    /// charges its 7 cycles.
    pub fn generate_nmi(&mut self) -> (cycles: u8)
        requires
            old(self).wf(),
            old(self).num_cycles + 7 <= usize::MAX,
        ensures
            final(self).wf(),
            final(self).memory.buffer@ == old(self).memory.buffer@.update(
                spec_stack_addr(old(self).registers.stack_pointer),
                spec_hi(old(self).registers.program_counter),
            ).update(
                spec_stack_addr(vstd::wrapping::u8_specs::wrapping_sub(
                    old(self).registers.stack_pointer,
                    1,
                )),
                spec_lo(old(self).registers.program_counter),
            ).update(
                spec_stack_addr(vstd::wrapping::u8_specs::wrapping_sub(
                    old(self).registers.stack_pointer,
                    2,
                )),
                (old(self).registers.processor_status | FLAG_UNUSED) & !FLAG_BREAK,
            ),
            spec_mem_nonbuffer_unchanged(old(self).memory, final(self).memory),
            final(self).registers == (Registers {
                program_counter: (old(self).memory.buffer@[0xFFFA] + old(self).memory.buffer@[0xFFFB]
                    * 256) as u16,
                stack_pointer: vstd::wrapping::u8_specs::wrapping_sub(
                    old(self).registers.stack_pointer,
                    3,
                ),
                processor_status: old(self).registers.processor_status | FLAG_INTERRUPT_DISABLE,
                ..old(self).registers
            }),
            final(self).num_cycles == old(self).num_cycles + 7,
            cycles == 7,
    {
        let pc = self.registers.program_counter;
        let pc_high = (pc / 256) as u8;
        self.stack_push(pc_high);

        let pc_low = (pc % 256) as u8;
        self.stack_push(pc_low);

        let p = (self.registers.processor_status | 0b10_0000) & !0b1_0000;
        self.stack_push(p);

        let nmi_vector_low = self.memory.fetch_absolute(0xFFFA) as u16;
        let nmi_vector_high = self.memory.fetch_absolute(0xFFFB) as u16;
        let nmi_vector = nmi_vector_low + nmi_vector_high * 256;
        self.registers.program_counter = nmi_vector;

        self.registers.set_interrupt_disable();

        self.num_cycles = self.num_cycles + 7;

        7
    }

    /// Services a maskable interrupt request: exactly the NMI sequence but
    /// only when interrupt-disable is clear, through the IRQ vector at
    /// $FFFE/$FFFF. Returns 0 when the interrupt is masked.
    pub fn trigger_irq(&mut self) -> (cycles: u8)
        requires
            old(self).wf(),
            old(self).num_cycles + 7 <= usize::MAX,
        ensures
            final(self).wf(),
            old(self).registers.processor_status & FLAG_INTERRUPT_DISABLE != 0 ==> {
                &&& final(self).registers == old(self).registers
                &&& spec_mem_unchanged(old(self).memory, final(self).memory)
                &&& final(self).num_cycles == old(self).num_cycles
                &&& cycles == 0
            },
            old(self).registers.processor_status & FLAG_INTERRUPT_DISABLE == 0 ==> {
                &&& final(self).memory.buffer@ == old(self).memory.buffer@.update(
                    spec_stack_addr(old(self).registers.stack_pointer),
                    spec_hi(old(self).registers.program_counter),
                ).update(
                    spec_stack_addr(vstd::wrapping::u8_specs::wrapping_sub(
                        old(self).registers.stack_pointer,
                        1,
                    )),
                    spec_lo(old(self).registers.program_counter),
                ).update(
                    spec_stack_addr(vstd::wrapping::u8_specs::wrapping_sub(
                        old(self).registers.stack_pointer,
                        2,
                    )),
                    (old(self).registers.processor_status | FLAG_UNUSED) & !FLAG_BREAK,
                )
                &&& spec_mem_nonbuffer_unchanged(old(self).memory, final(self).memory)
                &&& final(self).registers == (Registers {
                    program_counter: (old(self).memory.buffer@[0xFFFE]
                        + old(self).memory.buffer@[0xFFFF] * 256) as u16,
                    stack_pointer: vstd::wrapping::u8_specs::wrapping_sub(
                        old(self).registers.stack_pointer,
                        3,
                    ),
                    processor_status: old(self).registers.processor_status
                        | FLAG_INTERRUPT_DISABLE,
                    ..old(self).registers
                })
                &&& final(self).num_cycles == old(self).num_cycles + 7
                &&& cycles == 7
            },
    {
        if self.registers.processor_status & FLAG_INTERRUPT_DISABLE != 0 {
            return 0;
        }

        let pc = self.registers.program_counter;
        let pc_high = (pc / 256) as u8;
        self.stack_push(pc_high);

        let pc_low = (pc % 256) as u8;
        self.stack_push(pc_low);

        let p = (self.registers.processor_status | 0b10_0000) & !0b1_0000;
        self.stack_push(p);

        let irq_vector_low = self.memory.fetch_absolute(0xFFFE) as u16;
        let irq_vector_high = self.memory.fetch_absolute(0xFFFF) as u16;
        let irq_vector = irq_vector_low + irq_vector_high * 256;
        self.registers.program_counter = irq_vector;

        self.registers.set_interrupt_disable();

        self.num_cycles = self.num_cycles + 7;

        7
    }

    /// RTI: pops the status byte (unused forced to 1, break cleared), then
    /// the program counter, low byte first.
    pub fn rti_implied(&mut self) -> (cycles: u8)
        requires
            old(self).wf(),
        ensures
            final(self).wf(),
            final(self).registers == (Registers {
                processor_status: (old(self).memory.buffer@[spec_stack_addr(
                    vstd::wrapping::u8_specs::wrapping_add(old(self).registers.stack_pointer, 1),
                )] | FLAG_UNUSED) & !FLAG_BREAK,
                program_counter: (old(self).memory.buffer@[spec_stack_addr(
                    vstd::wrapping::u8_specs::wrapping_add(old(self).registers.stack_pointer, 3),
                )] * 256 + old(self).memory.buffer@[spec_stack_addr(
                    vstd::wrapping::u8_specs::wrapping_add(old(self).registers.stack_pointer, 2),
                )]) as u16,
                stack_pointer: vstd::wrapping::u8_specs::wrapping_add(
                    old(self).registers.stack_pointer,
                    3,
                ),
                ..old(self).registers
            }),
            spec_mem_unchanged(old(self).memory, final(self).memory),
            final(self).num_cycles == old(self).num_cycles,
            final(self).memory.ppu.regs.num_cycles == old(self).memory.ppu.regs.num_cycles,
            cycles == 6,
    {
        let status = self.stack_pop();
        self.registers.processor_status = status | 0b100000;

        let pc_low = self.stack_pop() as u16;
        let pc_high = self.stack_pop() as u16;

        let pc = pc_high * 256 + pc_low;
        self.registers.program_counter = pc;

        self.registers.unset_break();

        6
    }

    /// SLO (unofficial) - shift the addressed byte left, then OR it into A.
    pub fn slo_zero_page(&mut self, addr_lower_byte: u8) -> (cycles: u8)
        requires
            old(self).wf(),
        ensures
            final(self).wf(),
            final(self).registers == spec_ora_regs(Registers { processor_status: spec_asl_p(old(self).registers.processor_status, old(self).memory.buffer@[addr_lower_byte as int]), ..old(self).registers }, spec_asl_val(old(self).memory.buffer@[addr_lower_byte as int])),
            spec_store_rel(old(self).memory, final(self).memory, addr_lower_byte as u16, spec_asl_val(old(self).memory.buffer@[addr_lower_byte as int])),
            final(self).num_cycles == old(self).num_cycles,
            final(self).memory.ppu.regs.num_cycles == old(self).memory.ppu.regs.num_cycles,
            cycles == 5,
    {
        self.asl_zero_page(addr_lower_byte);
        self.ora_zero_page(addr_lower_byte);

        5
    }

    /// SLO (unofficial) - shift the addressed byte left, then OR it into A.
    pub fn slo_zero_page_x(&mut self, addr_lower_byte: u8) -> (cycles: u8)
        requires
            old(self).wf(),
        ensures
            final(self).wf(),
            final(self).registers == spec_ora_regs(Registers { processor_status: spec_asl_p(old(self).registers.processor_status, old(self).memory.buffer@[spec_zp_x_ea(addr_lower_byte, old(self).registers.index_x) as int]), ..old(self).registers }, spec_asl_val(old(self).memory.buffer@[spec_zp_x_ea(addr_lower_byte, old(self).registers.index_x) as int])),
            spec_store_rel(old(self).memory, final(self).memory, spec_zp_x_ea(addr_lower_byte, old(self).registers.index_x), spec_asl_val(old(self).memory.buffer@[spec_zp_x_ea(addr_lower_byte, old(self).registers.index_x) as int])),
            final(self).num_cycles == old(self).num_cycles,
            final(self).memory.ppu.regs.num_cycles == old(self).memory.ppu.regs.num_cycles,
            cycles == 6,
    {
        self.asl_zero_page_x(addr_lower_byte);
        self.ora_zero_page_x(addr_lower_byte);

        6
    }

    /// SLO (unofficial) - shift the addressed byte left, then OR it into A. The exact effect is stated off the mapped-register window and
    /// where the rewrite cannot clobber its own pointer; on a mapped
    /// register the access order is that of the two component instructions.
    pub fn slo_absolute(&mut self, address: u16) -> (cycles: u8)
        requires
            old(self).wf(),
        ensures
            final(self).wf(),
            (!spec_is_mmio(address)) ==> {
                &&& final(self).registers == spec_ora_regs(Registers { processor_status: spec_asl_p(old(self).registers.processor_status, old(self).memory.buffer@[(address) as int]), ..old(self).registers }, spec_asl_val(old(self).memory.buffer@[(address) as int]))
                &&& spec_store_rel(old(self).memory, final(self).memory, address, spec_asl_val(old(self).memory.buffer@[(address) as int]))
            },
            final(self).num_cycles == old(self).num_cycles,
            final(self).memory.ppu.regs.num_cycles == old(self).memory.ppu.regs.num_cycles,
            cycles == 6,
    {
        self.asl_absolute(address);
        self.ora_absolute(address);

        6
    }

    /// SLO (unofficial) - shift the addressed byte left, then OR it into A. The exact effect is stated off the mapped-register window and
    /// where the rewrite cannot clobber its own pointer; on a mapped
    /// register the access order is that of the two component instructions.
    pub fn slo_absolute_x(&mut self, address: u16) -> (cycles: u8)
        requires
            old(self).wf(),
        ensures
            final(self).wf(),
            (!spec_is_mmio(spec_abs_x_ea(address, old(self).registers.index_x))) ==> {
                &&& final(self).registers == spec_ora_regs(Registers { processor_status: spec_asl_p(old(self).registers.processor_status, old(self).memory.buffer@[(spec_abs_x_ea(address, old(self).registers.index_x)) as int]), ..old(self).registers }, spec_asl_val(old(self).memory.buffer@[(spec_abs_x_ea(address, old(self).registers.index_x)) as int]))
                &&& spec_store_rel(old(self).memory, final(self).memory, spec_abs_x_ea(address, old(self).registers.index_x), spec_asl_val(old(self).memory.buffer@[(spec_abs_x_ea(address, old(self).registers.index_x)) as int]))
            },
            final(self).num_cycles == old(self).num_cycles,
            final(self).memory.ppu.regs.num_cycles == old(self).memory.ppu.regs.num_cycles,
            cycles == 7,
    {
        self.asl_absolute_x(address);
        self.ora_absolute_x(address);

        7
    }

    /// SLO (unofficial) - shift the addressed byte left, then OR it into A. The exact effect is stated off the mapped-register window and
    /// where the rewrite cannot clobber its own pointer; on a mapped
    /// register the access order is that of the two component instructions.
    pub fn slo_absolute_y(&mut self, address: u16) -> (cycles: u8)
        requires
            old(self).wf(),
        ensures
            final(self).wf(),
            (!spec_is_mmio(spec_abs_x_ea(address, old(self).registers.index_y))) ==> {
                &&& final(self).registers == spec_ora_regs(Registers { processor_status: spec_asl_p(old(self).registers.processor_status, old(self).memory.buffer@[(spec_abs_x_ea(address, old(self).registers.index_y)) as int]), ..old(self).registers }, spec_asl_val(old(self).memory.buffer@[(spec_abs_x_ea(address, old(self).registers.index_y)) as int]))
                &&& spec_store_rel(old(self).memory, final(self).memory, spec_abs_x_ea(address, old(self).registers.index_y), spec_asl_val(old(self).memory.buffer@[(spec_abs_x_ea(address, old(self).registers.index_y)) as int]))
            },
            final(self).num_cycles == old(self).num_cycles,
            final(self).memory.ppu.regs.num_cycles == old(self).memory.ppu.regs.num_cycles,
            cycles == 7,
    {
        self.asl_absolute_y(address);
        self.ora_absolute_y(address);

        7
    }

    /// SLO (unofficial) - shift the addressed byte left, then OR it into A. The exact effect is stated off the mapped-register window and
    /// where the rewrite cannot clobber its own pointer; on a mapped
    /// register the access order is that of the two component instructions.
    pub fn slo_indirect_x(&mut self, addr_lower_byte: u8) -> (cycles: u8)
        requires
            old(self).wf(),
        ensures
            final(self).wf(),
            (!spec_is_mmio(spec_ind_x_ea(old(self).memory.buffer@, addr_lower_byte, old(self).registers.index_x)) && spec_ind_x_ea(old(self).memory.buffer@, addr_lower_byte, old(self).registers.index_x) != spec_ind_x_lo_ptr(addr_lower_byte, old(self).registers.index_x) as u16 && spec_ind_x_ea(old(self).memory.buffer@, addr_lower_byte, old(self).registers.index_x) != vstd::wrapping::u8_specs::wrapping_add(spec_ind_x_lo_ptr(addr_lower_byte, old(self).registers.index_x), 1) as u16) ==> {
                &&& final(self).registers == spec_ora_regs(Registers { processor_status: spec_asl_p(old(self).registers.processor_status, old(self).memory.buffer@[(spec_ind_x_ea(old(self).memory.buffer@, addr_lower_byte, old(self).registers.index_x)) as int]), ..old(self).registers }, spec_asl_val(old(self).memory.buffer@[(spec_ind_x_ea(old(self).memory.buffer@, addr_lower_byte, old(self).registers.index_x)) as int]))
                &&& spec_store_rel(old(self).memory, final(self).memory, spec_ind_x_ea(old(self).memory.buffer@, addr_lower_byte, old(self).registers.index_x), spec_asl_val(old(self).memory.buffer@[(spec_ind_x_ea(old(self).memory.buffer@, addr_lower_byte, old(self).registers.index_x)) as int]))
            },
            final(self).num_cycles == old(self).num_cycles,
            final(self).memory.ppu.regs.num_cycles == old(self).memory.ppu.regs.num_cycles,
            cycles == 8,
    {
        self.asl_indirect_x(addr_lower_byte);
        self.ora_indirect_x(addr_lower_byte);

        8
    }

    /// SLO (unofficial) - shift the addressed byte left, then OR it into A. The exact effect is stated off the mapped-register window and
    /// where the rewrite cannot clobber its own pointer; on a mapped
    /// register the access order is that of the two component instructions.
    pub fn slo_indirect_y(&mut self, addr_lower_byte: u8) -> (cycles: u8)
        requires
            old(self).wf(),
        ensures
            final(self).wf(),
            (!spec_is_mmio(spec_ind_y_ea(old(self).memory.buffer@, addr_lower_byte, old(self).registers.index_y)) && spec_ind_y_ea(old(self).memory.buffer@, addr_lower_byte, old(self).registers.index_y) != addr_lower_byte as u16 && spec_ind_y_ea(old(self).memory.buffer@, addr_lower_byte, old(self).registers.index_y) != vstd::wrapping::u8_specs::wrapping_add(addr_lower_byte, 1) as u16) ==> {
                &&& final(self).registers == spec_ora_regs(Registers { processor_status: spec_asl_p(old(self).registers.processor_status, old(self).memory.buffer@[(spec_ind_y_ea(old(self).memory.buffer@, addr_lower_byte, old(self).registers.index_y)) as int]), ..old(self).registers }, spec_asl_val(old(self).memory.buffer@[(spec_ind_y_ea(old(self).memory.buffer@, addr_lower_byte, old(self).registers.index_y)) as int]))
                &&& spec_store_rel(old(self).memory, final(self).memory, spec_ind_y_ea(old(self).memory.buffer@, addr_lower_byte, old(self).registers.index_y), spec_asl_val(old(self).memory.buffer@[(spec_ind_y_ea(old(self).memory.buffer@, addr_lower_byte, old(self).registers.index_y)) as int]))
            },
            final(self).num_cycles == old(self).num_cycles,
            final(self).memory.ppu.regs.num_cycles == old(self).memory.ppu.regs.num_cycles,
            cycles == 8,
    {
        self.asl_indirect_y(addr_lower_byte);
        self.ora_indirect_y(addr_lower_byte);

        8
    }

    /// SRE (unofficial) - shift the addressed byte right, then exclusive-or it into A.
    pub fn sre_zero_page(&mut self, addr_lower_byte: u8) -> (cycles: u8)
        requires
            old(self).wf(),
        ensures
            final(self).wf(),
            final(self).registers == spec_eor_regs(Registers { processor_status: spec_lsr_p(old(self).registers.processor_status, old(self).memory.buffer@[addr_lower_byte as int]), ..old(self).registers }, spec_lsr_val(old(self).memory.buffer@[addr_lower_byte as int])),
            spec_store_rel(old(self).memory, final(self).memory, addr_lower_byte as u16, spec_lsr_val(old(self).memory.buffer@[addr_lower_byte as int])),
            final(self).num_cycles == old(self).num_cycles,
            final(self).memory.ppu.regs.num_cycles == old(self).memory.ppu.regs.num_cycles,
            cycles == 5,
    {
        self.lsr_zero_page(addr_lower_byte);
        self.eor_zero_page(addr_lower_byte);

        5
    }

    /// SRE (unofficial) - shift the addressed byte right, then exclusive-or it into A.
    pub fn sre_zero_page_x(&mut self, addr_lower_byte: u8) -> (cycles: u8)
        requires
            old(self).wf(),
        ensures
            final(self).wf(),
            final(self).registers == spec_eor_regs(Registers { processor_status: spec_lsr_p(old(self).registers.processor_status, old(self).memory.buffer@[spec_zp_x_ea(addr_lower_byte, old(self).registers.index_x) as int]), ..old(self).registers }, spec_lsr_val(old(self).memory.buffer@[spec_zp_x_ea(addr_lower_byte, old(self).registers.index_x) as int])),
            spec_store_rel(old(self).memory, final(self).memory, spec_zp_x_ea(addr_lower_byte, old(self).registers.index_x), spec_lsr_val(old(self).memory.buffer@[spec_zp_x_ea(addr_lower_byte, old(self).registers.index_x) as int])),
            final(self).num_cycles == old(self).num_cycles,
            final(self).memory.ppu.regs.num_cycles == old(self).memory.ppu.regs.num_cycles,
            cycles == 6,
    {
        self.lsr_zero_page_x(addr_lower_byte);
        self.eor_zero_page_x(addr_lower_byte);

        6
    }

    /// SRE (unofficial) - shift the addressed byte right, then exclusive-or it into A. The exact effect is stated off the mapped-register window and
    /// where the rewrite cannot clobber its own pointer; on a mapped
    /// register the access order is that of the two component instructions.
    pub fn sre_absolute(&mut self, address: u16) -> (cycles: u8)
        requires
            old(self).wf(),
        ensures
            final(self).wf(),
            (!spec_is_mmio(address)) ==> {
                &&& final(self).registers == spec_eor_regs(Registers { processor_status: spec_lsr_p(old(self).registers.processor_status, old(self).memory.buffer@[(address) as int]), ..old(self).registers }, spec_lsr_val(old(self).memory.buffer@[(address) as int]))
                &&& spec_store_rel(old(self).memory, final(self).memory, address, spec_lsr_val(old(self).memory.buffer@[(address) as int]))
            },
            final(self).num_cycles == old(self).num_cycles,
            final(self).memory.ppu.regs.num_cycles == old(self).memory.ppu.regs.num_cycles,
            cycles == 6,
    {
        self.lsr_absolute(address);
        self.eor_absolute(address);

        6
    }

    /// SRE (unofficial) - shift the addressed byte right, then exclusive-or it into A. The exact effect is stated off the mapped-register window and
    /// where the rewrite cannot clobber its own pointer; on a mapped
    /// register the access order is that of the two component instructions.
    pub fn sre_absolute_x(&mut self, address: u16) -> (cycles: u8)
        requires
            old(self).wf(),
        ensures
            final(self).wf(),
            (!spec_is_mmio(spec_abs_x_ea(address, old(self).registers.index_x))) ==> {
                &&& final(self).registers == spec_eor_regs(Registers { processor_status: spec_lsr_p(old(self).registers.processor_status, old(self).memory.buffer@[(spec_abs_x_ea(address, old(self).registers.index_x)) as int]), ..old(self).registers }, spec_lsr_val(old(self).memory.buffer@[(spec_abs_x_ea(address, old(self).registers.index_x)) as int]))
                &&& spec_store_rel(old(self).memory, final(self).memory, spec_abs_x_ea(address, old(self).registers.index_x), spec_lsr_val(old(self).memory.buffer@[(spec_abs_x_ea(address, old(self).registers.index_x)) as int]))
            },
            final(self).num_cycles == old(self).num_cycles,
            final(self).memory.ppu.regs.num_cycles == old(self).memory.ppu.regs.num_cycles,
            cycles == 7,
    {
        self.lsr_absolute_x(address);
        self.eor_absolute_x(address);

        7
    }

    /// SRE (unofficial) - shift the addressed byte right, then exclusive-or it into A. The exact effect is stated off the mapped-register window and
    /// where the rewrite cannot clobber its own pointer; on a mapped
    /// register the access order is that of the two component instructions.
    pub fn sre_absolute_y(&mut self, address: u16) -> (cycles: u8)
        requires
            old(self).wf(),
        ensures
            final(self).wf(),
            (!spec_is_mmio(spec_abs_x_ea(address, old(self).registers.index_y))) ==> {
                &&& final(self).registers == spec_eor_regs(Registers { processor_status: spec_lsr_p(old(self).registers.processor_status, old(self).memory.buffer@[(spec_abs_x_ea(address, old(self).registers.index_y)) as int]), ..old(self).registers }, spec_lsr_val(old(self).memory.buffer@[(spec_abs_x_ea(address, old(self).registers.index_y)) as int]))
                &&& spec_store_rel(old(self).memory, final(self).memory, spec_abs_x_ea(address, old(self).registers.index_y), spec_lsr_val(old(self).memory.buffer@[(spec_abs_x_ea(address, old(self).registers.index_y)) as int]))
            },
            final(self).num_cycles == old(self).num_cycles,
            final(self).memory.ppu.regs.num_cycles == old(self).memory.ppu.regs.num_cycles,
            cycles == 7,
    {
        self.lsr_absolute_y(address);
        self.eor_absolute_y(address);

        7
    }

    /// SRE (unofficial) - shift the addressed byte right, then exclusive-or it into A. The exact effect is stated off the mapped-register window and
    /// where the rewrite cannot clobber its own pointer; on a mapped
    /// register the access order is that of the two component instructions.
    pub fn sre_indirect_x(&mut self, addr_lower_byte: u8) -> (cycles: u8)
        requires
            old(self).wf(),
        ensures
            final(self).wf(),
            (!spec_is_mmio(spec_ind_x_ea(old(self).memory.buffer@, addr_lower_byte, old(self).registers.index_x)) && spec_ind_x_ea(old(self).memory.buffer@, addr_lower_byte, old(self).registers.index_x) != spec_ind_x_lo_ptr(addr_lower_byte, old(self).registers.index_x) as u16 && spec_ind_x_ea(old(self).memory.buffer@, addr_lower_byte, old(self).registers.index_x) != vstd::wrapping::u8_specs::wrapping_add(spec_ind_x_lo_ptr(addr_lower_byte, old(self).registers.index_x), 1) as u16) ==> {
                &&& final(self).registers == spec_eor_regs(Registers { processor_status: spec_lsr_p(old(self).registers.processor_status, old(self).memory.buffer@[(spec_ind_x_ea(old(self).memory.buffer@, addr_lower_byte, old(self).registers.index_x)) as int]), ..old(self).registers }, spec_lsr_val(old(self).memory.buffer@[(spec_ind_x_ea(old(self).memory.buffer@, addr_lower_byte, old(self).registers.index_x)) as int]))
                &&& spec_store_rel(old(self).memory, final(self).memory, spec_ind_x_ea(old(self).memory.buffer@, addr_lower_byte, old(self).registers.index_x), spec_lsr_val(old(self).memory.buffer@[(spec_ind_x_ea(old(self).memory.buffer@, addr_lower_byte, old(self).registers.index_x)) as int]))
            },
            final(self).num_cycles == old(self).num_cycles,
            final(self).memory.ppu.regs.num_cycles == old(self).memory.ppu.regs.num_cycles,
            cycles == 8,
    {
        self.lsr_indirect_x(addr_lower_byte);
        self.eor_indirect_x(addr_lower_byte);

        8
    }

    /// SRE (unofficial) - shift the addressed byte right, then exclusive-or it into A. The exact effect is stated off the mapped-register window and
    /// where the rewrite cannot clobber its own pointer; on a mapped
    /// register the access order is that of the two component instructions.
    pub fn sre_indirect_y(&mut self, addr_lower_byte: u8) -> (cycles: u8)
        requires
            old(self).wf(),
        ensures
            final(self).wf(),
            (!spec_is_mmio(spec_ind_y_ea(old(self).memory.buffer@, addr_lower_byte, old(self).registers.index_y)) && spec_ind_y_ea(old(self).memory.buffer@, addr_lower_byte, old(self).registers.index_y) != addr_lower_byte as u16 && spec_ind_y_ea(old(self).memory.buffer@, addr_lower_byte, old(self).registers.index_y) != vstd::wrapping::u8_specs::wrapping_add(addr_lower_byte, 1) as u16) ==> {
                &&& final(self).registers == spec_eor_regs(Registers { processor_status: spec_lsr_p(old(self).registers.processor_status, old(self).memory.buffer@[(spec_ind_y_ea(old(self).memory.buffer@, addr_lower_byte, old(self).registers.index_y)) as int]), ..old(self).registers }, spec_lsr_val(old(self).memory.buffer@[(spec_ind_y_ea(old(self).memory.buffer@, addr_lower_byte, old(self).registers.index_y)) as int]))
                &&& spec_store_rel(old(self).memory, final(self).memory, spec_ind_y_ea(old(self).memory.buffer@, addr_lower_byte, old(self).registers.index_y), spec_lsr_val(old(self).memory.buffer@[(spec_ind_y_ea(old(self).memory.buffer@, addr_lower_byte, old(self).registers.index_y)) as int]))
            },
            final(self).num_cycles == old(self).num_cycles,
            final(self).memory.ppu.regs.num_cycles == old(self).memory.ppu.regs.num_cycles,
            cycles == 8,
    {
        self.lsr_indirect_y(addr_lower_byte);
        self.eor_indirect_y(addr_lower_byte);

        8
    }

    /// RLA (unofficial) - rotate the addressed byte left, then AND it into A.
    pub fn rla_zero_page(&mut self, addr_lower_byte: u8) -> (cycles: u8)
        requires
            old(self).wf(),
        ensures
            final(self).wf(),
            final(self).registers == spec_and_regs(Registers { processor_status: spec_rol_p(old(self).registers.processor_status, old(self).memory.buffer@[addr_lower_byte as int]), ..old(self).registers }, spec_rol_val(old(self).registers.processor_status, old(self).memory.buffer@[addr_lower_byte as int])),
            spec_store_rel(old(self).memory, final(self).memory, addr_lower_byte as u16, spec_rol_val(old(self).registers.processor_status, old(self).memory.buffer@[addr_lower_byte as int])),
            final(self).num_cycles == old(self).num_cycles,
            final(self).memory.ppu.regs.num_cycles == old(self).memory.ppu.regs.num_cycles,
            cycles == 5,
    {
        self.rol_zero_page(addr_lower_byte);
        self.and_zero_page(addr_lower_byte);

        5
    }

    /// RLA (unofficial) - rotate the addressed byte left, then AND it into A.
    pub fn rla_zero_page_x(&mut self, addr_lower_byte: u8) -> (cycles: u8)
        requires
            old(self).wf(),
        ensures
            final(self).wf(),
            final(self).registers == spec_and_regs(Registers { processor_status: spec_rol_p(old(self).registers.processor_status, old(self).memory.buffer@[spec_zp_x_ea(addr_lower_byte, old(self).registers.index_x) as int]), ..old(self).registers }, spec_rol_val(old(self).registers.processor_status, old(self).memory.buffer@[spec_zp_x_ea(addr_lower_byte, old(self).registers.index_x) as int])),
            spec_store_rel(old(self).memory, final(self).memory, spec_zp_x_ea(addr_lower_byte, old(self).registers.index_x), spec_rol_val(old(self).registers.processor_status, old(self).memory.buffer@[spec_zp_x_ea(addr_lower_byte, old(self).registers.index_x) as int])),
            final(self).num_cycles == old(self).num_cycles,
            final(self).memory.ppu.regs.num_cycles == old(self).memory.ppu.regs.num_cycles,
            cycles == 6,
    {
        self.rol_zero_page_x(addr_lower_byte);
        self.and_zero_page_x(addr_lower_byte);

        6
    }

    /// RLA (unofficial) - rotate the addressed byte left, then AND it into A. The exact effect is stated off the mapped-register window and
    /// where the rewrite cannot clobber its own pointer; on a mapped
    /// register the access order is that of the two component instructions.
    pub fn rla_absolute(&mut self, address: u16) -> (cycles: u8)
        requires
            old(self).wf(),
        ensures
            final(self).wf(),
            (!spec_is_mmio(address)) ==> {
                &&& final(self).registers == spec_and_regs(Registers { processor_status: spec_rol_p(old(self).registers.processor_status, old(self).memory.buffer@[(address) as int]), ..old(self).registers }, spec_rol_val(old(self).registers.processor_status, old(self).memory.buffer@[(address) as int]))
                &&& spec_store_rel(old(self).memory, final(self).memory, address, spec_rol_val(old(self).registers.processor_status, old(self).memory.buffer@[(address) as int]))
            },
            final(self).num_cycles == old(self).num_cycles,
            final(self).memory.ppu.regs.num_cycles == old(self).memory.ppu.regs.num_cycles,
            cycles == 6,
    {
        self.rol_absolute(address);
        self.and_absolute(address);

        6
    }

    /// RLA (unofficial) - rotate the addressed byte left, then AND it into A. The exact effect is stated off the mapped-register window and
    /// where the rewrite cannot clobber its own pointer; on a mapped
    /// register the access order is that of the two component instructions.
    pub fn rla_absolute_x(&mut self, address: u16) -> (cycles: u8)
        requires
            old(self).wf(),
        ensures
            final(self).wf(),
            (!spec_is_mmio(spec_abs_x_ea(address, old(self).registers.index_x))) ==> {
                &&& final(self).registers == spec_and_regs(Registers { processor_status: spec_rol_p(old(self).registers.processor_status, old(self).memory.buffer@[(spec_abs_x_ea(address, old(self).registers.index_x)) as int]), ..old(self).registers }, spec_rol_val(old(self).registers.processor_status, old(self).memory.buffer@[(spec_abs_x_ea(address, old(self).registers.index_x)) as int]))
                &&& spec_store_rel(old(self).memory, final(self).memory, spec_abs_x_ea(address, old(self).registers.index_x), spec_rol_val(old(self).registers.processor_status, old(self).memory.buffer@[(spec_abs_x_ea(address, old(self).registers.index_x)) as int]))
            },
            final(self).num_cycles == old(self).num_cycles,
            final(self).memory.ppu.regs.num_cycles == old(self).memory.ppu.regs.num_cycles,
            cycles == 7,
    {
        self.rol_absolute_x(address);
        self.and_absolute_x(address);

        7
    }

    /// RLA (unofficial) - rotate the addressed byte left, then AND it into A. The exact effect is stated off the mapped-register window and
    /// where the rewrite cannot clobber its own pointer; on a mapped
    /// register the access order is that of the two component instructions.
    pub fn rla_absolute_y(&mut self, address: u16) -> (cycles: u8)
        requires
            old(self).wf(),
        ensures
            final(self).wf(),
            (!spec_is_mmio(spec_abs_x_ea(address, old(self).registers.index_y))) ==> {
                &&& final(self).registers == spec_and_regs(Registers { processor_status: spec_rol_p(old(self).registers.processor_status, old(self).memory.buffer@[(spec_abs_x_ea(address, old(self).registers.index_y)) as int]), ..old(self).registers }, spec_rol_val(old(self).registers.processor_status, old(self).memory.buffer@[(spec_abs_x_ea(address, old(self).registers.index_y)) as int]))
                &&& spec_store_rel(old(self).memory, final(self).memory, spec_abs_x_ea(address, old(self).registers.index_y), spec_rol_val(old(self).registers.processor_status, old(self).memory.buffer@[(spec_abs_x_ea(address, old(self).registers.index_y)) as int]))
            },
            final(self).num_cycles == old(self).num_cycles,
            final(self).memory.ppu.regs.num_cycles == old(self).memory.ppu.regs.num_cycles,
            cycles == 7,
    {
        self.rol_absolute_y(address);
        self.and_absolute_y(address);

        7
    }

    /// RLA (unofficial) - rotate the addressed byte left, then AND it into A. The exact effect is stated off the mapped-register window and
    /// where the rewrite cannot clobber its own pointer; on a mapped
    /// register the access order is that of the two component instructions.
    pub fn rla_indirect_x(&mut self, addr_lower_byte: u8) -> (cycles: u8)
        requires
            old(self).wf(),
        ensures
            final(self).wf(),
            (!spec_is_mmio(spec_ind_x_ea(old(self).memory.buffer@, addr_lower_byte, old(self).registers.index_x)) && spec_ind_x_ea(old(self).memory.buffer@, addr_lower_byte, old(self).registers.index_x) != spec_ind_x_lo_ptr(addr_lower_byte, old(self).registers.index_x) as u16 && spec_ind_x_ea(old(self).memory.buffer@, addr_lower_byte, old(self).registers.index_x) != vstd::wrapping::u8_specs::wrapping_add(spec_ind_x_lo_ptr(addr_lower_byte, old(self).registers.index_x), 1) as u16) ==> {
                &&& final(self).registers == spec_and_regs(Registers { processor_status: spec_rol_p(old(self).registers.processor_status, old(self).memory.buffer@[(spec_ind_x_ea(old(self).memory.buffer@, addr_lower_byte, old(self).registers.index_x)) as int]), ..old(self).registers }, spec_rol_val(old(self).registers.processor_status, old(self).memory.buffer@[(spec_ind_x_ea(old(self).memory.buffer@, addr_lower_byte, old(self).registers.index_x)) as int]))
                &&& spec_store_rel(old(self).memory, final(self).memory, spec_ind_x_ea(old(self).memory.buffer@, addr_lower_byte, old(self).registers.index_x), spec_rol_val(old(self).registers.processor_status, old(self).memory.buffer@[(spec_ind_x_ea(old(self).memory.buffer@, addr_lower_byte, old(self).registers.index_x)) as int]))
            },
            final(self).num_cycles == old(self).num_cycles,
            final(self).memory.ppu.regs.num_cycles == old(self).memory.ppu.regs.num_cycles,
            cycles == 8,
    {
        self.rol_indirect_x(addr_lower_byte);
        self.and_indirect_x(addr_lower_byte);

        8
    }

    /// RLA (unofficial) - rotate the addressed byte left, then AND it into A. The exact effect is stated off the mapped-register window and
    /// where the rewrite cannot clobber its own pointer; on a mapped
    /// register the access order is that of the two component instructions.
    pub fn rla_indirect_y(&mut self, addr_lower_byte: u8) -> (cycles: u8)
        requires
            old(self).wf(),
        ensures
            final(self).wf(),
            (!spec_is_mmio(spec_ind_y_ea(old(self).memory.buffer@, addr_lower_byte, old(self).registers.index_y)) && spec_ind_y_ea(old(self).memory.buffer@, addr_lower_byte, old(self).registers.index_y) != addr_lower_byte as u16 && spec_ind_y_ea(old(self).memory.buffer@, addr_lower_byte, old(self).registers.index_y) != vstd::wrapping::u8_specs::wrapping_add(addr_lower_byte, 1) as u16) ==> {
                &&& final(self).registers == spec_and_regs(Registers { processor_status: spec_rol_p(old(self).registers.processor_status, old(self).memory.buffer@[(spec_ind_y_ea(old(self).memory.buffer@, addr_lower_byte, old(self).registers.index_y)) as int]), ..old(self).registers }, spec_rol_val(old(self).registers.processor_status, old(self).memory.buffer@[(spec_ind_y_ea(old(self).memory.buffer@, addr_lower_byte, old(self).registers.index_y)) as int]))
                &&& spec_store_rel(old(self).memory, final(self).memory, spec_ind_y_ea(old(self).memory.buffer@, addr_lower_byte, old(self).registers.index_y), spec_rol_val(old(self).registers.processor_status, old(self).memory.buffer@[(spec_ind_y_ea(old(self).memory.buffer@, addr_lower_byte, old(self).registers.index_y)) as int]))
            },
            final(self).num_cycles == old(self).num_cycles,
            final(self).memory.ppu.regs.num_cycles == old(self).memory.ppu.regs.num_cycles,
            cycles == 8,
    {
        let value = self.rol_indirect_y(addr_lower_byte);
        self.and_immediate(value);

        8
    }

    /// RRA (unofficial) - rotate the addressed byte right, then add it into A.
    pub fn rra_zero_page(&mut self, addr_lower_byte: u8) -> (cycles: u8)
        requires
            old(self).wf(),
        ensures
            final(self).wf(),
            final(self).registers == spec_adc_regs(Registers { processor_status: spec_ror_p(old(self).registers.processor_status, old(self).memory.buffer@[addr_lower_byte as int]), ..old(self).registers }, spec_ror_val(old(self).registers.processor_status, old(self).memory.buffer@[addr_lower_byte as int])),
            spec_store_rel(old(self).memory, final(self).memory, addr_lower_byte as u16, spec_ror_val(old(self).registers.processor_status, old(self).memory.buffer@[addr_lower_byte as int])),
            final(self).num_cycles == old(self).num_cycles,
            final(self).memory.ppu.regs.num_cycles == old(self).memory.ppu.regs.num_cycles,
            cycles == 5,
    {
        self.ror_zero_page(addr_lower_byte);
        self.adc_zero_page(addr_lower_byte);

        5
    }

    /// RRA (unofficial) - rotate the addressed byte right, then add it into A.
    pub fn rra_zero_page_x(&mut self, addr_lower_byte: u8) -> (cycles: u8)
        requires
            old(self).wf(),
        ensures
            final(self).wf(),
            final(self).registers == spec_adc_regs(Registers { processor_status: spec_ror_p(old(self).registers.processor_status, old(self).memory.buffer@[spec_zp_x_ea(addr_lower_byte, old(self).registers.index_x) as int]), ..old(self).registers }, spec_ror_val(old(self).registers.processor_status, old(self).memory.buffer@[spec_zp_x_ea(addr_lower_byte, old(self).registers.index_x) as int])),
            spec_store_rel(old(self).memory, final(self).memory, spec_zp_x_ea(addr_lower_byte, old(self).registers.index_x), spec_ror_val(old(self).registers.processor_status, old(self).memory.buffer@[spec_zp_x_ea(addr_lower_byte, old(self).registers.index_x) as int])),
            final(self).num_cycles == old(self).num_cycles,
            final(self).memory.ppu.regs.num_cycles == old(self).memory.ppu.regs.num_cycles,
            cycles == 6,
    {
        self.ror_zero_page_x(addr_lower_byte);
        self.adc_zero_page_x(addr_lower_byte);

        6
    }

    /// RRA (unofficial) - rotate the addressed byte right, then add it into A. The exact effect is stated off the mapped-register window and
    /// where the rewrite cannot clobber its own pointer; on a mapped
    /// register the access order is that of the two component instructions.
    pub fn rra_absolute(&mut self, address: u16) -> (cycles: u8)
        requires
            old(self).wf(),
        ensures
            final(self).wf(),
            (!spec_is_mmio(address)) ==> {
                &&& final(self).registers == spec_adc_regs(Registers { processor_status: spec_ror_p(old(self).registers.processor_status, old(self).memory.buffer@[(address) as int]), ..old(self).registers }, spec_ror_val(old(self).registers.processor_status, old(self).memory.buffer@[(address) as int]))
                &&& spec_store_rel(old(self).memory, final(self).memory, address, spec_ror_val(old(self).registers.processor_status, old(self).memory.buffer@[(address) as int]))
            },
            final(self).num_cycles == old(self).num_cycles,
            final(self).memory.ppu.regs.num_cycles == old(self).memory.ppu.regs.num_cycles,
            cycles == 6,
    {
        self.ror_absolute(address);
        self.adc_absolute(address);

        6
    }

    /// RRA (unofficial) - rotate the addressed byte right, then add it into A. The exact effect is stated off the mapped-register window and
    /// where the rewrite cannot clobber its own pointer; on a mapped
    /// register the access order is that of the two component instructions.
    pub fn rra_absolute_x(&mut self, address: u16) -> (cycles: u8)
        requires
            old(self).wf(),
        ensures
            final(self).wf(),
            (!spec_is_mmio(spec_abs_x_ea(address, old(self).registers.index_x))) ==> {
                &&& final(self).registers == spec_adc_regs(Registers { processor_status: spec_ror_p(old(self).registers.processor_status, old(self).memory.buffer@[(spec_abs_x_ea(address, old(self).registers.index_x)) as int]), ..old(self).registers }, spec_ror_val(old(self).registers.processor_status, old(self).memory.buffer@[(spec_abs_x_ea(address, old(self).registers.index_x)) as int]))
                &&& spec_store_rel(old(self).memory, final(self).memory, spec_abs_x_ea(address, old(self).registers.index_x), spec_ror_val(old(self).registers.processor_status, old(self).memory.buffer@[(spec_abs_x_ea(address, old(self).registers.index_x)) as int]))
            },
            final(self).num_cycles == old(self).num_cycles,
            final(self).memory.ppu.regs.num_cycles == old(self).memory.ppu.regs.num_cycles,
            cycles == 7,
    {
        self.ror_absolute_x(address);
        self.adc_absolute_x(address);

        7
    }

    /// RRA (unofficial) - rotate the addressed byte right, then add it into A. The exact effect is stated off the mapped-register window and
    /// where the rewrite cannot clobber its own pointer; on a mapped
    /// register the access order is that of the two component instructions.
    pub fn rra_absolute_y(&mut self, address: u16) -> (cycles: u8)
        requires
            old(self).wf(),
        ensures
            final(self).wf(),
            (!spec_is_mmio(spec_abs_x_ea(address, old(self).registers.index_y))) ==> {
                &&& final(self).registers == spec_adc_regs(Registers { processor_status: spec_ror_p(old(self).registers.processor_status, old(self).memory.buffer@[(spec_abs_x_ea(address, old(self).registers.index_y)) as int]), ..old(self).registers }, spec_ror_val(old(self).registers.processor_status, old(self).memory.buffer@[(spec_abs_x_ea(address, old(self).registers.index_y)) as int]))
                &&& spec_store_rel(old(self).memory, final(self).memory, spec_abs_x_ea(address, old(self).registers.index_y), spec_ror_val(old(self).registers.processor_status, old(self).memory.buffer@[(spec_abs_x_ea(address, old(self).registers.index_y)) as int]))
            },
            final(self).num_cycles == old(self).num_cycles,
            final(self).memory.ppu.regs.num_cycles == old(self).memory.ppu.regs.num_cycles,
            cycles == 7,
    {
        self.ror_absolute_y(address);
        self.adc_absolute_y(address);

        7
    }

    /// RRA (unofficial) - rotate the addressed byte right, then add it into A. The exact effect is stated off the mapped-register window and
    /// where the rewrite cannot clobber its own pointer; on a mapped
    /// register the access order is that of the two component instructions.
    pub fn rra_indirect_x(&mut self, addr_lower_byte: u8) -> (cycles: u8)
        requires
            old(self).wf(),
        ensures
            final(self).wf(),
            (!spec_is_mmio(spec_ind_x_ea(old(self).memory.buffer@, addr_lower_byte, old(self).registers.index_x)) && spec_ind_x_ea(old(self).memory.buffer@, addr_lower_byte, old(self).registers.index_x) != spec_ind_x_lo_ptr(addr_lower_byte, old(self).registers.index_x) as u16 && spec_ind_x_ea(old(self).memory.buffer@, addr_lower_byte, old(self).registers.index_x) != vstd::wrapping::u8_specs::wrapping_add(spec_ind_x_lo_ptr(addr_lower_byte, old(self).registers.index_x), 1) as u16) ==> {
                &&& final(self).registers == spec_adc_regs(Registers { processor_status: spec_ror_p(old(self).registers.processor_status, old(self).memory.buffer@[(spec_ind_x_ea(old(self).memory.buffer@, addr_lower_byte, old(self).registers.index_x)) as int]), ..old(self).registers }, spec_ror_val(old(self).registers.processor_status, old(self).memory.buffer@[(spec_ind_x_ea(old(self).memory.buffer@, addr_lower_byte, old(self).registers.index_x)) as int]))
                &&& spec_store_rel(old(self).memory, final(self).memory, spec_ind_x_ea(old(self).memory.buffer@, addr_lower_byte, old(self).registers.index_x), spec_ror_val(old(self).registers.processor_status, old(self).memory.buffer@[(spec_ind_x_ea(old(self).memory.buffer@, addr_lower_byte, old(self).registers.index_x)) as int]))
            },
            final(self).num_cycles == old(self).num_cycles,
            final(self).memory.ppu.regs.num_cycles == old(self).memory.ppu.regs.num_cycles,
            cycles == 8,
    {
        self.ror_indirect_x(addr_lower_byte);
        self.adc_indirect_x(addr_lower_byte);

        8
    }

    /// RRA (unofficial) - rotate the addressed byte right, then add it into A. The exact effect is stated off the mapped-register window and
    /// where the rewrite cannot clobber its own pointer; on a mapped
    /// register the access order is that of the two component instructions.
    pub fn rra_indirect_y(&mut self, addr_lower_byte: u8) -> (cycles: u8)
        requires
            old(self).wf(),
        ensures
            final(self).wf(),
            (!spec_is_mmio(spec_ind_y_ea(old(self).memory.buffer@, addr_lower_byte, old(self).registers.index_y)) && spec_ind_y_ea(old(self).memory.buffer@, addr_lower_byte, old(self).registers.index_y) != addr_lower_byte as u16 && spec_ind_y_ea(old(self).memory.buffer@, addr_lower_byte, old(self).registers.index_y) != vstd::wrapping::u8_specs::wrapping_add(addr_lower_byte, 1) as u16) ==> {
                &&& final(self).registers == spec_adc_regs(Registers { processor_status: spec_ror_p(old(self).registers.processor_status, old(self).memory.buffer@[(spec_ind_y_ea(old(self).memory.buffer@, addr_lower_byte, old(self).registers.index_y)) as int]), ..old(self).registers }, spec_ror_val(old(self).registers.processor_status, old(self).memory.buffer@[(spec_ind_y_ea(old(self).memory.buffer@, addr_lower_byte, old(self).registers.index_y)) as int]))
                &&& spec_store_rel(old(self).memory, final(self).memory, spec_ind_y_ea(old(self).memory.buffer@, addr_lower_byte, old(self).registers.index_y), spec_ror_val(old(self).registers.processor_status, old(self).memory.buffer@[(spec_ind_y_ea(old(self).memory.buffer@, addr_lower_byte, old(self).registers.index_y)) as int]))
            },
            final(self).num_cycles == old(self).num_cycles,
            final(self).memory.ppu.regs.num_cycles == old(self).memory.ppu.regs.num_cycles,
            cycles == 8,
    {
        self.ror_indirect_y(addr_lower_byte);
        self.adc_indirect_y(addr_lower_byte);

        8
    }

    /// ASL - shift the addressed byte left once through the indirect,x addressing mode.
    pub fn asl_indirect_x(&mut self, addr_lower_byte: u8) -> (cycles: u8)
        requires
            old(self).wf(),
        ensures
            final(self).wf(),
            final(self).registers == (Registers {
                processor_status: spec_asl_p(old(self).registers.processor_status, spec_read_value(old(self).memory, spec_ind_x_ea(old(self).memory.buffer@, addr_lower_byte, old(self).registers.index_x))),
                ..old(self).registers
            }),
            spec_store_rel_x(old(self).memory, spec_read_regs_x(old(self).memory, old(self).memory.ppu.regs, spec_ind_x_ea(old(self).memory.buffer@, addr_lower_byte, old(self).registers.index_x)), spec_read_input_x(old(self).memory.input, spec_ind_x_ea(old(self).memory.buffer@, addr_lower_byte, old(self).registers.index_x)), final(self).memory, spec_ind_x_ea(old(self).memory.buffer@, addr_lower_byte, old(self).registers.index_x), spec_asl_val(spec_read_value(old(self).memory, spec_ind_x_ea(old(self).memory.buffer@, addr_lower_byte, old(self).registers.index_x)))),
            final(self).num_cycles == old(self).num_cycles,
            final(self).memory.ppu.regs.num_cycles == old(self).memory.ppu.regs.num_cycles,
    {
        let value = self.memory.fetch_indirect_x(addr_lower_byte, self.registers.index_x);
        let value_rotated = self.asl_immediate(value);
        self.memory.store_indirect_x(addr_lower_byte, self.registers.index_x, value_rotated);

        8
    }

    /// ASL - shift the addressed byte left once through the indirect,y addressing mode.
    pub fn asl_indirect_y(&mut self, addr_lower_byte: u8) -> (cycles: u8)
        requires
            old(self).wf(),
        ensures
            final(self).wf(),
            final(self).registers == (Registers {
                processor_status: spec_asl_p(old(self).registers.processor_status, spec_read_value(old(self).memory, spec_ind_y_ea(old(self).memory.buffer@, addr_lower_byte, old(self).registers.index_y))),
                ..old(self).registers
            }),
            spec_store_rel_x(old(self).memory, spec_read_regs_x(old(self).memory, old(self).memory.ppu.regs, spec_ind_y_ea(old(self).memory.buffer@, addr_lower_byte, old(self).registers.index_y)), spec_read_input_x(old(self).memory.input, spec_ind_y_ea(old(self).memory.buffer@, addr_lower_byte, old(self).registers.index_y)), final(self).memory, spec_ind_y_ea(old(self).memory.buffer@, addr_lower_byte, old(self).registers.index_y), spec_asl_val(spec_read_value(old(self).memory, spec_ind_y_ea(old(self).memory.buffer@, addr_lower_byte, old(self).registers.index_y)))),
            final(self).num_cycles == old(self).num_cycles,
            final(self).memory.ppu.regs.num_cycles == old(self).memory.ppu.regs.num_cycles,
    {
        let value = self.memory.fetch_indirect_y(addr_lower_byte, self.registers.index_y);
        let value_rotated = self.asl_immediate(value);
        self.memory.store_indirect_y(addr_lower_byte, self.registers.index_y, value_rotated);

        8
    }

    /// LSR - shift the addressed byte right once through the indirect,x addressing mode.
    pub fn lsr_indirect_x(&mut self, addr_lower_byte: u8) -> (cycles: u8)
        requires
            old(self).wf(),
        ensures
            final(self).wf(),
            final(self).registers == (Registers {
                processor_status: spec_lsr_p(old(self).registers.processor_status, spec_read_value(old(self).memory, spec_ind_x_ea(old(self).memory.buffer@, addr_lower_byte, old(self).registers.index_x))),
                ..old(self).registers
            }),
            spec_store_rel_x(old(self).memory, spec_read_regs_x(old(self).memory, old(self).memory.ppu.regs, spec_ind_x_ea(old(self).memory.buffer@, addr_lower_byte, old(self).registers.index_x)), spec_read_input_x(old(self).memory.input, spec_ind_x_ea(old(self).memory.buffer@, addr_lower_byte, old(self).registers.index_x)), final(self).memory, spec_ind_x_ea(old(self).memory.buffer@, addr_lower_byte, old(self).registers.index_x), spec_lsr_val(spec_read_value(old(self).memory, spec_ind_x_ea(old(self).memory.buffer@, addr_lower_byte, old(self).registers.index_x)))),
            final(self).num_cycles == old(self).num_cycles,
            final(self).memory.ppu.regs.num_cycles == old(self).memory.ppu.regs.num_cycles,
    {
        let value = self.memory.fetch_indirect_x(addr_lower_byte, self.registers.index_x);
        let value_rotated = self.lsr_immediate(value);
        self.memory.store_indirect_x(addr_lower_byte, self.registers.index_x, value_rotated);

        8
    }

    /// LSR - shift the addressed byte right once through the indirect,y addressing mode.
    pub fn lsr_indirect_y(&mut self, addr_lower_byte: u8) -> (cycles: u8)
        requires
            old(self).wf(),
        ensures
            final(self).wf(),
            final(self).registers == (Registers {
                processor_status: spec_lsr_p(old(self).registers.processor_status, spec_read_value(old(self).memory, spec_ind_y_ea(old(self).memory.buffer@, addr_lower_byte, old(self).registers.index_y))),
                ..old(self).registers
            }),
            spec_store_rel_x(old(self).memory, spec_read_regs_x(old(self).memory, old(self).memory.ppu.regs, spec_ind_y_ea(old(self).memory.buffer@, addr_lower_byte, old(self).registers.index_y)), spec_read_input_x(old(self).memory.input, spec_ind_y_ea(old(self).memory.buffer@, addr_lower_byte, old(self).registers.index_y)), final(self).memory, spec_ind_y_ea(old(self).memory.buffer@, addr_lower_byte, old(self).registers.index_y), spec_lsr_val(spec_read_value(old(self).memory, spec_ind_y_ea(old(self).memory.buffer@, addr_lower_byte, old(self).registers.index_y)))),
            final(self).num_cycles == old(self).num_cycles,
            final(self).memory.ppu.regs.num_cycles == old(self).memory.ppu.regs.num_cycles,
    {
        let value = self.memory.fetch_indirect_y(addr_lower_byte, self.registers.index_y);
        let value_rotated = self.lsr_immediate(value);
        self.memory.store_indirect_y(addr_lower_byte, self.registers.index_y, value_rotated);

        8
    }

    /// ROL - rotate the addressed byte left through the carry through the indirect,x addressing mode.
    pub fn rol_indirect_x(&mut self, addr_lower_byte: u8) -> (cycles: u8)
        requires
            old(self).wf(),
        ensures
            final(self).wf(),
            final(self).registers == (Registers {
                processor_status: spec_rol_p(old(self).registers.processor_status, spec_read_value(old(self).memory, spec_ind_x_ea(old(self).memory.buffer@, addr_lower_byte, old(self).registers.index_x))),
                ..old(self).registers
            }),
            spec_store_rel_x(old(self).memory, spec_read_regs_x(old(self).memory, old(self).memory.ppu.regs, spec_ind_x_ea(old(self).memory.buffer@, addr_lower_byte, old(self).registers.index_x)), spec_read_input_x(old(self).memory.input, spec_ind_x_ea(old(self).memory.buffer@, addr_lower_byte, old(self).registers.index_x)), final(self).memory, spec_ind_x_ea(old(self).memory.buffer@, addr_lower_byte, old(self).registers.index_x), spec_rol_val(old(self).registers.processor_status, spec_read_value(old(self).memory, spec_ind_x_ea(old(self).memory.buffer@, addr_lower_byte, old(self).registers.index_x)))),
            final(self).num_cycles == old(self).num_cycles,
            final(self).memory.ppu.regs.num_cycles == old(self).memory.ppu.regs.num_cycles,
    {
        let value = self.memory.fetch_indirect_x(addr_lower_byte, self.registers.index_x);
        let value_rotated = self.rol_immediate(value);
        self.memory.store_indirect_x(addr_lower_byte, self.registers.index_x, value_rotated);

        8
    }

    /// ROL - rotate the addressed byte left through the carry through the indirect,y addressing mode.
    pub fn rol_indirect_y(&mut self, addr_lower_byte: u8) -> (new_value: u8)
        requires
            old(self).wf(),
        ensures
            final(self).wf(),
            final(self).registers == (Registers {
                processor_status: spec_rol_p(old(self).registers.processor_status, spec_read_value(old(self).memory, spec_ind_y_ea(old(self).memory.buffer@, addr_lower_byte, old(self).registers.index_y))),
                ..old(self).registers
            }),
            spec_store_rel_x(old(self).memory, spec_read_regs_x(old(self).memory, old(self).memory.ppu.regs, spec_ind_y_ea(old(self).memory.buffer@, addr_lower_byte, old(self).registers.index_y)), spec_read_input_x(old(self).memory.input, spec_ind_y_ea(old(self).memory.buffer@, addr_lower_byte, old(self).registers.index_y)), final(self).memory, spec_ind_y_ea(old(self).memory.buffer@, addr_lower_byte, old(self).registers.index_y), spec_rol_val(old(self).registers.processor_status, spec_read_value(old(self).memory, spec_ind_y_ea(old(self).memory.buffer@, addr_lower_byte, old(self).registers.index_y)))),
            new_value == spec_rol_val(old(self).registers.processor_status, spec_read_value(old(self).memory, spec_ind_y_ea(old(self).memory.buffer@, addr_lower_byte, old(self).registers.index_y))),
            final(self).num_cycles == old(self).num_cycles,
            final(self).memory.ppu.regs.num_cycles == old(self).memory.ppu.regs.num_cycles,
    {
        let value = self.memory.fetch_indirect_y(addr_lower_byte, self.registers.index_y);
        let value_rotated = self.rol_immediate(value);
        self.memory.store_indirect_y(addr_lower_byte, self.registers.index_y, value_rotated);

        value_rotated
    }

    /// ROR - rotate the addressed byte right through the carry through the indirect,x addressing mode.
    pub fn ror_indirect_x(&mut self, addr_lower_byte: u8) -> (cycles: u8)
        requires
            old(self).wf(),
        ensures
            final(self).wf(),
            final(self).registers == (Registers {
                processor_status: spec_ror_p(old(self).registers.processor_status, spec_read_value(old(self).memory, spec_ind_x_ea(old(self).memory.buffer@, addr_lower_byte, old(self).registers.index_x))),
                ..old(self).registers
            }),
            spec_store_rel_x(old(self).memory, spec_read_regs_x(old(self).memory, old(self).memory.ppu.regs, spec_ind_x_ea(old(self).memory.buffer@, addr_lower_byte, old(self).registers.index_x)), spec_read_input_x(old(self).memory.input, spec_ind_x_ea(old(self).memory.buffer@, addr_lower_byte, old(self).registers.index_x)), final(self).memory, spec_ind_x_ea(old(self).memory.buffer@, addr_lower_byte, old(self).registers.index_x), spec_ror_val(old(self).registers.processor_status, spec_read_value(old(self).memory, spec_ind_x_ea(old(self).memory.buffer@, addr_lower_byte, old(self).registers.index_x)))),
            final(self).num_cycles == old(self).num_cycles,
            final(self).memory.ppu.regs.num_cycles == old(self).memory.ppu.regs.num_cycles,
    {
        let value = self.memory.fetch_indirect_x(addr_lower_byte, self.registers.index_x);
        let value_rotated = self.ror_immediate(value);
        self.memory.store_indirect_x(addr_lower_byte, self.registers.index_x, value_rotated);

        8
    }

    /// ROR - rotate the addressed byte right through the carry through the indirect,y addressing mode.
    pub fn ror_indirect_y(&mut self, addr_lower_byte: u8) -> (cycles: u8)
        requires
            old(self).wf(),
        ensures
            final(self).wf(),
            final(self).registers == (Registers {
                processor_status: spec_ror_p(old(self).registers.processor_status, spec_read_value(old(self).memory, spec_ind_y_ea(old(self).memory.buffer@, addr_lower_byte, old(self).registers.index_y))),
                ..old(self).registers
            }),
            spec_store_rel_x(old(self).memory, spec_read_regs_x(old(self).memory, old(self).memory.ppu.regs, spec_ind_y_ea(old(self).memory.buffer@, addr_lower_byte, old(self).registers.index_y)), spec_read_input_x(old(self).memory.input, spec_ind_y_ea(old(self).memory.buffer@, addr_lower_byte, old(self).registers.index_y)), final(self).memory, spec_ind_y_ea(old(self).memory.buffer@, addr_lower_byte, old(self).registers.index_y), spec_ror_val(old(self).registers.processor_status, spec_read_value(old(self).memory, spec_ind_y_ea(old(self).memory.buffer@, addr_lower_byte, old(self).registers.index_y)))),
            final(self).num_cycles == old(self).num_cycles,
            final(self).memory.ppu.regs.num_cycles == old(self).memory.ppu.regs.num_cycles,
    {
        let value = self.memory.fetch_indirect_y(addr_lower_byte, self.registers.index_y);
        let value_rotated = self.ror_immediate(value);
        self.memory.store_indirect_y(addr_lower_byte, self.registers.index_y, value_rotated);

        8
    }

    /// DCP (unofficial) - decrement the addressed byte, then compare it with A.
    pub fn dcp_zero_page(&mut self, addr_lower_byte: u8) -> (cycles: u8)
        requires
            old(self).wf(),
        ensures
            final(self).wf(),
            final(self).registers == spec_cmp_regs(old(self).registers, spec_dec_val(old(self).memory.buffer@[addr_lower_byte as int])),
            spec_store_rel(old(self).memory, final(self).memory, addr_lower_byte as u16, spec_dec_val(old(self).memory.buffer@[addr_lower_byte as int])),
            final(self).num_cycles == old(self).num_cycles,
            final(self).memory.ppu.regs.num_cycles == old(self).memory.ppu.regs.num_cycles,
            cycles == 5,
    {
        let value = self.memory.fetch_zero_page(addr_lower_byte).wrapping_sub(1);
        self.memory.store_zero_page(addr_lower_byte, value);

        self.cmp_zero_page(addr_lower_byte);

        5
    }

    /// DCP (unofficial) - decrement the addressed byte, then compare it with A.
    pub fn dcp_zero_page_x(&mut self, addr_lower_byte: u8) -> (cycles: u8)
        requires
            old(self).wf(),
        ensures
            final(self).wf(),
            final(self).registers == spec_cmp_regs(old(self).registers, spec_dec_val(old(self).memory.buffer@[spec_zp_x_ea(addr_lower_byte, old(self).registers.index_x) as int])),
            spec_store_rel(old(self).memory, final(self).memory, spec_zp_x_ea(addr_lower_byte, old(self).registers.index_x), spec_dec_val(old(self).memory.buffer@[spec_zp_x_ea(addr_lower_byte, old(self).registers.index_x) as int])),
            final(self).num_cycles == old(self).num_cycles,
            final(self).memory.ppu.regs.num_cycles == old(self).memory.ppu.regs.num_cycles,
            cycles == 6,
    {
        let value = self
            .memory
            .fetch_zero_page_x(addr_lower_byte, self.registers.index_x)
            .wrapping_sub(1);
        self.memory.store_zero_page_x(addr_lower_byte, self.registers.index_x, value);

        self.cmp_zero_page_x(addr_lower_byte);

        6
    }

    /// DCP (unofficial) - decrement the addressed byte, then compare it with A. The exact effect is stated off the mapped-register window and
    /// where the rewrite cannot clobber its own pointer.
    pub fn dcp_absolute(&mut self, address: u16) -> (cycles: u8)
        requires
            old(self).wf(),
        ensures
            final(self).wf(),
            (!spec_is_mmio(address)) ==> {
                &&& final(self).registers == spec_cmp_regs(old(self).registers, spec_dec_val(old(self).memory.buffer@[(address) as int]))
                &&& spec_store_rel(old(self).memory, final(self).memory, address, spec_dec_val(old(self).memory.buffer@[(address) as int]))
            },
            final(self).num_cycles == old(self).num_cycles,
            final(self).memory.ppu.regs.num_cycles == old(self).memory.ppu.regs.num_cycles,
            cycles == 6,
    {
        let value = self.memory.fetch_absolute(address).wrapping_sub(1);
        self.memory.store_absolute(address, value);

        self.cmp_absolute(address);

        6
    }

    /// DCP (unofficial) - decrement the addressed byte, then compare it with A. The exact effect is stated off the mapped-register window and
    /// where the rewrite cannot clobber its own pointer.
    pub fn dcp_absolute_x(&mut self, address: u16) -> (cycles: u8)
        requires
            old(self).wf(),
        ensures
            final(self).wf(),
            (!spec_is_mmio(spec_abs_x_ea(address, old(self).registers.index_x))) ==> {
                &&& final(self).registers == spec_cmp_regs(old(self).registers, spec_dec_val(old(self).memory.buffer@[(spec_abs_x_ea(address, old(self).registers.index_x)) as int]))
                &&& spec_store_rel(old(self).memory, final(self).memory, spec_abs_x_ea(address, old(self).registers.index_x), spec_dec_val(old(self).memory.buffer@[(spec_abs_x_ea(address, old(self).registers.index_x)) as int]))
            },
            final(self).num_cycles == old(self).num_cycles,
            final(self).memory.ppu.regs.num_cycles == old(self).memory.ppu.regs.num_cycles,
            cycles == 7,
    {
        let value = self
            .memory
            .fetch_absolute_x(address, self.registers.index_x)
            .wrapping_sub(1);
        self.memory.store_absolute_x(address, self.registers.index_x, value);

        self.cmp_absolute_x(address);

        7
    }

    /// DCP (unofficial) - decrement the addressed byte, then compare it with A. The exact effect is stated off the mapped-register window and
    /// where the rewrite cannot clobber its own pointer.
    pub fn dcp_absolute_y(&mut self, address: u16) -> (cycles: u8)
        requires
            old(self).wf(),
        ensures
            final(self).wf(),
            (!spec_is_mmio(spec_abs_x_ea(address, old(self).registers.index_y))) ==> {
                &&& final(self).registers == spec_cmp_regs(old(self).registers, spec_dec_val(old(self).memory.buffer@[(spec_abs_x_ea(address, old(self).registers.index_y)) as int]))
                &&& spec_store_rel(old(self).memory, final(self).memory, spec_abs_x_ea(address, old(self).registers.index_y), spec_dec_val(old(self).memory.buffer@[(spec_abs_x_ea(address, old(self).registers.index_y)) as int]))
            },
            final(self).num_cycles == old(self).num_cycles,
            final(self).memory.ppu.regs.num_cycles == old(self).memory.ppu.regs.num_cycles,
            cycles == 7,
    {
        let value = self
            .memory
            .fetch_absolute_x(address, self.registers.index_y)
            .wrapping_sub(1);
        self.memory.store_absolute_x(address, self.registers.index_y, value);

        self.cmp_absolute_y(address);

        7
    }

    /// DCP (unofficial) - decrement the addressed byte, then compare it with A. The exact effect is stated off the mapped-register window and
    /// where the rewrite cannot clobber its own pointer.
    pub fn dcp_indirect_x(&mut self, addr_lower_byte: u8) -> (cycles: u8)
        requires
            old(self).wf(),
        ensures
            final(self).wf(),
            (!spec_is_mmio(spec_ind_x_ea(old(self).memory.buffer@, addr_lower_byte, old(self).registers.index_x)) && spec_ind_x_ea(old(self).memory.buffer@, addr_lower_byte, old(self).registers.index_x) != spec_ind_x_lo_ptr(addr_lower_byte, old(self).registers.index_x) as u16 && spec_ind_x_ea(old(self).memory.buffer@, addr_lower_byte, old(self).registers.index_x) != vstd::wrapping::u8_specs::wrapping_add(spec_ind_x_lo_ptr(addr_lower_byte, old(self).registers.index_x), 1) as u16) ==> {
                &&& final(self).registers == spec_cmp_regs(old(self).registers, spec_dec_val(old(self).memory.buffer@[(spec_ind_x_ea(old(self).memory.buffer@, addr_lower_byte, old(self).registers.index_x)) as int]))
                &&& spec_store_rel(old(self).memory, final(self).memory, spec_ind_x_ea(old(self).memory.buffer@, addr_lower_byte, old(self).registers.index_x), spec_dec_val(old(self).memory.buffer@[(spec_ind_x_ea(old(self).memory.buffer@, addr_lower_byte, old(self).registers.index_x)) as int]))
            },
            final(self).num_cycles == old(self).num_cycles,
            final(self).memory.ppu.regs.num_cycles == old(self).memory.ppu.regs.num_cycles,
            cycles == 8,
    {
        let value = self
            .memory
            .fetch_indirect_x(addr_lower_byte, self.registers.index_x)
            .wrapping_sub(1);
        self.memory.store_indirect_x(addr_lower_byte, self.registers.index_x, value);

        self.cmp_indirect_x(addr_lower_byte);

        8
    }

    /// DCP (unofficial) - decrement the addressed byte, then compare it with A. The exact effect is stated off the mapped-register window and
    /// where the rewrite cannot clobber its own pointer.
    pub fn dcp_indirect_y(&mut self, addr_lower_byte: u8) -> (cycles: u8)
        requires
            old(self).wf(),
        ensures
            final(self).wf(),
            (!spec_is_mmio(spec_ind_y_ea(old(self).memory.buffer@, addr_lower_byte, old(self).registers.index_y)) && spec_ind_y_ea(old(self).memory.buffer@, addr_lower_byte, old(self).registers.index_y) != addr_lower_byte as u16 && spec_ind_y_ea(old(self).memory.buffer@, addr_lower_byte, old(self).registers.index_y) != vstd::wrapping::u8_specs::wrapping_add(addr_lower_byte, 1) as u16) ==> {
                &&& final(self).registers == spec_cmp_regs(old(self).registers, spec_dec_val(old(self).memory.buffer@[(spec_ind_y_ea(old(self).memory.buffer@, addr_lower_byte, old(self).registers.index_y)) as int]))
                &&& spec_store_rel(old(self).memory, final(self).memory, spec_ind_y_ea(old(self).memory.buffer@, addr_lower_byte, old(self).registers.index_y), spec_dec_val(old(self).memory.buffer@[(spec_ind_y_ea(old(self).memory.buffer@, addr_lower_byte, old(self).registers.index_y)) as int]))
            },
            final(self).num_cycles == old(self).num_cycles,
            final(self).memory.ppu.regs.num_cycles == old(self).memory.ppu.regs.num_cycles,
            cycles == 8,
    {
        let value = self
            .memory
            .fetch_indirect_y(addr_lower_byte, self.registers.index_y)
            .wrapping_sub(1);
        self.memory.store_indirect_y(addr_lower_byte, self.registers.index_y, value);

        self.cmp_indirect_y(addr_lower_byte);

        8
    }

    /// ISB (unofficial) - increment the addressed byte, then subtract it from A.
    pub fn isb_zero_page(&mut self, addr_lower_byte: u8) -> (cycles: u8)
        requires
            old(self).wf(),
        ensures
            final(self).wf(),
            final(self).registers == spec_sbc_regs(old(self).registers, spec_inc_val(old(self).memory.buffer@[addr_lower_byte as int])),
            spec_store_rel(old(self).memory, final(self).memory, addr_lower_byte as u16, spec_inc_val(old(self).memory.buffer@[addr_lower_byte as int])),
            final(self).num_cycles == old(self).num_cycles,
            final(self).memory.ppu.regs.num_cycles == old(self).memory.ppu.regs.num_cycles,
            cycles == 5,
    {
        let value = self.memory.fetch_zero_page(addr_lower_byte).wrapping_add(1);
        self.memory.store_zero_page(addr_lower_byte, value);

        self.sbc_zero_page(addr_lower_byte);

        5
    }

    /// ISB (unofficial) - increment the addressed byte, then subtract it from A.
    pub fn isb_zero_page_x(&mut self, addr_lower_byte: u8) -> (cycles: u8)
        requires
            old(self).wf(),
        ensures
            final(self).wf(),
            final(self).registers == spec_sbc_regs(old(self).registers, spec_inc_val(old(self).memory.buffer@[spec_zp_x_ea(addr_lower_byte, old(self).registers.index_x) as int])),
            spec_store_rel(old(self).memory, final(self).memory, spec_zp_x_ea(addr_lower_byte, old(self).registers.index_x), spec_inc_val(old(self).memory.buffer@[spec_zp_x_ea(addr_lower_byte, old(self).registers.index_x) as int])),
            final(self).num_cycles == old(self).num_cycles,
            final(self).memory.ppu.regs.num_cycles == old(self).memory.ppu.regs.num_cycles,
            cycles == 6,
    {
        let value = self
            .memory
            .fetch_zero_page_x(addr_lower_byte, self.registers.index_x)
            .wrapping_add(1);
        self.memory.store_zero_page_x(addr_lower_byte, self.registers.index_x, value);

        self.sbc_zero_page_x(addr_lower_byte);

        6
    }

    /// ISB (unofficial) - increment the addressed byte, then subtract it from A. The exact effect is stated off the mapped-register window and
    /// where the rewrite cannot clobber its own pointer.
    pub fn isb_absolute(&mut self, address: u16) -> (cycles: u8)
        requires
            old(self).wf(),
        ensures
            final(self).wf(),
            (!spec_is_mmio(address)) ==> {
                &&& final(self).registers == spec_sbc_regs(old(self).registers, spec_inc_val(old(self).memory.buffer@[(address) as int]))
                &&& spec_store_rel(old(self).memory, final(self).memory, address, spec_inc_val(old(self).memory.buffer@[(address) as int]))
            },
            final(self).num_cycles == old(self).num_cycles,
            final(self).memory.ppu.regs.num_cycles == old(self).memory.ppu.regs.num_cycles,
            cycles == 6,
    {
        let value = self.memory.fetch_absolute(address).wrapping_add(1);
        self.memory.store_absolute(address, value);

        self.sbc_absolute(address);

        6
    }

    /// ISB (unofficial) - increment the addressed byte, then subtract it from A. The exact effect is stated off the mapped-register window and
    /// where the rewrite cannot clobber its own pointer.
    pub fn isb_absolute_x(&mut self, address: u16) -> (cycles: u8)
        requires
            old(self).wf(),
        ensures
            final(self).wf(),
            (!spec_is_mmio(spec_abs_x_ea(address, old(self).registers.index_x))) ==> {
                &&& final(self).registers == spec_sbc_regs(old(self).registers, spec_inc_val(old(self).memory.buffer@[(spec_abs_x_ea(address, old(self).registers.index_x)) as int]))
                &&& spec_store_rel(old(self).memory, final(self).memory, spec_abs_x_ea(address, old(self).registers.index_x), spec_inc_val(old(self).memory.buffer@[(spec_abs_x_ea(address, old(self).registers.index_x)) as int]))
            },
            final(self).num_cycles == old(self).num_cycles,
            final(self).memory.ppu.regs.num_cycles == old(self).memory.ppu.regs.num_cycles,
            cycles == 7,
    {
        let value = self
            .memory
            .fetch_absolute_x(address, self.registers.index_x)
            .wrapping_add(1);
        self.memory.store_absolute_x(address, self.registers.index_x, value);

        self.sbc_absolute_x(address);

        7
    }

    /// ISB (unofficial) - increment the addressed byte, then subtract it from A. The exact effect is stated off the mapped-register window and
    /// where the rewrite cannot clobber its own pointer.
    pub fn isb_absolute_y(&mut self, address: u16) -> (cycles: u8)
        requires
            old(self).wf(),
        ensures
            final(self).wf(),
            (!spec_is_mmio(spec_abs_x_ea(address, old(self).registers.index_y))) ==> {
                &&& final(self).registers == spec_sbc_regs(old(self).registers, spec_inc_val(old(self).memory.buffer@[(spec_abs_x_ea(address, old(self).registers.index_y)) as int]))
                &&& spec_store_rel(old(self).memory, final(self).memory, spec_abs_x_ea(address, old(self).registers.index_y), spec_inc_val(old(self).memory.buffer@[(spec_abs_x_ea(address, old(self).registers.index_y)) as int]))
            },
            final(self).num_cycles == old(self).num_cycles,
            final(self).memory.ppu.regs.num_cycles == old(self).memory.ppu.regs.num_cycles,
            cycles == 7,
    {
        let value = self
            .memory
            .fetch_absolute_x(address, self.registers.index_y)
            .wrapping_add(1);
        self.memory.store_absolute_x(address, self.registers.index_y, value);

        self.sbc_absolute_y(address);

        7
    }

    /// ISB (unofficial) - increment the addressed byte, then subtract it from A. The exact effect is stated off the mapped-register window and
    /// where the rewrite cannot clobber its own pointer.
    pub fn isb_indirect_x(&mut self, addr_lower_byte: u8) -> (cycles: u8)
        requires
            old(self).wf(),
        ensures
            final(self).wf(),
            (!spec_is_mmio(spec_ind_x_ea(old(self).memory.buffer@, addr_lower_byte, old(self).registers.index_x)) && spec_ind_x_ea(old(self).memory.buffer@, addr_lower_byte, old(self).registers.index_x) != spec_ind_x_lo_ptr(addr_lower_byte, old(self).registers.index_x) as u16 && spec_ind_x_ea(old(self).memory.buffer@, addr_lower_byte, old(self).registers.index_x) != vstd::wrapping::u8_specs::wrapping_add(spec_ind_x_lo_ptr(addr_lower_byte, old(self).registers.index_x), 1) as u16) ==> {
                &&& final(self).registers == spec_sbc_regs(old(self).registers, spec_inc_val(old(self).memory.buffer@[(spec_ind_x_ea(old(self).memory.buffer@, addr_lower_byte, old(self).registers.index_x)) as int]))
                &&& spec_store_rel(old(self).memory, final(self).memory, spec_ind_x_ea(old(self).memory.buffer@, addr_lower_byte, old(self).registers.index_x), spec_inc_val(old(self).memory.buffer@[(spec_ind_x_ea(old(self).memory.buffer@, addr_lower_byte, old(self).registers.index_x)) as int]))
            },
            final(self).num_cycles == old(self).num_cycles,
            final(self).memory.ppu.regs.num_cycles == old(self).memory.ppu.regs.num_cycles,
            cycles == 8,
    {
        let value = self
            .memory
            .fetch_indirect_x(addr_lower_byte, self.registers.index_x)
            .wrapping_add(1);
        self.memory.store_indirect_x(addr_lower_byte, self.registers.index_x, value);

        self.sbc_indirect_x(addr_lower_byte);

        8
    }

    /// ISB (unofficial) - increment the addressed byte, then subtract it from A. The exact effect is stated off the mapped-register window and
    /// where the rewrite cannot clobber its own pointer.
    pub fn isb_indirect_y(&mut self, addr_lower_byte: u8) -> (cycles: u8)
        requires
            old(self).wf(),
        ensures
            final(self).wf(),
            (!spec_is_mmio(spec_ind_y_ea(old(self).memory.buffer@, addr_lower_byte, old(self).registers.index_y)) && spec_ind_y_ea(old(self).memory.buffer@, addr_lower_byte, old(self).registers.index_y) != addr_lower_byte as u16 && spec_ind_y_ea(old(self).memory.buffer@, addr_lower_byte, old(self).registers.index_y) != vstd::wrapping::u8_specs::wrapping_add(addr_lower_byte, 1) as u16) ==> {
                &&& final(self).registers == spec_sbc_regs(old(self).registers, spec_inc_val(old(self).memory.buffer@[(spec_ind_y_ea(old(self).memory.buffer@, addr_lower_byte, old(self).registers.index_y)) as int]))
                &&& spec_store_rel(old(self).memory, final(self).memory, spec_ind_y_ea(old(self).memory.buffer@, addr_lower_byte, old(self).registers.index_y), spec_inc_val(old(self).memory.buffer@[(spec_ind_y_ea(old(self).memory.buffer@, addr_lower_byte, old(self).registers.index_y)) as int]))
            },
            final(self).num_cycles == old(self).num_cycles,
            final(self).memory.ppu.regs.num_cycles == old(self).memory.ppu.regs.num_cycles,
            cycles == 8,
    {
        let value = self
            .memory
            .fetch_indirect_y(addr_lower_byte, self.registers.index_y)
            .wrapping_add(1);
        self.memory.store_indirect_y(addr_lower_byte, self.registers.index_y, value);

        self.sbc_indirect_y(addr_lower_byte);

        8
    }

    /// LAX (unofficial) - load the fetched byte into both A and X.
    pub fn lax_zero_page(&mut self, addr_lower_byte: u8) -> (cycles: u8)
        requires
            old(self).wf(),
        ensures
            final(self).wf(),
            final(self).registers == spec_ldx_regs(spec_lda_regs(old(self).registers, old(self).memory.buffer@[addr_lower_byte as int]), old(self).memory.buffer@[addr_lower_byte as int]),
            spec_mem_unchanged(old(self).memory, final(self).memory),
            final(self).num_cycles == old(self).num_cycles,
            final(self).memory.ppu.regs.num_cycles == old(self).memory.ppu.regs.num_cycles,
            cycles == 3,
    {
        self.lda_zero_page(addr_lower_byte);
        self.ldx_zero_page(addr_lower_byte);

        3
    }

    /// LAX (unofficial) - load the fetched byte into both A and X.
    pub fn lax_zero_page_y(&mut self, addr_lower_byte: u8) -> (cycles: u8)
        requires
            old(self).wf(),
        ensures
            final(self).wf(),
            final(self).registers == spec_ldx_regs(spec_lda_regs(old(self).registers, old(self).memory.buffer@[spec_zp_x_ea(addr_lower_byte, old(self).registers.index_y) as int]), old(self).memory.buffer@[spec_zp_x_ea(addr_lower_byte, old(self).registers.index_y) as int]),
            spec_mem_unchanged(old(self).memory, final(self).memory),
            final(self).num_cycles == old(self).num_cycles,
            final(self).memory.ppu.regs.num_cycles == old(self).memory.ppu.regs.num_cycles,
            cycles == 4,
    {
        self.lda_zero_page_y_lax(addr_lower_byte);
        self.ldx_zero_page_y(addr_lower_byte);

        4
    }

    /// LAX (unofficial) - load the fetched byte into both A and X. The exact effect is stated off the mapped-register window,
    /// where the two component loads observe the same byte.
    pub fn lax_absolute(&mut self, address: u16) -> (cycles: u8)
        requires
            old(self).wf(),
        ensures
            final(self).wf(),
            !spec_is_mmio(address) ==> {
                &&& final(self).registers == spec_ldx_regs(
                    spec_lda_regs(old(self).registers, old(self).memory.buffer@[(address) as int]),
                    old(self).memory.buffer@[(address) as int],
                )
                &&& spec_mem_unchanged(old(self).memory, final(self).memory)
            },
            final(self).num_cycles == old(self).num_cycles,
            final(self).memory.ppu.regs.num_cycles == old(self).memory.ppu.regs.num_cycles,
            cycles == 4,
    {
        self.lda_absolute(address);
        self.ldx_absolute(address);

        4
    }

    /// LAX (unofficial) - load the fetched byte into both A and X. The exact effect is stated off the mapped-register window,
    /// where the two component loads observe the same byte.
    pub fn lax_absolute_y(&mut self, address: u16) -> (cycles: u8)
        requires
            old(self).wf(),
        ensures
            final(self).wf(),
            !spec_is_mmio(spec_abs_x_ea(address, old(self).registers.index_y)) ==> {
                &&& final(self).registers == spec_ldx_regs(
                    spec_lda_regs(old(self).registers, old(self).memory.buffer@[(spec_abs_x_ea(address, old(self).registers.index_y)) as int]),
                    old(self).memory.buffer@[(spec_abs_x_ea(address, old(self).registers.index_y)) as int],
                )
                &&& spec_mem_unchanged(old(self).memory, final(self).memory)
            },
            final(self).num_cycles == old(self).num_cycles,
            final(self).memory.ppu.regs.num_cycles == old(self).memory.ppu.regs.num_cycles,
            cycles == 4,
    {
        self.lda_absolute_y(address);
        self.ldx_absolute_y(address);

        4
    }

    /// LAX (unofficial) - load the fetched byte into both A and X. The exact effect is stated off the mapped-register window,
    /// where the two component loads observe the same byte.
    pub fn lax_indirect_x(&mut self, addr_lower_byte: u8) -> (cycles: u8)
        requires
            old(self).wf(),
        ensures
            final(self).wf(),
            !spec_is_mmio(spec_ind_x_ea(old(self).memory.buffer@, addr_lower_byte, old(self).registers.index_x)) ==> {
                &&& final(self).registers == spec_ldx_regs(
                    spec_lda_regs(old(self).registers, old(self).memory.buffer@[(spec_ind_x_ea(old(self).memory.buffer@, addr_lower_byte, old(self).registers.index_x)) as int]),
                    old(self).memory.buffer@[(spec_ind_x_ea(old(self).memory.buffer@, addr_lower_byte, old(self).registers.index_x)) as int],
                )
                &&& spec_mem_unchanged(old(self).memory, final(self).memory)
            },
            final(self).num_cycles == old(self).num_cycles,
            final(self).memory.ppu.regs.num_cycles == old(self).memory.ppu.regs.num_cycles,
            cycles == 6,
    {
        self.lda_indirect_x(addr_lower_byte);
        self.ldx_indirect_x_lax(addr_lower_byte);

        6
    }

    /// LAX (unofficial) - load the fetched byte into both A and X. The exact effect is stated off the mapped-register window,
    /// where the two component loads observe the same byte.
    pub fn lax_indirect_y(&mut self, addr_lower_byte: u8) -> (cycles: u8)
        requires
            old(self).wf(),
        ensures
            final(self).wf(),
            !spec_is_mmio(spec_ind_y_ea(old(self).memory.buffer@, addr_lower_byte, old(self).registers.index_y)) ==> {
                &&& final(self).registers == spec_ldx_regs(
                    spec_lda_regs(old(self).registers, old(self).memory.buffer@[(spec_ind_y_ea(old(self).memory.buffer@, addr_lower_byte, old(self).registers.index_y)) as int]),
                    old(self).memory.buffer@[(spec_ind_y_ea(old(self).memory.buffer@, addr_lower_byte, old(self).registers.index_y)) as int],
                )
                &&& spec_mem_unchanged(old(self).memory, final(self).memory)
            },
            final(self).num_cycles == old(self).num_cycles,
            final(self).memory.ppu.regs.num_cycles == old(self).memory.ppu.regs.num_cycles,
            cycles == 5,
    {
        self.lda_indirect_y(addr_lower_byte);
        self.ldx_indirect_y_lax(addr_lower_byte);

        5
    }

    /// LDA through zero page,Y; only the LAX composition uses this mode.
    fn lda_zero_page_y_lax(&mut self, addr_lower_byte: u8) -> (cycles: u8)
        requires
            old(self).wf(),
        ensures
            final(self).wf(),
            final(self).registers == spec_lda_regs(
                old(self).registers,
                old(self).memory.buffer@[spec_zp_x_ea(
                    addr_lower_byte,
                    old(self).registers.index_y,
                ) as int],
            ),
            spec_mem_unchanged(old(self).memory, final(self).memory),
            final(self).num_cycles == old(self).num_cycles,
            final(self).memory.ppu.regs.num_cycles == old(self).memory.ppu.regs.num_cycles,
            cycles == 4,
    {
        let value = self.memory.fetch_zero_page_x(addr_lower_byte, self.registers.index_y);
        self.lda_immediate(value);

        4
    }

    /// LDX through (indirect,X); only the LAX composition uses this mode.
    fn ldx_indirect_x_lax(&mut self, addr_lower_byte: u8) -> (cycles: u8)
        requires
            old(self).wf(),
        ensures
            final(self).wf(),
            final(self).registers == spec_ldx_regs(
                old(self).registers,
                spec_read_value(
                    old(self).memory,
                    spec_ind_x_ea(
                        old(self).memory.buffer@,
                        addr_lower_byte,
                        old(self).registers.index_x,
                    ),
                ),
            ),
            spec_read_rel(
                old(self).memory,
                final(self).memory,
                spec_ind_x_ea(old(self).memory.buffer@, addr_lower_byte, old(self).registers.index_x),
            ),
            final(self).num_cycles == old(self).num_cycles,
            final(self).memory.ppu.regs.num_cycles == old(self).memory.ppu.regs.num_cycles,
            cycles == 6,
    {
        let value = self.memory.fetch_indirect_x(addr_lower_byte, self.registers.index_x);
        self.ldx_immediate(value);

        6
    }

    /// LDX through (indirect),Y; only the LAX composition uses this mode.
    fn ldx_indirect_y_lax(&mut self, addr_lower_byte: u8) -> (cycles: u8)
        requires
            old(self).wf(),
        ensures
            final(self).wf(),
            final(self).registers == spec_ldx_regs(
                old(self).registers,
                spec_read_value(
                    old(self).memory,
                    spec_ind_y_ea(
                        old(self).memory.buffer@,
                        addr_lower_byte,
                        old(self).registers.index_y,
                    ),
                ),
            ),
            spec_read_rel(
                old(self).memory,
                final(self).memory,
                spec_ind_y_ea(old(self).memory.buffer@, addr_lower_byte, old(self).registers.index_y),
            ),
            final(self).num_cycles == old(self).num_cycles,
            final(self).memory.ppu.regs.num_cycles == old(self).memory.ppu.regs.num_cycles,
            cycles == 5,
    {
        let value = self.memory.fetch_indirect_y(addr_lower_byte, self.registers.index_y);
        self.ldx_immediate(value);

        5
    }

    /// Maps each opcode to its handler: returns the cycles the instruction
    /// cost and how many bytes the program counter advances by. The table
    /// is total: undocumented jam and no-op opcodes consume their bytes and
    /// zero cycles so the stream always continues. When the instruction's
    /// bytes sit on plain RAM the state change is exactly the fetched
    /// opcode's `spec_step_effect` and the cycles its `spec_step_cycles`.
    fn decode_execute(&mut self, opcode: u8) -> (r: (u8, u8))
        requires
            old(self).wf(),
        ensures
            final(self).wf(),
            r.1 == spec_opcode_len(opcode),
            r.0 <= 8,
            final(self).num_cycles == old(self).num_cycles,
            final(self).memory.ppu.regs.num_cycles == old(self).memory.ppu.regs.num_cycles,
            (!spec_is_mmio(vstd::wrapping::u16_specs::wrapping_add(
                old(self).registers.program_counter,
                1,
            )) && !spec_is_mmio(vstd::wrapping::u16_specs::wrapping_add(
                old(self).registers.program_counter,
                2,
            ))) ==> {
                &&& spec_step_effect(*old(self), *final(self), opcode)
                &&& r.0 == spec_step_cycles(*old(self), opcode)
            },
    {
        if opcode < 0x40 {
            self.decode_execute_q0(opcode)
        } else if opcode < 0x80 {
            self.decode_execute_q1(opcode)
        } else if opcode < 0xC0 {
            self.decode_execute_q2(opcode)
        } else {
            self.decode_execute_q3(opcode)
        }
    }

    /// One quarter of the opcode dispatch table.
    #[verifier::spinoff_prover]
    #[verifier::rlimit(100)]
    fn decode_execute_q0(&mut self, opcode: u8) -> (r: (u8, u8))
        requires
            old(self).wf(),
            opcode < 0x40,
        ensures
            final(self).wf(),
            r.1 == spec_opcode_len(opcode),
            r.0 <= 8,
            final(self).num_cycles == old(self).num_cycles,
            final(self).memory.ppu.regs.num_cycles == old(self).memory.ppu.regs.num_cycles,
            (!spec_is_mmio(vstd::wrapping::u16_specs::wrapping_add(
                old(self).registers.program_counter,
                1,
            )) && !spec_is_mmio(vstd::wrapping::u16_specs::wrapping_add(
                old(self).registers.program_counter,
                2,
            ))) ==> {
                &&& spec_step_effect(*old(self), *final(self), opcode)
                &&& r.0 == spec_step_cycles(*old(self), opcode)
            },
    {
        match opcode {
            0x00 => (self.brk_implied(), 0),
            0x01 => {
                let value = self.memory.fetch_absolute(self.registers.program_counter.wrapping_add(1));
                (self.ora_indirect_x(value), 2)
            },
            0x02 => (0, 1),
            0x03 => {
                let value = self.memory.fetch_absolute(self.registers.program_counter.wrapping_add(1));
                (self.slo_indirect_x(value), 2)
            },
            0x04 => (0, 2),
            0x05 => {
                let value = self.memory.fetch_absolute(self.registers.program_counter.wrapping_add(1));
                (self.ora_zero_page(value), 2)
            },
            0x06 => {
                let value = self.memory.fetch_absolute(self.registers.program_counter.wrapping_add(1));
                (self.asl_zero_page(value), 2)
            },
            0x07 => {
                let value = self.memory.fetch_absolute(self.registers.program_counter.wrapping_add(1));
                (self.slo_zero_page(value), 2)
            },
            0x08 => (self.php(), 1),
            0x09 => {
                let value = self.memory.fetch_absolute(self.registers.program_counter.wrapping_add(1));
                (self.ora_immediate(value), 2)
            },
            0x0A => (self.asl_accumulator(), 1),
            0x0B => (0, 2),
            0x0C => (0, 3),
            0x0D => {
                let value = self.fetch_u16(self.registers.program_counter.wrapping_add(1));
                (self.ora_absolute(value), 3)
            },
            0x0E => {
                let value = self.fetch_u16(self.registers.program_counter.wrapping_add(1));
                (self.asl_absolute(value), 3)
            },
            0x0F => {
                let value = self.fetch_u16(self.registers.program_counter.wrapping_add(1));
                (self.slo_absolute(value), 3)
            },
            0x10 => {
                let value = self.memory.fetch_absolute(self.registers.program_counter.wrapping_add(1));
                (self.bpl(value), 2)
            },
            0x11 => {
                let value = self.memory.fetch_absolute(self.registers.program_counter.wrapping_add(1));
                (self.ora_indirect_y(value), 2)
            },
            0x12 => (0, 1),
            0x13 => {
                let value = self.memory.fetch_absolute(self.registers.program_counter.wrapping_add(1));
                (self.slo_indirect_y(value), 2)
            },
            0x14 => (0, 2),
            0x15 => {
                let value = self.memory.fetch_absolute(self.registers.program_counter.wrapping_add(1));
                (self.ora_zero_page_x(value), 2)
            },
            0x16 => {
                let value = self.memory.fetch_absolute(self.registers.program_counter.wrapping_add(1));
                (self.asl_zero_page_x(value), 2)
            },
            0x17 => {
                let value = self.memory.fetch_absolute(self.registers.program_counter.wrapping_add(1));
                (self.slo_zero_page_x(value), 2)
            },
            0x18 => (self.clc(), 1),
            0x19 => {
                let value = self.fetch_u16(self.registers.program_counter.wrapping_add(1));
                (self.ora_absolute_y(value), 3)
            },
            0x1A => (0, 1),
            0x1B => {
                let value = self.fetch_u16(self.registers.program_counter.wrapping_add(1));
                (self.slo_absolute_y(value), 3)
            },
            0x1C => (0, 3),
            0x1D => {
                let value = self.fetch_u16(self.registers.program_counter.wrapping_add(1));
                (self.ora_absolute_x(value), 3)
            },
            0x1E => {
                let value = self.fetch_u16(self.registers.program_counter.wrapping_add(1));
                (self.asl_absolute_x(value), 3)
            },
            0x1F => {
                let value = self.fetch_u16(self.registers.program_counter.wrapping_add(1));
                (self.slo_absolute_x(value), 3)
            },
            0x20 => {
                let value = self.fetch_u16(self.registers.program_counter.wrapping_add(1));
                (self.jsr(value), 0)
            },
            0x21 => {
                let value = self.memory.fetch_absolute(self.registers.program_counter.wrapping_add(1));
                (self.and_indirect_x(value), 2)
            },
            0x22 => (0, 1),
            0x23 => {
                let value = self.memory.fetch_absolute(self.registers.program_counter.wrapping_add(1));
                (self.rla_indirect_x(value), 2)
            },
            0x24 => {
                let value = self.memory.fetch_absolute(self.registers.program_counter.wrapping_add(1));
                (self.bit_zero_page(value), 2)
            },
            0x25 => {
                let value = self.memory.fetch_absolute(self.registers.program_counter.wrapping_add(1));
                (self.and_zero_page(value), 2)
            },
            0x26 => {
                let value = self.memory.fetch_absolute(self.registers.program_counter.wrapping_add(1));
                (self.rol_zero_page(value), 2)
            },
            0x27 => {
                let value = self.memory.fetch_absolute(self.registers.program_counter.wrapping_add(1));
                (self.rla_zero_page(value), 2)
            },
            0x28 => (self.plp(), 1),
            0x29 => {
                let value = self.memory.fetch_absolute(self.registers.program_counter.wrapping_add(1));
                (self.and_immediate(value), 2)
            },
            0x2A => (self.rol_accumulator(), 1),
            0x2B => (0, 2),
            0x2C => {
                let value = self.fetch_u16(self.registers.program_counter.wrapping_add(1));
                (self.bit_absolute(value), 3)
            },
            0x2D => {
                let value = self.fetch_u16(self.registers.program_counter.wrapping_add(1));
                (self.and_absolute(value), 3)
            },
            0x2E => {
                let value = self.fetch_u16(self.registers.program_counter.wrapping_add(1));
                (self.rol_absolute(value), 3)
            },
            0x2F => {
                let value = self.fetch_u16(self.registers.program_counter.wrapping_add(1));
                (self.rla_absolute(value), 3)
            },
            0x30 => {
                let value = self.memory.fetch_absolute(self.registers.program_counter.wrapping_add(1));
                (self.bmi(value), 2)
            },
            0x31 => {
                let value = self.memory.fetch_absolute(self.registers.program_counter.wrapping_add(1));
                (self.and_indirect_y(value), 2)
            },
            0x32 => (0, 1),
            0x33 => {
                let value = self.memory.fetch_absolute(self.registers.program_counter.wrapping_add(1));
                (self.rla_indirect_y(value), 2)
            },
            0x34 => (0, 2),
            0x35 => {
                let value = self.memory.fetch_absolute(self.registers.program_counter.wrapping_add(1));
                (self.and_zero_page_x(value), 2)
            },
            0x36 => {
                let value = self.memory.fetch_absolute(self.registers.program_counter.wrapping_add(1));
                (self.rol_zero_page_x(value), 2)
            },
            0x37 => {
                let value = self.memory.fetch_absolute(self.registers.program_counter.wrapping_add(1));
                (self.rla_zero_page_x(value), 2)
            },
            0x38 => (self.sec(), 1),
            0x39 => {
                let value = self.fetch_u16(self.registers.program_counter.wrapping_add(1));
                (self.and_absolute_y(value), 3)
            },
            0x3A => (0, 1),
            0x3B => {
                let value = self.fetch_u16(self.registers.program_counter.wrapping_add(1));
                (self.rla_absolute_y(value), 3)
            },
            0x3C => (0, 3),
            0x3D => {
                let value = self.fetch_u16(self.registers.program_counter.wrapping_add(1));
                (self.and_absolute_x(value), 3)
            },
            0x3E => {
                let value = self.fetch_u16(self.registers.program_counter.wrapping_add(1));
                (self.rol_absolute_x(value), 3)
            },
            0x3F => {
                let value = self.fetch_u16(self.registers.program_counter.wrapping_add(1));
                (self.rla_absolute_x(value), 3)
            },
            _ => (0, 1),
        }
    }

    /// One quarter of the opcode dispatch table.
    #[verifier::spinoff_prover]
    #[verifier::rlimit(100)]
    fn decode_execute_q1(&mut self, opcode: u8) -> (r: (u8, u8))
        requires
            old(self).wf(),
            0x40 <= opcode,
            opcode < 0x80,
        ensures
            final(self).wf(),
            r.1 == spec_opcode_len(opcode),
            r.0 <= 8,
            final(self).num_cycles == old(self).num_cycles,
            final(self).memory.ppu.regs.num_cycles == old(self).memory.ppu.regs.num_cycles,
            (!spec_is_mmio(vstd::wrapping::u16_specs::wrapping_add(
                old(self).registers.program_counter,
                1,
            )) && !spec_is_mmio(vstd::wrapping::u16_specs::wrapping_add(
                old(self).registers.program_counter,
                2,
            ))) ==> {
                &&& spec_step_effect(*old(self), *final(self), opcode)
                &&& r.0 == spec_step_cycles(*old(self), opcode)
            },
    {
        match opcode {
            0x40 => (self.rti_implied(), 0),
            0x41 => {
                let value = self.memory.fetch_absolute(self.registers.program_counter.wrapping_add(1));
                (self.eor_indirect_x(value), 2)
            },
            0x42 => (0, 1),
            0x43 => {
                let value = self.memory.fetch_absolute(self.registers.program_counter.wrapping_add(1));
                (self.sre_indirect_x(value), 2)
            },
            0x44 => (0, 2),
            0x45 => {
                let value = self.memory.fetch_absolute(self.registers.program_counter.wrapping_add(1));
                (self.eor_zero_page(value), 2)
            },
            0x46 => {
                let value = self.memory.fetch_absolute(self.registers.program_counter.wrapping_add(1));
                (self.lsr_zero_page(value), 2)
            },
            0x47 => {
                let value = self.memory.fetch_absolute(self.registers.program_counter.wrapping_add(1));
                (self.sre_zero_page(value), 2)
            },
            0x48 => (self.pha(), 1),
            0x49 => {
                let value = self.memory.fetch_absolute(self.registers.program_counter.wrapping_add(1));
                (self.eor_immediate(value), 2)
            },
            0x4A => (self.lsr_accumulator(), 1),
            0x4B => (0, 2),
            0x4C => {
                let value = self.fetch_u16(self.registers.program_counter.wrapping_add(1));
                (self.jmp_absolute(value), 0)
            },
            0x4D => {
                let value = self.fetch_u16(self.registers.program_counter.wrapping_add(1));
                (self.eor_absolute(value), 3)
            },
            0x4E => {
                let value = self.fetch_u16(self.registers.program_counter.wrapping_add(1));
                (self.lsr_absolute(value), 3)
            },
            0x4F => {
                let value = self.fetch_u16(self.registers.program_counter.wrapping_add(1));
                (self.sre_absolute(value), 3)
            },
            0x50 => {
                let value = self.memory.fetch_absolute(self.registers.program_counter.wrapping_add(1));
                (self.bvc(value), 2)
            },
            0x51 => {
                let value = self.memory.fetch_absolute(self.registers.program_counter.wrapping_add(1));
                (self.eor_indirect_y(value), 2)
            },
            0x52 => (0, 1),
            0x53 => {
                let value = self.memory.fetch_absolute(self.registers.program_counter.wrapping_add(1));
                (self.sre_indirect_y(value), 2)
            },
            0x54 => (0, 2),
            0x55 => {
                let value = self.memory.fetch_absolute(self.registers.program_counter.wrapping_add(1));
                (self.eor_zero_page_x(value), 2)
            },
            0x56 => {
                let value = self.memory.fetch_absolute(self.registers.program_counter.wrapping_add(1));
                (self.lsr_zero_page_x(value), 2)
            },
            0x57 => {
                let value = self.memory.fetch_absolute(self.registers.program_counter.wrapping_add(1));
                (self.sre_zero_page_x(value), 2)
            },
            0x58 => (self.cli(), 1),
            0x59 => {
                let value = self.fetch_u16(self.registers.program_counter.wrapping_add(1));
                (self.eor_absolute_y(value), 3)
            },
            0x5A => (0, 1),
            0x5B => {
                let value = self.fetch_u16(self.registers.program_counter.wrapping_add(1));
                (self.sre_absolute_y(value), 3)
            },
            0x5C => (0, 3),
            0x5D => {
                let value = self.fetch_u16(self.registers.program_counter.wrapping_add(1));
                (self.eor_absolute_x(value), 3)
            },
            0x5E => {
                let value = self.fetch_u16(self.registers.program_counter.wrapping_add(1));
                (self.lsr_absolute_x(value), 3)
            },
            0x5F => {
                let value = self.fetch_u16(self.registers.program_counter.wrapping_add(1));
                (self.sre_absolute_x(value), 3)
            },
            0x60 => (self.rts(), 1),
            0x61 => {
                let value = self.memory.fetch_absolute(self.registers.program_counter.wrapping_add(1));
                (self.adc_indirect_x(value), 2)
            },
            0x62 => (0, 1),
            0x63 => {
                let value = self.memory.fetch_absolute(self.registers.program_counter.wrapping_add(1));
                (self.rra_indirect_x(value), 2)
            },
            0x64 => (0, 2),
            0x65 => {
                let value = self.memory.fetch_absolute(self.registers.program_counter.wrapping_add(1));
                (self.adc_zero_page(value), 2)
            },
            0x66 => {
                let value = self.memory.fetch_absolute(self.registers.program_counter.wrapping_add(1));
                (self.ror_zero_page(value), 2)
            },
            0x67 => {
                let value = self.memory.fetch_absolute(self.registers.program_counter.wrapping_add(1));
                (self.rra_zero_page(value), 2)
            },
            0x68 => (self.pla(), 1),
            0x69 => {
                let value = self.memory.fetch_absolute(self.registers.program_counter.wrapping_add(1));
                (self.adc_immediate(value), 2)
            },
            0x6A => (self.ror_accumulator(), 1),
            0x6B => (0, 2),
            0x6C => {
                let value = self.fetch_u16(self.registers.program_counter.wrapping_add(1));
                (self.jmp_indirect(value), 0)
            },
            0x6D => {
                let value = self.fetch_u16(self.registers.program_counter.wrapping_add(1));
                (self.adc_absolute(value), 3)
            },
            0x6E => {
                let value = self.fetch_u16(self.registers.program_counter.wrapping_add(1));
                (self.ror_absolute(value), 3)
            },
            0x6F => {
                let value = self.fetch_u16(self.registers.program_counter.wrapping_add(1));
                (self.rra_absolute(value), 3)
            },
            0x70 => {
                let value = self.memory.fetch_absolute(self.registers.program_counter.wrapping_add(1));
                (self.bvs(value), 2)
            },
            0x71 => {
                let value = self.memory.fetch_absolute(self.registers.program_counter.wrapping_add(1));
                (self.adc_indirect_y(value), 2)
            },
            0x72 => (0, 1),
            0x73 => {
                let value = self.memory.fetch_absolute(self.registers.program_counter.wrapping_add(1));
                (self.rra_indirect_y(value), 2)
            },
            0x74 => (0, 2),
            0x75 => {
                let value = self.memory.fetch_absolute(self.registers.program_counter.wrapping_add(1));
                (self.adc_zero_page_x(value), 2)
            },
            0x76 => {
                let value = self.memory.fetch_absolute(self.registers.program_counter.wrapping_add(1));
                (self.ror_zero_page_x(value), 2)
            },
            0x77 => {
                let value = self.memory.fetch_absolute(self.registers.program_counter.wrapping_add(1));
                (self.rra_zero_page_x(value), 2)
            },
            0x78 => (self.sei(), 1),
            0x79 => {
                let value = self.fetch_u16(self.registers.program_counter.wrapping_add(1));
                (self.adc_absolute_y(value), 3)
            },
            0x7A => (0, 1),
            0x7B => {
                let value = self.fetch_u16(self.registers.program_counter.wrapping_add(1));
                (self.rra_absolute_y(value), 3)
            },
            0x7C => (0, 3),
            0x7D => {
                let value = self.fetch_u16(self.registers.program_counter.wrapping_add(1));
                (self.adc_absolute_x(value), 3)
            },
            0x7E => {
                let value = self.fetch_u16(self.registers.program_counter.wrapping_add(1));
                (self.ror_absolute_x(value), 3)
            },
            0x7F => {
                let value = self.fetch_u16(self.registers.program_counter.wrapping_add(1));
                (self.rra_absolute_x(value), 3)
            },
            _ => (0, 1),
        }
    }

    /// One quarter of the opcode dispatch table.
    #[verifier::spinoff_prover]
    #[verifier::rlimit(100)]
    fn decode_execute_q2(&mut self, opcode: u8) -> (r: (u8, u8))
        requires
            old(self).wf(),
            0x80 <= opcode,
            opcode < 0xC0,
        ensures
            final(self).wf(),
            r.1 == spec_opcode_len(opcode),
            r.0 <= 8,
            final(self).num_cycles == old(self).num_cycles,
            final(self).memory.ppu.regs.num_cycles == old(self).memory.ppu.regs.num_cycles,
            (!spec_is_mmio(vstd::wrapping::u16_specs::wrapping_add(
                old(self).registers.program_counter,
                1,
            )) && !spec_is_mmio(vstd::wrapping::u16_specs::wrapping_add(
                old(self).registers.program_counter,
                2,
            ))) ==> {
                &&& spec_step_effect(*old(self), *final(self), opcode)
                &&& r.0 == spec_step_cycles(*old(self), opcode)
            },
    {
        match opcode {
            0x80 => (0, 2),
            0x81 => {
                let value = self.memory.fetch_absolute(self.registers.program_counter.wrapping_add(1));
                (self.sta_indirect_x(value), 2)
            },
            0x82 => (0, 2),
            0x83 => {
                let value = self.memory.fetch_absolute(self.registers.program_counter.wrapping_add(1));
                (self.sax_indirect_x(value), 2)
            },
            0x84 => {
                let value = self.memory.fetch_absolute(self.registers.program_counter.wrapping_add(1));
                (self.sty_zero_page(value), 2)
            },
            0x85 => {
                let value = self.memory.fetch_absolute(self.registers.program_counter.wrapping_add(1));
                (self.sta_zero_page(value), 2)
            },
            0x86 => {
                let value = self.memory.fetch_absolute(self.registers.program_counter.wrapping_add(1));
                (self.stx_zero_page(value), 2)
            },
            0x87 => {
                let value = self.memory.fetch_absolute(self.registers.program_counter.wrapping_add(1));
                (self.sax_zero_page(value), 2)
            },
            0x88 => (self.dey_implied(), 1),
            0x89 => (0, 2),
            0x8A => (self.txa(), 1),
            0x8B => (0, 2),
            0x8C => {
                let value = self.fetch_u16(self.registers.program_counter.wrapping_add(1));
                (self.sty_absolute(value), 3)
            },
            0x8D => {
                let value = self.fetch_u16(self.registers.program_counter.wrapping_add(1));
                (self.sta_absolute(value), 3)
            },
            0x8E => {
                let value = self.fetch_u16(self.registers.program_counter.wrapping_add(1));
                (self.stx_absolute(value), 3)
            },
            0x8F => {
                let value = self.fetch_u16(self.registers.program_counter.wrapping_add(1));
                (self.sax_absolute(value), 3)
            },
            0x90 => {
                let value = self.memory.fetch_absolute(self.registers.program_counter.wrapping_add(1));
                (self.bcc(value), 2)
            },
            0x91 => {
                let value = self.memory.fetch_absolute(self.registers.program_counter.wrapping_add(1));
                (self.sta_indirect_y(value), 2)
            },
            0x92 => (0, 1),
            0x93 => (0, 2),
            0x94 => {
                let value = self.memory.fetch_absolute(self.registers.program_counter.wrapping_add(1));
                (self.sty_zero_page_x(value), 2)
            },
            0x95 => {
                let value = self.memory.fetch_absolute(self.registers.program_counter.wrapping_add(1));
                (self.sta_zero_page_x(value), 2)
            },
            0x96 => {
                let value = self.memory.fetch_absolute(self.registers.program_counter.wrapping_add(1));
                (self.stx_zero_page_y(value), 2)
            },
            0x97 => {
                let value = self.memory.fetch_absolute(self.registers.program_counter.wrapping_add(1));
                (self.sax_zero_page_y(value), 2)
            },
            0x98 => (self.tya(), 1),
            0x99 => {
                let value = self.fetch_u16(self.registers.program_counter.wrapping_add(1));
                (self.sta_absolute_y(value), 3)
            },
            0x9A => (self.txs(), 1),
            0x9B => (0, 3),
            0x9C => (0, 3),
            0x9D => {
                let value = self.fetch_u16(self.registers.program_counter.wrapping_add(1));
                (self.sta_absolute_x(value), 3)
            },
            0x9E => (0, 3),
            0x9F => (0, 3),
            0xA0 => {
                let value = self.memory.fetch_absolute(self.registers.program_counter.wrapping_add(1));
                (self.ldy_immediate(value), 2)
            },
            0xA1 => {
                let value = self.memory.fetch_absolute(self.registers.program_counter.wrapping_add(1));
                (self.lda_indirect_x(value), 2)
            },
            0xA2 => {
                let value = self.memory.fetch_absolute(self.registers.program_counter.wrapping_add(1));
                (self.ldx_immediate(value), 2)
            },
            0xA3 => {
                let value = self.memory.fetch_absolute(self.registers.program_counter.wrapping_add(1));
                (self.lax_indirect_x(value), 2)
            },
            0xA4 => {
                let value = self.memory.fetch_absolute(self.registers.program_counter.wrapping_add(1));
                (self.ldy_zero_page(value), 2)
            },
            0xA5 => {
                let value = self.memory.fetch_absolute(self.registers.program_counter.wrapping_add(1));
                (self.lda_zero_page(value), 2)
            },
            0xA6 => {
                let value = self.memory.fetch_absolute(self.registers.program_counter.wrapping_add(1));
                (self.ldx_zero_page(value), 2)
            },
            0xA7 => {
                let value = self.memory.fetch_absolute(self.registers.program_counter.wrapping_add(1));
                (self.lax_zero_page(value), 2)
            },
            0xA8 => (self.tay(), 1),
            0xA9 => {
                let value = self.memory.fetch_absolute(self.registers.program_counter.wrapping_add(1));
                (self.lda_immediate(value), 2)
            },
            0xAA => (self.tax(), 1),
            0xAB => (0, 2),
            0xAC => {
                let value = self.fetch_u16(self.registers.program_counter.wrapping_add(1));
                (self.ldy_absolute(value), 3)
            },
            0xAD => {
                let value = self.fetch_u16(self.registers.program_counter.wrapping_add(1));
                (self.lda_absolute(value), 3)
            },
            0xAE => {
                let value = self.fetch_u16(self.registers.program_counter.wrapping_add(1));
                (self.ldx_absolute(value), 3)
            },
            0xAF => {
                let value = self.fetch_u16(self.registers.program_counter.wrapping_add(1));
                (self.lax_absolute(value), 3)
            },
            0xB0 => {
                let value = self.memory.fetch_absolute(self.registers.program_counter.wrapping_add(1));
                (self.bcs(value), 2)
            },
            0xB1 => {
                let value = self.memory.fetch_absolute(self.registers.program_counter.wrapping_add(1));
                (self.lda_indirect_y(value), 2)
            },
            0xB2 => (0, 1),
            0xB3 => {
                let value = self.memory.fetch_absolute(self.registers.program_counter.wrapping_add(1));
                (self.lax_indirect_y(value), 2)
            },
            0xB4 => {
                let value = self.memory.fetch_absolute(self.registers.program_counter.wrapping_add(1));
                (self.ldy_zero_page_x(value), 2)
            },
            0xB5 => {
                let value = self.memory.fetch_absolute(self.registers.program_counter.wrapping_add(1));
                (self.lda_zero_page_x(value), 2)
            },
            0xB6 => {
                let value = self.memory.fetch_absolute(self.registers.program_counter.wrapping_add(1));
                (self.ldx_zero_page_y(value), 2)
            },
            0xB7 => {
                let value = self.memory.fetch_absolute(self.registers.program_counter.wrapping_add(1));
                (self.lax_zero_page_y(value), 2)
            },
            0xB8 => (self.clv(), 1),
            0xB9 => {
                let value = self.fetch_u16(self.registers.program_counter.wrapping_add(1));
                (self.lda_absolute_y(value), 3)
            },
            0xBA => (self.tsx(), 1),
            0xBB => (0, 3),
            0xBC => {
                let value = self.fetch_u16(self.registers.program_counter.wrapping_add(1));
                (self.ldy_absolute_x(value), 3)
            },
            0xBD => {
                let value = self.fetch_u16(self.registers.program_counter.wrapping_add(1));
                (self.lda_absolute_x(value), 3)
            },
            0xBE => {
                let value = self.fetch_u16(self.registers.program_counter.wrapping_add(1));
                (self.ldx_absolute_y(value), 3)
            },
            0xBF => {
                let value = self.fetch_u16(self.registers.program_counter.wrapping_add(1));
                (self.lax_absolute_y(value), 3)
            },
            _ => (0, 1),
        }
    }

    /// One quarter of the opcode dispatch table.
    #[verifier::spinoff_prover]
    #[verifier::rlimit(100)]
    fn decode_execute_q3(&mut self, opcode: u8) -> (r: (u8, u8))
        requires
            old(self).wf(),
            0xC0 <= opcode,
            true,
        ensures
            final(self).wf(),
            r.1 == spec_opcode_len(opcode),
            r.0 <= 8,
            final(self).num_cycles == old(self).num_cycles,
            final(self).memory.ppu.regs.num_cycles == old(self).memory.ppu.regs.num_cycles,
            (!spec_is_mmio(vstd::wrapping::u16_specs::wrapping_add(
                old(self).registers.program_counter,
                1,
            )) && !spec_is_mmio(vstd::wrapping::u16_specs::wrapping_add(
                old(self).registers.program_counter,
                2,
            ))) ==> {
                &&& spec_step_effect(*old(self), *final(self), opcode)
                &&& r.0 == spec_step_cycles(*old(self), opcode)
            },
    {
        match opcode {
            0xC0 => {
                let value = self.memory.fetch_absolute(self.registers.program_counter.wrapping_add(1));
                (self.cpy_immediate(value), 2)
            },
            0xC1 => {
                let value = self.memory.fetch_absolute(self.registers.program_counter.wrapping_add(1));
                (self.cmp_indirect_x(value), 2)
            },
            0xC2 => (0, 2),
            0xC3 => {
                let value = self.memory.fetch_absolute(self.registers.program_counter.wrapping_add(1));
                (self.dcp_indirect_x(value), 2)
            },
            0xC4 => {
                let value = self.memory.fetch_absolute(self.registers.program_counter.wrapping_add(1));
                (self.cpy_zero_page(value), 2)
            },
            0xC5 => {
                let value = self.memory.fetch_absolute(self.registers.program_counter.wrapping_add(1));
                (self.cmp_zero_page(value), 2)
            },
            0xC6 => {
                let value = self.memory.fetch_absolute(self.registers.program_counter.wrapping_add(1));
                (self.dec_zero_page(value), 2)
            },
            0xC7 => {
                let value = self.memory.fetch_absolute(self.registers.program_counter.wrapping_add(1));
                (self.dcp_zero_page(value), 2)
            },
            0xC8 => (self.iny_implied(), 1),
            0xC9 => {
                let value = self.memory.fetch_absolute(self.registers.program_counter.wrapping_add(1));
                (self.cmp_immediate(value), 2)
            },
            0xCA => (self.dex_implied(), 1),
            0xCB => (0, 2),
            0xCC => {
                let value = self.fetch_u16(self.registers.program_counter.wrapping_add(1));
                (self.cpy_absolute(value), 3)
            },
            0xCD => {
                let value = self.fetch_u16(self.registers.program_counter.wrapping_add(1));
                (self.cmp_absolute(value), 3)
            },
            0xCE => {
                let value = self.fetch_u16(self.registers.program_counter.wrapping_add(1));
                (self.dec_absolute(value), 3)
            },
            0xCF => {
                let value = self.fetch_u16(self.registers.program_counter.wrapping_add(1));
                (self.dcp_absolute(value), 3)
            },
            0xD0 => {
                let value = self.memory.fetch_absolute(self.registers.program_counter.wrapping_add(1));
                (self.bne(value), 2)
            },
            0xD1 => {
                let value = self.memory.fetch_absolute(self.registers.program_counter.wrapping_add(1));
                (self.cmp_indirect_y(value), 2)
            },
            0xD2 => (0, 1),
            0xD3 => {
                let value = self.memory.fetch_absolute(self.registers.program_counter.wrapping_add(1));
                (self.dcp_indirect_y(value), 2)
            },
            0xD4 => (0, 2),
            0xD5 => {
                let value = self.memory.fetch_absolute(self.registers.program_counter.wrapping_add(1));
                (self.cmp_zero_page_x(value), 2)
            },
            0xD6 => {
                let value = self.memory.fetch_absolute(self.registers.program_counter.wrapping_add(1));
                (self.dnc_zero_page_x(value), 2)
            },
            0xD7 => {
                let value = self.memory.fetch_absolute(self.registers.program_counter.wrapping_add(1));
                (self.dcp_zero_page_x(value), 2)
            },
            0xD8 => (self.cld(), 1),
            0xD9 => {
                let value = self.fetch_u16(self.registers.program_counter.wrapping_add(1));
                (self.cmp_absolute_y(value), 3)
            },
            0xDA => (0, 1),
            0xDB => {
                let value = self.fetch_u16(self.registers.program_counter.wrapping_add(1));
                (self.dcp_absolute_y(value), 3)
            },
            0xDC => (0, 3),
            0xDD => {
                let value = self.fetch_u16(self.registers.program_counter.wrapping_add(1));
                (self.cmp_absolute_x(value), 3)
            },
            0xDE => {
                let value = self.fetch_u16(self.registers.program_counter.wrapping_add(1));
                (self.dec_absolute_x(value), 3)
            },
            0xDF => {
                let value = self.fetch_u16(self.registers.program_counter.wrapping_add(1));
                (self.dcp_absolute_x(value), 3)
            },
            0xE0 => {
                let value = self.memory.fetch_absolute(self.registers.program_counter.wrapping_add(1));
                (self.cpx_immediate(value), 2)
            },
            0xE1 => {
                let value = self.memory.fetch_absolute(self.registers.program_counter.wrapping_add(1));
                (self.sbc_indirect_x(value), 2)
            },
            0xE2 => (0, 2),
            0xE3 => {
                let value = self.memory.fetch_absolute(self.registers.program_counter.wrapping_add(1));
                (self.isb_indirect_x(value), 2)
            },
            0xE4 => {
                let value = self.memory.fetch_absolute(self.registers.program_counter.wrapping_add(1));
                (self.cpx_zero_page(value), 2)
            },
            0xE5 => {
                let value = self.memory.fetch_absolute(self.registers.program_counter.wrapping_add(1));
                (self.sbc_zero_page(value), 2)
            },
            0xE6 => {
                let value = self.memory.fetch_absolute(self.registers.program_counter.wrapping_add(1));
                (self.inc_zero_page(value), 2)
            },
            0xE7 => {
                let value = self.memory.fetch_absolute(self.registers.program_counter.wrapping_add(1));
                (self.isb_zero_page(value), 2)
            },
            0xE8 => (self.inx_implied(), 1),
            0xE9 => {
                let value = self.memory.fetch_absolute(self.registers.program_counter.wrapping_add(1));
                (self.sbc_immediate(value), 2)
            },
            0xEA => (self.nop_implied(), 1),
            0xEB => {
                let value = self.memory.fetch_absolute(self.registers.program_counter.wrapping_add(1));
                (self.usbc(value), 2)
            },
            0xEC => {
                let value = self.fetch_u16(self.registers.program_counter.wrapping_add(1));
                (self.cpx_absolute(value), 3)
            },
            0xED => {
                let value = self.fetch_u16(self.registers.program_counter.wrapping_add(1));
                (self.sbc_absolute(value), 3)
            },
            0xEE => {
                let value = self.fetch_u16(self.registers.program_counter.wrapping_add(1));
                (self.inc_absolute(value), 3)
            },
            0xEF => {
                let value = self.fetch_u16(self.registers.program_counter.wrapping_add(1));
                (self.isb_absolute(value), 3)
            },
            0xF0 => {
                let value = self.memory.fetch_absolute(self.registers.program_counter.wrapping_add(1));
                (self.beq(value), 2)
            },
            0xF1 => {
                let value = self.memory.fetch_absolute(self.registers.program_counter.wrapping_add(1));
                (self.sbc_indirect_y(value), 2)
            },
            0xF2 => (0, 1),
            0xF3 => {
                let value = self.memory.fetch_absolute(self.registers.program_counter.wrapping_add(1));
                (self.isb_indirect_y(value), 2)
            },
            0xF4 => (0, 2),
            0xF5 => {
                let value = self.memory.fetch_absolute(self.registers.program_counter.wrapping_add(1));
                (self.sbc_zero_page_x(value), 2)
            },
            0xF6 => {
                let value = self.memory.fetch_absolute(self.registers.program_counter.wrapping_add(1));
                (self.inc_zero_page_x(value), 2)
            },
            0xF7 => {
                let value = self.memory.fetch_absolute(self.registers.program_counter.wrapping_add(1));
                (self.isb_zero_page_x(value), 2)
            },
            0xF8 => (self.sed(), 1),
            0xF9 => {
                let value = self.fetch_u16(self.registers.program_counter.wrapping_add(1));
                (self.sbc_absolute_y(value), 3)
            },
            0xFA => (0, 1),
            0xFB => {
                let value = self.fetch_u16(self.registers.program_counter.wrapping_add(1));
                (self.isb_absolute_y(value), 3)
            },
            0xFC => (0, 3),
            0xFD => {
                let value = self.fetch_u16(self.registers.program_counter.wrapping_add(1));
                (self.sbc_absolute_x(value), 3)
            },
            0xFE => {
                let value = self.fetch_u16(self.registers.program_counter.wrapping_add(1));
                (self.inc_absolute_x(value), 3)
            },
            0xFF => {
                let value = self.fetch_u16(self.registers.program_counter.wrapping_add(1));
                (self.isb_absolute_x(value), 3)
            },
            _ => (0, 1),
        }
    }

    /// Executes one instruction: fetches the opcode under the program
    /// counter, dispatches it, charges its cycles plus any OAM DMA stall,
    /// advances the program counter by the opcode length, and returns the
    /// cycles that elapsed. When the instruction's bytes sit on plain RAM
    /// the whole state change is the fetched opcode's specified one, per
    /// `spec_step_rel`.
    pub fn tick_ins(&mut self) -> (elapsed: usize)
        requires
            old(self).wf(),
            old(self).num_cycles + 521 <= usize::MAX,
        ensures
            final(self).wf(),
            old(self).num_cycles <= final(self).num_cycles,
            final(self).num_cycles <= old(self).num_cycles + 521,
            elapsed == final(self).num_cycles - old(self).num_cycles,
            final(self).memory.dma_stall == 0,
            final(self).memory.ppu.regs.num_cycles == old(self).memory.ppu.regs.num_cycles,
            spec_step_rel(*old(self), *final(self)),
    {
        let pc = self.registers.program_counter;
        let opcode = self.memory.fetch_absolute(pc);
        proof {
            if spec_operands_plain(*old(self)) {
                assert(self.memory == old(self).memory);
                assert(*self == *old(self));
            }
        }
        let ghost fetched = *self;
        let (cycles, bytes) = self.decode_execute(opcode);
        let ghost decoded = *self;
        let stall = self.memory.take_dma_stall();
        let elapsed = cycles as usize + stall;
        self.num_cycles = self.num_cycles + elapsed;
        self.registers.program_counter = self.registers.program_counter.wrapping_add(bytes as u16);
        proof {
            if spec_operands_plain(*old(self)) {
                let op = old(self).memory.buffer@[old(self).registers.program_counter as int];
                assert(opcode == op);
                let len = spec_opcode_len(op);
                let cyc = spec_step_cycles(*old(self), op);
                assert(cycles == cyc && bytes == len);
                let stall_g = self.num_cycles - old(self).num_cycles - cyc;
                assert(stall_g == stall);
                let mid = Cpu {
                    registers: Registers {
                        program_counter: vstd::wrapping::u16_specs::wrapping_sub(
                            self.registers.program_counter,
                            len as u16,
                        ),
                        ..self.registers
                    },
                    num_cycles: old(self).num_cycles,
                    memory: Memory { dma_stall: stall_g as usize, ..self.memory },
                };
                assert(vstd::wrapping::u16_specs::wrapping_sub(
                    vstd::wrapping::u16_specs::wrapping_add(
                        decoded.registers.program_counter,
                        len as u16,
                    ),
                    len as u16,
                ) == decoded.registers.program_counter);
                assert(mid.registers == decoded.registers);
                assert(mid.memory == decoded.memory);
                assert(mid == decoded);
                assert(spec_step_effect(*old(self), decoded, op));
                assert(spec_step_rel(*old(self), *self));
            }
        }
        elapsed
    }

    /// Runs instructions until at least `dur_cycles` cycles have elapsed
    /// since the call, and returns the trace of states it stepped through:
    /// consecutive trace entries are related by one instruction step, the
    /// trace starts at the initial and ends at the final state, and it only
    /// stops short of the cycle goal after one instruction per requested
    /// cycle (a stream of undocumented jam opcodes charges no cycles at
    /// all, and that budget bounds the loop; no stream that charges cycles
    /// reaches it).
    pub fn tick(&mut self, dur_cycles: usize) -> (trace: Ghost<Seq<Cpu>>)
        requires
            old(self).wf(),
            old(self).num_cycles + dur_cycles + 1042 <= usize::MAX,
        ensures
            final(self).wf(),
            final(self).num_cycles >= old(self).num_cycles,
            final(self).num_cycles <= old(self).num_cycles + dur_cycles + 521,
            final(self).memory.ppu.regs.num_cycles == old(self).memory.ppu.regs.num_cycles,
            1 <= trace@.len() <= dur_cycles + 1,
            trace@[0] == *old(self),
            trace@.last() == *final(self),
            forall|i: int|
                1 <= i < trace@.len() ==> spec_tick_step(trace@[i - 1], #[trigger] trace@[i]),
            final(self).num_cycles >= old(self).num_cycles + dur_cycles || trace@.len()
                == dur_cycles + 1,
    {
        let start_cycles = self.num_cycles;
        let mut steps: usize = 0;
        let ghost mut trace: Seq<Cpu> = seq![*old(self)];
        while self.num_cycles - start_cycles < dur_cycles && steps < dur_cycles
            invariant
                self.wf(),
                start_cycles == old(self).num_cycles,
                start_cycles <= self.num_cycles,
                self.num_cycles <= start_cycles + dur_cycles + 521,
                start_cycles + dur_cycles + 1042 <= usize::MAX,
                steps <= dur_cycles,
                self.memory.ppu.regs.num_cycles == old(self).memory.ppu.regs.num_cycles,
                trace.len() == steps + 1,
                trace[0] == *old(self),
                trace.last() == *self,
                forall|i: int|
                    1 <= i < trace.len() ==> spec_tick_step(trace[i - 1], #[trigger] trace[i]),
            decreases dur_cycles - steps,
        {
            self.tick_ins();
            proof {
                trace = trace.push(*self);
            }
            steps = steps + 1;
        }
        Ghost(trace)
    }

    /// Loads a test vector's register file and RAM cells into the core.
    pub fn apply_test_state(&mut self, state: &CpuTestState)
        requires
            old(self).wf(),
        ensures
            final(self).wf(),
            final(self).registers.stack_pointer == state.s,
            final(self).registers.accumulator == state.a,
            final(self).registers.index_x == state.x,
            final(self).registers.index_y == state.y,
            final(self).registers.processor_status == state.p,
            final(self).registers.program_counter == state.pc,
            final(self).num_cycles == old(self).num_cycles,
            final(self).memory.ppu.regs.num_cycles == old(self).memory.ppu.regs.num_cycles,
    {
        self.registers.stack_pointer = state.s;
        self.registers.accumulator = state.a;
        self.registers.index_x = state.x;
        self.registers.index_y = state.y;
        self.registers.processor_status = state.p;
        self.registers.program_counter = state.pc;

        let n = state.ram.len();
        for i in 0..n
            invariant
                self.wf(),
                n == state.ram@.len(),
                self.memory.ppu.regs.num_cycles == old(self).memory.ppu.regs.num_cycles,
                self.registers.stack_pointer == state.s,
                self.registers.accumulator == state.a,
                self.registers.index_x == state.x,
                self.registers.index_y == state.y,
                self.registers.processor_status == state.p,
                self.registers.program_counter == state.pc,
                self.num_cycles == old(self).num_cycles,
        {
            let entry = &state.ram[i];
            let addr = entry.0;
            let value = entry.1;
            self.memory.store_absolute(addr, value);
        }
    }

    /// Whether the core's registers and the listed RAM cells match a test
    /// vector's expected state; the unused status bit is forced to 1 on
    /// both sides of the comparison, as it is not a stored flag.
    pub fn matches_test_state(&self, state: &CpuTestState) -> (r: bool)
        requires
            self.wf(),
        ensures
            r == spec_state_matches(*self, *state),
    {
        let regs_match = self.registers.stack_pointer == state.s
            && self.registers.accumulator == state.a && self.registers.index_x == state.x
            && self.registers.index_y == state.y && (self.registers.processor_status
            | FLAG_UNUSED) == (state.p | FLAG_UNUSED) && self.registers.program_counter
            == state.pc;
        if !regs_match {
            return false;
        }
        let n = state.ram.len();
        for i in 0..n
            invariant
                self.wf(),
                n == state.ram@.len(),
                forall|j: int|
                    0 <= j < i ==> self.memory.buffer@[(#[trigger] state.ram@[j]).0 as int]
                        == state.ram@[j].1,
        {
            let entry = &state.ram[i];
            if self.memory.buffer[entry.0 as usize] != entry.1 {
                return false;
            }
        }
        true
    }
}

/// One observable instruction step: what `tick_ins` guarantees of a
/// single execution, including the exact per-opcode change whenever the
/// instruction's bytes sit on plain RAM.
pub open spec fn spec_tick_step(pre: Cpu, post: Cpu) -> bool {
    &&& pre.num_cycles <= post.num_cycles <= pre.num_cycles + 521
    &&& post.memory.dma_stall == 0
    &&& post.memory.ppu.regs.num_cycles == pre.memory.ppu.regs.num_cycles
    &&& spec_step_rel(pre, post)
}

/// The first operand byte of the instruction under the program counter.
pub open spec fn spec_op_b1(pre: Cpu) -> u8 {
    pre.memory.buffer@[vstd::wrapping::u16_specs::wrapping_add(
        pre.registers.program_counter,
        1,
    ) as int]
}

/// The 16-bit little-endian operand of the instruction under the program
/// counter.
pub open spec fn spec_op_w(pre: Cpu) -> u16 {
    (spec_op_b1(pre) + pre.memory.buffer@[vstd::wrapping::u16_specs::wrapping_add(
        pre.registers.program_counter,
        2,
    ) as int] * 256) as u16
}

/// Whether the instruction's own bytes sit on plain RAM: fetching the
/// opcode and its operands then has no bus side effects, which is what
/// makes the per-opcode step relation exact.
pub open spec fn spec_operands_plain(pre: Cpu) -> bool {
    &&& !spec_is_mmio(pre.registers.program_counter)
    &&& !spec_is_mmio(vstd::wrapping::u16_specs::wrapping_add(pre.registers.program_counter, 1))
    &&& !spec_is_mmio(vstd::wrapping::u16_specs::wrapping_add(pre.registers.program_counter, 2))
}

/// The per-opcode effect of the dispatcher on registers and the bus,
/// before the program counter advance, for opcodes $00-$1F: each case
/// restates the handler's own contract with the operand bytes read from
/// under the program counter.
pub open spec fn spec_step_effect_g0(pre: Cpu, post: Cpu, op: u8) -> bool {
    if op == 0x00 {
        &&& (post.memory.buffer@ == pre.memory.buffer@.update(
                spec_stack_addr(pre.registers.stack_pointer),
                spec_hi(vstd::wrapping::u16_specs::wrapping_add(
                    pre.registers.program_counter,
                    2,
                )),
            ).update(
                spec_stack_addr(vstd::wrapping::u8_specs::wrapping_sub(
                    pre.registers.stack_pointer,
                    1,
                )),
                spec_lo(vstd::wrapping::u16_specs::wrapping_add(
                    pre.registers.program_counter,
                    2,
                )),
            ).update(
                spec_stack_addr(vstd::wrapping::u8_specs::wrapping_sub(
                    pre.registers.stack_pointer,
                    2,
                )),
                pre.registers.processor_status | 0x30,
            ))
        &&& (spec_mem_nonbuffer_unchanged(pre.memory, post.memory))
        &&& (post.registers == (Registers {
                program_counter: (pre.memory.buffer@[0xFFFE] + pre.memory.buffer@[0xFFFF]
                    * 256) as u16,
                stack_pointer: vstd::wrapping::u8_specs::wrapping_sub(
                    pre.registers.stack_pointer,
                    3,
                ),
                processor_status: pre.registers.processor_status | FLAG_INTERRUPT_DISABLE,
                ..pre.registers
            }))
    } else if op == 0x01 {
        &&& (post.registers == spec_ora_regs(pre.registers, spec_read_value(pre.memory, spec_ind_x_ea(pre.memory.buffer@, spec_op_b1(pre), pre.registers.index_x))))
        &&& (spec_read_rel(pre.memory, post.memory, spec_ind_x_ea(pre.memory.buffer@, spec_op_b1(pre), pre.registers.index_x)))
    } else if op == 0x02 {
        &&& (post.registers == pre.registers)
        &&& (spec_mem_unchanged(pre.memory, post.memory))
    } else if op == 0x03 {
        &&& ((!spec_is_mmio(spec_ind_x_ea(pre.memory.buffer@, spec_op_b1(pre), pre.registers.index_x)) && spec_ind_x_ea(pre.memory.buffer@, spec_op_b1(pre), pre.registers.index_x) != spec_ind_x_lo_ptr(spec_op_b1(pre), pre.registers.index_x) as u16 && spec_ind_x_ea(pre.memory.buffer@, spec_op_b1(pre), pre.registers.index_x) != vstd::wrapping::u8_specs::wrapping_add(spec_ind_x_lo_ptr(spec_op_b1(pre), pre.registers.index_x), 1) as u16) ==> {
                &&& post.registers == spec_ora_regs(Registers { processor_status: spec_asl_p(pre.registers.processor_status, pre.memory.buffer@[(spec_ind_x_ea(pre.memory.buffer@, spec_op_b1(pre), pre.registers.index_x)) as int]), ..pre.registers }, spec_asl_val(pre.memory.buffer@[(spec_ind_x_ea(pre.memory.buffer@, spec_op_b1(pre), pre.registers.index_x)) as int]))
                &&& spec_store_rel(pre.memory, post.memory, spec_ind_x_ea(pre.memory.buffer@, spec_op_b1(pre), pre.registers.index_x), spec_asl_val(pre.memory.buffer@[(spec_ind_x_ea(pre.memory.buffer@, spec_op_b1(pre), pre.registers.index_x)) as int]))
            })
    } else if op == 0x04 {
        &&& (post.registers == pre.registers)
        &&& (spec_mem_unchanged(pre.memory, post.memory))
    } else if op == 0x05 {
        &&& (post.registers == spec_ora_regs(pre.registers, pre.memory.buffer@[spec_op_b1(pre) as int]))
        &&& (spec_mem_unchanged(pre.memory, post.memory))
    } else if op == 0x06 {
        &&& (post.registers == (Registers {
                processor_status: spec_asl_p(pre.registers.processor_status, pre.memory.buffer@[spec_op_b1(pre) as int]),
                ..pre.registers
            }))
        &&& (spec_store_rel(pre.memory, post.memory, spec_op_b1(pre) as u16, spec_asl_val(pre.memory.buffer@[spec_op_b1(pre) as int])))
    } else if op == 0x07 {
        &&& (post.registers == spec_ora_regs(Registers { processor_status: spec_asl_p(pre.registers.processor_status, pre.memory.buffer@[spec_op_b1(pre) as int]), ..pre.registers }, spec_asl_val(pre.memory.buffer@[spec_op_b1(pre) as int])))
        &&& (spec_store_rel(pre.memory, post.memory, spec_op_b1(pre) as u16, spec_asl_val(pre.memory.buffer@[spec_op_b1(pre) as int])))
    } else if op == 0x08 {
        &&& (post.memory.buffer@ == pre.memory.buffer@.update(
                spec_stack_addr(pre.registers.stack_pointer),
                pre.registers.processor_status | 0x30,
            ))
        &&& (spec_mem_nonbuffer_unchanged(pre.memory, post.memory))
        &&& (post.registers == (Registers {
                stack_pointer: vstd::wrapping::u8_specs::wrapping_sub(
                    pre.registers.stack_pointer,
                    1,
                ),
                ..pre.registers
            }))
    } else if op == 0x09 {
        &&& (post.registers == spec_ora_regs(pre.registers, spec_op_b1(pre)))
        &&& (spec_mem_unchanged(pre.memory, post.memory))
    } else if op == 0x0A {
        &&& (post.registers == (Registers {
                accumulator: spec_asl_val(pre.registers.accumulator),
                processor_status: spec_asl_p(
                    pre.registers.processor_status,
                    pre.registers.accumulator,
                ),
                ..pre.registers
            }))
        &&& (spec_mem_unchanged(pre.memory, post.memory))
    } else if op == 0x0B {
        &&& (post.registers == pre.registers)
        &&& (spec_mem_unchanged(pre.memory, post.memory))
    } else if op == 0x0C {
        &&& (post.registers == pre.registers)
        &&& (spec_mem_unchanged(pre.memory, post.memory))
    } else if op == 0x0D {
        &&& (post.registers == spec_ora_regs(pre.registers, spec_read_value(pre.memory, spec_op_w(pre))))
        &&& (spec_read_rel(pre.memory, post.memory, spec_op_w(pre)))
    } else if op == 0x0E {
        &&& (post.registers == (Registers {
                processor_status: spec_asl_p(pre.registers.processor_status, spec_read_value(pre.memory, spec_op_w(pre))),
                ..pre.registers
            }))
        &&& (spec_store_rel_x(pre.memory, spec_read_regs_x(pre.memory, pre.memory.ppu.regs, spec_op_w(pre)), spec_read_input_x(pre.memory.input, spec_op_w(pre)), post.memory, spec_op_w(pre), spec_asl_val(spec_read_value(pre.memory, spec_op_w(pre)))))
    } else if op == 0x0F {
        &&& ((!spec_is_mmio(spec_op_w(pre))) ==> {
                &&& post.registers == spec_ora_regs(Registers { processor_status: spec_asl_p(pre.registers.processor_status, pre.memory.buffer@[(spec_op_w(pre)) as int]), ..pre.registers }, spec_asl_val(pre.memory.buffer@[(spec_op_w(pre)) as int]))
                &&& spec_store_rel(pre.memory, post.memory, spec_op_w(pre), spec_asl_val(pre.memory.buffer@[(spec_op_w(pre)) as int]))
            })
    } else if op == 0x10 {
        &&& (post.registers == (if pre.registers.processor_status & FLAG_NEGATIVE == 0 {
                Registers {
                    program_counter: spec_branch_target(pre.registers.program_counter, spec_op_b1(pre)),
                    ..pre.registers
                }
            } else {
                pre.registers
            }))
        &&& (spec_mem_unchanged(pre.memory, post.memory))
    } else if op == 0x11 {
        &&& (post.registers == spec_ora_regs(pre.registers, spec_read_value(pre.memory, spec_ind_y_ea(pre.memory.buffer@, spec_op_b1(pre), pre.registers.index_y))))
        &&& (spec_read_rel(pre.memory, post.memory, spec_ind_y_ea(pre.memory.buffer@, spec_op_b1(pre), pre.registers.index_y)))
    } else if op == 0x12 {
        &&& (post.registers == pre.registers)
        &&& (spec_mem_unchanged(pre.memory, post.memory))
    } else if op == 0x13 {
        &&& ((!spec_is_mmio(spec_ind_y_ea(pre.memory.buffer@, spec_op_b1(pre), pre.registers.index_y)) && spec_ind_y_ea(pre.memory.buffer@, spec_op_b1(pre), pre.registers.index_y) != spec_op_b1(pre) as u16 && spec_ind_y_ea(pre.memory.buffer@, spec_op_b1(pre), pre.registers.index_y) != vstd::wrapping::u8_specs::wrapping_add(spec_op_b1(pre), 1) as u16) ==> {
                &&& post.registers == spec_ora_regs(Registers { processor_status: spec_asl_p(pre.registers.processor_status, pre.memory.buffer@[(spec_ind_y_ea(pre.memory.buffer@, spec_op_b1(pre), pre.registers.index_y)) as int]), ..pre.registers }, spec_asl_val(pre.memory.buffer@[(spec_ind_y_ea(pre.memory.buffer@, spec_op_b1(pre), pre.registers.index_y)) as int]))
                &&& spec_store_rel(pre.memory, post.memory, spec_ind_y_ea(pre.memory.buffer@, spec_op_b1(pre), pre.registers.index_y), spec_asl_val(pre.memory.buffer@[(spec_ind_y_ea(pre.memory.buffer@, spec_op_b1(pre), pre.registers.index_y)) as int]))
            })
    } else if op == 0x14 {
        &&& (post.registers == pre.registers)
        &&& (spec_mem_unchanged(pre.memory, post.memory))
    } else if op == 0x15 {
        &&& (post.registers == spec_ora_regs(pre.registers, pre.memory.buffer@[spec_zp_x_ea(spec_op_b1(pre), pre.registers.index_x) as int]))
        &&& (spec_mem_unchanged(pre.memory, post.memory))
    } else if op == 0x16 {
        &&& (post.registers == (Registers {
                processor_status: spec_asl_p(pre.registers.processor_status, pre.memory.buffer@[spec_zp_x_ea(spec_op_b1(pre), pre.registers.index_x) as int]),
                ..pre.registers
            }))
        &&& (spec_store_rel(pre.memory, post.memory, spec_zp_x_ea(spec_op_b1(pre), pre.registers.index_x), spec_asl_val(pre.memory.buffer@[spec_zp_x_ea(spec_op_b1(pre), pre.registers.index_x) as int])))
    } else if op == 0x17 {
        &&& (post.registers == spec_ora_regs(Registers { processor_status: spec_asl_p(pre.registers.processor_status, pre.memory.buffer@[spec_zp_x_ea(spec_op_b1(pre), pre.registers.index_x) as int]), ..pre.registers }, spec_asl_val(pre.memory.buffer@[spec_zp_x_ea(spec_op_b1(pre), pre.registers.index_x) as int])))
        &&& (spec_store_rel(pre.memory, post.memory, spec_zp_x_ea(spec_op_b1(pre), pre.registers.index_x), spec_asl_val(pre.memory.buffer@[spec_zp_x_ea(spec_op_b1(pre), pre.registers.index_x) as int])))
    } else if op == 0x18 {
        &&& (post.registers == (Registers {
                processor_status: pre.registers.processor_status & !FLAG_CARRY,
                ..pre.registers
            }))
        &&& (spec_mem_unchanged(pre.memory, post.memory))
    } else if op == 0x19 {
        &&& (post.registers == spec_ora_regs(pre.registers, spec_read_value(pre.memory, spec_abs_x_ea(spec_op_w(pre), pre.registers.index_y))))
        &&& (spec_read_rel(pre.memory, post.memory, spec_abs_x_ea(spec_op_w(pre), pre.registers.index_y)))
    } else if op == 0x1A {
        &&& (post.registers == pre.registers)
        &&& (spec_mem_unchanged(pre.memory, post.memory))
    } else if op == 0x1B {
        &&& ((!spec_is_mmio(spec_abs_x_ea(spec_op_w(pre), pre.registers.index_y))) ==> {
                &&& post.registers == spec_ora_regs(Registers { processor_status: spec_asl_p(pre.registers.processor_status, pre.memory.buffer@[(spec_abs_x_ea(spec_op_w(pre), pre.registers.index_y)) as int]), ..pre.registers }, spec_asl_val(pre.memory.buffer@[(spec_abs_x_ea(spec_op_w(pre), pre.registers.index_y)) as int]))
                &&& spec_store_rel(pre.memory, post.memory, spec_abs_x_ea(spec_op_w(pre), pre.registers.index_y), spec_asl_val(pre.memory.buffer@[(spec_abs_x_ea(spec_op_w(pre), pre.registers.index_y)) as int]))
            })
    } else if op == 0x1C {
        &&& (post.registers == pre.registers)
        &&& (spec_mem_unchanged(pre.memory, post.memory))
    } else if op == 0x1D {
        &&& (post.registers == spec_ora_regs(pre.registers, spec_read_value(pre.memory, spec_abs_x_ea(spec_op_w(pre), pre.registers.index_x))))
        &&& (spec_read_rel(pre.memory, post.memory, spec_abs_x_ea(spec_op_w(pre), pre.registers.index_x)))
    } else if op == 0x1E {
        &&& (post.registers == (Registers {
                processor_status: spec_asl_p(pre.registers.processor_status, spec_read_value(pre.memory, spec_abs_x_ea(spec_op_w(pre), pre.registers.index_x))),
                ..pre.registers
            }))
        &&& (spec_store_rel_x(pre.memory, spec_read_regs_x(pre.memory, pre.memory.ppu.regs, spec_abs_x_ea(spec_op_w(pre), pre.registers.index_x)), spec_read_input_x(pre.memory.input, spec_abs_x_ea(spec_op_w(pre), pre.registers.index_x)), post.memory, spec_abs_x_ea(spec_op_w(pre), pre.registers.index_x), spec_asl_val(spec_read_value(pre.memory, spec_abs_x_ea(spec_op_w(pre), pre.registers.index_x)))))
    } else {
        &&& ((!spec_is_mmio(spec_abs_x_ea(spec_op_w(pre), pre.registers.index_x))) ==> {
                &&& post.registers == spec_ora_regs(Registers { processor_status: spec_asl_p(pre.registers.processor_status, pre.memory.buffer@[(spec_abs_x_ea(spec_op_w(pre), pre.registers.index_x)) as int]), ..pre.registers }, spec_asl_val(pre.memory.buffer@[(spec_abs_x_ea(spec_op_w(pre), pre.registers.index_x)) as int]))
                &&& spec_store_rel(pre.memory, post.memory, spec_abs_x_ea(spec_op_w(pre), pre.registers.index_x), spec_asl_val(pre.memory.buffer@[(spec_abs_x_ea(spec_op_w(pre), pre.registers.index_x)) as int]))
            })
    }
}

/// The cycles each of the opcodes $00-$1F charges.
pub open spec fn spec_step_cycles_g0(pre: Cpu, op: u8) -> u8 {
    if op == 0x00 {
        7
    } else if op == 0x01 {
        6
    } else if op == 0x02 {
        0
    } else if op == 0x03 {
        8
    } else if op == 0x04 {
        0
    } else if op == 0x05 {
        3
    } else if op == 0x06 {
        5
    } else if op == 0x07 {
        5
    } else if op == 0x08 {
        3
    } else if op == 0x09 {
        2
    } else if op == 0x0A {
        2
    } else if op == 0x0B {
        0
    } else if op == 0x0C {
        0
    } else if op == 0x0D {
        4
    } else if op == 0x0E {
        6
    } else if op == 0x0F {
        6
    } else if op == 0x10 {
        spec_branch_cycles(
                pre.registers.program_counter,
                spec_op_b1(pre),
                pre.registers.processor_status & FLAG_NEGATIVE == 0,
            )
    } else if op == 0x11 {
        5
    } else if op == 0x12 {
        0
    } else if op == 0x13 {
        8
    } else if op == 0x14 {
        0
    } else if op == 0x15 {
        4
    } else if op == 0x16 {
        6
    } else if op == 0x17 {
        6
    } else if op == 0x18 {
        2
    } else if op == 0x19 {
        4
    } else if op == 0x1A {
        0
    } else if op == 0x1B {
        7
    } else if op == 0x1C {
        0
    } else if op == 0x1D {
        4
    } else if op == 0x1E {
        7
    } else {
        7
    }
}

/// The per-opcode effect of the dispatcher on registers and the bus,
/// before the program counter advance, for opcodes $20-$3F: each case
/// restates the handler's own contract with the operand bytes read from
/// under the program counter.
pub open spec fn spec_step_effect_g1(pre: Cpu, post: Cpu, op: u8) -> bool {
    if op == 0x20 {
        &&& (post.memory.buffer@ == pre.memory.buffer@.update(
                spec_stack_addr(pre.registers.stack_pointer),
                spec_hi(vstd::wrapping::u16_specs::wrapping_add(
                    pre.registers.program_counter,
                    2,
                )),
            ).update(
                spec_stack_addr(vstd::wrapping::u8_specs::wrapping_sub(
                    pre.registers.stack_pointer,
                    1,
                )),
                spec_lo(vstd::wrapping::u16_specs::wrapping_add(
                    pre.registers.program_counter,
                    2,
                )),
            ))
        &&& (spec_mem_nonbuffer_unchanged(pre.memory, post.memory))
        &&& (post.registers == (Registers {
                program_counter: spec_op_w(pre),
                stack_pointer: vstd::wrapping::u8_specs::wrapping_sub(
                    pre.registers.stack_pointer,
                    2,
                ),
                ..pre.registers
            }))
    } else if op == 0x21 {
        &&& (post.registers == spec_and_regs(pre.registers, spec_read_value(pre.memory, spec_ind_x_ea(pre.memory.buffer@, spec_op_b1(pre), pre.registers.index_x))))
        &&& (spec_read_rel(pre.memory, post.memory, spec_ind_x_ea(pre.memory.buffer@, spec_op_b1(pre), pre.registers.index_x)))
    } else if op == 0x22 {
        &&& (post.registers == pre.registers)
        &&& (spec_mem_unchanged(pre.memory, post.memory))
    } else if op == 0x23 {
        &&& ((!spec_is_mmio(spec_ind_x_ea(pre.memory.buffer@, spec_op_b1(pre), pre.registers.index_x)) && spec_ind_x_ea(pre.memory.buffer@, spec_op_b1(pre), pre.registers.index_x) != spec_ind_x_lo_ptr(spec_op_b1(pre), pre.registers.index_x) as u16 && spec_ind_x_ea(pre.memory.buffer@, spec_op_b1(pre), pre.registers.index_x) != vstd::wrapping::u8_specs::wrapping_add(spec_ind_x_lo_ptr(spec_op_b1(pre), pre.registers.index_x), 1) as u16) ==> {
                &&& post.registers == spec_and_regs(Registers { processor_status: spec_rol_p(pre.registers.processor_status, pre.memory.buffer@[(spec_ind_x_ea(pre.memory.buffer@, spec_op_b1(pre), pre.registers.index_x)) as int]), ..pre.registers }, spec_rol_val(pre.registers.processor_status, pre.memory.buffer@[(spec_ind_x_ea(pre.memory.buffer@, spec_op_b1(pre), pre.registers.index_x)) as int]))
                &&& spec_store_rel(pre.memory, post.memory, spec_ind_x_ea(pre.memory.buffer@, spec_op_b1(pre), pre.registers.index_x), spec_rol_val(pre.registers.processor_status, pre.memory.buffer@[(spec_ind_x_ea(pre.memory.buffer@, spec_op_b1(pre), pre.registers.index_x)) as int]))
            })
    } else if op == 0x24 {
        &&& (post.registers == spec_bit_regs(pre.registers, pre.memory.buffer@[spec_op_b1(pre) as int]))
        &&& (spec_mem_unchanged(pre.memory, post.memory))
    } else if op == 0x25 {
        &&& (post.registers == spec_and_regs(pre.registers, pre.memory.buffer@[spec_op_b1(pre) as int]))
        &&& (spec_mem_unchanged(pre.memory, post.memory))
    } else if op == 0x26 {
        &&& (post.registers == (Registers {
                processor_status: spec_rol_p(pre.registers.processor_status, pre.memory.buffer@[spec_op_b1(pre) as int]),
                ..pre.registers
            }))
        &&& (spec_store_rel(pre.memory, post.memory, spec_op_b1(pre) as u16, spec_rol_val(pre.registers.processor_status, pre.memory.buffer@[spec_op_b1(pre) as int])))
    } else if op == 0x27 {
        &&& (post.registers == spec_and_regs(Registers { processor_status: spec_rol_p(pre.registers.processor_status, pre.memory.buffer@[spec_op_b1(pre) as int]), ..pre.registers }, spec_rol_val(pre.registers.processor_status, pre.memory.buffer@[spec_op_b1(pre) as int])))
        &&& (spec_store_rel(pre.memory, post.memory, spec_op_b1(pre) as u16, spec_rol_val(pre.registers.processor_status, pre.memory.buffer@[spec_op_b1(pre) as int])))
    } else if op == 0x28 {
        &&& (post.registers == (Registers {
                stack_pointer: vstd::wrapping::u8_specs::wrapping_add(
                    pre.registers.stack_pointer,
                    1,
                ),
                processor_status: (pre.memory.buffer@[spec_stack_addr(
                    vstd::wrapping::u8_specs::wrapping_add(pre.registers.stack_pointer, 1),
                )] | FLAG_UNUSED) & !FLAG_BREAK,
                ..pre.registers
            }))
        &&& (spec_mem_unchanged(pre.memory, post.memory))
    } else if op == 0x29 {
        &&& (post.registers == spec_and_regs(pre.registers, spec_op_b1(pre)))
        &&& (spec_mem_unchanged(pre.memory, post.memory))
    } else if op == 0x2A {
        &&& (post.registers == (Registers {
                accumulator: spec_rol_val(
                    pre.registers.processor_status,
                    pre.registers.accumulator,
                ),
                processor_status: spec_rol_p(
                    pre.registers.processor_status,
                    pre.registers.accumulator,
                ),
                ..pre.registers
            }))
        &&& (spec_mem_unchanged(pre.memory, post.memory))
    } else if op == 0x2B {
        &&& (post.registers == pre.registers)
        &&& (spec_mem_unchanged(pre.memory, post.memory))
    } else if op == 0x2C {
        &&& (post.registers == spec_bit_regs(pre.registers, spec_read_value(pre.memory, spec_op_w(pre))))
        &&& (spec_read_rel(pre.memory, post.memory, spec_op_w(pre)))
    } else if op == 0x2D {
        &&& (post.registers == spec_and_regs(pre.registers, spec_read_value(pre.memory, spec_op_w(pre))))
        &&& (spec_read_rel(pre.memory, post.memory, spec_op_w(pre)))
    } else if op == 0x2E {
        &&& (post.registers == (Registers {
                processor_status: spec_rol_p(pre.registers.processor_status, spec_read_value(pre.memory, spec_op_w(pre))),
                ..pre.registers
            }))
        &&& (spec_store_rel_x(pre.memory, spec_read_regs_x(pre.memory, pre.memory.ppu.regs, spec_op_w(pre)), spec_read_input_x(pre.memory.input, spec_op_w(pre)), post.memory, spec_op_w(pre), spec_rol_val(pre.registers.processor_status, spec_read_value(pre.memory, spec_op_w(pre)))))
    } else if op == 0x2F {
        &&& ((!spec_is_mmio(spec_op_w(pre))) ==> {
                &&& post.registers == spec_and_regs(Registers { processor_status: spec_rol_p(pre.registers.processor_status, pre.memory.buffer@[(spec_op_w(pre)) as int]), ..pre.registers }, spec_rol_val(pre.registers.processor_status, pre.memory.buffer@[(spec_op_w(pre)) as int]))
                &&& spec_store_rel(pre.memory, post.memory, spec_op_w(pre), spec_rol_val(pre.registers.processor_status, pre.memory.buffer@[(spec_op_w(pre)) as int]))
            })
    } else if op == 0x30 {
        &&& (post.registers == (if pre.registers.processor_status & FLAG_NEGATIVE != 0 {
                Registers {
                    program_counter: spec_branch_target(pre.registers.program_counter, spec_op_b1(pre)),
                    ..pre.registers
                }
            } else {
                pre.registers
            }))
        &&& (spec_mem_unchanged(pre.memory, post.memory))
    } else if op == 0x31 {
        &&& (post.registers == spec_and_regs(pre.registers, spec_read_value(pre.memory, spec_ind_y_ea(pre.memory.buffer@, spec_op_b1(pre), pre.registers.index_y))))
        &&& (spec_read_rel(pre.memory, post.memory, spec_ind_y_ea(pre.memory.buffer@, spec_op_b1(pre), pre.registers.index_y)))
    } else if op == 0x32 {
        &&& (post.registers == pre.registers)
        &&& (spec_mem_unchanged(pre.memory, post.memory))
    } else if op == 0x33 {
        &&& ((!spec_is_mmio(spec_ind_y_ea(pre.memory.buffer@, spec_op_b1(pre), pre.registers.index_y)) && spec_ind_y_ea(pre.memory.buffer@, spec_op_b1(pre), pre.registers.index_y) != spec_op_b1(pre) as u16 && spec_ind_y_ea(pre.memory.buffer@, spec_op_b1(pre), pre.registers.index_y) != vstd::wrapping::u8_specs::wrapping_add(spec_op_b1(pre), 1) as u16) ==> {
                &&& post.registers == spec_and_regs(Registers { processor_status: spec_rol_p(pre.registers.processor_status, pre.memory.buffer@[(spec_ind_y_ea(pre.memory.buffer@, spec_op_b1(pre), pre.registers.index_y)) as int]), ..pre.registers }, spec_rol_val(pre.registers.processor_status, pre.memory.buffer@[(spec_ind_y_ea(pre.memory.buffer@, spec_op_b1(pre), pre.registers.index_y)) as int]))
                &&& spec_store_rel(pre.memory, post.memory, spec_ind_y_ea(pre.memory.buffer@, spec_op_b1(pre), pre.registers.index_y), spec_rol_val(pre.registers.processor_status, pre.memory.buffer@[(spec_ind_y_ea(pre.memory.buffer@, spec_op_b1(pre), pre.registers.index_y)) as int]))
            })
    } else if op == 0x34 {
        &&& (post.registers == pre.registers)
        &&& (spec_mem_unchanged(pre.memory, post.memory))
    } else if op == 0x35 {
        &&& (post.registers == spec_and_regs(pre.registers, pre.memory.buffer@[spec_zp_x_ea(spec_op_b1(pre), pre.registers.index_x) as int]))
        &&& (spec_mem_unchanged(pre.memory, post.memory))
    } else if op == 0x36 {
        &&& (post.registers == (Registers {
                processor_status: spec_rol_p(pre.registers.processor_status, pre.memory.buffer@[spec_zp_x_ea(spec_op_b1(pre), pre.registers.index_x) as int]),
                ..pre.registers
            }))
        &&& (spec_store_rel(pre.memory, post.memory, spec_zp_x_ea(spec_op_b1(pre), pre.registers.index_x), spec_rol_val(pre.registers.processor_status, pre.memory.buffer@[spec_zp_x_ea(spec_op_b1(pre), pre.registers.index_x) as int])))
    } else if op == 0x37 {
        &&& (post.registers == spec_and_regs(Registers { processor_status: spec_rol_p(pre.registers.processor_status, pre.memory.buffer@[spec_zp_x_ea(spec_op_b1(pre), pre.registers.index_x) as int]), ..pre.registers }, spec_rol_val(pre.registers.processor_status, pre.memory.buffer@[spec_zp_x_ea(spec_op_b1(pre), pre.registers.index_x) as int])))
        &&& (spec_store_rel(pre.memory, post.memory, spec_zp_x_ea(spec_op_b1(pre), pre.registers.index_x), spec_rol_val(pre.registers.processor_status, pre.memory.buffer@[spec_zp_x_ea(spec_op_b1(pre), pre.registers.index_x) as int])))
    } else if op == 0x38 {
        &&& (post.registers == (Registers {
                processor_status: pre.registers.processor_status | FLAG_CARRY,
                ..pre.registers
            }))
        &&& (spec_mem_unchanged(pre.memory, post.memory))
    } else if op == 0x39 {
        &&& (post.registers == spec_and_regs(pre.registers, spec_read_value(pre.memory, spec_abs_x_ea(spec_op_w(pre), pre.registers.index_y))))
        &&& (spec_read_rel(pre.memory, post.memory, spec_abs_x_ea(spec_op_w(pre), pre.registers.index_y)))
    } else if op == 0x3A {
        &&& (post.registers == pre.registers)
        &&& (spec_mem_unchanged(pre.memory, post.memory))
    } else if op == 0x3B {
        &&& ((!spec_is_mmio(spec_abs_x_ea(spec_op_w(pre), pre.registers.index_y))) ==> {
                &&& post.registers == spec_and_regs(Registers { processor_status: spec_rol_p(pre.registers.processor_status, pre.memory.buffer@[(spec_abs_x_ea(spec_op_w(pre), pre.registers.index_y)) as int]), ..pre.registers }, spec_rol_val(pre.registers.processor_status, pre.memory.buffer@[(spec_abs_x_ea(spec_op_w(pre), pre.registers.index_y)) as int]))
                &&& spec_store_rel(pre.memory, post.memory, spec_abs_x_ea(spec_op_w(pre), pre.registers.index_y), spec_rol_val(pre.registers.processor_status, pre.memory.buffer@[(spec_abs_x_ea(spec_op_w(pre), pre.registers.index_y)) as int]))
            })
    } else if op == 0x3C {
        &&& (post.registers == pre.registers)
        &&& (spec_mem_unchanged(pre.memory, post.memory))
    } else if op == 0x3D {
        &&& (post.registers == spec_and_regs(pre.registers, spec_read_value(pre.memory, spec_abs_x_ea(spec_op_w(pre), pre.registers.index_x))))
        &&& (spec_read_rel(pre.memory, post.memory, spec_abs_x_ea(spec_op_w(pre), pre.registers.index_x)))
    } else if op == 0x3E {
        &&& (post.registers == (Registers {
                processor_status: spec_rol_p(pre.registers.processor_status, spec_read_value(pre.memory, spec_abs_x_ea(spec_op_w(pre), pre.registers.index_x))),
                ..pre.registers
            }))
        &&& (spec_store_rel_x(pre.memory, spec_read_regs_x(pre.memory, pre.memory.ppu.regs, spec_abs_x_ea(spec_op_w(pre), pre.registers.index_x)), spec_read_input_x(pre.memory.input, spec_abs_x_ea(spec_op_w(pre), pre.registers.index_x)), post.memory, spec_abs_x_ea(spec_op_w(pre), pre.registers.index_x), spec_rol_val(pre.registers.processor_status, spec_read_value(pre.memory, spec_abs_x_ea(spec_op_w(pre), pre.registers.index_x)))))
    } else {
        &&& ((!spec_is_mmio(spec_abs_x_ea(spec_op_w(pre), pre.registers.index_x))) ==> {
                &&& post.registers == spec_and_regs(Registers { processor_status: spec_rol_p(pre.registers.processor_status, pre.memory.buffer@[(spec_abs_x_ea(spec_op_w(pre), pre.registers.index_x)) as int]), ..pre.registers }, spec_rol_val(pre.registers.processor_status, pre.memory.buffer@[(spec_abs_x_ea(spec_op_w(pre), pre.registers.index_x)) as int]))
                &&& spec_store_rel(pre.memory, post.memory, spec_abs_x_ea(spec_op_w(pre), pre.registers.index_x), spec_rol_val(pre.registers.processor_status, pre.memory.buffer@[(spec_abs_x_ea(spec_op_w(pre), pre.registers.index_x)) as int]))
            })
    }
}

/// The cycles each of the opcodes $20-$3F charges.
pub open spec fn spec_step_cycles_g1(pre: Cpu, op: u8) -> u8 {
    if op == 0x20 {
        6
    } else if op == 0x21 {
        6
    } else if op == 0x22 {
        0
    } else if op == 0x23 {
        8
    } else if op == 0x24 {
        3
    } else if op == 0x25 {
        3
    } else if op == 0x26 {
        5
    } else if op == 0x27 {
        5
    } else if op == 0x28 {
        4
    } else if op == 0x29 {
        2
    } else if op == 0x2A {
        2
    } else if op == 0x2B {
        0
    } else if op == 0x2C {
        4
    } else if op == 0x2D {
        4
    } else if op == 0x2E {
        6
    } else if op == 0x2F {
        6
    } else if op == 0x30 {
        spec_branch_cycles(
                pre.registers.program_counter,
                spec_op_b1(pre),
                pre.registers.processor_status & FLAG_NEGATIVE != 0,
            )
    } else if op == 0x31 {
        5
    } else if op == 0x32 {
        0
    } else if op == 0x33 {
        8
    } else if op == 0x34 {
        0
    } else if op == 0x35 {
        4
    } else if op == 0x36 {
        6
    } else if op == 0x37 {
        6
    } else if op == 0x38 {
        2
    } else if op == 0x39 {
        4
    } else if op == 0x3A {
        0
    } else if op == 0x3B {
        7
    } else if op == 0x3C {
        0
    } else if op == 0x3D {
        4
    } else if op == 0x3E {
        7
    } else {
        7
    }
}

/// The per-opcode effect of the dispatcher on registers and the bus,
/// before the program counter advance, for opcodes $40-$5F: each case
/// restates the handler's own contract with the operand bytes read from
/// under the program counter.
pub open spec fn spec_step_effect_g2(pre: Cpu, post: Cpu, op: u8) -> bool {
    if op == 0x40 {
        &&& (post.registers == (Registers {
                processor_status: (pre.memory.buffer@[spec_stack_addr(
                    vstd::wrapping::u8_specs::wrapping_add(pre.registers.stack_pointer, 1),
                )] | FLAG_UNUSED) & !FLAG_BREAK,
                program_counter: (pre.memory.buffer@[spec_stack_addr(
                    vstd::wrapping::u8_specs::wrapping_add(pre.registers.stack_pointer, 3),
                )] * 256 + pre.memory.buffer@[spec_stack_addr(
                    vstd::wrapping::u8_specs::wrapping_add(pre.registers.stack_pointer, 2),
                )]) as u16,
                stack_pointer: vstd::wrapping::u8_specs::wrapping_add(
                    pre.registers.stack_pointer,
                    3,
                ),
                ..pre.registers
            }))
        &&& (spec_mem_unchanged(pre.memory, post.memory))
    } else if op == 0x41 {
        &&& (post.registers == spec_eor_regs(pre.registers, spec_read_value(pre.memory, spec_ind_x_ea(pre.memory.buffer@, spec_op_b1(pre), pre.registers.index_x))))
        &&& (spec_read_rel(pre.memory, post.memory, spec_ind_x_ea(pre.memory.buffer@, spec_op_b1(pre), pre.registers.index_x)))
    } else if op == 0x42 {
        &&& (post.registers == pre.registers)
        &&& (spec_mem_unchanged(pre.memory, post.memory))
    } else if op == 0x43 {
        &&& ((!spec_is_mmio(spec_ind_x_ea(pre.memory.buffer@, spec_op_b1(pre), pre.registers.index_x)) && spec_ind_x_ea(pre.memory.buffer@, spec_op_b1(pre), pre.registers.index_x) != spec_ind_x_lo_ptr(spec_op_b1(pre), pre.registers.index_x) as u16 && spec_ind_x_ea(pre.memory.buffer@, spec_op_b1(pre), pre.registers.index_x) != vstd::wrapping::u8_specs::wrapping_add(spec_ind_x_lo_ptr(spec_op_b1(pre), pre.registers.index_x), 1) as u16) ==> {
                &&& post.registers == spec_eor_regs(Registers { processor_status: spec_lsr_p(pre.registers.processor_status, pre.memory.buffer@[(spec_ind_x_ea(pre.memory.buffer@, spec_op_b1(pre), pre.registers.index_x)) as int]), ..pre.registers }, spec_lsr_val(pre.memory.buffer@[(spec_ind_x_ea(pre.memory.buffer@, spec_op_b1(pre), pre.registers.index_x)) as int]))
                &&& spec_store_rel(pre.memory, post.memory, spec_ind_x_ea(pre.memory.buffer@, spec_op_b1(pre), pre.registers.index_x), spec_lsr_val(pre.memory.buffer@[(spec_ind_x_ea(pre.memory.buffer@, spec_op_b1(pre), pre.registers.index_x)) as int]))
            })
    } else if op == 0x44 {
        &&& (post.registers == pre.registers)
        &&& (spec_mem_unchanged(pre.memory, post.memory))
    } else if op == 0x45 {
        &&& (post.registers == spec_eor_regs(pre.registers, pre.memory.buffer@[spec_op_b1(pre) as int]))
        &&& (spec_mem_unchanged(pre.memory, post.memory))
    } else if op == 0x46 {
        &&& (post.registers == (Registers {
                processor_status: spec_lsr_p(pre.registers.processor_status, pre.memory.buffer@[spec_op_b1(pre) as int]),
                ..pre.registers
            }))
        &&& (spec_store_rel(pre.memory, post.memory, spec_op_b1(pre) as u16, spec_lsr_val(pre.memory.buffer@[spec_op_b1(pre) as int])))
    } else if op == 0x47 {
        &&& (post.registers == spec_eor_regs(Registers { processor_status: spec_lsr_p(pre.registers.processor_status, pre.memory.buffer@[spec_op_b1(pre) as int]), ..pre.registers }, spec_lsr_val(pre.memory.buffer@[spec_op_b1(pre) as int])))
        &&& (spec_store_rel(pre.memory, post.memory, spec_op_b1(pre) as u16, spec_lsr_val(pre.memory.buffer@[spec_op_b1(pre) as int])))
    } else if op == 0x48 {
        &&& (post.memory.buffer@ == pre.memory.buffer@.update(
                spec_stack_addr(pre.registers.stack_pointer),
                pre.registers.accumulator,
            ))
        &&& (spec_mem_nonbuffer_unchanged(pre.memory, post.memory))
        &&& (post.registers == (Registers {
                stack_pointer: vstd::wrapping::u8_specs::wrapping_sub(
                    pre.registers.stack_pointer,
                    1,
                ),
                ..pre.registers
            }))
    } else if op == 0x49 {
        &&& (post.registers == spec_eor_regs(pre.registers, spec_op_b1(pre)))
        &&& (spec_mem_unchanged(pre.memory, post.memory))
    } else if op == 0x4A {
        &&& (post.registers == (Registers {
                accumulator: spec_lsr_val(pre.registers.accumulator),
                processor_status: spec_lsr_p(
                    pre.registers.processor_status,
                    pre.registers.accumulator,
                ),
                ..pre.registers
            }))
        &&& (spec_mem_unchanged(pre.memory, post.memory))
    } else if op == 0x4B {
        &&& (post.registers == pre.registers)
        &&& (spec_mem_unchanged(pre.memory, post.memory))
    } else if op == 0x4C {
        &&& (post.registers == (Registers { program_counter: spec_op_w(pre), ..pre.registers }))
        &&& (spec_mem_unchanged(pre.memory, post.memory))
    } else if op == 0x4D {
        &&& (post.registers == spec_eor_regs(pre.registers, spec_read_value(pre.memory, spec_op_w(pre))))
        &&& (spec_read_rel(pre.memory, post.memory, spec_op_w(pre)))
    } else if op == 0x4E {
        &&& (post.registers == (Registers {
                processor_status: spec_lsr_p(pre.registers.processor_status, spec_read_value(pre.memory, spec_op_w(pre))),
                ..pre.registers
            }))
        &&& (spec_store_rel_x(pre.memory, spec_read_regs_x(pre.memory, pre.memory.ppu.regs, spec_op_w(pre)), spec_read_input_x(pre.memory.input, spec_op_w(pre)), post.memory, spec_op_w(pre), spec_lsr_val(spec_read_value(pre.memory, spec_op_w(pre)))))
    } else if op == 0x4F {
        &&& ((!spec_is_mmio(spec_op_w(pre))) ==> {
                &&& post.registers == spec_eor_regs(Registers { processor_status: spec_lsr_p(pre.registers.processor_status, pre.memory.buffer@[(spec_op_w(pre)) as int]), ..pre.registers }, spec_lsr_val(pre.memory.buffer@[(spec_op_w(pre)) as int]))
                &&& spec_store_rel(pre.memory, post.memory, spec_op_w(pre), spec_lsr_val(pre.memory.buffer@[(spec_op_w(pre)) as int]))
            })
    } else if op == 0x50 {
        &&& (post.registers == (if pre.registers.processor_status & FLAG_OVERFLOW == 0 {
                Registers {
                    program_counter: spec_branch_target(pre.registers.program_counter, spec_op_b1(pre)),
                    ..pre.registers
                }
            } else {
                pre.registers
            }))
        &&& (spec_mem_unchanged(pre.memory, post.memory))
    } else if op == 0x51 {
        &&& (post.registers == spec_eor_regs(pre.registers, spec_read_value(pre.memory, spec_ind_y_ea(pre.memory.buffer@, spec_op_b1(pre), pre.registers.index_y))))
        &&& (spec_read_rel(pre.memory, post.memory, spec_ind_y_ea(pre.memory.buffer@, spec_op_b1(pre), pre.registers.index_y)))
    } else if op == 0x52 {
        &&& (post.registers == pre.registers)
        &&& (spec_mem_unchanged(pre.memory, post.memory))
    } else if op == 0x53 {
        &&& ((!spec_is_mmio(spec_ind_y_ea(pre.memory.buffer@, spec_op_b1(pre), pre.registers.index_y)) && spec_ind_y_ea(pre.memory.buffer@, spec_op_b1(pre), pre.registers.index_y) != spec_op_b1(pre) as u16 && spec_ind_y_ea(pre.memory.buffer@, spec_op_b1(pre), pre.registers.index_y) != vstd::wrapping::u8_specs::wrapping_add(spec_op_b1(pre), 1) as u16) ==> {
                &&& post.registers == spec_eor_regs(Registers { processor_status: spec_lsr_p(pre.registers.processor_status, pre.memory.buffer@[(spec_ind_y_ea(pre.memory.buffer@, spec_op_b1(pre), pre.registers.index_y)) as int]), ..pre.registers }, spec_lsr_val(pre.memory.buffer@[(spec_ind_y_ea(pre.memory.buffer@, spec_op_b1(pre), pre.registers.index_y)) as int]))
                &&& spec_store_rel(pre.memory, post.memory, spec_ind_y_ea(pre.memory.buffer@, spec_op_b1(pre), pre.registers.index_y), spec_lsr_val(pre.memory.buffer@[(spec_ind_y_ea(pre.memory.buffer@, spec_op_b1(pre), pre.registers.index_y)) as int]))
            })
    } else if op == 0x54 {
        &&& (post.registers == pre.registers)
        &&& (spec_mem_unchanged(pre.memory, post.memory))
    } else if op == 0x55 {
        &&& (post.registers == spec_eor_regs(pre.registers, pre.memory.buffer@[spec_zp_x_ea(spec_op_b1(pre), pre.registers.index_x) as int]))
        &&& (spec_mem_unchanged(pre.memory, post.memory))
    } else if op == 0x56 {
        &&& (post.registers == (Registers {
                processor_status: spec_lsr_p(pre.registers.processor_status, pre.memory.buffer@[spec_zp_x_ea(spec_op_b1(pre), pre.registers.index_x) as int]),
                ..pre.registers
            }))
        &&& (spec_store_rel(pre.memory, post.memory, spec_zp_x_ea(spec_op_b1(pre), pre.registers.index_x), spec_lsr_val(pre.memory.buffer@[spec_zp_x_ea(spec_op_b1(pre), pre.registers.index_x) as int])))
    } else if op == 0x57 {
        &&& (post.registers == spec_eor_regs(Registers { processor_status: spec_lsr_p(pre.registers.processor_status, pre.memory.buffer@[spec_zp_x_ea(spec_op_b1(pre), pre.registers.index_x) as int]), ..pre.registers }, spec_lsr_val(pre.memory.buffer@[spec_zp_x_ea(spec_op_b1(pre), pre.registers.index_x) as int])))
        &&& (spec_store_rel(pre.memory, post.memory, spec_zp_x_ea(spec_op_b1(pre), pre.registers.index_x), spec_lsr_val(pre.memory.buffer@[spec_zp_x_ea(spec_op_b1(pre), pre.registers.index_x) as int])))
    } else if op == 0x58 {
        &&& (post.registers == (Registers {
                processor_status: pre.registers.processor_status & !FLAG_INTERRUPT_DISABLE,
                ..pre.registers
            }))
        &&& (spec_mem_unchanged(pre.memory, post.memory))
    } else if op == 0x59 {
        &&& (post.registers == spec_eor_regs(pre.registers, spec_read_value(pre.memory, spec_abs_x_ea(spec_op_w(pre), pre.registers.index_y))))
        &&& (spec_read_rel(pre.memory, post.memory, spec_abs_x_ea(spec_op_w(pre), pre.registers.index_y)))
    } else if op == 0x5A {
        &&& (post.registers == pre.registers)
        &&& (spec_mem_unchanged(pre.memory, post.memory))
    } else if op == 0x5B {
        &&& ((!spec_is_mmio(spec_abs_x_ea(spec_op_w(pre), pre.registers.index_y))) ==> {
                &&& post.registers == spec_eor_regs(Registers { processor_status: spec_lsr_p(pre.registers.processor_status, pre.memory.buffer@[(spec_abs_x_ea(spec_op_w(pre), pre.registers.index_y)) as int]), ..pre.registers }, spec_lsr_val(pre.memory.buffer@[(spec_abs_x_ea(spec_op_w(pre), pre.registers.index_y)) as int]))
                &&& spec_store_rel(pre.memory, post.memory, spec_abs_x_ea(spec_op_w(pre), pre.registers.index_y), spec_lsr_val(pre.memory.buffer@[(spec_abs_x_ea(spec_op_w(pre), pre.registers.index_y)) as int]))
            })
    } else if op == 0x5C {
        &&& (post.registers == pre.registers)
        &&& (spec_mem_unchanged(pre.memory, post.memory))
    } else if op == 0x5D {
        &&& (post.registers == spec_eor_regs(pre.registers, spec_read_value(pre.memory, spec_abs_x_ea(spec_op_w(pre), pre.registers.index_x))))
        &&& (spec_read_rel(pre.memory, post.memory, spec_abs_x_ea(spec_op_w(pre), pre.registers.index_x)))
    } else if op == 0x5E {
        &&& (post.registers == (Registers {
                processor_status: spec_lsr_p(pre.registers.processor_status, spec_read_value(pre.memory, spec_abs_x_ea(spec_op_w(pre), pre.registers.index_x))),
                ..pre.registers
            }))
        &&& (spec_store_rel_x(pre.memory, spec_read_regs_x(pre.memory, pre.memory.ppu.regs, spec_abs_x_ea(spec_op_w(pre), pre.registers.index_x)), spec_read_input_x(pre.memory.input, spec_abs_x_ea(spec_op_w(pre), pre.registers.index_x)), post.memory, spec_abs_x_ea(spec_op_w(pre), pre.registers.index_x), spec_lsr_val(spec_read_value(pre.memory, spec_abs_x_ea(spec_op_w(pre), pre.registers.index_x)))))
    } else {
        &&& ((!spec_is_mmio(spec_abs_x_ea(spec_op_w(pre), pre.registers.index_x))) ==> {
                &&& post.registers == spec_eor_regs(Registers { processor_status: spec_lsr_p(pre.registers.processor_status, pre.memory.buffer@[(spec_abs_x_ea(spec_op_w(pre), pre.registers.index_x)) as int]), ..pre.registers }, spec_lsr_val(pre.memory.buffer@[(spec_abs_x_ea(spec_op_w(pre), pre.registers.index_x)) as int]))
                &&& spec_store_rel(pre.memory, post.memory, spec_abs_x_ea(spec_op_w(pre), pre.registers.index_x), spec_lsr_val(pre.memory.buffer@[(spec_abs_x_ea(spec_op_w(pre), pre.registers.index_x)) as int]))
            })
    }
}

/// The cycles each of the opcodes $40-$5F charges.
pub open spec fn spec_step_cycles_g2(pre: Cpu, op: u8) -> u8 {
    if op == 0x40 {
        6
    } else if op == 0x41 {
        6
    } else if op == 0x42 {
        0
    } else if op == 0x43 {
        8
    } else if op == 0x44 {
        0
    } else if op == 0x45 {
        3
    } else if op == 0x46 {
        5
    } else if op == 0x47 {
        5
    } else if op == 0x48 {
        3
    } else if op == 0x49 {
        2
    } else if op == 0x4A {
        2
    } else if op == 0x4B {
        0
    } else if op == 0x4C {
        3
    } else if op == 0x4D {
        4
    } else if op == 0x4E {
        6
    } else if op == 0x4F {
        6
    } else if op == 0x50 {
        spec_branch_cycles(
                pre.registers.program_counter,
                spec_op_b1(pre),
                pre.registers.processor_status & FLAG_OVERFLOW == 0,
            )
    } else if op == 0x51 {
        5
    } else if op == 0x52 {
        0
    } else if op == 0x53 {
        8
    } else if op == 0x54 {
        0
    } else if op == 0x55 {
        4
    } else if op == 0x56 {
        6
    } else if op == 0x57 {
        6
    } else if op == 0x58 {
        2
    } else if op == 0x59 {
        4
    } else if op == 0x5A {
        0
    } else if op == 0x5B {
        7
    } else if op == 0x5C {
        0
    } else if op == 0x5D {
        4
    } else if op == 0x5E {
        7
    } else {
        7
    }
}

/// The per-opcode effect of the dispatcher on registers and the bus,
/// before the program counter advance, for opcodes $60-$7F: each case
/// restates the handler's own contract with the operand bytes read from
/// under the program counter.
pub open spec fn spec_step_effect_g3(pre: Cpu, post: Cpu, op: u8) -> bool {
    if op == 0x60 {
        &&& (post.registers == (Registers {
                program_counter: (pre.memory.buffer@[spec_stack_addr(
                    vstd::wrapping::u8_specs::wrapping_add(pre.registers.stack_pointer, 2),
                )] * 256 + pre.memory.buffer@[spec_stack_addr(
                    vstd::wrapping::u8_specs::wrapping_add(pre.registers.stack_pointer, 1),
                )]) as u16,
                stack_pointer: vstd::wrapping::u8_specs::wrapping_add(
                    pre.registers.stack_pointer,
                    2,
                ),
                ..pre.registers
            }))
        &&& (spec_mem_unchanged(pre.memory, post.memory))
    } else if op == 0x61 {
        &&& (post.registers == spec_adc_regs(pre.registers, spec_read_value(pre.memory, spec_ind_x_ea(pre.memory.buffer@, spec_op_b1(pre), pre.registers.index_x))))
        &&& (spec_read_rel(pre.memory, post.memory, spec_ind_x_ea(pre.memory.buffer@, spec_op_b1(pre), pre.registers.index_x)))
    } else if op == 0x62 {
        &&& (post.registers == pre.registers)
        &&& (spec_mem_unchanged(pre.memory, post.memory))
    } else if op == 0x63 {
        &&& ((!spec_is_mmio(spec_ind_x_ea(pre.memory.buffer@, spec_op_b1(pre), pre.registers.index_x)) && spec_ind_x_ea(pre.memory.buffer@, spec_op_b1(pre), pre.registers.index_x) != spec_ind_x_lo_ptr(spec_op_b1(pre), pre.registers.index_x) as u16 && spec_ind_x_ea(pre.memory.buffer@, spec_op_b1(pre), pre.registers.index_x) != vstd::wrapping::u8_specs::wrapping_add(spec_ind_x_lo_ptr(spec_op_b1(pre), pre.registers.index_x), 1) as u16) ==> {
                &&& post.registers == spec_adc_regs(Registers { processor_status: spec_ror_p(pre.registers.processor_status, pre.memory.buffer@[(spec_ind_x_ea(pre.memory.buffer@, spec_op_b1(pre), pre.registers.index_x)) as int]), ..pre.registers }, spec_ror_val(pre.registers.processor_status, pre.memory.buffer@[(spec_ind_x_ea(pre.memory.buffer@, spec_op_b1(pre), pre.registers.index_x)) as int]))
                &&& spec_store_rel(pre.memory, post.memory, spec_ind_x_ea(pre.memory.buffer@, spec_op_b1(pre), pre.registers.index_x), spec_ror_val(pre.registers.processor_status, pre.memory.buffer@[(spec_ind_x_ea(pre.memory.buffer@, spec_op_b1(pre), pre.registers.index_x)) as int]))
            })
    } else if op == 0x64 {
        &&& (post.registers == pre.registers)
        &&& (spec_mem_unchanged(pre.memory, post.memory))
    } else if op == 0x65 {
        &&& (post.registers == spec_adc_regs(pre.registers, pre.memory.buffer@[spec_op_b1(pre) as int]))
        &&& (spec_mem_unchanged(pre.memory, post.memory))
    } else if op == 0x66 {
        &&& (post.registers == (Registers {
                processor_status: spec_ror_p(pre.registers.processor_status, pre.memory.buffer@[spec_op_b1(pre) as int]),
                ..pre.registers
            }))
        &&& (spec_store_rel(pre.memory, post.memory, spec_op_b1(pre) as u16, spec_ror_val(pre.registers.processor_status, pre.memory.buffer@[spec_op_b1(pre) as int])))
    } else if op == 0x67 {
        &&& (post.registers == spec_adc_regs(Registers { processor_status: spec_ror_p(pre.registers.processor_status, pre.memory.buffer@[spec_op_b1(pre) as int]), ..pre.registers }, spec_ror_val(pre.registers.processor_status, pre.memory.buffer@[spec_op_b1(pre) as int])))
        &&& (spec_store_rel(pre.memory, post.memory, spec_op_b1(pre) as u16, spec_ror_val(pre.registers.processor_status, pre.memory.buffer@[spec_op_b1(pre) as int])))
    } else if op == 0x68 {
        &&& (post.registers == (Registers {
                stack_pointer: vstd::wrapping::u8_specs::wrapping_add(
                    pre.registers.stack_pointer,
                    1,
                ),
                ..spec_lda_regs(
                    pre.registers,
                    pre.memory.buffer@[spec_stack_addr(
                        vstd::wrapping::u8_specs::wrapping_add(
                            pre.registers.stack_pointer,
                            1,
                        ),
                    )],
                )
            }))
        &&& (spec_mem_unchanged(pre.memory, post.memory))
    } else if op == 0x69 {
        &&& (post.registers == spec_adc_regs(pre.registers, spec_op_b1(pre)))
        &&& (spec_mem_unchanged(pre.memory, post.memory))
    } else if op == 0x6A {
        &&& (post.registers == (Registers {
                accumulator: spec_ror_val(
                    pre.registers.processor_status,
                    pre.registers.accumulator,
                ),
                processor_status: spec_ror_p(
                    pre.registers.processor_status,
                    pre.registers.accumulator,
                ),
                ..pre.registers
            }))
        &&& (spec_mem_unchanged(pre.memory, post.memory))
    } else if op == 0x6B {
        &&& (post.registers == pre.registers)
        &&& (spec_mem_unchanged(pre.memory, post.memory))
    } else if op == 0x6C {
        &&& (post.registers == (Registers {
                program_counter: (spec_read_value(pre.memory, spec_op_w(pre)) + spec_read2_value(
                    pre.memory,
                    spec_op_w(pre),
                    spec_quirk_next_addr(spec_op_w(pre)),
                ) * 256) as u16,
                ..pre.registers
            }))
        &&& (spec_read2_rel(
                pre.memory,
                post.memory,
                spec_op_w(pre),
                spec_quirk_next_addr(spec_op_w(pre)),
            ))
    } else if op == 0x6D {
        &&& (post.registers == spec_adc_regs(pre.registers, spec_read_value(pre.memory, spec_op_w(pre))))
        &&& (spec_read_rel(pre.memory, post.memory, spec_op_w(pre)))
    } else if op == 0x6E {
        &&& (post.registers == (Registers {
                processor_status: spec_ror_p(pre.registers.processor_status, spec_read_value(pre.memory, spec_op_w(pre))),
                ..pre.registers
            }))
        &&& (spec_store_rel_x(pre.memory, spec_read_regs_x(pre.memory, pre.memory.ppu.regs, spec_op_w(pre)), spec_read_input_x(pre.memory.input, spec_op_w(pre)), post.memory, spec_op_w(pre), spec_ror_val(pre.registers.processor_status, spec_read_value(pre.memory, spec_op_w(pre)))))
    } else if op == 0x6F {
        &&& ((!spec_is_mmio(spec_op_w(pre))) ==> {
                &&& post.registers == spec_adc_regs(Registers { processor_status: spec_ror_p(pre.registers.processor_status, pre.memory.buffer@[(spec_op_w(pre)) as int]), ..pre.registers }, spec_ror_val(pre.registers.processor_status, pre.memory.buffer@[(spec_op_w(pre)) as int]))
                &&& spec_store_rel(pre.memory, post.memory, spec_op_w(pre), spec_ror_val(pre.registers.processor_status, pre.memory.buffer@[(spec_op_w(pre)) as int]))
            })
    } else if op == 0x70 {
        &&& (post.registers == (if pre.registers.processor_status & FLAG_OVERFLOW != 0 {
                Registers {
                    program_counter: spec_branch_target(pre.registers.program_counter, spec_op_b1(pre)),
                    ..pre.registers
                }
            } else {
                pre.registers
            }))
        &&& (spec_mem_unchanged(pre.memory, post.memory))
    } else if op == 0x71 {
        &&& (post.registers == spec_adc_regs(pre.registers, spec_read_value(pre.memory, spec_ind_y_ea(pre.memory.buffer@, spec_op_b1(pre), pre.registers.index_y))))
        &&& (spec_read_rel(pre.memory, post.memory, spec_ind_y_ea(pre.memory.buffer@, spec_op_b1(pre), pre.registers.index_y)))
    } else if op == 0x72 {
        &&& (post.registers == pre.registers)
        &&& (spec_mem_unchanged(pre.memory, post.memory))
    } else if op == 0x73 {
        &&& ((!spec_is_mmio(spec_ind_y_ea(pre.memory.buffer@, spec_op_b1(pre), pre.registers.index_y)) && spec_ind_y_ea(pre.memory.buffer@, spec_op_b1(pre), pre.registers.index_y) != spec_op_b1(pre) as u16 && spec_ind_y_ea(pre.memory.buffer@, spec_op_b1(pre), pre.registers.index_y) != vstd::wrapping::u8_specs::wrapping_add(spec_op_b1(pre), 1) as u16) ==> {
                &&& post.registers == spec_adc_regs(Registers { processor_status: spec_ror_p(pre.registers.processor_status, pre.memory.buffer@[(spec_ind_y_ea(pre.memory.buffer@, spec_op_b1(pre), pre.registers.index_y)) as int]), ..pre.registers }, spec_ror_val(pre.registers.processor_status, pre.memory.buffer@[(spec_ind_y_ea(pre.memory.buffer@, spec_op_b1(pre), pre.registers.index_y)) as int]))
                &&& spec_store_rel(pre.memory, post.memory, spec_ind_y_ea(pre.memory.buffer@, spec_op_b1(pre), pre.registers.index_y), spec_ror_val(pre.registers.processor_status, pre.memory.buffer@[(spec_ind_y_ea(pre.memory.buffer@, spec_op_b1(pre), pre.registers.index_y)) as int]))
            })
    } else if op == 0x74 {
        &&& (post.registers == pre.registers)
        &&& (spec_mem_unchanged(pre.memory, post.memory))
    } else if op == 0x75 {
        &&& (post.registers == spec_adc_regs(pre.registers, pre.memory.buffer@[spec_zp_x_ea(spec_op_b1(pre), pre.registers.index_x) as int]))
        &&& (spec_mem_unchanged(pre.memory, post.memory))
    } else if op == 0x76 {
        &&& (post.registers == (Registers {
                processor_status: spec_ror_p(pre.registers.processor_status, pre.memory.buffer@[spec_zp_x_ea(spec_op_b1(pre), pre.registers.index_x) as int]),
                ..pre.registers
            }))
        &&& (spec_store_rel(pre.memory, post.memory, spec_zp_x_ea(spec_op_b1(pre), pre.registers.index_x), spec_ror_val(pre.registers.processor_status, pre.memory.buffer@[spec_zp_x_ea(spec_op_b1(pre), pre.registers.index_x) as int])))
    } else if op == 0x77 {
        &&& (post.registers == spec_adc_regs(Registers { processor_status: spec_ror_p(pre.registers.processor_status, pre.memory.buffer@[spec_zp_x_ea(spec_op_b1(pre), pre.registers.index_x) as int]), ..pre.registers }, spec_ror_val(pre.registers.processor_status, pre.memory.buffer@[spec_zp_x_ea(spec_op_b1(pre), pre.registers.index_x) as int])))
        &&& (spec_store_rel(pre.memory, post.memory, spec_zp_x_ea(spec_op_b1(pre), pre.registers.index_x), spec_ror_val(pre.registers.processor_status, pre.memory.buffer@[spec_zp_x_ea(spec_op_b1(pre), pre.registers.index_x) as int])))
    } else if op == 0x78 {
        &&& (post.registers == (Registers {
                processor_status: pre.registers.processor_status | FLAG_INTERRUPT_DISABLE,
                ..pre.registers
            }))
        &&& (spec_mem_unchanged(pre.memory, post.memory))
    } else if op == 0x79 {
        &&& (post.registers == spec_adc_regs(pre.registers, spec_read_value(pre.memory, spec_abs_x_ea(spec_op_w(pre), pre.registers.index_y))))
        &&& (spec_read_rel(pre.memory, post.memory, spec_abs_x_ea(spec_op_w(pre), pre.registers.index_y)))
    } else if op == 0x7A {
        &&& (post.registers == pre.registers)
        &&& (spec_mem_unchanged(pre.memory, post.memory))
    } else if op == 0x7B {
        &&& ((!spec_is_mmio(spec_abs_x_ea(spec_op_w(pre), pre.registers.index_y))) ==> {
                &&& post.registers == spec_adc_regs(Registers { processor_status: spec_ror_p(pre.registers.processor_status, pre.memory.buffer@[(spec_abs_x_ea(spec_op_w(pre), pre.registers.index_y)) as int]), ..pre.registers }, spec_ror_val(pre.registers.processor_status, pre.memory.buffer@[(spec_abs_x_ea(spec_op_w(pre), pre.registers.index_y)) as int]))
                &&& spec_store_rel(pre.memory, post.memory, spec_abs_x_ea(spec_op_w(pre), pre.registers.index_y), spec_ror_val(pre.registers.processor_status, pre.memory.buffer@[(spec_abs_x_ea(spec_op_w(pre), pre.registers.index_y)) as int]))
            })
    } else if op == 0x7C {
        &&& (post.registers == pre.registers)
        &&& (spec_mem_unchanged(pre.memory, post.memory))
    } else if op == 0x7D {
        &&& (post.registers == spec_adc_regs(pre.registers, spec_read_value(pre.memory, spec_abs_x_ea(spec_op_w(pre), pre.registers.index_x))))
        &&& (spec_read_rel(pre.memory, post.memory, spec_abs_x_ea(spec_op_w(pre), pre.registers.index_x)))
    } else if op == 0x7E {
        &&& (post.registers == (Registers {
                processor_status: spec_ror_p(pre.registers.processor_status, spec_read_value(pre.memory, spec_abs_x_ea(spec_op_w(pre), pre.registers.index_x))),
                ..pre.registers
            }))
        &&& (spec_store_rel_x(pre.memory, spec_read_regs_x(pre.memory, pre.memory.ppu.regs, spec_abs_x_ea(spec_op_w(pre), pre.registers.index_x)), spec_read_input_x(pre.memory.input, spec_abs_x_ea(spec_op_w(pre), pre.registers.index_x)), post.memory, spec_abs_x_ea(spec_op_w(pre), pre.registers.index_x), spec_ror_val(pre.registers.processor_status, spec_read_value(pre.memory, spec_abs_x_ea(spec_op_w(pre), pre.registers.index_x)))))
    } else {
        &&& ((!spec_is_mmio(spec_abs_x_ea(spec_op_w(pre), pre.registers.index_x))) ==> {
                &&& post.registers == spec_adc_regs(Registers { processor_status: spec_ror_p(pre.registers.processor_status, pre.memory.buffer@[(spec_abs_x_ea(spec_op_w(pre), pre.registers.index_x)) as int]), ..pre.registers }, spec_ror_val(pre.registers.processor_status, pre.memory.buffer@[(spec_abs_x_ea(spec_op_w(pre), pre.registers.index_x)) as int]))
                &&& spec_store_rel(pre.memory, post.memory, spec_abs_x_ea(spec_op_w(pre), pre.registers.index_x), spec_ror_val(pre.registers.processor_status, pre.memory.buffer@[(spec_abs_x_ea(spec_op_w(pre), pre.registers.index_x)) as int]))
            })
    }
}

/// The cycles each of the opcodes $60-$7F charges.
pub open spec fn spec_step_cycles_g3(pre: Cpu, op: u8) -> u8 {
    if op == 0x60 {
        6
    } else if op == 0x61 {
        6
    } else if op == 0x62 {
        0
    } else if op == 0x63 {
        8
    } else if op == 0x64 {
        0
    } else if op == 0x65 {
        3
    } else if op == 0x66 {
        5
    } else if op == 0x67 {
        5
    } else if op == 0x68 {
        4
    } else if op == 0x69 {
        2
    } else if op == 0x6A {
        2
    } else if op == 0x6B {
        0
    } else if op == 0x6C {
        5
    } else if op == 0x6D {
        4
    } else if op == 0x6E {
        6
    } else if op == 0x6F {
        6
    } else if op == 0x70 {
        spec_branch_cycles(
                pre.registers.program_counter,
                spec_op_b1(pre),
                pre.registers.processor_status & FLAG_OVERFLOW != 0,
            )
    } else if op == 0x71 {
        5
    } else if op == 0x72 {
        0
    } else if op == 0x73 {
        8
    } else if op == 0x74 {
        0
    } else if op == 0x75 {
        4
    } else if op == 0x76 {
        6
    } else if op == 0x77 {
        6
    } else if op == 0x78 {
        2
    } else if op == 0x79 {
        4
    } else if op == 0x7A {
        0
    } else if op == 0x7B {
        7
    } else if op == 0x7C {
        0
    } else if op == 0x7D {
        4
    } else if op == 0x7E {
        7
    } else {
        7
    }
}

/// The per-opcode effect of the dispatcher on registers and the bus,
/// before the program counter advance, for opcodes $80-$9F: each case
/// restates the handler's own contract with the operand bytes read from
/// under the program counter.
pub open spec fn spec_step_effect_g4(pre: Cpu, post: Cpu, op: u8) -> bool {
    if op == 0x80 {
        &&& (post.registers == pre.registers)
        &&& (spec_mem_unchanged(pre.memory, post.memory))
    } else if op == 0x81 {
        &&& (post.registers == pre.registers)
        &&& (spec_store_rel(pre.memory, post.memory, spec_ind_x_ea(pre.memory.buffer@, spec_op_b1(pre), pre.registers.index_x), pre.registers.accumulator))
    } else if op == 0x82 {
        &&& (post.registers == pre.registers)
        &&& (spec_mem_unchanged(pre.memory, post.memory))
    } else if op == 0x83 {
        &&& (post.registers == pre.registers)
        &&& (spec_store_rel(pre.memory, post.memory, spec_ind_x_ea(pre.memory.buffer@, spec_op_b1(pre), pre.registers.index_x), (pre.registers.accumulator & pre.registers.index_x)))
    } else if op == 0x84 {
        &&& (post.registers == pre.registers)
        &&& (spec_store_rel(pre.memory, post.memory, spec_op_b1(pre) as u16, pre.registers.index_y))
    } else if op == 0x85 {
        &&& (post.registers == pre.registers)
        &&& (spec_store_rel(pre.memory, post.memory, spec_op_b1(pre) as u16, pre.registers.accumulator))
    } else if op == 0x86 {
        &&& (post.registers == pre.registers)
        &&& (spec_store_rel(pre.memory, post.memory, spec_op_b1(pre) as u16, pre.registers.index_x))
    } else if op == 0x87 {
        &&& (post.registers == pre.registers)
        &&& (spec_store_rel(pre.memory, post.memory, spec_op_b1(pre) as u16, (pre.registers.accumulator & pre.registers.index_x)))
    } else if op == 0x88 {
        &&& (post.registers == spec_ldy_regs(
                pre.registers,
                spec_dec_val(pre.registers.index_y),
            ))
        &&& (spec_mem_unchanged(pre.memory, post.memory))
    } else if op == 0x89 {
        &&& (post.registers == pre.registers)
        &&& (spec_mem_unchanged(pre.memory, post.memory))
    } else if op == 0x8A {
        &&& (post.registers == spec_lda_regs(pre.registers, pre.registers.index_x))
        &&& (spec_mem_unchanged(pre.memory, post.memory))
    } else if op == 0x8B {
        &&& (post.registers == pre.registers)
        &&& (spec_mem_unchanged(pre.memory, post.memory))
    } else if op == 0x8C {
        &&& (post.registers == pre.registers)
        &&& (spec_store_rel(pre.memory, post.memory, spec_op_w(pre), pre.registers.index_y))
    } else if op == 0x8D {
        &&& (post.registers == pre.registers)
        &&& (spec_store_rel(pre.memory, post.memory, spec_op_w(pre), pre.registers.accumulator))
    } else if op == 0x8E {
        &&& (post.registers == pre.registers)
        &&& (spec_store_rel(pre.memory, post.memory, spec_op_w(pre), pre.registers.index_x))
    } else if op == 0x8F {
        &&& (post.registers == pre.registers)
        &&& (spec_store_rel(pre.memory, post.memory, spec_op_w(pre), (pre.registers.accumulator & pre.registers.index_x)))
    } else if op == 0x90 {
        &&& (post.registers == (if pre.registers.processor_status & FLAG_CARRY == 0 {
                Registers {
                    program_counter: spec_branch_target(pre.registers.program_counter, spec_op_b1(pre)),
                    ..pre.registers
                }
            } else {
                pre.registers
            }))
        &&& (spec_mem_unchanged(pre.memory, post.memory))
    } else if op == 0x91 {
        &&& (post.registers == pre.registers)
        &&& (spec_store_rel(pre.memory, post.memory, spec_ind_y_ea(pre.memory.buffer@, spec_op_b1(pre), pre.registers.index_y), pre.registers.accumulator))
    } else if op == 0x92 {
        &&& (post.registers == pre.registers)
        &&& (spec_mem_unchanged(pre.memory, post.memory))
    } else if op == 0x93 {
        &&& (post.registers == pre.registers)
        &&& (spec_mem_unchanged(pre.memory, post.memory))
    } else if op == 0x94 {
        &&& (post.registers == pre.registers)
        &&& (spec_store_rel(pre.memory, post.memory, spec_zp_x_ea(spec_op_b1(pre), pre.registers.index_x), pre.registers.index_y))
    } else if op == 0x95 {
        &&& (post.registers == pre.registers)
        &&& (spec_store_rel(pre.memory, post.memory, spec_zp_x_ea(spec_op_b1(pre), pre.registers.index_x), pre.registers.accumulator))
    } else if op == 0x96 {
        &&& (post.registers == pre.registers)
        &&& (spec_store_rel(pre.memory, post.memory, spec_zp_x_ea(spec_op_b1(pre), pre.registers.index_y), pre.registers.index_x))
    } else if op == 0x97 {
        &&& (post.registers == pre.registers)
        &&& (spec_store_rel(pre.memory, post.memory, spec_zp_x_ea(spec_op_b1(pre), pre.registers.index_y), (pre.registers.accumulator & pre.registers.index_x)))
    } else if op == 0x98 {
        &&& (post.registers == spec_lda_regs(pre.registers, pre.registers.index_y))
        &&& (spec_mem_unchanged(pre.memory, post.memory))
    } else if op == 0x99 {
        &&& (post.registers == pre.registers)
        &&& (spec_store_rel(pre.memory, post.memory, spec_abs_x_ea(spec_op_w(pre), pre.registers.index_y), pre.registers.accumulator))
    } else if op == 0x9A {
        &&& (post.registers == (Registers {
                stack_pointer: pre.registers.index_x,
                ..pre.registers
            }))
        &&& (spec_mem_unchanged(pre.memory, post.memory))
    } else if op == 0x9B {
        &&& (post.registers == pre.registers)
        &&& (spec_mem_unchanged(pre.memory, post.memory))
    } else if op == 0x9C {
        &&& (post.registers == pre.registers)
        &&& (spec_mem_unchanged(pre.memory, post.memory))
    } else if op == 0x9D {
        &&& (post.registers == pre.registers)
        &&& (spec_store_rel(pre.memory, post.memory, spec_abs_x_ea(spec_op_w(pre), pre.registers.index_x), pre.registers.accumulator))
    } else if op == 0x9E {
        &&& (post.registers == pre.registers)
        &&& (spec_mem_unchanged(pre.memory, post.memory))
    } else {
        &&& (post.registers == pre.registers)
        &&& (spec_mem_unchanged(pre.memory, post.memory))
    }
}

/// The cycles each of the opcodes $80-$9F charges.
pub open spec fn spec_step_cycles_g4(pre: Cpu, op: u8) -> u8 {
    if op == 0x80 {
        0
    } else if op == 0x81 {
        6
    } else if op == 0x82 {
        0
    } else if op == 0x83 {
        6
    } else if op == 0x84 {
        3
    } else if op == 0x85 {
        3
    } else if op == 0x86 {
        3
    } else if op == 0x87 {
        3
    } else if op == 0x88 {
        2
    } else if op == 0x89 {
        0
    } else if op == 0x8A {
        2
    } else if op == 0x8B {
        0
    } else if op == 0x8C {
        4
    } else if op == 0x8D {
        4
    } else if op == 0x8E {
        4
    } else if op == 0x8F {
        4
    } else if op == 0x90 {
        spec_branch_cycles(
                pre.registers.program_counter,
                spec_op_b1(pre),
                pre.registers.processor_status & FLAG_CARRY == 0,
            )
    } else if op == 0x91 {
        6
    } else if op == 0x92 {
        0
    } else if op == 0x93 {
        0
    } else if op == 0x94 {
        4
    } else if op == 0x95 {
        4
    } else if op == 0x96 {
        4
    } else if op == 0x97 {
        4
    } else if op == 0x98 {
        2
    } else if op == 0x99 {
        5
    } else if op == 0x9A {
        2
    } else if op == 0x9B {
        0
    } else if op == 0x9C {
        0
    } else if op == 0x9D {
        5
    } else if op == 0x9E {
        0
    } else {
        0
    }
}

/// The per-opcode effect of the dispatcher on registers and the bus,
/// before the program counter advance, for opcodes $A0-$BF: each case
/// restates the handler's own contract with the operand bytes read from
/// under the program counter.
pub open spec fn spec_step_effect_g5(pre: Cpu, post: Cpu, op: u8) -> bool {
    if op == 0xA0 {
        &&& (post.registers == spec_ldy_regs(pre.registers, spec_op_b1(pre)))
        &&& (spec_mem_unchanged(pre.memory, post.memory))
    } else if op == 0xA1 {
        &&& (post.registers == spec_lda_regs(pre.registers, spec_read_value(pre.memory, spec_ind_x_ea(pre.memory.buffer@, spec_op_b1(pre), pre.registers.index_x))))
        &&& (spec_read_rel(pre.memory, post.memory, spec_ind_x_ea(pre.memory.buffer@, spec_op_b1(pre), pre.registers.index_x)))
    } else if op == 0xA2 {
        &&& (post.registers == spec_ldx_regs(pre.registers, spec_op_b1(pre)))
        &&& (spec_mem_unchanged(pre.memory, post.memory))
    } else if op == 0xA3 {
        &&& (!spec_is_mmio(spec_ind_x_ea(pre.memory.buffer@, spec_op_b1(pre), pre.registers.index_x)) ==> {
                &&& post.registers == spec_ldx_regs(
                    spec_lda_regs(pre.registers, pre.memory.buffer@[(spec_ind_x_ea(pre.memory.buffer@, spec_op_b1(pre), pre.registers.index_x)) as int]),
                    pre.memory.buffer@[(spec_ind_x_ea(pre.memory.buffer@, spec_op_b1(pre), pre.registers.index_x)) as int],
                )
                &&& spec_mem_unchanged(pre.memory, post.memory)
            })
    } else if op == 0xA4 {
        &&& (post.registers == spec_ldy_regs(pre.registers, pre.memory.buffer@[spec_op_b1(pre) as int]))
        &&& (spec_mem_unchanged(pre.memory, post.memory))
    } else if op == 0xA5 {
        &&& (post.registers == spec_lda_regs(pre.registers, pre.memory.buffer@[spec_op_b1(pre) as int]))
        &&& (spec_mem_unchanged(pre.memory, post.memory))
    } else if op == 0xA6 {
        &&& (post.registers == spec_ldx_regs(pre.registers, pre.memory.buffer@[spec_op_b1(pre) as int]))
        &&& (spec_mem_unchanged(pre.memory, post.memory))
    } else if op == 0xA7 {
        &&& (post.registers == spec_ldx_regs(spec_lda_regs(pre.registers, pre.memory.buffer@[spec_op_b1(pre) as int]), pre.memory.buffer@[spec_op_b1(pre) as int]))
        &&& (spec_mem_unchanged(pre.memory, post.memory))
    } else if op == 0xA8 {
        &&& (post.registers == spec_ldy_regs(
                pre.registers,
                pre.registers.accumulator,
            ))
        &&& (spec_mem_unchanged(pre.memory, post.memory))
    } else if op == 0xA9 {
        &&& (post.registers == spec_lda_regs(pre.registers, spec_op_b1(pre)))
        &&& (spec_mem_unchanged(pre.memory, post.memory))
    } else if op == 0xAA {
        &&& (post.registers == spec_ldx_regs(
                pre.registers,
                pre.registers.accumulator,
            ))
        &&& (spec_mem_unchanged(pre.memory, post.memory))
    } else if op == 0xAB {
        &&& (post.registers == pre.registers)
        &&& (spec_mem_unchanged(pre.memory, post.memory))
    } else if op == 0xAC {
        &&& (post.registers == spec_ldy_regs(pre.registers, spec_read_value(pre.memory, spec_op_w(pre))))
        &&& (spec_read_rel(pre.memory, post.memory, spec_op_w(pre)))
    } else if op == 0xAD {
        &&& (post.registers == spec_lda_regs(pre.registers, spec_read_value(pre.memory, spec_op_w(pre))))
        &&& (spec_read_rel(pre.memory, post.memory, spec_op_w(pre)))
    } else if op == 0xAE {
        &&& (post.registers == spec_ldx_regs(pre.registers, spec_read_value(pre.memory, spec_op_w(pre))))
        &&& (spec_read_rel(pre.memory, post.memory, spec_op_w(pre)))
    } else if op == 0xAF {
        &&& (!spec_is_mmio(spec_op_w(pre)) ==> {
                &&& post.registers == spec_ldx_regs(
                    spec_lda_regs(pre.registers, pre.memory.buffer@[(spec_op_w(pre)) as int]),
                    pre.memory.buffer@[(spec_op_w(pre)) as int],
                )
                &&& spec_mem_unchanged(pre.memory, post.memory)
            })
    } else if op == 0xB0 {
        &&& (post.registers == (if pre.registers.processor_status & FLAG_CARRY != 0 {
                Registers {
                    program_counter: spec_branch_target(pre.registers.program_counter, spec_op_b1(pre)),
                    ..pre.registers
                }
            } else {
                pre.registers
            }))
        &&& (spec_mem_unchanged(pre.memory, post.memory))
    } else if op == 0xB1 {
        &&& (post.registers == spec_lda_regs(pre.registers, spec_read_value(pre.memory, spec_ind_y_ea(pre.memory.buffer@, spec_op_b1(pre), pre.registers.index_y))))
        &&& (spec_read_rel(pre.memory, post.memory, spec_ind_y_ea(pre.memory.buffer@, spec_op_b1(pre), pre.registers.index_y)))
    } else if op == 0xB2 {
        &&& (post.registers == pre.registers)
        &&& (spec_mem_unchanged(pre.memory, post.memory))
    } else if op == 0xB3 {
        &&& (!spec_is_mmio(spec_ind_y_ea(pre.memory.buffer@, spec_op_b1(pre), pre.registers.index_y)) ==> {
                &&& post.registers == spec_ldx_regs(
                    spec_lda_regs(pre.registers, pre.memory.buffer@[(spec_ind_y_ea(pre.memory.buffer@, spec_op_b1(pre), pre.registers.index_y)) as int]),
                    pre.memory.buffer@[(spec_ind_y_ea(pre.memory.buffer@, spec_op_b1(pre), pre.registers.index_y)) as int],
                )
                &&& spec_mem_unchanged(pre.memory, post.memory)
            })
    } else if op == 0xB4 {
        &&& (post.registers == spec_ldy_regs(pre.registers, pre.memory.buffer@[spec_zp_x_ea(spec_op_b1(pre), pre.registers.index_x) as int]))
        &&& (spec_mem_unchanged(pre.memory, post.memory))
    } else if op == 0xB5 {
        &&& (post.registers == spec_lda_regs(pre.registers, pre.memory.buffer@[spec_zp_x_ea(spec_op_b1(pre), pre.registers.index_x) as int]))
        &&& (spec_mem_unchanged(pre.memory, post.memory))
    } else if op == 0xB6 {
        &&& (post.registers == spec_ldx_regs(pre.registers, pre.memory.buffer@[spec_zp_x_ea(spec_op_b1(pre), pre.registers.index_y) as int]))
        &&& (spec_mem_unchanged(pre.memory, post.memory))
    } else if op == 0xB7 {
        &&& (post.registers == spec_ldx_regs(spec_lda_regs(pre.registers, pre.memory.buffer@[spec_zp_x_ea(spec_op_b1(pre), pre.registers.index_y) as int]), pre.memory.buffer@[spec_zp_x_ea(spec_op_b1(pre), pre.registers.index_y) as int]))
        &&& (spec_mem_unchanged(pre.memory, post.memory))
    } else if op == 0xB8 {
        &&& (post.registers == (Registers {
                processor_status: pre.registers.processor_status & !FLAG_OVERFLOW,
                ..pre.registers
            }))
        &&& (spec_mem_unchanged(pre.memory, post.memory))
    } else if op == 0xB9 {
        &&& (post.registers == spec_lda_regs(pre.registers, spec_read_value(pre.memory, spec_abs_x_ea(spec_op_w(pre), pre.registers.index_y))))
        &&& (spec_read_rel(pre.memory, post.memory, spec_abs_x_ea(spec_op_w(pre), pre.registers.index_y)))
    } else if op == 0xBA {
        &&& (post.registers == spec_ldx_regs(
                pre.registers,
                pre.registers.stack_pointer,
            ))
        &&& (spec_mem_unchanged(pre.memory, post.memory))
    } else if op == 0xBB {
        &&& (post.registers == pre.registers)
        &&& (spec_mem_unchanged(pre.memory, post.memory))
    } else if op == 0xBC {
        &&& (post.registers == spec_ldy_regs(pre.registers, spec_read_value(pre.memory, spec_abs_x_ea(spec_op_w(pre), pre.registers.index_x))))
        &&& (spec_read_rel(pre.memory, post.memory, spec_abs_x_ea(spec_op_w(pre), pre.registers.index_x)))
    } else if op == 0xBD {
        &&& (post.registers == spec_lda_regs(pre.registers, spec_read_value(pre.memory, spec_abs_x_ea(spec_op_w(pre), pre.registers.index_x))))
        &&& (spec_read_rel(pre.memory, post.memory, spec_abs_x_ea(spec_op_w(pre), pre.registers.index_x)))
    } else if op == 0xBE {
        &&& (post.registers == spec_ldx_regs(pre.registers, spec_read_value(pre.memory, spec_abs_x_ea(spec_op_w(pre), pre.registers.index_y))))
        &&& (spec_read_rel(pre.memory, post.memory, spec_abs_x_ea(spec_op_w(pre), pre.registers.index_y)))
    } else {
        &&& (!spec_is_mmio(spec_abs_x_ea(spec_op_w(pre), pre.registers.index_y)) ==> {
                &&& post.registers == spec_ldx_regs(
                    spec_lda_regs(pre.registers, pre.memory.buffer@[(spec_abs_x_ea(spec_op_w(pre), pre.registers.index_y)) as int]),
                    pre.memory.buffer@[(spec_abs_x_ea(spec_op_w(pre), pre.registers.index_y)) as int],
                )
                &&& spec_mem_unchanged(pre.memory, post.memory)
            })
    }
}

/// The cycles each of the opcodes $A0-$BF charges.
pub open spec fn spec_step_cycles_g5(pre: Cpu, op: u8) -> u8 {
    if op == 0xA0 {
        2
    } else if op == 0xA1 {
        6
    } else if op == 0xA2 {
        2
    } else if op == 0xA3 {
        6
    } else if op == 0xA4 {
        3
    } else if op == 0xA5 {
        3
    } else if op == 0xA6 {
        3
    } else if op == 0xA7 {
        3
    } else if op == 0xA8 {
        2
    } else if op == 0xA9 {
        2
    } else if op == 0xAA {
        2
    } else if op == 0xAB {
        0
    } else if op == 0xAC {
        4
    } else if op == 0xAD {
        4
    } else if op == 0xAE {
        4
    } else if op == 0xAF {
        4
    } else if op == 0xB0 {
        spec_branch_cycles(
                pre.registers.program_counter,
                spec_op_b1(pre),
                pre.registers.processor_status & FLAG_CARRY != 0,
            )
    } else if op == 0xB1 {
        5
    } else if op == 0xB2 {
        0
    } else if op == 0xB3 {
        5
    } else if op == 0xB4 {
        4
    } else if op == 0xB5 {
        4
    } else if op == 0xB6 {
        4
    } else if op == 0xB7 {
        4
    } else if op == 0xB8 {
        2
    } else if op == 0xB9 {
        4
    } else if op == 0xBA {
        2
    } else if op == 0xBB {
        0
    } else if op == 0xBC {
        4
    } else if op == 0xBD {
        4
    } else if op == 0xBE {
        4
    } else {
        4
    }
}

/// The per-opcode effect of the dispatcher on registers and the bus,
/// before the program counter advance, for opcodes $C0-$DF: each case
/// restates the handler's own contract with the operand bytes read from
/// under the program counter.
pub open spec fn spec_step_effect_g6(pre: Cpu, post: Cpu, op: u8) -> bool {
    if op == 0xC0 {
        &&& (post.registers == spec_cpy_regs(pre.registers, spec_op_b1(pre)))
        &&& (spec_mem_unchanged(pre.memory, post.memory))
    } else if op == 0xC1 {
        &&& (post.registers == spec_cmp_regs(pre.registers, spec_read_value(pre.memory, spec_ind_x_ea(pre.memory.buffer@, spec_op_b1(pre), pre.registers.index_x))))
        &&& (spec_read_rel(pre.memory, post.memory, spec_ind_x_ea(pre.memory.buffer@, spec_op_b1(pre), pre.registers.index_x)))
    } else if op == 0xC2 {
        &&& (post.registers == pre.registers)
        &&& (spec_mem_unchanged(pre.memory, post.memory))
    } else if op == 0xC3 {
        &&& ((!spec_is_mmio(spec_ind_x_ea(pre.memory.buffer@, spec_op_b1(pre), pre.registers.index_x)) && spec_ind_x_ea(pre.memory.buffer@, spec_op_b1(pre), pre.registers.index_x) != spec_ind_x_lo_ptr(spec_op_b1(pre), pre.registers.index_x) as u16 && spec_ind_x_ea(pre.memory.buffer@, spec_op_b1(pre), pre.registers.index_x) != vstd::wrapping::u8_specs::wrapping_add(spec_ind_x_lo_ptr(spec_op_b1(pre), pre.registers.index_x), 1) as u16) ==> {
                &&& post.registers == spec_cmp_regs(pre.registers, spec_dec_val(pre.memory.buffer@[(spec_ind_x_ea(pre.memory.buffer@, spec_op_b1(pre), pre.registers.index_x)) as int]))
                &&& spec_store_rel(pre.memory, post.memory, spec_ind_x_ea(pre.memory.buffer@, spec_op_b1(pre), pre.registers.index_x), spec_dec_val(pre.memory.buffer@[(spec_ind_x_ea(pre.memory.buffer@, spec_op_b1(pre), pre.registers.index_x)) as int]))
            })
    } else if op == 0xC4 {
        &&& (post.registers == spec_cpy_regs(pre.registers, pre.memory.buffer@[spec_op_b1(pre) as int]))
        &&& (spec_mem_unchanged(pre.memory, post.memory))
    } else if op == 0xC5 {
        &&& (post.registers == spec_cmp_regs(pre.registers, pre.memory.buffer@[spec_op_b1(pre) as int]))
        &&& (spec_mem_unchanged(pre.memory, post.memory))
    } else if op == 0xC6 {
        &&& (post.registers == (Registers {
                processor_status: spec_nz(pre.registers.processor_status, spec_dec_val(pre.memory.buffer@[spec_op_b1(pre) as int])),
                ..pre.registers
            }))
        &&& (spec_store_rel(pre.memory, post.memory, spec_op_b1(pre) as u16, spec_dec_val(pre.memory.buffer@[spec_op_b1(pre) as int])))
    } else if op == 0xC7 {
        &&& (post.registers == spec_cmp_regs(pre.registers, spec_dec_val(pre.memory.buffer@[spec_op_b1(pre) as int])))
        &&& (spec_store_rel(pre.memory, post.memory, spec_op_b1(pre) as u16, spec_dec_val(pre.memory.buffer@[spec_op_b1(pre) as int])))
    } else if op == 0xC8 {
        &&& (post.registers == spec_ldy_regs(
                pre.registers,
                spec_inc_val(pre.registers.index_y),
            ))
        &&& (spec_mem_unchanged(pre.memory, post.memory))
    } else if op == 0xC9 {
        &&& (post.registers == spec_cmp_regs(pre.registers, spec_op_b1(pre)))
        &&& (spec_mem_unchanged(pre.memory, post.memory))
    } else if op == 0xCA {
        &&& (post.registers == spec_ldx_regs(
                pre.registers,
                spec_dec_val(pre.registers.index_x),
            ))
        &&& (spec_mem_unchanged(pre.memory, post.memory))
    } else if op == 0xCB {
        &&& (post.registers == pre.registers)
        &&& (spec_mem_unchanged(pre.memory, post.memory))
    } else if op == 0xCC {
        &&& (post.registers == spec_cpy_regs(pre.registers, spec_read_value(pre.memory, spec_op_w(pre))))
        &&& (spec_read_rel(pre.memory, post.memory, spec_op_w(pre)))
    } else if op == 0xCD {
        &&& (post.registers == spec_cmp_regs(pre.registers, spec_read_value(pre.memory, spec_op_w(pre))))
        &&& (spec_read_rel(pre.memory, post.memory, spec_op_w(pre)))
    } else if op == 0xCE {
        &&& (post.registers == (Registers {
                processor_status: spec_nz(pre.registers.processor_status, spec_dec_val(spec_read_value(pre.memory, spec_op_w(pre)))),
                ..pre.registers
            }))
        &&& (spec_store_rel_x(pre.memory, spec_read_regs_x(pre.memory, pre.memory.ppu.regs, spec_op_w(pre)), spec_read_input_x(pre.memory.input, spec_op_w(pre)), post.memory, spec_op_w(pre), spec_dec_val(spec_read_value(pre.memory, spec_op_w(pre)))))
    } else if op == 0xCF {
        &&& ((!spec_is_mmio(spec_op_w(pre))) ==> {
                &&& post.registers == spec_cmp_regs(pre.registers, spec_dec_val(pre.memory.buffer@[(spec_op_w(pre)) as int]))
                &&& spec_store_rel(pre.memory, post.memory, spec_op_w(pre), spec_dec_val(pre.memory.buffer@[(spec_op_w(pre)) as int]))
            })
    } else if op == 0xD0 {
        &&& (post.registers == (if pre.registers.processor_status & FLAG_ZERO == 0 {
                Registers {
                    program_counter: spec_branch_target(pre.registers.program_counter, spec_op_b1(pre)),
                    ..pre.registers
                }
            } else {
                pre.registers
            }))
        &&& (spec_mem_unchanged(pre.memory, post.memory))
    } else if op == 0xD1 {
        &&& (post.registers == spec_cmp_regs(pre.registers, spec_read_value(pre.memory, spec_ind_y_ea(pre.memory.buffer@, spec_op_b1(pre), pre.registers.index_y))))
        &&& (spec_read_rel(pre.memory, post.memory, spec_ind_y_ea(pre.memory.buffer@, spec_op_b1(pre), pre.registers.index_y)))
    } else if op == 0xD2 {
        &&& (post.registers == pre.registers)
        &&& (spec_mem_unchanged(pre.memory, post.memory))
    } else if op == 0xD3 {
        &&& ((!spec_is_mmio(spec_ind_y_ea(pre.memory.buffer@, spec_op_b1(pre), pre.registers.index_y)) && spec_ind_y_ea(pre.memory.buffer@, spec_op_b1(pre), pre.registers.index_y) != spec_op_b1(pre) as u16 && spec_ind_y_ea(pre.memory.buffer@, spec_op_b1(pre), pre.registers.index_y) != vstd::wrapping::u8_specs::wrapping_add(spec_op_b1(pre), 1) as u16) ==> {
                &&& post.registers == spec_cmp_regs(pre.registers, spec_dec_val(pre.memory.buffer@[(spec_ind_y_ea(pre.memory.buffer@, spec_op_b1(pre), pre.registers.index_y)) as int]))
                &&& spec_store_rel(pre.memory, post.memory, spec_ind_y_ea(pre.memory.buffer@, spec_op_b1(pre), pre.registers.index_y), spec_dec_val(pre.memory.buffer@[(spec_ind_y_ea(pre.memory.buffer@, spec_op_b1(pre), pre.registers.index_y)) as int]))
            })
    } else if op == 0xD4 {
        &&& (post.registers == pre.registers)
        &&& (spec_mem_unchanged(pre.memory, post.memory))
    } else if op == 0xD5 {
        &&& (post.registers == spec_cmp_regs(pre.registers, pre.memory.buffer@[spec_zp_x_ea(spec_op_b1(pre), pre.registers.index_x) as int]))
        &&& (spec_mem_unchanged(pre.memory, post.memory))
    } else if op == 0xD6 {
        &&& (post.registers == (Registers {
                processor_status: spec_nz(pre.registers.processor_status, spec_dec_val(pre.memory.buffer@[spec_zp_x_ea(spec_op_b1(pre), pre.registers.index_x) as int])),
                ..pre.registers
            }))
        &&& (spec_store_rel(pre.memory, post.memory, spec_zp_x_ea(spec_op_b1(pre), pre.registers.index_x), spec_dec_val(pre.memory.buffer@[spec_zp_x_ea(spec_op_b1(pre), pre.registers.index_x) as int])))
    } else if op == 0xD7 {
        &&& (post.registers == spec_cmp_regs(pre.registers, spec_dec_val(pre.memory.buffer@[spec_zp_x_ea(spec_op_b1(pre), pre.registers.index_x) as int])))
        &&& (spec_store_rel(pre.memory, post.memory, spec_zp_x_ea(spec_op_b1(pre), pre.registers.index_x), spec_dec_val(pre.memory.buffer@[spec_zp_x_ea(spec_op_b1(pre), pre.registers.index_x) as int])))
    } else if op == 0xD8 {
        &&& (post.registers == (Registers {
                processor_status: pre.registers.processor_status & !FLAG_DECIMAL,
                ..pre.registers
            }))
        &&& (spec_mem_unchanged(pre.memory, post.memory))
    } else if op == 0xD9 {
        &&& (post.registers == spec_cmp_regs(pre.registers, spec_read_value(pre.memory, spec_abs_x_ea(spec_op_w(pre), pre.registers.index_y))))
        &&& (spec_read_rel(pre.memory, post.memory, spec_abs_x_ea(spec_op_w(pre), pre.registers.index_y)))
    } else if op == 0xDA {
        &&& (post.registers == pre.registers)
        &&& (spec_mem_unchanged(pre.memory, post.memory))
    } else if op == 0xDB {
        &&& ((!spec_is_mmio(spec_abs_x_ea(spec_op_w(pre), pre.registers.index_y))) ==> {
                &&& post.registers == spec_cmp_regs(pre.registers, spec_dec_val(pre.memory.buffer@[(spec_abs_x_ea(spec_op_w(pre), pre.registers.index_y)) as int]))
                &&& spec_store_rel(pre.memory, post.memory, spec_abs_x_ea(spec_op_w(pre), pre.registers.index_y), spec_dec_val(pre.memory.buffer@[(spec_abs_x_ea(spec_op_w(pre), pre.registers.index_y)) as int]))
            })
    } else if op == 0xDC {
        &&& (post.registers == pre.registers)
        &&& (spec_mem_unchanged(pre.memory, post.memory))
    } else if op == 0xDD {
        &&& (post.registers == spec_cmp_regs(pre.registers, spec_read_value(pre.memory, spec_abs_x_ea(spec_op_w(pre), pre.registers.index_x))))
        &&& (spec_read_rel(pre.memory, post.memory, spec_abs_x_ea(spec_op_w(pre), pre.registers.index_x)))
    } else if op == 0xDE {
        &&& (post.registers == (Registers {
                processor_status: spec_nz(pre.registers.processor_status, spec_dec_val(spec_read_value(pre.memory, spec_abs_x_ea(spec_op_w(pre), pre.registers.index_x)))),
                ..pre.registers
            }))
        &&& (spec_store_rel_x(pre.memory, spec_read_regs_x(pre.memory, pre.memory.ppu.regs, spec_abs_x_ea(spec_op_w(pre), pre.registers.index_x)), spec_read_input_x(pre.memory.input, spec_abs_x_ea(spec_op_w(pre), pre.registers.index_x)), post.memory, spec_abs_x_ea(spec_op_w(pre), pre.registers.index_x), spec_dec_val(spec_read_value(pre.memory, spec_abs_x_ea(spec_op_w(pre), pre.registers.index_x)))))
    } else {
        &&& ((!spec_is_mmio(spec_abs_x_ea(spec_op_w(pre), pre.registers.index_x))) ==> {
                &&& post.registers == spec_cmp_regs(pre.registers, spec_dec_val(pre.memory.buffer@[(spec_abs_x_ea(spec_op_w(pre), pre.registers.index_x)) as int]))
                &&& spec_store_rel(pre.memory, post.memory, spec_abs_x_ea(spec_op_w(pre), pre.registers.index_x), spec_dec_val(pre.memory.buffer@[(spec_abs_x_ea(spec_op_w(pre), pre.registers.index_x)) as int]))
            })
    }
}

/// The cycles each of the opcodes $C0-$DF charges.
pub open spec fn spec_step_cycles_g6(pre: Cpu, op: u8) -> u8 {
    if op == 0xC0 {
        2
    } else if op == 0xC1 {
        6
    } else if op == 0xC2 {
        0
    } else if op == 0xC3 {
        8
    } else if op == 0xC4 {
        3
    } else if op == 0xC5 {
        3
    } else if op == 0xC6 {
        5
    } else if op == 0xC7 {
        5
    } else if op == 0xC8 {
        2
    } else if op == 0xC9 {
        2
    } else if op == 0xCA {
        2
    } else if op == 0xCB {
        0
    } else if op == 0xCC {
        4
    } else if op == 0xCD {
        4
    } else if op == 0xCE {
        6
    } else if op == 0xCF {
        6
    } else if op == 0xD0 {
        spec_branch_cycles(
                pre.registers.program_counter,
                spec_op_b1(pre),
                pre.registers.processor_status & FLAG_ZERO == 0,
            )
    } else if op == 0xD1 {
        5
    } else if op == 0xD2 {
        0
    } else if op == 0xD3 {
        8
    } else if op == 0xD4 {
        0
    } else if op == 0xD5 {
        4
    } else if op == 0xD6 {
        6
    } else if op == 0xD7 {
        6
    } else if op == 0xD8 {
        2
    } else if op == 0xD9 {
        4
    } else if op == 0xDA {
        0
    } else if op == 0xDB {
        7
    } else if op == 0xDC {
        0
    } else if op == 0xDD {
        4
    } else if op == 0xDE {
        7
    } else {
        7
    }
}

/// The per-opcode effect of the dispatcher on registers and the bus,
/// before the program counter advance, for opcodes $E0-$FF: each case
/// restates the handler's own contract with the operand bytes read from
/// under the program counter.
pub open spec fn spec_step_effect_g7(pre: Cpu, post: Cpu, op: u8) -> bool {
    if op == 0xE0 {
        &&& (post.registers == spec_cpx_regs(pre.registers, spec_op_b1(pre)))
        &&& (spec_mem_unchanged(pre.memory, post.memory))
    } else if op == 0xE1 {
        &&& (post.registers == spec_sbc_regs(pre.registers, spec_read_value(pre.memory, spec_ind_x_ea(pre.memory.buffer@, spec_op_b1(pre), pre.registers.index_x))))
        &&& (spec_read_rel(pre.memory, post.memory, spec_ind_x_ea(pre.memory.buffer@, spec_op_b1(pre), pre.registers.index_x)))
    } else if op == 0xE2 {
        &&& (post.registers == pre.registers)
        &&& (spec_mem_unchanged(pre.memory, post.memory))
    } else if op == 0xE3 {
        &&& ((!spec_is_mmio(spec_ind_x_ea(pre.memory.buffer@, spec_op_b1(pre), pre.registers.index_x)) && spec_ind_x_ea(pre.memory.buffer@, spec_op_b1(pre), pre.registers.index_x) != spec_ind_x_lo_ptr(spec_op_b1(pre), pre.registers.index_x) as u16 && spec_ind_x_ea(pre.memory.buffer@, spec_op_b1(pre), pre.registers.index_x) != vstd::wrapping::u8_specs::wrapping_add(spec_ind_x_lo_ptr(spec_op_b1(pre), pre.registers.index_x), 1) as u16) ==> {
                &&& post.registers == spec_sbc_regs(pre.registers, spec_inc_val(pre.memory.buffer@[(spec_ind_x_ea(pre.memory.buffer@, spec_op_b1(pre), pre.registers.index_x)) as int]))
                &&& spec_store_rel(pre.memory, post.memory, spec_ind_x_ea(pre.memory.buffer@, spec_op_b1(pre), pre.registers.index_x), spec_inc_val(pre.memory.buffer@[(spec_ind_x_ea(pre.memory.buffer@, spec_op_b1(pre), pre.registers.index_x)) as int]))
            })
    } else if op == 0xE4 {
        &&& (post.registers == spec_cpx_regs(pre.registers, pre.memory.buffer@[spec_op_b1(pre) as int]))
        &&& (spec_mem_unchanged(pre.memory, post.memory))
    } else if op == 0xE5 {
        &&& (post.registers == spec_sbc_regs(pre.registers, pre.memory.buffer@[spec_op_b1(pre) as int]))
        &&& (spec_mem_unchanged(pre.memory, post.memory))
    } else if op == 0xE6 {
        &&& (post.registers == (Registers {
                processor_status: spec_nz(pre.registers.processor_status, spec_inc_val(pre.memory.buffer@[spec_op_b1(pre) as int])),
                ..pre.registers
            }))
        &&& (spec_store_rel(pre.memory, post.memory, spec_op_b1(pre) as u16, spec_inc_val(pre.memory.buffer@[spec_op_b1(pre) as int])))
    } else if op == 0xE7 {
        &&& (post.registers == spec_sbc_regs(pre.registers, spec_inc_val(pre.memory.buffer@[spec_op_b1(pre) as int])))
        &&& (spec_store_rel(pre.memory, post.memory, spec_op_b1(pre) as u16, spec_inc_val(pre.memory.buffer@[spec_op_b1(pre) as int])))
    } else if op == 0xE8 {
        &&& (post.registers == spec_ldx_regs(
                pre.registers,
                spec_inc_val(pre.registers.index_x),
            ))
        &&& (spec_mem_unchanged(pre.memory, post.memory))
    } else if op == 0xE9 {
        &&& (post.registers == spec_sbc_regs(pre.registers, spec_op_b1(pre)))
        &&& (spec_mem_unchanged(pre.memory, post.memory))
    } else if op == 0xEA {
        &&& (post.registers == pre.registers)
        &&& (spec_mem_unchanged(pre.memory, post.memory))
    } else if op == 0xEB {
        &&& (post.registers == spec_sbc_regs(pre.registers, spec_op_b1(pre)))
        &&& (spec_mem_unchanged(pre.memory, post.memory))
    } else if op == 0xEC {
        &&& (post.registers == spec_cpx_regs(pre.registers, spec_read_value(pre.memory, spec_op_w(pre))))
        &&& (spec_read_rel(pre.memory, post.memory, spec_op_w(pre)))
    } else if op == 0xED {
        &&& (post.registers == spec_sbc_regs(pre.registers, spec_read_value(pre.memory, spec_op_w(pre))))
        &&& (spec_read_rel(pre.memory, post.memory, spec_op_w(pre)))
    } else if op == 0xEE {
        &&& (post.registers == (Registers {
                processor_status: spec_nz(pre.registers.processor_status, spec_inc_val(spec_read_value(pre.memory, spec_op_w(pre)))),
                ..pre.registers
            }))
        &&& (spec_store_rel_x(pre.memory, spec_read_regs_x(pre.memory, pre.memory.ppu.regs, spec_op_w(pre)), spec_read_input_x(pre.memory.input, spec_op_w(pre)), post.memory, spec_op_w(pre), spec_inc_val(spec_read_value(pre.memory, spec_op_w(pre)))))
    } else if op == 0xEF {
        &&& ((!spec_is_mmio(spec_op_w(pre))) ==> {
                &&& post.registers == spec_sbc_regs(pre.registers, spec_inc_val(pre.memory.buffer@[(spec_op_w(pre)) as int]))
                &&& spec_store_rel(pre.memory, post.memory, spec_op_w(pre), spec_inc_val(pre.memory.buffer@[(spec_op_w(pre)) as int]))
            })
    } else if op == 0xF0 {
        &&& (post.registers == (if pre.registers.processor_status & FLAG_ZERO != 0 {
                Registers {
                    program_counter: spec_branch_target(pre.registers.program_counter, spec_op_b1(pre)),
                    ..pre.registers
                }
            } else {
                pre.registers
            }))
        &&& (spec_mem_unchanged(pre.memory, post.memory))
    } else if op == 0xF1 {
        &&& (post.registers == spec_sbc_regs(pre.registers, spec_read_value(pre.memory, spec_ind_y_ea(pre.memory.buffer@, spec_op_b1(pre), pre.registers.index_y))))
        &&& (spec_read_rel(pre.memory, post.memory, spec_ind_y_ea(pre.memory.buffer@, spec_op_b1(pre), pre.registers.index_y)))
    } else if op == 0xF2 {
        &&& (post.registers == pre.registers)
        &&& (spec_mem_unchanged(pre.memory, post.memory))
    } else if op == 0xF3 {
        &&& ((!spec_is_mmio(spec_ind_y_ea(pre.memory.buffer@, spec_op_b1(pre), pre.registers.index_y)) && spec_ind_y_ea(pre.memory.buffer@, spec_op_b1(pre), pre.registers.index_y) != spec_op_b1(pre) as u16 && spec_ind_y_ea(pre.memory.buffer@, spec_op_b1(pre), pre.registers.index_y) != vstd::wrapping::u8_specs::wrapping_add(spec_op_b1(pre), 1) as u16) ==> {
                &&& post.registers == spec_sbc_regs(pre.registers, spec_inc_val(pre.memory.buffer@[(spec_ind_y_ea(pre.memory.buffer@, spec_op_b1(pre), pre.registers.index_y)) as int]))
                &&& spec_store_rel(pre.memory, post.memory, spec_ind_y_ea(pre.memory.buffer@, spec_op_b1(pre), pre.registers.index_y), spec_inc_val(pre.memory.buffer@[(spec_ind_y_ea(pre.memory.buffer@, spec_op_b1(pre), pre.registers.index_y)) as int]))
            })
    } else if op == 0xF4 {
        &&& (post.registers == pre.registers)
        &&& (spec_mem_unchanged(pre.memory, post.memory))
    } else if op == 0xF5 {
        &&& (post.registers == spec_sbc_regs(pre.registers, pre.memory.buffer@[spec_zp_x_ea(spec_op_b1(pre), pre.registers.index_x) as int]))
        &&& (spec_mem_unchanged(pre.memory, post.memory))
    } else if op == 0xF6 {
        &&& (post.registers == (Registers {
                processor_status: spec_nz(pre.registers.processor_status, spec_inc_val(pre.memory.buffer@[spec_zp_x_ea(spec_op_b1(pre), pre.registers.index_x) as int])),
                ..pre.registers
            }))
        &&& (spec_store_rel(pre.memory, post.memory, spec_zp_x_ea(spec_op_b1(pre), pre.registers.index_x), spec_inc_val(pre.memory.buffer@[spec_zp_x_ea(spec_op_b1(pre), pre.registers.index_x) as int])))
    } else if op == 0xF7 {
        &&& (post.registers == spec_sbc_regs(pre.registers, spec_inc_val(pre.memory.buffer@[spec_zp_x_ea(spec_op_b1(pre), pre.registers.index_x) as int])))
        &&& (spec_store_rel(pre.memory, post.memory, spec_zp_x_ea(spec_op_b1(pre), pre.registers.index_x), spec_inc_val(pre.memory.buffer@[spec_zp_x_ea(spec_op_b1(pre), pre.registers.index_x) as int])))
    } else if op == 0xF8 {
        &&& (post.registers == (Registers {
                processor_status: pre.registers.processor_status | FLAG_DECIMAL,
                ..pre.registers
            }))
        &&& (spec_mem_unchanged(pre.memory, post.memory))
    } else if op == 0xF9 {
        &&& (post.registers == spec_sbc_regs(pre.registers, spec_read_value(pre.memory, spec_abs_x_ea(spec_op_w(pre), pre.registers.index_y))))
        &&& (spec_read_rel(pre.memory, post.memory, spec_abs_x_ea(spec_op_w(pre), pre.registers.index_y)))
    } else if op == 0xFA {
        &&& (post.registers == pre.registers)
        &&& (spec_mem_unchanged(pre.memory, post.memory))
    } else if op == 0xFB {
        &&& ((!spec_is_mmio(spec_abs_x_ea(spec_op_w(pre), pre.registers.index_y))) ==> {
                &&& post.registers == spec_sbc_regs(pre.registers, spec_inc_val(pre.memory.buffer@[(spec_abs_x_ea(spec_op_w(pre), pre.registers.index_y)) as int]))
                &&& spec_store_rel(pre.memory, post.memory, spec_abs_x_ea(spec_op_w(pre), pre.registers.index_y), spec_inc_val(pre.memory.buffer@[(spec_abs_x_ea(spec_op_w(pre), pre.registers.index_y)) as int]))
            })
    } else if op == 0xFC {
        &&& (post.registers == pre.registers)
        &&& (spec_mem_unchanged(pre.memory, post.memory))
    } else if op == 0xFD {
        &&& (post.registers == spec_sbc_regs(pre.registers, spec_read_value(pre.memory, spec_abs_x_ea(spec_op_w(pre), pre.registers.index_x))))
        &&& (spec_read_rel(pre.memory, post.memory, spec_abs_x_ea(spec_op_w(pre), pre.registers.index_x)))
    } else if op == 0xFE {
        &&& (post.registers == (Registers {
                processor_status: spec_nz(pre.registers.processor_status, spec_inc_val(spec_read_value(pre.memory, spec_abs_x_ea(spec_op_w(pre), pre.registers.index_x)))),
                ..pre.registers
            }))
        &&& (spec_store_rel_x(pre.memory, spec_read_regs_x(pre.memory, pre.memory.ppu.regs, spec_abs_x_ea(spec_op_w(pre), pre.registers.index_x)), spec_read_input_x(pre.memory.input, spec_abs_x_ea(spec_op_w(pre), pre.registers.index_x)), post.memory, spec_abs_x_ea(spec_op_w(pre), pre.registers.index_x), spec_inc_val(spec_read_value(pre.memory, spec_abs_x_ea(spec_op_w(pre), pre.registers.index_x)))))
    } else {
        &&& ((!spec_is_mmio(spec_abs_x_ea(spec_op_w(pre), pre.registers.index_x))) ==> {
                &&& post.registers == spec_sbc_regs(pre.registers, spec_inc_val(pre.memory.buffer@[(spec_abs_x_ea(spec_op_w(pre), pre.registers.index_x)) as int]))
                &&& spec_store_rel(pre.memory, post.memory, spec_abs_x_ea(spec_op_w(pre), pre.registers.index_x), spec_inc_val(pre.memory.buffer@[(spec_abs_x_ea(spec_op_w(pre), pre.registers.index_x)) as int]))
            })
    }
}

/// The cycles each of the opcodes $E0-$FF charges.
pub open spec fn spec_step_cycles_g7(pre: Cpu, op: u8) -> u8 {
    if op == 0xE0 {
        2
    } else if op == 0xE1 {
        6
    } else if op == 0xE2 {
        0
    } else if op == 0xE3 {
        8
    } else if op == 0xE4 {
        3
    } else if op == 0xE5 {
        3
    } else if op == 0xE6 {
        5
    } else if op == 0xE7 {
        5
    } else if op == 0xE8 {
        2
    } else if op == 0xE9 {
        2
    } else if op == 0xEA {
        2
    } else if op == 0xEB {
        2
    } else if op == 0xEC {
        4
    } else if op == 0xED {
        4
    } else if op == 0xEE {
        6
    } else if op == 0xEF {
        6
    } else if op == 0xF0 {
        spec_branch_cycles(
                pre.registers.program_counter,
                spec_op_b1(pre),
                pre.registers.processor_status & FLAG_ZERO != 0,
            )
    } else if op == 0xF1 {
        5
    } else if op == 0xF2 {
        0
    } else if op == 0xF3 {
        8
    } else if op == 0xF4 {
        0
    } else if op == 0xF5 {
        4
    } else if op == 0xF6 {
        6
    } else if op == 0xF7 {
        6
    } else if op == 0xF8 {
        2
    } else if op == 0xF9 {
        4
    } else if op == 0xFA {
        0
    } else if op == 0xFB {
        7
    } else if op == 0xFC {
        0
    } else if op == 0xFD {
        4
    } else if op == 0xFE {
        7
    } else {
        7
    }
}

/// The per-opcode effect of the dispatcher on registers and the bus,
/// before the program counter advance and the cycle charge.
pub open spec fn spec_step_effect(pre: Cpu, post: Cpu, op: u8) -> bool {
    if op < 0x20 {
        spec_step_effect_g0(pre, post, op)
    } else if op < 0x40 {
        spec_step_effect_g1(pre, post, op)
    } else if op < 0x60 {
        spec_step_effect_g2(pre, post, op)
    } else if op < 0x80 {
        spec_step_effect_g3(pre, post, op)
    } else if op < 0xA0 {
        spec_step_effect_g4(pre, post, op)
    } else if op < 0xC0 {
        spec_step_effect_g5(pre, post, op)
    } else if op < 0xE0 {
        spec_step_effect_g6(pre, post, op)
    } else {
        spec_step_effect_g7(pre, post, op)
    }
}

/// The cycles each opcode charges, over the pre-instruction state (taken
/// branches pay for the branch and any page cross).
pub open spec fn spec_step_cycles(pre: Cpu, op: u8) -> u8 {
    if op < 0x20 {
        spec_step_cycles_g0(pre, op)
    } else if op < 0x40 {
        spec_step_cycles_g1(pre, op)
    } else if op < 0x60 {
        spec_step_cycles_g2(pre, op)
    } else if op < 0x80 {
        spec_step_cycles_g3(pre, op)
    } else if op < 0xA0 {
        spec_step_cycles_g4(pre, op)
    } else if op < 0xC0 {
        spec_step_cycles_g5(pre, op)
    } else if op < 0xE0 {
        spec_step_cycles_g6(pre, op)
    } else {
        spec_step_cycles_g7(pre, op)
    }
}

/// One instruction step: when the instruction's bytes sit on plain RAM,
/// the machine performs exactly the fetched opcode's specified effect,
/// then advances the program counter by the opcode length and charges the
/// opcode's cycles plus any pending OAM DMA stall, which it consumes.
pub open spec fn spec_step_rel(pre: Cpu, post: Cpu) -> bool {
    spec_operands_plain(pre) ==> ({
        let op = pre.memory.buffer@[pre.registers.program_counter as int];
        let len = spec_opcode_len(op);
        let cyc = spec_step_cycles(pre, op);
        let stall = post.num_cycles - pre.num_cycles - cyc;
        let mid = Cpu {
            registers: Registers {
                program_counter: vstd::wrapping::u16_specs::wrapping_sub(
                    post.registers.program_counter,
                    len as u16,
                ),
                ..post.registers
            },
            num_cycles: pre.num_cycles,
            memory: Memory { dma_stall: stall as usize, ..post.memory },
        };
        &&& 0 <= stall <= 513
        &&& spec_step_effect(pre, mid, op)
        &&& post.registers.program_counter == vstd::wrapping::u16_specs::wrapping_add(
            mid.registers.program_counter,
            len as u16,
        )
    })
}

/// Bytes the dispatcher advances the program counter by after each opcode:
/// 0 for the control-flow instructions that set it themselves, otherwise
/// the instruction length.
pub open spec fn spec_opcode_len_lo(op: u8) -> u8 {
    if op == 0x00 {
        0
    } else if op == 0x01 {
        2
    } else if op == 0x02 {
        1
    } else if op == 0x03 {
        2
    } else if op == 0x04 {
        2
    } else if op == 0x05 {
        2
    } else if op == 0x06 {
        2
    } else if op == 0x07 {
        2
    } else if op == 0x08 {
        1
    } else if op == 0x09 {
        2
    } else if op == 0x0A {
        1
    } else if op == 0x0B {
        2
    } else if op == 0x0C {
        3
    } else if op == 0x0D {
        3
    } else if op == 0x0E {
        3
    } else if op == 0x0F {
        3
    } else if op == 0x10 {
        2
    } else if op == 0x11 {
        2
    } else if op == 0x12 {
        1
    } else if op == 0x13 {
        2
    } else if op == 0x14 {
        2
    } else if op == 0x15 {
        2
    } else if op == 0x16 {
        2
    } else if op == 0x17 {
        2
    } else if op == 0x18 {
        1
    } else if op == 0x19 {
        3
    } else if op == 0x1A {
        1
    } else if op == 0x1B {
        3
    } else if op == 0x1C {
        3
    } else if op == 0x1D {
        3
    } else if op == 0x1E {
        3
    } else if op == 0x1F {
        3
    } else if op == 0x20 {
        0
    } else if op == 0x21 {
        2
    } else if op == 0x22 {
        1
    } else if op == 0x23 {
        2
    } else if op == 0x24 {
        2
    } else if op == 0x25 {
        2
    } else if op == 0x26 {
        2
    } else if op == 0x27 {
        2
    } else if op == 0x28 {
        1
    } else if op == 0x29 {
        2
    } else if op == 0x2A {
        1
    } else if op == 0x2B {
        2
    } else if op == 0x2C {
        3
    } else if op == 0x2D {
        3
    } else if op == 0x2E {
        3
    } else if op == 0x2F {
        3
    } else if op == 0x30 {
        2
    } else if op == 0x31 {
        2
    } else if op == 0x32 {
        1
    } else if op == 0x33 {
        2
    } else if op == 0x34 {
        2
    } else if op == 0x35 {
        2
    } else if op == 0x36 {
        2
    } else if op == 0x37 {
        2
    } else if op == 0x38 {
        1
    } else if op == 0x39 {
        3
    } else if op == 0x3A {
        1
    } else if op == 0x3B {
        3
    } else if op == 0x3C {
        3
    } else if op == 0x3D {
        3
    } else if op == 0x3E {
        3
    } else if op == 0x3F {
        3
    } else if op == 0x40 {
        0
    } else if op == 0x41 {
        2
    } else if op == 0x42 {
        1
    } else if op == 0x43 {
        2
    } else if op == 0x44 {
        2
    } else if op == 0x45 {
        2
    } else if op == 0x46 {
        2
    } else if op == 0x47 {
        2
    } else if op == 0x48 {
        1
    } else if op == 0x49 {
        2
    } else if op == 0x4A {
        1
    } else if op == 0x4B {
        2
    } else if op == 0x4C {
        0
    } else if op == 0x4D {
        3
    } else if op == 0x4E {
        3
    } else if op == 0x4F {
        3
    } else if op == 0x50 {
        2
    } else if op == 0x51 {
        2
    } else if op == 0x52 {
        1
    } else if op == 0x53 {
        2
    } else if op == 0x54 {
        2
    } else if op == 0x55 {
        2
    } else if op == 0x56 {
        2
    } else if op == 0x57 {
        2
    } else if op == 0x58 {
        1
    } else if op == 0x59 {
        3
    } else if op == 0x5A {
        1
    } else if op == 0x5B {
        3
    } else if op == 0x5C {
        3
    } else if op == 0x5D {
        3
    } else if op == 0x5E {
        3
    } else if op == 0x5F {
        3
    } else if op == 0x60 {
        1
    } else if op == 0x61 {
        2
    } else if op == 0x62 {
        1
    } else if op == 0x63 {
        2
    } else if op == 0x64 {
        2
    } else if op == 0x65 {
        2
    } else if op == 0x66 {
        2
    } else if op == 0x67 {
        2
    } else if op == 0x68 {
        1
    } else if op == 0x69 {
        2
    } else if op == 0x6A {
        1
    } else if op == 0x6B {
        2
    } else if op == 0x6C {
        0
    } else if op == 0x6D {
        3
    } else if op == 0x6E {
        3
    } else if op == 0x6F {
        3
    } else if op == 0x70 {
        2
    } else if op == 0x71 {
        2
    } else if op == 0x72 {
        1
    } else if op == 0x73 {
        2
    } else if op == 0x74 {
        2
    } else if op == 0x75 {
        2
    } else if op == 0x76 {
        2
    } else if op == 0x77 {
        2
    } else if op == 0x78 {
        1
    } else if op == 0x79 {
        3
    } else if op == 0x7A {
        1
    } else if op == 0x7B {
        3
    } else if op == 0x7C {
        3
    } else if op == 0x7D {
        3
    } else if op == 0x7E {
        3
    } else {
        3
    }
}

/// Continuation of the opcode-length table for opcodes $80 and up.
pub open spec fn spec_opcode_len_hi(op: u8) -> u8 {
    if op == 0x80 {
        2
    } else if op == 0x81 {
        2
    } else if op == 0x82 {
        2
    } else if op == 0x83 {
        2
    } else if op == 0x84 {
        2
    } else if op == 0x85 {
        2
    } else if op == 0x86 {
        2
    } else if op == 0x87 {
        2
    } else if op == 0x88 {
        1
    } else if op == 0x89 {
        2
    } else if op == 0x8A {
        1
    } else if op == 0x8B {
        2
    } else if op == 0x8C {
        3
    } else if op == 0x8D {
        3
    } else if op == 0x8E {
        3
    } else if op == 0x8F {
        3
    } else if op == 0x90 {
        2
    } else if op == 0x91 {
        2
    } else if op == 0x92 {
        1
    } else if op == 0x93 {
        2
    } else if op == 0x94 {
        2
    } else if op == 0x95 {
        2
    } else if op == 0x96 {
        2
    } else if op == 0x97 {
        2
    } else if op == 0x98 {
        1
    } else if op == 0x99 {
        3
    } else if op == 0x9A {
        1
    } else if op == 0x9B {
        3
    } else if op == 0x9C {
        3
    } else if op == 0x9D {
        3
    } else if op == 0x9E {
        3
    } else if op == 0x9F {
        3
    } else if op == 0xA0 {
        2
    } else if op == 0xA1 {
        2
    } else if op == 0xA2 {
        2
    } else if op == 0xA3 {
        2
    } else if op == 0xA4 {
        2
    } else if op == 0xA5 {
        2
    } else if op == 0xA6 {
        2
    } else if op == 0xA7 {
        2
    } else if op == 0xA8 {
        1
    } else if op == 0xA9 {
        2
    } else if op == 0xAA {
        1
    } else if op == 0xAB {
        2
    } else if op == 0xAC {
        3
    } else if op == 0xAD {
        3
    } else if op == 0xAE {
        3
    } else if op == 0xAF {
        3
    } else if op == 0xB0 {
        2
    } else if op == 0xB1 {
        2
    } else if op == 0xB2 {
        1
    } else if op == 0xB3 {
        2
    } else if op == 0xB4 {
        2
    } else if op == 0xB5 {
        2
    } else if op == 0xB6 {
        2
    } else if op == 0xB7 {
        2
    } else if op == 0xB8 {
        1
    } else if op == 0xB9 {
        3
    } else if op == 0xBA {
        1
    } else if op == 0xBB {
        3
    } else if op == 0xBC {
        3
    } else if op == 0xBD {
        3
    } else if op == 0xBE {
        3
    } else if op == 0xBF {
        3
    } else if op == 0xC0 {
        2
    } else if op == 0xC1 {
        2
    } else if op == 0xC2 {
        2
    } else if op == 0xC3 {
        2
    } else if op == 0xC4 {
        2
    } else if op == 0xC5 {
        2
    } else if op == 0xC6 {
        2
    } else if op == 0xC7 {
        2
    } else if op == 0xC8 {
        1
    } else if op == 0xC9 {
        2
    } else if op == 0xCA {
        1
    } else if op == 0xCB {
        2
    } else if op == 0xCC {
        3
    } else if op == 0xCD {
        3
    } else if op == 0xCE {
        3
    } else if op == 0xCF {
        3
    } else if op == 0xD0 {
        2
    } else if op == 0xD1 {
        2
    } else if op == 0xD2 {
        1
    } else if op == 0xD3 {
        2
    } else if op == 0xD4 {
        2
    } else if op == 0xD5 {
        2
    } else if op == 0xD6 {
        2
    } else if op == 0xD7 {
        2
    } else if op == 0xD8 {
        1
    } else if op == 0xD9 {
        3
    } else if op == 0xDA {
        1
    } else if op == 0xDB {
        3
    } else if op == 0xDC {
        3
    } else if op == 0xDD {
        3
    } else if op == 0xDE {
        3
    } else if op == 0xDF {
        3
    } else if op == 0xE0 {
        2
    } else if op == 0xE1 {
        2
    } else if op == 0xE2 {
        2
    } else if op == 0xE3 {
        2
    } else if op == 0xE4 {
        2
    } else if op == 0xE5 {
        2
    } else if op == 0xE6 {
        2
    } else if op == 0xE7 {
        2
    } else if op == 0xE8 {
        1
    } else if op == 0xE9 {
        2
    } else if op == 0xEA {
        1
    } else if op == 0xEB {
        2
    } else if op == 0xEC {
        3
    } else if op == 0xED {
        3
    } else if op == 0xEE {
        3
    } else if op == 0xEF {
        3
    } else if op == 0xF0 {
        2
    } else if op == 0xF1 {
        2
    } else if op == 0xF2 {
        1
    } else if op == 0xF3 {
        2
    } else if op == 0xF4 {
        2
    } else if op == 0xF5 {
        2
    } else if op == 0xF6 {
        2
    } else if op == 0xF7 {
        2
    } else if op == 0xF8 {
        1
    } else if op == 0xF9 {
        3
    } else if op == 0xFA {
        1
    } else if op == 0xFB {
        3
    } else if op == 0xFC {
        3
    } else if op == 0xFD {
        3
    } else if op == 0xFE {
        3
    } else {
        3
    }
}

/// Bytes the dispatcher advances the program counter by after an opcode.
pub open spec fn spec_opcode_len(op: u8) -> u8 {
    if op < 0x80 {
        spec_opcode_len_lo(op)
    } else {
        spec_opcode_len_hi(op)
    }
}

/// A core matches a test vector's expected state when the registers agree
/// (with the unused status bit forced to 1 on both sides) and every listed
/// RAM cell holds its expected byte.
pub open spec fn spec_state_matches(c: Cpu, state: CpuTestState) -> bool {
    &&& c.registers.stack_pointer == state.s
    &&& c.registers.accumulator == state.a
    &&& c.registers.index_x == state.x
    &&& c.registers.index_y == state.y
    &&& (c.registers.processor_status | FLAG_UNUSED) == (state.p | FLAG_UNUSED)
    &&& c.registers.program_counter == state.pc
    &&& forall|j: int|
        0 <= j < state.ram@.len() ==> c.memory.buffer@[(#[trigger] state.ram@[j]).0 as int]
            == state.ram@[j].1
}

impl Cpu {
    /// Advances emulation until the vertical blank begins: per scanline the
    /// CPU runs 113 cycles (one third of the 341 PPU dots) and the PPU
    /// processes one scanline; when the blank starts, the non-maskable
    /// interrupt is serviced if PPUCTRL enables it, and the frame is done.
    pub fn run_frame(&mut self)
        requires
            old(self).wf(),
            old(self).num_cycles + 200000 <= usize::MAX,
            old(self).memory.ppu.regs.num_cycles + 90000 <= usize::MAX,
        ensures
            final(self).wf(),
            final(self).memory.ppu.regs.num_cycles >= old(self).memory.ppu.regs.num_cycles + 341,
            final(self).memory.ppu.regs.num_cycles <= old(self).memory.ppu.regs.num_cycles + 262
                * 341,
            final(self).memory.ppu.regs.vblank_started || final(self).memory.ppu.regs.num_cycles
                == old(self).memory.ppu.regs.num_cycles + 262 * 341,
            (final(self).memory.ppu.regs.vblank_started
                && final(self).memory.ppu.regs.generate_nmi)
                ==> final(self).registers.processor_status & FLAG_INTERRUPT_DISABLE != 0,
    {
        let mut k: usize = 0;
        while k < 262
            invariant_except_break
                self.num_cycles <= old(self).num_cycles + k * 634,
                self.memory.ppu.regs.num_cycles == old(self).memory.ppu.regs.num_cycles + k * 341,
                k > 0 ==> !self.memory.ppu.regs.vblank_started,
            invariant
                self.wf(),
                old(self).num_cycles + 200000 <= usize::MAX,
                old(self).memory.ppu.regs.num_cycles + 90000 <= usize::MAX,
                self.memory.ppu.regs.num_cycles >= old(self).memory.ppu.regs.num_cycles,
                self.memory.ppu.regs.num_cycles <= old(self).memory.ppu.regs.num_cycles + 262
                    * 341,
                k > 0 ==> self.memory.ppu.regs.num_cycles >= old(
                    self,
                ).memory.ppu.regs.num_cycles + 341,
                k <= 262,
            ensures
                self.memory.ppu.regs.num_cycles >= old(self).memory.ppu.regs.num_cycles + 341,
                self.memory.ppu.regs.num_cycles <= old(self).memory.ppu.regs.num_cycles + 262
                    * 341,
                self.memory.ppu.regs.vblank_started || self.memory.ppu.regs.num_cycles == old(
                    self,
                ).memory.ppu.regs.num_cycles + 262 * 341,
                (self.memory.ppu.regs.vblank_started && self.memory.ppu.regs.generate_nmi)
                    ==> self.registers.processor_status & FLAG_INTERRUPT_DISABLE != 0,
                self.wf(),
            decreases 262 - k,
        {
            self.tick(113);
            self.memory.ppu.tick();
            if self.memory.ppu.regs.vblank_started {
                if self.memory.ppu.regs.generate_nmi {
                    let p_before = self.registers.processor_status;
                    self.generate_nmi();
                    proof {
                        assert((p_before | 0x04) & 0x04 == 0x04) by (bit_vector);
                    }
                }
                proof {
                    assert(self.memory.ppu.regs.num_cycles >= old(
                        self,
                    ).memory.ppu.regs.num_cycles + 341);
                    assert(self.memory.ppu.regs.vblank_started);
                }
                break ;
            }
            k = k + 1;
        }
    }
}

/// The unused status bit reads as 1 whenever the status byte is pushed:
/// BRK and PHP push it with break and unused forced to 1, and an interrupt
/// pushes it with unused forced to 1 and break clear. This holds for every
/// status-byte value.
pub proof fn lemma_status_push_sets_unused(p: u8)
    ensures
        (p | 0x30) & FLAG_UNUSED == FLAG_UNUSED,
        ((p | FLAG_UNUSED) & !FLAG_BREAK) & FLAG_UNUSED == FLAG_UNUSED,
{
    assert((p | 0x30) & 0x20 == 0x20) by (bit_vector);
    assert(((p | 0x20) & !0x10) & 0x20 == 0x20) by (bit_vector);
}

/// Pushing a byte and then popping restores the stack pointer and returns
/// the byte: the pointer wraps modulo 256 in both directions, and the pop
/// reads the very cell the push wrote. The stack pointer is a byte, so it
/// is always within [0, 255].
pub proof fn lemma_stack_push_pop_identity(sp: u8, buffer: Seq<u8>, v: u8)
    requires
        buffer.len() == 0x10000,
    ensures
        ({
            let pushed = buffer.update(spec_stack_addr(sp), v);
            let sp_after_push = vstd::wrapping::u8_specs::wrapping_sub(sp, 1);
            let sp_after_pop = vstd::wrapping::u8_specs::wrapping_add(sp_after_push, 1);
            sp_after_pop == sp && pushed[spec_stack_addr(sp_after_pop)] == v
        }),
{
}

} // verus!
