use nemsys::cpu::jsontest::{CpuTestState, MemTest};
use nemsys::cpu::memory::KeyboardController;
use nemsys::cpu::Cpu;
use nemsys::mappers::{CartridgeError, Mapper, NROM};
use nemsys::ppu::memory::VRAM;
use nemsys::ppu::{NametableArrangement, PPU};
use nemsys::utils::{get_bit, set_bit, unset_bit};

fn boot() -> Cpu {
    Cpu::new(PPU::new())
}

#[test]
fn lda_immediate_zero() {
    let mut cpu = boot();
    cpu.registers.accumulator = 0xFF;
    cpu.registers.processor_status = 0x24;
    cpu.registers.program_counter = 0x8000;
    cpu.memory.buffer[0x8000] = 0xA9;
    cpu.memory.buffer[0x8001] = 0x00;
    cpu.tick_ins();
    assert_eq!(cpu.registers.accumulator, 0x00);
    assert_eq!(cpu.registers.processor_status & 0x02, 0x02); // Z set
    assert_eq!(cpu.registers.processor_status & 0x80, 0x00); // N clear
    assert_eq!(cpu.registers.processor_status, 0x26);
    assert_eq!(cpu.registers.program_counter, 0x8002);
    assert_eq!(cpu.num_cycles, 2);
}

#[test]
fn adc_overflow() {
    let mut cpu = boot();
    cpu.registers.accumulator = 0x50;
    cpu.registers.processor_status = 0x24; // carry clear
    cpu.registers.program_counter = 0x8000;
    cpu.memory.buffer[0x8000] = 0x69;
    cpu.memory.buffer[0x8001] = 0x50;
    cpu.tick_ins();
    assert_eq!(cpu.registers.accumulator, 0xA0);
    assert_eq!(cpu.registers.processor_status & 0x01, 0x00); // C clear
    assert_eq!(cpu.registers.processor_status & 0x40, 0x40); // V set
    assert_eq!(cpu.registers.processor_status & 0x80, 0x80); // N set
    assert_eq!(cpu.registers.processor_status & 0x02, 0x00); // Z clear
    assert_eq!(cpu.num_cycles, 2);
}

#[test]
fn indirect_jmp_page_wrap_bug() {
    let mut cpu = boot();
    cpu.registers.program_counter = 0x8000;
    cpu.memory.buffer[0x02FF] = 0x34;
    cpu.memory.buffer[0x0200] = 0x12;
    cpu.memory.buffer[0x0300] = 0x56;
    cpu.memory.buffer[0x8000] = 0x6C;
    cpu.memory.buffer[0x8001] = 0xFF;
    cpu.memory.buffer[0x8002] = 0x02;
    cpu.tick_ins();
    assert_eq!(cpu.registers.program_counter, 0x1234);
    assert_eq!(cpu.num_cycles, 5);
}

#[test]
fn branch_page_cross() {
    let mut cpu = boot();
    cpu.registers.program_counter = 0x00FE;
    cpu.registers.processor_status = 0x25; // carry set
    cpu.memory.buffer[0x00FE] = 0xB0;
    cpu.memory.buffer[0x00FF] = 0x02;
    cpu.tick_ins();
    assert_eq!(cpu.registers.program_counter, 0x0102);
    assert_eq!(cpu.num_cycles, 4);
}

#[test]
fn brk_rti_round_trip() {
    let mut cpu = boot();
    cpu.registers.program_counter = 0x8000;
    cpu.registers.processor_status = 0x24;
    cpu.memory.buffer[0xFFFE] = 0x00;
    cpu.memory.buffer[0xFFFF] = 0xC0;
    cpu.memory.buffer[0x8000] = 0x00; // BRK
    cpu.memory.buffer[0xC000] = 0x40; // RTI
    cpu.tick_ins();
    assert_eq!(cpu.registers.program_counter, 0xC000);
    assert_eq!(cpu.registers.processor_status & 0x04, 0x04); // I set
    assert_eq!(cpu.memory.buffer[0x01FD], 0x80); // PCH
    assert_eq!(cpu.memory.buffer[0x01FC], 0x02); // PCL
    assert_eq!(cpu.memory.buffer[0x01FB], 0x24 | 0x30); // P with B and U
    cpu.tick_ins();
    assert_eq!(cpu.registers.program_counter, 0x8002);
    // B cleared, U forced 1
    assert_eq!(cpu.registers.processor_status, (0x24 | 0x20) & !0x10);
}

#[test]
fn oam_dma_latency() {
    let mut cpu = boot();
    cpu.registers.program_counter = 0x8000;
    cpu.registers.accumulator = 0x02;
    for k in 0..256usize {
        cpu.memory.buffer[0x0200 + k] = k as u8;
    }
    // STA $4014
    cpu.memory.buffer[0x8000] = 0x8D;
    cpu.memory.buffer[0x8001] = 0x14;
    cpu.memory.buffer[0x8002] = 0x40;
    cpu.tick_ins();
    for k in 0..256usize {
        assert_eq!(cpu.memory.ppu.oam.sprite_info[k], k as u8);
    }
    assert_eq!(cpu.num_cycles, 4 + 513);
}

#[test]
fn vblank_nmi() {
    let mut cpu = boot();
    cpu.memory.buffer[0xFFFA] = 0x00;
    cpu.memory.buffer[0xFFFB] = 0x90;
    cpu.memory.store_absolute(0x2000, 0x80); // PPUCTRL bit 7: NMI on
    assert!(cpu.memory.ppu.regs.generate_nmi);
    cpu.run_frame();
    assert!(cpu.memory.ppu.regs.is_vblank);
    assert_eq!(cpu.registers.program_counter, 0x9000);
    assert_eq!(cpu.registers.processor_status & 0x04, 0x04); // I set
}

#[test]
fn php_observes_unused_bit() {
    let mut cpu = boot();
    cpu.registers.program_counter = 0x8000;
    cpu.registers.processor_status = 0x04;
    cpu.memory.buffer[0x8000] = 0x08; // PHP
    cpu.tick_ins();
    let pushed = cpu.memory.buffer[0x01FD];
    assert_eq!(pushed & 0x20, 0x20); // U observed as 1
    assert_eq!(pushed & 0x10, 0x10); // B set by PHP
    assert_eq!(pushed, 0x34);
}

#[test]
fn stack_push_pop_identity() {
    let mut cpu = boot();
    cpu.registers.program_counter = 0x8000;
    cpu.registers.accumulator = 0x5A;
    cpu.memory.buffer[0x8000] = 0x48; // PHA
    cpu.memory.buffer[0x8001] = 0xA9; // LDA #$00
    cpu.memory.buffer[0x8002] = 0x00;
    cpu.memory.buffer[0x8003] = 0x68; // PLA
    let sp0 = cpu.registers.stack_pointer;
    cpu.tick_ins();
    cpu.tick_ins();
    cpu.tick_ins();
    assert_eq!(cpu.registers.accumulator, 0x5A);
    assert_eq!(cpu.registers.stack_pointer, sp0);
}

#[test]
fn ppustatus_read_resets_write_latch() {
    let mut cpu = boot();
    cpu.memory.store_absolute(0x2005, 0x17); // first scroll write: latch toggles
    assert!(cpu.memory.ppu.regs.w);
    let _status = cpu.memory.fetch_absolute(0x2002);
    assert!(!cpu.memory.ppu.regs.w); // back in first-write state
}

#[test]
fn ppudata_buffered_read() {
    let mut ppu = PPU::new();
    ppu.ppu_addr(0x20);
    ppu.ppu_addr(0x00);
    ppu.ppu_data_write(0xAB); // VRAM[$2000] = $AB, v advances
    ppu.ppu_addr(0x20);
    ppu.ppu_addr(0x00);
    let first = ppu.ppu_data_read();
    let second = ppu.ppu_data_read();
    assert_eq!(first, 0x00); // previous buffer contents
    assert_eq!(second, 0xAB); // refilled from VRAM[v before]
    assert_eq!(ppu.regs.v, 0x2002);
}

#[test]
fn palette_mirroring_both_ways() {
    let mut vram = VRAM::new();
    vram.set(0x3F10, 0x2A);
    assert_eq!(vram.get(0x3F00), 0x2A);
    vram.set(0x3F04, 0x15);
    assert_eq!(vram.get(0x3F14), 0x15);
    vram.set(0x3F18, 0x09);
    assert_eq!(vram.get(0x3F08), 0x09);
}

#[test]
fn nametable_mirroring() {
    let mut vram = VRAM::new();
    vram.arrangement = NametableArrangement::HorizontalMirror;
    vram.set(0x2000, 0x42);
    assert_eq!(vram.get(0x2400), 0x42);
    vram.arrangement = NametableArrangement::VerticalMirror;
    vram.set(0x2400, 0x43);
    assert_eq!(vram.get(0x2C00), 0x43);
}

#[test]
fn controller_shift_register() {
    let mut c = KeyboardController::new();
    c.set_button(0, true); // A pressed (active low)
    c.write_register(1); // strobe: latch
    c.write_register(0);
    let first = c.read_controller_one();
    assert_eq!(first, 0); // A pressed reads 0
    for _ in 0..7 {
        let b = c.read_controller_one();
        assert_eq!(b, 1); // released buttons read 1
    }
    assert_eq!(c.read_controller_one(), 0xFF); // exhausted
}

#[test]
fn nrom_loads_prg_and_mirrors_bank() {
    let mut bytes = vec![0u8; 16 + 16384];
    bytes[0] = 0x4E;
    bytes[1] = 0x45;
    bytes[2] = 0x53;
    bytes[3] = 0x1A;
    bytes[4] = 1; // one 16 KiB PRG bank
    bytes[5] = 0;
    bytes[6] = 1; // vertical mirroring
    bytes[16] = 0x11;
    bytes[16 + 16383] = 0x77;
    let mut cpu = boot();
    let mut vram = VRAM::new();
    let rom = NROM::from_ines_rom(&bytes, &mut vram, &mut cpu.memory).unwrap();
    assert_eq!(cpu.memory.buffer[0x8000], 0x11);
    assert_eq!(cpu.memory.buffer[0xC000], 0x11);
    assert_eq!(cpu.memory.buffer[0xBFFF], 0x77);
    assert_eq!(cpu.memory.buffer[0xFFFF], 0x77);
    assert_eq!(rom.nt_arrangement, NametableArrangement::VerticalMirror);
    assert_eq!(vram.arrangement, NametableArrangement::VerticalMirror);
}

#[test]
fn nrom_rejects_bad_magic() {
    let bytes = vec![0u8; 16 + 16384];
    let mut cpu = boot();
    let mut vram = VRAM::new();
    let r = NROM::from_ines_rom(&bytes, &mut vram, &mut cpu.memory);
    assert!(matches!(r, Err(CartridgeError::MalformedHeader)));
}

#[test]
fn nrom_rejects_unsupported_mapper() {
    let mut bytes = vec![0u8; 16 + 16384];
    bytes[0] = 0x4E;
    bytes[1] = 0x45;
    bytes[2] = 0x53;
    bytes[3] = 0x1A;
    bytes[4] = 1;
    bytes[7] = 0x10; // mapper 1
    let mut cpu = boot();
    let mut vram = VRAM::new();
    let r = NROM::from_ines_rom(&bytes, &mut vram, &mut cpu.memory);
    assert!(matches!(r, Err(CartridgeError::UnsupportedMapper)));
}

#[test]
fn reset_vector_initializes_pc() {
    let mut cpu = boot();
    cpu.memory.buffer[0xFFFC] = 0x34;
    cpu.memory.buffer[0xFFFD] = 0x12;
    cpu.init_pc();
    assert_eq!(cpu.registers.program_counter, 0x1234);
    cpu.reset();
    assert_eq!(cpu.registers.program_counter, 0x1234);
    assert_eq!(cpu.registers.stack_pointer, 0xFD);
    assert_eq!(cpu.registers.processor_status, 0x24);
    assert_eq!(cpu.num_cycles, 0);
}

#[test]
fn single_step_vector_machinery() {
    // one LDA #$00 vector, driven through the test-state helpers
    let initial = CpuTestState {
        s: 0xFD,
        a: 0xFF,
        x: 0,
        y: 0,
        p: 0x24,
        pc: 0x8000,
        ram: vec![MemTest(0x8000, 0xA9), MemTest(0x8001, 0x00)],
    };
    let expected = CpuTestState {
        s: 0xFD,
        a: 0x00,
        x: 0,
        y: 0,
        p: 0x26,
        pc: 0x8002,
        ram: vec![MemTest(0x8000, 0xA9), MemTest(0x8001, 0x00)],
    };
    let mut cpu = boot();
    cpu.apply_test_state(&initial);
    cpu.tick_ins();
    assert!(cpu.matches_test_state(&expected));
    let wrong = CpuTestState { a: 0x01, ..expected };
    assert!(!cpu.matches_test_state(&wrong));
}

#[test]
fn illegal_dcp_zero_page() {
    let mut cpu = boot();
    cpu.registers.program_counter = 0x8000;
    cpu.registers.accumulator = 0x41;
    cpu.memory.buffer[0x0010] = 0x42;
    cpu.memory.buffer[0x8000] = 0xC7; // DCP $10
    cpu.memory.buffer[0x8001] = 0x10;
    cpu.tick_ins();
    assert_eq!(cpu.memory.buffer[0x0010], 0x41); // decremented
    assert_eq!(cpu.registers.processor_status & 0x02, 0x02); // A == M
    assert_eq!(cpu.registers.processor_status & 0x01, 0x01); // A >= M
}

#[test]
fn unknown_opcode_is_silent_no_op() {
    let mut cpu = boot();
    cpu.registers.program_counter = 0x8000;
    cpu.memory.buffer[0x8000] = 0x80; // undocumented 2-byte NOP
    cpu.tick_ins();
    assert_eq!(cpu.registers.program_counter, 0x8002);
    assert_eq!(cpu.num_cycles, 0);
}

#[test]
fn utils_bit_helpers() {
    assert_eq!(get_bit(0b1000_0000, 7), 1);
    assert_eq!(get_bit(0b1000_0000, 0), 0);
    assert_eq!(set_bit(0, 3), 0b1000);
    assert_eq!(unset_bit(0xFF, 0), 0xFE);
}

#[test]
fn ppu_scanline_schedule() {
    let mut ppu = PPU::new();
    // from line 0: reach line 241 and observe the vertical blank begin
    for _ in 0..241 {
        assert!(!ppu.regs.vblank_started);
        ppu.tick();
    }
    assert_eq!(ppu.regs.curr_scanline, 241);
    ppu.tick();
    assert!(ppu.regs.is_vblank);
    assert!(ppu.regs.vblank_started);
    ppu.tick();
    assert!(!ppu.regs.vblank_started); // only the first blank tick signals
    assert_eq!(ppu.regs.num_cycles, 341 * 243);
}

#[test]
fn ppu_scanline_wraps_after_last_blank_line() {
    let mut ppu = PPU::new();
    for _ in 0..261 {
        ppu.tick(); // lines 0..=260; the tick of line 260 wraps
    }
    assert_eq!(ppu.regs.curr_scanline, -1); // back at the pre-render line
    ppu.tick();
    assert_eq!(ppu.regs.curr_scanline, 0);
}

#[test]
fn sprite_fetch_honours_vertical_flip() {
    let mut ppu = PPU::new();
    // sprite 0: Y=10, tile 1, vertical flip, X=0
    ppu.oam_addr(0);
    ppu.oam_data_write(10); // Y
    ppu.oam_data_write(1); // tile index
    ppu.oam_data_write(0x40); // attributes: vertical flip
    ppu.oam_data_write(0); // X
    // tile 1 bitplanes: row 0 = 0x0F, row 7 = 0xAA
    ppu.vram.set(16, 0x0F);
    ppu.vram.set(16 + 7, 0xAA);
    ppu.regs.curr_scanline = 10; // sprite row 0
    ppu.clear_secondary_oam();
    ppu.evaluate_sprite();
    ppu.fetch_sprite_data();
    assert_eq!(ppu.regs.num_sprites, 1);
    let sprite = ppu.sprite_queue[0];
    assert!(sprite.vertical_flip);
    assert_eq!(sprite.lo_byte, 0xAA); // flipped: row 0 reads bitplane row 7
}
