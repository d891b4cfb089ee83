use zx_spectrum_emulator::cpu::Cpu;
use zx_spectrum_emulator::memory::Memory;

fn machine_with(program: &[u8], at: u16) -> (Cpu, Memory) {
    let mut mem = Memory::new(vec![0u8; 0x4000]);
    for (i, b) in program.iter().enumerate() {
        mem.write(at + i as u16, *b);
    }
    let mut cpu = Cpu::new();
    cpu.pc = at;
    (cpu, mem)
}

#[test]
fn ld_rp_nn_loads_all_pairs() {
    let program = [
        0x01, 0x11, 0x22, // LD BC,0x2211
        0x11, 0x33, 0x44, // LD DE,0x4433
        0x21, 0x55, 0x66, // LD HL,0x6655
        0x31, 0x77, 0x88, // LD SP,0x8877
    ];
    let (mut cpu, mut mem) = machine_with(&program, 0x5000);
    assert_eq!(cpu.step(&mut mem), 10);
    assert_eq!(cpu.bc(), 0x2211);
    cpu.step(&mut mem);
    assert_eq!(cpu.de(), 0x4433);
    cpu.step(&mut mem);
    assert_eq!(cpu.hl(), 0x6655);
    cpu.step(&mut mem);
    assert_eq!(cpu.sp, 0x8877);
}

#[test]
fn indirect_accumulator_loads() {
    // LD (BC),A; LD A,(DE)
    let (mut cpu, mut mem) = machine_with(&[0x02, 0x1A], 0x5000);
    cpu.a = 0x5A;
    cpu.set_bc(0x7000);
    cpu.set_de(0x7001);
    mem.write(0x7001, 0xA5);
    assert_eq!(cpu.step(&mut mem), 7);
    assert_eq!(mem.read(0x7000), 0x5A);
    assert_eq!(cpu.step(&mut mem), 7);
    assert_eq!(cpu.a, 0xA5);
}

#[test]
fn direct_word_and_byte_loads() {
    let program = [
        0x22, 0x00, 0x70, // LD (0x7000),HL
        0x2A, 0x00, 0x70, // LD HL,(0x7000)
        0x32, 0x02, 0x70, // LD (0x7002),A
        0x3A, 0x02, 0x70, // LD A,(0x7002)
    ];
    let (mut cpu, mut mem) = machine_with(&program, 0x5000);
    cpu.set_hl(0xFACE);
    assert_eq!(cpu.step(&mut mem), 16);
    assert_eq!(mem.read_word(0x7000), 0xFACE);
    cpu.set_hl(0);
    assert_eq!(cpu.step(&mut mem), 16);
    assert_eq!(cpu.hl(), 0xFACE);
    cpu.a = 0x3C;
    assert_eq!(cpu.step(&mut mem), 13);
    assert_eq!(mem.read(0x7002), 0x3C);
    cpu.a = 0;
    assert_eq!(cpu.step(&mut mem), 13);
    assert_eq!(cpu.a, 0x3C);
}

#[test]
fn inc_dec_rp_do_not_touch_flags() {
    // INC BC; DEC SP
    let (mut cpu, mut mem) = machine_with(&[0x03, 0x3B], 0x5000);
    cpu.f = 0xFF;
    cpu.set_bc(0x00FF);
    assert_eq!(cpu.step(&mut mem), 6);
    assert_eq!(cpu.bc(), 0x0100);
    assert_eq!(cpu.f, 0xFF);
    cpu.sp = 0;
    assert_eq!(cpu.step(&mut mem), 6);
    assert_eq!(cpu.sp, 0xFFFF);
}

#[test]
fn inc_dec_memory_operand() {
    // INC (HL); DEC (HL)
    let (mut cpu, mut mem) = machine_with(&[0x34, 0x35], 0x5000);
    cpu.set_hl(0x7000);
    mem.write(0x7000, 0xFF);
    assert_eq!(cpu.step(&mut mem), 11);
    assert_eq!(mem.read(0x7000), 0x00);
    assert!(cpu.get_flag_z());
    assert!(cpu.get_flag_h());
    assert_eq!(cpu.step(&mut mem), 11);
    assert_eq!(mem.read(0x7000), 0xFF);
    assert!(cpu.get_flag_n());
}

#[test]
fn ld_hl_immediate_memory() {
    // LD (HL),0x42
    let (mut cpu, mut mem) = machine_with(&[0x36, 0x42], 0x5000);
    cpu.set_hl(0x7000);
    assert_eq!(cpu.step(&mut mem), 10);
    assert_eq!(mem.read(0x7000), 0x42);
}

#[test]
fn alu_memory_operand_costs_seven() {
    // AND (HL)
    let (mut cpu, mut mem) = machine_with(&[0xA6], 0x5000);
    cpu.a = 0xF0;
    cpu.set_hl(0x7000);
    mem.write(0x7000, 0x3C);
    assert_eq!(cpu.step(&mut mem), 7);
    assert_eq!(cpu.a, 0x30);
    assert!(cpu.get_flag_h());
    assert!(!cpu.get_flag_c());
    assert!(!cpu.get_flag_n());
}

#[test]
fn cp_sets_flags_but_keeps_a() {
    // CP 0x42 with A = 0x42
    let (mut cpu, mut mem) = machine_with(&[0xFE, 0x42], 0x5000);
    cpu.a = 0x42;
    assert_eq!(cpu.step(&mut mem), 7);
    assert_eq!(cpu.a, 0x42);
    assert!(cpu.get_flag_z());
    assert!(cpu.get_flag_n());
    // X and Y come from the operand 0x42: bit 5 clear, bit 3 clear... use
    // an operand with those bits set to see them copied
    let (mut cpu2, mut mem2) = machine_with(&[0xFE, 0x28], 0x5000);
    cpu2.a = 0x50;
    cpu2.step(&mut mem2);
    assert!(cpu2.get_flag_x());
    assert!(cpu2.get_flag_y());
}

#[test]
fn ex_af_and_exx_opcodes() {
    // EX AF,AF'; EXX
    let (mut cpu, mut mem) = machine_with(&[0x08, 0xD9], 0x5000);
    cpu.a = 1;
    cpu.f = 2;
    cpu.set_bc(0x1234);
    assert_eq!(cpu.step(&mut mem), 4);
    assert_eq!(cpu.a, 0);
    assert_eq!(cpu.a_alt, 1);
    assert_eq!(cpu.step(&mut mem), 4);
    assert_eq!(cpu.bc(), 0);
    assert_eq!(cpu.b_alt, 0x12);
}

#[test]
fn ex_de_hl_opcode() {
    let (mut cpu, mut mem) = machine_with(&[0xEB], 0x5000);
    cpu.set_de(0x1111);
    cpu.set_hl(0x2222);
    assert_eq!(cpu.step(&mut mem), 4);
    assert_eq!(cpu.de(), 0x2222);
    assert_eq!(cpu.hl(), 0x1111);
}

#[test]
fn jp_hl_and_ld_sp_hl() {
    let (mut cpu, mut mem) = machine_with(&[0xE9], 0x5000);
    cpu.set_hl(0x6000);
    mem.write(0x6000, 0xF9); // LD SP,HL
    assert_eq!(cpu.step(&mut mem), 4);
    assert_eq!(cpu.pc, 0x6000);
    assert_eq!(cpu.step(&mut mem), 6);
    assert_eq!(cpu.sp, 0x6000);
}

#[test]
fn ret_cc_cycles_depend_on_branch() {
    // RET Z with Z clear: 5 cycles, falls through
    let (mut cpu, mut mem) = machine_with(&[0xC8, 0xC8], 0x5000);
    cpu.sp = 0x9000;
    mem.write_word(0x9000, 0x7777);
    assert_eq!(cpu.step(&mut mem), 5);
    assert_eq!(cpu.pc, 0x5001);
    cpu.set_flag_z(true);
    assert_eq!(cpu.step(&mut mem), 11);
    assert_eq!(cpu.pc, 0x7777);
    assert_eq!(cpu.sp, 0x9002);
}

#[test]
fn call_cc_not_taken_skips_operand() {
    // CALL C,0x6000 with C clear
    let (mut cpu, mut mem) = machine_with(&[0xDC, 0x00, 0x60], 0x5000);
    cpu.sp = 0x9000;
    assert_eq!(cpu.step(&mut mem), 10);
    assert_eq!(cpu.pc, 0x5003);
    assert_eq!(cpu.sp, 0x9000);
}

#[test]
fn jr_cc_charges_seven_when_not_taken() {
    // JR NZ,+5 with Z set
    let (mut cpu, mut mem) = machine_with(&[0x20, 0x05], 0x5000);
    cpu.set_flag_z(true);
    assert_eq!(cpu.step(&mut mem), 7);
    assert_eq!(cpu.pc, 0x5002);
    // and 12 when taken
    let (mut cpu2, mut mem2) = machine_with(&[0x20, 0x05], 0x5000);
    assert_eq!(cpu2.step(&mut mem2), 12);
    assert_eq!(cpu2.pc, 0x5007);
}

#[test]
fn out_n_a_is_discarded() {
    let (mut cpu, mut mem) = machine_with(&[0xD3, 0xFE], 0x5000);
    cpu.a = 0x17;
    assert_eq!(cpu.step(&mut mem), 11);
    assert_eq!(cpu.pc, 0x5002);
    assert_eq!(cpu.a, 0x17);
}

#[test]
fn push_pop_af_moves_flags() {
    // PUSH AF; POP BC
    let (mut cpu, mut mem) = machine_with(&[0xF5, 0xC1], 0x5000);
    cpu.sp = 0x9000;
    cpu.a = 0x12;
    cpu.f = 0x34;
    cpu.step(&mut mem);
    cpu.step(&mut mem);
    assert_eq!(cpu.bc(), 0x1234);
}

#[test]
fn pc_wraps_at_address_space_end() {
    let mut mem = Memory::new(vec![0u8; 0x4000]);
    mem.write(0xFFFF, 0x00); // NOP at the very top
    let mut cpu = Cpu::new();
    cpu.pc = 0xFFFF;
    cpu.step(&mut mem);
    assert_eq!(cpu.pc, 0x0000);
}

#[test]
fn adc_overflow_sets_pv_and_carry() {
    // ADC A,0x7F with A=0x01 and carry set: 0x81, signed overflow
    let (mut cpu, mut mem) = machine_with(&[0xCE, 0x7F], 0x5000);
    cpu.a = 0x01;
    cpu.set_flag_c(true);
    cpu.step(&mut mem);
    assert_eq!(cpu.a, 0x81);
    assert!(cpu.get_flag_pv());
    assert!(!cpu.get_flag_c());
    assert!(cpu.get_flag_s());
    assert!(cpu.get_flag_h());
}

#[test]
fn sbc_borrows_through_carry() {
    // SBC A,0x00 with A=0x00 and carry set: 0xFF
    let (mut cpu, mut mem) = machine_with(&[0xDE, 0x00], 0x5000);
    cpu.set_flag_c(true);
    cpu.step(&mut mem);
    assert_eq!(cpu.a, 0xFF);
    assert!(cpu.get_flag_c());
    assert!(cpu.get_flag_h());
    assert!(cpu.get_flag_n());
}
