use zx_spectrum_emulator::cpu::Cpu;
use zx_spectrum_emulator::memory::Memory;

fn blank_memory() -> Memory {
    Memory::new(vec![0u8; 0x4000])
}

#[test]
fn reset_state_is_documented() {
    let cpu = Cpu::new();
    assert_eq!(cpu.a, 0);
    assert_eq!(cpu.b, 0);
    assert_eq!(cpu.c, 0);
    assert_eq!(cpu.d, 0);
    assert_eq!(cpu.e, 0);
    assert_eq!(cpu.h, 0);
    assert_eq!(cpu.l, 0);
    assert_eq!(cpu.f, 0);
    assert_eq!(cpu.i, 0);
    assert_eq!(cpu.r, 0);
    assert_eq!(cpu.sp, 0xFFFF);
    assert_eq!(cpu.pc, 0x0000);
    assert!(!cpu.iff1);
    assert!(!cpu.iff2);
    assert_eq!(cpu.interrupt_mode, 0);
    assert!(!cpu.is_halted);
}

#[test]
fn flag_setters_and_getters_are_inverse() {
    let mut cpu = Cpu::new();
    cpu.set_flag_c(true);
    assert!(cpu.get_flag_c());
    cpu.set_flag_n(true);
    assert!(cpu.get_flag_n());
    cpu.set_flag_pv(true);
    assert!(cpu.get_flag_pv());
    cpu.set_flag_y(true);
    assert!(cpu.get_flag_y());
    cpu.set_flag_h(true);
    assert!(cpu.get_flag_h());
    cpu.set_flag_x(true);
    assert!(cpu.get_flag_x());
    cpu.set_flag_z(true);
    assert!(cpu.get_flag_z());
    cpu.set_flag_s(true);
    assert!(cpu.get_flag_s());
    assert_eq!(cpu.f, 0xFF);
    cpu.set_flag_h(false);
    assert!(!cpu.get_flag_h());
    assert_eq!(cpu.f, 0xEF);
    cpu.set_flag_c(false);
    assert!(!cpu.get_flag_c());
    assert_eq!(cpu.f, 0xEE);
}

#[test]
fn register_pairs_combine_and_split() {
    let mut cpu = Cpu::new();
    cpu.set_af(0x1234);
    assert_eq!(cpu.a, 0x12);
    assert_eq!(cpu.f, 0x34);
    assert_eq!(cpu.af(), 0x1234);
    cpu.set_bc(0xA55A);
    assert_eq!(cpu.b, 0xA5);
    assert_eq!(cpu.c, 0x5A);
    assert_eq!(cpu.bc(), 0xA55A);
    cpu.set_de(0x00FF);
    assert_eq!(cpu.de(), 0x00FF);
    cpu.set_hl(0xFF00);
    assert_eq!(cpu.hl(), 0xFF00);
}

#[test]
fn read_write_reg_cover_memory_slot() {
    let mut cpu = Cpu::new();
    let mut mem = blank_memory();
    cpu.write_reg(0, 1, &mut mem);
    cpu.write_reg(7, 9, &mut mem);
    assert_eq!(cpu.b, 1);
    assert_eq!(cpu.a, 9);
    assert_eq!(cpu.read_reg(0, &mem), 1);
    cpu.set_hl(0x4321);
    cpu.write_reg(6, 0x5C, &mut mem);
    assert_eq!(mem.read(0x4321), 0x5C);
    assert_eq!(cpu.read_reg(6, &mem), 0x5C);
}

#[test]
fn push_pop_round_trip_keeps_sp() {
    let mut cpu = Cpu::new();
    let mut mem = blank_memory();
    cpu.sp = 0x8000;
    cpu.push(0xCAFE, &mut mem);
    assert_eq!(cpu.sp, 0x7FFE);
    let v = cpu.pop(&mem);
    assert_eq!(v, 0xCAFE);
    assert_eq!(cpu.sp, 0x8000);
}

#[test]
fn push_decrements_before_write_pop_increments_after_read() {
    let mut cpu = Cpu::new();
    let mut mem = blank_memory();
    cpu.sp = 0x9000;
    cpu.push(0x1234, &mut mem);
    assert_eq!(mem.read(0x8FFE), 0x34);
    assert_eq!(mem.read(0x8FFF), 0x12);
}

#[test]
fn exchanges_are_involutions() {
    let mut cpu = Cpu::new();
    cpu.a = 1;
    cpu.f = 2;
    cpu.a_alt = 3;
    cpu.f_alt = 4;
    cpu.ex_af_af();
    assert_eq!((cpu.a, cpu.f, cpu.a_alt, cpu.f_alt), (3, 4, 1, 2));
    cpu.ex_af_af();
    assert_eq!((cpu.a, cpu.f, cpu.a_alt, cpu.f_alt), (1, 2, 3, 4));

    cpu.set_bc(0x1111);
    cpu.set_de(0x2222);
    cpu.set_hl(0x3333);
    cpu.exx();
    assert_eq!(cpu.bc(), 0);
    cpu.exx();
    assert_eq!((cpu.bc(), cpu.de(), cpu.hl()), (0x1111, 0x2222, 0x3333));

    cpu.ex_de_hl();
    assert_eq!((cpu.de(), cpu.hl()), (0x3333, 0x2222));
    cpu.ex_de_hl();
    assert_eq!((cpu.de(), cpu.hl()), (0x2222, 0x3333));
}

#[test]
fn fetches_advance_pc_with_wrap() {
    let mut cpu = Cpu::new();
    let mut mem = blank_memory();
    mem.write(0x7000, 0x12);
    mem.write(0x7001, 0x34);
    cpu.pc = 0x7000;
    assert_eq!(cpu.fetch_byte(&mem), 0x12);
    assert_eq!(cpu.pc, 0x7001);
    cpu.pc = 0x7000;
    assert_eq!(cpu.fetch_word(&mem), 0x3412);
    assert_eq!(cpu.pc, 0x7002);
    cpu.pc = 0xFFFF;
    let _ = cpu.fetch_byte(&mem);
    assert_eq!(cpu.pc, 0x0000);
}

#[test]
fn interrupt_is_accepted_only_with_iff1() {
    let mut cpu = Cpu::new();
    let mut mem = blank_memory();
    cpu.pc = 0x8123;
    cpu.sp = 0x9000;
    assert_eq!(cpu.interrupt(&mut mem), 0);
    assert_eq!(cpu.pc, 0x8123);

    cpu.iff1 = true;
    cpu.iff2 = true;
    cpu.interrupt_mode = 1;
    assert_eq!(cpu.interrupt(&mut mem), 13);
    assert_eq!(cpu.pc, 0x0038);
    assert_eq!(cpu.sp, 0x8FFE);
    assert_eq!(mem.read_word(0x8FFE), 0x8123);
    assert!(!cpu.iff1);
    assert!(!cpu.iff2);
}

#[test]
fn interrupt_mode_2_reads_vector_table() {
    let mut cpu = Cpu::new();
    let mut mem = blank_memory();
    cpu.pc = 0x8000;
    cpu.sp = 0x9000;
    cpu.iff1 = true;
    cpu.interrupt_mode = 2;
    cpu.i = 0x80;
    mem.write_word(0x80FF, 0x7654);
    assert_eq!(cpu.interrupt(&mut mem), 19);
    assert_eq!(cpu.pc, 0x7654);
}

#[test]
fn interrupt_clears_halt() {
    let mut cpu = Cpu::new();
    let mut mem = blank_memory();
    cpu.is_halted = true;
    cpu.iff1 = true;
    cpu.sp = 0x9000;
    cpu.interrupt(&mut mem);
    assert!(!cpu.is_halted);
}
