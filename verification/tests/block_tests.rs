use zx_spectrum_emulator::cpu::Cpu;
use zx_spectrum_emulator::memory::Memory;

fn machine_with(program: &[u8], at: u16) -> (Cpu, Memory) {
    let mut mem = Memory::new(vec![0u8; 0x4000]);
    for (i, b) in program.iter().enumerate() {
        mem.write(at + i as u16, *b);
    }
    let mut cpu = Cpu::new();
    cpu.pc = at;
    (cpu, mem)
}

#[test]
fn ldir_copies_four_bytes_scenario() {
    // LD HL,0x4000; LD DE,0x4010; LD BC,0x0004; LDIR
    let program = [0x21, 0x00, 0x40, 0x11, 0x10, 0x40, 0x01, 0x04, 0x00, 0xED, 0xB0];
    let (mut cpu, mut mem) = machine_with(&program, 0x6000);
    for (i, b) in [0xDE, 0xAD, 0xBE, 0xEF].iter().enumerate() {
        mem.write(0x4000 + i as u16, *b);
    }
    cpu.step(&mut mem);
    cpu.step(&mut mem);
    cpu.step(&mut mem);
    let mut ldir_cycles: u32 = 0;
    for _ in 0..4 {
        ldir_cycles += cpu.step(&mut mem) as u32;
    }
    assert_eq!(ldir_cycles, 21 + 21 + 21 + 16);
    assert_eq!(cpu.bc(), 0);
    assert_eq!(cpu.hl(), 0x4004);
    assert_eq!(cpu.de(), 0x4014);
    assert_eq!(cpu.pc, 0x600B);
    for (i, b) in [0xDE, 0xAD, 0xBE, 0xEF].iter().enumerate() {
        assert_eq!(mem.read(0x4010 + i as u16), *b);
    }
    assert!(!cpu.get_flag_pv());
}

#[test]
fn ldi_single_step_flags() {
    let (mut cpu, mut mem) = machine_with(&[0xED, 0xA0], 0x6000);
    cpu.set_hl(0x7000);
    cpu.set_de(0x7100);
    cpu.set_bc(2);
    mem.write(0x7000, 0x11);
    assert_eq!(cpu.step(&mut mem), 16);
    assert_eq!(mem.read(0x7100), 0x11);
    assert_eq!(cpu.hl(), 0x7001);
    assert_eq!(cpu.de(), 0x7101);
    assert_eq!(cpu.bc(), 1);
    assert!(cpu.get_flag_pv());
    assert!(!cpu.get_flag_h());
    assert!(!cpu.get_flag_n());
}

#[test]
fn lddr_copies_downward() {
    let (mut cpu, mut mem) = machine_with(&[0xED, 0xB8], 0x6000);
    cpu.set_hl(0x7001);
    cpu.set_de(0x7101);
    cpu.set_bc(2);
    mem.write(0x7000, 0xAA);
    mem.write(0x7001, 0xBB);
    assert_eq!(cpu.step(&mut mem), 21);
    assert_eq!(cpu.step(&mut mem), 16);
    assert_eq!(mem.read(0x7100), 0xAA);
    assert_eq!(mem.read(0x7101), 0xBB);
    assert_eq!(cpu.bc(), 0);
}

#[test]
fn cpir_halts_on_first_match() {
    let (mut cpu, mut mem) = machine_with(&[0xED, 0xB1], 0x6000);
    cpu.a = 0xBE;
    cpu.set_hl(0x7000);
    cpu.set_bc(8);
    for (i, b) in [0x01, 0x02, 0xBE, 0x04].iter().enumerate() {
        mem.write(0x7000 + i as u16, *b);
    }
    // two repeating iterations, then the match
    assert_eq!(cpu.step(&mut mem), 21);
    assert_eq!(cpu.step(&mut mem), 21);
    assert_eq!(cpu.step(&mut mem), 16);
    assert!(cpu.get_flag_z());
    assert_eq!(cpu.hl(), 0x7003);
    // distance searched was 3, so BC = 8 - 3
    assert_eq!(cpu.bc(), 5);
    assert_eq!(cpu.pc, 0x6002);
}

#[test]
fn cpir_exhausts_without_match() {
    let (mut cpu, mut mem) = machine_with(&[0xED, 0xB1], 0x6000);
    cpu.a = 0x77;
    cpu.set_hl(0x7000);
    cpu.set_bc(3);
    let mut steps = 0;
    loop {
        let t = cpu.step(&mut mem);
        steps += 1;
        if t == 16 {
            break;
        }
    }
    assert_eq!(steps, 3);
    assert_eq!(cpu.bc(), 0);
    assert!(!cpu.get_flag_z());
    assert!(!cpu.get_flag_pv());
}

#[test]
fn cpd_steps_backwards() {
    let (mut cpu, mut mem) = machine_with(&[0xED, 0xA9], 0x6000);
    cpu.a = 5;
    cpu.set_hl(0x7005);
    cpu.set_bc(1);
    mem.write(0x7005, 5);
    assert_eq!(cpu.step(&mut mem), 16);
    assert!(cpu.get_flag_z());
    assert_eq!(cpu.hl(), 0x7004);
    assert_eq!(cpu.bc(), 0);
    assert!(!cpu.get_flag_pv());
}

#[test]
fn ld_rr_indirect_round_trip() {
    // LD (0x7000),BC then LD DE,(0x7000)
    let program = [0xED, 0x43, 0x00, 0x70, 0xED, 0x5B, 0x00, 0x70];
    let (mut cpu, mut mem) = machine_with(&program, 0x6000);
    cpu.set_bc(0x1357);
    assert_eq!(cpu.step(&mut mem), 20);
    assert_eq!(mem.read_word(0x7000), 0x1357);
    assert_eq!(cpu.step(&mut mem), 20);
    assert_eq!(cpu.de(), 0x1357);
}

#[test]
fn sbc_adc_hl_full_flags() {
    // SBC HL,DE with carry set
    let (mut cpu, mut mem) = machine_with(&[0xED, 0x52, 0xED, 0x5A], 0x6000);
    cpu.set_hl(0x5000);
    cpu.set_de(0x5000);
    cpu.set_flag_c(true);
    assert_eq!(cpu.step(&mut mem), 15);
    assert_eq!(cpu.hl(), 0xFFFF);
    assert!(cpu.get_flag_c());
    assert!(cpu.get_flag_s());
    assert!(cpu.get_flag_n());
    // ADC HL,DE: 0xFFFF + 0x5000 + carry
    assert_eq!(cpu.step(&mut mem), 15);
    assert_eq!(cpu.hl(), 0x5000);
    assert!(cpu.get_flag_c());
    assert!(!cpu.get_flag_n());
}

#[test]
fn rrd_rld_rotate_nibbles() {
    let (mut cpu, mut mem) = machine_with(&[0xED, 0x67, 0xED, 0x6F], 0x6000);
    cpu.a = 0x12;
    cpu.set_hl(0x7000);
    mem.write(0x7000, 0x34);
    // RRD: A low nibble <- (HL) low; (HL) = A_low:high nibble
    assert_eq!(cpu.step(&mut mem), 18);
    assert_eq!(cpu.a, 0x14);
    assert_eq!(mem.read(0x7000), 0x23);
    // RLD undoes it
    assert_eq!(cpu.step(&mut mem), 18);
    assert_eq!(cpu.a, 0x12);
    assert_eq!(mem.read(0x7000), 0x34);
}

#[test]
fn ld_a_i_copies_iff2_to_parity() {
    let (mut cpu, mut mem) = machine_with(&[0xED, 0x57], 0x6000);
    cpu.i = 0x42;
    cpu.iff2 = true;
    assert_eq!(cpu.step(&mut mem), 9);
    assert_eq!(cpu.a, 0x42);
    assert!(cpu.get_flag_pv());
}

#[test]
fn im_and_retn_restore_flip_flops() {
    // IM 2; RETN
    let (mut cpu, mut mem) = machine_with(&[0xED, 0x5E, 0xED, 0x45], 0x6000);
    cpu.sp = 0x9000;
    mem.write_word(0x9000, 0x1234);
    cpu.iff2 = true;
    cpu.iff1 = false;
    assert_eq!(cpu.step(&mut mem), 8);
    assert_eq!(cpu.interrupt_mode, 2);
    assert_eq!(cpu.step(&mut mem), 14);
    assert_eq!(cpu.pc, 0x1234);
    assert!(cpu.iff1);
    assert_eq!(cpu.sp, 0x9002);
}

#[test]
fn in_r_c_loads_stub_value_with_flags() {
    // IN B,(C)
    let (mut cpu, mut mem) = machine_with(&[0xED, 0x40], 0x6000);
    assert_eq!(cpu.step(&mut mem), 12);
    assert_eq!(cpu.b, 0xFF);
    assert!(cpu.get_flag_s());
    assert!(!cpu.get_flag_z());
    assert!(cpu.get_flag_pv());
}

#[test]
fn ini_outd_update_counters() {
    // INI
    let (mut cpu, mut mem) = machine_with(&[0xED, 0xA2, 0xED, 0xAB], 0x6000);
    cpu.set_hl(0x7000);
    cpu.b = 2;
    assert_eq!(cpu.step(&mut mem), 16);
    assert_eq!(cpu.hl(), 0x7001);
    assert_eq!(cpu.b, 1);
    assert!(!cpu.get_flag_z());
    assert!(cpu.get_flag_n());
    // OUTD
    assert_eq!(cpu.step(&mut mem), 16);
    assert_eq!(cpu.hl(), 0x7000);
    assert_eq!(cpu.b, 0);
    assert!(cpu.get_flag_z());
}

#[test]
fn otir_repeats_until_b_zero() {
    let (mut cpu, mut mem) = machine_with(&[0xED, 0xB3], 0x6000);
    cpu.set_hl(0x7000);
    cpu.b = 3;
    assert_eq!(cpu.step(&mut mem), 21);
    assert_eq!(cpu.pc, 0x6000);
    assert_eq!(cpu.step(&mut mem), 21);
    assert_eq!(cpu.step(&mut mem), 16);
    assert_eq!(cpu.b, 0);
    assert_eq!(cpu.pc, 0x6002);
}

#[test]
fn unknown_ed_opcode_costs_eight() {
    let (mut cpu, mut mem) = machine_with(&[0xED, 0x00, 0x00], 0x6000);
    assert_eq!(cpu.step(&mut mem), 8);
    assert_eq!(cpu.pc, 0x6002);
    // the diagnostic names the plane, the opcode and the prefix byte's PC
    let d = cpu.last_diag.expect("diagnostic recorded");
    assert_eq!(d.prefix, 0xED);
    assert_eq!(d.opcode, 0x00);
    assert_eq!(d.pc, 0x6000);
    // a recognised instruction clears it again
    cpu.step(&mut mem);
    assert!(cpu.last_diag.is_none());
}
