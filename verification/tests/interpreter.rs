use emu8080::cpu::{Cpu, StepError};

fn cpu_with(program: &[u8]) -> Cpu {
    let mut cpu = Cpu::new();
    let mut addr: u16 = 0;
    for &b in program {
        cpu.mem.write(addr, b);
        addr = addr.wrapping_add(1);
    }
    cpu
}

#[test]
fn nop_advances_one_byte() {
    let mut cpu = cpu_with(&[0x00]);
    let cycles = cpu.step().unwrap();
    assert_eq!(cycles, 4);
    assert_eq!(cpu.pc, 1);
    assert_eq!(cpu.a, 0);
    assert_eq!(cpu.b, 0);
    assert_eq!(cpu.sp, 0);
    assert!(!cpu.flags.z && !cpu.flags.s && !cpu.flags.p && !cpu.flags.cy && !cpu.flags.ac);
    assert!(!cpu.inte && !cpu.halted);
}

#[test]
fn lxi_b_loads_little_endian() {
    let mut cpu = cpu_with(&[0x01, 0xFE, 0xFF]);
    let cycles = cpu.step().unwrap();
    assert_eq!(cycles, 10);
    assert_eq!(cpu.b, 0xFF);
    assert_eq!(cpu.c, 0xFE);
    assert_eq!(cpu.pc, 3);
}

#[test]
fn inr_b_wraps_and_sets_flags_but_not_cy() {
    let mut cpu = cpu_with(&[0x04]);
    cpu.b = 0xFF;
    cpu.step().unwrap();
    assert_eq!(cpu.b, 0x00);
    assert!(cpu.flags.z);
    assert!(!cpu.flags.s);
    assert!(cpu.flags.p);
    assert!(cpu.flags.ac);
    assert!(!cpu.flags.cy);
    assert_eq!(cpu.pc, 1);

    let mut cpu2 = cpu_with(&[0x04]);
    cpu2.b = 0xFF;
    cpu2.flags.cy = true;
    cpu2.step().unwrap();
    assert!(cpu2.flags.cy);
}

#[test]
fn mvi_then_adi_overflows_into_carry() {
    let mut cpu = cpu_with(&[0x3E, 0x01, 0xC6, 0xFF]);
    cpu.step().unwrap();
    assert_eq!(cpu.a, 0x01);
    cpu.step().unwrap();
    assert_eq!(cpu.a, 0x00);
    assert!(cpu.flags.z);
    assert!(cpu.flags.cy);
    assert!(cpu.flags.p);
    assert!(cpu.flags.ac);
    assert_eq!(cpu.pc, 4);
}

#[test]
fn call_pushes_return_address_and_ret_restores() {
    let mut cpu = cpu_with(&[0xCD, 0x05, 0x00]);
    cpu.mem.write(0x0005, 0xC9);
    cpu.sp = 0x2400;
    let cycles = cpu.step().unwrap();
    assert_eq!(cycles, 17);
    assert_eq!(cpu.mem.read(0x23FE), 0x03);
    assert_eq!(cpu.mem.read(0x23FF), 0x00);
    assert_eq!(cpu.sp, 0x23FE);
    assert_eq!(cpu.pc, 0x0005);
    let cycles = cpu.step().unwrap();
    assert_eq!(cycles, 10);
    assert_eq!(cpu.sp, 0x2400);
    assert_eq!(cpu.pc, 0x0003);
}

#[test]
fn unimplemented_opcode_reports_and_keeps_state() {
    let mut cpu = cpu_with(&[0x08]);
    let err = cpu.step().unwrap_err();
    assert_eq!(err, StepError::Unimplemented { opcode: 0x08, pc: 0 });
    assert_eq!(cpu.pc, 0);

    let mut cpu2 = cpu_with(&[0x00, 0xCB]);
    cpu2.step().unwrap();
    let err2 = cpu2.step().unwrap_err();
    assert_eq!(err2, StepError::Unimplemented { opcode: 0xCB, pc: 1 });
}

#[test]
fn mov_copies_between_registers_and_memory() {
    let mut cpu = cpu_with(&[0x41]); // MOV B,C
    cpu.c = 0x5A;
    let cycles = cpu.step().unwrap();
    assert_eq!(cycles, 5);
    assert_eq!(cpu.b, 0x5A);

    let mut cpu2 = cpu_with(&[0x77]); // MOV M,A
    cpu2.a = 0x99;
    cpu2.h = 0x20;
    cpu2.l = 0x10;
    let cycles2 = cpu2.step().unwrap();
    assert_eq!(cycles2, 7);
    assert_eq!(cpu2.mem.read(0x2010), 0x99);

    let mut cpu3 = cpu_with(&[0x7E]); // MOV A,M
    cpu3.h = 0x20;
    cpu3.l = 0x11;
    cpu3.mem.write(0x2011, 0x42);
    cpu3.step().unwrap();
    assert_eq!(cpu3.a, 0x42);
}

#[test]
fn sub_and_cmp_borrow_semantics() {
    let mut cpu = cpu_with(&[0x90]); // SUB B
    cpu.a = 0x05;
    cpu.b = 0x0A;
    cpu.step().unwrap();
    assert_eq!(cpu.a, 0xFB);
    assert!(cpu.flags.cy);
    assert!(cpu.flags.s);

    let mut cpu2 = cpu_with(&[0xB8]); // CMP B
    cpu2.a = 0x0A;
    cpu2.b = 0x05;
    cpu2.step().unwrap();
    assert_eq!(cpu2.a, 0x0A);
    assert!(!cpu2.flags.cy);
    assert!(!cpu2.flags.z);

    let mut cpu3 = cpu_with(&[0xFE, 0x0A]); // CPI 0x0A
    cpu3.a = 0x0A;
    cpu3.step().unwrap();
    assert!(cpu3.flags.z);
    assert!(!cpu3.flags.cy);
}

#[test]
fn ana_clears_carry_and_aux() {
    let mut cpu = cpu_with(&[0xA1]); // ANA C
    cpu.a = 0xF0;
    cpu.c = 0x0F;
    cpu.flags.cy = true;
    cpu.flags.ac = true;
    cpu.step().unwrap();
    assert_eq!(cpu.a, 0x00);
    assert!(cpu.flags.z);
    assert!(!cpu.flags.cy);
    assert!(!cpu.flags.ac);
}

#[test]
fn xra_and_ora_results() {
    let mut cpu = cpu_with(&[0xAF]); // XRA A
    cpu.a = 0x3C;
    cpu.flags.cy = true;
    cpu.step().unwrap();
    assert_eq!(cpu.a, 0x00);
    assert!(cpu.flags.z && !cpu.flags.cy);

    let mut cpu2 = cpu_with(&[0xF6, 0x0F]); // ORI 0x0F
    cpu2.a = 0xF0;
    cpu2.step().unwrap();
    assert_eq!(cpu2.a, 0xFF);
    assert!(cpu2.flags.s && cpu2.flags.p && !cpu2.flags.cy);
}

#[test]
fn adc_uses_carry_state_before_instruction() {
    let mut cpu = cpu_with(&[0x89]); // ADC C
    cpu.a = 0x01;
    cpu.c = 0x01;
    cpu.flags.cy = true;
    cpu.step().unwrap();
    assert_eq!(cpu.a, 0x03);
    assert!(!cpu.flags.cy);

    let mut cpu2 = cpu_with(&[0xDE, 0x00]); // SBI 0x00 with borrow
    cpu2.a = 0x01;
    cpu2.flags.cy = true;
    cpu2.step().unwrap();
    assert_eq!(cpu2.a, 0x00);
    assert!(cpu2.flags.z);
    assert!(!cpu2.flags.cy);
}

#[test]
fn rotates_move_the_wrapping_bit_into_carry() {
    let mut cpu = cpu_with(&[0x07]); // RLC
    cpu.a = 0x85;
    cpu.step().unwrap();
    assert_eq!(cpu.a, 0x0B);
    assert!(cpu.flags.cy);

    let mut cpu2 = cpu_with(&[0x0F]); // RRC
    cpu2.a = 0x01;
    cpu2.step().unwrap();
    assert_eq!(cpu2.a, 0x80);
    assert!(cpu2.flags.cy);

    let mut cpu3 = cpu_with(&[0x17]); // RAL
    cpu3.a = 0xB5;
    cpu3.step().unwrap();
    assert_eq!(cpu3.a, 0x6A);
    assert!(cpu3.flags.cy);

    let mut cpu4 = cpu_with(&[0x1F]); // RAR
    cpu4.a = 0x6A;
    cpu4.flags.cy = true;
    cpu4.step().unwrap();
    assert_eq!(cpu4.a, 0xB5);
    assert!(!cpu4.flags.cy);
}

#[test]
fn dad_adds_pair_into_hl_touching_only_cy() {
    let mut cpu = cpu_with(&[0x09]); // DAD B
    cpu.h = 0xFF;
    cpu.l = 0xFF;
    cpu.b = 0x00;
    cpu.c = 0x01;
    cpu.flags.z = true;
    cpu.flags.ac = true;
    let cycles = cpu.step().unwrap();
    assert_eq!(cycles, 10);
    assert_eq!(cpu.h, 0x00);
    assert_eq!(cpu.l, 0x00);
    assert!(cpu.flags.cy);
    assert!(cpu.flags.z);
    assert!(cpu.flags.ac);
}

#[test]
fn daa_adjusts_both_nibbles() {
    let mut cpu = cpu_with(&[0x27]);
    cpu.a = 0x9B;
    cpu.step().unwrap();
    assert_eq!(cpu.a, 0x01);
    assert!(cpu.flags.cy);
    assert!(cpu.flags.ac);
}

#[test]
fn stack_push_pop_round_trip() {
    let mut cpu = cpu_with(&[0xD5, 0xE1]); // PUSH D / POP H
    cpu.sp = 0x2400;
    cpu.d = 0x12;
    cpu.e = 0x34;
    let cycles = cpu.step().unwrap();
    assert_eq!(cycles, 11);
    assert_eq!(cpu.sp, 0x23FE);
    let cycles = cpu.step().unwrap();
    assert_eq!(cycles, 10);
    assert_eq!(cpu.sp, 0x2400);
    assert_eq!(cpu.h, 0x12);
    assert_eq!(cpu.l, 0x34);
}

#[test]
fn push_pop_psw_preserves_a_and_flags() {
    let mut cpu = cpu_with(&[0xF5, 0xF1]);
    cpu.sp = 0x2400;
    cpu.a = 0x55;
    cpu.flags.z = true;
    cpu.flags.cy = true;
    cpu.flags.ac = true;
    cpu.step().unwrap();
    assert_eq!(cpu.mem.read(0x23FF), 0x55);
    assert_eq!(cpu.mem.read(0x23FE), 0x53);
    cpu.a = 0;
    cpu.flags.z = false;
    cpu.flags.cy = false;
    cpu.flags.ac = false;
    cpu.step().unwrap();
    assert_eq!(cpu.a, 0x55);
    assert!(cpu.flags.z && cpu.flags.cy && cpu.flags.ac);
    assert!(!cpu.flags.s && !cpu.flags.p);
}

#[test]
fn conditional_jumps_and_calls_charge_documented_cycles() {
    let mut cpu = cpu_with(&[0xC2, 0x10, 0x00]); // JNZ 0x0010
    cpu.flags.z = false;
    let cycles = cpu.step().unwrap();
    assert_eq!(cycles, 10);
    assert_eq!(cpu.pc, 0x0010);

    let mut cpu2 = cpu_with(&[0xC2, 0x10, 0x00]);
    cpu2.flags.z = true;
    let cycles2 = cpu2.step().unwrap();
    assert_eq!(cycles2, 10);
    assert_eq!(cpu2.pc, 3);

    let mut cpu3 = cpu_with(&[0xC4, 0x10, 0x00]); // CNZ taken
    cpu3.sp = 0x2400;
    assert_eq!(cpu3.step().unwrap(), 17);
    assert_eq!(cpu3.pc, 0x0010);

    let mut cpu4 = cpu_with(&[0xC4, 0x10, 0x00]); // CNZ not taken
    cpu4.flags.z = true;
    assert_eq!(cpu4.step().unwrap(), 11);
    assert_eq!(cpu4.pc, 3);

    let mut cpu5 = cpu_with(&[0xC0]); // RNZ taken
    cpu5.sp = 0x2400;
    assert_eq!(cpu5.step().unwrap(), 11);

    let mut cpu6 = cpu_with(&[0xC0]); // RNZ not taken
    cpu6.flags.z = true;
    assert_eq!(cpu6.step().unwrap(), 5);
    assert_eq!(cpu6.pc, 1);
}

#[test]
fn lhld_shld_are_little_endian() {
    let mut cpu = cpu_with(&[0x22, 0x00, 0x30]); // SHLD 0x3000
    cpu.h = 0xAB;
    cpu.l = 0xCD;
    assert_eq!(cpu.step().unwrap(), 16);
    assert_eq!(cpu.mem.read(0x3000), 0xCD);
    assert_eq!(cpu.mem.read(0x3001), 0xAB);

    let mut cpu2 = cpu_with(&[0x2A, 0x00, 0x30]); // LHLD 0x3000
    cpu2.mem.write(0x3000, 0x34);
    cpu2.mem.write(0x3001, 0x12);
    assert_eq!(cpu2.step().unwrap(), 16);
    assert_eq!(cpu2.h, 0x12);
    assert_eq!(cpu2.l, 0x34);
}

#[test]
fn xthl_exchanges_hl_with_stack_top() {
    let mut cpu = cpu_with(&[0xE3]);
    cpu.sp = 0x1000;
    cpu.mem.write(0x1000, 0x34);
    cpu.mem.write(0x1001, 0x12);
    cpu.h = 0xAB;
    cpu.l = 0xCD;
    assert_eq!(cpu.step().unwrap(), 18);
    assert_eq!(cpu.h, 0x12);
    assert_eq!(cpu.l, 0x34);
    assert_eq!(cpu.mem.read(0x1000), 0xCD);
    assert_eq!(cpu.mem.read(0x1001), 0xAB);
    assert_eq!(cpu.sp, 0x1000);
}

#[test]
fn xchg_swaps_de_with_hl() {
    let mut cpu = cpu_with(&[0xEB]);
    cpu.d = 1;
    cpu.e = 2;
    cpu.h = 3;
    cpu.l = 4;
    assert_eq!(cpu.step().unwrap(), 4);
    assert_eq!((cpu.d, cpu.e, cpu.h, cpu.l), (3, 4, 1, 2));
}

#[test]
fn hlt_suspends_until_interrupt() {
    let mut cpu = cpu_with(&[0xFB, 0x76, 0x00]); // EI / HLT
    cpu.step().unwrap();
    assert!(cpu.inte);
    assert_eq!(cpu.step().unwrap(), 7);
    assert!(cpu.halted);
    assert_eq!(cpu.pc, 2);
    // A halted CPU idles at one cycle per step, touching nothing.
    assert_eq!(cpu.step().unwrap(), 1);
    assert_eq!(cpu.pc, 2);
    // An accepted interrupt wakes it.
    let cycles = cpu.interrupt(1);
    assert_eq!(cycles, 11);
    assert!(!cpu.halted);
    assert_eq!(cpu.pc, 8);
}

#[test]
fn interrupt_vectors_and_latch() {
    let mut cpu = cpu_with(&[0xFB, 0x00]); // EI
    cpu.step().unwrap();
    let cycles = cpu.interrupt(2);
    assert_eq!(cycles, 11);
    assert_eq!(cpu.pc, 16);
    assert!(!cpu.inte);
    // The old PC (1) was pushed high-then-low, wrapping SP from 0.
    assert_eq!(cpu.sp, 0xFFFE);
    assert_eq!(cpu.mem.read(0xFFFF), 0x00);
    assert_eq!(cpu.mem.read(0xFFFE), 0x01);
    // With the latch now clear a second interrupt is a no-op.
    let cycles = cpu.interrupt(1);
    assert_eq!(cycles, 0);
    assert_eq!(cpu.pc, 16);
}

#[test]
fn in_and_out_use_the_cpu_port_array() {
    let mut cpu = cpu_with(&[0xD3, 0x07, 0xDB, 0x07, 0xDB, 0x20]); // OUT 7 / IN 7 / IN 0x20
    cpu.a = 0x42;
    assert_eq!(cpu.step().unwrap(), 10);
    assert_eq!(cpu.ports[7], 0x42);
    cpu.a = 0;
    assert_eq!(cpu.step().unwrap(), 10);
    assert_eq!(cpu.a, 0x42);
    // A port outside the array reads 0.
    assert_eq!(cpu.step().unwrap(), 10);
    assert_eq!(cpu.a, 0);
}

#[test]
fn ldax_stax_use_the_documented_pair_composition() {
    let mut cpu = cpu_with(&[0x02]); // STAX B
    cpu.a = 0x77;
    cpu.b = 0x20;
    cpu.c = 0x05;
    cpu.step().unwrap();
    assert_eq!(cpu.mem.read(0x2005), 0x77);

    let mut cpu2 = cpu_with(&[0x1A]); // LDAX D
    cpu2.d = 0x20;
    cpu2.e = 0x06;
    cpu2.mem.write(0x2006, 0x88);
    cpu2.step().unwrap();
    assert_eq!(cpu2.a, 0x88);
}

#[test]
fn inx_dcx_wrap_and_touch_no_flags() {
    let mut cpu = cpu_with(&[0x03]); // INX B
    cpu.b = 0xFF;
    cpu.c = 0xFF;
    assert_eq!(cpu.step().unwrap(), 5);
    assert_eq!((cpu.b, cpu.c), (0, 0));
    assert!(!cpu.flags.cy && !cpu.flags.z);

    let mut cpu2 = cpu_with(&[0x2B]); // DCX H
    assert_eq!(cpu2.step().unwrap(), 5);
    assert_eq!((cpu2.h, cpu2.l), (0xFF, 0xFF));
}

#[test]
fn sta_lda_direct_addressing() {
    let mut cpu = cpu_with(&[0x32, 0x00, 0x25, 0x3A, 0x00, 0x25]);
    cpu.a = 0x5C;
    assert_eq!(cpu.step().unwrap(), 13);
    assert_eq!(cpu.mem.read(0x2500), 0x5C);
    cpu.a = 0;
    assert_eq!(cpu.step().unwrap(), 13);
    assert_eq!(cpu.a, 0x5C);
    assert_eq!(cpu.pc, 6);
}

#[test]
fn pchl_and_sphl_load_from_hl() {
    let mut cpu = cpu_with(&[0xE9]);
    cpu.h = 0x12;
    cpu.l = 0x34;
    assert_eq!(cpu.step().unwrap(), 5);
    assert_eq!(cpu.pc, 0x1234);

    let mut cpu2 = cpu_with(&[0xF9]);
    cpu2.h = 0x24;
    cpu2.l = 0x00;
    assert_eq!(cpu2.step().unwrap(), 5);
    assert_eq!(cpu2.sp, 0x2400);
    assert_eq!(cpu2.pc, 1);
}

#[test]
fn cma_stc_cmc() {
    let mut cpu = cpu_with(&[0x2F, 0x37, 0x3F]);
    cpu.a = 0x51;
    cpu.step().unwrap();
    assert_eq!(cpu.a, 0xAE);
    cpu.step().unwrap();
    assert!(cpu.flags.cy);
    cpu.step().unwrap();
    assert!(!cpu.flags.cy);
}

#[test]
fn rst_vectors_to_eight_times_n() {
    let mut cpu = cpu_with(&[0xD7]); // RST 2
    cpu.sp = 0x2400;
    assert_eq!(cpu.step().unwrap(), 11);
    assert_eq!(cpu.pc, 0x10);
    assert_eq!(cpu.sp, 0x23FE);
    assert_eq!(cpu.mem.read(0x23FE), 0x01);
    assert_eq!(cpu.mem.read(0x23FF), 0x00);
}
