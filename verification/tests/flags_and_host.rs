use emu8080::cpm::cpm_bdos_output;
use emu8080::cpu::Cpu;
use emu8080::flags::Flags;
use emu8080::memory::Memory;
use emu8080::timing::{input_poll_due, FrameClock};

#[test]
fn packed_byte_layout() {
    let mut f = Flags::new();
    assert_eq!(f.packed(), 0x02); // bit 1 is always set
    f.cy = true;
    assert_eq!(f.packed(), 0x03);
    f.p = true;
    assert_eq!(f.packed(), 0x07);
    f.ac = true;
    assert_eq!(f.packed(), 0x17);
    f.z = true;
    assert_eq!(f.packed(), 0x57);
    f.s = true;
    assert_eq!(f.packed(), 0xD7);
}

#[test]
fn unpack_ignores_the_fixed_bits() {
    let mut f = Flags::new();
    f.unpack(0xFF);
    assert!(f.z && f.s && f.p && f.cy && f.ac);
    f.unpack(0x00);
    assert!(!f.z && !f.s && !f.p && !f.cy && !f.ac);
    // Bits 1, 3 and 5 carry nothing.
    f.unpack(0b0010_1010);
    assert!(!f.z && !f.s && !f.p && !f.cy && !f.ac);
    // unpack then pack forces bit 1 on and bits 3 and 5 off.
    f.unpack(0xD5);
    assert_eq!(f.packed(), 0xD7);
}

#[test]
fn unpack_of_packed_restores_every_flag_combination() {
    for bits in 0..32u8 {
        let f = Flags {
            z: bits & 1 != 0,
            s: bits & 2 != 0,
            p: bits & 4 != 0,
            cy: bits & 8 != 0,
            ac: bits & 16 != 0,
        };
        let mut g = Flags::new();
        g.unpack(f.packed());
        assert_eq!(g, f);
    }
}

#[test]
fn set_zsp_follows_the_result_byte() {
    let mut f = Flags::new();
    f.cy = true;
    f.ac = true;
    f.set_zsp(0x00);
    assert!(f.z && !f.s && f.p && f.cy && f.ac);
    f.set_zsp(0x80);
    assert!(!f.z && f.s && !f.p);
    f.set_zsp(0x03);
    assert!(!f.z && !f.s && f.p);
    f.set_zsp(0x07);
    assert!(!f.p); // three bits set: odd parity
}

#[test]
fn memory_reads_are_little_endian_words() {
    let mut m = Memory::new();
    assert_eq!(m.read(0x1234), 0);
    m.write(0x1234, 0xCD);
    m.write(0x1235, 0xAB);
    assert_eq!(m.read16(0x1234), 0xABCD);
    // The word read wraps at the top of the address space.
    m.write(0xFFFF, 0x11);
    m.write(0x0000, 0x22);
    assert_eq!(m.read16(0xFFFF), 0x2211);
}

#[test]
fn frame_clock_advances_at_two_megahertz() {
    let mut clock = FrameClock::new();
    clock.advance(4);
    assert_eq!(clock.sim_time_ns, 2000);
    clock.advance(17);
    assert_eq!(clock.sim_time_ns, 2000 + 8500);
}

#[test]
fn vblank_interrupts_alternate_and_redraw_on_end_of_screen() {
    let mut clock = FrameClock::new();
    clock.advance(20_000); // 10 ms of simulated time
    // The latch is off: nothing is due.
    assert!(clock.poll_interrupt(false).is_none());
    let act = clock.poll_interrupt(true).unwrap();
    assert_eq!(act.vector, 1);
    assert!(!act.redraw);
    // Immediately afterwards nothing further is due.
    assert!(clock.poll_interrupt(true).is_none());
    clock.advance(20_000);
    let act = clock.poll_interrupt(true).unwrap();
    assert_eq!(act.vector, 2);
    assert!(act.redraw);
    clock.advance(20_000);
    assert_eq!(clock.poll_interrupt(true).unwrap().vector, 1);
}

#[test]
fn input_polls_at_sixty_hertz() {
    assert!(!input_poll_due(0, 0));
    assert!(!input_poll_due(16_666_666, 0));
    assert!(input_poll_due(16_666_667, 0));
    assert!(input_poll_due(50_000_000, 20_000_000));
}

#[test]
fn bdos_function_two_prints_the_character_in_e() {
    let mut cpu = Cpu::new();
    cpu.c = 2;
    cpu.e = b'A';
    assert_eq!(cpm_bdos_output(&cpu), vec![b'A']);
}

#[test]
fn bdos_function_nine_prints_until_the_dollar() {
    let mut cpu = Cpu::new();
    cpu.c = 9;
    cpu.d = 0x02;
    cpu.e = 0x00;
    for (i, &b) in b"HELLO$IGNORED".iter().enumerate() {
        cpu.mem.write(0x0200 + i as u16, b);
    }
    assert_eq!(cpm_bdos_output(&cpu), b"HELLO".to_vec());
}

#[test]
fn bdos_other_functions_print_nothing() {
    let mut cpu = Cpu::new();
    cpu.c = 1;
    assert_eq!(cpm_bdos_output(&cpu), Vec::<u8>::new());
}

#[test]
fn condition_predicates_read_the_bits() {
    let mut f = Flags::new();
    f.z = true;
    f.s = true;
    assert!(f.is_z() && !f.is_nz());
    assert!(f.is_minus() && !f.is_plus());
    assert!(f.is_nc() && !f.is_cy());
    assert!(f.is_po() && !f.is_pe());
    f.cy = true;
    f.p = true;
    assert!(f.is_cy() && f.is_pe());
}

#[test]
fn parity_follows_the_popcount() {
    let mut f = Flags::new();
    for v in 0..=255u8 {
        f.set_zsp(v);
        assert_eq!(f.p, v.count_ones() % 2 == 0, "parity of {v:#04x}");
    }
}
