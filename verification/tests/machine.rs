use emu8080::spaceinvaders::{Key, SpaceInvadersMachine};

fn machine_with(program: &[u8]) -> SpaceInvadersMachine {
    SpaceInvadersMachine::new(&program.to_vec())
}

#[test]
fn machine_new_loads_rom_at_zero() {
    let m = machine_with(&[0x11, 0x22, 0x33]);
    assert_eq!(m.cpu.mem.read(0), 0x11);
    assert_eq!(m.cpu.mem.read(2), 0x33);
    assert_eq!(m.cpu.mem.read(3), 0x00);
    assert_eq!(m.cpu.pc, 0);
    assert_eq!(m.cpu.sp, 0);
    assert_eq!(m.port1, 0);
    assert_eq!(m.port2, 0);
    assert_eq!((m.shiftx, m.shifty, m.shift_offset), (0, 0, 0));
}

#[test]
fn in_zero_reads_the_idle_byte() {
    let mut m = machine_with(&[0xDB, 0x00]);
    let out = m.step().unwrap();
    assert_eq!(out.cycles, 10);
    assert_eq!(m.cpu.a, 1);
    assert_eq!(m.cpu.pc, 2);
}

#[test]
fn in_one_and_two_read_the_input_ports() {
    let mut m = machine_with(&[0xDB, 0x01, 0xDB, 0x02]);
    m.port1 = 0x15;
    m.port2 = 0x40;
    m.step().unwrap();
    assert_eq!(m.cpu.a, 0x15);
    m.step().unwrap();
    assert_eq!(m.cpu.a, 0x40);
}

#[test]
fn shift_register_reads_through_the_offset() {
    // OUT 4 (A=0xAB), OUT 4 (A=0xCD), OUT 2 (A=3), IN 3.
    let mut m = machine_with(&[0x3E, 0xAB, 0xD3, 0x04, 0x3E, 0xCD, 0xD3, 0x04, 0x3E, 0x03, 0xD3,
        0x02, 0xDB, 0x03]);
    m.step().unwrap();
    let out = m.step().unwrap();
    assert_eq!(out.cycles, 10);
    assert_eq!(m.shiftx, 0xAB);
    m.step().unwrap();
    m.step().unwrap();
    assert_eq!(m.shifty, 0xAB);
    assert_eq!(m.shiftx, 0xCD);
    m.step().unwrap();
    m.step().unwrap();
    assert_eq!(m.shift_offset, 3);
    m.step().unwrap();
    m.step().unwrap();
    // ((0xAB << 8 | 0xCD) >> (8 - 3)) & 0xFF
    assert_eq!(m.cpu.a, 0x5E);
}

#[test]
fn out_two_keeps_only_three_bits() {
    let mut m = machine_with(&[0x3E, 0xFF, 0xD3, 0x02]);
    m.step().unwrap();
    m.step().unwrap();
    assert_eq!(m.shift_offset, 7);
}

#[test]
fn sound_bits_trigger_on_edges_only() {
    // OUT 3 with A=0b0000_1001: sounds 0 and 3 start.
    let mut m = machine_with(&[0x3E, 0x09, 0xD3, 0x03, 0xD3, 0x03, 0x3E, 0x01, 0xD3, 0x03]);
    m.step().unwrap();
    let out = m.step().unwrap();
    assert_eq!(out.starts, 0b0000_1001);
    assert_eq!(out.stops, 0);
    // The same byte again: no edges, nothing starts or stops.
    let out = m.step().unwrap();
    assert_eq!(out.starts, 0);
    assert_eq!(out.stops, 0);
    // Dropping bit 3: sound 3 stops.
    m.step().unwrap();
    let out = m.step().unwrap();
    assert_eq!(out.starts, 0);
    assert_eq!(out.stops, 0b0000_1000);
}

#[test]
fn out_five_drives_sounds_five_and_up() {
    let mut m = machine_with(&[0x3E, 0x03, 0xD3, 0x05, 0x3E, 0x00, 0xD3, 0x05]);
    m.step().unwrap();
    let out = m.step().unwrap();
    assert_eq!(out.starts, 0b0110_0000); // sounds 5 and 6
    assert_eq!(out.stops, 0);
    m.step().unwrap();
    let out = m.step().unwrap();
    assert_eq!(out.starts, 0);
    assert_eq!(out.stops, 0b0110_0000);
}

#[test]
fn watchdog_port_is_ignored() {
    let mut m = machine_with(&[0x3E, 0x77, 0xD3, 0x06]);
    m.step().unwrap();
    let out = m.step().unwrap();
    assert_eq!(out.cycles, 10);
    assert_eq!(out.starts, 0);
    assert_eq!(m.cpu.pc, 4);
    // Nothing reached the CPU port array.
    assert_eq!(m.cpu.ports[6], 0);
}

#[test]
fn other_ports_fall_through_to_the_cpu() {
    let mut m = machine_with(&[0x3E, 0x12, 0xD3, 0x07, 0xDB, 0x07]);
    m.step().unwrap();
    m.step().unwrap();
    assert_eq!(m.cpu.ports[7], 0x12);
    m.cpu.a = 0;
    m.step().unwrap();
    assert_eq!(m.cpu.a, 0x12);
}

#[test]
fn key_events_set_and_clear_port_bits() {
    let mut m = machine_with(&[0x00]);
    m.key_event(Key::Coin, true);
    assert_eq!(m.port1, 0x01);
    assert_eq!(m.port2, 0x00);
    m.key_event(Key::Start1, true);
    m.key_event(Key::Fire, true);
    m.key_event(Key::Right, true);
    m.key_event(Key::Left, true);
    assert_eq!(m.port1, 0x75);
    assert_eq!(m.port2, 0x70);
    m.key_event(Key::Fire, false);
    assert_eq!(m.port1, 0x65);
    assert_eq!(m.port2, 0x60);
    m.key_event(Key::Coin, false);
    assert_eq!(m.port1, 0x64);
}

#[test]
fn machine_interrupt_delegates_to_the_cpu() {
    let mut m = machine_with(&[0xFB, 0x00]);
    m.cpu.sp = 0x2400;
    m.step().unwrap();
    let cycles = m.interrupt(2);
    assert_eq!(cycles, 11);
    assert_eq!(m.cpu.pc, 16);
    assert!(!m.cpu.inte);
}

#[test]
fn framebuffer_lights_exactly_the_set_bits() {
    let mut rom = vec![0u8; 0x2401];
    rom[0x2400] = 0x01;
    let m = SpaceInvadersMachine::new(&rom);
    let frame = m.frame_rgba();
    assert_eq!(frame.len(), 224 * 256 * 4);
    // Pixel (0, 0) is the only white one.
    assert_eq!(&frame[0..4], &[255, 255, 255, 255]);
    for y in 0..256usize {
        for x in 0..224usize {
            let base = (y * 224 + x) * 4;
            let expected = if x == 0 && y == 0 { 255 } else { 0 };
            assert_eq!(frame[base], expected, "pixel ({}, {})", x, y);
            assert_eq!(frame[base + 1], expected);
            assert_eq!(frame[base + 2], expected);
            assert_eq!(frame[base + 3], 255);
        }
    }
}

#[test]
fn framebuffer_bit_position_maps_column_major() {
    // Bit 5 of the byte at 0x2400 + 3 * 32 + 7 is pixel (3, 61).
    let mut rom = vec![0u8; 0x2400 + 3 * 32 + 8];
    rom[0x2400 + 3 * 32 + 7] = 1 << 5;
    let m = SpaceInvadersMachine::new(&rom);
    let frame = m.frame_rgba();
    let base = (61 * 224 + 3) * 4;
    assert_eq!(&frame[base..base + 4], &[255, 255, 255, 255]);
    assert_eq!(frame[0], 0);
}

#[test]
fn halted_cpu_is_not_intercepted() {
    let mut m = machine_with(&[0x76, 0xDB, 0x00]);
    m.step().unwrap();
    assert!(m.cpu.halted);
    let out = m.step().unwrap();
    assert_eq!(out.cycles, 1);
    assert_eq!(m.cpu.pc, 1);
}

#[test]
fn machine_reports_unimplemented_opcodes() {
    let mut m = machine_with(&[0xDD]);
    let err = m.step().unwrap_err();
    assert_eq!(err, emu8080::cpu::StepError::Unimplemented { opcode: 0xDD, pc: 0 });
}
