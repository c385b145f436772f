//! The Space Invaders cabinet around the CPU: the dedicated 16-bit shift
//! register on ports 2, 3 and 4, the edge-triggered sound selects on ports
//! 3 and 5, the two input ports, and the 1 bpp framebuffer decode. The
//! machine intercepts IN 0-3 and OUT 2-6 before the CPU sees them; any
//! other port falls through to the CPU's port array.

use vstd::prelude::*;

use crate::arith::{bit_of, pair, pow2i, pow2_small, wadd16, wrap16, wrap8};
use crate::cpu::{Cpu, StepError};
use crate::state::{imm1, opcode_at, CpuView};
use crate::step::{spec_interrupt, spec_step, step_ok};

verus! {

/// The abstract machine state: the CPU plus the cabinet latches.
#[verifier::ext_equal]
pub ghost struct MachineView {
    pub cpu: CpuView,
    /// The byte most recently written to the shift register (OUT 4).
    pub shiftx: u8,
    /// The byte written before it.
    pub shifty: u8,
    /// The read offset, the low 3 bits of OUT 2.
    pub shift_offset: u8,
    /// The previous OUT 3 byte, for sound edge detection.
    pub prev_sound_low: u8,
    /// The previous OUT 5 byte, for sound edge detection.
    pub prev_sound_high: u8,
    /// The IN 1 byte: coin, start and player-1 controls.
    pub port1: u8,
    /// The IN 2 byte: DIP switches and player-2 controls.
    pub port2: u8,
}

/// The byte IN 3 reads: the 16-bit shift word, `shifty` high, shifted
/// right by `8 - shift_offset` and truncated to 8 bits.
pub open spec fn shift_value(m: MachineView) -> u8 {
    wrap8(pair(m.shifty, m.shiftx) as int / pow2i(8 - m.shift_offset))
}

/// 1 when the bit rose from `prev` to `cur`, else 0.
pub open spec fn rise_i(prev: u8, cur: u8, k: int) -> int {
    if bit_of(cur, k) && !bit_of(prev, k) {
        1
    } else {
        0
    }
}

/// 1 when the bit fell from `prev` to `cur`, else 0.
pub open spec fn fall_i(prev: u8, cur: u8, k: int) -> int {
    rise_i(cur, prev, k)
}

/// The sounds among 0 through 4 that an OUT 3 byte starts: bit `k` of the
/// result stands for sound `k`.
pub open spec fn starts_low(prev: u8, cur: u8) -> u16 {
    (rise_i(prev, cur, 0) + 2 * rise_i(prev, cur, 1) + 4 * rise_i(prev, cur, 2) + 8 * rise_i(
        prev,
        cur,
        3,
    ) + 16 * rise_i(prev, cur, 4)) as u16
}

/// The sounds among 0 through 4 that an OUT 3 byte stops.
pub open spec fn stops_low(prev: u8, cur: u8) -> u16 {
    (fall_i(prev, cur, 0) + 2 * fall_i(prev, cur, 1) + 4 * fall_i(prev, cur, 2) + 8 * fall_i(
        prev,
        cur,
        3,
    ) + 16 * fall_i(prev, cur, 4)) as u16
}

/// The sounds among 5 through 8 that an OUT 5 byte starts: bit `5 + k` of
/// the result stands for sound `5 + k`, driven by bit `k` of the byte.
pub open spec fn starts_high(prev: u8, cur: u8) -> u16 {
    (32 * rise_i(prev, cur, 0) + 64 * rise_i(prev, cur, 1) + 128 * rise_i(prev, cur, 2) + 256
        * rise_i(prev, cur, 3)) as u16
}

/// The sounds among 5 through 8 that an OUT 5 byte stops.
pub open spec fn stops_high(prev: u8, cur: u8) -> u16 {
    (32 * fall_i(prev, cur, 0) + 64 * fall_i(prev, cur, 1) + 128 * fall_i(prev, cur, 2) + 256
        * fall_i(prev, cur, 3)) as u16
}

/// One machine step: the next state, the cycle count, and the sounds to
/// start and stop, as bit masks over the nine sound slots.
pub ghost struct MStep {
    pub post: MachineView,
    pub cycles: u32,
    pub starts: u16,
    pub stops: u16,
}

/// Whether the next opcode is one of the intercepted port instructions:
/// IN 0-3 or OUT 2-6 on a running CPU.
pub open spec fn intercepted(m: MachineView) -> bool {
    let s = m.cpu;
    let port = imm1(s);
    !s.halted && ((opcode_at(s) == 0xDB && port < 4) || (opcode_at(s) == 0xD3 && 2 <= port
        && port <= 6))
}

/// Whether the next machine step succeeds: an intercepted port
/// instruction always does; anything else succeeds exactly when the CPU
/// step does.
pub open spec fn machine_step_ok(m: MachineView) -> bool {
    intercepted(m) || step_ok(m.cpu)
}

/// The machine transition function: the intercepted IN reads the idle
/// byte, the input ports or the shift register; the intercepted OUT sets
/// the shift state or latches the sound selects (port 6, the watchdog, is
/// ignored); every intercept advances PC by 2 and takes 10 cycles.
/// Everything else is one CPU step.
pub open spec fn spec_machine_step(m: MachineView) -> MStep {
    let s = m.cpu;
    let port = imm1(s);
    let stepped = CpuView { pc: wrap16(s.pc + 2), ..s };
    if intercepted(m) {
        if opcode_at(s) == 0xDB {
            let a2 = if port == 0 {
                1u8
            } else if port == 1 {
                m.port1
            } else if port == 2 {
                m.port2
            } else {
                shift_value(m)
            };
            MStep {
                post: MachineView { cpu: CpuView { a: a2, ..stepped }, ..m },
                cycles: 10,
                starts: 0,
                stops: 0,
            }
        } else {
            if port == 2 {
                MStep {
                    post: MachineView { cpu: stepped, shift_offset: s.a % 8, ..m },
                    cycles: 10,
                    starts: 0,
                    stops: 0,
                }
            } else if port == 3 {
                MStep {
                    post: MachineView { cpu: stepped, prev_sound_low: s.a, ..m },
                    cycles: 10,
                    starts: starts_low(m.prev_sound_low, s.a),
                    stops: stops_low(m.prev_sound_low, s.a),
                }
            } else if port == 4 {
                MStep {
                    post: MachineView { cpu: stepped, shifty: m.shiftx, shiftx: s.a, ..m },
                    cycles: 10,
                    starts: 0,
                    stops: 0,
                }
            } else if port == 5 {
                MStep {
                    post: MachineView { cpu: stepped, prev_sound_high: s.a, ..m },
                    cycles: 10,
                    starts: starts_high(m.prev_sound_high, s.a),
                    stops: stops_high(m.prev_sound_high, s.a),
                }
            } else {
                MStep { post: MachineView { cpu: stepped, ..m }, cycles: 10, starts: 0, stops: 0 }
            }
        }
    } else {
        MStep {
            post: MachineView { cpu: spec_step(s).post, ..m },
            cycles: spec_step(s).cycles,
            starts: 0,
            stops: 0,
        }
    }
}

/// Every intercepted port instruction advances PC by exactly 2 and
/// charges 10 cycles, leaving memory, SP and the flags untouched.
pub proof fn lemma_intercept_shape(m: MachineView)
    requires
        intercepted(m),
    ensures
        spec_machine_step(m).post.cpu.pc == wrap16(m.cpu.pc + 2),
        spec_machine_step(m).cycles == 10,
        spec_machine_step(m).post.cpu.mem == m.cpu.mem,
        spec_machine_step(m).post.cpu.sp == m.cpu.sp,
        spec_machine_step(m).post.cpu.flags == m.cpu.flags,
{
}

/// What one machine step did: its cycle count and the sound slots to
/// start and to stop, as bit masks (bit `k` stands for sound `k`).
#[derive(Clone, Copy, PartialEq, Eq, Structural, Debug)]
pub struct MachineStep {
    pub cycles: u32,
    pub starts: u16,
    pub stops: u16,
}

/// The keys the cabinet knows. ESCAPE is handled by the surrounding loop.
#[derive(Clone, Copy, PartialEq, Eq, Structural, Debug)]
pub enum Key {
    Coin,
    Start1,
    Fire,
    Left,
    Right,
}

/// The port-1 bit for each key: bit 0 coin, bit 2 start, bit 4 fire,
/// bit 5 right, bit 6 left.
pub open spec fn key_bit1(key: Key) -> u8 {
    match key {
        Key::Coin => 0x01,
        Key::Start1 => 0x04,
        Key::Fire => 0x10,
        Key::Right => 0x20,
        Key::Left => 0x40,
    }
}

/// The port-2 bit for each key: fire, right and left mirror on bits 4, 5
/// and 6 for player 2; coin and start have no port-2 bit.
pub open spec fn key_bit2(key: Key) -> u8 {
    match key {
        Key::Coin => 0x00,
        Key::Start1 => 0x00,
        Key::Fire => 0x10,
        Key::Right => 0x20,
        Key::Left => 0x40,
    }
}

/// The Space Invaders machine: the CPU and the cabinet latches.
pub struct SpaceInvadersMachine {
    pub cpu: Cpu,
    pub shiftx: u8,
    pub shifty: u8,
    pub shift_offset: u8,
    pub prev_sound_low: u8,
    pub prev_sound_high: u8,
    pub port1: u8,
    pub port2: u8,
}

impl View for SpaceInvadersMachine {
    type V = MachineView;

    open spec fn view(&self) -> MachineView {
        MachineView {
            cpu: self.cpu@,
            shiftx: self.shiftx,
            shifty: self.shifty,
            shift_offset: self.shift_offset,
            prev_sound_low: self.prev_sound_low,
            prev_sound_high: self.prev_sound_high,
            port1: self.port1,
            port2: self.port2,
        }
    }
}

impl SpaceInvadersMachine {
    /// The CPU sizes, and a shift offset that stays below 8.
    pub open spec fn wf(self) -> bool {
        self.cpu.wf() && self.shift_offset < 8
    }

    /// A machine with the ROM loaded at address 0 and everything else in
    /// the reset state. Port 2 starts at 0: 3 ships, bonus at 1500.
    pub fn new(rom: &Vec<u8>) -> (m: SpaceInvadersMachine)
        requires
            rom@.len() <= 0x10000,
        ensures
            m.wf(),
            m@.cpu == (CpuView { mem: m@.cpu.mem, ..CpuView::reset() }),
            forall|i: int| 0 <= i < rom@.len() ==> m@.cpu.mem[i] == rom@[i],
            forall|i: int| rom@.len() <= i < 0x10000 ==> m@.cpu.mem[i] == 0,
            m@.shiftx == 0 && m@.shifty == 0 && m@.shift_offset == 0,
            m@.prev_sound_low == 0 && m@.prev_sound_high == 0,
            m@.port1 == 0 && m@.port2 == 0,
    {
        let mut cpu = Cpu::new();
        cpu.mem.load(rom, 0);
        proof {
            assert(cpu@ =~= (CpuView { mem: cpu@.mem, ..CpuView::reset() }));
        }
        SpaceInvadersMachine {
            cpu,
            shiftx: 0,
            shifty: 0,
            shift_offset: 0,
            prev_sound_low: 0,
            prev_sound_high: 0,
            port1: 0,
            port2: 0,
        }
    }

    /// Applies a key press or release to the input port bytes.
    pub fn key_event(&mut self, key: Key, pressed: bool)
        ensures
            final(self)@ == (MachineView {
                port1: if pressed {
                    old(self)@.port1 | key_bit1(key)
                } else {
                    old(self)@.port1 & !key_bit1(key)
                },
                port2: if pressed {
                    old(self)@.port2 | key_bit2(key)
                } else {
                    old(self)@.port2 & !key_bit2(key)
                },
                ..old(self)@
            }),
    {
        let mask1: u8 = match key {
            Key::Coin => 0x01,
            Key::Start1 => 0x04,
            Key::Fire => 0x10,
            Key::Right => 0x20,
            Key::Left => 0x40,
        };
        let mask2: u8 = match key {
            Key::Coin => 0x00,
            Key::Start1 => 0x00,
            Key::Fire => 0x10,
            Key::Right => 0x20,
            Key::Left => 0x40,
        };
        if pressed {
            self.port1 = self.port1 | mask1;
            self.port2 = self.port2 | mask2;
        } else {
            self.port1 = self.port1 & !mask1;
            self.port2 = self.port2 & !mask2;
        }
        proof {
            assert(self@ =~= (MachineView {
                port1: if pressed {
                    old(self)@.port1 | key_bit1(key)
                } else {
                    old(self)@.port1 & !key_bit1(key)
                },
                port2: if pressed {
                    old(self)@.port2 | key_bit2(key)
                } else {
                    old(self)@.port2 & !key_bit2(key)
                },
                ..old(self)@
            }));
        }
    }

    /// Delegates interrupt acknowledgement to the CPU.
    pub fn interrupt(&mut self, n: u8) -> (cyc: u32)
        requires
            old(self).wf(),
            n < 8,
        ensures
            final(self)@ == (MachineView { cpu: spec_interrupt(old(self)@.cpu, n).post, ..old(
                self,
            )@ }),
            cyc == spec_interrupt(old(self)@.cpu, n).cycles,
            final(self).wf(),
    {
        self.cpu.interrupt(n)
    }

    /// One machine step: runs the intercepted port instructions itself and
    /// hands everything else to the CPU. On success returns the cycle
    /// count and the sound start/stop masks; an unimplemented opcode
    /// leaves the machine unchanged and reports the opcode and PC.
    pub fn step(&mut self) -> (r: Result<MachineStep, StepError>)
        requires
            old(self).wf(),
        ensures
            final(self).wf(),
            match r {
                Ok(out) => {
                    let t = spec_machine_step(old(self)@);
                    &&& machine_step_ok(old(self)@)
                    &&& final(self)@ == t.post
                    &&& out == (MachineStep { cycles: t.cycles, starts: t.starts, stops: t.stops })
                },
                Err(e) => {
                    &&& !machine_step_ok(old(self)@)
                    &&& final(self)@ == old(self)@
                    &&& e == (StepError::Unimplemented {
                        opcode: opcode_at(old(self)@.cpu),
                        pc: old(self)@.cpu.pc,
                    })
                },
            },
    {
        let op = self.cpu.mem.read(self.cpu.pc);
        let port = self.cpu.mem.read(wadd16(self.cpu.pc, 1));
        let running = !self.cpu.halted;
        if running && op == 0xDB && port < 4 {
            let a2: u8 = if port == 0 {
                1
            } else if port == 1 {
                self.port1
            } else if port == 2 {
                self.port2
            } else {
                let w = crate::arith::join_bytes(self.shifty, self.shiftx);
                let divisor = pow2_small(8 - self.shift_offset);
                ((w as u32 / divisor) % 0x100) as u8
            };
            self.cpu.a = a2;
            self.cpu.pc = wadd16(self.cpu.pc, 2);
            proof {
                assert(self@ =~= spec_machine_step(old(self)@).post);
            }
            Ok(MachineStep { cycles: 10, starts: 0, stops: 0 })
        } else if running && op == 0xD3 && 2 <= port && port <= 6 {
            let acc = self.cpu.a;
            self.cpu.pc = wadd16(self.cpu.pc, 2);
            if port == 2 {
                self.shift_offset = acc % 8;
                proof {
                    assert(self@ =~= spec_machine_step(old(self)@).post);
                }
                Ok(MachineStep { cycles: 10, starts: 0, stops: 0 })
            } else if port == 3 {
                let prev = self.prev_sound_low;
                self.prev_sound_low = acc;
                let edges = edges_low(prev, acc);
                proof {
                    assert(self@ =~= spec_machine_step(old(self)@).post);
                }
                Ok(MachineStep { cycles: 10, starts: edges.0, stops: edges.1 })
            } else if port == 4 {
                self.shifty = self.shiftx;
                self.shiftx = acc;
                proof {
                    assert(self@ =~= spec_machine_step(old(self)@).post);
                }
                Ok(MachineStep { cycles: 10, starts: 0, stops: 0 })
            } else if port == 5 {
                let prev = self.prev_sound_high;
                self.prev_sound_high = acc;
                let edges = edges_high(prev, acc);
                proof {
                    assert(self@ =~= spec_machine_step(old(self)@).post);
                }
                Ok(MachineStep { cycles: 10, starts: edges.0, stops: edges.1 })
            } else {  // the watchdog port: ignored
                proof {
                    assert(self@ =~= spec_machine_step(old(self)@).post);
                }
                Ok(MachineStep { cycles: 10, starts: 0, stops: 0 })
            }
        } else {
            match self.cpu.step() {
                Ok(cycles) => {
                    proof {
                        assert(self@ =~= spec_machine_step(old(self)@).post);
                    }
                    Ok(MachineStep { cycles, starts: 0, stops: 0 })
                },
                Err(e) => Err(e),
            }
        }
    }
}

/// Whether the pixel at `(x, y)` is lit: video memory starts at 0x2400,
/// 1 bit per pixel, 32 bytes per column of 256 rows; bit `y % 8` of the
/// byte at `x * 32 + y / 8` is the pixel.
pub open spec fn pixel_on(mem: Seq<u8>, x: int, y: int) -> bool {
    bit_of(mem[0x2400 + x * 32 + y / 8], y % 8)
}

/// The red, green and blue byte of the pixel: opaque white when lit,
/// opaque black when not.
pub open spec fn pixel_rgb(mem: Seq<u8>, x: int, y: int) -> u8 {
    if pixel_on(mem, x, y) {
        255
    } else {
        0
    }
}

impl SpaceInvadersMachine {
    /// Decodes the 1 bpp video memory into a 224 x 256 RGBA frame,
    /// row-major from pixel (0, 0): four bytes per pixel, alpha always
    /// opaque.
    pub fn frame_rgba(&self) -> (v: Vec<u8>)
        requires
            self.wf(),
        ensures
            v@.len() == 224 * 256 * 4,
            forall|x: int, y: int|
                0 <= x < 224 && 0 <= y < 256 ==> {
                    &&& v@[(y * 224 + x) * 4] == pixel_rgb(self@.cpu.mem, x, y)
                    &&& v@[(y * 224 + x) * 4 + 1] == pixel_rgb(self@.cpu.mem, x, y)
                    &&& v@[(y * 224 + x) * 4 + 2] == pixel_rgb(self@.cpu.mem, x, y)
                    &&& v@[(y * 224 + x) * 4 + 3] == 255
                },
    {
        let mut v: Vec<u8> = Vec::new();
        let mut y: usize = 0;
        while y < 256
            invariant
                self.wf(),
                y <= 256,
                v@.len() == y * 224 * 4,
                forall|xx: int, yy: int|
                    0 <= xx < 224 && 0 <= yy < y ==> {
                        &&& v@[(yy * 224 + xx) * 4] == pixel_rgb(self@.cpu.mem, xx, yy)
                        &&& v@[(yy * 224 + xx) * 4 + 1] == pixel_rgb(self@.cpu.mem, xx, yy)
                        &&& v@[(yy * 224 + xx) * 4 + 2] == pixel_rgb(self@.cpu.mem, xx, yy)
                        &&& v@[(yy * 224 + xx) * 4 + 3] == 255
                    },
            decreases 256 - y,
        {
            let mut x: usize = 0;
            while x < 224
                invariant
                    self.wf(),
                    y < 256,
                    x <= 224,
                    v@.len() == (y * 224 + x) * 4,
                    forall|xx: int, yy: int|
                        0 <= xx < 224 && 0 <= yy < y ==> {
                            &&& v@[(yy * 224 + xx) * 4] == pixel_rgb(self@.cpu.mem, xx, yy)
                            &&& v@[(yy * 224 + xx) * 4 + 1] == pixel_rgb(self@.cpu.mem, xx, yy)
                            &&& v@[(yy * 224 + xx) * 4 + 2] == pixel_rgb(self@.cpu.mem, xx, yy)
                            &&& v@[(yy * 224 + xx) * 4 + 3] == 255
                        },
                    forall|xx: int|
                        0 <= xx < x ==> {
                            &&& v@[(y * 224 + xx) * 4] == pixel_rgb(self@.cpu.mem, xx, y as int)
                            &&& v@[(y * 224 + xx) * 4 + 1] == pixel_rgb(
                                self@.cpu.mem,
                                xx,
                                y as int,
                            )
                            &&& v@[(y * 224 + xx) * 4 + 2] == pixel_rgb(
                                self@.cpu.mem,
                                xx,
                                y as int,
                            )
                            &&& v@[(y * 224 + xx) * 4 + 3] == 255
                        },
                decreases 224 - x,
            {
                let offset: u16 = (x as u16) * 32 + (y as u16) / 8;
                let addr: u16 = 0x2400 + offset;
                let byte = self.cpu.mem.read(addr);
                let divisor = pow2_small((y % 8) as u8);
                let lit = (byte as u32 / divisor) % 2 == 1;
                let c: u8 = if lit {
                    255
                } else {
                    0
                };
                v.push(c);
                v.push(c);
                v.push(c);
                v.push(255);
                proof {
                    assert(lit == pixel_on(self@.cpu.mem, x as int, y as int));
                }
                x = x + 1;
            }
            proof {
                assert forall|xx: int, yy: int| 0 <= xx < 224 && 0 <= yy < y + 1 implies {
                    &&& v@[(yy * 224 + xx) * 4] == pixel_rgb(self@.cpu.mem, xx, yy)
                    &&& v@[(yy * 224 + xx) * 4 + 1] == pixel_rgb(self@.cpu.mem, xx, yy)
                    &&& v@[(yy * 224 + xx) * 4 + 2] == pixel_rgb(self@.cpu.mem, xx, yy)
                    &&& v@[(yy * 224 + xx) * 4 + 3] == 255
                } by {
                    if yy < y {
                        assert(v@[(yy * 224 + xx) * 4] == pixel_rgb(self@.cpu.mem, xx, yy));
                    } else {
                        assert(v@[(y as int * 224 + xx) * 4] == pixel_rgb(
                            self@.cpu.mem,
                            xx,
                            y as int,
                        ));
                    }
                };
            }
            y = y + 1;
        }
        v
    }
}

/// The start and stop masks of an OUT 3 write: bits 0 through 4 of the
/// byte drive sounds 0 through 4.
fn edges_low(prev: u8, cur: u8) -> (r: (u16, u16))
    ensures
        r.0 == starts_low(prev, cur),
        r.1 == stops_low(prev, cur),
{
    proof {
        reveal_with_fuel(pow2i, 10);
    }
    let mut starts: u16 = 0;
    let mut stops: u16 = 0;
    if cur % 2 == 1 && prev % 2 == 0 {
        starts = starts + 1;
    }
    if cur % 2 == 0 && prev % 2 == 1 {
        stops = stops + 1;
    }
    if (cur / 2) % 2 == 1 && (prev / 2) % 2 == 0 {
        starts = starts + 2;
    }
    if (cur / 2) % 2 == 0 && (prev / 2) % 2 == 1 {
        stops = stops + 2;
    }
    if (cur / 4) % 2 == 1 && (prev / 4) % 2 == 0 {
        starts = starts + 4;
    }
    if (cur / 4) % 2 == 0 && (prev / 4) % 2 == 1 {
        stops = stops + 4;
    }
    if (cur / 8) % 2 == 1 && (prev / 8) % 2 == 0 {
        starts = starts + 8;
    }
    if (cur / 8) % 2 == 0 && (prev / 8) % 2 == 1 {
        stops = stops + 8;
    }
    if (cur / 16) % 2 == 1 && (prev / 16) % 2 == 0 {
        starts = starts + 16;
    }
    if (cur / 16) % 2 == 0 && (prev / 16) % 2 == 1 {
        stops = stops + 16;
    }
    (starts, stops)
}

/// The start and stop masks of an OUT 5 write: bits 0 through 3 of the
/// byte drive sounds 5 through 8.
fn edges_high(prev: u8, cur: u8) -> (r: (u16, u16))
    ensures
        r.0 == starts_high(prev, cur),
        r.1 == stops_high(prev, cur),
{
    proof {
        reveal_with_fuel(pow2i, 10);
    }
    let mut starts: u16 = 0;
    let mut stops: u16 = 0;
    if cur % 2 == 1 && prev % 2 == 0 {
        starts = starts + 32;
    }
    if cur % 2 == 0 && prev % 2 == 1 {
        stops = stops + 32;
    }
    if (cur / 2) % 2 == 1 && (prev / 2) % 2 == 0 {
        starts = starts + 64;
    }
    if (cur / 2) % 2 == 0 && (prev / 2) % 2 == 1 {
        stops = stops + 64;
    }
    if (cur / 4) % 2 == 1 && (prev / 4) % 2 == 0 {
        starts = starts + 128;
    }
    if (cur / 4) % 2 == 0 && (prev / 4) % 2 == 1 {
        stops = stops + 128;
    }
    if (cur / 8) % 2 == 1 && (prev / 8) % 2 == 0 {
        starts = starts + 256;
    }
    if (cur / 8) % 2 == 0 && (prev / 8) % 2 == 1 {
        stops = stops + 256;
    }
    (starts, stops)
}

} // verus!
