//! The executable 8080: the register file, the owned memory and flags, the
//! instruction interpreter `step`, and interrupt acknowledgement. Every
//! operation is proved to follow the transition function in `step`.

use vstd::pervasive::VecAdditionalExecFns;
use vstd::prelude::*;

use crate::arith::{high_of, join_bytes, lemma_pair_split, lemma_split_pair, low_of, pair, wadd16,
    wsub16, wrap16};
use crate::flags::Flags;
use crate::memory::Memory;
use crate::state::{
    get_r, get_rp, opcode_at, popped16, port_read, port_write, push16, set_r, set_rp, CpuView,
};
use crate::step::{
    is_unimplemented, spec_add, spec_alu, spec_interrupt, spec_step, spec_sub, step_ok,
};

verus! {

/// The error `step` reports when the fetched opcode lies outside the
/// documented 8080 set. The state is left unchanged.
#[derive(Clone, Copy, PartialEq, Eq, Structural, Debug)]
pub enum StepError {
    Unimplemented { opcode: u8, pc: u16 },
}

/// What `Cpu::step` guarantees: on success the state and cycle count are
/// those of the transition function; on an unimplemented opcode the state
/// is untouched and the error carries the opcode and PC.
pub open spec fn step_obeys(pre: CpuView, post: CpuView, r: Result<u32, StepError>) -> bool {
    match r {
        Ok(cyc) => step_ok(pre) && post == spec_step(pre).post && cyc == spec_step(pre).cycles,
        Err(e) => !step_ok(pre) && post == pre && e == (StepError::Unimplemented {
            opcode: opcode_at(pre),
            pc: pre.pc,
        }),
    }
}

/// 8-bit addition with optional carry-in: result, carry-out, nibble carry.
fn add_core(a: u8, v: u8, cin: bool) -> (r: (u8, bool, bool))
    ensures
        ({
            let t = spec_add(a, v, cin);
            r.0 == t.0 && r.1 == t.1.cy && r.2 == t.1.ac
        }),
{
    let c: u16 = if cin {
        1
    } else {
        0
    };
    let t: u16 = a as u16 + v as u16 + c;
    let res: u8 = (t % 0x100) as u8;
    let aux = a % 16 + v % 16 + (c as u8) > 0xF;
    (res, t > 0xFF, aux)
}

/// 8-bit subtraction with optional borrow-in: result, borrow-out, and the
/// auxiliary bit (set when the low nibble needs no borrow).
fn sub_core(a: u8, v: u8, cin: bool) -> (r: (u8, bool, bool))
    ensures
        ({
            let t = spec_sub(a, v, cin);
            r.0 == t.0 && r.1 == t.1.cy && r.2 == t.1.ac
        }),
{
    let c: u16 = if cin {
        1
    } else {
        0
    };
    let t: u16 = a as u16 + 0x100 - v as u16 - c;
    proof {
        vstd::arithmetic::div_mod::lemma_mod_add_multiples_vanish(a - v - c, 0x100);
    }
    let res: u8 = (t % 0x100) as u8;
    let aux = a % 16 + (c as u8) >= v % 16;
    (res, (a as u16) < v as u16 + c, aux)
}

/// The 8080: seven general registers, SP, PC, the condition bits, the
/// interrupt-enable and halted latches, eight I/O ports and 64 KiB of
/// owned memory. Nominal clock speed: 2 MHz.
pub struct Cpu {
    pub a: u8,
    pub b: u8,
    pub c: u8,
    pub d: u8,
    pub e: u8,
    pub h: u8,
    pub l: u8,
    pub sp: u16,
    pub pc: u16,
    pub flags: Flags,
    pub inte: bool,
    pub halted: bool,
    pub ports: Vec<u8>,
    pub mem: Memory,
}

impl View for Cpu {
    type V = CpuView;

    open spec fn view(&self) -> CpuView {
        CpuView {
            a: self.a,
            b: self.b,
            c: self.c,
            d: self.d,
            e: self.e,
            h: self.h,
            l: self.l,
            sp: self.sp,
            pc: self.pc,
            flags: self.flags,
            inte: self.inte,
            halted: self.halted,
            ports: self.ports@,
            mem: self.mem@,
        }
    }
}

impl Cpu {
    /// The sizes every reachable CPU has: 64 KiB of memory, 8 ports.
    pub open spec fn wf(self) -> bool {
        self@.wf()
    }

    /// A CPU in the reset state: registers, flags and memory all zero,
    /// interrupts off.
    pub fn new() -> (cpu: Cpu)
        ensures
            cpu@ == CpuView::reset(),
            cpu.wf(),
    {
        let cpu = Cpu {
            a: 0,
            b: 0,
            c: 0,
            d: 0,
            e: 0,
            h: 0,
            l: 0,
            sp: 0,
            pc: 0,
            flags: Flags::new(),
            inte: false,
            halted: false,
            ports: vec![0u8; 8],
            mem: Memory::new(),
        };
        proof {
            assert(cpu@.ports =~= CpuView::reset().ports);
            assert(cpu@.mem =~= CpuView::reset().mem);
            assert(cpu@ =~= CpuView::reset());
        }
        cpu
    }

    /// The BC pair, B high.
    pub fn bc_pair(&self) -> (r: u16)
        ensures
            r == self@.bc(),
    {
        join_bytes(self.b, self.c)
    }

    /// The DE pair, D high.
    pub fn de_pair(&self) -> (r: u16)
        ensures
            r == self@.de(),
    {
        join_bytes(self.d, self.e)
    }

    /// The HL pair, H high.
    pub fn hl_pair(&self) -> (r: u16)
        ensures
            r == self@.hl(),
    {
        join_bytes(self.h, self.l)
    }

    /// The register (or HL-addressed memory byte) selected by the 3-bit
    /// field `n`.
    fn get_reg(&self, n: u8) -> (v: u8)
        requires
            self.wf(),
            n < 8,
        ensures
            v == get_r(self@, n as int),
    {
        if n == 0 {
            self.b
        } else if n == 1 {
            self.c
        } else if n == 2 {
            self.d
        } else if n == 3 {
            self.e
        } else if n == 4 {
            self.h
        } else if n == 5 {
            self.l
        } else if n == 6 {
            let ad = self.hl_pair();
            self.mem.read(ad)
        } else {
            self.a
        }
    }

    /// Replaces the register (or HL-addressed memory byte) selected by `n`.
    fn set_reg(&mut self, n: u8, v: u8)
        requires
            old(self).wf(),
            n < 8,
        ensures
            final(self)@ == set_r(old(self)@, n as int, v),
            final(self).wf(),
    {
        if n == 0 {
            self.b = v;
        } else if n == 1 {
            self.c = v;
        } else if n == 2 {
            self.d = v;
        } else if n == 3 {
            self.e = v;
        } else if n == 4 {
            self.h = v;
        } else if n == 5 {
            self.l = v;
        } else if n == 6 {
            let ad = self.hl_pair();
            self.mem.write(ad, v);
        } else {
            self.a = v;
        }
        proof {
            assert(self@ =~= set_r(old(self)@, n as int, v));
        }
    }

    /// Writes `hi` at SP-1 and `lo` at SP-2, then moves SP down by 2.
    pub fn push(&mut self, hi: u8, lo: u8)
        requires
            old(self).wf(),
        ensures
            final(self)@ == push16(old(self)@, pair(hi, lo)),
            final(self).wf(),
    {
        let sp1 = wsub16(self.sp, 1);
        let sp2 = wsub16(self.sp, 2);
        self.mem.write(sp1, hi);
        self.mem.write(sp2, lo);
        self.sp = sp2;
        proof {
            lemma_split_pair(hi, lo);
            assert(self@ =~= push16(old(self)@, pair(hi, lo)));
        }
    }

    /// Reads the low byte at SP and the high byte at SP+1, then moves SP up
    /// by 2. Returns `(hi, lo)`.
    pub fn pop(&mut self) -> (r: (u8, u8))
        requires
            old(self).wf(),
        ensures
            pair(r.0, r.1) == popped16(old(self)@),
            final(self)@ == (CpuView { sp: wrap16(old(self)@.sp + 2), ..old(self)@ }),
            final(self).wf(),
    {
        let lo = self.mem.read(self.sp);
        let hi = self.mem.read(wadd16(self.sp, 1));
        self.sp = wadd16(self.sp, 2);
        proof {
            assert(self@ =~= (CpuView { sp: wrap16(old(self)@.sp + 2), ..old(self)@ }));
        }
        (hi, lo)
    }

    /// Interrupt acknowledgement, invoked externally with the vector
    /// number: with the latch set, pushes PC, vectors to `8 * n`, clears
    /// the latch and wakes a halted CPU, for the 11 cycles of an RST;
    /// otherwise a no-op returning 0.
    pub fn interrupt(&mut self, n: u8) -> (cyc: u32)
        requires
            old(self).wf(),
            n < 8,
        ensures
            final(self)@ == spec_interrupt(old(self)@, n).post,
            cyc == spec_interrupt(old(self)@, n).cycles,
            final(self).wf(),
    {
        if self.inte {
            let pc = self.pc;
            let hi = high_of(pc);
            let lo = low_of(pc);
            self.push(hi, lo);
            self.pc = 8 * n as u16;
            self.inte = false;
            self.halted = false;
            proof {
                lemma_pair_split(pc);
                assert(self@ =~= spec_interrupt(old(self)@, n).post);
            }
            11
        } else {
            0
        }
    }

    /// The register pair selected by the 2-bit field `n`.
    fn get_pair(&self, n: u8) -> (v: u16)
        requires
            n < 4,
        ensures
            v == get_rp(self@, n as int),
    {
        if n == 0 {
            self.bc_pair()
        } else if n == 1 {
            self.de_pair()
        } else if n == 2 {
            self.hl_pair()
        } else {
            self.sp
        }
    }

    /// Replaces the register pair selected by `n`.
    fn set_pair(&mut self, n: u8, v: u16)
        requires
            n < 4,
        ensures
            final(self)@ == set_rp(old(self)@, n as int, v),
    {
        if n == 3 {
            self.sp = v;
        } else {
            let hi = high_of(v);
            let lo = low_of(v);
            if n == 0 {
                self.b = hi;
                self.c = lo;
            } else if n == 1 {
                self.d = hi;
                self.e = lo;
            } else {
                self.h = hi;
                self.l = lo;
            }
        }
        proof {
            assert(self@ =~= set_rp(old(self)@, n as int, v));
        }
    }

    /// The port byte an uninterposed IN reads.
    fn port_get(&self, n: u8) -> (v: u8)
        requires
            self.wf(),
        ensures
            v == port_read(self@.ports, n),
    {
        if n < 8 {
            self.ports[n as usize]
        } else {
            0
        }
    }

    /// The port update of an uninterposed OUT.
    fn port_set(&mut self, n: u8, v: u8)
        requires
            old(self).wf(),
        ensures
            final(self)@ == (CpuView { ports: port_write(old(self)@.ports, n, v), ..old(self)@ }),
            final(self).wf(),
    {
        if n < 8 {
            self.ports.set(n as usize, v);
        }
        proof {
            assert(self@ =~= (CpuView {
                ports: port_write(old(self)@.ports, n, v),
                ..old(self)@
            }));
        }
    }

    /// Applies the accumulator operation with 3-bit encoding `g` to A and
    /// the operand `v`, updating A (except for CMP) and all five flags.
    fn alu_apply(&mut self, g: u8, v: u8)
        requires
            g < 8,
        ensures
            ({
                let t = spec_alu(g as int, old(self)@.a, v, old(self)@.flags.cy);
                final(self)@ == (CpuView { a: t.0, flags: t.1, ..old(self)@ })
            }),
    {
        let a = self.a;
        if g == 0 || g == 1 {
            let cin = g == 1 && self.flags.cy;
            let t = add_core(a, v, cin);
            self.a = t.0;
            self.flags = Flags {
                z: t.0 == 0,
                s: t.0 >= 0x80,
                p: crate::arith::parity_even(t.0),
                cy: t.1,
                ac: t.2,
            };
        } else if g == 2 || g == 3 {
            let cin = g == 3 && self.flags.cy;
            let t = sub_core(a, v, cin);
            self.a = t.0;
            self.flags = Flags {
                z: t.0 == 0,
                s: t.0 >= 0x80,
                p: crate::arith::parity_even(t.0),
                cy: t.1,
                ac: t.2,
            };
        } else if g == 7 {
            let t = sub_core(a, v, false);
            self.flags = Flags {
                z: t.0 == 0,
                s: t.0 >= 0x80,
                p: crate::arith::parity_even(t.0),
                cy: t.1,
                ac: t.2,
            };
        } else {
            let r = if g == 4 {
                a & v
            } else if g == 5 {
                a ^ v
            } else {
                a | v
            };
            self.a = r;
            self.flags = Flags {
                z: r == 0,
                s: r >= 0x80,
                p: crate::arith::parity_even(r),
                cy: false,
                ac: false,
            };
        }
        proof {
            let t = spec_alu(g as int, old(self)@.a, v, old(self)@.flags.cy);
            assert(self@ =~= (CpuView { a: t.0, flags: t.1, ..old(self)@ }));
        }
    }

    /// The instructions with opcodes below 0x40, dispatched by the low
    /// three opcode bits.
    fn step_misc(&mut self, op: u8) -> (r: Result<u32, StepError>)
        requires
            old(self).wf(),
            !old(self)@.halted,
            op == opcode_at(old(self)@),
            op < 0x40,
        ensures
            step_obeys(old(self)@, final(self)@, r),
            final(self).wf(),
    {
        if op % 8 == 2 {
            Ok(self.step_misc_mem(op))
        } else if op % 8 == 7 {
            Ok(self.step_misc_acc(op))
        } else if op % 8 >= 3 {
            Ok(self.step_misc_idx(op))
        } else {
            self.step_misc_pairs(op)
        }
    }

    /// NOP, LXI and DAD, and the unimplemented low-block opcodes.
    #[verifier::spinoff_prover]
    fn step_misc_pairs(&mut self, op: u8) -> (r: Result<u32, StepError>)
        requires
            old(self).wf(),
            !old(self)@.halted,
            op == opcode_at(old(self)@),
            op < 0x40,
            op % 8 < 2,
        ensures
            step_obeys(old(self)@, final(self)@, r),
            final(self).wf(),
    {
        let pc0 = self.pc;
        let p1 = wadd16(pc0, 1);
        let p2 = wadd16(pc0, 2);
        let p3 = wadd16(pc0, 3);
        if op == 0x00 {  // NOP
            self.pc = p1;
            proof {
                assert(self@ =~= spec_step(old(self)@).post);
            }
            Ok(4)
        } else if op % 16 == 1 {  // LXI rp,d16
            let lo = self.mem.read(p1);
            let hi = self.mem.read(p2);
            let v = join_bytes(hi, lo);
            self.pc = p3;
            self.set_pair(op / 16, v);
            proof {
                assert(self@ =~= spec_step(old(self)@).post);
            }
            Ok(10)
        } else if op % 16 == 9 {  // DAD rp
            let hl = self.hl_pair();
            let v = self.get_pair(op / 16);
            let t: u32 = hl as u32 + v as u32;
            let r16: u16 = (t % 0x10000) as u16;
            self.h = high_of(r16);
            self.l = low_of(r16);
            self.flags.cy = t > 0xFFFF;
            self.pc = p1;
            proof {
                assert(self@ =~= spec_step(old(self)@).post);
            }
            Ok(10)
        } else {
            proof {
                assert(is_unimplemented(op));
            }
            Err(StepError::Unimplemented { opcode: op, pc: self.pc })
        }
    }

    /// The indirect and direct loads and stores: STAX, LDAX, SHLD, LHLD,
    /// STA and LDA.
    #[verifier::spinoff_prover]
    fn step_misc_mem(&mut self, op: u8) -> (cyc: u32)
        requires
            old(self).wf(),
            !old(self)@.halted,
            op == opcode_at(old(self)@),
            op < 0x40,
            op % 8 == 2,
        ensures
            final(self)@ == spec_step(old(self)@).post,
            cyc == spec_step(old(self)@).cycles,
            final(self).wf(),
    {
        let pc0 = self.pc;
        let p1 = wadd16(pc0, 1);
        let p2 = wadd16(pc0, 2);
        let p3 = wadd16(pc0, 3);
        if op == 0x02 {  // STAX B
            let ad = self.bc_pair();
            self.mem.write(ad, self.a);
            self.pc = p1;
            proof {
                assert(self@ =~= spec_step(old(self)@).post);
            }
            7
        } else if op == 0x12 {  // STAX D
            let ad = self.de_pair();
            self.mem.write(ad, self.a);
            self.pc = p1;
            proof {
                assert(self@ =~= spec_step(old(self)@).post);
            }
            7
        } else if op == 0x0A {  // LDAX B
            let ad = self.bc_pair();
            self.a = self.mem.read(ad);
            self.pc = p1;
            proof {
                assert(self@ =~= spec_step(old(self)@).post);
            }
            7
        } else if op == 0x1A {  // LDAX D
            let ad = self.de_pair();
            self.a = self.mem.read(ad);
            self.pc = p1;
            proof {
                assert(self@ =~= spec_step(old(self)@).post);
            }
            7
        } else if op == 0x22 {  // SHLD a16
            let lo = self.mem.read(p1);
            let hi = self.mem.read(p2);
            let ad = join_bytes(hi, lo);
            self.mem.write(ad, self.l);
            self.mem.write(wadd16(ad, 1), self.h);
            self.pc = p3;
            proof {
                assert(self@ =~= spec_step(old(self)@).post);
            }
            16
        } else if op == 0x2A {  // LHLD a16
            let lo = self.mem.read(p1);
            let hi = self.mem.read(p2);
            let ad = join_bytes(hi, lo);
            self.l = self.mem.read(ad);
            self.h = self.mem.read(wadd16(ad, 1));
            self.pc = p3;
            proof {
                assert(self@ =~= spec_step(old(self)@).post);
            }
            16
        } else if op == 0x32 {  // STA a16
            let lo = self.mem.read(p1);
            let hi = self.mem.read(p2);
            let ad = join_bytes(hi, lo);
            self.mem.write(ad, self.a);
            self.pc = p3;
            proof {
                assert(self@ =~= spec_step(old(self)@).post);
            }
            13
        } else {  // LDA a16
            let lo = self.mem.read(p1);
            let hi = self.mem.read(p2);
            let ad = join_bytes(hi, lo);
            self.a = self.mem.read(ad);
            self.pc = p3;
            proof {
                assert(self@ =~= spec_step(old(self)@).post);
            }
            13
        }
    }

    /// INX, DCX, INR, DCR and MVI.
    #[verifier::spinoff_prover]
    fn step_misc_idx(&mut self, op: u8) -> (cyc: u32)
        requires
            old(self).wf(),
            !old(self)@.halted,
            op == opcode_at(old(self)@),
            op < 0x40,
            op % 8 == 3 || op % 8 == 4 || op % 8 == 5 || op % 8 == 6,
        ensures
            final(self)@ == spec_step(old(self)@).post,
            cyc == spec_step(old(self)@).cycles,
            final(self).wf(),
    {
        let pc0 = self.pc;
        let p1 = wadd16(pc0, 1);
        let p2 = wadd16(pc0, 2);
        if op % 16 == 3 {  // INX rp
            let n = op / 16;
            let v = self.get_pair(n);
            self.pc = p1;
            self.set_pair(n, wadd16(v, 1));
            proof {
                assert(self@ =~= spec_step(old(self)@).post);
            }
            5
        } else if op % 16 == 0xB {  // DCX rp
            let n = op / 16;
            let v = self.get_pair(n);
            self.pc = p1;
            self.set_pair(n, wsub16(v, 1));
            proof {
                assert(self@ =~= spec_step(old(self)@).post);
            }
            5
        } else if op % 8 == 4 {  // INR r
            let n = op / 8;
            let v = self.get_reg(n);
            let t: u16 = v as u16 + 1;
            let res: u8 = (t % 0x100) as u8;
            self.flags = Flags {
                z: res == 0,
                s: res >= 0x80,
                p: crate::arith::parity_even(res),
                ac: v % 16 == 15,
                cy: self.flags.cy,
            };
            self.pc = p1;
            self.set_reg(n, res);
            proof {
                assert(self@ =~= spec_step(old(self)@).post);
            }
            if n == 6 {
                10
            } else {
                5
            }
        } else if op % 8 == 5 {  // DCR r
            let n = op / 8;
            let v = self.get_reg(n);
            let t: u16 = v as u16 + 0x100 - 1;
            proof {
                vstd::arithmetic::div_mod::lemma_mod_add_multiples_vanish(v - 1, 0x100);
            }
            let res: u8 = (t % 0x100) as u8;
            self.flags = Flags {
                z: res == 0,
                s: res >= 0x80,
                p: crate::arith::parity_even(res),
                ac: v % 16 >= 1,
                cy: self.flags.cy,
            };
            self.pc = p1;
            self.set_reg(n, res);
            proof {
                assert(self@ =~= spec_step(old(self)@).post);
            }
            if n == 6 {
                10
            } else {
                5
            }
        } else {  // MVI r,d8
            let n = op / 8;
            let v = self.mem.read(p1);
            self.pc = p2;
            self.set_reg(n, v);
            proof {
                assert(self@ =~= spec_step(old(self)@).post);
            }
            if n == 6 {
                10
            } else {
                7
            }
        }
    }

    /// The rotates and the accumulator/carry specials: RLC, RRC, RAL, RAR,
    /// DAA, CMA, STC and CMC.
    #[verifier::rlimit(100)]
    #[verifier::spinoff_prover]
    fn step_misc_acc(&mut self, op: u8) -> (cyc: u32)
        requires
            old(self).wf(),
            !old(self)@.halted,
            op == opcode_at(old(self)@),
            op < 0x40,
            op % 8 == 7,
        ensures
            final(self)@ == spec_step(old(self)@).post,
            cyc == spec_step(old(self)@).cycles,
            final(self).wf(),
    {
        let pc0 = self.pc;
        let p1 = wadd16(pc0, 1);
        if op == 0x07 {  // RLC
            let a = self.a;
            let t: u16 = a as u16 * 2 + a as u16 / 128;
            self.a = (t % 0x100) as u8;
            self.flags.cy = a >= 0x80;
            self.pc = p1;
            proof {
                assert(self@ =~= spec_step(old(self)@).post);
            }
            4
        } else if op == 0x0F {  // RRC
            let a = self.a;
            let t: u16 = a as u16 / 2 + (a as u16 % 2) * 128;
            self.a = (t % 0x100) as u8;
            self.flags.cy = a % 2 == 1;
            self.pc = p1;
            proof {
                assert(self@ =~= spec_step(old(self)@).post);
            }
            4
        } else if op == 0x17 {  // RAL
            let a = self.a;
            let c: u16 = if self.flags.cy {
                1
            } else {
                0
            };
            let t: u16 = a as u16 * 2 + c;
            self.a = (t % 0x100) as u8;
            self.flags.cy = a >= 0x80;
            self.pc = p1;
            proof {
                assert(self@ =~= spec_step(old(self)@).post);
            }
            4
        } else if op == 0x1F {  // RAR
            let a = self.a;
            let c: u16 = if self.flags.cy {
                128
            } else {
                0
            };
            let t: u16 = a as u16 / 2 + c;
            self.a = (t % 0x100) as u8;
            self.flags.cy = a % 2 == 1;
            self.pc = p1;
            proof {
                assert(self@ =~= spec_step(old(self)@).post);
            }
            4
        } else if op == 0x27 {  // DAA
            let a = self.a;
            let f = self.flags;
            let lo_adj = a % 16 > 9 || f.ac;
            let a1: u8 = if lo_adj {
                ((a as u16 + 6) % 0x100) as u8
            } else {
                a
            };
            let ac2 = lo_adj && a % 16 + 6 > 15;
            let hi_adj = a1 / 16 > 9 || f.cy;
            let a2: u8 = if hi_adj {
                ((a1 as u16 + 0x60) % 0x100) as u8
            } else {
                a1
            };
            let cy2 = f.cy || (hi_adj && a1 as u16 + 0x60 > 0xFF);
            self.a = a2;
            self.flags = Flags {
                z: a2 == 0,
                s: a2 >= 0x80,
                p: crate::arith::parity_even(a2),
                ac: ac2,
                cy: cy2,
            };
            self.pc = p1;
            proof {
                assert(self@ =~= spec_step(old(self)@).post);
            }
            4
        } else if op == 0x2F {  // CMA
            let t: u16 = 255 - self.a as u16;
            self.a = (t % 0x100) as u8;
            self.pc = p1;
            proof {
                assert(self@ =~= spec_step(old(self)@).post);
            }
            4
        } else if op == 0x37 {  // STC
            self.flags.cy = true;
            self.pc = p1;
            proof {
                assert(self@ =~= spec_step(old(self)@).post);
            }
            4
        } else {  // CMC
            self.flags.cy = !self.flags.cy;
            self.pc = p1;
            proof {
                assert(self@ =~= spec_step(old(self)@).post);
            }
            4
        }
    }

    /// MOV ddd,sss: 63 register-to-register copies (0x76 is HLT and never
    /// reaches here).
    #[verifier::spinoff_prover]
    fn step_mov(&mut self, op: u8) -> (cyc: u32)
        requires
            old(self).wf(),
            !old(self)@.halted,
            op == opcode_at(old(self)@),
            0x40 <= op < 0x80,
            op != 0x76,
        ensures
            final(self)@ == spec_step(old(self)@).post,
            cyc == spec_step(old(self)@).cycles,
            final(self).wf(),
    {
        let dst = (op / 8) % 8;
        let src = op % 8;
        let v = self.get_reg(src);
        self.pc = wadd16(self.pc, 1);
        self.set_reg(dst, v);
        proof {
            assert(self@ =~= spec_step(old(self)@).post);
        }
        if dst == 6 || src == 6 {
            7
        } else {
            5
        }
    }

    /// The register-operand accumulator group, 0x80 through 0xBF.
    #[verifier::spinoff_prover]
    fn step_alu(&mut self, op: u8) -> (cyc: u32)
        requires
            old(self).wf(),
            !old(self)@.halted,
            op == opcode_at(old(self)@),
            0x80 <= op < 0xC0,
        ensures
            final(self)@ == spec_step(old(self)@).post,
            cyc == spec_step(old(self)@).cycles,
            final(self).wf(),
    {
        let g = (op / 8) % 8;
        let src = op % 8;
        let v = self.get_reg(src);
        self.alu_apply(g, v);
        self.pc = wadd16(self.pc, 1);
        proof {
            assert(self@ =~= spec_step(old(self)@).post);
        }
        if src == 6 {
            7
        } else {
            4
        }
    }

    /// The control block, dispatched into jumps and returns, stack
    /// operations, and the rest.
    fn step_ctrl(&mut self, op: u8) -> (r: Result<u32, StepError>)
        requires
            old(self).wf(),
            !old(self)@.halted,
            op == opcode_at(old(self)@),
            op >= 0xC0,
        ensures
            step_obeys(old(self)@, final(self)@, r),
            final(self).wf(),
    {
        if op % 8 == 0 || op == 0xC9 || op == 0xE9 || op == 0xF9 || op % 8 == 2 || op == 0xC3 {
            Ok(self.step_ctrl_flow(op))
        } else if op == 0xF1 || op % 16 == 1 || op % 16 == 5 || op % 8 == 4 || op == 0xCD
            || op % 8 == 7 {
            Ok(self.step_ctrl_stack(op))
        } else if op == 0xD3 || op == 0xDB || op == 0xE3 || op == 0xEB || op == 0xF3 || op
            == 0xFB {
            Ok(self.step_ctrl_rest(op))
        } else {
            self.step_ctrl_imm(op)
        }
    }

    /// Jumps and returns: Rcc, RET, PCHL, SPHL, Jcc and JMP.
    #[verifier::spinoff_prover]
    fn step_ctrl_flow(&mut self, op: u8) -> (cyc: u32)
        requires
            old(self).wf(),
            !old(self)@.halted,
            op == opcode_at(old(self)@),
            op >= 0xC0,
            op % 8 == 0 || op == 0xC9 || op == 0xE9 || op == 0xF9 || op % 8 == 2 || op == 0xC3,
        ensures
            final(self)@ == spec_step(old(self)@).post,
            cyc == spec_step(old(self)@).cycles,
            final(self).wf(),
    {
        let pc0 = self.pc;
        let p1 = wadd16(pc0, 1);
        let p2 = wadd16(pc0, 2);
        let p3 = wadd16(pc0, 3);
        if op % 8 == 0 {  // Rcc
            let taken = self.flags.cond((op / 8) % 8);
            if taken {
                let t = self.pop();
                self.pc = join_bytes(t.0, t.1);
                proof {
                    assert(self@ =~= spec_step(old(self)@).post);
                }
                11
            } else {
                self.pc = p1;
                proof {
                    assert(self@ =~= spec_step(old(self)@).post);
                }
                5
            }
        } else if op == 0xC9 {  // RET
            let t = self.pop();
            self.pc = join_bytes(t.0, t.1);
            proof {
                assert(self@ =~= spec_step(old(self)@).post);
            }
            10
        } else if op == 0xE9 {  // PCHL
            self.pc = self.hl_pair();
            proof {
                assert(self@ =~= spec_step(old(self)@).post);
            }
            5
        } else if op == 0xF9 {  // SPHL
            self.sp = self.hl_pair();
            self.pc = p1;
            proof {
                assert(self@ =~= spec_step(old(self)@).post);
            }
            5
        } else if op == 0xC3 {  // JMP a16
            let lo = self.mem.read(p1);
            let hi = self.mem.read(p2);
            self.pc = join_bytes(hi, lo);
            proof {
                assert(self@ =~= spec_step(old(self)@).post);
            }
            10
        } else {  // Jcc a16
            let taken = self.flags.cond((op / 8) % 8);
            if taken {
                let lo = self.mem.read(p1);
                let hi = self.mem.read(p2);
                self.pc = join_bytes(hi, lo);
            } else {
                self.pc = p3;
            }
            proof {
                assert(self@ =~= spec_step(old(self)@).post);
            }
            10
        }
    }

    /// The stack block: POP, POP PSW, PUSH, PUSH PSW, Ccc, CALL and RST.
    #[verifier::rlimit(100)]
    #[verifier::spinoff_prover]
    fn step_ctrl_stack(&mut self, op: u8) -> (cyc: u32)
        requires
            old(self).wf(),
            !old(self)@.halted,
            op == opcode_at(old(self)@),
            op >= 0xC0,
            op == 0xF1 || op % 16 == 1 || op % 16 == 5 || op % 8 == 4 || op == 0xCD || op % 8
                == 7,
        ensures
            final(self)@ == spec_step(old(self)@).post,
            cyc == spec_step(old(self)@).cycles,
            final(self).wf(),
    {
        let pc0 = self.pc;
        let p1 = wadd16(pc0, 1);
        let p2 = wadd16(pc0, 2);
        let p3 = wadd16(pc0, 3);
        if op == 0xF1 {  // POP PSW
            let t = self.pop();
            self.a = t.0;
            self.flags.unpack(t.1);
            self.pc = p1;
            proof {
                lemma_split_pair(t.0, t.1);
                assert(self@ =~= spec_step(old(self)@).post);
            }
            10
        } else if op % 16 == 1 {  // POP rp
            let n = (op - 0xC0) / 16;
            let t = self.pop();
            self.pc = p1;
            self.set_pair(n, join_bytes(t.0, t.1));
            proof {
                assert(self@ =~= spec_step(old(self)@).post);
            }
            10
        } else if op == 0xF5 {  // PUSH PSW
            let psw = self.flags.packed();
            let acc = self.a;
            self.push(acc, psw);
            self.pc = p1;
            proof {
                assert(self@ =~= spec_step(old(self)@).post);
            }
            11
        } else if op % 16 == 5 && op != 0xCD {  // PUSH rp
            let n = (op - 0xC0) / 16;
            let v = self.get_pair(n);
            let hi = high_of(v);
            let lo = low_of(v);
            self.push(hi, lo);
            self.pc = p1;
            proof {
                lemma_pair_split(v);
                assert(self@ =~= spec_step(old(self)@).post);
            }
            11
        } else if op % 8 == 7 {  // RST n
            let n = (op / 8) % 8;
            let hi = high_of(p1);
            let lo = low_of(p1);
            self.push(hi, lo);
            self.pc = 8 * n as u16;
            proof {
                lemma_pair_split(p1);
                assert(self@ =~= spec_step(old(self)@).post);
            }
            11
        } else {  // CALL and Ccc
            let taken = if op == 0xCD {
                true
            } else {
                self.flags.cond((op / 8) % 8)
            };
            if taken {
                let lo = self.mem.read(p1);
                let hi = self.mem.read(p2);
                let rhi = high_of(p3);
                let rlo = low_of(p3);
                self.push(rhi, rlo);
                self.pc = join_bytes(hi, lo);
                proof {
                    lemma_pair_split(p3);
                    assert(self@ =~= spec_step(old(self)@).post);
                }
                17
            } else {
                self.pc = p3;
                proof {
                    assert(self@ =~= spec_step(old(self)@).post);
                }
                11
            }
        }
    }

    /// IN, OUT, XTHL, XCHG, EI and DI.
    #[verifier::rlimit(100)]
    #[verifier::spinoff_prover]
    fn step_ctrl_rest(&mut self, op: u8) -> (cyc: u32)
        requires
            old(self).wf(),
            !old(self)@.halted,
            op == opcode_at(old(self)@),
            op == 0xD3 || op == 0xDB || op == 0xE3 || op == 0xEB || op == 0xF3 || op == 0xFB,
        ensures
            final(self)@ == spec_step(old(self)@).post,
            cyc == spec_step(old(self)@).cycles,
            final(self).wf(),
    {
        let pc0 = self.pc;
        let p1 = wadd16(pc0, 1);
        let p2 = wadd16(pc0, 2);
        if op == 0xD3 {  // OUT d8
            let port = self.mem.read(p1);
            let acc = self.a;
            self.port_set(port, acc);
            self.pc = p2;
            proof {
                assert(self@ =~= spec_step(old(self)@).post);
            }
            10
        } else if op == 0xDB {  // IN d8
            let port = self.mem.read(p1);
            self.a = self.port_get(port);
            self.pc = p2;
            proof {
                assert(self@ =~= spec_step(old(self)@).post);
            }
            10
        } else if op == 0xE3 {  // XTHL
            let sp0 = self.sp;
            let sp1 = wadd16(sp0, 1);
            let ml = self.mem.read(sp0);
            let mh = self.mem.read(sp1);
            let tl = self.l;
            let th = self.h;
            self.mem.write(sp0, tl);
            self.mem.write(sp1, th);
            self.l = ml;
            self.h = mh;
            self.pc = p1;
            proof {
                assert(self@ =~= spec_step(old(self)@).post);
            }
            18
        } else if op == 0xEB {  // XCHG
            let td = self.d;
            let te = self.e;
            self.d = self.h;
            self.e = self.l;
            self.h = td;
            self.l = te;
            self.pc = p1;
            proof {
                assert(self@ =~= spec_step(old(self)@).post);
            }
            4
        } else if op == 0xF3 {  // DI
            self.inte = false;
            self.pc = p1;
            proof {
                assert(self@ =~= spec_step(old(self)@).post);
            }
            4
        } else {  // EI
            self.inte = true;
            self.pc = p1;
            proof {
                assert(self@ =~= spec_step(old(self)@).post);
            }
            4
        }
    }

    /// The immediate accumulator group (ADI through CPI), and the
    /// unimplemented high-block opcodes.
    #[verifier::rlimit(100)]
    #[verifier::spinoff_prover]
    fn step_ctrl_imm(&mut self, op: u8) -> (r: Result<u32, StepError>)
        requires
            old(self).wf(),
            !old(self)@.halted,
            op == opcode_at(old(self)@),
            op >= 0xC0,
            op % 8 == 6 || is_unimplemented(op),
        ensures
            step_obeys(old(self)@, final(self)@, r),
            final(self).wf(),
    {
        let pc0 = self.pc;
        let p1 = wadd16(pc0, 1);
        let p2 = wadd16(pc0, 2);
        if op % 8 == 6 {
            let g = (op / 8) % 8;
            let v = self.mem.read(p1);
            self.alu_apply(g, v);
            self.pc = p2;
            proof {
                assert(self@ =~= spec_step(old(self)@).post);
            }
            Ok(7)
        } else {
            Err(StepError::Unimplemented { opcode: op, pc: self.pc })
        }
    }

    /// Fetches, decodes and executes one instruction, returning its cycle
    /// count: exactly the transition function `spec_step`. A halted CPU
    /// consumes one cycle and does nothing. A fetched opcode outside the
    /// documented set changes nothing and is reported with its address.
    pub fn step(&mut self) -> (r: Result<u32, StepError>)
        requires
            old(self).wf(),
        ensures
            step_obeys(old(self)@, final(self)@, r),
            final(self).wf(),
    {
        if self.halted {
            return Ok(1);
        }
        let op = self.mem.read(self.pc);
        if op < 0x40 {
            self.step_misc(op)
        } else if op == 0x76 {  // HLT
            self.pc = wadd16(self.pc, 1);
            self.halted = true;
            proof {
                assert(self@ =~= spec_step(old(self)@).post);
            }
            Ok(7)
        } else if op < 0x80 {
            Ok(self.step_mov(op))
        } else if op < 0xC0 {
            Ok(self.step_alu(op))
        } else {
            self.step_ctrl(op)
        }
    }
}

} // verus!
