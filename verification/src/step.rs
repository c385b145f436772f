//! The 8080 transition function: for every documented opcode, the next
//! abstract state and the documented cycle count (the state counts of the
//! Intel 8080 manual). The executable interpreter in `cpu` is proved to
//! follow this function exactly; the instruction-set laws in `props` are
//! proved about it.

use vstd::prelude::*;

use crate::arith::{pair, wrap16, wrap8};
use crate::flags::{packed_of, p_of, s_of, spec_cond, unpacked_of, z_of, Flags};
use crate::state::{
    get_r, get_rp, imm1, imm16, opcode_at, popped16, port_read, port_write, push16, set_r, set_rp,
    store8, CpuView,
};

verus! {

/// One step of the transition function: the state after the instruction and
/// its cycle count.
pub ghost struct Step {
    pub post: CpuView,
    pub cycles: u32,
}

/// The opcodes outside the documented 8080 set. Fetching one is fatal:
/// `Cpu::step` reports it and leaves the state unchanged.
pub open spec fn is_unimplemented(op: u8) -> bool {
    op == 0x08 || op == 0x10 || op == 0x18 || op == 0x20 || op == 0x28 || op == 0x30 || op == 0x38
        || op == 0xCB || op == 0xD9 || op == 0xDD || op == 0xED || op == 0xFD
}

/// Whether the next step succeeds: a halted CPU idles, and any documented
/// opcode executes.
pub open spec fn step_ok(s: CpuView) -> bool {
    s.halted || !is_unimplemented(opcode_at(s))
}

/// 8-bit addition: the wrapped result and all five flags. The carry-in is
/// the CY state before the instruction (for ADC); AC is the carry out of
/// bit 3.
pub open spec fn spec_add(a: u8, v: u8, cin: bool) -> (u8, Flags) {
    let c: int = if cin {
        1
    } else {
        0
    };
    let r = wrap8(a + v + c);
    (r, Flags {
        z: z_of(r),
        s: s_of(r),
        p: p_of(r),
        cy: a + v + c > 0xFF,
        ac: a % 16 + v % 16 + c > 0xF,
    })
}

/// 8-bit subtraction: the wrapped result and all five flags. CY is the
/// borrow (set iff the minuend is smaller); AC is set when the low nibble
/// produces no borrow.
pub open spec fn spec_sub(a: u8, v: u8, cin: bool) -> (u8, Flags) {
    let c: int = if cin {
        1
    } else {
        0
    };
    let r = wrap8(a - v - c);
    (r, Flags {
        z: z_of(r),
        s: s_of(r),
        p: p_of(r),
        cy: (a as int) < v + c,
        ac: a % 16 >= v % 16 - c,
    })
}

/// The flags after AND, OR and XOR: Z, S, P from the result, CY and AC
/// cleared.
pub open spec fn logic_flags(r: u8) -> Flags {
    Flags { z: z_of(r), s: s_of(r), p: p_of(r), cy: false, ac: false }
}

/// The eight accumulator operations, by their 3-bit encoding: 0 ADD, 1 ADC,
/// 2 SUB, 3 SBB, 4 ANA, 5 XRA, 6 ORA, 7 CMP. Returns the new accumulator
/// (unchanged for CMP) and the new flags.
pub open spec fn spec_alu(g: int, a: u8, v: u8, cy: bool) -> (u8, Flags) {
    if g == 0 {
        spec_add(a, v, false)
    } else if g == 1 {
        spec_add(a, v, cy)
    } else if g == 2 {
        spec_sub(a, v, false)
    } else if g == 3 {
        spec_sub(a, v, cy)
    } else if g == 4 {
        (a & v, logic_flags(a & v))
    } else if g == 5 {
        (a ^ v, logic_flags(a ^ v))
    } else if g == 6 {
        (a | v, logic_flags(a | v))
    } else {
        (a, spec_sub(a, v, false).1)
    }
}

/// The flags after INR on the value `v`: Z, S, P and AC updated, CY kept.
pub open spec fn inr_flags(v: u8, f: Flags) -> Flags {
    let r = wrap8(v + 1);
    Flags { z: z_of(r), s: s_of(r), p: p_of(r), ac: v % 16 == 15, cy: f.cy }
}

/// The flags after DCR on the value `v`: Z, S, P and AC updated, CY kept.
pub open spec fn dcr_flags(v: u8, f: Flags) -> Flags {
    let r = wrap8(v - 1);
    Flags { z: z_of(r), s: s_of(r), p: p_of(r), ac: v % 16 >= 1, cy: f.cy }
}

/// Decimal adjust: if the low nibble exceeds 9 or AC is set, 6 is added to
/// A (AC records the nibble carry); then, if the high nibble of the
/// adjusted value exceeds 9 or CY is set, 0x60 is added (CY records an
/// overflow and is never cleared). Z, S, P come from the final value.
pub open spec fn spec_daa(a: u8, f: Flags) -> (u8, Flags) {
    let lo_adj = a % 16 > 9 || f.ac;
    let a1 = if lo_adj {
        wrap8(a + 6)
    } else {
        a
    };
    let ac2 = lo_adj && a % 16 + 6 > 15;
    let hi_adj = a1 / 16 > 9 || f.cy;
    let a2 = if hi_adj {
        wrap8(a1 + 0x60)
    } else {
        a1
    };
    let cy2 = f.cy || (hi_adj && a1 + 0x60 > 0xFF);
    (a2, Flags { z: z_of(a2), s: s_of(a2), p: p_of(a2), ac: ac2, cy: cy2 })
}

/// The instructions with opcodes below 0x40: data transfer, 16-bit
/// arithmetic, INR/DCR, rotates and the accumulator specials.
pub open spec fn spec_step_misc(s: CpuView, op: u8) -> Step {
    let p1 = wrap16(s.pc + 1);
    let p2 = wrap16(s.pc + 2);
    let p3 = wrap16(s.pc + 3);
    if op == 0x00 {
        Step { post: CpuView { pc: p1, ..s }, cycles: 4 }
    } else if op % 16 == 1 {  // LXI rp,d16
        Step { post: set_rp(CpuView { pc: p3, ..s }, op as int / 16, imm16(s)), cycles: 10 }
    } else if op % 16 == 9 {  // DAD rp
        let sum = s.hl() + get_rp(s, op as int / 16);
        let r = wrap16(sum);
        Step {
            post: CpuView {
                h: crate::arith::hi_byte(r),
                l: crate::arith::lo_byte(r),
                flags: Flags { cy: sum > 0xFFFF, ..s.flags },
                pc: p1,
                ..s
            },
            cycles: 10,
        }
    } else if op == 0x02 {  // STAX B
        Step { post: CpuView { pc: p1, ..store8(s, s.bc(), s.a) }, cycles: 7 }
    } else if op == 0x12 {  // STAX D
        Step { post: CpuView { pc: p1, ..store8(s, s.de(), s.a) }, cycles: 7 }
    } else if op == 0x0A {  // LDAX B
        Step { post: CpuView { a: s.mem_at(s.bc()), pc: p1, ..s }, cycles: 7 }
    } else if op == 0x1A {  // LDAX D
        Step { post: CpuView { a: s.mem_at(s.de()), pc: p1, ..s }, cycles: 7 }
    } else if op == 0x22 {  // SHLD a16
        let ad = imm16(s);
        Step { post: CpuView { pc: p3, ..store8(store8(s, ad, s.l), wrap16(ad + 1), s.h) }, cycles: 16 }
    } else if op == 0x2A {  // LHLD a16
        let ad = imm16(s);
        Step {
            post: CpuView { l: s.mem_at(ad), h: s.mem_at(wrap16(ad + 1)), pc: p3, ..s },
            cycles: 16,
        }
    } else if op == 0x32 {  // STA a16
        Step { post: CpuView { pc: p3, ..store8(s, imm16(s), s.a) }, cycles: 13 }
    } else if op == 0x3A {  // LDA a16
        Step { post: CpuView { a: s.mem_at(imm16(s)), pc: p3, ..s }, cycles: 13 }
    } else if op % 16 == 3 {  // INX rp
        let n = op as int / 16;
        Step { post: set_rp(CpuView { pc: p1, ..s }, n, wrap16(get_rp(s, n) + 1)), cycles: 5 }
    } else if op % 16 == 0xB {  // DCX rp
        let n = op as int / 16;
        Step { post: set_rp(CpuView { pc: p1, ..s }, n, wrap16(get_rp(s, n) - 1)), cycles: 5 }
    } else if op % 8 == 4 {  // INR r
        let n = op as int / 8;
        let v = get_r(s, n);
        Step {
            post: set_r(CpuView { flags: inr_flags(v, s.flags), pc: p1, ..s }, n, wrap8(v + 1)),
            cycles: if n == 6 {
                10
            } else {
                5
            },
        }
    } else if op % 8 == 5 {  // DCR r
        let n = op as int / 8;
        let v = get_r(s, n);
        Step {
            post: set_r(CpuView { flags: dcr_flags(v, s.flags), pc: p1, ..s }, n, wrap8(v - 1)),
            cycles: if n == 6 {
                10
            } else {
                5
            },
        }
    } else if op % 8 == 6 {  // MVI r,d8
        let n = op as int / 8;
        Step {
            post: set_r(CpuView { pc: p2, ..s }, n, imm1(s)),
            cycles: if n == 6 {
                10
            } else {
                7
            },
        }
    } else if op == 0x07 {  // RLC
        Step {
            post: CpuView {
                a: wrap8(s.a * 2 + s.a / 128),
                flags: Flags { cy: s.a >= 0x80, ..s.flags },
                pc: p1,
                ..s
            },
            cycles: 4,
        }
    } else if op == 0x0F {  // RRC
        Step {
            post: CpuView {
                a: wrap8(s.a / 2 + (s.a % 2) * 128),
                flags: Flags { cy: s.a % 2 == 1, ..s.flags },
                pc: p1,
                ..s
            },
            cycles: 4,
        }
    } else if op == 0x17 {  // RAL
        let c: int = if s.flags.cy {
            1
        } else {
            0
        };
        Step {
            post: CpuView {
                a: wrap8(s.a * 2 + c),
                flags: Flags { cy: s.a >= 0x80, ..s.flags },
                pc: p1,
                ..s
            },
            cycles: 4,
        }
    } else if op == 0x1F {  // RAR
        let c: int = if s.flags.cy {
            128
        } else {
            0
        };
        Step {
            post: CpuView {
                a: wrap8(s.a / 2 + c),
                flags: Flags { cy: s.a % 2 == 1, ..s.flags },
                pc: p1,
                ..s
            },
            cycles: 4,
        }
    } else if op == 0x27 {  // DAA
        let t = spec_daa(s.a, s.flags);
        Step { post: CpuView { a: t.0, flags: t.1, pc: p1, ..s }, cycles: 4 }
    } else if op == 0x2F {  // CMA
        Step { post: CpuView { a: wrap8(255 - s.a), pc: p1, ..s }, cycles: 4 }
    } else if op == 0x37 {  // STC
        Step { post: CpuView { flags: Flags { cy: true, ..s.flags }, pc: p1, ..s }, cycles: 4 }
    } else if op == 0x3F {  // CMC
        Step { post: CpuView { flags: Flags { cy: !s.flags.cy, ..s.flags }, pc: p1, ..s }, cycles: 4 }
    } else {
        Step { post: s, cycles: 0 }
    }
}

/// MOV ddd,sss: a plain copy through the register selectors; flags are
/// untouched. Opcode 0x76 in this range is HLT and is handled by
/// `spec_step`.
pub open spec fn spec_step_mov(s: CpuView, op: u8) -> Step {
    let dst = (op as int / 8) % 8;
    let src = op as int % 8;
    Step {
        post: set_r(CpuView { pc: wrap16(s.pc + 1), ..s }, dst, get_r(s, src)),
        cycles: if dst == 6 || src == 6 {
            7
        } else {
            5
        },
    }
}

/// The register-operand accumulator group, opcodes 0x80 through 0xBF.
pub open spec fn spec_step_alu(s: CpuView, op: u8) -> Step {
    let g = (op as int / 8) % 8;
    let src = op as int % 8;
    let t = spec_alu(g, s.a, get_r(s, src), s.flags.cy);
    Step {
        post: CpuView { a: t.0, flags: t.1, pc: wrap16(s.pc + 1), ..s },
        cycles: if src == 6 {
            7
        } else {
            4
        },
    }
}

/// The control block, opcodes 0xC0 through 0xFF: conditional and
/// unconditional jumps, calls and returns, stack operations, the immediate
/// accumulator group, IN/OUT and the latch instructions.
pub open spec fn spec_step_ctrl(s: CpuView, op: u8) -> Step {
    let p1 = wrap16(s.pc + 1);
    let p2 = wrap16(s.pc + 2);
    let p3 = wrap16(s.pc + 3);
    if op % 8 == 0 {  // Rcc
        if spec_cond(s.flags, (op as int / 8) % 8) {
            Step { post: CpuView { pc: popped16(s), sp: wrap16(s.sp + 2), ..s }, cycles: 11 }
        } else {
            Step { post: CpuView { pc: p1, ..s }, cycles: 5 }
        }
    } else if op == 0xC9 {  // RET
        Step { post: CpuView { pc: popped16(s), sp: wrap16(s.sp + 2), ..s }, cycles: 10 }
    } else if op == 0xE9 {  // PCHL
        Step { post: CpuView { pc: s.hl(), ..s }, cycles: 5 }
    } else if op == 0xF9 {  // SPHL
        Step { post: CpuView { sp: s.hl(), pc: p1, ..s }, cycles: 5 }
    } else if op == 0xF1 {  // POP PSW
        Step {
            post: CpuView {
                a: s.mem_at(wrap16(s.sp + 1)),
                flags: unpacked_of(s.mem_at(s.sp)),
                sp: wrap16(s.sp + 2),
                pc: p1,
                ..s
            },
            cycles: 10,
        }
    } else if op % 16 == 1 {  // POP rp
        Step {
            post: set_rp(
                CpuView { sp: wrap16(s.sp + 2), pc: p1, ..s },
                (op as int - 0xC0) / 16,
                popped16(s),
            ),
            cycles: 10,
        }
    } else if op % 8 == 2 {  // Jcc
        Step {
            post: CpuView {
                pc: if spec_cond(s.flags, (op as int / 8) % 8) {
                    imm16(s)
                } else {
                    p3
                },
                ..s
            },
            cycles: 10,
        }
    } else if op == 0xC3 {  // JMP
        Step { post: CpuView { pc: imm16(s), ..s }, cycles: 10 }
    } else if op == 0xD3 {  // OUT d8
        Step { post: CpuView { ports: port_write(s.ports, imm1(s), s.a), pc: p2, ..s }, cycles: 10 }
    } else if op == 0xDB {  // IN d8
        Step { post: CpuView { a: port_read(s.ports, imm1(s)), pc: p2, ..s }, cycles: 10 }
    } else if op == 0xE3 {  // XTHL
        Step {
            post: CpuView {
                l: s.mem_at(s.sp),
                h: s.mem_at(wrap16(s.sp + 1)),
                pc: p1,
                ..store8(store8(s, s.sp, s.l), wrap16(s.sp + 1), s.h)
            },
            cycles: 18,
        }
    } else if op == 0xEB {  // XCHG
        Step { post: CpuView { d: s.h, e: s.l, h: s.d, l: s.e, pc: p1, ..s }, cycles: 4 }
    } else if op == 0xF3 {  // DI
        Step { post: CpuView { inte: false, pc: p1, ..s }, cycles: 4 }
    } else if op == 0xFB {  // EI
        Step { post: CpuView { inte: true, pc: p1, ..s }, cycles: 4 }
    } else if op % 8 == 4 {  // Ccc
        if spec_cond(s.flags, (op as int / 8) % 8) {
            Step { post: CpuView { pc: imm16(s), ..push16(s, p3) }, cycles: 17 }
        } else {
            Step { post: CpuView { pc: p3, ..s }, cycles: 11 }
        }
    } else if op == 0xCD {  // CALL a16
        Step { post: CpuView { pc: imm16(s), ..push16(s, p3) }, cycles: 17 }
    } else if op == 0xF5 {  // PUSH PSW
        Step { post: CpuView { pc: p1, ..push16(s, pair(s.a, packed_of(s.flags))) }, cycles: 11 }
    } else if op % 16 == 5 {  // PUSH rp
        Step {
            post: CpuView { pc: p1, ..push16(s, get_rp(s, (op as int - 0xC0) / 16)) },
            cycles: 11,
        }
    } else if op % 8 == 6 {  // the immediate accumulator group
        let t = spec_alu((op as int / 8) % 8, s.a, imm1(s), s.flags.cy);
        Step { post: CpuView { a: t.0, flags: t.1, pc: p2, ..s }, cycles: 7 }
    } else {  // RST n
        let n = (op as int / 8) % 8;
        Step { post: CpuView { pc: (8 * n) as u16, ..push16(s, p1) }, cycles: 11 }
    }
}

/// One instruction step. A halted CPU consumes one cycle and does nothing.
/// An unimplemented opcode leaves the state unchanged (the executable
/// interpreter reports it as an error instead).
pub open spec fn spec_step(s: CpuView) -> Step {
    if s.halted {
        Step { post: s, cycles: 1 }
    } else {
        let op = opcode_at(s);
        if is_unimplemented(op) {
            Step { post: s, cycles: 0 }
        } else if op < 0x40 {
            spec_step_misc(s, op)
        } else if op == 0x76 {  // HLT
            Step { post: CpuView { pc: wrap16(s.pc + 1), halted: true, ..s }, cycles: 7 }
        } else if op < 0x80 {
            spec_step_mov(s, op)
        } else if op < 0xC0 {
            spec_step_alu(s, op)
        } else {
            spec_step_ctrl(s, op)
        }
    }
}

/// Interrupt acknowledgement: with the latch set, the current PC is pushed,
/// PC vectors to `8 * n`, the latch clears and a halted CPU wakes, for the
/// 11 cycles of an RST. With the latch clear nothing happens.
pub open spec fn spec_interrupt(s: CpuView, n: u8) -> Step {
    if s.inte {
        Step {
            post: CpuView { pc: (8 * n) as u16, inte: false, halted: false, ..push16(s, s.pc) },
            cycles: 11,
        }
    } else {
        Step { post: s, cycles: 0 }
    }
}

/// The byte length of each documented instruction.
pub open spec fn instr_len(op: u8) -> int {
    if op < 0x40 {
        if op % 16 == 1 || op == 0x22 || op == 0x2A || op == 0x32 || op == 0x3A {
            3
        } else if op % 8 == 6 {
            2
        } else {
            1
        }
    } else if op < 0xC0 {
        1
    } else {
        if op % 8 == 2 || op == 0xC3 || op % 8 == 4 || op == 0xCD {
            3
        } else if op % 8 == 6 || op == 0xD3 || op == 0xDB {
            2
        } else {
            1
        }
    }
}

/// Whether the instruction redirects PC: an unconditional jump, call,
/// return, RST or PCHL, or a conditional one whose condition holds.
pub open spec fn control_taken(s: CpuView, op: u8) -> bool {
    if op == 0xC3 || op == 0xCD || op == 0xC9 || op == 0xE9 {
        true
    } else if op >= 0xC0 && (op % 8 == 0 || op % 8 == 2 || op % 8 == 4) {
        spec_cond(s.flags, (op as int / 8) % 8)
    } else {
        op >= 0xC0 && op % 8 == 7
    }
}

} // verus!
