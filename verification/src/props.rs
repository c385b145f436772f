//! Instruction-set laws, proved once for every instruction and every
//! starting state against the transition function in `step`.

use vstd::prelude::*;

use crate::arith::{lemma_pair_split, lemma_wrap16_add, lemma_wrap16_id, wrap16};
use crate::flags::lemma_unpack_packed;
use crate::state::{opcode_at, CpuView};
use crate::step::{control_taken, instr_len, is_unimplemented, spec_step};

verus! {

/// The instructions that may move SP: PUSH, POP, CALL and Ccc, RET and
/// Rcc, RST, and XTHL (which exchanges the stack top but keeps SP).
pub open spec fn is_stack_op(op: u8) -> bool {
    op >= 0xC0 && (op % 16 == 1 || op % 16 == 5 || op % 8 == 0 || op % 8 == 4 || op % 8 == 7
        || op == 0xC9 || op == 0xCD || op == 0xE3)
}

#[verifier::rlimit(100)]
#[verifier::spinoff_prover]
proof fn lemma_pc_advance_misc(s: CpuView, op: u8)
    requires
        s.wf(),
        !s.halted,
        op == opcode_at(s),
        !is_unimplemented(op),
        op < 0x40,
    ensures
        spec_step(s).post.pc == wrap16(s.pc + instr_len(op)),
{
}

#[verifier::rlimit(100)]
#[verifier::spinoff_prover]
proof fn lemma_pc_advance_ctrl(s: CpuView, op: u8)
    requires
        s.wf(),
        !s.halted,
        op == opcode_at(s),
        !is_unimplemented(op),
        !control_taken(s, op),
        op >= 0xC0,
    ensures
        spec_step(s).post.pc == wrap16(s.pc + instr_len(op)),
{
}

/// PC advances by exactly the instruction's byte length, for every
/// documented instruction that is not a taken branch, call, return, RST or
/// PCHL.
pub proof fn lemma_pc_advance(s: CpuView, op: u8)
    requires
        s.wf(),
        !s.halted,
        op == opcode_at(s),
        !is_unimplemented(op),
        !control_taken(s, op),
    ensures
        spec_step(s).post.pc == wrap16(s.pc + instr_len(op)),
{
    if op < 0x40 {
        lemma_pc_advance_misc(s, op);
    } else if op >= 0xC0 {
        lemma_pc_advance_ctrl(s, op);
    }
}

#[verifier::rlimit(100)]
#[verifier::spinoff_prover]
proof fn lemma_sp_discipline_misc(s: CpuView, op: u8)
    requires
        s.wf(),
        !s.halted,
        op == opcode_at(s),
        !is_unimplemented(op),
        op < 0xC0,
        op != 0x31,
        op != 0x33,
        op != 0x3B,
    ensures
        spec_step(s).post.sp == s.sp,
{
}

#[verifier::rlimit(100)]
#[verifier::spinoff_prover]
proof fn lemma_sp_discipline_ctrl(s: CpuView, op: u8)
    requires
        s.wf(),
        !s.halted,
        op == opcode_at(s),
        !is_unimplemented(op),
        op >= 0xC0,
        op != 0xF9,
    ensures
        spec_step(s).post.sp == s.sp || spec_step(s).post.sp == wrap16(s.sp + 2) || spec_step(
            s,
        ).post.sp == wrap16(s.sp - 2),
        spec_step(s).post.sp != s.sp ==> is_stack_op(op),
{
}

/// SP moves only by plus or minus 2, and only for the stack instructions.
/// The instructions that load SP outright (LXI SP, INX SP, DCX SP and
/// SPHL) are excluded.
pub proof fn lemma_sp_discipline(s: CpuView, op: u8)
    requires
        s.wf(),
        !s.halted,
        op == opcode_at(s),
        !is_unimplemented(op),
        op != 0x31,
        op != 0x33,
        op != 0x3B,
        op != 0xF9,
    ensures
        spec_step(s).post.sp == s.sp || spec_step(s).post.sp == wrap16(s.sp + 2) || spec_step(
            s,
        ).post.sp == wrap16(s.sp - 2),
        spec_step(s).post.sp != s.sp ==> is_stack_op(op),
{
    if op < 0xC0 {
        lemma_sp_discipline_misc(s, op);
    } else {
        lemma_sp_discipline_ctrl(s, op);
    }
}

/// CALL followed at once by RET restores SP and resumes at the byte after
/// the 3-byte CALL.
pub proof fn lemma_call_ret(s: CpuView)
    requires
        s.wf(),
        !s.halted,
        opcode_at(s) == 0xCD,
        opcode_at(spec_step(s).post) == 0xC9,
    ensures
        spec_step(spec_step(s).post).post.sp == s.sp,
        spec_step(spec_step(s).post).post.pc == wrap16(s.pc + 3),
{
    let s1 = spec_step(s).post;
    let p3 = wrap16(s.pc + 3);
    lemma_wrap16_add(s.sp - 2, 1);
    assert(wrap16(wrap16(s.sp - 2) + 1) == wrap16(s.sp - 1));
    lemma_wrap16_add(s.sp - 2, 2);
    assert(wrap16(wrap16(s.sp - 2) + 2) == wrap16(s.sp as int));
    lemma_wrap16_id(s.sp);
    assert(wrap16(s.sp - 1) != wrap16(s.sp - 2)) by {
        vstd::arithmetic::div_mod::lemma_mod_add_multiples_vanish(s.sp - 1, 0x10000);
        vstd::arithmetic::div_mod::lemma_mod_add_multiples_vanish(s.sp - 2, 0x10000);
    };
    assert(s1.mem[wrap16(s.sp - 1) as int] == crate::arith::hi_byte(p3));
    assert(s1.mem[wrap16(s.sp - 2) as int] == crate::arith::lo_byte(p3));
    lemma_pair_split(p3);
}

/// INR and DCR never change CY.
pub proof fn lemma_inr_dcr_keep_cy(s: CpuView, op: u8)
    requires
        s.wf(),
        !s.halted,
        op == opcode_at(s),
        op < 0x40,
        op % 8 == 4 || op % 8 == 5,
    ensures
        spec_step(s).post.flags.cy == s.flags.cy,
{
}

/// DAD changes no flag but CY, and no state but HL, PC and CY.
pub proof fn lemma_dad_changes_only_cy(s: CpuView, op: u8)
    requires
        s.wf(),
        !s.halted,
        op == opcode_at(s),
        op < 0x40,
        op % 16 == 9,
    ensures
        spec_step(s).post.flags.z == s.flags.z,
        spec_step(s).post.flags.s == s.flags.s,
        spec_step(s).post.flags.p == s.flags.p,
        spec_step(s).post.flags.ac == s.flags.ac,
        spec_step(s).post.a == s.a,
        spec_step(s).post.b == s.b,
        spec_step(s).post.c == s.c,
        spec_step(s).post.d == s.d,
        spec_step(s).post.e == s.e,
        spec_step(s).post.sp == s.sp,
        spec_step(s).post.mem == s.mem,
        spec_step(s).post.ports == s.ports,
        spec_step(s).post.inte == s.inte,
        spec_step(s).post.halted == s.halted,
{
}

/// AND, OR and XOR always leave CY and AC clear, in the register and the
/// immediate forms.
pub proof fn lemma_logic_clears_carries(s: CpuView, op: u8)
    requires
        s.wf(),
        !s.halted,
        op == opcode_at(s),
        (0xA0 <= op < 0xB8) || op == 0xE6 || op == 0xEE || op == 0xF6,
    ensures
        !spec_step(s).post.flags.cy,
        !spec_step(s).post.flags.ac,
{
}

/// PUSH PSW followed at once by POP PSW leaves A and all five flags
/// unchanged. The pushed bytes must not land on the POP PSW opcode
/// itself.
pub proof fn lemma_push_pop_psw(s: CpuView)
    requires
        s.wf(),
        !s.halted,
        opcode_at(s) == 0xF5,
        s.mem[wrap16(s.pc + 1) as int] == 0xF1,
        wrap16(s.sp - 1) != wrap16(s.pc + 1),
        wrap16(s.sp - 2) != wrap16(s.pc + 1),
    ensures
        spec_step(spec_step(s).post).post.a == s.a,
        spec_step(spec_step(s).post).post.flags == s.flags,
{
    let s1 = spec_step(s).post;
    let psw = crate::flags::packed_of(s.flags);
    let v = crate::arith::pair(s.a, psw);
    lemma_wrap16_add(s.sp - 2, 1);
    assert(wrap16(wrap16(s.sp - 2) + 1) == wrap16(s.sp - 1));
    assert(wrap16(s.sp - 1) != wrap16(s.sp - 2)) by {
        vstd::arithmetic::div_mod::lemma_mod_add_multiples_vanish(s.sp - 1, 0x10000);
        vstd::arithmetic::div_mod::lemma_mod_add_multiples_vanish(s.sp - 2, 0x10000);
    };
    assert(opcode_at(s1) == 0xF1);
    assert(s1.mem[wrap16(s.sp - 1) as int] == crate::arith::hi_byte(v));
    assert(s1.mem[wrap16(s.sp - 2) as int] == crate::arith::lo_byte(v));
    crate::arith::lemma_split_pair(s.a, psw);
    lemma_unpack_packed(s.flags);
}

} // verus!
