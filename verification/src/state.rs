//! The abstract state of the 8080: seven 8-bit registers, SP, PC, the
//! condition bits, the interrupt-enable latch, the halted latch, the eight
//! I/O ports and the 64 KiB memory. Every instruction's effect is stated as
//! a function from one such state to the next.

use vstd::prelude::*;

use crate::arith::{hi_byte, lo_byte, pair, wrap16};
use crate::flags::Flags;

verus! {

/// The abstract machine state the contracts speak about.
#[verifier::ext_equal]
pub ghost struct CpuView {
    pub a: u8,
    pub b: u8,
    pub c: u8,
    pub d: u8,
    pub e: u8,
    pub h: u8,
    pub l: u8,
    pub sp: u16,
    pub pc: u16,
    pub flags: Flags,
    /// The interrupt-enable latch: set by EI, cleared by DI and by an
    /// accepted interrupt.
    pub inte: bool,
    /// Set by HLT, cleared by an accepted interrupt.
    pub halted: bool,
    /// The eight 8-bit I/O ports.
    pub ports: Seq<u8>,
    /// The flat 64 KiB memory.
    pub mem: Seq<u8>,
}

impl CpuView {
    /// The sizes every reachable state has: 65536 memory bytes and 8 ports.
    pub open spec fn wf(self) -> bool {
        self.mem.len() == 0x10000 && self.ports.len() == 8
    }

    /// The BC register pair, B high.
    pub open spec fn bc(self) -> u16 {
        pair(self.b, self.c)
    }

    /// The DE register pair, D high.
    pub open spec fn de(self) -> u16 {
        pair(self.d, self.e)
    }

    /// The HL register pair, H high.
    pub open spec fn hl(self) -> u16 {
        pair(self.h, self.l)
    }

    /// The memory byte at a 16-bit address.
    pub open spec fn mem_at(self, addr: u16) -> u8 {
        self.mem[addr as int]
    }

    /// The state after reset: everything zero, interrupts off.
    pub open spec fn reset() -> CpuView {
        CpuView {
            a: 0,
            b: 0,
            c: 0,
            d: 0,
            e: 0,
            h: 0,
            l: 0,
            sp: 0,
            pc: 0,
            flags: Flags { z: false, s: false, p: false, cy: false, ac: false },
            inte: false,
            halted: false,
            ports: Seq::new(8, |i: int| 0u8),
            mem: Seq::new(0x10000, |i: int| 0u8),
        }
    }
}

/// The opcode byte the next step fetches.
pub open spec fn opcode_at(s: CpuView) -> u8 {
    s.mem[s.pc as int]
}

/// The byte after the opcode: an 8-bit immediate, or the low address byte.
pub open spec fn imm1(s: CpuView) -> u8 {
    s.mem[wrap16(s.pc + 1) as int]
}

/// The second byte after the opcode: the high address byte.
pub open spec fn imm2(s: CpuView) -> u8 {
    s.mem[wrap16(s.pc + 2) as int]
}

/// The little-endian 16-bit immediate of a 3-byte instruction.
pub open spec fn imm16(s: CpuView) -> u16 {
    pair(imm2(s), imm1(s))
}

/// The register selected by a 3-bit field of an opcode: 0 B, 1 C, 2 D, 3 E,
/// 4 H, 5 L, 6 the memory byte addressed by HL, 7 A.
pub open spec fn get_r(s: CpuView, n: int) -> u8 {
    if n == 0 {
        s.b
    } else if n == 1 {
        s.c
    } else if n == 2 {
        s.d
    } else if n == 3 {
        s.e
    } else if n == 4 {
        s.h
    } else if n == 5 {
        s.l
    } else if n == 6 {
        s.mem_at(s.hl())
    } else {
        s.a
    }
}

/// The state with the register (or the HL-addressed memory byte) selected by
/// `n` replaced by `v`.
pub open spec fn set_r(s: CpuView, n: int, v: u8) -> CpuView {
    if n == 0 {
        CpuView { b: v, ..s }
    } else if n == 1 {
        CpuView { c: v, ..s }
    } else if n == 2 {
        CpuView { d: v, ..s }
    } else if n == 3 {
        CpuView { e: v, ..s }
    } else if n == 4 {
        CpuView { h: v, ..s }
    } else if n == 5 {
        CpuView { l: v, ..s }
    } else if n == 6 {
        CpuView { mem: s.mem.update(s.hl() as int, v), ..s }
    } else {
        CpuView { a: v, ..s }
    }
}

/// The register pair selected by a 2-bit field: 0 BC, 1 DE, 2 HL, 3 SP.
pub open spec fn get_rp(s: CpuView, n: int) -> u16 {
    if n == 0 {
        s.bc()
    } else if n == 1 {
        s.de()
    } else if n == 2 {
        s.hl()
    } else {
        s.sp
    }
}

/// The state with the register pair selected by `n` replaced by `v`.
pub open spec fn set_rp(s: CpuView, n: int, v: u16) -> CpuView {
    if n == 0 {
        CpuView { b: hi_byte(v), c: lo_byte(v), ..s }
    } else if n == 1 {
        CpuView { d: hi_byte(v), e: lo_byte(v), ..s }
    } else if n == 2 {
        CpuView { h: hi_byte(v), l: lo_byte(v), ..s }
    } else {
        CpuView { sp: v, ..s }
    }
}

/// The state with one memory byte replaced.
pub open spec fn store8(s: CpuView, addr: u16, v: u8) -> CpuView {
    CpuView { mem: s.mem.update(addr as int, v), ..s }
}

/// The state after pushing a 16-bit word: the high byte goes to SP-1, the
/// low byte to SP-2, and SP moves down by 2.
pub open spec fn push16(s: CpuView, v: u16) -> CpuView {
    CpuView {
        mem: s.mem.update(wrap16(s.sp - 1) as int, hi_byte(v)).update(
            wrap16(s.sp - 2) as int,
            lo_byte(v),
        ),
        sp: wrap16(s.sp - 2),
        ..s
    }
}

/// The 16-bit word a pop reads: the low byte at SP, the high byte at SP+1.
pub open spec fn popped16(s: CpuView) -> u16 {
    pair(s.mem_at(wrap16(s.sp + 1)), s.mem_at(s.sp))
}

/// The port byte an IN instruction reads when the host does not intercept
/// it: ports 0 through 7 are backed by the CPU's port array, any higher
/// port number reads 0.
pub open spec fn port_read(ports: Seq<u8>, n: u8) -> u8 {
    if n < 8 {
        ports[n as int]
    } else {
        0
    }
}

/// The port array after an OUT instruction the host does not intercept:
/// writes to ports 8 and up are discarded.
pub open spec fn port_write(ports: Seq<u8>, n: u8, v: u8) -> Seq<u8> {
    if n < 8 {
        ports.update(n as int, v)
    } else {
        ports
    }
}

} // verus!
