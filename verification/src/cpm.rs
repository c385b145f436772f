//! The two CP/M BDOS console calls the diagnostic ROMs use, as pure
//! functions of the trapped CPU state: function 2 prints the character in
//! E, function 9 prints the `$`-terminated string pointed to by DE. The
//! harness that loads a ROM at 0x100 and traps CALL 5 lives outside.

use vstd::prelude::*;

use crate::arith::wrap16;
use crate::cpu::Cpu;
use crate::state::CpuView;

verus! {

/// The bytes of the `$`-terminated string at `addr`, following at most
/// `fuel` bytes (the scan cannot run past one full pass of memory).
pub open spec fn dollar_string(mem: Seq<u8>, addr: u16, fuel: nat) -> Seq<u8>
    decreases fuel,
{
    if fuel == 0 {
        Seq::empty()
    } else if mem[addr as int] == 0x24 {
        Seq::empty()
    } else {
        seq![mem[addr as int]] + dollar_string(mem, wrap16(addr + 1), (fuel - 1) as nat)
    }
}

/// What a BDOS call prints, by the function number in C: function 2 the
/// character in E; function 9 the `$`-terminated string at DE; any other
/// function nothing.
pub open spec fn bdos_output(s: CpuView) -> Seq<u8> {
    if s.c == 2 {
        seq![s.e]
    } else if s.c == 9 {
        dollar_string(s.mem, s.de(), 0x10000)
    } else {
        Seq::empty()
    }
}

/// The console bytes the trapped BDOS call asks to print.
pub fn cpm_bdos_output(cpu: &Cpu) -> (out: Vec<u8>)
    requires
        cpu.wf(),
    ensures
        out@ == bdos_output(cpu@),
{
    let mut out: Vec<u8> = Vec::new();
    if cpu.c == 2 {
        out.push(cpu.e);
        proof {
            assert(out@ =~= bdos_output(cpu@));
        }
    } else if cpu.c == 9 {
        let mut addr: u16 = cpu.de_pair();
        let mut fuel: u32 = 0x10000;
        loop
            invariant
                cpu.wf(),
                dollar_string(cpu@.mem, cpu@.de(), 0x10000) == out@ + dollar_string(
                    cpu@.mem,
                    addr,
                    fuel as nat,
                ),
            ensures
                out@ == dollar_string(cpu@.mem, cpu@.de(), 0x10000),
            decreases fuel,
        {
            if fuel == 0 {
                proof {
                    assert(out@ + dollar_string(cpu@.mem, addr, 0) =~= out@);
                }
                break ;
            }
            let b = cpu.mem.read(addr);
            if b == 0x24 {
                proof {
                    assert(dollar_string(cpu@.mem, addr, fuel as nat) =~= Seq::<u8>::empty());
                    assert(out@ + dollar_string(cpu@.mem, addr, fuel as nat) =~= out@);
                }
                break ;
            }
            let ghost prev_out = out@;
            let ghost prev_addr = addr;
            let ghost prev_fuel = fuel;
            out.push(b);
            addr = crate::arith::wadd16(addr, 1);
            fuel = fuel - 1;
            proof {
                assert(dollar_string(cpu@.mem, prev_addr, prev_fuel as nat) == seq![b]
                    + dollar_string(cpu@.mem, addr, fuel as nat));
                assert(prev_out + dollar_string(cpu@.mem, prev_addr, prev_fuel as nat) =~= out@
                    + dollar_string(cpu@.mem, addr, fuel as nat));
            }
        }
    }
    out
}

} // verus!
