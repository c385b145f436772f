//! The flat 64 KiB memory. Addresses are intrinsically 16-bit, so reads and
//! writes never fail; the interpreter permits writes anywhere, including
//! the ROM region, as the diagnostic ROMs rely on.

use vstd::pervasive::VecAdditionalExecFns;
use vstd::prelude::*;

use crate::arith::{pair, wrap16};

verus! {

/// 65536 bytes, zero-initialized, indexed by 16-bit address. Every
/// operation keeps the size; `wf` states it.
pub struct Memory {
    bytes: Vec<u8>,
}

impl View for Memory {
    type V = Seq<u8>;

    closed spec fn view(&self) -> Seq<u8> {
        self.bytes@
    }
}

impl Memory {
    /// A memory covers the full 16-bit address space.
    pub open spec fn wf(self) -> bool {
        self@.len() == 0x10000
    }

    /// A fresh memory, all 65536 bytes zero.
    pub fn new() -> (m: Memory)
        ensures
            m.wf(),
            forall|i: int| 0 <= i < 0x10000 ==> m@[i] == 0,
    {
        let bytes = vec![0u8; 0x10000];
        Memory { bytes }
    }

    /// The byte at `addr`.
    pub fn read(&self, addr: u16) -> (b: u8)
        requires
            self.wf(),
        ensures
            b == self@[addr as int],
    {
        self.bytes[addr as usize]
    }

    /// Replaces the byte at `addr`.
    pub fn write(&mut self, addr: u16, val: u8)
        requires
            old(self).wf(),
        ensures
            final(self)@ == old(self)@.update(addr as int, val),
            final(self).wf(),
    {
        self.bytes.set(addr as usize, val);
    }

    /// The little-endian 16-bit word at `addr`: the low byte at `addr`, the
    /// high byte at the (wrapping) next address.
    pub fn read16(&self, addr: u16) -> (w: u16)
        requires
            self.wf(),
        ensures
            w == pair(self@[wrap16(addr + 1) as int], self@[addr as int]),
    {
        let lo = self.read(addr);
        let hi = self.read(crate::arith::wadd16(addr, 1));
        crate::arith::join_bytes(hi, lo)
    }

    /// Copies `data` into memory starting at `offset`; the rest is kept.
    pub fn load(&mut self, data: &Vec<u8>, offset: u16)
        requires
            old(self).wf(),
            offset + data@.len() <= 0x10000,
        ensures
            final(self).wf(),
            forall|i: int|
                offset <= i < offset + data@.len() ==> final(self)@[i] == data@[i - offset],
            forall|i: int|
                0 <= i < 0x10000 && !(offset <= i < offset + data@.len()) ==> final(self)@[i]
                    == old(self)@[i],
    {
        let mut k: usize = 0;
        while k < data.len()
            invariant
                offset + data@.len() <= 0x10000,
                k <= data@.len(),
                self.wf(),
                forall|i: int| offset <= i < offset + k ==> self@[i] == data@[i - offset],
                forall|i: int|
                    0 <= i < 0x10000 && !(offset <= i < offset + k) ==> self@[i] == old(self)@[i],
            decreases data@.len() - k,
        {
            self.bytes.set(offset as usize + k, data[k]);
            k = k + 1;
        }
    }
}

} // verus!
