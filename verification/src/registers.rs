//! The register file: 32 general-purpose 64-bit registers plus the program
//! counter. Register 0 is architecturally hard-wired to zero: writes to it
//! are accepted but discarded, reads always yield zero.

use vstd::prelude::*;
use vstd::pervasive::VecAdditionalExecFns;

verus! {

/// What reading register `index` from the sequence of stored values yields:
/// zero for register 0, the stored value otherwise.
pub open spec fn reg_read(regs: Seq<u64>, index: int) -> u64 {
    if index == 0 {
        0
    } else {
        regs[index]
    }
}

/// The stored values after writing `value` to register `index`: unchanged
/// for register 0, updated at `index` otherwise.
pub open spec fn reg_write(regs: Seq<u64>, index: int, value: u64) -> Seq<u64> {
    if index == 0 {
        regs
    } else {
        regs.update(index, value)
    }
}

/// Writing a register and then reading the same index yields the written
/// value for every index other than 0, and always yields 0 for index 0,
/// whatever was written.
pub proof fn lemma_write_then_read(regs: Seq<u64>, index: int, value: u64)
    requires
        0 <= index < regs.len(),
    ensures
        index != 0 ==> reg_read(reg_write(regs, index, value), index) == value,
        index == 0 ==> reg_read(reg_write(regs, index, value), index) == 0,
{
}

/// A write leaves every other register unchanged.
pub proof fn lemma_write_frames_others(regs: Seq<u64>, index: int, value: u64, other: int)
    requires
        0 <= index < regs.len(),
        0 <= other < regs.len(),
        other != index,
    ensures
        reg_read(reg_write(regs, index, value), other) == reg_read(regs, other),
{
}

pub struct RegisterFile {
    gpr: Vec<u64>,
    pc: u64,
}

impl RegisterFile {
    /// The mathematical model: the 32 stored general-purpose values.
    pub closed spec fn view(&self) -> Seq<u64> {
        self.gpr@
    }

    pub closed spec fn spec_pc(&self) -> u64 {
        self.pc
    }

    /// There are exactly 32 registers and register 0 holds zero.
    pub open spec fn wf(&self) -> bool {
        &&& self@.len() == 32
        &&& self@[0] == 0
    }

    /// A fresh register file: all registers zero except register `sp_index`,
    /// which holds `sp_value` (the stack-pointer convention), and the program
    /// counter at `entry`. Passing `sp_index == 0` leaves every register zero.
    pub fn new(sp_index: u8, sp_value: u64, entry: u64) -> (r: RegisterFile)
        requires
            sp_index < 32,
        ensures
            r.wf(),
            r@ == reg_write(Seq::new(32, |i: int| 0u64), sp_index as int, sp_value),
            r.spec_pc() == entry,
    {
        let mut gpr: Vec<u64> = Vec::new();
        let mut i: usize = 0;
        while i < 32
            invariant
                i <= 32,
                gpr@.len() == i,
                forall|j: int| 0 <= j < i ==> gpr@[j] == 0,
            decreases 32 - i,
        {
            gpr.push(0);
            i = i + 1;
        }
        if sp_index != 0 {
            gpr.set(sp_index as usize, sp_value);
        }
        let r = RegisterFile { gpr, pc: entry };
        proof {
            assert(r@ =~= reg_write(Seq::new(32, |i: int| 0u64), sp_index as int, sp_value));
        }
        r
    }

    /// Reads register `index`: always 0 for index 0, the stored value otherwise.
    pub fn read(&self, index: u8) -> (r: u64)
        requires
            self.wf(),
            index < 32,
        ensures
            r == reg_read(self@, index as int),
    {
        if index == 0 {
            0
        } else {
            self.gpr[index as usize]
        }
    }

    /// Writes register `index`: a no-op for index 0, stores `value` otherwise.
    pub fn write(&mut self, index: u8, value: u64)
        requires
            old(self).wf(),
            index < 32,
        ensures
            final(self).wf(),
            final(self)@ == reg_write(old(self)@, index as int, value),
            final(self).spec_pc() == old(self).spec_pc(),
    {
        if index != 0 {
            self.gpr.set(index as usize, value);
        }
        proof {
            assert(self@ =~= reg_write(old(self)@, index as int, value));
        }
    }

    /// The address of the next instruction to fetch.
    pub fn pc_get(&self) -> (r: u64)
        ensures
            r == self.spec_pc(),
    {
        self.pc
    }

    /// Redirects the program counter; validity is checked at the next fetch.
    pub fn pc_set(&mut self, addr: u64)
        ensures
            final(self).spec_pc() == addr,
            final(self)@ == old(self)@,
            final(self).wf() == old(self).wf(),
    {
        self.pc = addr;
    }
}

} // verus!
