//! The execution engine: drives the fetch-decode-execute cycle over the
//! register file and the memory image. The per-step transition is specified
//! by the mathematical function `spec_step` over an abstract machine model;
//! `Cpu::step` is proved to implement it exactly.
//!
//! Policy decisions left open by the base encoding, fixed here: `ECALL` and
//! `EBREAK` halt the engine with `SystemCall` (the program counter stays on
//! the instruction); `FENCE` is a no-op that advances the program counter;
//! misaligned data and instruction addresses are permitted.

use vstd::prelude::*;
use vstd::pervasive::unreached;
use vstd::arithmetic::div_mod::lemma_small_mod;
use vstd::arithmetic::div_mod::lemma_mod_multiples_vanish;
use crate::CpuError;
use crate::EngineState;
use crate::FaultCause;
use crate::HaltReason;
use crate::StepOutcome;
use crate::decode::AluOp;
use crate::decode::BranchOp;
use crate::decode::DecodedInstruction;
use crate::decode::LoadOp;
use crate::decode::StoreOp;
use crate::decode::decode;
use crate::decode::instr_wf;
use crate::decode::lemma_decode_field_bounds;
use crate::decode::spec_decode;
use crate::memory::Memory;
use crate::memory::extend_value;
use crate::memory::lemma_pow256_widths;
use crate::memory::lemma_read_le_bound;
use crate::memory::lemma_write_le_frame;
use crate::memory::read_le;
use crate::memory::valid_width;
use crate::memory::write_le;
use crate::registers::RegisterFile;
use crate::registers::reg_read;
use crate::registers::reg_write;

verus! {

/// The abstract machine state: the 32 register values, the program counter,
/// the memory contents, and the lifecycle state.
#[verifier::ext_equal]
pub ghost struct CpuModel {
    pub regs: Seq<u64>,
    pub pc: u64,
    pub mem: Seq<u8>,
    pub state: EngineState,
}

/// The machine invariant: 32 registers with register 0 hard-wired to zero.
pub open spec fn model_wf(m: CpuModel) -> bool {
    &&& m.regs.len() == 32
    &&& m.regs[0] == 0
}

/// Addition modulo 2^64.
pub open spec fn wrap_add(a: u64, b: u64) -> u64 {
    if a + b > u64::MAX {
        (a + b - 0x1_0000_0000_0000_0000) as u64
    } else {
        (a + b) as u64
    }
}

/// Subtraction modulo 2^64.
pub open spec fn wrap_sub(a: u64, b: u64) -> u64 {
    if a - b < 0 {
        (a - b + 0x1_0000_0000_0000_0000) as u64
    } else {
        (a - b) as u64
    }
}

/// The two's-complement reading of a 64-bit value.
pub open spec fn to_signed(v: u64) -> int {
    if v < 0x8000_0000_0000_0000 {
        v as int
    } else {
        v - 0x1_0000_0000_0000_0000
    }
}

/// Whether a conditional branch is taken, given the two source values.
pub open spec fn branch_taken(op: BranchOp, a: u64, b: u64) -> bool {
    match op {
        BranchOp::Beq => a == b,
        BranchOp::Bne => a != b,
        BranchOp::Blt => to_signed(a) < to_signed(b),
        BranchOp::Bge => to_signed(a) >= to_signed(b),
        BranchOp::Bltu => a < b,
        BranchOp::Bgeu => a >= b,
    }
}

/// The value an arithmetic/logic operation computes. Addition and
/// subtraction wrap modulo 2^64; shifts use the low 6 bits of the second
/// operand; `Sra` shifts the two's-complement reading; comparisons yield
/// 1 or 0.
pub open spec fn alu_value(op: AluOp, a: u64, b: u64) -> u64 {
    match op {
        AluOp::Add => wrap_add(a, b),
        AluOp::Sub => wrap_sub(a, b),
        AluOp::Sll => a << (b & 0x3f),
        AluOp::Slt => if to_signed(a) < to_signed(b) {
            1
        } else {
            0
        },
        AluOp::Sltu => if a < b {
            1
        } else {
            0
        },
        AluOp::Xor => a ^ b,
        AluOp::Srl => a >> (b & 0x3f),
        AluOp::Sra => ((a as i64) >> (b & 0x3f)) as u64,
        AluOp::Or => a | b,
        AluOp::And => a & b,
    }
}

/// The access width a load uses, in bytes.
pub open spec fn load_width(op: LoadOp) -> u64 {
    match op {
        LoadOp::Lb => 1,
        LoadOp::Lh => 2,
        LoadOp::Lw => 4,
        LoadOp::Ld => 8,
        LoadOp::Lbu => 1,
        LoadOp::Lhu => 2,
        LoadOp::Lwu => 4,
    }
}

/// Whether a load sign-extends the value it reads.
pub open spec fn load_signed(op: LoadOp) -> bool {
    match op {
        LoadOp::Lb => true,
        LoadOp::Lh => true,
        LoadOp::Lw => true,
        LoadOp::Ld => false,
        LoadOp::Lbu => false,
        LoadOp::Lhu => false,
        LoadOp::Lwu => false,
    }
}

/// The access width a store uses, in bytes.
pub open spec fn store_width(op: StoreOp) -> u64 {
    match op {
        StoreOp::Sb => 1,
        StoreOp::Sh => 2,
        StoreOp::Sw => 4,
        StoreOp::Sd => 8,
    }
}

/// The model after a completed instruction: new register values, program
/// counter advanced by 4, memory and state unchanged.
pub open spec fn advanced(m: CpuModel, regs: Seq<u64>) -> CpuModel {
    CpuModel { regs, pc: wrap_add(m.pc, 4), mem: m.mem, state: m.state }
}

/// The model after a fault: the engine enters the terminal `Faulted` state
/// with registers, memory and program counter untouched.
pub open spec fn faulted(m: CpuModel, cause: FaultCause) -> CpuModel {
    CpuModel { regs: m.regs, pc: m.pc, mem: m.mem, state: EngineState::Faulted(cause) }
}

/// The semantics of one decoded instruction over the abstract model:
/// arithmetic writes `rd` and advances; loads and stores first check the
/// effective address range and fault without touching any register or
/// memory byte when it exceeds the capacity; branches and jumps redirect
/// the program counter; `Ecall`/`Ebreak` halt with `SystemCall`.
pub open spec fn spec_execute(i: DecodedInstruction, m: CpuModel) -> CpuModel {
    match i {
        DecodedInstruction::Lui { rd, imm } => advanced(m, reg_write(m.regs, rd as int, imm)),
        DecodedInstruction::Auipc { rd, imm } => advanced(
            m,
            reg_write(m.regs, rd as int, wrap_add(m.pc, imm)),
        ),
        DecodedInstruction::Jal { rd, imm } => CpuModel {
            regs: reg_write(m.regs, rd as int, wrap_add(m.pc, 4)),
            pc: wrap_add(m.pc, imm),
            mem: m.mem,
            state: m.state,
        },
        DecodedInstruction::Jalr { rd, rs1, imm } => CpuModel {
            regs: reg_write(m.regs, rd as int, wrap_add(m.pc, 4)),
            pc: wrap_add(reg_read(m.regs, rs1 as int), imm) & 0xFFFF_FFFF_FFFF_FFFE,
            mem: m.mem,
            state: m.state,
        },
        DecodedInstruction::Branch { op, rs1, rs2, imm } => CpuModel {
            regs: m.regs,
            pc: if branch_taken(op, reg_read(m.regs, rs1 as int), reg_read(m.regs, rs2 as int)) {
                wrap_add(m.pc, imm)
            } else {
                wrap_add(m.pc, 4)
            },
            mem: m.mem,
            state: m.state,
        },
        DecodedInstruction::Load { op, rd, rs1, imm } => {
            let addr = wrap_add(reg_read(m.regs, rs1 as int), imm);
            if addr + load_width(op) > m.mem.len() {
                faulted(m, FaultCause::LoadAccessFault)
            } else {
                advanced(
                    m,
                    reg_write(
                        m.regs,
                        rd as int,
                        extend_value(
                            read_le(m.mem, addr as int, load_width(op) as nat),
                            load_width(op) as nat,
                            load_signed(op),
                        ),
                    ),
                )
            }
        },
        DecodedInstruction::Store { op, rs1, rs2, imm } => {
            let addr = wrap_add(reg_read(m.regs, rs1 as int), imm);
            if addr + store_width(op) > m.mem.len() {
                faulted(m, FaultCause::StoreAccessFault)
            } else {
                CpuModel {
                    regs: m.regs,
                    pc: wrap_add(m.pc, 4),
                    mem: write_le(
                        m.mem,
                        addr as int,
                        store_width(op) as nat,
                        reg_read(m.regs, rs2 as int),
                    ),
                    state: m.state,
                }
            }
        },
        DecodedInstruction::AluImm { op, rd, rs1, imm } => advanced(
            m,
            reg_write(m.regs, rd as int, alu_value(op, reg_read(m.regs, rs1 as int), imm)),
        ),
        DecodedInstruction::AluReg { op, rd, rs1, rs2 } => advanced(
            m,
            reg_write(
                m.regs,
                rd as int,
                alu_value(op, reg_read(m.regs, rs1 as int), reg_read(m.regs, rs2 as int)),
            ),
        ),
        DecodedInstruction::Fence => advanced(m, m.regs),
        DecodedInstruction::Ecall => CpuModel {
            regs: m.regs,
            pc: m.pc,
            mem: m.mem,
            state: EngineState::Halted(HaltReason::SystemCall),
        },
        DecodedInstruction::Ebreak => CpuModel {
            regs: m.regs,
            pc: m.pc,
            mem: m.mem,
            state: EngineState::Halted(HaltReason::SystemCall),
        },
    }
}

/// The per-step transition of the engine: a terminal state steps to itself;
/// otherwise the word at the program counter is fetched (faulting with
/// `InstructionFetchFault` when out of range), decoded (faulting with
/// `IllegalInstruction` for an unrecognized word), and executed.
pub open spec fn spec_step(m: CpuModel) -> CpuModel {
    if !(m.state is Running) {
        m
    } else if m.pc + 4 > m.mem.len() {
        faulted(m, FaultCause::InstructionFetchFault)
    } else {
        match spec_decode(read_le(m.mem, m.pc as int, 4) as u32) {
            Option::Some(i) => spec_execute(i, m),
            Option::None => faulted(m, FaultCause::IllegalInstruction),
        }
    }
}

/// What a step over a model reports: `Continued` while running, else the
/// terminal state it is in.
pub open spec fn outcome_of(m: CpuModel) -> StepOutcome {
    match m.state {
        EngineState::Running => StepOutcome::Continued,
        EngineState::Halted(reason) => StepOutcome::Halted(reason),
        EngineState::Faulted(cause) => StepOutcome::Faulted(cause),
    }
}

/// The model a freshly constructed machine presents: zeroed registers with
/// the stack-pointer register (index 2) holding `sp_value`, the program
/// counter at `entry`, and a zero-filled memory of `size` bytes with the
/// image copied to offset 0.
pub open spec fn initial_model(size: nat, image: Seq<u8>, entry: u64, sp_value: u64) -> CpuModel {
    CpuModel {
        regs: reg_write(Seq::new(32, |i: int| 0u64), 2, sp_value),
        pc: entry,
        mem: Seq::new(
            size,
            |i: int|
                if 0 <= i < image.len() {
                    image[i]
                } else {
                    0u8
                },
        ),
        state: EngineState::Running,
    }
}

/// Signed comparison of two 64-bit values read as two's complement.
fn signed_lt(a: u64, b: u64) -> (r: bool)
    ensures
        r == (to_signed(a) < to_signed(b)),
{
    let a_neg = a >= 0x8000_0000_0000_0000;
    let b_neg = b >= 0x8000_0000_0000_0000;
    if a_neg == b_neg {
        a < b
    } else {
        a_neg
    }
}

/// Both operands keep at most the mask's bits; in particular a 6-bit mask
/// yields a valid 64-bit shift amount.
proof fn lemma_u64_and_le(x: u64, m: u64)
    by (bit_vector)
    ensures
        x & m <= m,
{
}

/// Computes one arithmetic/logic operation.
fn alu_exec(op: AluOp, a: u64, b: u64) -> (r: u64)
    ensures
        r == alu_value(op, a, b),
{
    proof {
        lemma_u64_and_le(b, 0x3f);
    }
    match op {
        AluOp::Add => a.wrapping_add(b),
        AluOp::Sub => a.wrapping_sub(b),
        AluOp::Sll => a << (b & 0x3f),
        AluOp::Slt => if signed_lt(a, b) {
            1
        } else {
            0
        },
        AluOp::Sltu => if a < b {
            1
        } else {
            0
        },
        AluOp::Xor => a ^ b,
        AluOp::Srl => a >> (b & 0x3f),
        AluOp::Sra => ((a as i64) >> (b & 0x3f)) as u64,
        AluOp::Or => a | b,
        AluOp::And => a & b,
    }
}

/// Decides one conditional branch.
fn branch_exec(op: BranchOp, a: u64, b: u64) -> (r: bool)
    ensures
        r == branch_taken(op, a, b),
{
    match op {
        BranchOp::Beq => a == b,
        BranchOp::Bne => a != b,
        BranchOp::Blt => signed_lt(a, b),
        BranchOp::Bge => !signed_lt(a, b),
        BranchOp::Bltu => a < b,
        BranchOp::Bgeu => a >= b,
    }
}

/// The width a load accesses.
fn load_width_exec(op: LoadOp) -> (r: u64)
    ensures
        r == load_width(op),
        valid_width(r),
{
    match op {
        LoadOp::Lb => 1,
        LoadOp::Lh => 2,
        LoadOp::Lw => 4,
        LoadOp::Ld => 8,
        LoadOp::Lbu => 1,
        LoadOp::Lhu => 2,
        LoadOp::Lwu => 4,
    }
}

/// Whether a load sign-extends.
fn load_signed_exec(op: LoadOp) -> (r: bool)
    ensures
        r == load_signed(op),
{
    match op {
        LoadOp::Lb => true,
        LoadOp::Lh => true,
        LoadOp::Lw => true,
        LoadOp::Ld => false,
        LoadOp::Lbu => false,
        LoadOp::Lhu => false,
        LoadOp::Lwu => false,
    }
}

/// The width a store accesses.
fn store_width_exec(op: StoreOp) -> (r: u64)
    ensures
        r == store_width(op),
        valid_width(r),
{
    match op {
        StoreOp::Sb => 1,
        StoreOp::Sh => 2,
        StoreOp::Sw => 4,
        StoreOp::Sd => 8,
    }
}

/// The simulator: one execution engine exclusively owning its register file
/// and memory image. `Halted` and `Faulted` are terminal: a step in a
/// terminal state is a no-op reporting that state.
pub struct Cpu {
    regs: RegisterFile,
    mem: Memory,
    state: EngineState,
}

impl Cpu {
    /// The abstract machine state this simulator presents.
    pub closed spec fn view(&self) -> CpuModel {
        CpuModel {
            regs: self.regs@,
            pc: self.regs.spec_pc(),
            mem: self.mem@,
            state: self.state,
        }
    }

    /// The machine invariant, stated over the abstract model.
    pub open spec fn wf(&self) -> bool {
        model_wf(self@)
    }

    /// Builds a simulator with `memory_size` bytes of zero-filled memory,
    /// the program image copied to offset 0, the program counter at `entry`,
    /// and the stack-pointer register (index 2) holding the top-of-memory
    /// address, per the standard calling convention. Fails with
    /// `ImageTooLarge` exactly when the image does not fit.
    pub fn new(memory_size: u64, image: Vec<u8>, entry: u64) -> (r: Result<Cpu, CpuError>)
        requires
            memory_size <= usize::MAX,
        ensures
            r is Ok <==> image@.len() <= memory_size,
            r is Err ==> r == Err::<Cpu, CpuError>(CpuError::ImageTooLarge),
            r is Ok ==> r.unwrap().wf() && r.unwrap()@ == initial_model(
                memory_size as nat,
                image@,
                entry,
                memory_size,
            ),
    {
        Cpu::new_with_stack_pointer(memory_size, image, entry, memory_size)
    }

    /// As `new`, but with the initial stack-pointer value chosen by the
    /// caller, for substituting another calling convention.
    pub fn new_with_stack_pointer(memory_size: u64, image: Vec<u8>, entry: u64, sp_value: u64) -> (r:
        Result<Cpu, CpuError>)
        requires
            memory_size <= usize::MAX,
        ensures
            r is Ok <==> image@.len() <= memory_size,
            r is Err ==> r == Err::<Cpu, CpuError>(CpuError::ImageTooLarge),
            r is Ok ==> r.unwrap().wf() && r.unwrap()@ == initial_model(
                memory_size as nat,
                image@,
                entry,
                sp_value,
            ),
    {
        if image.len() as u64 > memory_size {
            return Err(CpuError::ImageTooLarge);
        }
        let mut mem = Memory::new(memory_size);
        match mem.load_image(&image, 0) {
            Ok(_) => {},
            Err(_) => {
                return unreached();
            },
        }
        let regs = RegisterFile::new(2, sp_value, entry);
        let cpu = Cpu { regs, mem, state: EngineState::Running };
        proof {
            let want = initial_model(memory_size as nat, image@, entry, sp_value);
            assert(cpu@.mem =~= want.mem);
            assert(cpu@ =~= want);
        }
        Ok(cpu)
    }

    /// Read-only inspection of one register.
    pub fn register(&self, index: u8) -> (r: u64)
        requires
            self.wf(),
            index < 32,
        ensures
            r == reg_read(self@.regs, index as int),
    {
        self.regs.read(index)
    }

    /// Read-only inspection of the program counter.
    pub fn pc(&self) -> (r: u64)
        ensures
            r == self@.pc,
    {
        self.regs.pc_get()
    }

    /// Read-only inspection of the lifecycle state.
    pub fn state(&self) -> (r: EngineState)
        ensures
            r == self@.state,
    {
        self.state
    }

    /// Read-only inspection of memory: the unsigned value of `width` bytes
    /// at `addr`, or `OutOfBounds` when the range exceeds the capacity.
    pub fn peek_memory(&self, addr: u64, width: u64) -> (r: Result<u64, CpuError>)
        requires
            valid_width(width),
        ensures
            r is Ok <==> addr + width <= self@.mem.len(),
            r is Err ==> r == Err::<u64, CpuError>(CpuError::OutOfBounds),
            r is Ok ==> r == Ok::<u64, CpuError>(
                read_le(self@.mem, addr as int, width as nat) as u64,
            ),
    {
        self.mem.read(addr, width, false)
    }

    /// One step of the fetch-decode-execute cycle, implementing `spec_step`
    /// exactly: a no-op reporting the terminal state when halted or faulted,
    /// else fetch, decode and execute with the faults those stages define.
    pub fn step(&mut self) -> (r: StepOutcome)
        requires
            old(self).wf(),
        ensures
            final(self).wf(),
            final(self)@ == spec_step(old(self)@),
            r == outcome_of(final(self)@),
    {
        match self.state {
            EngineState::Halted(reason) => {
                return StepOutcome::Halted(reason);
            },
            EngineState::Faulted(cause) => {
                return StepOutcome::Faulted(cause);
            },
            EngineState::Running => {},
        }
        let pc = self.regs.pc_get();
        let len = self.mem.size();
        if len < 4 || pc > len - 4 {
            self.state = EngineState::Faulted(FaultCause::InstructionFetchFault);
            return StepOutcome::Faulted(FaultCause::InstructionFetchFault);
        }
        let fetched = match self.mem.read(pc, 4, false) {
            Ok(v) => v,
            Err(_) => {
                return unreached();
            },
        };
        proof {
            lemma_read_le_bound(self@.mem, pc as int, 4);
            lemma_pow256_widths();
        }
        let word = fetched as u32;
        match decode(word) {
            Ok(instr) => self.execute(instr),
            Err(_) => {
                self.state = EngineState::Faulted(FaultCause::IllegalInstruction);
                StepOutcome::Faulted(FaultCause::IllegalInstruction)
            },
        }
    }

    /// Dispatches one decoded instruction to its semantic handler.
    fn execute(&mut self, i: DecodedInstruction) -> (r: StepOutcome)
        requires
            old(self).wf(),
            old(self)@.state is Running,
            instr_wf(i),
        ensures
            final(self).wf(),
            final(self)@ == spec_execute(i, old(self)@),
            r == outcome_of(final(self)@),
    {
        match i {
            DecodedInstruction::Lui { rd, imm } => {
                self.regs.write(rd, imm);
                let pc = self.regs.pc_get();
                self.regs.pc_set(pc.wrapping_add(4));
                StepOutcome::Continued
            },
            DecodedInstruction::Auipc { rd, imm } => {
                let pc = self.regs.pc_get();
                self.regs.write(rd, pc.wrapping_add(imm));
                self.regs.pc_set(pc.wrapping_add(4));
                StepOutcome::Continued
            },
            DecodedInstruction::Jal { rd, imm } => {
                let pc = self.regs.pc_get();
                self.regs.write(rd, pc.wrapping_add(4));
                self.regs.pc_set(pc.wrapping_add(imm));
                StepOutcome::Continued
            },
            DecodedInstruction::Jalr { rd, rs1, imm } => {
                let pc = self.regs.pc_get();
                let base = self.regs.read(rs1);
                self.regs.write(rd, pc.wrapping_add(4));
                self.regs.pc_set(base.wrapping_add(imm) & 0xFFFF_FFFF_FFFF_FFFE);
                StepOutcome::Continued
            },
            DecodedInstruction::Branch { op, rs1, rs2, imm } => {
                let a = self.regs.read(rs1);
                let b = self.regs.read(rs2);
                let pc = self.regs.pc_get();
                if branch_exec(op, a, b) {
                    self.regs.pc_set(pc.wrapping_add(imm));
                } else {
                    self.regs.pc_set(pc.wrapping_add(4));
                }
                StepOutcome::Continued
            },
            DecodedInstruction::Load { op, rd, rs1, imm } => {
                let base = self.regs.read(rs1);
                let addr = base.wrapping_add(imm);
                let width = load_width_exec(op);
                let signed = load_signed_exec(op);
                let len = self.mem.size();
                if len < width || addr > len - width {
                    self.state = EngineState::Faulted(FaultCause::LoadAccessFault);
                    return StepOutcome::Faulted(FaultCause::LoadAccessFault);
                }
                let value = match self.mem.read(addr, width, signed) {
                    Ok(v) => v,
                    Err(_) => {
                        return unreached();
                    },
                };
                self.regs.write(rd, value);
                let pc = self.regs.pc_get();
                self.regs.pc_set(pc.wrapping_add(4));
                StepOutcome::Continued
            },
            DecodedInstruction::Store { op, rs1, rs2, imm } => {
                let base = self.regs.read(rs1);
                let addr = base.wrapping_add(imm);
                let value = self.regs.read(rs2);
                let width = store_width_exec(op);
                let len = self.mem.size();
                if len < width || addr > len - width {
                    self.state = EngineState::Faulted(FaultCause::StoreAccessFault);
                    return StepOutcome::Faulted(FaultCause::StoreAccessFault);
                }
                match self.mem.write(addr, width, value) {
                    Ok(_) => {},
                    Err(_) => {
                        return unreached();
                    },
                }
                let pc = self.regs.pc_get();
                self.regs.pc_set(pc.wrapping_add(4));
                StepOutcome::Continued
            },
            DecodedInstruction::AluImm { op, rd, rs1, imm } => {
                let a = self.regs.read(rs1);
                let value = alu_exec(op, a, imm);
                self.regs.write(rd, value);
                let pc = self.regs.pc_get();
                self.regs.pc_set(pc.wrapping_add(4));
                StepOutcome::Continued
            },
            DecodedInstruction::AluReg { op, rd, rs1, rs2 } => {
                let a = self.regs.read(rs1);
                let b = self.regs.read(rs2);
                let value = alu_exec(op, a, b);
                self.regs.write(rd, value);
                let pc = self.regs.pc_get();
                self.regs.pc_set(pc.wrapping_add(4));
                StepOutcome::Continued
            },
            DecodedInstruction::Fence => {
                let pc = self.regs.pc_get();
                self.regs.pc_set(pc.wrapping_add(4));
                StepOutcome::Continued
            },
            DecodedInstruction::Ecall => {
                self.state = EngineState::Halted(HaltReason::SystemCall);
                StepOutcome::Halted(HaltReason::SystemCall)
            },
            DecodedInstruction::Ebreak => {
                self.state = EngineState::Halted(HaltReason::SystemCall);
                StepOutcome::Halted(HaltReason::SystemCall)
            },
        }
    }
}

/// A conditional branch whose two source operands name the same register is
/// always taken, whatever that register holds: the program counter moves by
/// the branch offset (modulo 2^64), never by 4, and registers, memory and
/// state are untouched.
pub proof fn lemma_branch_same_register_taken(m: CpuModel, r: u8, imm: u64)
    ensures
        ({
            let next = spec_execute(
                DecodedInstruction::Branch { op: BranchOp::Beq, rs1: r, rs2: r, imm },
                m,
            );
            &&& next.pc == wrap_add(m.pc, imm)
            &&& next.regs == m.regs
            &&& next.mem == m.mem
            &&& next.state == m.state
        }),
{
}

/// Addition wraps modulo 2^64 and never faults: the value `Add` computes is
/// the mathematical sum reduced modulo 2^64.
pub proof fn lemma_add_wraps(a: u64, b: u64)
    ensures
        alu_value(AluOp::Add, a, b) == (a + b) % 0x1_0000_0000_0000_0000,
{
    if a + b > u64::MAX {
        lemma_mod_multiples_vanish(1, a + b - 0x1_0000_0000_0000_0000, 0x1_0000_0000_0000_0000);
        lemma_small_mod((a + b - 0x1_0000_0000_0000_0000) as nat, 0x1_0000_0000_0000_0000);
    } else {
        lemma_small_mod((a + b) as nat, 0x1_0000_0000_0000_0000);
    }
}

/// Stepping while the fetched word is outside the recognized encoding set
/// moves the engine to `Faulted(IllegalInstruction)` and touches nothing
/// else; it never halts the process.
pub proof fn lemma_illegal_word_faults(m: CpuModel)
    requires
        m.state is Running,
        m.pc + 4 <= m.mem.len(),
        spec_decode(read_le(m.mem, m.pc as int, 4) as u32) is None,
    ensures
        spec_step(m).state == EngineState::Faulted(FaultCause::IllegalInstruction),
        spec_step(m).regs == m.regs,
        spec_step(m).mem == m.mem,
        spec_step(m).pc == m.pc,
{
}

/// Every step preserves the machine invariant — register 0 stays zero and
/// the register file keeps its 32 entries — and the memory capacity.
pub proof fn lemma_step_preserves_model_wf(m: CpuModel)
    requires
        model_wf(m),
    ensures
        model_wf(spec_step(m)),
        spec_step(m).mem.len() == m.mem.len(),
{
    if m.state is Running && m.pc + 4 <= m.mem.len() {
        let word = read_le(m.mem, m.pc as int, 4) as u32;
        lemma_decode_field_bounds(word);
        match spec_decode(word) {
            Option::Some(i) => {
                lemma_execute_preserves_model_wf(i, m);
            },
            Option::None => {},
        }
    }
}

/// Executing any well-formed instruction preserves the machine invariant
/// and the memory capacity.
pub proof fn lemma_execute_preserves_model_wf(i: DecodedInstruction, m: CpuModel)
    requires
        model_wf(m),
        instr_wf(i),
    ensures
        model_wf(spec_execute(i, m)),
        spec_execute(i, m).mem.len() == m.mem.len(),
{
    match i {
        DecodedInstruction::Store { op, rs1, rs2, imm } => {
            let addr = wrap_add(reg_read(m.regs, rs1 as int), imm);
            if addr + store_width(op) <= m.mem.len() {
                lemma_write_le_frame(
                    m.mem,
                    addr as int,
                    store_width(op) as nat,
                    reg_read(m.regs, rs2 as int),
                );
            }
        },
        _ => {},
    }
}

/// `Halted` and `Faulted` are terminal: a step from either leaves the whole
/// machine unchanged, and what it reports is the terminal state itself.
pub proof fn lemma_terminal_step_is_noop(m: CpuModel)
    requires
        !(m.state is Running),
    ensures
        spec_step(m) == m,
        outcome_of(spec_step(m)) != StepOutcome::Continued,
{
}

} // verus!
