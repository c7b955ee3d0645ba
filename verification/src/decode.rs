//! The decoder: a pure, stateless function from a 32-bit instruction word to
//! a tagged instruction descriptor, or `IllegalInstruction` for any word
//! outside the recognized base integer encoding set. The low 7 bits select
//! the format class; register indices, sub-opcode discriminators and the
//! sign-extended immediate are extracted per class.

use vstd::prelude::*;
use crate::CpuError;

verus! {

/// The comparison a conditional branch performs.
#[derive(Clone, Copy, Debug, PartialEq, Eq, Structural)]
pub enum BranchOp {
    Beq,
    Bne,
    Blt,
    Bge,
    Bltu,
    Bgeu,
}

/// The width and signedness a load uses.
#[derive(Clone, Copy, Debug, PartialEq, Eq, Structural)]
pub enum LoadOp {
    Lb,
    Lh,
    Lw,
    Ld,
    Lbu,
    Lhu,
    Lwu,
}

/// The width a store uses.
#[derive(Clone, Copy, Debug, PartialEq, Eq, Structural)]
pub enum StoreOp {
    Sb,
    Sh,
    Sw,
    Sd,
}

/// An arithmetic/logic operation, shared by the register and immediate
/// instruction forms (`Sub` has no immediate form).
#[derive(Clone, Copy, Debug, PartialEq, Eq, Structural)]
pub enum AluOp {
    Add,
    Sub,
    Sll,
    Slt,
    Sltu,
    Xor,
    Srl,
    Sra,
    Or,
    And,
}

/// The instruction-format tags of the base integer encoding, plus a tag for
/// system instructions.
#[derive(Clone, Copy, Debug, PartialEq, Eq, Structural)]
pub enum OpcodeClass {
    R,
    I,
    S,
    B,
    U,
    J,
    System,
}

/// A decoded instruction: one variant per dispatch case, carrying the
/// register indices and the sign-extended 64-bit immediate its format
/// provides. Produced per cycle and never retained.
#[derive(Clone, Copy, Debug, PartialEq, Eq, Structural)]
pub enum DecodedInstruction {
    Lui { rd: u8, imm: u64 },
    Auipc { rd: u8, imm: u64 },
    Jal { rd: u8, imm: u64 },
    Jalr { rd: u8, rs1: u8, imm: u64 },
    Branch { op: BranchOp, rs1: u8, rs2: u8, imm: u64 },
    Load { op: LoadOp, rd: u8, rs1: u8, imm: u64 },
    Store { op: StoreOp, rs1: u8, rs2: u8, imm: u64 },
    /// Immediate arithmetic/logic; for shifts `imm` holds the 6-bit shift amount.
    AluImm { op: AluOp, rd: u8, rs1: u8, imm: u64 },
    AluReg { op: AluOp, rd: u8, rs1: u8, rs2: u8 },
    Fence,
    Ecall,
    Ebreak,
}

impl DecodedInstruction {
    /// The format class the instruction was encoded in.
    pub open spec fn spec_opcode_class(self) -> OpcodeClass {
        match self {
            DecodedInstruction::Lui { .. } => OpcodeClass::U,
            DecodedInstruction::Auipc { .. } => OpcodeClass::U,
            DecodedInstruction::Jal { .. } => OpcodeClass::J,
            DecodedInstruction::Jalr { .. } => OpcodeClass::I,
            DecodedInstruction::Branch { .. } => OpcodeClass::B,
            DecodedInstruction::Load { .. } => OpcodeClass::I,
            DecodedInstruction::Store { .. } => OpcodeClass::S,
            DecodedInstruction::AluImm { .. } => OpcodeClass::I,
            DecodedInstruction::AluReg { .. } => OpcodeClass::R,
            DecodedInstruction::Fence { .. } => OpcodeClass::I,
            DecodedInstruction::Ecall { .. } => OpcodeClass::System,
            DecodedInstruction::Ebreak { .. } => OpcodeClass::System,
        }
    }

    /// The format class the instruction was encoded in.
    pub fn opcode_class(&self) -> (r: OpcodeClass)
        ensures
            r == self.spec_opcode_class(),
    {
        match self {
            DecodedInstruction::Lui { .. } => OpcodeClass::U,
            DecodedInstruction::Auipc { .. } => OpcodeClass::U,
            DecodedInstruction::Jal { .. } => OpcodeClass::J,
            DecodedInstruction::Jalr { .. } => OpcodeClass::I,
            DecodedInstruction::Branch { .. } => OpcodeClass::B,
            DecodedInstruction::Load { .. } => OpcodeClass::I,
            DecodedInstruction::Store { .. } => OpcodeClass::S,
            DecodedInstruction::AluImm { .. } => OpcodeClass::I,
            DecodedInstruction::AluReg { .. } => OpcodeClass::R,
            DecodedInstruction::Fence { .. } => OpcodeClass::I,
            DecodedInstruction::Ecall { .. } => OpcodeClass::System,
            DecodedInstruction::Ebreak { .. } => OpcodeClass::System,
        }
    }
}

/// Every register index a decoded instruction carries is a valid index into
/// the 32-entry register file.
pub open spec fn instr_wf(i: DecodedInstruction) -> bool {
    match i {
        DecodedInstruction::Lui { rd, .. } => rd < 32,
        DecodedInstruction::Auipc { rd, .. } => rd < 32,
        DecodedInstruction::Jal { rd, .. } => rd < 32,
        DecodedInstruction::Jalr { rd, rs1, .. } => rd < 32 && rs1 < 32,
        DecodedInstruction::Branch { rs1, rs2, .. } => rs1 < 32 && rs2 < 32,
        DecodedInstruction::Load { rd, rs1, .. } => rd < 32 && rs1 < 32,
        DecodedInstruction::Store { rs1, rs2, .. } => rs1 < 32 && rs2 < 32,
        DecodedInstruction::AluImm { rd, rs1, .. } => rd < 32 && rs1 < 32,
        DecodedInstruction::AluReg { rd, rs1, rs2, .. } => rd < 32 && rs1 < 32 && rs2 < 32,
        DecodedInstruction::Fence { .. } => true,
        DecodedInstruction::Ecall { .. } => true,
        DecodedInstruction::Ebreak { .. } => true,
    }
}

/// A value masked keeps at most the mask's bits.
proof fn lemma_u32_and_le(x: u32, m: u32)
    by (bit_vector)
    ensures
        x & m <= m,
{
}

/// The I-format immediate: bits 31:20, sign-extended from 12 bits.
pub open spec fn imm_i(w: u32) -> u64 {
    let v = ((w >> 20) & 0xfff) as u64;
    if v < 0x800 {
        v
    } else {
        (v + 0xFFFF_FFFF_FFFF_F000) as u64
    }
}

/// The S-format immediate: bits 31:25 over bits 11:7, sign-extended from
/// 12 bits.
pub open spec fn imm_s(w: u32) -> u64 {
    let v = ((((w >> 25) & 0x7f) * 0x20 + ((w >> 7) & 0x1f)) as u32) as u64;
    if v < 0x800 {
        v
    } else {
        (v + 0xFFFF_FFFF_FFFF_F000) as u64
    }
}

/// The B-format immediate: bit 31 is bit 12, bit 7 is bit 11, bits 30:25 are
/// bits 10:5, bits 11:8 are bits 4:1; bit 0 is zero. Sign-extended from
/// 13 bits.
pub open spec fn imm_b(w: u32) -> u64 {
    let v = (((w >> 31) & 1) * 0x1000 + ((w >> 7) & 1) * 0x800 + ((w >> 25) & 0x3f) * 0x20 + ((w
        >> 8) & 0xf) * 2) as u64;
    if v < 0x1000 {
        v
    } else {
        (v + 0xFFFF_FFFF_FFFF_E000) as u64
    }
}

/// The U-format immediate: bits 31:12 shifted left 12, sign-extended from
/// 32 bits.
pub open spec fn imm_u(w: u32) -> u64 {
    let v = (w & 0xFFFF_F000) as u64;
    if v < 0x8000_0000 {
        v
    } else {
        (v + 0xFFFF_FFFF_0000_0000) as u64
    }
}

/// The J-format immediate: bit 31 is bit 20, bits 19:12 stay, bit 20 is
/// bit 11, bits 30:21 are bits 10:1; bit 0 is zero. Sign-extended from
/// 21 bits.
pub open spec fn imm_j(w: u32) -> u64 {
    let v = (((w >> 31) & 1) * 0x10_0000 + ((w >> 12) & 0xff) * 0x1000 + ((w >> 20) & 1) * 0x800 + (
    (w >> 21) & 0x3ff) * 2) as u64;
    if v < 0x10_0000 {
        v
    } else {
        (v + 0xFFFF_FFFF_FFE0_0000) as u64
    }
}

/// The 6-bit shift amount of an immediate shift: bits 25:20.
pub open spec fn shamt_of(w: u32) -> u64 {
    ((w >> 20) & 0x3f) as u64
}

/// The decoder as a mathematical function: `Some` descriptor for every word
/// in the recognized encoding set, `None` otherwise. Deterministic and
/// referentially transparent; consults no architectural state.
pub open spec fn spec_decode(w: u32) -> Option<DecodedInstruction> {
    let opcode = w & 0x7f;
    let rd = ((w >> 7) & 0x1f) as u8;
    let funct3 = (w >> 12) & 0x7;
    let rs1 = ((w >> 15) & 0x1f) as u8;
    let rs2 = ((w >> 20) & 0x1f) as u8;
    let funct7 = (w >> 25) & 0x7f;
    if opcode == 0x37 {
        Some(DecodedInstruction::Lui { rd, imm: imm_u(w) })
    } else if opcode == 0x17 {
        Some(DecodedInstruction::Auipc { rd, imm: imm_u(w) })
    } else if opcode == 0x6f {
        Some(DecodedInstruction::Jal { rd, imm: imm_j(w) })
    } else if opcode == 0x67 && funct3 == 0 {
        Some(DecodedInstruction::Jalr { rd, rs1, imm: imm_i(w) })
    } else if opcode == 0x63 {
        if funct3 == 0 {
            Some(DecodedInstruction::Branch { op: BranchOp::Beq, rs1, rs2, imm: imm_b(w) })
        } else if funct3 == 1 {
            Some(DecodedInstruction::Branch { op: BranchOp::Bne, rs1, rs2, imm: imm_b(w) })
        } else if funct3 == 4 {
            Some(DecodedInstruction::Branch { op: BranchOp::Blt, rs1, rs2, imm: imm_b(w) })
        } else if funct3 == 5 {
            Some(DecodedInstruction::Branch { op: BranchOp::Bge, rs1, rs2, imm: imm_b(w) })
        } else if funct3 == 6 {
            Some(DecodedInstruction::Branch { op: BranchOp::Bltu, rs1, rs2, imm: imm_b(w) })
        } else if funct3 == 7 {
            Some(DecodedInstruction::Branch { op: BranchOp::Bgeu, rs1, rs2, imm: imm_b(w) })
        } else {
            None
        }
    } else if opcode == 0x03 {
        if funct3 == 0 {
            Some(DecodedInstruction::Load { op: LoadOp::Lb, rd, rs1, imm: imm_i(w) })
        } else if funct3 == 1 {
            Some(DecodedInstruction::Load { op: LoadOp::Lh, rd, rs1, imm: imm_i(w) })
        } else if funct3 == 2 {
            Some(DecodedInstruction::Load { op: LoadOp::Lw, rd, rs1, imm: imm_i(w) })
        } else if funct3 == 3 {
            Some(DecodedInstruction::Load { op: LoadOp::Ld, rd, rs1, imm: imm_i(w) })
        } else if funct3 == 4 {
            Some(DecodedInstruction::Load { op: LoadOp::Lbu, rd, rs1, imm: imm_i(w) })
        } else if funct3 == 5 {
            Some(DecodedInstruction::Load { op: LoadOp::Lhu, rd, rs1, imm: imm_i(w) })
        } else if funct3 == 6 {
            Some(DecodedInstruction::Load { op: LoadOp::Lwu, rd, rs1, imm: imm_i(w) })
        } else {
            None
        }
    } else if opcode == 0x23 {
        if funct3 == 0 {
            Some(DecodedInstruction::Store { op: StoreOp::Sb, rs1, rs2, imm: imm_s(w) })
        } else if funct3 == 1 {
            Some(DecodedInstruction::Store { op: StoreOp::Sh, rs1, rs2, imm: imm_s(w) })
        } else if funct3 == 2 {
            Some(DecodedInstruction::Store { op: StoreOp::Sw, rs1, rs2, imm: imm_s(w) })
        } else if funct3 == 3 {
            Some(DecodedInstruction::Store { op: StoreOp::Sd, rs1, rs2, imm: imm_s(w) })
        } else {
            None
        }
    } else if opcode == 0x13 {
        if funct3 == 0 {
            Some(DecodedInstruction::AluImm { op: AluOp::Add, rd, rs1, imm: imm_i(w) })
        } else if funct3 == 2 {
            Some(DecodedInstruction::AluImm { op: AluOp::Slt, rd, rs1, imm: imm_i(w) })
        } else if funct3 == 3 {
            Some(DecodedInstruction::AluImm { op: AluOp::Sltu, rd, rs1, imm: imm_i(w) })
        } else if funct3 == 4 {
            Some(DecodedInstruction::AluImm { op: AluOp::Xor, rd, rs1, imm: imm_i(w) })
        } else if funct3 == 6 {
            Some(DecodedInstruction::AluImm { op: AluOp::Or, rd, rs1, imm: imm_i(w) })
        } else if funct3 == 7 {
            Some(DecodedInstruction::AluImm { op: AluOp::And, rd, rs1, imm: imm_i(w) })
        } else if funct3 == 1 && funct7 >> 1 == 0 {
            Some(DecodedInstruction::AluImm { op: AluOp::Sll, rd, rs1, imm: shamt_of(w) })
        } else if funct3 == 5 && funct7 >> 1 == 0 {
            Some(DecodedInstruction::AluImm { op: AluOp::Srl, rd, rs1, imm: shamt_of(w) })
        } else if funct3 == 5 && funct7 >> 1 == 0x10 {
            Some(DecodedInstruction::AluImm { op: AluOp::Sra, rd, rs1, imm: shamt_of(w) })
        } else {
            None
        }
    } else if opcode == 0x33 {
        if funct3 == 0 && funct7 == 0 {
            Some(DecodedInstruction::AluReg { op: AluOp::Add, rd, rs1, rs2 })
        } else if funct3 == 0 && funct7 == 0x20 {
            Some(DecodedInstruction::AluReg { op: AluOp::Sub, rd, rs1, rs2 })
        } else if funct3 == 1 && funct7 == 0 {
            Some(DecodedInstruction::AluReg { op: AluOp::Sll, rd, rs1, rs2 })
        } else if funct3 == 2 && funct7 == 0 {
            Some(DecodedInstruction::AluReg { op: AluOp::Slt, rd, rs1, rs2 })
        } else if funct3 == 3 && funct7 == 0 {
            Some(DecodedInstruction::AluReg { op: AluOp::Sltu, rd, rs1, rs2 })
        } else if funct3 == 4 && funct7 == 0 {
            Some(DecodedInstruction::AluReg { op: AluOp::Xor, rd, rs1, rs2 })
        } else if funct3 == 5 && funct7 == 0 {
            Some(DecodedInstruction::AluReg { op: AluOp::Srl, rd, rs1, rs2 })
        } else if funct3 == 5 && funct7 == 0x20 {
            Some(DecodedInstruction::AluReg { op: AluOp::Sra, rd, rs1, rs2 })
        } else if funct3 == 6 && funct7 == 0 {
            Some(DecodedInstruction::AluReg { op: AluOp::Or, rd, rs1, rs2 })
        } else if funct3 == 7 && funct7 == 0 {
            Some(DecodedInstruction::AluReg { op: AluOp::And, rd, rs1, rs2 })
        } else {
            None
        }
    } else if opcode == 0x0f && funct3 == 0 {
        Some(DecodedInstruction::Fence)
    } else if opcode == 0x73 && funct3 == 0 && rd == 0 && rs1 == 0 {
        if w >> 20 == 0 {
            Some(DecodedInstruction::Ecall)
        } else if w >> 20 == 1 {
            Some(DecodedInstruction::Ebreak)
        } else {
            None
        }
    } else {
        None
    }
}

/// Decodes a 32-bit instruction word, reporting `IllegalInstruction` exactly
/// for the words outside the recognized encoding set. Performs no side
/// effects and consults no architectural state.
pub fn decode(w: u32) -> (r: Result<DecodedInstruction, CpuError>)
    ensures
        r is Ok <==> spec_decode(w) is Some,
        r is Ok ==> spec_decode(w) == Some(r.unwrap()) && instr_wf(r.unwrap()),
        r is Err ==> r == Err::<DecodedInstruction, CpuError>(CpuError::IllegalInstruction),
{
    proof {
        lemma_u32_and_le(w >> 7, 0x1f);
        lemma_u32_and_le(w >> 15, 0x1f);
        lemma_u32_and_le(w >> 20, 0x1f);
    }
    let opcode = w & 0x7f;
    let rd = ((w >> 7) & 0x1f) as u8;
    let funct3 = (w >> 12) & 0x7;
    let rs1 = ((w >> 15) & 0x1f) as u8;
    let rs2 = ((w >> 20) & 0x1f) as u8;
    let funct7 = (w >> 25) & 0x7f;
    if opcode == 0x37 {
        Ok(DecodedInstruction::Lui { rd, imm: imm_u_exec(w) })
    } else if opcode == 0x17 {
        Ok(DecodedInstruction::Auipc { rd, imm: imm_u_exec(w) })
    } else if opcode == 0x6f {
        Ok(DecodedInstruction::Jal { rd, imm: imm_j_exec(w) })
    } else if opcode == 0x67 && funct3 == 0 {
        Ok(DecodedInstruction::Jalr { rd, rs1, imm: imm_i_exec(w) })
    } else if opcode == 0x63 {
        let op = if funct3 == 0 {
            BranchOp::Beq
        } else if funct3 == 1 {
            BranchOp::Bne
        } else if funct3 == 4 {
            BranchOp::Blt
        } else if funct3 == 5 {
            BranchOp::Bge
        } else if funct3 == 6 {
            BranchOp::Bltu
        } else if funct3 == 7 {
            BranchOp::Bgeu
        } else {
            return Err(CpuError::IllegalInstruction);
        };
        Ok(DecodedInstruction::Branch { op, rs1, rs2, imm: imm_b_exec(w) })
    } else if opcode == 0x03 {
        let op = if funct3 == 0 {
            LoadOp::Lb
        } else if funct3 == 1 {
            LoadOp::Lh
        } else if funct3 == 2 {
            LoadOp::Lw
        } else if funct3 == 3 {
            LoadOp::Ld
        } else if funct3 == 4 {
            LoadOp::Lbu
        } else if funct3 == 5 {
            LoadOp::Lhu
        } else if funct3 == 6 {
            LoadOp::Lwu
        } else {
            return Err(CpuError::IllegalInstruction);
        };
        Ok(DecodedInstruction::Load { op, rd, rs1, imm: imm_i_exec(w) })
    } else if opcode == 0x23 {
        let op = if funct3 == 0 {
            StoreOp::Sb
        } else if funct3 == 1 {
            StoreOp::Sh
        } else if funct3 == 2 {
            StoreOp::Sw
        } else if funct3 == 3 {
            StoreOp::Sd
        } else {
            return Err(CpuError::IllegalInstruction);
        };
        Ok(DecodedInstruction::Store { op, rs1, rs2, imm: imm_s_exec(w) })
    } else if opcode == 0x13 {
        if funct3 == 0 {
            Ok(DecodedInstruction::AluImm { op: AluOp::Add, rd, rs1, imm: imm_i_exec(w) })
        } else if funct3 == 2 {
            Ok(DecodedInstruction::AluImm { op: AluOp::Slt, rd, rs1, imm: imm_i_exec(w) })
        } else if funct3 == 3 {
            Ok(DecodedInstruction::AluImm { op: AluOp::Sltu, rd, rs1, imm: imm_i_exec(w) })
        } else if funct3 == 4 {
            Ok(DecodedInstruction::AluImm { op: AluOp::Xor, rd, rs1, imm: imm_i_exec(w) })
        } else if funct3 == 6 {
            Ok(DecodedInstruction::AluImm { op: AluOp::Or, rd, rs1, imm: imm_i_exec(w) })
        } else if funct3 == 7 {
            Ok(DecodedInstruction::AluImm { op: AluOp::And, rd, rs1, imm: imm_i_exec(w) })
        } else if funct3 == 1 && funct7 >> 1 == 0 {
            Ok(DecodedInstruction::AluImm { op: AluOp::Sll, rd, rs1, imm: shamt_exec(w) })
        } else if funct3 == 5 && funct7 >> 1 == 0 {
            Ok(DecodedInstruction::AluImm { op: AluOp::Srl, rd, rs1, imm: shamt_exec(w) })
        } else if funct3 == 5 && funct7 >> 1 == 0x10 {
            Ok(DecodedInstruction::AluImm { op: AluOp::Sra, rd, rs1, imm: shamt_exec(w) })
        } else {
            Err(CpuError::IllegalInstruction)
        }
    } else if opcode == 0x33 {
        let op = if funct3 == 0 && funct7 == 0 {
            AluOp::Add
        } else if funct3 == 0 && funct7 == 0x20 {
            AluOp::Sub
        } else if funct3 == 1 && funct7 == 0 {
            AluOp::Sll
        } else if funct3 == 2 && funct7 == 0 {
            AluOp::Slt
        } else if funct3 == 3 && funct7 == 0 {
            AluOp::Sltu
        } else if funct3 == 4 && funct7 == 0 {
            AluOp::Xor
        } else if funct3 == 5 && funct7 == 0 {
            AluOp::Srl
        } else if funct3 == 5 && funct7 == 0x20 {
            AluOp::Sra
        } else if funct3 == 6 && funct7 == 0 {
            AluOp::Or
        } else if funct3 == 7 && funct7 == 0 {
            AluOp::And
        } else {
            return Err(CpuError::IllegalInstruction);
        };
        Ok(DecodedInstruction::AluReg { op, rd, rs1, rs2 })
    } else if opcode == 0x0f && funct3 == 0 {
        Ok(DecodedInstruction::Fence)
    } else if opcode == 0x73 && funct3 == 0 && rd == 0 && rs1 == 0 {
        if w >> 20 == 0 {
            Ok(DecodedInstruction::Ecall)
        } else if w >> 20 == 1 {
            Ok(DecodedInstruction::Ebreak)
        } else {
            Err(CpuError::IllegalInstruction)
        }
    } else {
        Err(CpuError::IllegalInstruction)
    }
}

/// The I-format immediate of `w`.
fn imm_i_exec(w: u32) -> (r: u64)
    ensures
        r == imm_i(w),
{
    proof {
        lemma_u32_and_le(w >> 20, 0xfff);
    }
    let v = ((w >> 20) & 0xfff) as u64;
    if v < 0x800 {
        v
    } else {
        v + 0xFFFF_FFFF_FFFF_F000
    }
}

/// The S-format immediate of `w`.
fn imm_s_exec(w: u32) -> (r: u64)
    ensures
        r == imm_s(w),
{
    proof {
        lemma_u32_and_le(w >> 25, 0x7f);
        lemma_u32_and_le(w >> 7, 0x1f);
    }
    let v = ((((w >> 25) & 0x7f) * 0x20 + ((w >> 7) & 0x1f)) as u32) as u64;
    if v < 0x800 {
        v
    } else {
        v + 0xFFFF_FFFF_FFFF_F000
    }
}

/// The B-format immediate of `w`.
fn imm_b_exec(w: u32) -> (r: u64)
    ensures
        r == imm_b(w),
{
    proof {
        lemma_u32_and_le(w >> 31, 1);
        lemma_u32_and_le(w >> 7, 1);
        lemma_u32_and_le(w >> 25, 0x3f);
        lemma_u32_and_le(w >> 8, 0xf);
    }
    let v = (((w >> 31) & 1) * 0x1000 + ((w >> 7) & 1) * 0x800 + ((w >> 25) & 0x3f) * 0x20 + ((w
        >> 8) & 0xf) * 2) as u64;
    if v < 0x1000 {
        v
    } else {
        v + 0xFFFF_FFFF_FFFF_E000
    }
}

/// The U-format immediate of `w`.
fn imm_u_exec(w: u32) -> (r: u64)
    ensures
        r == imm_u(w),
{
    let v = (w & 0xFFFF_F000) as u64;
    if v < 0x8000_0000 {
        v
    } else {
        v + 0xFFFF_FFFF_0000_0000
    }
}

/// The J-format immediate of `w`.
fn imm_j_exec(w: u32) -> (r: u64)
    ensures
        r == imm_j(w),
{
    proof {
        lemma_u32_and_le(w >> 31, 1);
        lemma_u32_and_le(w >> 12, 0xff);
        lemma_u32_and_le(w >> 20, 1);
        lemma_u32_and_le(w >> 21, 0x3ff);
    }
    let v = (((w >> 31) & 1) * 0x10_0000 + ((w >> 12) & 0xff) * 0x1000 + ((w >> 20) & 1) * 0x800 + (
    (w >> 21) & 0x3ff) * 2) as u64;
    if v < 0x10_0000 {
        v
    } else {
        v + 0xFFFF_FFFF_FFE0_0000
    }
}

/// The 6-bit immediate shift amount of `w`.
fn shamt_exec(w: u32) -> (r: u64)
    ensures
        r == shamt_of(w),
        r < 64,
{
    proof {
        lemma_u32_and_le(w >> 20, 0x3f);
    }
    ((w >> 20) & 0x3f) as u64
}

/// Any instruction the recognized set decodes to is well-formed: its
/// register indices are below 32.
pub proof fn lemma_decode_field_bounds(w: u32)
    ensures
        spec_decode(w) matches Some(i) ==> instr_wf(i),
{
    lemma_u32_and_le(w >> 7, 0x1f);
    lemma_u32_and_le(w >> 15, 0x1f);
    lemma_u32_and_le(w >> 20, 0x1f);
}

} // verus!
