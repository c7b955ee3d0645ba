// Engine scenarios: end-to-end programs driven through Cpu::step, branch
// and jump behavior, wrapping arithmetic, faults and terminal states.

use cpu::Cpu;
use cpu::CpuError;
use cpu::DRAM_SIZE;
use cpu::EngineState;
use cpu::FaultCause;
use cpu::HaltReason;
use cpu::StepOutcome;

fn r_type(funct7: u32, rs2: u32, rs1: u32, funct3: u32, rd: u32, opcode: u32) -> u32 {
    (funct7 << 25) | (rs2 << 20) | (rs1 << 15) | (funct3 << 12) | (rd << 7) | opcode
}

fn i_type(imm: i32, rs1: u32, funct3: u32, rd: u32, opcode: u32) -> u32 {
    (((imm as u32) & 0xfff) << 20) | (rs1 << 15) | (funct3 << 12) | (rd << 7) | opcode
}

fn s_type(imm: i32, rs2: u32, rs1: u32, funct3: u32) -> u32 {
    let imm = (imm as u32) & 0xfff;
    ((imm >> 5) << 25) | (rs2 << 20) | (rs1 << 15) | (funct3 << 12) | ((imm & 0x1f) << 7) | 0x23
}

fn b_type(imm: i32, rs2: u32, rs1: u32, funct3: u32) -> u32 {
    let imm = (imm as u32) & 0x1fff;
    (((imm >> 12) & 1) << 31)
        | (((imm >> 5) & 0x3f) << 25)
        | (rs2 << 20)
        | (rs1 << 15)
        | (funct3 << 12)
        | (((imm >> 1) & 0xf) << 8)
        | (((imm >> 11) & 1) << 7)
        | 0x63
}

fn addi(rd: u32, rs1: u32, imm: i32) -> u32 {
    i_type(imm, rs1, 0, rd, 0x13)
}

fn image_of(words: &[u32]) -> Vec<u8> {
    let mut bytes = Vec::new();
    for w in words {
        bytes.extend_from_slice(&w.to_le_bytes());
    }
    bytes
}

fn boot(words: &[u32]) -> Cpu {
    Cpu::new(4096, image_of(words), 0).unwrap()
}

#[test]
fn three_instruction_program() {
    // ADDI x1,x0,5; ADDI x2,x0,7; ADD x3,x1,x2 — entry 0; after 3 steps
    // register 3 holds 12 and the pc is 12.
    let mut c = boot(&[addi(1, 0, 5), addi(2, 0, 7), r_type(0, 2, 1, 0, 3, 0x33)]);
    assert_eq!(c.step(), StepOutcome::Continued);
    assert_eq!(c.step(), StepOutcome::Continued);
    assert_eq!(c.step(), StepOutcome::Continued);
    assert_eq!(c.register(3), 12);
    assert_eq!(c.pc(), 12);
    assert_eq!(c.state(), EngineState::Running);
}

#[test]
fn construction_state() {
    let c = Cpu::new(4096, vec![], 16).unwrap();
    assert_eq!(c.pc(), 16);
    assert_eq!(c.register(2), 4096, "stack pointer starts at top of memory");
    for i in [0u8, 1, 3, 31] {
        assert_eq!(c.register(i), 0);
    }
    assert_eq!(c.state(), EngineState::Running);
    assert_eq!(DRAM_SIZE, 128 * 1024 * 1024);
}

#[test]
fn construction_with_custom_stack_pointer() {
    let c = Cpu::new_with_stack_pointer(4096, vec![], 0, 999).unwrap();
    assert_eq!(c.register(2), 999);
}

#[test]
fn construction_image_too_large() {
    match Cpu::new(4, vec![0u8; 5], 0) {
        Err(e) => assert_eq!(e, CpuError::ImageTooLarge),
        Ok(_) => panic!("an image larger than memory must be refused"),
    }
    assert!(Cpu::new(4, vec![0u8; 4], 0).is_ok());
}

#[test]
fn register_zero_discards_writes() {
    // ADDI x0,x0,5 completes but register 0 still reads 0.
    let mut c = boot(&[addi(0, 0, 5)]);
    assert_eq!(c.step(), StepOutcome::Continued);
    assert_eq!(c.register(0), 0);
    assert_eq!(c.pc(), 4);
}

#[test]
fn add_wraps_modulo_2_64() {
    // x1 = u64::MAX, x2 = 5; ADD x3,x1,x2 wraps to 4 without a fault.
    let mut c = boot(&[addi(1, 0, -1), addi(2, 0, 5), r_type(0, 2, 1, 0, 3, 0x33)]);
    for _ in 0..3 {
        assert_eq!(c.step(), StepOutcome::Continued);
    }
    assert_eq!(c.register(1), u64::MAX);
    assert_eq!(c.register(3), 4);
    assert_eq!(c.state(), EngineState::Running);
}

#[test]
fn beq_same_register_always_taken() {
    // BEQ x1, x1, +8 at address 0: the pc advances by 8, not 4.
    let mut c = boot(&[b_type(8, 1, 1, 0), 0, 0]);
    assert_eq!(c.step(), StepOutcome::Continued);
    assert_eq!(c.pc(), 8);
    // The same holds with a different register value.
    let mut c = boot(&[addi(1, 0, 77), b_type(8, 1, 1, 0), 0, 0]);
    c.step();
    assert_eq!(c.step(), StepOutcome::Continued);
    assert_eq!(c.pc(), 12);
}

#[test]
fn blt_signed_versus_bltu_unsigned() {
    // x1 = i64::MIN (0x8000...0000), x2 = 1.
    let setup = [addi(1, 0, 1), i_type(63, 1, 1, 1, 0x13), addi(2, 0, 1)];
    // BLT is taken under signed comparison: pc moves 12 -> 20.
    let mut words = setup.to_vec();
    words.push(b_type(8, 2, 1, 4));
    let mut c = boot(&words);
    for _ in 0..4 {
        assert_eq!(c.step(), StepOutcome::Continued);
    }
    assert_eq!(c.register(1), 0x8000_0000_0000_0000);
    assert_eq!(c.pc(), 20);
    // BLTU is not taken under unsigned comparison: pc moves 12 -> 16.
    let mut words = setup.to_vec();
    words.push(b_type(8, 2, 1, 6));
    let mut c = boot(&words);
    for _ in 0..4 {
        assert_eq!(c.step(), StepOutcome::Continued);
    }
    assert_eq!(c.pc(), 16);
}

#[test]
fn branch_not_taken_advances_by_4() {
    // BNE x1, x1, +8 is never taken.
    let mut c = boot(&[b_type(8, 1, 1, 1), 0, 0]);
    assert_eq!(c.step(), StepOutcome::Continued);
    assert_eq!(c.pc(), 4);
}

#[test]
fn jal_links_and_jumps() {
    // JAL x1, +8: x1 holds the return address 4, pc lands on 8.
    let mut c = boot(&[0x0080_00EF, 0, 0]);
    assert_eq!(c.step(), StepOutcome::Continued);
    assert_eq!(c.register(1), 4);
    assert_eq!(c.pc(), 8);
}

#[test]
fn jalr_masks_low_bit() {
    // x1 = 20; JALR x2, x1, 3: target (20 + 3) & !1 == 22, link is 8.
    let mut c = boot(&[addi(1, 0, 20), i_type(3, 1, 0, 2, 0x67)]);
    c.step();
    assert_eq!(c.step(), StepOutcome::Continued);
    assert_eq!(c.register(2), 8);
    assert_eq!(c.pc(), 22);
}

#[test]
fn lui_auipc_values() {
    let mut c = boot(&[
        (0x12345 << 12) | (1 << 7) | 0x37,  // LUI x1, 0x12345
        (1 << 12) | (2 << 7) | 0x17,        // AUIPC x2, 1 at pc 4
    ]);
    c.step();
    c.step();
    assert_eq!(c.register(1), 0x1234_5000);
    assert_eq!(c.register(2), 0x1004);
}

#[test]
fn store_load_through_instructions() {
    // SD x2, 64(x0); LD x3, 64(x0): the value round-trips through memory.
    let mut c = boot(&[
        addi(2, 0, -2),
        s_type(64, 2, 0, 3),
        i_type(64, 0, 3, 3, 0x03),
    ]);
    for _ in 0..3 {
        assert_eq!(c.step(), StepOutcome::Continued);
    }
    assert_eq!(c.register(3), u64::MAX - 1);
    assert_eq!(c.peek_memory(64, 8), Ok(u64::MAX - 1));
}

#[test]
fn lb_sign_extends() {
    // Store byte 0x80, then LB sign-extends it and LBU does not.
    let mut c = boot(&[
        addi(2, 0, 0x80),
        s_type(64, 2, 0, 0),
        i_type(64, 0, 0, 3, 0x03),  // LB x3, 64(x0)
        i_type(64, 0, 4, 4, 0x03),  // LBU x4, 64(x0)
    ]);
    for _ in 0..4 {
        assert_eq!(c.step(), StepOutcome::Continued);
    }
    assert_eq!(c.register(3), 0xFFFF_FFFF_FFFF_FF80);
    assert_eq!(c.register(4), 0x80);
}

#[test]
fn shift_operations() {
    let mut c = boot(&[
        addi(1, 0, -8),
        i_type(1 | 0x400, 1, 5, 2, 0x13),  // SRAI x2, x1, 1
        i_type(1, 1, 5, 3, 0x13),          // SRLI x3, x1, 1
        addi(4, 0, 1),
        i_type(63, 4, 1, 5, 0x13),         // SLLI x5, x4, 63
    ]);
    for _ in 0..5 {
        assert_eq!(c.step(), StepOutcome::Continued);
    }
    assert_eq!(c.register(2), (-4i64) as u64);
    assert_eq!(c.register(3), 0x7FFF_FFFF_FFFF_FFFC);
    assert_eq!(c.register(5), 0x8000_0000_0000_0000);
}

#[test]
fn slt_sltu_comparisons() {
    // x1 = -1 (unsigned max), x2 = 1.
    let mut c = boot(&[
        addi(1, 0, -1),
        addi(2, 0, 1),
        r_type(0, 2, 1, 2, 3, 0x33),  // SLT x3, x1, x2 -> 1 (signed)
        r_type(0, 2, 1, 3, 4, 0x33),  // SLTU x4, x1, x2 -> 0 (unsigned)
    ]);
    for _ in 0..4 {
        assert_eq!(c.step(), StepOutcome::Continued);
    }
    assert_eq!(c.register(3), 1);
    assert_eq!(c.register(4), 0);
}

#[test]
fn logic_operations() {
    let mut c = boot(&[
        addi(1, 0, 0b1100),
        addi(2, 0, 0b1010),
        r_type(0, 2, 1, 4, 3, 0x33),     // XOR
        r_type(0, 2, 1, 6, 4, 0x33),     // OR
        r_type(0, 2, 1, 7, 5, 0x33),     // AND
        r_type(0x20, 2, 1, 0, 6, 0x33),  // SUB
    ]);
    for _ in 0..6 {
        assert_eq!(c.step(), StepOutcome::Continued);
    }
    assert_eq!(c.register(3), 0b0110);
    assert_eq!(c.register(4), 0b1110);
    assert_eq!(c.register(5), 0b1000);
    assert_eq!(c.register(6), 2);
}

#[test]
fn illegal_instruction_faults() {
    // An all-zero word is outside the recognized set: the engine faults and
    // stays faulted; nothing is mutated.
    let mut c = boot(&[0x0000_0000]);
    assert_eq!(c.step(), StepOutcome::Faulted(FaultCause::IllegalInstruction));
    assert_eq!(c.state(), EngineState::Faulted(FaultCause::IllegalInstruction));
    assert_eq!(c.pc(), 0);
    // A terminal engine steps as a no-op reporting the terminal state.
    assert_eq!(c.step(), StepOutcome::Faulted(FaultCause::IllegalInstruction));
    assert_eq!(c.pc(), 0);
}

#[test]
fn instruction_fetch_fault_at_end_of_memory() {
    let mut c = Cpu::new(4, image_of(&[addi(1, 0, 1)]), 0).unwrap();
    assert_eq!(c.step(), StepOutcome::Continued);
    assert_eq!(c.step(), StepOutcome::Faulted(FaultCause::InstructionFetchFault));
    assert_eq!(c.state(), EngineState::Faulted(FaultCause::InstructionFetchFault));
}

#[test]
fn load_access_fault() {
    // LD from far beyond the capacity faults; the target register and the
    // pc are untouched.
    let mut c = boot(&[addi(1, 0, 2047), i_type(2047, 1, 3, 3, 0x03)]);
    c.step();
    let mut c2 = boot(&[i_type(-1, 0, 3, 3, 0x03)]);
    assert_eq!(c2.step(), StepOutcome::Faulted(FaultCause::LoadAccessFault));
    assert_eq!(c2.register(3), 0);
    assert_eq!(c2.pc(), 0);
    assert_eq!(c.state(), EngineState::Running);
}

#[test]
fn store_access_fault() {
    let mut c = boot(&[s_type(-1, 1, 0, 3)]);
    assert_eq!(c.step(), StepOutcome::Faulted(FaultCause::StoreAccessFault));
    assert_eq!(c.state(), EngineState::Faulted(FaultCause::StoreAccessFault));
    assert_eq!(c.pc(), 0);
}

#[test]
fn ecall_halts_with_system_call() {
    let mut c = boot(&[addi(1, 0, 9), 0x0000_0073, addi(1, 0, 10)]);
    assert_eq!(c.step(), StepOutcome::Continued);
    assert_eq!(c.step(), StepOutcome::Halted(HaltReason::SystemCall));
    assert_eq!(c.state(), EngineState::Halted(HaltReason::SystemCall));
    assert_eq!(c.pc(), 4, "the pc stays on the ecall");
    // Halted is terminal: stepping again is a no-op.
    assert_eq!(c.step(), StepOutcome::Halted(HaltReason::SystemCall));
    assert_eq!(c.register(1), 9);
}

#[test]
fn ebreak_halts_with_system_call() {
    let mut c = boot(&[0x0010_0073]);
    assert_eq!(c.step(), StepOutcome::Halted(HaltReason::SystemCall));
}

#[test]
fn fence_is_a_no_op_that_advances() {
    let mut c = boot(&[0x0FF0_000F, addi(1, 0, 3)]);
    assert_eq!(c.step(), StepOutcome::Continued);
    assert_eq!(c.pc(), 4);
    assert_eq!(c.step(), StepOutcome::Continued);
    assert_eq!(c.register(1), 3);
}

#[test]
fn peek_memory_bounds() {
    let c = Cpu::new(8, vec![1, 2, 3, 4], 0).unwrap();
    assert_eq!(c.peek_memory(0, 4), Ok(0x0403_0201));
    assert_eq!(c.peek_memory(0, 8), Ok(0x0000_0000_0403_0201));
    assert_eq!(c.peek_memory(1, 8), Err(CpuError::OutOfBounds));
}

#[test]
fn register_shift_operations() {
    // x1 = -16, x2 = 2: SLL, SRL and SRA take the shift amount from rs2.
    let mut c = boot(&[
        addi(1, 0, -16),
        addi(2, 0, 2),
        r_type(0, 2, 1, 1, 3, 0x33),     // SLL x3, x1, x2
        r_type(0, 2, 1, 5, 4, 0x33),     // SRL x4, x1, x2
        r_type(0x20, 2, 1, 5, 5, 0x33),  // SRA x5, x1, x2
    ]);
    for _ in 0..5 {
        assert_eq!(c.step(), StepOutcome::Continued);
    }
    assert_eq!(c.register(3), (-64i64) as u64);
    assert_eq!(c.register(4), 0x3FFF_FFFF_FFFF_FFFC);
    assert_eq!(c.register(5), (-4i64) as u64);
}

#[test]
fn bge_bgeu_comparisons() {
    // x1 = -1, x2 = 1: BGE (signed) is not taken, BGEU (unsigned) is taken.
    let mut c = boot(&[addi(1, 0, -1), addi(2, 0, 1), b_type(8, 2, 1, 5), 0, 0]);
    for _ in 0..3 {
        assert_eq!(c.step(), StepOutcome::Continued);
    }
    assert_eq!(c.pc(), 12);
    let mut c = boot(&[addi(1, 0, -1), addi(2, 0, 1), b_type(8, 2, 1, 7), 0, 0]);
    for _ in 0..3 {
        assert_eq!(c.step(), StepOutcome::Continued);
    }
    assert_eq!(c.pc(), 16);
}

#[test]
fn half_and_word_stores_and_loads() {
    // SH/LH/LHU and SW/LW/LWU move 2 and 4 bytes with the right extension.
    let mut c = boot(&[
        addi(1, 0, -1),              // x1 = 0xFFFF...FFFF
        s_type(64, 1, 0, 1),         // SH x1, 64(x0)
        s_type(72, 1, 0, 2),         // SW x1, 72(x0)
        i_type(64, 0, 1, 3, 0x03),   // LH x3, 64(x0)
        i_type(64, 0, 5, 4, 0x03),   // LHU x4, 64(x0)
        i_type(72, 0, 2, 5, 0x03),   // LW x5, 72(x0)
        i_type(72, 0, 6, 6, 0x03),   // LWU x6, 72(x0)
    ]);
    for _ in 0..7 {
        assert_eq!(c.step(), StepOutcome::Continued);
    }
    assert_eq!(c.register(3), u64::MAX);
    assert_eq!(c.register(4), 0xFFFF);
    assert_eq!(c.register(5), u64::MAX);
    assert_eq!(c.register(6), 0xFFFF_FFFF);
    // Only the stored bytes were written.
    assert_eq!(c.peek_memory(64, 8), Ok(0xFFFF));
    assert_eq!(c.peek_memory(72, 8), Ok(0xFFFF_FFFF));
}
