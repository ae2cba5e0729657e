//! The instruction decoder: maps a raw 16-bit opcode word to a symbolic
//! instruction tag together with its operand payload.

use vstd::prelude::*;

verus! {

/// The symbolic instruction set. Register operands are written `VX`/`VY`,
/// an immediate byte `BT`, a 12-bit address `ADDR`, and a 4-bit sprite
/// height `NIB`.
#[allow(non_camel_case_types)]
#[derive(Debug, Copy, Clone, Eq, PartialEq, Structural)]
pub enum Instruction {
    CLS,
    RET,
    SYS,
    JP,
    CALL,
    SE_VX_BT,
    SNE_VX_BT,
    SE_VX_VY,
    LD_VX_BT,
    ADD_VX_BT,
    LD_VX_VY,
    OR_VX_VY,
    AND_VX_VY,
    XOR_VX_VY,
    ADD_VX_VY,
    SUB_VX_VY,
    SHR_VX_VY,
    SUBN_VX_VY,
    SHL_VX_VY,
    SNE_VX_VY,
    LD_I_ADDR,
    JP_V0_ADDR,
    RND_VX_BT,
    DRW_VX_VY_NIB,
    SKP_VX,
    SKNP_VX,
    LD_VX_DT,
    LD_VX_K,
    LD_DT_VX,
    LD_ST_VX,
    ADD_I_VX,
    LD_F_VX,
    LD_B_VX,
    LD_I_VX,
    LD_VX_I,
    INVALID,
}

/// What `decode` returns, as a function of the low 16 bits of the opcode
/// word: the first (pattern, selector mask) pair whose masked opcode equals
/// its pattern wins, full-opcode masks first, and the payload is the opcode
/// with the selector bits zeroed out.
pub open spec fn decode_spec(op: u16) -> (Instruction, u16) {
    if op & 0xFFFF == 0x00E0 {
        (Instruction::CLS, op & !0xFFFF)
    } else if op & 0xFFFF == 0x00EE {
        (Instruction::RET, op & !0xFFFF)
    } else if op & 0xF000 == 0x1000 {
        (Instruction::JP, op & !0xF000)
    } else if op & 0xF000 == 0x2000 {
        (Instruction::CALL, op & !0xF000)
    } else if op & 0xF000 == 0x3000 {
        (Instruction::SE_VX_BT, op & !0xF000)
    } else if op & 0xF000 == 0x4000 {
        (Instruction::SNE_VX_BT, op & !0xF000)
    } else if op & 0xF00F == 0x5000 {
        (Instruction::SE_VX_VY, op & !0xF00F)
    } else if op & 0xF000 == 0x6000 {
        (Instruction::LD_VX_BT, op & !0xF000)
    } else if op & 0xF000 == 0x7000 {
        (Instruction::ADD_VX_BT, op & !0xF000)
    } else if op & 0xF00F == 0x8000 {
        (Instruction::LD_VX_VY, op & !0xF00F)
    } else if op & 0xF00F == 0x8001 {
        (Instruction::OR_VX_VY, op & !0xF00F)
    } else if op & 0xF00F == 0x8002 {
        (Instruction::AND_VX_VY, op & !0xF00F)
    } else if op & 0xF00F == 0x8003 {
        (Instruction::XOR_VX_VY, op & !0xF00F)
    } else if op & 0xF00F == 0x8004 {
        (Instruction::ADD_VX_VY, op & !0xF00F)
    } else if op & 0xF00F == 0x8005 {
        (Instruction::SUB_VX_VY, op & !0xF00F)
    } else if op & 0xF00F == 0x8006 {
        (Instruction::SHR_VX_VY, op & !0xF00F)
    } else if op & 0xF00F == 0x8007 {
        (Instruction::SUBN_VX_VY, op & !0xF00F)
    } else if op & 0xF00F == 0x800E {
        (Instruction::SHL_VX_VY, op & !0xF00F)
    } else if op & 0xF00F == 0x9000 {
        (Instruction::SNE_VX_VY, op & !0xF00F)
    } else if op & 0xF000 == 0xA000 {
        (Instruction::LD_I_ADDR, op & !0xF000)
    } else if op & 0xF000 == 0xB000 {
        (Instruction::JP_V0_ADDR, op & !0xF000)
    } else if op & 0xF000 == 0xC000 {
        (Instruction::RND_VX_BT, op & !0xF000)
    } else if op & 0xF000 == 0xD000 {
        (Instruction::DRW_VX_VY_NIB, op & !0xF000)
    } else if op & 0xF0FF == 0xE09E {
        (Instruction::SKP_VX, op & !0xF0FF)
    } else if op & 0xF0FF == 0xE0A1 {
        (Instruction::SKNP_VX, op & !0xF0FF)
    } else if op & 0xF0FF == 0xF007 {
        (Instruction::LD_VX_DT, op & !0xF0FF)
    } else if op & 0xF0FF == 0xF00A {
        (Instruction::LD_VX_K, op & !0xF0FF)
    } else if op & 0xF0FF == 0xF015 {
        (Instruction::LD_DT_VX, op & !0xF0FF)
    } else if op & 0xF0FF == 0xF018 {
        (Instruction::LD_ST_VX, op & !0xF0FF)
    } else if op & 0xF0FF == 0xF01E {
        (Instruction::ADD_I_VX, op & !0xF0FF)
    } else if op & 0xF0FF == 0xF029 {
        (Instruction::LD_F_VX, op & !0xF0FF)
    } else if op & 0xF0FF == 0xF033 {
        (Instruction::LD_B_VX, op & !0xF0FF)
    } else if op & 0xF0FF == 0xF055 {
        (Instruction::LD_I_VX, op & !0xF0FF)
    } else if op & 0xF0FF == 0xF065 {
        (Instruction::LD_VX_I, op & !0xF0FF)
    } else {
        (Instruction::INVALID, 0)
    }
}

impl Instruction {
    /// Decode a raw opcode word. Only the low 16 bits take part: the result
    /// is the unique (tag, payload) pair that `decode_spec` gives, with
    /// `INVALID` and payload 0 when no pattern matches.
    pub fn decode(instruction: u32) -> (r: (Instruction, u32))
        ensures
            (r.0, r.1 as u16) == decode_spec(instruction as u16),
            r.1 == decode_spec(instruction as u16).1,
    {
        let op: u16 = instruction as u16;
        let r: (Instruction, u16) = if op & 0xFFFF == 0x00E0 {
            (Instruction::CLS, op & !0xFFFF)
        } else if op & 0xFFFF == 0x00EE {
            (Instruction::RET, op & !0xFFFF)
        } else if op & 0xF000 == 0x1000 {
            (Instruction::JP, op & !0xF000)
        } else if op & 0xF000 == 0x2000 {
            (Instruction::CALL, op & !0xF000)
        } else if op & 0xF000 == 0x3000 {
            (Instruction::SE_VX_BT, op & !0xF000)
        } else if op & 0xF000 == 0x4000 {
            (Instruction::SNE_VX_BT, op & !0xF000)
        } else if op & 0xF00F == 0x5000 {
            (Instruction::SE_VX_VY, op & !0xF00F)
        } else if op & 0xF000 == 0x6000 {
            (Instruction::LD_VX_BT, op & !0xF000)
        } else if op & 0xF000 == 0x7000 {
            (Instruction::ADD_VX_BT, op & !0xF000)
        } else if op & 0xF00F == 0x8000 {
            (Instruction::LD_VX_VY, op & !0xF00F)
        } else if op & 0xF00F == 0x8001 {
            (Instruction::OR_VX_VY, op & !0xF00F)
        } else if op & 0xF00F == 0x8002 {
            (Instruction::AND_VX_VY, op & !0xF00F)
        } else if op & 0xF00F == 0x8003 {
            (Instruction::XOR_VX_VY, op & !0xF00F)
        } else if op & 0xF00F == 0x8004 {
            (Instruction::ADD_VX_VY, op & !0xF00F)
        } else if op & 0xF00F == 0x8005 {
            (Instruction::SUB_VX_VY, op & !0xF00F)
        } else if op & 0xF00F == 0x8006 {
            (Instruction::SHR_VX_VY, op & !0xF00F)
        } else if op & 0xF00F == 0x8007 {
            (Instruction::SUBN_VX_VY, op & !0xF00F)
        } else if op & 0xF00F == 0x800E {
            (Instruction::SHL_VX_VY, op & !0xF00F)
        } else if op & 0xF00F == 0x9000 {
            (Instruction::SNE_VX_VY, op & !0xF00F)
        } else if op & 0xF000 == 0xA000 {
            (Instruction::LD_I_ADDR, op & !0xF000)
        } else if op & 0xF000 == 0xB000 {
            (Instruction::JP_V0_ADDR, op & !0xF000)
        } else if op & 0xF000 == 0xC000 {
            (Instruction::RND_VX_BT, op & !0xF000)
        } else if op & 0xF000 == 0xD000 {
            (Instruction::DRW_VX_VY_NIB, op & !0xF000)
        } else if op & 0xF0FF == 0xE09E {
            (Instruction::SKP_VX, op & !0xF0FF)
        } else if op & 0xF0FF == 0xE0A1 {
            (Instruction::SKNP_VX, op & !0xF0FF)
        } else if op & 0xF0FF == 0xF007 {
            (Instruction::LD_VX_DT, op & !0xF0FF)
        } else if op & 0xF0FF == 0xF00A {
            (Instruction::LD_VX_K, op & !0xF0FF)
        } else if op & 0xF0FF == 0xF015 {
            (Instruction::LD_DT_VX, op & !0xF0FF)
        } else if op & 0xF0FF == 0xF018 {
            (Instruction::LD_ST_VX, op & !0xF0FF)
        } else if op & 0xF0FF == 0xF01E {
            (Instruction::ADD_I_VX, op & !0xF0FF)
        } else if op & 0xF0FF == 0xF029 {
            (Instruction::LD_F_VX, op & !0xF0FF)
        } else if op & 0xF0FF == 0xF033 {
            (Instruction::LD_B_VX, op & !0xF0FF)
        } else if op & 0xF0FF == 0xF055 {
            (Instruction::LD_I_VX, op & !0xF0FF)
        } else if op & 0xF0FF == 0xF065 {
            (Instruction::LD_VX_I, op & !0xF0FF)
        } else {
            (Instruction::INVALID, 0)
        };
        (r.0, r.1 as u32)
    }
}


/// The decoder's (fixed bit-pattern, selector mask, tag) table, in the
/// order the patterns are tried: full-opcode masks before nibble-coarse
/// ones, so that no less-specific pattern swallows a more-specific opcode.
pub open spec fn decode_table() -> Seq<(u16, u16, Instruction)> {
    seq![
        (0x00E0, 0xFFFF, Instruction::CLS),
        (0x00EE, 0xFFFF, Instruction::RET),
        (0x1000, 0xF000, Instruction::JP),
        (0x2000, 0xF000, Instruction::CALL),
        (0x3000, 0xF000, Instruction::SE_VX_BT),
        (0x4000, 0xF000, Instruction::SNE_VX_BT),
        (0x5000, 0xF00F, Instruction::SE_VX_VY),
        (0x6000, 0xF000, Instruction::LD_VX_BT),
        (0x7000, 0xF000, Instruction::ADD_VX_BT),
        (0x8000, 0xF00F, Instruction::LD_VX_VY),
        (0x8001, 0xF00F, Instruction::OR_VX_VY),
        (0x8002, 0xF00F, Instruction::AND_VX_VY),
        (0x8003, 0xF00F, Instruction::XOR_VX_VY),
        (0x8004, 0xF00F, Instruction::ADD_VX_VY),
        (0x8005, 0xF00F, Instruction::SUB_VX_VY),
        (0x8006, 0xF00F, Instruction::SHR_VX_VY),
        (0x8007, 0xF00F, Instruction::SUBN_VX_VY),
        (0x800E, 0xF00F, Instruction::SHL_VX_VY),
        (0x9000, 0xF00F, Instruction::SNE_VX_VY),
        (0xA000, 0xF000, Instruction::LD_I_ADDR),
        (0xB000, 0xF000, Instruction::JP_V0_ADDR),
        (0xC000, 0xF000, Instruction::RND_VX_BT),
        (0xD000, 0xF000, Instruction::DRW_VX_VY_NIB),
        (0xE09E, 0xF0FF, Instruction::SKP_VX),
        (0xE0A1, 0xF0FF, Instruction::SKNP_VX),
        (0xF007, 0xF0FF, Instruction::LD_VX_DT),
        (0xF00A, 0xF0FF, Instruction::LD_VX_K),
        (0xF015, 0xF0FF, Instruction::LD_DT_VX),
        (0xF018, 0xF0FF, Instruction::LD_ST_VX),
        (0xF01E, 0xF0FF, Instruction::ADD_I_VX),
        (0xF029, 0xF0FF, Instruction::LD_F_VX),
        (0xF033, 0xF0FF, Instruction::LD_B_VX),
        (0xF055, 0xF0FF, Instruction::LD_I_VX),
        (0xF065, 0xF0FF, Instruction::LD_VX_I),
    ]
}

/// Whether an opcode word matches a table entry: masked with the entry's
/// selector it equals the entry's fixed pattern.
pub open spec fn entry_matches(op: u16, e: (u16, u16, Instruction)) -> bool {
    op & e.1 == e.0
}

/// An opcode that matches a table entry matches none of the entries before
/// it: the patterns are mutually exclusive, so the scan order can never
/// change which entry wins.
proof fn lemma_table_order(op: u16)
    by (bit_vector)
    ensures
        (op & 0xFFFF == 0x00EE) ==> !(op & 0xFFFF == 0x00E0),
        (op & 0xF000 == 0x1000) ==> !(op & 0xFFFF == 0x00E0) && !(op & 0xFFFF == 0x00EE),
        (op & 0xF000 == 0x2000) ==> !(op & 0xFFFF == 0x00E0) && !(op & 0xFFFF == 0x00EE) && !(op & 0xF000 == 0x1000),
        (op & 0xF000 == 0x3000) ==> !(op & 0xFFFF == 0x00E0) && !(op & 0xFFFF == 0x00EE) && !(op & 0xF000 == 0x1000) && !(op & 0xF000 == 0x2000),
        (op & 0xF000 == 0x4000) ==> !(op & 0xFFFF == 0x00E0) && !(op & 0xFFFF == 0x00EE) && !(op & 0xF000 == 0x1000) && !(op & 0xF000 == 0x2000) && !(op & 0xF000 == 0x3000),
        (op & 0xF00F == 0x5000) ==> !(op & 0xFFFF == 0x00E0) && !(op & 0xFFFF == 0x00EE) && !(op & 0xF000 == 0x1000) && !(op & 0xF000 == 0x2000) && !(op & 0xF000 == 0x3000) && !(op & 0xF000 == 0x4000),
        (op & 0xF000 == 0x6000) ==> !(op & 0xFFFF == 0x00E0) && !(op & 0xFFFF == 0x00EE) && !(op & 0xF000 == 0x1000) && !(op & 0xF000 == 0x2000) && !(op & 0xF000 == 0x3000) && !(op & 0xF000 == 0x4000) && !(op & 0xF00F == 0x5000),
        (op & 0xF000 == 0x7000) ==> !(op & 0xFFFF == 0x00E0) && !(op & 0xFFFF == 0x00EE) && !(op & 0xF000 == 0x1000) && !(op & 0xF000 == 0x2000) && !(op & 0xF000 == 0x3000) && !(op & 0xF000 == 0x4000) && !(op & 0xF00F == 0x5000) && !(op & 0xF000 == 0x6000),
        (op & 0xF00F == 0x8000) ==> !(op & 0xFFFF == 0x00E0) && !(op & 0xFFFF == 0x00EE) && !(op & 0xF000 == 0x1000) && !(op & 0xF000 == 0x2000) && !(op & 0xF000 == 0x3000) && !(op & 0xF000 == 0x4000) && !(op & 0xF00F == 0x5000) && !(op & 0xF000 == 0x6000) && !(op & 0xF000 == 0x7000),
        (op & 0xF00F == 0x8001) ==> !(op & 0xFFFF == 0x00E0) && !(op & 0xFFFF == 0x00EE) && !(op & 0xF000 == 0x1000) && !(op & 0xF000 == 0x2000) && !(op & 0xF000 == 0x3000) && !(op & 0xF000 == 0x4000) && !(op & 0xF00F == 0x5000) && !(op & 0xF000 == 0x6000) && !(op & 0xF000 == 0x7000) && !(op & 0xF00F == 0x8000),
        (op & 0xF00F == 0x8002) ==> !(op & 0xFFFF == 0x00E0) && !(op & 0xFFFF == 0x00EE) && !(op & 0xF000 == 0x1000) && !(op & 0xF000 == 0x2000) && !(op & 0xF000 == 0x3000) && !(op & 0xF000 == 0x4000) && !(op & 0xF00F == 0x5000) && !(op & 0xF000 == 0x6000) && !(op & 0xF000 == 0x7000) && !(op & 0xF00F == 0x8000) && !(op & 0xF00F == 0x8001),
        (op & 0xF00F == 0x8003) ==> !(op & 0xFFFF == 0x00E0) && !(op & 0xFFFF == 0x00EE) && !(op & 0xF000 == 0x1000) && !(op & 0xF000 == 0x2000) && !(op & 0xF000 == 0x3000) && !(op & 0xF000 == 0x4000) && !(op & 0xF00F == 0x5000) && !(op & 0xF000 == 0x6000) && !(op & 0xF000 == 0x7000) && !(op & 0xF00F == 0x8000) && !(op & 0xF00F == 0x8001) && !(op & 0xF00F == 0x8002),
        (op & 0xF00F == 0x8004) ==> !(op & 0xFFFF == 0x00E0) && !(op & 0xFFFF == 0x00EE) && !(op & 0xF000 == 0x1000) && !(op & 0xF000 == 0x2000) && !(op & 0xF000 == 0x3000) && !(op & 0xF000 == 0x4000) && !(op & 0xF00F == 0x5000) && !(op & 0xF000 == 0x6000) && !(op & 0xF000 == 0x7000) && !(op & 0xF00F == 0x8000) && !(op & 0xF00F == 0x8001) && !(op & 0xF00F == 0x8002) && !(op & 0xF00F == 0x8003),
        (op & 0xF00F == 0x8005) ==> !(op & 0xFFFF == 0x00E0) && !(op & 0xFFFF == 0x00EE) && !(op & 0xF000 == 0x1000) && !(op & 0xF000 == 0x2000) && !(op & 0xF000 == 0x3000) && !(op & 0xF000 == 0x4000) && !(op & 0xF00F == 0x5000) && !(op & 0xF000 == 0x6000) && !(op & 0xF000 == 0x7000) && !(op & 0xF00F == 0x8000) && !(op & 0xF00F == 0x8001) && !(op & 0xF00F == 0x8002) && !(op & 0xF00F == 0x8003) && !(op & 0xF00F == 0x8004),
        (op & 0xF00F == 0x8006) ==> !(op & 0xFFFF == 0x00E0) && !(op & 0xFFFF == 0x00EE) && !(op & 0xF000 == 0x1000) && !(op & 0xF000 == 0x2000) && !(op & 0xF000 == 0x3000) && !(op & 0xF000 == 0x4000) && !(op & 0xF00F == 0x5000) && !(op & 0xF000 == 0x6000) && !(op & 0xF000 == 0x7000) && !(op & 0xF00F == 0x8000) && !(op & 0xF00F == 0x8001) && !(op & 0xF00F == 0x8002) && !(op & 0xF00F == 0x8003) && !(op & 0xF00F == 0x8004) && !(op & 0xF00F == 0x8005),
        (op & 0xF00F == 0x8007) ==> !(op & 0xFFFF == 0x00E0) && !(op & 0xFFFF == 0x00EE) && !(op & 0xF000 == 0x1000) && !(op & 0xF000 == 0x2000) && !(op & 0xF000 == 0x3000) && !(op & 0xF000 == 0x4000) && !(op & 0xF00F == 0x5000) && !(op & 0xF000 == 0x6000) && !(op & 0xF000 == 0x7000) && !(op & 0xF00F == 0x8000) && !(op & 0xF00F == 0x8001) && !(op & 0xF00F == 0x8002) && !(op & 0xF00F == 0x8003) && !(op & 0xF00F == 0x8004) && !(op & 0xF00F == 0x8005) && !(op & 0xF00F == 0x8006),
        (op & 0xF00F == 0x800E) ==> !(op & 0xFFFF == 0x00E0) && !(op & 0xFFFF == 0x00EE) && !(op & 0xF000 == 0x1000) && !(op & 0xF000 == 0x2000) && !(op & 0xF000 == 0x3000) && !(op & 0xF000 == 0x4000) && !(op & 0xF00F == 0x5000) && !(op & 0xF000 == 0x6000) && !(op & 0xF000 == 0x7000) && !(op & 0xF00F == 0x8000) && !(op & 0xF00F == 0x8001) && !(op & 0xF00F == 0x8002) && !(op & 0xF00F == 0x8003) && !(op & 0xF00F == 0x8004) && !(op & 0xF00F == 0x8005) && !(op & 0xF00F == 0x8006) && !(op & 0xF00F == 0x8007),
        (op & 0xF00F == 0x9000) ==> !(op & 0xFFFF == 0x00E0) && !(op & 0xFFFF == 0x00EE) && !(op & 0xF000 == 0x1000) && !(op & 0xF000 == 0x2000) && !(op & 0xF000 == 0x3000) && !(op & 0xF000 == 0x4000) && !(op & 0xF00F == 0x5000) && !(op & 0xF000 == 0x6000) && !(op & 0xF000 == 0x7000) && !(op & 0xF00F == 0x8000) && !(op & 0xF00F == 0x8001) && !(op & 0xF00F == 0x8002) && !(op & 0xF00F == 0x8003) && !(op & 0xF00F == 0x8004) && !(op & 0xF00F == 0x8005) && !(op & 0xF00F == 0x8006) && !(op & 0xF00F == 0x8007) && !(op & 0xF00F == 0x800E),
        (op & 0xF000 == 0xA000) ==> !(op & 0xFFFF == 0x00E0) && !(op & 0xFFFF == 0x00EE) && !(op & 0xF000 == 0x1000) && !(op & 0xF000 == 0x2000) && !(op & 0xF000 == 0x3000) && !(op & 0xF000 == 0x4000) && !(op & 0xF00F == 0x5000) && !(op & 0xF000 == 0x6000) && !(op & 0xF000 == 0x7000) && !(op & 0xF00F == 0x8000) && !(op & 0xF00F == 0x8001) && !(op & 0xF00F == 0x8002) && !(op & 0xF00F == 0x8003) && !(op & 0xF00F == 0x8004) && !(op & 0xF00F == 0x8005) && !(op & 0xF00F == 0x8006) && !(op & 0xF00F == 0x8007) && !(op & 0xF00F == 0x800E) && !(op & 0xF00F == 0x9000),
        (op & 0xF000 == 0xB000) ==> !(op & 0xFFFF == 0x00E0) && !(op & 0xFFFF == 0x00EE) && !(op & 0xF000 == 0x1000) && !(op & 0xF000 == 0x2000) && !(op & 0xF000 == 0x3000) && !(op & 0xF000 == 0x4000) && !(op & 0xF00F == 0x5000) && !(op & 0xF000 == 0x6000) && !(op & 0xF000 == 0x7000) && !(op & 0xF00F == 0x8000) && !(op & 0xF00F == 0x8001) && !(op & 0xF00F == 0x8002) && !(op & 0xF00F == 0x8003) && !(op & 0xF00F == 0x8004) && !(op & 0xF00F == 0x8005) && !(op & 0xF00F == 0x8006) && !(op & 0xF00F == 0x8007) && !(op & 0xF00F == 0x800E) && !(op & 0xF00F == 0x9000) && !(op & 0xF000 == 0xA000),
        (op & 0xF000 == 0xC000) ==> !(op & 0xFFFF == 0x00E0) && !(op & 0xFFFF == 0x00EE) && !(op & 0xF000 == 0x1000) && !(op & 0xF000 == 0x2000) && !(op & 0xF000 == 0x3000) && !(op & 0xF000 == 0x4000) && !(op & 0xF00F == 0x5000) && !(op & 0xF000 == 0x6000) && !(op & 0xF000 == 0x7000) && !(op & 0xF00F == 0x8000) && !(op & 0xF00F == 0x8001) && !(op & 0xF00F == 0x8002) && !(op & 0xF00F == 0x8003) && !(op & 0xF00F == 0x8004) && !(op & 0xF00F == 0x8005) && !(op & 0xF00F == 0x8006) && !(op & 0xF00F == 0x8007) && !(op & 0xF00F == 0x800E) && !(op & 0xF00F == 0x9000) && !(op & 0xF000 == 0xA000) && !(op & 0xF000 == 0xB000),
        (op & 0xF000 == 0xD000) ==> !(op & 0xFFFF == 0x00E0) && !(op & 0xFFFF == 0x00EE) && !(op & 0xF000 == 0x1000) && !(op & 0xF000 == 0x2000) && !(op & 0xF000 == 0x3000) && !(op & 0xF000 == 0x4000) && !(op & 0xF00F == 0x5000) && !(op & 0xF000 == 0x6000) && !(op & 0xF000 == 0x7000) && !(op & 0xF00F == 0x8000) && !(op & 0xF00F == 0x8001) && !(op & 0xF00F == 0x8002) && !(op & 0xF00F == 0x8003) && !(op & 0xF00F == 0x8004) && !(op & 0xF00F == 0x8005) && !(op & 0xF00F == 0x8006) && !(op & 0xF00F == 0x8007) && !(op & 0xF00F == 0x800E) && !(op & 0xF00F == 0x9000) && !(op & 0xF000 == 0xA000) && !(op & 0xF000 == 0xB000) && !(op & 0xF000 == 0xC000),
        (op & 0xF0FF == 0xE09E) ==> !(op & 0xFFFF == 0x00E0) && !(op & 0xFFFF == 0x00EE) && !(op & 0xF000 == 0x1000) && !(op & 0xF000 == 0x2000) && !(op & 0xF000 == 0x3000) && !(op & 0xF000 == 0x4000) && !(op & 0xF00F == 0x5000) && !(op & 0xF000 == 0x6000) && !(op & 0xF000 == 0x7000) && !(op & 0xF00F == 0x8000) && !(op & 0xF00F == 0x8001) && !(op & 0xF00F == 0x8002) && !(op & 0xF00F == 0x8003) && !(op & 0xF00F == 0x8004) && !(op & 0xF00F == 0x8005) && !(op & 0xF00F == 0x8006) && !(op & 0xF00F == 0x8007) && !(op & 0xF00F == 0x800E) && !(op & 0xF00F == 0x9000) && !(op & 0xF000 == 0xA000) && !(op & 0xF000 == 0xB000) && !(op & 0xF000 == 0xC000) && !(op & 0xF000 == 0xD000),
        (op & 0xF0FF == 0xE0A1) ==> !(op & 0xFFFF == 0x00E0) && !(op & 0xFFFF == 0x00EE) && !(op & 0xF000 == 0x1000) && !(op & 0xF000 == 0x2000) && !(op & 0xF000 == 0x3000) && !(op & 0xF000 == 0x4000) && !(op & 0xF00F == 0x5000) && !(op & 0xF000 == 0x6000) && !(op & 0xF000 == 0x7000) && !(op & 0xF00F == 0x8000) && !(op & 0xF00F == 0x8001) && !(op & 0xF00F == 0x8002) && !(op & 0xF00F == 0x8003) && !(op & 0xF00F == 0x8004) && !(op & 0xF00F == 0x8005) && !(op & 0xF00F == 0x8006) && !(op & 0xF00F == 0x8007) && !(op & 0xF00F == 0x800E) && !(op & 0xF00F == 0x9000) && !(op & 0xF000 == 0xA000) && !(op & 0xF000 == 0xB000) && !(op & 0xF000 == 0xC000) && !(op & 0xF000 == 0xD000) && !(op & 0xF0FF == 0xE09E),
        (op & 0xF0FF == 0xF007) ==> !(op & 0xFFFF == 0x00E0) && !(op & 0xFFFF == 0x00EE) && !(op & 0xF000 == 0x1000) && !(op & 0xF000 == 0x2000) && !(op & 0xF000 == 0x3000) && !(op & 0xF000 == 0x4000) && !(op & 0xF00F == 0x5000) && !(op & 0xF000 == 0x6000) && !(op & 0xF000 == 0x7000) && !(op & 0xF00F == 0x8000) && !(op & 0xF00F == 0x8001) && !(op & 0xF00F == 0x8002) && !(op & 0xF00F == 0x8003) && !(op & 0xF00F == 0x8004) && !(op & 0xF00F == 0x8005) && !(op & 0xF00F == 0x8006) && !(op & 0xF00F == 0x8007) && !(op & 0xF00F == 0x800E) && !(op & 0xF00F == 0x9000) && !(op & 0xF000 == 0xA000) && !(op & 0xF000 == 0xB000) && !(op & 0xF000 == 0xC000) && !(op & 0xF000 == 0xD000) && !(op & 0xF0FF == 0xE09E) && !(op & 0xF0FF == 0xE0A1),
        (op & 0xF0FF == 0xF00A) ==> !(op & 0xFFFF == 0x00E0) && !(op & 0xFFFF == 0x00EE) && !(op & 0xF000 == 0x1000) && !(op & 0xF000 == 0x2000) && !(op & 0xF000 == 0x3000) && !(op & 0xF000 == 0x4000) && !(op & 0xF00F == 0x5000) && !(op & 0xF000 == 0x6000) && !(op & 0xF000 == 0x7000) && !(op & 0xF00F == 0x8000) && !(op & 0xF00F == 0x8001) && !(op & 0xF00F == 0x8002) && !(op & 0xF00F == 0x8003) && !(op & 0xF00F == 0x8004) && !(op & 0xF00F == 0x8005) && !(op & 0xF00F == 0x8006) && !(op & 0xF00F == 0x8007) && !(op & 0xF00F == 0x800E) && !(op & 0xF00F == 0x9000) && !(op & 0xF000 == 0xA000) && !(op & 0xF000 == 0xB000) && !(op & 0xF000 == 0xC000) && !(op & 0xF000 == 0xD000) && !(op & 0xF0FF == 0xE09E) && !(op & 0xF0FF == 0xE0A1) && !(op & 0xF0FF == 0xF007),
        (op & 0xF0FF == 0xF015) ==> !(op & 0xFFFF == 0x00E0) && !(op & 0xFFFF == 0x00EE) && !(op & 0xF000 == 0x1000) && !(op & 0xF000 == 0x2000) && !(op & 0xF000 == 0x3000) && !(op & 0xF000 == 0x4000) && !(op & 0xF00F == 0x5000) && !(op & 0xF000 == 0x6000) && !(op & 0xF000 == 0x7000) && !(op & 0xF00F == 0x8000) && !(op & 0xF00F == 0x8001) && !(op & 0xF00F == 0x8002) && !(op & 0xF00F == 0x8003) && !(op & 0xF00F == 0x8004) && !(op & 0xF00F == 0x8005) && !(op & 0xF00F == 0x8006) && !(op & 0xF00F == 0x8007) && !(op & 0xF00F == 0x800E) && !(op & 0xF00F == 0x9000) && !(op & 0xF000 == 0xA000) && !(op & 0xF000 == 0xB000) && !(op & 0xF000 == 0xC000) && !(op & 0xF000 == 0xD000) && !(op & 0xF0FF == 0xE09E) && !(op & 0xF0FF == 0xE0A1) && !(op & 0xF0FF == 0xF007) && !(op & 0xF0FF == 0xF00A),
        (op & 0xF0FF == 0xF018) ==> !(op & 0xFFFF == 0x00E0) && !(op & 0xFFFF == 0x00EE) && !(op & 0xF000 == 0x1000) && !(op & 0xF000 == 0x2000) && !(op & 0xF000 == 0x3000) && !(op & 0xF000 == 0x4000) && !(op & 0xF00F == 0x5000) && !(op & 0xF000 == 0x6000) && !(op & 0xF000 == 0x7000) && !(op & 0xF00F == 0x8000) && !(op & 0xF00F == 0x8001) && !(op & 0xF00F == 0x8002) && !(op & 0xF00F == 0x8003) && !(op & 0xF00F == 0x8004) && !(op & 0xF00F == 0x8005) && !(op & 0xF00F == 0x8006) && !(op & 0xF00F == 0x8007) && !(op & 0xF00F == 0x800E) && !(op & 0xF00F == 0x9000) && !(op & 0xF000 == 0xA000) && !(op & 0xF000 == 0xB000) && !(op & 0xF000 == 0xC000) && !(op & 0xF000 == 0xD000) && !(op & 0xF0FF == 0xE09E) && !(op & 0xF0FF == 0xE0A1) && !(op & 0xF0FF == 0xF007) && !(op & 0xF0FF == 0xF00A) && !(op & 0xF0FF == 0xF015),
        (op & 0xF0FF == 0xF01E) ==> !(op & 0xFFFF == 0x00E0) && !(op & 0xFFFF == 0x00EE) && !(op & 0xF000 == 0x1000) && !(op & 0xF000 == 0x2000) && !(op & 0xF000 == 0x3000) && !(op & 0xF000 == 0x4000) && !(op & 0xF00F == 0x5000) && !(op & 0xF000 == 0x6000) && !(op & 0xF000 == 0x7000) && !(op & 0xF00F == 0x8000) && !(op & 0xF00F == 0x8001) && !(op & 0xF00F == 0x8002) && !(op & 0xF00F == 0x8003) && !(op & 0xF00F == 0x8004) && !(op & 0xF00F == 0x8005) && !(op & 0xF00F == 0x8006) && !(op & 0xF00F == 0x8007) && !(op & 0xF00F == 0x800E) && !(op & 0xF00F == 0x9000) && !(op & 0xF000 == 0xA000) && !(op & 0xF000 == 0xB000) && !(op & 0xF000 == 0xC000) && !(op & 0xF000 == 0xD000) && !(op & 0xF0FF == 0xE09E) && !(op & 0xF0FF == 0xE0A1) && !(op & 0xF0FF == 0xF007) && !(op & 0xF0FF == 0xF00A) && !(op & 0xF0FF == 0xF015) && !(op & 0xF0FF == 0xF018),
        (op & 0xF0FF == 0xF029) ==> !(op & 0xFFFF == 0x00E0) && !(op & 0xFFFF == 0x00EE) && !(op & 0xF000 == 0x1000) && !(op & 0xF000 == 0x2000) && !(op & 0xF000 == 0x3000) && !(op & 0xF000 == 0x4000) && !(op & 0xF00F == 0x5000) && !(op & 0xF000 == 0x6000) && !(op & 0xF000 == 0x7000) && !(op & 0xF00F == 0x8000) && !(op & 0xF00F == 0x8001) && !(op & 0xF00F == 0x8002) && !(op & 0xF00F == 0x8003) && !(op & 0xF00F == 0x8004) && !(op & 0xF00F == 0x8005) && !(op & 0xF00F == 0x8006) && !(op & 0xF00F == 0x8007) && !(op & 0xF00F == 0x800E) && !(op & 0xF00F == 0x9000) && !(op & 0xF000 == 0xA000) && !(op & 0xF000 == 0xB000) && !(op & 0xF000 == 0xC000) && !(op & 0xF000 == 0xD000) && !(op & 0xF0FF == 0xE09E) && !(op & 0xF0FF == 0xE0A1) && !(op & 0xF0FF == 0xF007) && !(op & 0xF0FF == 0xF00A) && !(op & 0xF0FF == 0xF015) && !(op & 0xF0FF == 0xF018) && !(op & 0xF0FF == 0xF01E),
        (op & 0xF0FF == 0xF033) ==> !(op & 0xFFFF == 0x00E0) && !(op & 0xFFFF == 0x00EE) && !(op & 0xF000 == 0x1000) && !(op & 0xF000 == 0x2000) && !(op & 0xF000 == 0x3000) && !(op & 0xF000 == 0x4000) && !(op & 0xF00F == 0x5000) && !(op & 0xF000 == 0x6000) && !(op & 0xF000 == 0x7000) && !(op & 0xF00F == 0x8000) && !(op & 0xF00F == 0x8001) && !(op & 0xF00F == 0x8002) && !(op & 0xF00F == 0x8003) && !(op & 0xF00F == 0x8004) && !(op & 0xF00F == 0x8005) && !(op & 0xF00F == 0x8006) && !(op & 0xF00F == 0x8007) && !(op & 0xF00F == 0x800E) && !(op & 0xF00F == 0x9000) && !(op & 0xF000 == 0xA000) && !(op & 0xF000 == 0xB000) && !(op & 0xF000 == 0xC000) && !(op & 0xF000 == 0xD000) && !(op & 0xF0FF == 0xE09E) && !(op & 0xF0FF == 0xE0A1) && !(op & 0xF0FF == 0xF007) && !(op & 0xF0FF == 0xF00A) && !(op & 0xF0FF == 0xF015) && !(op & 0xF0FF == 0xF018) && !(op & 0xF0FF == 0xF01E) && !(op & 0xF0FF == 0xF029),
        (op & 0xF0FF == 0xF055) ==> !(op & 0xFFFF == 0x00E0) && !(op & 0xFFFF == 0x00EE) && !(op & 0xF000 == 0x1000) && !(op & 0xF000 == 0x2000) && !(op & 0xF000 == 0x3000) && !(op & 0xF000 == 0x4000) && !(op & 0xF00F == 0x5000) && !(op & 0xF000 == 0x6000) && !(op & 0xF000 == 0x7000) && !(op & 0xF00F == 0x8000) && !(op & 0xF00F == 0x8001) && !(op & 0xF00F == 0x8002) && !(op & 0xF00F == 0x8003) && !(op & 0xF00F == 0x8004) && !(op & 0xF00F == 0x8005) && !(op & 0xF00F == 0x8006) && !(op & 0xF00F == 0x8007) && !(op & 0xF00F == 0x800E) && !(op & 0xF00F == 0x9000) && !(op & 0xF000 == 0xA000) && !(op & 0xF000 == 0xB000) && !(op & 0xF000 == 0xC000) && !(op & 0xF000 == 0xD000) && !(op & 0xF0FF == 0xE09E) && !(op & 0xF0FF == 0xE0A1) && !(op & 0xF0FF == 0xF007) && !(op & 0xF0FF == 0xF00A) && !(op & 0xF0FF == 0xF015) && !(op & 0xF0FF == 0xF018) && !(op & 0xF0FF == 0xF01E) && !(op & 0xF0FF == 0xF029) && !(op & 0xF0FF == 0xF033),
        (op & 0xF0FF == 0xF065) ==> !(op & 0xFFFF == 0x00E0) && !(op & 0xFFFF == 0x00EE) && !(op & 0xF000 == 0x1000) && !(op & 0xF000 == 0x2000) && !(op & 0xF000 == 0x3000) && !(op & 0xF000 == 0x4000) && !(op & 0xF00F == 0x5000) && !(op & 0xF000 == 0x6000) && !(op & 0xF000 == 0x7000) && !(op & 0xF00F == 0x8000) && !(op & 0xF00F == 0x8001) && !(op & 0xF00F == 0x8002) && !(op & 0xF00F == 0x8003) && !(op & 0xF00F == 0x8004) && !(op & 0xF00F == 0x8005) && !(op & 0xF00F == 0x8006) && !(op & 0xF00F == 0x8007) && !(op & 0xF00F == 0x800E) && !(op & 0xF00F == 0x9000) && !(op & 0xF000 == 0xA000) && !(op & 0xF000 == 0xB000) && !(op & 0xF000 == 0xC000) && !(op & 0xF000 == 0xD000) && !(op & 0xF0FF == 0xE09E) && !(op & 0xF0FF == 0xE0A1) && !(op & 0xF0FF == 0xF007) && !(op & 0xF0FF == 0xF00A) && !(op & 0xF0FF == 0xF015) && !(op & 0xF0FF == 0xF018) && !(op & 0xF0FF == 0xF01E) && !(op & 0xF0FF == 0xF029) && !(op & 0xF0FF == 0xF033) && !(op & 0xF0FF == 0xF055),
{
}

/// The table read entry by entry.
proof fn lemma_table_entries()
    ensures
        decode_table().len() == 34,
        decode_table()[0] == (0x00E0u16, 0xFFFFu16, Instruction::CLS),
        decode_table()[1] == (0x00EEu16, 0xFFFFu16, Instruction::RET),
        decode_table()[2] == (0x1000u16, 0xF000u16, Instruction::JP),
        decode_table()[3] == (0x2000u16, 0xF000u16, Instruction::CALL),
        decode_table()[4] == (0x3000u16, 0xF000u16, Instruction::SE_VX_BT),
        decode_table()[5] == (0x4000u16, 0xF000u16, Instruction::SNE_VX_BT),
        decode_table()[6] == (0x5000u16, 0xF00Fu16, Instruction::SE_VX_VY),
        decode_table()[7] == (0x6000u16, 0xF000u16, Instruction::LD_VX_BT),
        decode_table()[8] == (0x7000u16, 0xF000u16, Instruction::ADD_VX_BT),
        decode_table()[9] == (0x8000u16, 0xF00Fu16, Instruction::LD_VX_VY),
        decode_table()[10] == (0x8001u16, 0xF00Fu16, Instruction::OR_VX_VY),
        decode_table()[11] == (0x8002u16, 0xF00Fu16, Instruction::AND_VX_VY),
        decode_table()[12] == (0x8003u16, 0xF00Fu16, Instruction::XOR_VX_VY),
        decode_table()[13] == (0x8004u16, 0xF00Fu16, Instruction::ADD_VX_VY),
        decode_table()[14] == (0x8005u16, 0xF00Fu16, Instruction::SUB_VX_VY),
        decode_table()[15] == (0x8006u16, 0xF00Fu16, Instruction::SHR_VX_VY),
        decode_table()[16] == (0x8007u16, 0xF00Fu16, Instruction::SUBN_VX_VY),
        decode_table()[17] == (0x800Eu16, 0xF00Fu16, Instruction::SHL_VX_VY),
        decode_table()[18] == (0x9000u16, 0xF00Fu16, Instruction::SNE_VX_VY),
        decode_table()[19] == (0xA000u16, 0xF000u16, Instruction::LD_I_ADDR),
        decode_table()[20] == (0xB000u16, 0xF000u16, Instruction::JP_V0_ADDR),
        decode_table()[21] == (0xC000u16, 0xF000u16, Instruction::RND_VX_BT),
        decode_table()[22] == (0xD000u16, 0xF000u16, Instruction::DRW_VX_VY_NIB),
        decode_table()[23] == (0xE09Eu16, 0xF0FFu16, Instruction::SKP_VX),
        decode_table()[24] == (0xE0A1u16, 0xF0FFu16, Instruction::SKNP_VX),
        decode_table()[25] == (0xF007u16, 0xF0FFu16, Instruction::LD_VX_DT),
        decode_table()[26] == (0xF00Au16, 0xF0FFu16, Instruction::LD_VX_K),
        decode_table()[27] == (0xF015u16, 0xF0FFu16, Instruction::LD_DT_VX),
        decode_table()[28] == (0xF018u16, 0xF0FFu16, Instruction::LD_ST_VX),
        decode_table()[29] == (0xF01Eu16, 0xF0FFu16, Instruction::ADD_I_VX),
        decode_table()[30] == (0xF029u16, 0xF0FFu16, Instruction::LD_F_VX),
        decode_table()[31] == (0xF033u16, 0xF0FFu16, Instruction::LD_B_VX),
        decode_table()[32] == (0xF055u16, 0xF0FFu16, Instruction::LD_I_VX),
        decode_table()[33] == (0xF065u16, 0xF0FFu16, Instruction::LD_VX_I),
{
}

/// Decoding can never return two conflicting matches: every table entry
/// that an opcode word matches yields exactly the (tag, payload) pair that
/// `decode_spec` returns, the payload being the word with the entry's
/// selector bits zeroed out.
pub proof fn lemma_decode_match(op: u16, k: int)
    requires
        0 <= k < decode_table().len(),
        entry_matches(op, decode_table()[k]),
    ensures
        decode_spec(op) == (decode_table()[k].2, (op & !decode_table()[k].1) as u16),
{
    lemma_table_order(op);
    lemma_table_entries();
}

/// Decoding is total, with INVALID as the only fallback: the result tag is
/// INVALID exactly when the opcode word matches no table entry.
pub proof fn lemma_decode_total(op: u16)
    ensures
        decode_spec(op).0 == Instruction::INVALID <==> (forall|k: int|
            0 <= k < decode_table().len() ==> !entry_matches(op, #[trigger] decode_table()[k])),
{
    lemma_table_entries();
    if exists|k: int| 0 <= k < decode_table().len() && entry_matches(op, #[trigger] decode_table()[k]) {
        let k = choose|k: int| 0 <= k < decode_table().len() && entry_matches(op, #[trigger] decode_table()[k]);
        lemma_decode_match(op, k);
        lemma_tags_defined(k);
    }
}

/// No table entry carries the INVALID tag.
proof fn lemma_tags_defined(k: int)
    requires
        0 <= k < decode_table().len(),
    ensures
        decode_table()[k].2 != Instruction::INVALID,
{
    lemma_table_entries();
}

} // verus!
