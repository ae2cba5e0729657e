use chip8::instructions::Instruction;

#[test]
fn test_decoder() {
    assert_eq!(0x024E, Instruction::decode(0x124E).1);
    assert_eq!(Instruction::INVALID, Instruction::INVALID);
    assert_ne!(Instruction::CALL, Instruction::INVALID);
    assert_eq!(Instruction::CLS, Instruction::decode(0x00E0).0);
    assert_eq!(Instruction::RET, Instruction::decode(0x00EE).0);
    assert_eq!(Instruction::JP, Instruction::decode(0x124E).0);
    assert_eq!(Instruction::CALL, Instruction::decode(0x224E).0);
    assert_eq!(Instruction::SE_VX_BT, Instruction::decode(0x3Af0).0);
    assert_eq!(Instruction::SNE_VX_BT, Instruction::decode(0x4Af0).0);
    assert_eq!(Instruction::SE_VX_VY, Instruction::decode(0x5Af0).0);
    assert_ne!(Instruction::SE_VX_VY, Instruction::decode(0x5Af1).0);
    assert_eq!(Instruction::LD_VX_BT, Instruction::decode(0x6Af1).0);
    assert_eq!(Instruction::ADD_VX_BT, Instruction::decode(0x7Af1).0);
    assert_eq!(Instruction::LD_VX_VY, Instruction::decode(0x8AB0).0);
    assert_eq!(Instruction::OR_VX_VY, Instruction::decode(0x8AB1).0);
    assert_eq!(Instruction::AND_VX_VY, Instruction::decode(0x8AB2).0);
    assert_eq!(Instruction::XOR_VX_VY, Instruction::decode(0x8AB3).0);
    assert_eq!(Instruction::ADD_VX_VY, Instruction::decode(0x8AB4).0);
    assert_eq!(Instruction::SUB_VX_VY, Instruction::decode(0x8AB5).0);
    assert_eq!(Instruction::SHR_VX_VY, Instruction::decode(0x8AB6).0);
    assert_eq!(Instruction::SUBN_VX_VY, Instruction::decode(0x8AB7).0);
    assert_eq!(Instruction::SHL_VX_VY, Instruction::decode(0x8ABE).0);
    assert_eq!(Instruction::SNE_VX_VY, Instruction::decode(0x9AB0).0);
    assert_eq!(Instruction::LD_I_ADDR, Instruction::decode(0xA123).0);
    assert_eq!(Instruction::JP_V0_ADDR, Instruction::decode(0xB123).0);
    assert_eq!(Instruction::RND_VX_BT, Instruction::decode(0xCA23).0);
    assert_eq!(Instruction::DRW_VX_VY_NIB, Instruction::decode(0xD123).0);
    assert_eq!(Instruction::SKP_VX, Instruction::decode(0xE19E).0);
    assert_eq!(Instruction::SKNP_VX, Instruction::decode(0xEAA1).0);
    assert_eq!(Instruction::LD_VX_DT, Instruction::decode(0xFA07).0);
    assert_eq!(Instruction::LD_VX_K, Instruction::decode(0xFA0A).0);
    assert_eq!(Instruction::LD_DT_VX, Instruction::decode(0xFA15).0);
    assert_eq!(Instruction::LD_ST_VX, Instruction::decode(0xFA18).0);
    assert_eq!(Instruction::ADD_I_VX, Instruction::decode(0xFA1E).0);
    assert_eq!(Instruction::LD_F_VX, Instruction::decode(0xFA29).0);
    assert_eq!(Instruction::LD_B_VX, Instruction::decode(0xFA33).0);
    assert_eq!(Instruction::LD_I_VX, Instruction::decode(0xFA55).0);
    assert_eq!(Instruction::LD_VX_I, Instruction::decode(0xFA65).0);
}

#[test]
fn test_decode_deterministic_over_all_words() {
    // Two decodes of the same word always agree, over the whole 16-bit
    // input space; unmatched words fall back to INVALID with payload 0.
    for op in 0u32..0x10000 {
        let a = Instruction::decode(op);
        let b = Instruction::decode(op);
        assert_eq!(a, b);
        if a.0 == Instruction::INVALID {
            assert_eq!(0, a.1);
        }
    }
}

#[test]
fn test_decode_invalid_fallback() {
    // Words that match no (pattern, mask) pair: an SE Vx,Vy with a nonzero
    // low nibble, an unused 8xy_ selector, a stray 0x0nnn word, and the
    // unused E/F-page selectors.
    assert_eq!((Instruction::INVALID, 0), Instruction::decode(0x5AB1));
    assert_eq!((Instruction::INVALID, 0), Instruction::decode(0x8AB8));
    assert_eq!((Instruction::INVALID, 0), Instruction::decode(0x9AB5));
    assert_eq!((Instruction::INVALID, 0), Instruction::decode(0x0000));
    assert_eq!((Instruction::INVALID, 0), Instruction::decode(0x0123));
    assert_eq!((Instruction::INVALID, 0), Instruction::decode(0xE1FF));
    assert_eq!((Instruction::INVALID, 0), Instruction::decode(0xF1FF));
}

#[test]
fn test_decode_masks_payload() {
    // The payload is the opcode with the selector bits zeroed out.
    assert_eq!(0x0000, Instruction::decode(0x00E0).1);
    assert_eq!(0x0000, Instruction::decode(0x00EE).1);
    assert_eq!(0x024E, Instruction::decode(0x224E).1);
    assert_eq!(0x0AB0, Instruction::decode(0x8AB4).1);
    assert_eq!(0x0A00, Instruction::decode(0xEA9E).1);
    assert_eq!(0x0123, Instruction::decode(0xA123).1);
    assert_eq!(0x0A3C, Instruction::decode(0x6A3C).1);
}

#[test]
fn test_decode_ignores_high_bits() {
    // Only the low 16 bits of the fetched word take part in decoding.
    assert_eq!(Instruction::decode(0x124E), Instruction::decode(0xABCD_124E));
}
