use chip8::cpu::CPU;
use chip8::memory::Memory;

fn prepare_cpu(prg: Vec<u8>) -> CPU {
    let mut mem = Memory::new();
    mem.load_program(&prg);
    CPU::new(mem)
}

#[test]
fn test_stack_flow() {
    let mut cpu = prepare_cpu(vec![
        // CALL 0x204
        0x22, //0x200
        0x04, //0x201
        // JP 0x200
        0x12, //0x202
        0x00, //0x203
        // RET to 0x202
        0x00, //0x204
        0xEE, //0x205
    ]);
    for _ in 0..2 {
        //ensure the CALL JMP loop actually works
        assert_eq!(0x200, cpu.registers.pc);
        cpu.step().unwrap();
        assert_eq!(0x202, cpu.get_top_of_stack());
        assert_eq!(0x204, cpu.registers.pc);
        cpu.step().unwrap();
        assert_eq!(0x000, cpu.registers.sp);
        assert_eq!(0x202, cpu.registers.pc);
        cpu.step().unwrap();
        assert_eq!(0x200, cpu.registers.pc);
    }
}

#[test]
fn test_sd_sne() {
    let mut cpu = prepare_cpu(vec![
        // SE VB, 0x22 -> should skip
        0x3B, //0x200
        0x22, //0x201
        // INVALID
        0x00, //0x202
        0x00, //0x203
        // SE VB, 0x18 -> should not skip next
        0x3B, //0x204
        0x18, //0x205
        // SNE VB, 0x22 -> should not skip next
        0x4B, //0x206
        0x22, //0x207
        // SE VD, VE -> should skip
        0x5D, //0x208
        0xE0, //0x209
        // INVALID
        0x00, //0x20A
        0x00, //0x20B
        // SE VB, VD -> should not skip
        0x5B, //0x20C
        0xD0, //0x20D
        // SNE VB, VD -> skip
        0x9B, //0x20E
        0xD0, //0x20F
        // INVALID
        0x00, //0x210
        0x00, //0x211
        // JP 0x200
        0x12, //0x212
        0x00, //0x213
    ]);
    cpu.registers.prg_regs[0xB] = 0x22;
    cpu.registers.prg_regs[0xD] = 0x11;
    cpu.registers.prg_regs[0xE] = 0x11;
    cpu.step().unwrap();
    assert_eq!(0x204, cpu.registers.pc);
    cpu.step().unwrap();
    assert_eq!(0x206, cpu.registers.pc);
    cpu.step().unwrap();
    assert_eq!(0x208, cpu.registers.pc);
    cpu.step().unwrap();
    assert_eq!(0x20C, cpu.registers.pc);
    cpu.step().unwrap();
    assert_eq!(0x20E, cpu.registers.pc);
    cpu.step().unwrap();
    assert_eq!(0x212, cpu.registers.pc);
    cpu.step().unwrap();
    assert_eq!(0x200, cpu.registers.pc);
}

#[test]
fn test_load_add_instr() {
    let mut cpu = prepare_cpu(vec![
        // LD A, 0xFF
        0x6A, //0x200
        0xFF, //0x201
        // LD A, 0xAF
        0x6A, //0x202
        0xAF, //0x204
        // ADD A, 0x01
        0x7A, //0x205
        0x01, //0x206
        // LD B, A
        0x8B, //0x207
        0xA0, //0x208
        // LD, I, 0x3AB
        0xA3, //0x209
        0xAB, //0x20A
        // LD 0, 0x10
        0x60, //0x20B
        0x10, //0x20C
        // JP V0, 0x1F0
        0xB1, //0x20D
        0xF0, //0x20E
    ]);

    cpu.step().unwrap();
    assert_eq!(0xFF, cpu.registers.prg_regs[0xA]);
    cpu.step().unwrap();
    assert_eq!(0xAF, cpu.registers.prg_regs[0xA]);
    cpu.step().unwrap();
    assert_eq!(0xB0, cpu.registers.prg_regs[0xA]);
    assert_ne!(0xB0, cpu.registers.prg_regs[0xB]);
    cpu.step().unwrap();
    assert_eq!(0xB0, cpu.registers.prg_regs[0xB]);
    cpu.step().unwrap();
    assert_eq!(0x3AB, cpu.registers.i);
    cpu.step().unwrap();
    assert_eq!(0x10, cpu.registers.prg_regs[0x0]);
    cpu.step().unwrap();
    assert_eq!(0x200, cpu.registers.pc);
}

#[test]
fn test_math() {
    //xor, add, sub
    let mut cpu = prepare_cpu(vec![
        // OR A, B
        0x8A, //0x200
        0xB1, //0x201
        // LD A, 0xF0
        0x6A, //0x202
        0xF0, //0x204
        // AND A, B
        0x8A, //0x202
        0xB2, //0x203
        // XOR A, C
        0x8A, //0x204
        0xC3, //0x205
        // ADD D, E
        0x8D, //0x206
        0xE4, //0x207
        // ADD D, E
        0x8D, //0x208
        0xE4, //0x209
        // LD D, 0xFF
        0x6D, //0x20A
        0xFF, //0x20B
        // SUB D, E
        0x8D, //0x20C
        0xE5, //0x20D
        // SUB 0, 1
        0x80, //0x20E
        0x15, //0x20F
    ]);
    cpu.registers.prg_regs[0x0] = 0x01;
    cpu.registers.prg_regs[0x1] = 0x03;
    cpu.registers.prg_regs[0xA] = 0x02;
    cpu.registers.prg_regs[0xB] = 0xA1;
    cpu.registers.prg_regs[0xC] = 0x02;
    cpu.registers.prg_regs[0xD] = 0xFE;
    cpu.registers.prg_regs[0xE] = 0x01;

    cpu.step().unwrap();
    assert_eq!(0xA3, cpu.registers.prg_regs[0xA]);
    cpu.step().unwrap();
    cpu.step().unwrap();
    assert_eq!(0xA0, cpu.registers.prg_regs[0xA]);
    cpu.step().unwrap();
    assert_eq!(0xA2, cpu.registers.prg_regs[0xA]);
    cpu.step().unwrap();
    assert_eq!(0xFF, cpu.registers.prg_regs[0xD]);
    assert_eq!(0x0, cpu.registers.prg_regs[0xF]);
    cpu.step().unwrap();
    assert_eq!(0x00, cpu.registers.prg_regs[0xD]);
    assert_eq!(0x1, cpu.registers.prg_regs[0xF]);
    cpu.step().unwrap();
    cpu.step().unwrap();
    assert_eq!(0xFE, cpu.registers.prg_regs[0xD]);
    assert_eq!(0x01, cpu.registers.prg_regs[0xF]);
    cpu.step().unwrap();
    assert_eq!(0xFE, cpu.registers.prg_regs[0x0]);
    assert_eq!(0x00, cpu.registers.prg_regs[0xF]);
}

#[test]
fn test_additional_math() {
    //xor, add, sub
    let mut cpu = prepare_cpu(vec![
        // SHR A, {_}
        0x8A, //0x200
        0xB6, //0x201
        // SHR A, {_}
        0x8A, //0x202
        0xB6, //0x203
        // SUBN A, B
        0x8A, //0x204
        0xB7, //0x205
        // SUBN B, A
        0x8B, //0x206
        0xA7, //0x207
        // SHL C, {_}
        0x8C, //0x206
        0xAE, //0x207
        // SHL D, {_}
        0x8D, //0x208
        0xAE, //0x209
    ]);
    cpu.registers.prg_regs[0xA] = 0x0A;
    cpu.registers.prg_regs[0xB] = 0x01;
    cpu.registers.prg_regs[0xC] = 0x05;
    cpu.registers.prg_regs[0xD] = 0xA0;

    cpu.step().unwrap();
    assert_eq!(0x05, cpu.registers.prg_regs[0xA]);
    assert_eq!(0x00, cpu.registers.prg_regs[0xF]);
    cpu.step().unwrap();
    assert_eq!(0x02, cpu.registers.prg_regs[0xA]);
    assert_eq!(0x01, cpu.registers.prg_regs[0xF]);
    cpu.step().unwrap();
    assert_eq!(0xFF, cpu.registers.prg_regs[0xA]);
    assert_eq!(0x00, cpu.registers.prg_regs[0xF]);
    cpu.step().unwrap();
    assert_eq!(0xFE, cpu.registers.prg_regs[0xB]);
    assert_eq!(0x01, cpu.registers.prg_regs[0xF]);
    cpu.step().unwrap();
    assert_eq!(0x0A, cpu.registers.prg_regs[0xC]);
    assert_eq!(0x00, cpu.registers.prg_regs[0xF]);
    cpu.step().unwrap();
    assert_eq!(0x40, cpu.registers.prg_regs[0xD]);
    assert_eq!(0x01, cpu.registers.prg_regs[0xF]);
}
