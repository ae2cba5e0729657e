use chip8::cpu::{CPU, Fault, FaultKind, StepOutcome};
use chip8::instructions::Instruction;
use chip8::memory::Memory;

fn prepare_cpu(prg: Vec<u8>) -> CPU {
    let mut mem = Memory::new();
    mem.load_program(&prg);
    CPU::new(mem)
}

#[test]
fn test_concrete_decode_scenarios() {
    assert_eq!((Instruction::CLS, 0x0000), Instruction::decode(0x00E0));
    assert_eq!((Instruction::JP, 0x024E), Instruction::decode(0x124E));
    assert_eq!((Instruction::CALL, 0x024E), Instruction::decode(0x224E));
}

#[test]
fn test_se_skips_on_equal_register() {
    // SE VB, 0x22 with VB = 0x22 skips the next instruction.
    let mut cpu = prepare_cpu(vec![0x3B, 0x22, 0x00, 0x00, 0x00, 0x00]);
    cpu.registers.prg_regs[0xB] = 0x22;
    cpu.step().unwrap();
    assert_eq!(0x204, cpu.registers.pc);
}

#[test]
fn test_or_scenario() {
    // OR VA, VB with VA = 0x02, VB = 0xA1 leaves VA = 0xA3.
    let mut cpu = prepare_cpu(vec![0x8A, 0xB1]);
    cpu.registers.prg_regs[0xA] = 0x02;
    cpu.registers.prg_regs[0xB] = 0xA1;
    cpu.step().unwrap();
    assert_eq!(0xA3, cpu.registers.prg_regs[0xA]);
}

#[test]
fn test_shr_scenario() {
    // SHR VA with VA = 0x0A leaves VA = 0x05 and the flag clear.
    let mut cpu = prepare_cpu(vec![0x8A, 0xB6]);
    cpu.registers.prg_regs[0xA] = 0x0A;
    cpu.step().unwrap();
    assert_eq!(0x05, cpu.registers.prg_regs[0xA]);
    assert_eq!(0x00, cpu.registers.prg_regs[0xF]);
}

#[test]
fn test_operand_round_trip_concrete() {
    // For a register-immediate instruction the payload's fields rebuild
    // the low 12 bits of the opcode.
    let (tag, payload) = Instruction::decode(0x6A3C);
    assert_eq!(Instruction::LD_VX_BT, tag);
    let x = CPU::get_x_reg(payload);
    let imm = payload & 0xFF;
    assert_eq!(0x6A3C & 0xFFF, (x << 8) | imm);
}

#[test]
fn test_add_overflow_sets_flag() {
    // ADD V1, V2 with 0xFF + 0x01 wraps to 0 and sets the flag; a second
    // add without overflow clears it.
    let mut cpu = prepare_cpu(vec![0x81, 0x24, 0x81, 0x24]);
    cpu.registers.prg_regs[0x1] = 0xFF;
    cpu.registers.prg_regs[0x2] = 0x01;
    cpu.step().unwrap();
    assert_eq!(0x00, cpu.registers.prg_regs[0x1]);
    assert_eq!(0x01, cpu.registers.prg_regs[0xF]);
    cpu.step().unwrap();
    assert_eq!(0x01, cpu.registers.prg_regs[0x1]);
    assert_eq!(0x00, cpu.registers.prg_regs[0xF]);
}

#[test]
fn test_add_immediate_wraps_without_flag() {
    // ADD Vx, byte wraps silently: the flag register is untouched.
    let mut cpu = prepare_cpu(vec![0x73, 0xFF]);
    cpu.registers.prg_regs[0x3] = 0x02;
    cpu.registers.prg_regs[0xF] = 0x00;
    cpu.step().unwrap();
    assert_eq!(0x01, cpu.registers.prg_regs[0x3]);
    assert_eq!(0x00, cpu.registers.prg_regs[0xF]);
}

#[test]
fn test_call_overflow_fault() {
    // CALL 0x200 at 0x200 calls itself: sixteen nested CALLs succeed, the
    // seventeenth faults with a stack fault naming the pc and opcode.
    let mut cpu = prepare_cpu(vec![0x22, 0x00]);
    for depth in 1..=16 {
        assert_eq!(StepOutcome::Executed, cpu.step().unwrap());
        assert_eq!(depth, cpu.registers.sp);
    }
    assert_eq!(
        Err(Fault { kind: FaultKind::StackFault, pc: 0x200, opcode: 0x2200 }),
        cpu.step()
    );
    assert_eq!(16, cpu.registers.sp);
}

#[test]
fn test_ret_underflow_fault() {
    // RET with an empty stack faults with a stack fault.
    let mut cpu = prepare_cpu(vec![0x00, 0xEE]);
    assert_eq!(
        Err(Fault { kind: FaultKind::StackFault, pc: 0x200, opcode: 0x00EE }),
        cpu.step()
    );
}

#[test]
fn test_fetch_address_fault() {
    // JP 0xFFF leaves the program counter where an instruction cannot
    // wholly fit in memory; the next step is an address fault.
    let mut cpu = prepare_cpu(vec![0x1F, 0xFF]);
    cpu.step().unwrap();
    assert_eq!(0xFFF, cpu.registers.pc);
    assert_eq!(
        Err(Fault { kind: FaultKind::AddressFault, pc: 0xFFF, opcode: 0 }),
        cpu.step()
    );
}

#[test]
fn test_bcd_address_fault() {
    // LD B, V0 with the index register at 0xFFE would write past the end
    // of memory: an address fault.
    let mut cpu = prepare_cpu(vec![0xAF, 0xFE, 0xF0, 0x33]);
    cpu.step().unwrap();
    assert_eq!(0xFFE, cpu.registers.i);
    assert_eq!(
        Err(Fault { kind: FaultKind::AddressFault, pc: 0x202, opcode: 0xF033 }),
        cpu.step()
    );
}

#[test]
fn test_sys_unsupported() {
    // Raw machine-code execution is unsupported.
    let mut cpu = prepare_cpu(vec![]);
    assert_eq!(Err(FaultKind::UnsupportedOpcode), cpu.execute(Instruction::SYS, 0));
}

#[test]
fn test_invalid_opcode_is_reported_not_executed() {
    // A word matching no pattern advances the program counter and reports
    // the miss; registers are untouched.
    let mut cpu = prepare_cpu(vec![0x5A, 0xB1]);
    cpu.registers.prg_regs[0xA] = 0x55;
    assert_eq!(StepOutcome::InvalidOpcode, cpu.step().unwrap());
    assert_eq!(0x202, cpu.registers.pc);
    assert_eq!(0x55, cpu.registers.prg_regs[0xA]);
}

#[test]
fn test_rnd_masks_random_byte() {
    // RND Vx, 0x00 clears Vx whatever byte the source drew; RND Vx, 0x0F
    // keeps only the low nibble.
    let mut cpu = prepare_cpu(vec![0xC5, 0x00, 0xC6, 0x0F]);
    cpu.registers.prg_regs[0x5] = 0xAA;
    cpu.step().unwrap();
    assert_eq!(0x00, cpu.registers.prg_regs[0x5]);
    cpu.step().unwrap();
    assert!(cpu.registers.prg_regs[0x6] < 0x10);
}

#[test]
fn test_wait_for_key() {
    // LD V5, K waits: with no key down the step reports it and the
    // program counter stays on the instruction; once a key is down the
    // lowest pressed key lands in V5.
    let mut cpu = prepare_cpu(vec![0xF5, 0x0A]);
    assert_eq!(StepOutcome::WaitingForKey, cpu.step().unwrap());
    assert_eq!(0x200, cpu.registers.pc);
    cpu.set_key(0xB, true);
    cpu.set_key(0x7, true);
    assert_eq!(StepOutcome::Executed, cpu.step().unwrap());
    assert_eq!(0x202, cpu.registers.pc);
    assert_eq!(0x07, cpu.registers.prg_regs[0x5]);
}

#[test]
fn test_skip_on_key() {
    // SKP V3 skips when key V3 is down; SKNP V3 skips when it is not.
    let mut cpu = prepare_cpu(vec![0xE3, 0x9E, 0xE3, 0x9E, 0x00, 0x00, 0xE3, 0xA1]);
    cpu.registers.prg_regs[0x3] = 0x05;
    cpu.step().unwrap();
    assert_eq!(0x202, cpu.registers.pc);
    cpu.set_key(0x05, true);
    cpu.step().unwrap();
    assert_eq!(0x206, cpu.registers.pc);
    cpu.step().unwrap();
    assert_eq!(0x208, cpu.registers.pc);
}

#[test]
fn test_draw_and_collision() {
    // LD I, 0x206; DRW V0, V1, 1 lights the sprite's pixels with the flag
    // clear; drawing the same sprite again erases them and sets the flag.
    let mut cpu = prepare_cpu(vec![0xA2, 0x06, 0xD0, 0x11, 0xD0, 0x11, 0xFF]);
    cpu.step().unwrap();
    assert_eq!(0x206, cpu.registers.i);
    cpu.step().unwrap();
    for x in 0..8 {
        assert!(cpu.read_pixel(x, 0));
    }
    assert!(!cpu.read_pixel(8, 0));
    assert_eq!(0x00, cpu.registers.prg_regs[0xF]);
    cpu.step().unwrap();
    for x in 0..8 {
        assert!(!cpu.read_pixel(x, 0));
    }
    assert_eq!(0x01, cpu.registers.prg_regs[0xF]);
}

#[test]
fn test_cls_clears_screen() {
    // A drawn pixel disappears after CLS.
    let mut cpu = prepare_cpu(vec![0xA2, 0x06, 0xD0, 0x11, 0x00, 0xE0, 0x80]);
    cpu.step().unwrap();
    cpu.step().unwrap();
    assert!(cpu.read_pixel(0, 0));
    cpu.step().unwrap();
    assert!(!cpu.read_pixel(0, 0));
}

#[test]
fn test_bcd_digits() {
    // LD B, V7 with V7 = 234 stores 2, 3, 4 at the index register.
    let mut cpu = prepare_cpu(vec![0xA3, 0x00, 0xF7, 0x33]);
    cpu.registers.prg_regs[0x7] = 234;
    cpu.step().unwrap();
    cpu.step().unwrap();
    assert_eq!(2, cpu.memory.read(0x300));
    assert_eq!(3, cpu.memory.read(0x301));
    assert_eq!(4, cpu.memory.read(0x302));
}

#[test]
fn test_store_and_load_registers() {
    // LD [I], V2 stores V0..=V2; LD V4, [I] reads five bytes back.
    let mut cpu = prepare_cpu(vec![0xA3, 0x00, 0xF2, 0x55, 0xF4, 0x65]);
    cpu.registers.prg_regs[0x0] = 0x11;
    cpu.registers.prg_regs[0x1] = 0x22;
    cpu.registers.prg_regs[0x2] = 0x33;
    cpu.step().unwrap();
    cpu.step().unwrap();
    assert_eq!(0x11, cpu.memory.read(0x300));
    assert_eq!(0x22, cpu.memory.read(0x301));
    assert_eq!(0x33, cpu.memory.read(0x302));
    cpu.memory.write(0x303, 0x44);
    cpu.memory.write(0x304, 0x55);
    cpu.step().unwrap();
    assert_eq!(0x44, cpu.registers.prg_regs[0x3]);
    assert_eq!(0x55, cpu.registers.prg_regs[0x4]);
    assert_eq!(0x33, cpu.registers.prg_regs[0x2]);
}

#[test]
fn test_font_address() {
    // LD F, V7 points the index register at the five-byte glyph for the
    // digit in V7.
    let mut cpu = prepare_cpu(vec![0xF7, 0x29]);
    cpu.registers.prg_regs[0x7] = 0x3;
    cpu.step().unwrap();
    assert_eq!(15, cpu.registers.i);
}

#[test]
fn test_add_to_index_wraps() {
    // ADD I, V0 wraps at twelve bits.
    let mut cpu = prepare_cpu(vec![0xAF, 0xFF, 0xF0, 0x1E]);
    cpu.registers.prg_regs[0x0] = 0x02;
    cpu.step().unwrap();
    assert_eq!(0xFFF, cpu.registers.i);
    cpu.step().unwrap();
    assert_eq!(0x001, cpu.registers.i);
}

#[test]
fn test_timers() {
    // LD V3, DT reads the delay timer; LD DT, V4 and LD ST, V4 set the
    // timers from a register.
    let mut cpu = prepare_cpu(vec![0xF3, 0x07, 0xF4, 0x15, 0xF4, 0x18]);
    cpu.set_delay_timer(9);
    cpu.registers.prg_regs[0x4] = 7;
    cpu.step().unwrap();
    assert_eq!(9, cpu.registers.prg_regs[0x3]);
    cpu.step().unwrap();
    assert_eq!(7, cpu.get_delay_timer());
    cpu.step().unwrap();
    assert_eq!(7, cpu.get_sound_timer());
    cpu.set_sound_timer(0);
    assert_eq!(0, cpu.get_sound_timer());
}

#[test]
fn test_memory_zeroed_and_loaded_at_offset() {
    // A new memory is zeroed; a program lands verbatim at 0x200.
    let mut mem = Memory::new();
    assert_eq!(0, mem.read(0));
    assert_eq!(0, mem.read(0x200));
    assert_eq!(0, mem.read(4095));
    mem.load_program(&vec![0xDE, 0xAD]);
    assert_eq!(0xDE, mem.read(0x200));
    assert_eq!(0xAD, mem.read(0x201));
    assert_eq!(0, mem.read(0x1FF));
    assert_eq!(0, mem.read(0x202));
}

#[test]
fn test_fetch_and_registers() {
    // The fetched word is the two bytes at the program counter; register
    // reads see register writes.
    let mut cpu = prepare_cpu(vec![0x8A, 0xB1]);
    assert_eq!(0x8AB1, cpu.fetch_current_instruction());
    cpu.write_register(0xC, 0x42);
    assert_eq!(0x42, cpu.read_register(0xC));
    assert_eq!(0xA, CPU::get_x_reg(0x0AB0));
    assert_eq!(0xB, CPU::get_y_reg(0x0AB0));
}
