//! The executor: the register file, call stack, screen and key state, and
//! the fetch -> decode -> advance -> execute cycle with its per-instruction
//! state-transition semantics.

use vstd::prelude::*;

use crate::instructions::{Instruction, decode_spec};
use crate::memory::{Memory, MEM_SIZE, PROGRAM_LOAD_OFFSET};

verus! {

/// Number of general-purpose registers.
pub const NUM_REGISTERS: usize = 16;

/// Capacity of the call stack.
pub const STACK_SIZE: usize = 16;

/// Screen width in pixels.
pub const SCREEN_WIDTH: usize = 64;

/// Screen height in pixels.
pub const SCREEN_HEIGHT: usize = 32;

/// Number of pixels on the screen.
pub const SCREEN_PIXELS: usize = 2048;

/// Number of keys on the keypad.
pub const NUM_KEYS: usize = 16;

/// The register file: sixteen general-purpose byte registers (register 0xF
/// doubles as the carry/borrow/collision flag), the 16-bit index register,
/// the delay and sound timers, the program counter, and the stack pointer.
#[derive(Debug)]
pub struct Registers {
    pub prg_regs: Vec<u8>,
    pub dt: u8,
    pub st: u8,
    pub i: u16,
    pub pc: u16,
    pub sp: usize,
}

/// The machine: memory, call stack, register file, screen, and key state.
/// The CPU is the sole owner and mutator of all of them.
#[derive(Debug)]
pub struct CPU {
    pub memory: Memory,
    pub stack: Vec<u16>,
    pub registers: Registers,
    pub screen: Vec<bool>,
    pub keys: Vec<bool>,
}

/// The mathematical state of the machine, used by every contract.
#[verifier::ext_equal]
pub ghost struct CpuView {
    pub mem: Seq<u8>,
    pub regs: Seq<u8>,
    pub stack: Seq<u16>,
    pub sp: int,
    pub pc: u16,
    pub i: u16,
    pub dt: u8,
    pub st: u8,
    pub screen: Seq<bool>,
    pub keys: Seq<bool>,
}

impl View for CPU {
    type V = CpuView;

    open spec fn view(&self) -> CpuView {
        CpuView {
            mem: self.memory@,
            regs: self.registers.prg_regs@,
            stack: self.stack@,
            sp: self.registers.sp as int,
            pc: self.registers.pc,
            i: self.registers.i,
            dt: self.registers.dt,
            st: self.registers.st,
            screen: self.screen@,
            keys: self.keys@,
        }
    }
}

impl CpuView {
    /// The machine's invariant: fixed sizes for memory, registers, stack,
    /// screen and keypad; the stack pointer within 0..=16; the index
    /// register a valid address.
    pub open spec fn wf(self) -> bool {
        &&& self.mem.len() == MEM_SIZE
        &&& self.regs.len() == NUM_REGISTERS
        &&& self.stack.len() == STACK_SIZE
        &&& 0 <= self.sp <= STACK_SIZE
        &&& self.i < MEM_SIZE
        &&& self.screen.len() == SCREEN_PIXELS
        &&& self.keys.len() == NUM_KEYS
    }
}

/// The outcome of a step that did not fault.
#[derive(Debug, Copy, Clone, Eq, PartialEq, Structural)]
pub enum StepOutcome {
    /// The instruction ran to completion.
    Executed,
    /// A wait-for-key instruction found no key down; the program counter
    /// was left at that instruction so the caller can poll and step again.
    WaitingForKey,
    /// The opcode matched no pattern; the machine state is unchanged apart
    /// from the program counter having advanced past the word.
    InvalidOpcode,
}

/// The fault taxonomy: every fault aborts the running program.
#[derive(Debug, Copy, Clone, Eq, PartialEq, Structural)]
pub enum FaultKind {
    /// A memory access outside the address space.
    AddressFault,
    /// A push on a full call stack, or a pop from an empty one.
    StackFault,
    /// A SYS instruction: raw machine-code execution is unsupported.
    UnsupportedOpcode,
}

/// A fault, reported with the program counter of the failing instruction
/// and the opcode word (0 when the word itself could not be fetched).
#[derive(Debug, Copy, Clone, Eq, PartialEq, Structural)]
pub struct Fault {
    pub kind: FaultKind,
    pub pc: u16,
    pub opcode: u16,
}

/// Destination register: bits 8-11 of the payload.
pub open spec fn x_field(payload: u16) -> int {
    ((payload >> 8) & 0xF) as int
}

/// Source register: bits 4-7 of the payload.
pub open spec fn y_field(payload: u16) -> int {
    ((payload >> 4) & 0xF) as int
}

/// Size nibble: bits 0-3 of the payload.
pub open spec fn nib_field(payload: u16) -> int {
    (payload & 0xF) as int
}

/// Immediate byte: bits 0-7 of the payload.
pub open spec fn byte_field(payload: u16) -> u8 {
    (payload & 0xFF) as u8
}

/// Address: bits 0-11 of the payload.
pub open spec fn addr_field(payload: u16) -> u16 {
    payload & 0xFFF
}

/// Addition modulo 256.
pub open spec fn wrap_add_u8(a: u8, b: u8) -> u8 {
    ((a + b) % 256) as u8
}

/// Subtraction modulo 256.
pub open spec fn wrap_sub_u8(a: u8, b: u8) -> u8 {
    ((a - b + 256) % 256) as u8
}

/// Addition modulo 2^16.
pub open spec fn wrap_add_u16(a: u16, b: u16) -> u16 {
    ((a + b) % 0x10000) as u16
}

/// Subtraction modulo 2^16.
pub open spec fn wrap_sub_u16(a: u16, b: u16) -> u16 {
    ((a - b + 0x10000) % 0x10000) as u16
}

/// The opcode word at the program counter: two bytes, big-endian.
pub open spec fn fetched(s: CpuView) -> u16 {
    (s.mem[s.pc as int] * 256 + s.mem[s.pc as int + 1]) as u16
}

/// A machine state with the program counter moved two bytes ahead, as it is
/// after a fetch and before the instruction takes effect; skip instructions
/// move it two further.
pub open spec fn skip_next(s: CpuView) -> CpuView {
    CpuView { pc: wrap_add_u16(s.pc, 2), ..s }
}

/// An all-blank screen.
pub open spec fn blank_screen() -> Seq<bool> {
    Seq::new(SCREEN_PIXELS as nat, |j: int| false)
}

/// The registers with the flag register set and then a result stored: the
/// flag is written first, so a result destined for register 0xF wins.
pub open spec fn regs_with_flag_and_result(regs: Seq<u8>, flag: u8, x: int, v: u8) -> Seq<u8> {
    regs.update(15, flag).update(x, v)
}

/// Whether pixel `k` (0 = leftmost) of a sprite row byte is set.
pub open spec fn sprite_bit(byte: u8, k: int) -> bool {
    byte >> (7 - k) as u8 & 1 == 1
}

/// XOR one sprite row byte into the screen, pixel by pixel from bit `k` on,
/// accumulating whether any lit pixel was erased. `yl` is the wrapped
/// screen row; columns wrap at the right edge.
pub open spec fn draw_row(
    screen: Seq<bool>,
    col: bool,
    byte: u8,
    vx: u8,
    yl: int,
    k: int,
) -> (Seq<bool>, bool)
    decreases 8 - k,
{
    if k < 0 || k >= 8 {
        (screen, col)
    } else if sprite_bit(byte, k) {
        let idx = yl * 64 + ((vx + k) % 64);
        draw_row(screen.update(idx, !screen[idx]), col || screen[idx], byte, vx, yl, k + 1)
    } else {
        draw_row(screen, col, byte, vx, yl, k + 1)
    }
}

/// XOR an `n`-row sprite read from memory at `i` into the screen at
/// coordinates (`vx`, `vy`), row by row from `row` on, accumulating the
/// collision flag. Coordinates wrap around the screen edges.
pub open spec fn draw_sprite(
    screen: Seq<bool>,
    col: bool,
    mem: Seq<u8>,
    i: int,
    vx: u8,
    vy: u8,
    row: int,
    n: int,
) -> (Seq<bool>, bool)
    decreases n - row,
{
    if row < 0 || row >= n {
        (screen, col)
    } else {
        let r = draw_row(screen, col, mem[i + row], vx, (vy + row) % 32, 0);
        draw_sprite(r.0, r.1, mem, i, vx, vy, row + 1, n)
    }
}

/// The index of the lowest pressed key at or above `k`, or 16 if none is.
pub open spec fn first_pressed_from(keys: Seq<bool>, k: int) -> int
    decreases 16 - k,
{
    if k < 0 || k >= 16 {
        16
    } else if keys[k] {
        k
    } else {
        first_pressed_from(keys, k + 1)
    }
}

/// The memory after registers 0..=x are stored starting at address `i`.
pub open spec fn mem_with_regs(mem: Seq<u8>, regs: Seq<u8>, i: int, x: int) -> Seq<u8> {
    Seq::new(MEM_SIZE as nat, |j: int| if i <= j <= i + x {
        regs[j - i]
    } else {
        mem[j]
    })
}

/// The registers after 0..=x are loaded from memory starting at `i`.
pub open spec fn regs_from_mem(regs: Seq<u8>, mem: Seq<u8>, i: int, x: int) -> Seq<u8> {
    Seq::new(NUM_REGISTERS as nat, |k: int| if 0 <= k <= x {
        mem[i + k]
    } else {
        regs[k]
    })
}

/// The per-instruction state-transition semantics: what executing `instr`
/// with operand `payload` does to a machine state `s` whose program counter
/// has already advanced past the instruction. `rnd` is the byte the random
/// source produced, consulted only by RND.
pub open spec fn exec_model(s: CpuView, instr: Instruction, payload: u16, rnd: u8) -> (
    CpuView,
    Result<StepOutcome, FaultKind>,
) {
    let x = x_field(payload);
    let y = y_field(payload);
    let vx = s.regs[x];
    let vy = s.regs[y];
    let bt = byte_field(payload);
    let addr = addr_field(payload);
    match instr {
        Instruction::CLS => (
            CpuView { screen: blank_screen(), ..s },
            Ok(StepOutcome::Executed),
        ),
        Instruction::RET => if s.sp == 0 {
            (s, Err(FaultKind::StackFault))
        } else {
            (CpuView { pc: s.stack[s.sp - 1], sp: s.sp - 1, ..s }, Ok(StepOutcome::Executed))
        },
        Instruction::SYS => (s, Err(FaultKind::UnsupportedOpcode)),
        Instruction::JP => (CpuView { pc: addr, ..s }, Ok(StepOutcome::Executed)),
        Instruction::CALL => if s.sp == STACK_SIZE {
            (s, Err(FaultKind::StackFault))
        } else {
            (
                CpuView { stack: s.stack.update(s.sp, s.pc), sp: s.sp + 1, pc: addr, ..s },
                Ok(StepOutcome::Executed),
            )
        },
        Instruction::SE_VX_BT => (
            if vx == bt { skip_next(s) } else { s },
            Ok(StepOutcome::Executed),
        ),
        Instruction::SNE_VX_BT => (
            if vx != bt { skip_next(s) } else { s },
            Ok(StepOutcome::Executed),
        ),
        Instruction::SE_VX_VY => (
            if vx == vy { skip_next(s) } else { s },
            Ok(StepOutcome::Executed),
        ),
        Instruction::LD_VX_BT => (
            CpuView { regs: s.regs.update(x, bt), ..s },
            Ok(StepOutcome::Executed),
        ),
        Instruction::ADD_VX_BT => (
            CpuView { regs: s.regs.update(x, wrap_add_u8(vx, bt)), ..s },
            Ok(StepOutcome::Executed),
        ),
        Instruction::LD_VX_VY => (
            CpuView { regs: s.regs.update(x, vy), ..s },
            Ok(StepOutcome::Executed),
        ),
        Instruction::OR_VX_VY => (
            CpuView { regs: s.regs.update(x, vx | vy), ..s },
            Ok(StepOutcome::Executed),
        ),
        Instruction::AND_VX_VY => (
            CpuView { regs: s.regs.update(x, vx & vy), ..s },
            Ok(StepOutcome::Executed),
        ),
        Instruction::XOR_VX_VY => (
            CpuView { regs: s.regs.update(x, vx ^ vy), ..s },
            Ok(StepOutcome::Executed),
        ),
        Instruction::ADD_VX_VY => (
            CpuView {
                regs: regs_with_flag_and_result(
                    s.regs,
                    if vx + vy > 255 { 1 } else { 0 },
                    x,
                    wrap_add_u8(vx, vy),
                ),
                ..s
            },
            Ok(StepOutcome::Executed),
        ),
        Instruction::SUB_VX_VY => (
            CpuView {
                regs: regs_with_flag_and_result(
                    s.regs,
                    if vx > vy { 1 } else { 0 },
                    x,
                    wrap_sub_u8(vx, vy),
                ),
                ..s
            },
            Ok(StepOutcome::Executed),
        ),
        Instruction::SHR_VX_VY => (
            CpuView {
                regs: regs_with_flag_and_result(s.regs, (vx % 2) as u8, x, vx / 2),
                ..s
            },
            Ok(StepOutcome::Executed),
        ),
        Instruction::SUBN_VX_VY => (
            CpuView {
                regs: regs_with_flag_and_result(
                    s.regs,
                    if vy > vx { 1 } else { 0 },
                    x,
                    wrap_sub_u8(vy, vx),
                ),
                ..s
            },
            Ok(StepOutcome::Executed),
        ),
        Instruction::SHL_VX_VY => (
            CpuView {
                regs: regs_with_flag_and_result(
                    s.regs,
                    if vx >= 0x80 { 1 } else { 0 },
                    x,
                    wrap_add_u8(vx, vx),
                ),
                ..s
            },
            Ok(StepOutcome::Executed),
        ),
        Instruction::SNE_VX_VY => (
            if vx != vy { skip_next(s) } else { s },
            Ok(StepOutcome::Executed),
        ),
        Instruction::LD_I_ADDR => (
            CpuView { i: addr, ..s },
            Ok(StepOutcome::Executed),
        ),
        Instruction::JP_V0_ADDR => (
            CpuView { pc: wrap_add_u16(addr, s.regs[0] as u16), ..s },
            Ok(StepOutcome::Executed),
        ),
        Instruction::RND_VX_BT => (
            CpuView { regs: s.regs.update(x, rnd & bt), ..s },
            Ok(StepOutcome::Executed),
        ),
        Instruction::DRW_VX_VY_NIB => if s.i + nib_field(payload) > MEM_SIZE {
            (s, Err(FaultKind::AddressFault))
        } else {
            let r = draw_sprite(s.screen, false, s.mem, s.i as int, vx, vy, 0, nib_field(payload));
            (
                CpuView {
                    screen: r.0,
                    regs: s.regs.update(15, if r.1 { 1u8 } else { 0u8 }),
                    ..s
                },
                Ok(StepOutcome::Executed),
            )
        },
        Instruction::SKP_VX => (
            if s.keys[vx as int % 16] { skip_next(s) } else { s },
            Ok(StepOutcome::Executed),
        ),
        Instruction::SKNP_VX => (
            if !s.keys[vx as int % 16] { skip_next(s) } else { s },
            Ok(StepOutcome::Executed),
        ),
        Instruction::LD_VX_DT => (
            CpuView { regs: s.regs.update(x, s.dt), ..s },
            Ok(StepOutcome::Executed),
        ),
        Instruction::LD_VX_K => if first_pressed_from(s.keys, 0) < 16 {
            (
                CpuView { regs: s.regs.update(x, first_pressed_from(s.keys, 0) as u8), ..s },
                Ok(StepOutcome::Executed),
            )
        } else {
            (CpuView { pc: wrap_sub_u16(s.pc, 2), ..s }, Ok(StepOutcome::WaitingForKey))
        },
        Instruction::LD_DT_VX => (
            CpuView { dt: vx, ..s },
            Ok(StepOutcome::Executed),
        ),
        Instruction::LD_ST_VX => (
            CpuView { st: vx, ..s },
            Ok(StepOutcome::Executed),
        ),
        Instruction::ADD_I_VX => (
            CpuView { i: ((s.i + vx) % 4096) as u16, ..s },
            Ok(StepOutcome::Executed),
        ),
        Instruction::LD_F_VX => (
            CpuView { i: (vx * 5) as u16, ..s },
            Ok(StepOutcome::Executed),
        ),
        Instruction::LD_B_VX => if s.i + 3 > MEM_SIZE {
            (s, Err(FaultKind::AddressFault))
        } else {
            (
                CpuView {
                    mem: s.mem
                        .update(s.i as int, vx / 100)
                        .update(s.i as int + 1, (vx / 10) % 10)
                        .update(s.i as int + 2, vx % 10),
                    ..s
                },
                Ok(StepOutcome::Executed),
            )
        },
        Instruction::LD_I_VX => if s.i + x + 1 > MEM_SIZE {
            (s, Err(FaultKind::AddressFault))
        } else {
            (
                CpuView { mem: mem_with_regs(s.mem, s.regs, s.i as int, x), ..s },
                Ok(StepOutcome::Executed),
            )
        },
        Instruction::LD_VX_I => if s.i + x + 1 > MEM_SIZE {
            (s, Err(FaultKind::AddressFault))
        } else {
            (
                CpuView { regs: regs_from_mem(s.regs, s.mem, s.i as int, x), ..s },
                Ok(StepOutcome::Executed),
            )
        },
        Instruction::INVALID => (s, Ok(StepOutcome::InvalidOpcode)),
    }
}

/// One full cycle on machine state `s`: fetch the word at the program
/// counter (an address fault if it is not wholly in memory), decode it,
/// advance the program counter past it, and execute. A fault is reported
/// with the program counter and opcode of the failing instruction.
pub open spec fn step_model(s: CpuView, rnd: u8) -> (CpuView, Result<StepOutcome, Fault>) {
    if s.pc + 1 >= MEM_SIZE {
        (s, Err(Fault { kind: FaultKind::AddressFault, pc: s.pc, opcode: 0 }))
    } else {
        let op = fetched(s);
        let d = decode_spec(op);
        let advanced = CpuView { pc: (s.pc + 2) as u16, ..s };
        let r = exec_model(advanced, d.0, d.1, rnd);
        (
            r.0,
            match r.1 {
                Ok(o) => Ok(o),
                Err(k) => Err(Fault { kind: k, pc: s.pc, opcode: op }),
            },
        )
    }
}

/// The state of a machine as it comes out of the constructor: the given
/// memory, everything else zeroed, the program counter at the load offset.
pub open spec fn initial_view(mem: Seq<u8>) -> CpuView {
    CpuView {
        mem: mem,
        regs: Seq::new(NUM_REGISTERS as nat, |j: int| 0u8),
        stack: Seq::new(STACK_SIZE as nat, |j: int| 0u16),
        sp: 0,
        pc: PROGRAM_LOAD_OFFSET as u16,
        i: 0,
        dt: 0,
        st: 0,
        screen: blank_screen(),
        keys: Seq::new(NUM_KEYS as nat, |j: int| false),
    }
}

/// Operand fields fit their widths.
proof fn lemma_fields_bounded(p: u16)
    by (bit_vector)
    ensures
        (p >> 8) & 0xF < 16,
        (p >> 4) & 0xF < 16,
        p & 0xF < 16,
        p & 0xFF < 256,
        p & 0xFFF < 4096,
{
}

/// Extracting a register field from a 32-bit word reads only its low 16
/// bits.
proof fn lemma_xy_u32(v: u32)
    by (bit_vector)
    ensures
        v >> 8 & 0xF == (((v as u16) >> 8) & 0xF) as u32,
        v >> 4 & 0xF == (((v as u16) >> 4) & 0xF) as u32,
{
}

fn zeroed_u8_vec(n: usize) -> (v: Vec<u8>)
    ensures
        v@ =~= Seq::new(n as nat, |j: int| 0u8),
{
    let mut v: Vec<u8> = Vec::new();
    let mut k: usize = 0;
    while k < n
        invariant
            k <= n,
            v@.len() == k,
            forall|j: int| 0 <= j < k ==> v@[j] == 0u8,
        decreases n - k,
    {
        v.push(0);
        k = k + 1;
    }
    v
}

fn zeroed_u16_vec(n: usize) -> (v: Vec<u16>)
    ensures
        v@ =~= Seq::new(n as nat, |j: int| 0u16),
{
    let mut v: Vec<u16> = Vec::new();
    let mut k: usize = 0;
    while k < n
        invariant
            k <= n,
            v@.len() == k,
            forall|j: int| 0 <= j < k ==> v@[j] == 0u16,
        decreases n - k,
    {
        v.push(0);
        k = k + 1;
    }
    v
}

fn false_vec(n: usize) -> (v: Vec<bool>)
    ensures
        v@ =~= Seq::new(n as nat, |j: int| false),
{
    let mut v: Vec<bool> = Vec::new();
    let mut k: usize = 0;
    while k < n
        invariant
            k <= n,
            v@.len() == k,
            forall|j: int| 0 <= j < k ==> !v@[j],
        decreases n - k,
    {
        v.push(false);
        k = k + 1;
    }
    v
}

/// Relies on rand::random for a byte drawn from the thread-local generator.
/// The draw is meant to be uniform over 0-255; nothing can be promised of
/// any single value.
#[verifier::external_body]
fn random_byte() -> (r: u8) {
    rand::random::<u8>()
}

impl CPU {
    /// The machine invariant, stated over the view.
    pub open spec fn wf(&self) -> bool {
        self@.wf()
    }

    /// Build a machine around the given memory: registers, timers, stack,
    /// screen and keys zeroed, the program counter at the program load
    /// offset.
    pub fn new(memory: Memory) -> (c: CPU)
        requires
            memory.wf(),
        ensures
            c.wf(),
            c@ == initial_view(memory@),
    {
        let c = CPU {
            memory,
            stack: zeroed_u16_vec(STACK_SIZE),
            registers: Registers {
                prg_regs: zeroed_u8_vec(NUM_REGISTERS),
                dt: 0x0,
                st: 0x0,
                i: 0x0,
                pc: PROGRAM_LOAD_OFFSET as u16,
                sp: 0x0,
            },
            screen: false_vec(SCREEN_PIXELS),
            keys: false_vec(NUM_KEYS),
        };
        proof {
            assert(c@ =~~= initial_view(c.memory@));
        }
        c
    }

    /// The big-endian opcode word at the program counter.
    pub fn fetch_current_instruction(&self) -> (r: u32)
        requires
            self.wf(),
            self@.pc + 1 < MEM_SIZE,
        ensures
            r == fetched(self@),
            r < 0x10000,
    {
        let pc = self.registers.pc as usize;
        (self.memory.read(pc) as u32) * 256 + (self.memory.read(pc + 1) as u32)
    }

    /// The most recently pushed return address.
    pub fn get_top_of_stack(&self) -> (r: u16)
        requires
            self.wf(),
            self@.sp >= 1,
        ensures
            r == self@.stack[self@.sp - 1],
    {
        self.stack[self.registers.sp - 1]
    }

    /// Store `value` in general-purpose register `register`.
    pub fn write_register(&mut self, register: u32, value: u8)
        requires
            old(self).wf(),
            register < NUM_REGISTERS,
        ensures
            final(self).wf(),
            final(self)@ == (CpuView { regs: old(self)@.regs.update(register as int, value), ..old(self)@ }),
    {
        self.registers.prg_regs.set(register as usize, value);
    }

    /// Read general-purpose register `register`.
    pub fn read_register(&self, register: u32) -> (r: u8)
        requires
            self.wf(),
            register < NUM_REGISTERS,
        ensures
            r == self@.regs[register as int],
    {
        self.registers.prg_regs[register as usize]
    }

    /// The destination-register field of an operand payload: bits 8-11.
    pub fn get_x_reg(value: u32) -> (r: u32)
        ensures
            r == x_field(value as u16),
            r < 16,
    {
        proof {
            lemma_xy_u32(value);
            lemma_fields_bounded(value as u16);
        }
        value >> 8 & 0x000F
    }

    /// The source-register field of an operand payload: bits 4-7.
    pub fn get_y_reg(value: u32) -> (r: u32)
        ensures
            r == y_field(value as u16),
            r < 16,
    {
        proof {
            lemma_xy_u32(value);
            lemma_fields_bounded(value as u16);
        }
        value >> 4 & 0x000F
    }

    /// Blank every pixel of the screen.
    fn clear_screen(&mut self)
        requires
            old(self).wf(),
        ensures
            final(self).wf(),
            final(self)@ == (CpuView { screen: blank_screen(), ..old(self)@ }),
    {
        let mut k: usize = 0;
        while k < SCREEN_PIXELS
            invariant
                self.wf(),
                k <= SCREEN_PIXELS,
                forall|j: int| 0 <= j < k ==> !self@.screen[j],
                self@ == (CpuView { screen: self@.screen, ..old(self)@ }),
            decreases SCREEN_PIXELS - k,
        {
            self.screen.set(k, false);
            k = k + 1;
        }
        proof {
            assert(self@.screen =~= blank_screen());
            assert(self@ =~~= (CpuView { screen: blank_screen(), ..old(self)@ }));
        }
    }

    /// XOR an `n`-row sprite read from memory at the index register into
    /// the screen at (`vx`, `vy`), and report whether any lit pixel was
    /// erased.
    fn blit(&mut self, vx: u8, vy: u8, n: usize) -> (col: bool)
        requires
            old(self).wf(),
            n <= 16,
            old(self)@.i + n <= MEM_SIZE,
        ensures
            final(self).wf(),
            ({
                let r = draw_sprite(
                    old(self)@.screen,
                    false,
                    old(self)@.mem,
                    old(self)@.i as int,
                    vx,
                    vy,
                    0,
                    n as int,
                );
                final(self)@ == (CpuView { screen: r.0, ..old(self)@ }) && col == r.1
            }),
    {
        let i0 = self.registers.i as usize;
        let mut col = false;
        let mut row: usize = 0;
        while row < n
            invariant
                self.wf(),
                row <= n,
                n <= 16,
                i0 == old(self)@.i,
                i0 + n <= MEM_SIZE,
                self@ == (CpuView { screen: self@.screen, ..old(self)@ }),
                draw_sprite(
                    old(self)@.screen,
                    false,
                    old(self)@.mem,
                    i0 as int,
                    vx,
                    vy,
                    0,
                    n as int,
                ) == draw_sprite(
                    self@.screen,
                    col,
                    old(self)@.mem,
                    i0 as int,
                    vx,
                    vy,
                    row as int,
                    n as int,
                ),
            decreases n - row,
        {
            let byte = self.memory.read(i0 + row);
            let yl: usize = (vy as usize + row) % 32;
            let ghost row_screen = self@.screen;
            let ghost row_col = col;
            let mut k: usize = 0;
            while k < 8
                invariant
                    self.wf(),
                    k <= 8,
                    yl < 32,
                    self@ == (CpuView { screen: self@.screen, ..old(self)@ }),
                    draw_row(row_screen, row_col, byte, vx, yl as int, 0) == draw_row(
                        self@.screen,
                        col,
                        byte,
                        vx,
                        yl as int,
                        k as int,
                    ),
                decreases 8 - k,
            {
                if (byte >> (7 - k) as u8) & 1 == 1 {
                    let idx: usize = yl * 64 + ((vx as usize + k) % 64);
                    let px = self.screen[idx];
                    self.screen.set(idx, !px);
                    col = col || px;
                }
                k = k + 1;
            }
            row = row + 1;
        }
        col
    }

    /// The lowest-numbered key currently down, if any.
    fn first_pressed_key(&self) -> (r: Option<u8>)
        requires
            self.wf(),
        ensures
            match r {
                Some(k) => k < 16 && first_pressed_from(self@.keys, 0) == k as int,
                None => first_pressed_from(self@.keys, 0) == 16,
            },
    {
        let mut k: usize = 0;
        while k < NUM_KEYS
            invariant
                self.wf(),
                k <= NUM_KEYS,
                first_pressed_from(self@.keys, 0) == first_pressed_from(self@.keys, k as int),
            decreases NUM_KEYS - k,
        {
            if self.keys[k] {
                return Some(k as u8);
            }
            k = k + 1;
        }
        None
    }

    /// Store registers 0..=x into memory starting at the index register.
    fn store_registers(&mut self, x: usize)
        requires
            old(self).wf(),
            x < NUM_REGISTERS,
            old(self)@.i + x + 1 <= MEM_SIZE,
        ensures
            final(self).wf(),
            final(self)@ == (CpuView {
                mem: mem_with_regs(old(self)@.mem, old(self)@.regs, old(self)@.i as int, x as int),
                ..old(self)@
            }),
    {
        let i0 = self.registers.i as usize;
        let mut k: usize = 0;
        while k <= x
            invariant
                self.wf(),
                k <= x + 1,
                x < NUM_REGISTERS,
                i0 == old(self)@.i,
                i0 + x + 1 <= MEM_SIZE,
                self@ == (CpuView { mem: self@.mem, ..old(self)@ }),
                forall|j: int| 0 <= j < MEM_SIZE && !(i0 <= j < i0 + k) ==> self@.mem[j]
                    == old(self)@.mem[j],
                forall|j: int| i0 <= j < i0 + k ==> self@.mem[j] == old(self)@.regs[j - i0],
            decreases x + 1 - k,
        {
            let b = self.registers.prg_regs[k];
            self.memory.write(i0 + k, b);
            k = k + 1;
        }
        proof {
            assert(self@.mem =~= mem_with_regs(
                old(self)@.mem,
                old(self)@.regs,
                old(self)@.i as int,
                x as int,
            ));
            assert(self@ =~~= (CpuView {
                mem: mem_with_regs(old(self)@.mem, old(self)@.regs, old(self)@.i as int, x as int),
                ..old(self)@
            }));
        }
    }

    /// Load registers 0..=x from memory starting at the index register.
    fn load_registers(&mut self, x: usize)
        requires
            old(self).wf(),
            x < NUM_REGISTERS,
            old(self)@.i + x + 1 <= MEM_SIZE,
        ensures
            final(self).wf(),
            final(self)@ == (CpuView {
                regs: regs_from_mem(old(self)@.regs, old(self)@.mem, old(self)@.i as int, x as int),
                ..old(self)@
            }),
    {
        let i0 = self.registers.i as usize;
        let mut k: usize = 0;
        while k <= x
            invariant
                self.wf(),
                k <= x + 1,
                x < NUM_REGISTERS,
                i0 == old(self)@.i,
                i0 + x + 1 <= MEM_SIZE,
                self@ == (CpuView { regs: self@.regs, ..old(self)@ }),
                forall|j: int| 0 <= j < NUM_REGISTERS && !(j < k) ==> self@.regs[j]
                    == old(self)@.regs[j],
                forall|j: int| 0 <= j < k ==> self@.regs[j] == old(self)@.mem[i0 + j],
            decreases x + 1 - k,
        {
            let b = self.memory.read(i0 + k);
            self.registers.prg_regs.set(k, b);
            k = k + 1;
        }
        proof {
            assert(self@.regs =~= regs_from_mem(
                old(self)@.regs,
                old(self)@.mem,
                old(self)@.i as int,
                x as int,
            ));
            assert(self@ =~~= (CpuView {
                regs: regs_from_mem(old(self)@.regs, old(self)@.mem, old(self)@.i as int, x as int),
                ..old(self)@
            }));
        }
    }

    /// Move the program counter two bytes ahead, wrapping: the effect of a
    /// skip instruction whose condition held.
    fn advance_past_next(&mut self)
        requires
            old(self).wf(),
        ensures
            final(self).wf(),
            final(self)@ == skip_next(old(self)@),
    {
        let pc = self.registers.pc;
        self.registers.pc = ((pc as u32 + 2) % 0x10000) as u16;
    }

    /// Execute one decoded instruction against the machine state, whose
    /// program counter has already advanced past it. The result and the
    /// state change are exactly `exec_model`'s, for the byte the random
    /// source produced; every instruction but RND ignores that byte.
    pub fn execute(&mut self, instruction: Instruction, payload: u32) -> (r: Result<
        StepOutcome,
        FaultKind,
    >)
        requires
            old(self).wf(),
        ensures
            final(self).wf(),
            exists|b: u8| (final(self)@, r) == #[trigger] exec_model(old(self)@, instruction, payload as u16, b),
            instruction != Instruction::RND_VX_BT ==> (final(self)@, r) == exec_model(
                old(self)@,
                instruction,
                payload as u16,
                0,
            ),
    {
        let p16 = payload as u16;
        proof {
            lemma_fields_bounded(p16);
        }
        let x = ((p16 >> 8) & 0xF) as usize;
        let y = ((p16 >> 4) & 0xF) as usize;
        let bt = (p16 & 0xFF) as u8;
        let addr = p16 & 0xFFF;
        let nib = (p16 & 0xF) as usize;
        let r: Result<StepOutcome, FaultKind> = match instruction {
            Instruction::CLS => {
                self.clear_screen();
                Ok(StepOutcome::Executed)
            },
            Instruction::RET => {
                let sp = self.registers.sp;
                if sp == 0 {
                    Err(FaultKind::StackFault)
                } else {
                    self.registers.sp = sp - 1;
                    self.registers.pc = self.stack[sp - 1];
                    Ok(StepOutcome::Executed)
                }
            },
            Instruction::SYS => Err(FaultKind::UnsupportedOpcode),
            Instruction::JP => {
                self.registers.pc = addr;
                Ok(StepOutcome::Executed)
            },
            Instruction::CALL => {
                let sp = self.registers.sp;
                if sp == STACK_SIZE {
                    Err(FaultKind::StackFault)
                } else {
                    let pc = self.registers.pc;
                    self.stack.set(sp, pc);
                    self.registers.sp = sp + 1;
                    self.registers.pc = addr;
                    Ok(StepOutcome::Executed)
                }
            },
            Instruction::SE_VX_BT => {
                if self.registers.prg_regs[x] == bt {
                    self.advance_past_next();
                }
                Ok(StepOutcome::Executed)
            },
            Instruction::SNE_VX_BT => {
                if self.registers.prg_regs[x] != bt {
                    self.advance_past_next();
                }
                Ok(StepOutcome::Executed)
            },
            Instruction::SE_VX_VY => {
                if self.registers.prg_regs[x] == self.registers.prg_regs[y] {
                    self.advance_past_next();
                }
                Ok(StepOutcome::Executed)
            },
            Instruction::LD_VX_BT => {
                self.registers.prg_regs.set(x, bt);
                Ok(StepOutcome::Executed)
            },
            Instruction::ADD_VX_BT => {
                let vx = self.registers.prg_regs[x];
                self.registers.prg_regs.set(x, ((vx as u16 + bt as u16) % 256) as u8);
                Ok(StepOutcome::Executed)
            },
            Instruction::LD_VX_VY => {
                let vy = self.registers.prg_regs[y];
                self.registers.prg_regs.set(x, vy);
                Ok(StepOutcome::Executed)
            },
            Instruction::OR_VX_VY => {
                let vx = self.registers.prg_regs[x];
                let vy = self.registers.prg_regs[y];
                self.registers.prg_regs.set(x, vx | vy);
                Ok(StepOutcome::Executed)
            },
            Instruction::AND_VX_VY => {
                let vx = self.registers.prg_regs[x];
                let vy = self.registers.prg_regs[y];
                self.registers.prg_regs.set(x, vx & vy);
                Ok(StepOutcome::Executed)
            },
            Instruction::XOR_VX_VY => {
                let vx = self.registers.prg_regs[x];
                let vy = self.registers.prg_regs[y];
                self.registers.prg_regs.set(x, vx ^ vy);
                Ok(StepOutcome::Executed)
            },
            Instruction::ADD_VX_VY => {
                let vx = self.registers.prg_regs[x];
                let vy = self.registers.prg_regs[y];
                let sum: u16 = vx as u16 + vy as u16;
                self.registers.prg_regs.set(15, if sum > 255 { 1 } else { 0 });
                self.registers.prg_regs.set(x, (sum % 256) as u8);
                Ok(StepOutcome::Executed)
            },
            Instruction::SUB_VX_VY => {
                let vx = self.registers.prg_regs[x];
                let vy = self.registers.prg_regs[y];
                self.registers.prg_regs.set(15, if vx > vy { 1 } else { 0 });
                self.registers.prg_regs.set(x, ((vx as u16 + 256 - vy as u16) % 256) as u8);
                Ok(StepOutcome::Executed)
            },
            Instruction::SHR_VX_VY => {
                let vx = self.registers.prg_regs[x];
                self.registers.prg_regs.set(15, vx % 2);
                self.registers.prg_regs.set(x, vx / 2);
                Ok(StepOutcome::Executed)
            },
            Instruction::SUBN_VX_VY => {
                let vx = self.registers.prg_regs[x];
                let vy = self.registers.prg_regs[y];
                self.registers.prg_regs.set(15, if vy > vx { 1 } else { 0 });
                self.registers.prg_regs.set(x, ((vy as u16 + 256 - vx as u16) % 256) as u8);
                Ok(StepOutcome::Executed)
            },
            Instruction::SHL_VX_VY => {
                let vx = self.registers.prg_regs[x];
                self.registers.prg_regs.set(15, if vx >= 0x80 { 1 } else { 0 });
                self.registers.prg_regs.set(x, ((vx as u16 + vx as u16) % 256) as u8);
                Ok(StepOutcome::Executed)
            },
            Instruction::SNE_VX_VY => {
                if self.registers.prg_regs[x] != self.registers.prg_regs[y] {
                    self.advance_past_next();
                }
                Ok(StepOutcome::Executed)
            },
            Instruction::LD_I_ADDR => {
                self.registers.i = addr;
                Ok(StepOutcome::Executed)
            },
            Instruction::JP_V0_ADDR => {
                let v0 = self.registers.prg_regs[0];
                self.registers.pc = ((addr as u32 + v0 as u32) % 0x10000) as u16;
                Ok(StepOutcome::Executed)
            },
            Instruction::RND_VX_BT => {
                let rb = random_byte();
                self.registers.prg_regs.set(x, rb & bt);
                proof {
                    assert((self@, Ok::<StepOutcome, FaultKind>(StepOutcome::Executed))
                        == exec_model(old(self)@, instruction, p16, rb));
                }
                Ok(StepOutcome::Executed)
            },
            Instruction::DRW_VX_VY_NIB => {
                if self.registers.i as usize + nib > MEM_SIZE {
                    Err(FaultKind::AddressFault)
                } else {
                    let vx = self.registers.prg_regs[x];
                    let vy = self.registers.prg_regs[y];
                    let c = self.blit(vx, vy, nib);
                    self.registers.prg_regs.set(15, if c { 1 } else { 0 });
                    Ok(StepOutcome::Executed)
                }
            },
            Instruction::SKP_VX => {
                let vx = self.registers.prg_regs[x];
                if self.keys[(vx % 16) as usize] {
                    self.advance_past_next();
                }
                Ok(StepOutcome::Executed)
            },
            Instruction::SKNP_VX => {
                let vx = self.registers.prg_regs[x];
                if !self.keys[(vx % 16) as usize] {
                    self.advance_past_next();
                }
                Ok(StepOutcome::Executed)
            },
            Instruction::LD_VX_DT => {
                let dt = self.registers.dt;
                self.registers.prg_regs.set(x, dt);
                Ok(StepOutcome::Executed)
            },
            Instruction::LD_VX_K => {
                match self.first_pressed_key() {
                    Some(k) => {
                        self.registers.prg_regs.set(x, k);
                        Ok(StepOutcome::Executed)
                    },
                    None => {
                        let pc = self.registers.pc;
                        self.registers.pc = ((pc as u32 + 0x10000 - 2) % 0x10000) as u16;
                        Ok(StepOutcome::WaitingForKey)
                    },
                }
            },
            Instruction::LD_DT_VX => {
                self.registers.dt = self.registers.prg_regs[x];
                Ok(StepOutcome::Executed)
            },
            Instruction::LD_ST_VX => {
                self.registers.st = self.registers.prg_regs[x];
                Ok(StepOutcome::Executed)
            },
            Instruction::ADD_I_VX => {
                let vx = self.registers.prg_regs[x];
                let i = self.registers.i;
                self.registers.i = ((i as u32 + vx as u32) % 4096) as u16;
                Ok(StepOutcome::Executed)
            },
            Instruction::LD_F_VX => {
                let vx = self.registers.prg_regs[x];
                self.registers.i = vx as u16 * 5;
                Ok(StepOutcome::Executed)
            },
            Instruction::LD_B_VX => {
                let i = self.registers.i as usize;
                if i + 3 > MEM_SIZE {
                    Err(FaultKind::AddressFault)
                } else {
                    let vx = self.registers.prg_regs[x];
                    self.memory.write(i, vx / 100);
                    self.memory.write(i + 1, (vx / 10) % 10);
                    self.memory.write(i + 2, vx % 10);
                    Ok(StepOutcome::Executed)
                }
            },
            Instruction::LD_I_VX => {
                if self.registers.i as usize + x + 1 > MEM_SIZE {
                    Err(FaultKind::AddressFault)
                } else {
                    self.store_registers(x);
                    Ok(StepOutcome::Executed)
                }
            },
            Instruction::LD_VX_I => {
                if self.registers.i as usize + x + 1 > MEM_SIZE {
                    Err(FaultKind::AddressFault)
                } else {
                    self.load_registers(x);
                    Ok(StepOutcome::Executed)
                }
            },
            Instruction::INVALID => Ok(StepOutcome::InvalidOpcode),
        };
        proof {
            if instruction != Instruction::RND_VX_BT {
                assert((self@, r) == exec_model(old(self)@, instruction, p16, 0));
            }
        }
        r
    }

    /// One full cycle: fetch the word at the program counter, decode it,
    /// advance the program counter past it, execute. The result and the
    /// state change are exactly `step_model`'s, for the byte the random
    /// source produced; unless the fetched word decodes to RND, they are
    /// those of `step_model` with byte 0.
    pub fn step(&mut self) -> (r: Result<StepOutcome, Fault>)
        requires
            old(self).wf(),
        ensures
            final(self).wf(),
            exists|b: u8| (final(self)@, r) == #[trigger] step_model(old(self)@, b),
            (old(self)@.pc + 1 >= MEM_SIZE || decode_spec(fetched(old(self)@)).0
                != Instruction::RND_VX_BT) ==> (final(self)@, r) == step_model(old(self)@, 0),
    {
        let pc0 = self.registers.pc;
        if pc0 as usize + 1 >= MEM_SIZE {
            let r = Err(Fault { kind: FaultKind::AddressFault, pc: pc0, opcode: 0 });
            proof {
                assert((self@, r) == step_model(old(self)@, 0));
            }
            return r;
        }
        let op = self.fetch_current_instruction();
        let d = Instruction::decode(op);
        self.registers.pc = pc0 + 2;
        let ghost adv = self@;
        let er = self.execute(d.0, d.1);
        let r: Result<StepOutcome, Fault> = match er {
            Ok(o) => Ok(o),
            Err(k) => Err(Fault { kind: k, pc: pc0, opcode: op as u16 }),
        };
        proof {
            assert(adv == (CpuView { pc: (old(self)@.pc + 2) as u16, ..old(self)@ }));
            let b = choose|b: u8| (self@, er) == #[trigger] exec_model(adv, d.0, d.1 as u16, b);
            assert((self@, r) == step_model(old(self)@, b));
            if decode_spec(fetched(old(self)@)).0 != Instruction::RND_VX_BT {
                assert((self@, r) == step_model(old(self)@, 0));
            }
        }
        r
    }

    /// The delay timer's current value.
    pub fn get_delay_timer(&self) -> (r: u8)
        ensures
            r == self@.dt,
    {
        self.registers.dt
    }

    /// Set the delay timer, as the external clock driver decrements it.
    pub fn set_delay_timer(&mut self, value: u8)
        requires
            old(self).wf(),
        ensures
            final(self).wf(),
            final(self)@ == (CpuView { dt: value, ..old(self)@ }),
    {
        self.registers.dt = value;
    }

    /// The sound timer's current value.
    pub fn get_sound_timer(&self) -> (r: u8)
        ensures
            r == self@.st,
    {
        self.registers.st
    }

    /// Set the sound timer, as the external clock driver decrements it.
    pub fn set_sound_timer(&mut self, value: u8)
        requires
            old(self).wf(),
        ensures
            final(self).wf(),
            final(self)@ == (CpuView { st: value, ..old(self)@ }),
    {
        self.registers.st = value;
    }

    /// Whether the pixel at column `x`, row `y` is lit, for the rendering
    /// collaborator to consume.
    pub fn read_pixel(&self, x: usize, y: usize) -> (r: bool)
        requires
            self.wf(),
            x < SCREEN_WIDTH,
            y < SCREEN_HEIGHT,
        ensures
            r == self@.screen[y * 64 + x],
    {
        self.screen[y * 64 + x]
    }

    /// Record a key going down or up, as the input collaborator reports it.
    pub fn set_key(&mut self, key: usize, pressed: bool)
        requires
            old(self).wf(),
            key < NUM_KEYS,
        ensures
            final(self).wf(),
            final(self)@ == (CpuView { keys: old(self)@.keys.update(key as int, pressed), ..old(self)@ }),
    {
        self.keys.set(key, pressed);
    }
}

/// Operand extraction round-trips: for a register-immediate instruction,
/// the destination-register and immediate fields of the payload
/// reconstruct the low 12 bits of the opcode word.
pub proof fn lemma_operand_round_trip(op: u16)
    requires
        ({
            let t = decode_spec(op).0;
            ||| t == Instruction::SE_VX_BT
            ||| t == Instruction::SNE_VX_BT
            ||| t == Instruction::LD_VX_BT
            ||| t == Instruction::ADD_VX_BT
            ||| t == Instruction::RND_VX_BT
        }),
    ensures
        x_field(decode_spec(op).1) * 256 + byte_field(decode_spec(op).1) == op & 0xFFF,
{
    let p = decode_spec(op).1;
    lemma_fields_bounded(p);
    assert(p == op & !0xF000);
    assert(((p >> 8) & 0xF) * 256 + (p & 0xFF) == op & 0xFFF) by (bit_vector)
        requires
            p == op & !0xF000,
    ;
}

/// ADD Vx,Vy leaves the flag register at 1 exactly when the unsigned sum
/// exceeds 255, and the destination at the sum modulo 256. Stated for a
/// destination other than the flag register, which the result would
/// otherwise overwrite.
pub proof fn lemma_add_flag(s: CpuView, payload: u16, rnd: u8)
    requires
        s.wf(),
        x_field(payload) != 15,
    ensures
        ({
            let x = x_field(payload);
            let y = y_field(payload);
            let post = exec_model(s, Instruction::ADD_VX_VY, payload, rnd).0;
            &&& post.regs[15] == (if s.regs[x] + s.regs[y] > 255 { 1u8 } else { 0u8 })
            &&& post.regs[x] == wrap_add_u8(s.regs[x], s.regs[y])
        }),
{
    lemma_fields_bounded(payload);
}

/// SUB Vx,Vy leaves the flag register at 1 exactly when Vx >= Vy + 1, that
/// is, when no borrow occurs, and the destination at the wrapping
/// difference. Stated for a destination other than the flag register.
pub proof fn lemma_sub_flag(s: CpuView, payload: u16, rnd: u8)
    requires
        s.wf(),
        x_field(payload) != 15,
    ensures
        ({
            let x = x_field(payload);
            let y = y_field(payload);
            let post = exec_model(s, Instruction::SUB_VX_VY, payload, rnd).0;
            &&& post.regs[15] == (if s.regs[x] >= s.regs[y] + 1 { 1u8 } else { 0u8 })
            &&& post.regs[x] == wrap_sub_u8(s.regs[x], s.regs[y])
        }),
{
    lemma_fields_bounded(payload);
}

/// SHR Vx leaves the flag register at the pre-shift low bit of Vx, and the
/// destination at Vx shifted right once. Stated for a destination other
/// than the flag register.
pub proof fn lemma_shr_flag(s: CpuView, payload: u16, rnd: u8)
    requires
        s.wf(),
        x_field(payload) != 15,
    ensures
        ({
            let x = x_field(payload);
            let post = exec_model(s, Instruction::SHR_VX_VY, payload, rnd).0;
            &&& post.regs[15] == s.regs[x] % 2
            &&& post.regs[x] == s.regs[x] / 2
        }),
{
    lemma_fields_bounded(payload);
}

/// SHL Vx leaves the flag register at the pre-shift high bit of Vx, and
/// the destination at Vx shifted left once, wrapping. Stated for a
/// destination other than the flag register.
pub proof fn lemma_shl_flag(s: CpuView, payload: u16, rnd: u8)
    requires
        s.wf(),
        x_field(payload) != 15,
    ensures
        ({
            let x = x_field(payload);
            let post = exec_model(s, Instruction::SHL_VX_VY, payload, rnd).0;
            &&& post.regs[15] == s.regs[x] / 128
            &&& post.regs[x] == wrap_add_u8(s.regs[x], s.regs[x])
        }),
{
    lemma_fields_bounded(payload);
}

/// With room on the stack, CALL succeeds: the stack grows by one, the
/// pushed return address is the instruction after the CALL, and control
/// moves to the call target. From an empty stack, sixteen nested CALLs
/// therefore all succeed.
pub proof fn lemma_call_ok(s: CpuView, b: u8)
    requires
        s.wf(),
        s.pc + 1 < MEM_SIZE,
        decode_spec(fetched(s)).0 == Instruction::CALL,
        s.sp < STACK_SIZE,
    ensures
        ({
            let r = step_model(s, b);
            &&& r.1 == Ok::<StepOutcome, Fault>(StepOutcome::Executed)
            &&& r.0.wf()
            &&& r.0.sp == s.sp + 1
            &&& r.0.stack[s.sp] == s.pc + 2
            &&& r.0.pc == addr_field(decode_spec(fetched(s)).1)
            &&& r.0.mem == s.mem
            &&& r.0.regs == s.regs
        }),
{
    lemma_fields_bounded(decode_spec(fetched(s)).1);
}

/// CALL with the stack at its sixteen-slot capacity faults: a seventeenth
/// nested CALL fails with a stack fault, and nothing changes but the
/// program counter having advanced past the word.
pub proof fn lemma_call_overflow(s: CpuView, b: u8)
    requires
        s.wf(),
        s.pc + 1 < MEM_SIZE,
        decode_spec(fetched(s)).0 == Instruction::CALL,
        s.sp == STACK_SIZE,
    ensures
        step_model(s, b).1 == Err::<StepOutcome, Fault>(Fault {
            kind: FaultKind::StackFault,
            pc: s.pc,
            opcode: fetched(s),
        }),
        step_model(s, b).0 == (CpuView { pc: (s.pc + 2) as u16, ..s }),
{
}

/// RET with an empty stack faults: the pop fails with a stack fault, and
/// nothing changes but the program counter having advanced past the word.
pub proof fn lemma_ret_underflow(s: CpuView, b: u8)
    requires
        s.wf(),
        s.pc + 1 < MEM_SIZE,
        decode_spec(fetched(s)).0 == Instruction::RET,
        s.sp == 0,
    ensures
        step_model(s, b).1 == Err::<StepOutcome, Fault>(Fault {
            kind: FaultKind::StackFault,
            pc: s.pc,
            opcode: fetched(s),
        }),
        step_model(s, b).0 == (CpuView { pc: (s.pc + 2) as u16, ..s }),
{
}

/// A CALL immediately followed by a RET returns the program counter to the
/// instruction after the original CALL and restores the stack depth.
pub proof fn lemma_call_then_ret(s: CpuView, b1: u8, b2: u8)
    requires
        s.wf(),
        s.pc + 1 < MEM_SIZE,
        decode_spec(fetched(s)).0 == Instruction::CALL,
        s.sp < STACK_SIZE,
        ({
            let s1 = step_model(s, b1).0;
            s1.pc + 1 < MEM_SIZE && decode_spec(fetched(s1)).0 == Instruction::RET
        }),
    ensures
        step_model(s, b1).1 == Ok::<StepOutcome, Fault>(StepOutcome::Executed),
        ({
            let s1 = step_model(s, b1).0;
            let r2 = step_model(s1, b2);
            &&& r2.1 == Ok::<StepOutcome, Fault>(StepOutcome::Executed)
            &&& r2.0.pc == s.pc + 2
            &&& r2.0.sp == s.sp
            &&& r2.0.mem == s.mem
            &&& r2.0.regs == s.regs
        }),
{
    lemma_call_ok(s, b1);
}

} // verus!

