use vstd::prelude::*;

use crate::cartridge::Cartridge;
use crate::display::{blank_grid, draw_spec, is_binary_grid, Display};
use crate::font::{font_set, font_spec, FONT_SIZE};
use crate::keypad::{first_pressed, set_key, Keypad, KEY_COUNT};
use crate::rand::{cmwc_initial, cmwc_next, CmwcState, ComplementaryMultiplyWithCarryGen};
use crate::MEMORY_SIZE;

verus! {

/// Address where programs are loaded and execution starts.
pub const PROGRAM_START: u16 = 0x200;

/// Number of general-purpose registers.
pub const REGISTER_COUNT: usize = 16;

/// Register that receives carry, borrow, shifted-out and collision flags.
pub const FLAG: usize = 0xF;

/// Number of return addresses the stack holds.
pub const STACK_SIZE: usize = 16;

/// Seed of the random source of a fresh or reset machine.
pub const RANDOM_SEED: u32 = 1;

/// Conditions under which the machine refuses to go on.
#[derive(Debug, Clone, Copy, PartialEq, Eq, Structural)]
pub enum CpuError {
    /// The instruction word matches no known instruction.
    UnimplementedInstruction(u16),
    /// A program or a memory access does not fit in memory.
    InsufficientMemory,
    /// A call with all 16 stack slots in use.
    StackOverflow,
    /// A return with an empty stack.
    StackUnderflow,
}

/// A decoded instruction. `x` and `y` name registers; the mnemonics follow the
/// conventional assembly names.
#[derive(Debug, Clone, Copy, PartialEq, Eq, Structural)]
pub enum Instruction {
    /// 00E0 CLS
    Cls,
    /// 00EE RET
    Ret,
    /// 1nnn JP addr
    Jump(u16),
    /// 2nnn CALL addr
    Call(u16),
    /// 3xkk SE Vx, byte
    SkipEqByte(usize, u8),
    /// 4xkk SNE Vx, byte
    SkipNeByte(usize, u8),
    /// 5xy0 SE Vx, Vy
    SkipEqReg(usize, usize),
    /// 6xkk LD Vx, byte
    LoadByte(usize, u8),
    /// 7xkk ADD Vx, byte
    AddByte(usize, u8),
    /// 8xy0 LD Vx, Vy
    LoadReg(usize, usize),
    /// 8xy1 OR Vx, Vy
    Or(usize, usize),
    /// 8xy2 AND Vx, Vy
    And(usize, usize),
    /// 8xy3 XOR Vx, Vy
    Xor(usize, usize),
    /// 8xy4 ADD Vx, Vy
    AddReg(usize, usize),
    /// 8xy5 SUB Vx, Vy
    SubReg(usize, usize),
    /// 8xy6 SHR Vx
    ShiftRight(usize),
    /// 8xy7 SUBN Vx, Vy
    SubNeg(usize, usize),
    /// 8xyE SHL Vx
    ShiftLeft(usize),
    /// 9xy0 SNE Vx, Vy
    SkipNeReg(usize, usize),
    /// Annn LD I, addr
    LoadIndex(u16),
    /// Bnnn JP V0, addr
    JumpOffset(u16),
    /// Cxkk RND Vx, byte
    Random(usize, u8),
    /// Dxyn DRW Vx, Vy, n
    Draw(usize, usize, u8),
    /// Ex9E SKP Vx
    SkipKey(usize),
    /// ExA1 SKNP Vx
    SkipNoKey(usize),
    /// Fx07 LD Vx, DT
    LoadDelay(usize),
    /// Fx0A LD Vx, K
    WaitKey(usize),
    /// Fx15 LD DT, Vx
    SetDelay(usize),
    /// Fx18 LD ST, Vx
    SetSound(usize),
    /// Fx1E ADD I, Vx
    AddIndex(usize),
    /// Fx29 LD F, Vx
    LoadGlyph(usize),
    /// Fx33 LD B, Vx
    StoreBcd(usize),
    /// Fx55 LD [I], Vx
    StoreRegs(usize),
    /// Fx65 LD Vx, [I]
    LoadRegs(usize),
}

/// The whole observable state of the machine.
#[verifier::ext_equal]
pub struct MachineState {
    pub i: u16,
    pub pc: u16,
    pub memory: Seq<u8>,
    pub v: Seq<u8>,
    pub stack: Seq<u16>,
    pub sp: u8,
    pub dt: u8,
    pub st: u8,
    pub rng: CmwcState,
    pub vram: Seq<u8>,
    pub keys: Seq<bool>,
}

impl MachineState {
    pub open spec fn wf(self) -> bool {
        &&& self.memory.len() == MEMORY_SIZE
        &&& self.v.len() == REGISTER_COUNT
        &&& self.stack.len() == STACK_SIZE
        &&& self.sp <= STACK_SIZE
        &&& self.rng.wf()
        &&& is_binary_grid(self.vram)
        &&& self.keys.len() == KEY_COUNT
    }
}

/// `n` reduced to a byte.
pub open spec fn wrap8(n: int) -> u8 {
    (n % 256) as u8
}

/// `n` reduced to a 16-bit word.
pub open spec fn wrap16(n: int) -> u16 {
    (n % 0x10000) as u16
}

/// Memory of a fresh machine: the glyphs from address 0 on, zero elsewhere.
pub open spec fn initial_memory() -> Seq<u8> {
    Seq::new(MEMORY_SIZE as nat, |a: int| if a < FONT_SIZE { font_spec()[a] } else { 0u8 })
}

/// State of a fresh machine whose key flags are `keys`.
pub open spec fn initial_state(keys: Seq<bool>) -> MachineState {
    MachineState {
        i: 0,
        pc: PROGRAM_START,
        memory: initial_memory(),
        v: Seq::new(REGISTER_COUNT as nat, |r: int| 0u8),
        stack: Seq::new(STACK_SIZE as nat, |k: int| 0u16),
        sp: 0,
        dt: 0,
        st: 0,
        rng: cmwc_initial(RANDOM_SEED),
        vram: blank_grid(),
        keys,
    }
}

/// Memory with `program` copied in from the program start on.
pub open spec fn load_spec(memory: Seq<u8>, program: Seq<u8>) -> Seq<u8> {
    Seq::new(
        memory.len(),
        |a: int|
            if PROGRAM_START <= a < PROGRAM_START + program.len() {
                program[a - PROGRAM_START]
            } else {
                memory[a]
            },
    )
}

/// The instruction that an instruction word encodes, if any. With the word read as
/// four nibbles `a x y n`, `kk` is its low byte and `nnn` its low 12 bits.
pub open spec fn decode_spec(op: u16) -> Option<Instruction> {
    let a = op / 0x1000;
    let x = ((op / 0x100) % 0x10) as usize;
    let y = ((op / 0x10) % 0x10) as usize;
    let n = (op % 0x10) as u8;
    let kk = (op % 0x100) as u8;
    let nnn = (op % 0x1000) as u16;
    if op == 0x00E0 {
        Some(Instruction::Cls)
    } else if op == 0x00EE {
        Some(Instruction::Ret)
    } else if a == 0x1 {
        Some(Instruction::Jump(nnn))
    } else if a == 0x2 {
        Some(Instruction::Call(nnn))
    } else if a == 0x3 {
        Some(Instruction::SkipEqByte(x, kk))
    } else if a == 0x4 {
        Some(Instruction::SkipNeByte(x, kk))
    } else if a == 0x5 && n == 0 {
        Some(Instruction::SkipEqReg(x, y))
    } else if a == 0x6 {
        Some(Instruction::LoadByte(x, kk))
    } else if a == 0x7 {
        Some(Instruction::AddByte(x, kk))
    } else if a == 0x8 {
        if n == 0x0 {
            Some(Instruction::LoadReg(x, y))
        } else if n == 0x1 {
            Some(Instruction::Or(x, y))
        } else if n == 0x2 {
            Some(Instruction::And(x, y))
        } else if n == 0x3 {
            Some(Instruction::Xor(x, y))
        } else if n == 0x4 {
            Some(Instruction::AddReg(x, y))
        } else if n == 0x5 {
            Some(Instruction::SubReg(x, y))
        } else if n == 0x6 {
            Some(Instruction::ShiftRight(x))
        } else if n == 0x7 {
            Some(Instruction::SubNeg(x, y))
        } else if n == 0xE {
            Some(Instruction::ShiftLeft(x))
        } else {
            None
        }
    } else if a == 0x9 && n == 0 {
        Some(Instruction::SkipNeReg(x, y))
    } else if a == 0xA {
        Some(Instruction::LoadIndex(nnn))
    } else if a == 0xB {
        Some(Instruction::JumpOffset(nnn))
    } else if a == 0xC {
        Some(Instruction::Random(x, kk))
    } else if a == 0xD {
        Some(Instruction::Draw(x, y, n))
    } else if a == 0xE && kk == 0x9E {
        Some(Instruction::SkipKey(x))
    } else if a == 0xE && kk == 0xA1 {
        Some(Instruction::SkipNoKey(x))
    } else if a == 0xF {
        if kk == 0x07 {
            Some(Instruction::LoadDelay(x))
        } else if kk == 0x0A {
            Some(Instruction::WaitKey(x))
        } else if kk == 0x15 {
            Some(Instruction::SetDelay(x))
        } else if kk == 0x18 {
            Some(Instruction::SetSound(x))
        } else if kk == 0x1E {
            Some(Instruction::AddIndex(x))
        } else if kk == 0x29 {
            Some(Instruction::LoadGlyph(x))
        } else if kk == 0x33 {
            Some(Instruction::StoreBcd(x))
        } else if kk == 0x55 {
            Some(Instruction::StoreRegs(x))
        } else if kk == 0x65 {
            Some(Instruction::LoadRegs(x))
        } else {
            None
        }
    } else {
        None
    }
}

impl Instruction {
    /// Register operands name one of the 16 registers, addresses have 12 bits and
    /// sprite heights 4.
    pub open spec fn wf(self) -> bool {
        match self {
            Instruction::Cls | Instruction::Ret => true,
            Instruction::Jump(nnn) | Instruction::Call(nnn) | Instruction::LoadIndex(nnn)
            | Instruction::JumpOffset(nnn) => nnn < 0x1000,
            Instruction::SkipEqByte(x, _) | Instruction::SkipNeByte(x, _)
            | Instruction::LoadByte(x, _) | Instruction::AddByte(x, _)
            | Instruction::Random(x, _) => x < REGISTER_COUNT,
            Instruction::SkipEqReg(x, y) | Instruction::LoadReg(x, y) | Instruction::Or(x, y)
            | Instruction::And(x, y) | Instruction::Xor(x, y) | Instruction::AddReg(x, y)
            | Instruction::SubReg(x, y) | Instruction::SubNeg(x, y)
            | Instruction::SkipNeReg(x, y) => x < REGISTER_COUNT && y < REGISTER_COUNT,
            Instruction::Draw(x, y, n) => x < REGISTER_COUNT && y < REGISTER_COUNT && n < 16,
            Instruction::ShiftRight(x) | Instruction::ShiftLeft(x) | Instruction::SkipKey(x)
            | Instruction::SkipNoKey(x) | Instruction::LoadDelay(x) | Instruction::WaitKey(x)
            | Instruction::SetDelay(x) | Instruction::SetSound(x) | Instruction::AddIndex(x)
            | Instruction::LoadGlyph(x) | Instruction::StoreBcd(x) | Instruction::StoreRegs(x)
            | Instruction::LoadRegs(x) => x < REGISTER_COUNT,
        }
    }
}

/// The error that executing `ins` in state `m` runs into, if any: a return with an
/// empty stack, a call with a full one, or a memory range from `I` on that runs past
/// the end of memory.
pub open spec fn fault_spec(m: MachineState, ins: Instruction) -> Option<CpuError> {
    match ins {
        Instruction::Ret => if m.sp == 0 {
            Some(CpuError::StackUnderflow)
        } else {
            None
        },
        Instruction::Call(_) => if m.sp >= STACK_SIZE {
            Some(CpuError::StackOverflow)
        } else {
            None
        },
        Instruction::Draw(_, _, n) => if m.i + n > MEMORY_SIZE {
            Some(CpuError::InsufficientMemory)
        } else {
            None
        },
        Instruction::StoreBcd(_) => if m.i + 3 > MEMORY_SIZE {
            Some(CpuError::InsufficientMemory)
        } else {
            None
        },
        Instruction::StoreRegs(x) | Instruction::LoadRegs(x) => if m.i + x + 1 > MEMORY_SIZE {
            Some(CpuError::InsufficientMemory)
        } else {
            None
        },
        _ => None,
    }
}

/// `t` - 1, stopping at zero.
pub open spec fn countdown(t: u8) -> u8 {
    if t > 0 {
        (t - 1) as u8
    } else {
        0
    }
}

/// What every instruction does first: the program counter moves on to the next
/// instruction and both timers count down.
pub open spec fn tick(m: MachineState) -> MachineState {
    MachineState { pc: wrap16(m.pc + 2), dt: countdown(m.dt), st: countdown(m.st), ..m }
}

/// `m` with its program counter moved over one more instruction.
pub open spec fn skip(m: MachineState) -> MachineState {
    MachineState { pc: wrap16(m.pc + 2), ..m }
}

/// `m` with register `x` set to `val`.
pub open spec fn with_reg(m: MachineState, x: int, val: u8) -> MachineState {
    MachineState { v: m.v.update(x, val), ..m }
}

/// `m` with the flag register set to `flag` and then register `x` to `val`.
pub open spec fn with_flag_reg(m: MachineState, x: int, flag: bool, val: u8) -> MachineState {
    MachineState { v: m.v.update(FLAG as int, if flag { 1u8 } else { 0u8 }).update(x, val), ..m }
}

/// Whether key `k` exists and is pressed.
pub open spec fn key_pressed(keys: Seq<bool>, k: u8) -> bool {
    k < KEY_COUNT && keys[k as int]
}

/// State after `ins` has run on `m`, when `fault_spec(m, ins)` is none.
pub open spec fn apply_spec(m: MachineState, ins: Instruction) -> MachineState {
    let t = tick(m);
    match ins {
        Instruction::Cls => MachineState { vram: blank_grid(), ..t },
        Instruction::Ret => MachineState {
            sp: (t.sp - 1) as u8,
            pc: t.stack[t.sp - 1],
            ..t
        },
        Instruction::Jump(nnn) => MachineState { pc: nnn, ..t },
        Instruction::Call(nnn) => MachineState {
            stack: t.stack.update(t.sp as int, t.pc),
            sp: (t.sp + 1) as u8,
            pc: nnn,
            ..t
        },
        Instruction::SkipEqByte(x, kk) => if t.v[x as int] == kk {
            skip(t)
        } else {
            t
        },
        Instruction::SkipNeByte(x, kk) => if t.v[x as int] != kk {
            skip(t)
        } else {
            t
        },
        Instruction::SkipEqReg(x, y) => if t.v[x as int] == t.v[y as int] {
            skip(t)
        } else {
            t
        },
        Instruction::SkipNeReg(x, y) => if t.v[x as int] != t.v[y as int] {
            skip(t)
        } else {
            t
        },
        Instruction::LoadByte(x, kk) => with_reg(t, x as int, kk),
        Instruction::AddByte(x, kk) => with_reg(t, x as int, wrap8(t.v[x as int] + kk)),
        Instruction::LoadReg(x, y) => with_reg(t, x as int, t.v[y as int]),
        Instruction::Or(x, y) => with_reg(t, x as int, t.v[x as int] | t.v[y as int]),
        Instruction::And(x, y) => with_reg(t, x as int, t.v[x as int] & t.v[y as int]),
        Instruction::Xor(x, y) => with_reg(t, x as int, t.v[x as int] ^ t.v[y as int]),
        Instruction::AddReg(x, y) => {
            let sum = t.v[x as int] + t.v[y as int];
            with_flag_reg(t, x as int, sum > 255, wrap8(sum))
        },
        Instruction::SubReg(x, y) => {
            let (a, b) = (t.v[x as int], t.v[y as int]);
            with_flag_reg(t, x as int, a > b, wrap8(a - b))
        },
        Instruction::SubNeg(x, y) => {
            let (a, b) = (t.v[x as int], t.v[y as int]);
            with_flag_reg(t, x as int, b > a, wrap8(b - a))
        },
        Instruction::ShiftRight(x) => {
            let a = t.v[x as int];
            with_flag_reg(t, x as int, a % 2 == 1, a / 2)
        },
        Instruction::ShiftLeft(x) => {
            let a = t.v[x as int];
            with_flag_reg(t, x as int, a / 128 == 1, wrap8(a * 2))
        },
        Instruction::LoadIndex(nnn) => MachineState { i: nnn, ..t },
        Instruction::JumpOffset(nnn) => MachineState { pc: (nnn + t.v[0]) as u16, ..t },
        Instruction::Random(x, kk) => {
            let (rng, r) = cmwc_next(t.rng);
            MachineState { rng, v: t.v.update(x as int, wrap8(r as int) & kk), ..t }
        },
        Instruction::Draw(x, y, n) => {
            let sprite = t.memory.subrange(t.i as int, t.i + n);
            let (vram, collision) = draw_spec(t.vram, t.v[x as int] as int, t.v[y as int] as int, sprite);
            MachineState { vram, v: t.v.update(FLAG as int, if collision { 1u8 } else { 0u8 }), ..t }
        },
        Instruction::SkipKey(x) => if key_pressed(t.keys, t.v[x as int]) {
            skip(t)
        } else {
            t
        },
        Instruction::SkipNoKey(x) => if !key_pressed(t.keys, t.v[x as int]) {
            skip(t)
        } else {
            t
        },
        Instruction::LoadDelay(x) => with_reg(t, x as int, t.dt),
        Instruction::WaitKey(x) => match first_pressed(t.keys) {
            Some(k) => with_reg(t, x as int, k as u8),
            None => MachineState { pc: m.pc, ..t },
        },
        Instruction::SetDelay(x) => MachineState { dt: t.v[x as int], ..t },
        Instruction::SetSound(x) => MachineState { st: t.v[x as int], ..t },
        Instruction::AddIndex(x) => MachineState { i: wrap16(t.i + t.v[x as int]), ..t },
        Instruction::LoadGlyph(x) => MachineState { i: ((t.v[x as int] % 16) * 5) as u16, ..t },
        Instruction::StoreBcd(x) => {
            let a = t.v[x as int];
            MachineState {
                memory: t.memory.update(t.i as int, a / 100).update(t.i + 1, (a / 10) % 10).update(
                    t.i + 2,
                    a % 10,
                ),
                ..t
            }
        },
        Instruction::StoreRegs(x) => MachineState {
            memory: Seq::new(
                t.memory.len(),
                |a: int|
                    if t.i <= a <= t.i + x {
                        t.v[a - t.i]
                    } else {
                        t.memory[a]
                    },
            ),
            ..t
        },
        Instruction::LoadRegs(x) => MachineState {
            v: Seq::new(
                t.v.len(),
                |r: int|
                    if r <= x {
                        t.memory[t.i + r]
                    } else {
                        t.v[r]
                    },
            ),
            ..t
        },
    }
}

/// Outcome of executing instruction `ins` in state `m`.
pub open spec fn execute_spec(m: MachineState, ins: Instruction) -> Result<MachineState, CpuError> {
    match fault_spec(m, ins) {
        Some(e) => Err(e),
        None => Ok(apply_spec(m, ins)),
    }
}

/// Outcome of executing instruction word `op` in state `m`.
pub open spec fn process_spec(m: MachineState, op: u16) -> Result<MachineState, CpuError> {
    match decode_spec(op) {
        Some(ins) => execute_spec(m, ins),
        None => Err(CpuError::UnimplementedInstruction(op)),
    }
}

/// The instruction word at the program counter, most significant byte first, if
/// both of its bytes lie in memory.
pub open spec fn fetch_spec(m: MachineState) -> Option<u16> {
    if m.pc + 1 < MEMORY_SIZE {
        Some((m.memory[m.pc as int] * 256 + m.memory[m.pc + 1]) as u16)
    } else {
        None
    }
}

/// Outcome of one machine cycle from state `m`.
pub open spec fn cycle_spec(m: MachineState) -> Result<MachineState, CpuError> {
    match fetch_spec(m) {
        Some(op) => process_spec(m, op),
        None => Err(CpuError::InsufficientMemory),
    }
}

/// Decodes an instruction word.
pub fn decode(op: u16) -> (r: Option<Instruction>)
    ensures
        r == decode_spec(op),
        r matches Some(ins) ==> ins.wf(),
{
    let a = op / 0x1000;
    let x = ((op / 0x100) % 0x10) as usize;
    let y = ((op / 0x10) % 0x10) as usize;
    let n = (op % 0x10) as u8;
    let kk = (op % 0x100) as u8;
    let nnn = op % 0x1000;
    if op == 0x00E0 {
        Some(Instruction::Cls)
    } else if op == 0x00EE {
        Some(Instruction::Ret)
    } else if a == 0x1 {
        Some(Instruction::Jump(nnn))
    } else if a == 0x2 {
        Some(Instruction::Call(nnn))
    } else if a == 0x3 {
        Some(Instruction::SkipEqByte(x, kk))
    } else if a == 0x4 {
        Some(Instruction::SkipNeByte(x, kk))
    } else if a == 0x5 && n == 0 {
        Some(Instruction::SkipEqReg(x, y))
    } else if a == 0x6 {
        Some(Instruction::LoadByte(x, kk))
    } else if a == 0x7 {
        Some(Instruction::AddByte(x, kk))
    } else if a == 0x8 {
        if n == 0x0 {
            Some(Instruction::LoadReg(x, y))
        } else if n == 0x1 {
            Some(Instruction::Or(x, y))
        } else if n == 0x2 {
            Some(Instruction::And(x, y))
        } else if n == 0x3 {
            Some(Instruction::Xor(x, y))
        } else if n == 0x4 {
            Some(Instruction::AddReg(x, y))
        } else if n == 0x5 {
            Some(Instruction::SubReg(x, y))
        } else if n == 0x6 {
            Some(Instruction::ShiftRight(x))
        } else if n == 0x7 {
            Some(Instruction::SubNeg(x, y))
        } else if n == 0xE {
            Some(Instruction::ShiftLeft(x))
        } else {
            None
        }
    } else if a == 0x9 && n == 0 {
        Some(Instruction::SkipNeReg(x, y))
    } else if a == 0xA {
        Some(Instruction::LoadIndex(nnn))
    } else if a == 0xB {
        Some(Instruction::JumpOffset(nnn))
    } else if a == 0xC {
        Some(Instruction::Random(x, kk))
    } else if a == 0xD {
        Some(Instruction::Draw(x, y, n))
    } else if a == 0xE && kk == 0x9E {
        Some(Instruction::SkipKey(x))
    } else if a == 0xE && kk == 0xA1 {
        Some(Instruction::SkipNoKey(x))
    } else if a == 0xF {
        if kk == 0x07 {
            Some(Instruction::LoadDelay(x))
        } else if kk == 0x0A {
            Some(Instruction::WaitKey(x))
        } else if kk == 0x15 {
            Some(Instruction::SetDelay(x))
        } else if kk == 0x18 {
            Some(Instruction::SetSound(x))
        } else if kk == 0x1E {
            Some(Instruction::AddIndex(x))
        } else if kk == 0x29 {
            Some(Instruction::LoadGlyph(x))
        } else if kk == 0x33 {
            Some(Instruction::StoreBcd(x))
        } else if kk == 0x55 {
            Some(Instruction::StoreRegs(x))
        } else if kk == 0x65 {
            Some(Instruction::LoadRegs(x))
        } else {
            None
        }
    } else {
        None
    }
}

/// Memory of a fresh machine, as a vector.
fn initial_memory_vec() -> (r: Vec<u8>)
    ensures
        r@ == initial_memory(),
{
    let font = font_set();
    let mut memory: Vec<u8> = vec![0u8; MEMORY_SIZE];
    let mut k: usize = 0;
    while k < FONT_SIZE
        invariant
            font@ == font_spec(),
            memory@.len() == MEMORY_SIZE,
            k <= FONT_SIZE,
            forall|a: int| 0 <= a < MEMORY_SIZE ==> #[trigger] memory@[a] == if a < k {
                font_spec()[a]
            } else {
                0u8
            },
        decreases FONT_SIZE - k,
    {
        memory.set(k, font[k]);
        k = k + 1;
    }
    assert(memory@ =~= initial_memory());
    memory
}

/// Copies `program` into `memory` from the program start on.
fn copy_program(memory: &mut Vec<u8>, program: &Vec<u8>)
    requires
        old(memory)@.len() == MEMORY_SIZE,
        PROGRAM_START + program@.len() <= MEMORY_SIZE,
    ensures
        final(memory)@ == load_spec(old(memory)@, program@),
{
    let ghost pre = memory@;
    let start = PROGRAM_START as usize;
    let mut k: usize = 0;
    while k < program.len()
        invariant
            memory@.len() == MEMORY_SIZE,
            start == PROGRAM_START,
            start + program@.len() <= MEMORY_SIZE,
            k <= program@.len(),
            forall|a: int| 0 <= a < MEMORY_SIZE ==> #[trigger] memory@[a] == if start <= a < start + k {
                program@[a - start]
            } else {
                pre[a]
            },
        decreases program@.len() - k,
    {
        memory.set(start + k, program[k]);
        k = k + 1;
    }
    assert(memory@ =~= load_spec(pre, program@));
}

/// The `n` bytes of `memory` from `start` on.
fn memory_range(memory: &Vec<u8>, start: usize, n: usize) -> (r: Vec<u8>)
    requires
        start + n <= memory@.len(),
    ensures
        r@ == memory@.subrange(start as int, start + n),
{
    let mut r: Vec<u8> = Vec::new();
    let mut k: usize = 0;
    while k < n
        invariant
            start + n <= memory.len(),
            k <= n,
            r@ =~= memory@.subrange(start as int, start + k),
        decreases n - k,
    {
        r.push(memory[start + k]);
        k = k + 1;
    }
    r
}

/// Copies registers 0 through `x` into `memory` from `start` on.
fn store_registers(memory: &mut Vec<u8>, v: &Vec<u8>, start: usize, x: usize)
    requires
        x < v@.len(),
        start + x + 1 <= old(memory)@.len(),
    ensures
        final(memory)@ == Seq::new(
            old(memory)@.len(),
            |a: int|
                if start <= a <= start + x {
                    v@[a - start]
                } else {
                    old(memory)@[a]
                },
        ),
{
    let ghost pre = memory@;
    let mut r: usize = 0;
    while r <= x
        invariant
            x < v@.len(),
            start + x + 1 <= memory.len(),
            memory@.len() == pre.len(),
            r <= x + 1,
            forall|a: int| 0 <= a < pre.len() ==> #[trigger] memory@[a] == if start <= a < start + r {
                v@[a - start]
            } else {
                pre[a]
            },
        decreases x + 1 - r,
    {
        memory.set(start + r, v[r]);
        r = r + 1;
    }
    assert(memory@ =~= Seq::new(
        pre.len(),
        |a: int|
            if start <= a <= start + x {
                v@[a - start]
            } else {
                pre[a]
            },
    ));
}

/// Loads registers 0 through `x` from `memory` from `start` on.
fn load_registers(v: &mut Vec<u8>, memory: &Vec<u8>, start: usize, x: usize)
    requires
        x < old(v)@.len(),
        start + x + 1 <= memory@.len(),
    ensures
        final(v)@ == Seq::new(
            old(v)@.len(),
            |r: int|
                if r <= x {
                    memory@[start + r]
                } else {
                    old(v)@[r]
                },
        ),
{
    let ghost pre = v@;
    let mut r: usize = 0;
    while r <= x
        invariant
            x < pre.len(),
            start + x + 1 <= memory.len(),
            v@.len() == pre.len(),
            r <= x + 1,
            forall|k: int| 0 <= k < pre.len() ==> #[trigger] v@[k] == if k < r {
                memory@[start + k]
            } else {
                pre[k]
            },
        decreases x + 1 - r,
    {
        v.set(r, memory[start + r]);
        r = r + 1;
    }
    assert(v@ =~= Seq::new(
        pre.len(),
        |r: int|
            if r <= x {
                memory@[start + r]
            } else {
                pre[r]
            },
    ));
}

/// What one cycle hands the host: the framebuffer and whether to sound the tone.
pub struct ExecutionResult {
    display_state: Vec<u8>,
    should_beep: bool,
}

impl View for ExecutionResult {
    type V = (Seq<u8>, bool);

    closed spec fn view(&self) -> (Seq<u8>, bool) {
        (self.display_state@, self.should_beep)
    }
}

impl ExecutionResult {
    pub fn new(display_state: Vec<u8>, should_beep: bool) -> (r: ExecutionResult)
        ensures
            r@ == (display_state@, should_beep),
    {
        ExecutionResult { display_state, should_beep }
    }

    /// A copy of the framebuffer cells, row by row.
    pub fn get_display_state(&self) -> (r: Vec<u8>)
        ensures
            r@ == self@.0,
    {
        let r = self.display_state.clone();
        assert(r@ =~= self@.0);
        r
    }

    /// Whether the host should sound the tone.
    pub fn get_should_beep(&self) -> (r: bool)
        ensures
            r == self@.1,
    {
        self.should_beep
    }
}

/// The machine: memory, registers, stack, timers, random source, framebuffer and
/// keypad.
pub struct Cpu {
    // index register
    i: u16,
    // program counter
    pc: u16,
    memory: Vec<u8>,
    // registers V0..VF; VF doubles as the flag register
    v: Vec<u8>,
    stack: Vec<u16>,
    // stack pointer: the next free stack slot
    sp: u8,
    // delay timer
    dt: u8,
    // sound timer
    st: u8,
    rand: ComplementaryMultiplyWithCarryGen,
    display: Display,
    keypad: Keypad,
}

impl View for Cpu {
    type V = MachineState;

    closed spec fn view(&self) -> MachineState {
        MachineState {
            i: self.i,
            pc: self.pc,
            memory: self.memory@,
            v: self.v@,
            stack: self.stack@,
            sp: self.sp,
            dt: self.dt,
            st: self.st,
            rng: self.rand@,
            vram: self.display@,
            keys: self.keypad@,
        }
    }
}

impl Cpu {
    pub open spec fn wf(&self) -> bool {
        self@.wf()
    }

    /// A fresh machine: glyphs loaded, execution at the program start, everything
    /// else zero, no key pressed.
    pub fn new() -> (r: Cpu)
        ensures
            r.wf(),
            r@ == initial_state(Seq::new(KEY_COUNT as nat, |k: int| false)),
    {
        let r = Cpu {
            i: 0,
            pc: PROGRAM_START,
            memory: initial_memory_vec(),
            v: vec![0u8; REGISTER_COUNT],
            stack: vec![0u16; STACK_SIZE],
            sp: 0,
            dt: 0,
            st: 0,
            rand: ComplementaryMultiplyWithCarryGen::new(RANDOM_SEED),
            display: Display::new(),
            keypad: Keypad::new(),
        };
        assert(r@ =~= initial_state(Seq::new(KEY_COUNT as nat, |k: int| false)));
        r
    }

    /// Copies the program into memory from the program start on. Fails, changing
    /// nothing, when it does not fit.
    pub fn load_cartridge(&mut self, program: Cartridge) -> (r: Result<(), CpuError>)
        requires
            old(self).wf(),
        ensures
            final(self).wf(),
            PROGRAM_START + program@.len() <= MEMORY_SIZE ==> r is Ok && final(self)@ == (
            MachineState { memory: load_spec(old(self)@.memory, program@), ..old(self)@ }),
            PROGRAM_START + program@.len() > MEMORY_SIZE ==> r == Err::<(), CpuError>(
                CpuError::InsufficientMemory,
            ) && final(self)@ == old(self)@,
    {
        let program_memory = program.get_memory();
        if program_memory.len() > MEMORY_SIZE - PROGRAM_START as usize {
            return Err(CpuError::InsufficientMemory);
        }
        let ghost pre = self@;
        copy_program(&mut self.memory, &program_memory);
        assert(self@ =~= MachineState { memory: load_spec(pre.memory, program@), ..pre });
        Ok(())
    }

    /// Puts the machine back in its initial state; the keypad keeps its state.
    pub fn reset(&mut self)
        requires
            old(self).wf(),
        ensures
            final(self).wf(),
            final(self)@ == initial_state(old(self)@.keys),
    {
        let ghost keys = self@.keys;
        self.i = 0;
        self.pc = PROGRAM_START;
        self.memory = initial_memory_vec();
        self.v = vec![0u8; REGISTER_COUNT];
        self.stack = vec![0u16; STACK_SIZE];
        self.sp = 0;
        self.dt = 0;
        self.st = 0;
        self.rand = ComplementaryMultiplyWithCarryGen::new(RANDOM_SEED);
        self.display.cls();
        assert(self@ =~= initial_state(keys));
    }

    /// Presses the key labelled `key`; an unknown label changes nothing.
    pub fn keypad_down(&mut self, key: &str)
        requires
            old(self).wf(),
        ensures
            final(self).wf(),
            final(self)@ == (MachineState { keys: set_key(old(self)@.keys, key@, true), ..old(self)@ }),
    {
        self.keypad.key_down(key)
    }

    /// Releases the key labelled `key`; an unknown label changes nothing.
    pub fn keypad_up(&mut self, key: &str)
        requires
            old(self).wf(),
        ensures
            final(self).wf(),
            final(self)@ == (MachineState { keys: set_key(old(self)@.keys, key@, false), ..old(self)@ }),
    {
        self.keypad.key_up(key)
    }

    /// Runs one instruction: fetches the word at the program counter and executes
    /// it. On success hands back the framebuffer and whether the sound timer is
    /// running; on failure the machine is left as it was.
    pub fn execute_cycle(&mut self) -> (r: Result<ExecutionResult, CpuError>)
        requires
            old(self).wf(),
        ensures
            final(self).wf(),
            match r {
                Ok(res) => cycle_spec(old(self)@) == Ok::<MachineState, CpuError>(final(self)@)
                    && res@ == (final(self)@.vram, final(self)@.st > 0),
                Err(e) => cycle_spec(old(self)@) == Err::<MachineState, CpuError>(e)
                    && final(self)@ == old(self)@,
            },
    {
        if self.pc as usize + 1 >= MEMORY_SIZE {
            return Err(CpuError::InsufficientMemory);
        }
        // read the opcode from the memory
        let opcode = (self.memory[self.pc as usize] as u16) * 256 + (self.memory[self.pc as usize + 1] as u16);
        match self.process_opcode(opcode) {
            Ok(()) => Ok(ExecutionResult::new(self.display.get_vram_copy(), self.st > 0)),
            Err(e) => Err(e),
        }
    }

    /// The program counter.
    pub fn pc(&self) -> (r: u16)
        ensures
            r == self@.pc,
    {
        self.pc
    }

    /// The stack pointer: how many return addresses are saved.
    pub fn sp(&self) -> (r: u8)
        ensures
            r == self@.sp,
    {
        self.sp
    }

    /// The index register.
    pub fn i(&self) -> (r: u16)
        ensures
            r == self@.i,
    {
        self.i
    }

    /// Sets the index register.
    pub fn set_i(&mut self, value: u16)
        requires
            old(self).wf(),
        ensures
            final(self).wf(),
            final(self)@ == (MachineState { i: value, ..old(self)@ }),
    {
        self.i = value;
    }

    /// The value of register `x`.
    pub fn register(&self, x: usize) -> (r: u8)
        requires
            self.wf(),
            x < REGISTER_COUNT,
        ensures
            r == self@.v[x as int],
    {
        self.v[x]
    }

    /// Sets register `x` to `value`.
    pub fn set_register(&mut self, x: usize, value: u8)
        requires
            old(self).wf(),
            x < REGISTER_COUNT,
        ensures
            final(self).wf(),
            final(self)@ == (MachineState { v: old(self)@.v.update(x as int, value), ..old(self)@ }),
    {
        self.v.set(x, value);
    }

    /// The return address in stack slot `k`.
    pub fn stack_entry(&self, k: usize) -> (r: u16)
        requires
            self.wf(),
            k < STACK_SIZE,
        ensures
            r == self@.stack[k as int],
    {
        self.stack[k]
    }

    /// The byte at `address`.
    pub fn memory_at(&self, address: usize) -> (r: u8)
        requires
            self.wf(),
            address < MEMORY_SIZE,
        ensures
            r == self@.memory[address as int],
    {
        self.memory[address]
    }

    /// Sets the byte at `address` to `value`.
    pub fn set_memory(&mut self, address: usize, value: u8)
        requires
            old(self).wf(),
            address < MEMORY_SIZE,
        ensures
            final(self).wf(),
            final(self)@ == (MachineState {
                memory: old(self)@.memory.update(address as int, value),
                ..old(self)@
            }),
    {
        self.memory.set(address, value);
    }

    fn update_timers(&mut self)
        requires
            old(self).wf(),
        ensures
            final(self).wf(),
            final(self)@ == (MachineState {
                dt: countdown(old(self)@.dt),
                st: countdown(old(self)@.st),
                ..old(self)@
            }),
    {
        if self.st > 0 {
            self.st = self.st - 1;
        }
        if self.dt > 0 {
            self.dt = self.dt - 1;
        }
    }

    /// The error that executing `ins` now would run into, if any.
    fn fault(&self, ins: Instruction) -> (r: Option<CpuError>)
        requires
            self.wf(),
            ins.wf(),
        ensures
            r == fault_spec(self@, ins),
    {
        match ins {
            Instruction::Ret => if self.sp == 0 {
                Some(CpuError::StackUnderflow)
            } else {
                None
            },
            Instruction::Call(_) => if self.sp as usize >= STACK_SIZE {
                Some(CpuError::StackOverflow)
            } else {
                None
            },
            Instruction::Draw(_, _, n) => if self.i as usize + n as usize > MEMORY_SIZE {
                Some(CpuError::InsufficientMemory)
            } else {
                None
            },
            Instruction::StoreBcd(_) => if self.i as usize + 3 > MEMORY_SIZE {
                Some(CpuError::InsufficientMemory)
            } else {
                None
            },
            Instruction::StoreRegs(x) | Instruction::LoadRegs(x) => if self.i as usize + x + 1
                > MEMORY_SIZE {
                Some(CpuError::InsufficientMemory)
            } else {
                None
            },
            _ => None,
        }
    }

    /// Executes the instruction word `opcode`. On failure the machine is left as it
    /// was.
    pub fn process_opcode(&mut self, opcode: u16) -> (r: Result<(), CpuError>)
        requires
            old(self).wf(),
        ensures
            final(self).wf(),
            match r {
                Ok(()) => process_spec(old(self)@, opcode) == Ok::<MachineState, CpuError>(final(self)@),
                Err(e) => process_spec(old(self)@, opcode) == Err::<MachineState, CpuError>(e)
                    && final(self)@ == old(self)@,
            },
    {
        let ins = match decode(opcode) {
            Some(ins) => ins,
            None => return Err(CpuError::UnimplementedInstruction(opcode)),
        };
        match self.fault(ins) {
            Some(e) => return Err(e),
            None => {},
        }
        self.execute(ins);
        Ok(())
    }

    /// Executes `ins`, which runs into no error in the current state.
    fn execute(&mut self, ins: Instruction)
        requires
            old(self).wf(),
            ins.wf(),
            fault_spec(old(self)@, ins) is None,
        ensures
            final(self).wf(),
            final(self)@ == apply_spec(old(self)@, ins),
    {
        let ghost pre = self@;
        let pc_before = self.pc;
        // the program counter moves on to the next instruction first
        self.pc = self.pc.wrapping_add(2);
        self.update_timers();
        assert(self@ =~= tick(pre));
        match ins {
            Instruction::Cls => self.display.cls(),
            Instruction::Ret => {
                self.sp = self.sp - 1;
                self.pc = self.stack[self.sp as usize];
            },
            Instruction::Jump(nnn) => self.pc = nnn,
            Instruction::Call(nnn) => {
                // the saved address is that of the instruction after the call
                self.stack.set(self.sp as usize, self.pc);
                self.sp = self.sp + 1;
                self.pc = nnn;
            },
            Instruction::SkipEqByte(x, kk) => if self.v[x] == kk {
                self.pc = self.pc.wrapping_add(2);
            },
            Instruction::SkipNeByte(x, kk) => if self.v[x] != kk {
                self.pc = self.pc.wrapping_add(2);
            },
            Instruction::SkipEqReg(x, y) => if self.v[x] == self.v[y] {
                self.pc = self.pc.wrapping_add(2);
            },
            Instruction::SkipNeReg(x, y) => if self.v[x] != self.v[y] {
                self.pc = self.pc.wrapping_add(2);
            },
            Instruction::LoadByte(x, kk) => self.v.set(x, kk),
            Instruction::AddByte(x, kk) => {
                let vx = self.v[x];
                self.v.set(x, vx.wrapping_add(kk));
            },
            Instruction::LoadReg(x, y) => {
                let vy = self.v[y];
                self.v.set(x, vy);
            },
            Instruction::Or(x, y) => {
                let r = self.v[x] | self.v[y];
                self.v.set(x, r);
            },
            Instruction::And(x, y) => {
                let r = self.v[x] & self.v[y];
                self.v.set(x, r);
            },
            Instruction::Xor(x, y) => {
                let r = self.v[x] ^ self.v[y];
                self.v.set(x, r);
            },
            Instruction::AddReg(x, y) => {
                let total = self.v[x] as u16 + self.v[y] as u16;
                self.v.set(FLAG, if total > 0xFF { 1 } else { 0 });
                self.v.set(x, (total % 256) as u8);
            },
            Instruction::SubReg(x, y) => {
                let (vx, vy) = (self.v[x], self.v[y]);
                self.v.set(FLAG, if vx > vy { 1 } else { 0 });
                self.v.set(x, vx.wrapping_sub(vy));
            },
            Instruction::SubNeg(x, y) => {
                let (vx, vy) = (self.v[x], self.v[y]);
                self.v.set(FLAG, if vy > vx { 1 } else { 0 });
                self.v.set(x, vy.wrapping_sub(vx));
            },
            Instruction::ShiftRight(x) => {
                let vx = self.v[x];
                // the flag receives the bit shifted out
                self.v.set(FLAG, vx % 2);
                self.v.set(x, vx / 2);
            },
            Instruction::ShiftLeft(x) => {
                let vx = self.v[x];
                // the flag receives the bit shifted out
                self.v.set(FLAG, vx / 128);
                self.v.set(x, (vx % 128) * 2);
            },
            Instruction::LoadIndex(nnn) => self.i = nnn,
            Instruction::JumpOffset(nnn) => self.pc = nnn + self.v[0] as u16,
            Instruction::Random(x, kk) => {
                let r = self.rand.random();
                self.v.set(x, ((r % 256) as u8) & kk);
            },
            Instruction::Draw(x, y, n) => {
                let (vx, vy) = (self.v[x], self.v[y]);
                let sprite = memory_range(&self.memory, self.i as usize, n as usize);
                let collision = self.display.draw(vx as usize, vy as usize, sprite.as_slice());
                self.v.set(FLAG, if collision { 1 } else { 0 });
            },
            Instruction::SkipKey(x) => {
                let vx = self.v[x];
                if (vx as usize) < KEY_COUNT && self.keypad.is_key_idx_pressed(vx as usize) {
                    self.pc = self.pc.wrapping_add(2);
                }
            },
            Instruction::SkipNoKey(x) => {
                let vx = self.v[x];
                if !((vx as usize) < KEY_COUNT && self.keypad.is_key_idx_pressed(vx as usize)) {
                    self.pc = self.pc.wrapping_add(2);
                }
            },
            Instruction::LoadDelay(x) => self.v.set(x, self.dt),
            Instruction::WaitKey(x) => {
                match self.keypad.get_first_pressed_key_idx() {
                    Some(idx) => self.v.set(x, idx as u8),
                    // no key yet: stay on this instruction
                    None => self.pc = pc_before,
                }
            },
            Instruction::SetDelay(x) => self.dt = self.v[x],
            Instruction::SetSound(x) => self.st = self.v[x],
            Instruction::AddIndex(x) => self.i = self.i.wrapping_add(self.v[x] as u16),
            Instruction::LoadGlyph(x) => self.i = (self.v[x] % 16) as u16 * 5,
            Instruction::StoreBcd(x) => {
                let vx = self.v[x];
                let i = self.i as usize;
                self.memory.set(i, vx / 100);
                self.memory.set(i + 1, (vx / 10) % 10);
                self.memory.set(i + 2, vx % 10);
            },
            Instruction::StoreRegs(x) => store_registers(&mut self.memory, &self.v, self.i as usize, x),
            Instruction::LoadRegs(x) => load_registers(&mut self.v, &self.memory, self.i as usize, x),
        }
        assert(self@ =~= apply_spec(pre, ins));
    }
}

} // verus!
