use vstd::prelude::*;

use crate::cpu::{
    cycle_spec, execute_spec, fetch_spec, FLAG, Instruction, MachineState, REGISTER_COUNT,
    STACK_SIZE,
};
use crate::display::blank_grid;
use crate::keypad::{first_pressed, KEY_COUNT};
use crate::MEMORY_SIZE;

verus! {

/// The instruction word with nibbles `a x y n`, most significant first.
pub open spec fn word(a: int, x: int, y: int, n: int) -> u16 {
    (a * 0x1000 + x * 0x100 + y * 0x10 + n) as u16
}

proof fn lemma_word_nibbles(a: int, x: int, y: int, n: int)
    requires
        0 <= a < 16,
        0 <= x < 16,
        0 <= y < 16,
        0 <= n < 16,
    ensures
        word(a, x, y, n) / 0x1000 == a,
        (word(a, x, y, n) / 0x100) % 0x10 == x,
        (word(a, x, y, n) / 0x10) % 0x10 == y,
        word(a, x, y, n) % 0x10 == n,
        word(a, x, y, n) % 0x100 == y * 0x10 + n,
        word(a, x, y, n) % 0x1000 == x * 0x100 + y * 0x10 + n,
{
    let w = a * 0x1000 + x * 0x100 + y * 0x10 + n;
    assert(word(a, x, y, n) == w);
    vstd::arithmetic::div_mod::lemma_fundamental_div_mod_converse(w, 0x1000, a, x * 0x100 + y * 0x10 + n);
    vstd::arithmetic::div_mod::lemma_fundamental_div_mod_converse(w, 0x100, a * 0x10 + x, y * 0x10 + n);
    vstd::arithmetic::div_mod::lemma_fundamental_div_mod_converse(a * 0x10 + x, 0x10, a, x);
    vstd::arithmetic::div_mod::lemma_fundamental_div_mod_converse(w, 0x10, a * 0x100 + x * 0x10 + y, n);
    vstd::arithmetic::div_mod::lemma_fundamental_div_mod_converse(a * 0x100 + x * 0x10 + y, 0x10, a * 0x10 + x, y);
}

/// Adding two registers (8xy4) with the instruction at the program counter stores
/// `(a + b) mod 256` in `Vx` and sets the flag register to 1 exactly when `a + b`
/// exceeds 255, for every pair of values `a`, `b` held in `Vx` and `Vy`.
pub proof fn lemma_add_registers(m: MachineState, x: int, y: int)
    requires
        m.wf(),
        0 <= x < REGISTER_COUNT,
        0 <= y < REGISTER_COUNT,
        x != FLAG,
        fetch_spec(m) == Some(word(0x8, x, y, 0x4)),
    ensures
        cycle_spec(m) matches Ok(n) && n.v[x] == (m.v[x] + m.v[y]) % 256 && n.v[FLAG as int] == (
        if m.v[x] + m.v[y] > 255 {
            1u8
        } else {
            0u8
        }),
{
    lemma_word_nibbles(0x8, x, y, 0x4);
}

/// Subtracting registers (8xy5) stores `(a - b) mod 256` in `Vx` and sets the flag
/// register to 1 exactly when `a > b`.
pub proof fn lemma_sub_registers(m: MachineState, x: int, y: int)
    requires
        m.wf(),
        0 <= x < REGISTER_COUNT,
        0 <= y < REGISTER_COUNT,
        x != FLAG,
        fetch_spec(m) == Some(word(0x8, x, y, 0x5)),
    ensures
        cycle_spec(m) matches Ok(n) && n.v[x] == (m.v[x] - m.v[y]) % 256 && n.v[FLAG as int] == (
        if m.v[x] > m.v[y] {
            1u8
        } else {
            0u8
        }),
{
    lemma_word_nibbles(0x8, x, y, 0x5);
}

/// Skip-if-equal (3xkk) moves the program counter on by 4 when `Vx == kk` and by 2
/// otherwise.
pub proof fn lemma_skip_if_equal(m: MachineState, x: int, kk: int)
    requires
        m.wf(),
        0 <= x < REGISTER_COUNT,
        0 <= kk < 256,
        fetch_spec(m) == Some(word(0x3, x, kk / 16, kk % 16)),
    ensures
        cycle_spec(m) matches Ok(n) && n.pc == if m.v[x] == kk {
            m.pc + 4
        } else {
            m.pc + 2
        },
{
    lemma_word_nibbles(0x3, x, kk / 16, kk % 16);
}

/// A call (2nnn) followed by a return (00EE) at the called address brings the
/// program counter back to the instruction after the call and the stack pointer
/// back to its value before the call.
pub proof fn lemma_call_then_return(m: MachineState, nnn: int)
    requires
        m.wf(),
        0 <= nnn < 0x1000,
        m.sp < STACK_SIZE,
        fetch_spec(m) == Some(word(0x2, nnn / 0x100, (nnn / 0x10) % 0x10, nnn % 0x10)),
        nnn + 1 < MEMORY_SIZE,
        m.memory[nnn] == 0x00,
        m.memory[nnn + 1] == 0xEE,
    ensures
        cycle_spec(m) matches Ok(n) && n.pc == nnn && (cycle_spec(n) matches Ok(r) && r.pc == m.pc
            + 2 && r.sp == m.sp),
{
    lemma_word_nibbles(0x2, nnn / 0x100, (nnn / 0x10) % 0x10, nnn % 0x10);
    let n = cycle_spec(m)->Ok_0;
    assert(fetch_spec(n) == Some(0x00EEu16));
}

/// Clearing the screen (00E0) turns every pixel off, whatever was drawn before.
pub proof fn lemma_clear_screen(m: MachineState)
    requires
        m.wf(),
        fetch_spec(m) == Some(0x00E0u16),
    ensures
        cycle_spec(m) matches Ok(n) && n.vram == blank_grid() && forall|k: int|
            0 <= k < n.vram.len() ==> #[trigger] n.vram[k] == 0,
{
}

/// Storing the decimal digits of `Vx` (Fx33) writes three digits below 10 at `I`,
/// `I + 1` and `I + 2` that spell the value of `Vx`.
pub proof fn lemma_store_bcd(m: MachineState, x: int)
    requires
        m.wf(),
        0 <= x < REGISTER_COUNT,
        m.i + 3 <= MEMORY_SIZE,
        fetch_spec(m) == Some(word(0xF, x, 0x3, 0x3)),
    ensures
        cycle_spec(m) matches Ok(n) && n.memory[m.i as int] < 10 && n.memory[m.i + 1] < 10
            && n.memory[m.i + 2] < 10 && 100 * n.memory[m.i as int] + 10 * n.memory[m.i + 1]
            + n.memory[m.i + 2] == m.v[x],
{
    lemma_word_nibbles(0xF, x, 0x3, 0x3);
}

/// Storing registers 0 through `x` at `I` (Fx55) and loading them back from the same
/// place (Fx65) gives every register its value from before; memory past `I + x` is
/// left alone.
pub proof fn lemma_store_load_round_trip(m: MachineState, x: usize)
    requires
        m.wf(),
        x < REGISTER_COUNT,
        m.i + x + 1 <= MEMORY_SIZE,
    ensures
        execute_spec(m, Instruction::StoreRegs(x)) matches Ok(n) && (execute_spec(
            n,
            Instruction::LoadRegs(x),
        ) matches Ok(r) && r.v == m.v && forall|a: int|
            m.i + x < a < MEMORY_SIZE ==> #[trigger] r.memory[a] == m.memory[a]),
{
    let n = execute_spec(m, Instruction::StoreRegs(x))->Ok_0;
    let r = execute_spec(n, Instruction::LoadRegs(x))->Ok_0;
    assert(r.v =~= m.v);
}

/// Waiting for a key (Fx0A) with no key pressed leaves the program counter on the
/// same instruction and `Vx` unchanged; with a key pressed it moves on by 2 and
/// stores the lowest pressed key index in `Vx`.
pub proof fn lemma_wait_for_key(m: MachineState, x: int)
    requires
        m.wf(),
        0 <= x < REGISTER_COUNT,
        fetch_spec(m) == Some(word(0xF, x, 0x0, 0xA)),
    ensures
        (forall|k: int| 0 <= k < KEY_COUNT ==> !#[trigger] m.keys[k]) ==> (cycle_spec(m) matches Ok(
            n,
        ) && n.pc == m.pc && n.v == m.v),
        first_pressed(m.keys) matches Some(k) ==> (cycle_spec(m) matches Ok(n) && n.pc == m.pc + 2
            && n.v[x] == k),
{
    lemma_word_nibbles(0xF, x, 0x0, 0xA);
    if forall|k: int| 0 <= k < KEY_COUNT ==> !#[trigger] m.keys[k] {
        lemma_no_key_pressed(m.keys, 0);
    }
    lemma_first_pressed_in_range(m.keys, 0);
}

proof fn lemma_first_pressed_in_range(keys: Seq<bool>, k: int)
    requires
        0 <= k <= keys.len(),
        keys.len() <= KEY_COUNT,
    ensures
        crate::keypad::first_pressed_from(keys, k) matches Some(r) ==> k <= r < keys.len(),
    decreases keys.len() - k,
{
    if k < keys.len() {
        lemma_first_pressed_in_range(keys, k + 1);
    }
}

proof fn lemma_no_key_pressed(keys: Seq<bool>, k: int)
    requires
        0 <= k <= keys.len(),
        forall|j: int| 0 <= j < keys.len() ==> !#[trigger] keys[j],
    ensures
        crate::keypad::first_pressed_from(keys, k) is None,
    decreases keys.len() - k,
{
    if k < keys.len() {
        lemma_no_key_pressed(keys, k + 1);
    }
}

} // verus!
