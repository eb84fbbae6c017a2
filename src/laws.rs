use vstd::prelude::*;

use crate::cpu::{
    execute_spec, set_reg, step_spec, word_at, wrap_sub, CpuState, FLAG, MEMORY_SIZE,
    STACK_CAPACITY,
};
use crate::instruction::{decode_spec, Instruction};
use crate::cpu::CpuError;
use crate::keypad::lowest_held;

verus! {

/// The shape that every state of a well-formed processor has.
pub open spec fn valid(s: CpuState) -> bool {
    &&& s.v.len() == 16
    &&& s.mem.len() == MEMORY_SIZE
    &&& s.stack.len() <= STACK_CAPACITY
    &&& s.keys.len() == 16
}

/// Adding registers sets the flag to 1 exactly when the sum passes 255 and
/// to 0 otherwise, and leaves the sum modulo 256 in `Vx` (unless `Vx` is
/// the flag register itself, which the flag overwrites).
pub proof fn law_add_registers(s: CpuState, x: u8, y: u8, rnd: u8, collided: bool)
    requires
        valid(s),
        s.pc + 1 < MEMORY_SIZE,
        x < 16,
        y < 16,
    ensures
        ({
            let a = s.v[x as int];
            let b = s.v[y as int];
            let t = execute_spec(s, Instruction::AddRegisters { x, y }, rnd, collided)->Ok_0;
            &&& execute_spec(s, Instruction::AddRegisters { x, y }, rnd, collided) is Ok
            &&& (t.v[FLAG as int] == 1 <==> a + b > 255)
            &&& (t.v[FLAG as int] == 0 <==> a + b <= 255)
            &&& (x != FLAG ==> t.v[x as int] == (a + b) % 256)
        }),
{
}

/// Subtracting sets the flag to 0 exactly when `Vx < Vy` (a borrow) and to
/// 1 otherwise, and leaves `(Vx - Vy) mod 256` in `Vx` (unless `Vx` is the
/// flag register itself).
pub proof fn law_sub(s: CpuState, x: u8, y: u8, rnd: u8, collided: bool)
    requires
        valid(s),
        s.pc + 1 < MEMORY_SIZE,
        x < 16,
        y < 16,
    ensures
        ({
            let a = s.v[x as int];
            let b = s.v[y as int];
            let t = execute_spec(s, Instruction::Sub { x, y }, rnd, collided)->Ok_0;
            &&& execute_spec(s, Instruction::Sub { x, y }, rnd, collided) is Ok
            &&& (t.v[FLAG as int] == 0 <==> a < b)
            &&& (t.v[FLAG as int] == 1 <==> a >= b)
            &&& (x != FLAG ==> t.v[x as int] as int == (a - b) % 256)
        }),
{
    let a = s.v[x as int];
    let b = s.v[y as int];
    assert(wrap_sub(a, b) as int == (a - b) % 256);
}

/// Both shifts leave 0 or 1 in the flag register.
pub proof fn law_shift_flag(s: CpuState, x: u8, rnd: u8, collided: bool)
    requires
        valid(s),
        s.pc + 1 < MEMORY_SIZE,
        x < 16,
    ensures
        ({
            let l = execute_spec(s, Instruction::ShiftLeft { x }, rnd, collided);
            let r = execute_spec(s, Instruction::ShiftRight { x }, rnd, collided);
            &&& l is Ok
            &&& r is Ok
            &&& (l->Ok_0.v[FLAG as int] == 0 || l->Ok_0.v[FLAG as int] == 1)
            &&& (r->Ok_0.v[FLAG as int] == 0 || r->Ok_0.v[FLAG as int] == 1)
        }),
{
}

/// A call followed by a return resumes at the instruction after the call,
/// with the stack as it was before the call.
pub proof fn law_call_return(s: CpuState, addr: u16, rnd: u8, collided: bool)
    requires
        valid(s),
        addr + 1 < MEMORY_SIZE,
        execute_spec(s, Instruction::Call { addr }, rnd, collided) is Ok,
    ensures
        ({
            let c = execute_spec(s, Instruction::Call { addr }, rnd, collided)->Ok_0;
            let r = execute_spec(c, Instruction::Return, rnd, collided);
            &&& r is Ok
            &&& r->Ok_0.pc == s.pc + 2
            &&& r->Ok_0.stack == s.stack
        }),
{
    let c = execute_spec(s, Instruction::Call { addr }, rnd, collided)->Ok_0;
    assert(c.stack.drop_last() =~= s.stack);
}

/// While no key is held, a cycle that meets an await-key instruction leaves
/// the whole state unchanged, so the next cycle meets it again.
pub proof fn law_await_key_idle(s: CpuState, rnd: u8, collided: bool)
    requires
        valid(s),
        s.pc + 1 < MEMORY_SIZE,
        decode_spec(word_at(s.mem, s.pc as int)) is AwaitKey,
        forall|k: int| 0 <= k < 16 ==> !#[trigger] s.keys[k],
    ensures
        step_spec(s, rnd, collided) == Ok::<CpuState, CpuError>(s),
{
    crate::keypad::lemma_lowest_held_none(s.keys);
}

/// Once a key is held, await-key puts the lowest-indexed held key in `Vx`
/// and moves past the instruction exactly once.
pub proof fn law_await_key_pressed(s: CpuState, x: u8, k: int, rnd: u8, collided: bool)
    requires
        valid(s),
        s.pc + 1 < MEMORY_SIZE,
        x < 16,
        crate::keypad::is_lowest_held(s.keys, k),
    ensures
        execute_spec(s, Instruction::AwaitKey { x }, rnd, collided) == Ok::<CpuState, CpuError>(
            set_reg(CpuState { pc: (s.pc + 2) as u16, ..s }, x, k as u8),
        ),
{
    let c = choose|c: int| crate::keypad::is_lowest_held(s.keys, c);
    crate::keypad::lemma_lowest_held_unique(s.keys, c, k);
    assert(lowest_held(s.keys) == Some(k));
}

/// Storing registers `0..=x` and then loading them back from the same
/// index gives every register its value from before.
pub proof fn law_store_then_load(s: CpuState, x: u8, rnd: u8, collided: bool)
    requires
        valid(s),
        s.pc + 3 < MEMORY_SIZE,
        x < 16,
        execute_spec(s, Instruction::StoreRegisters { x }, rnd, collided) is Ok,
    ensures
        ({
            let a = execute_spec(s, Instruction::StoreRegisters { x }, rnd, collided)->Ok_0;
            let b = execute_spec(a, Instruction::LoadRegisters { x }, rnd, collided);
            &&& b is Ok
            &&& b->Ok_0.v == s.v
            &&& b->Ok_0.i == s.i
        }),
{
    let a = execute_spec(s, Instruction::StoreRegisters { x }, rnd, collided)->Ok_0;
    let b = execute_spec(a, Instruction::LoadRegisters { x }, rnd, collided)->Ok_0;
    assert(b.v =~= s.v);
}

} // verus!
