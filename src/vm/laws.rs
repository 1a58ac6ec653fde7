use vstd::prelude::*;

use crate::vm::instruction::{lemma_opcode_round_trip, Opcode};
use crate::vm::machine_model::{int_arith, push, run_steps, step, Exit, Machine, Step, Trap};
use crate::vm::register::signed_of;

verus! {

/// An absolute jump whose target lies inside the program moves the next
/// fetch to that target.
pub proof fn lemma_jump_lands_on_target(m: Machine)
    requires
        m.wf(),
        m.pc + 9 <= m.program.len(),
        m.program[m.pc] == Opcode::JMP.code(),
        m.word(m.pc + 1) <= m.program.len(),
    ensures
        step(m) == (m.at(m.word(m.pc + 1) as int), Ok::<Step, Trap>(Step::Continue)),
{
    lemma_opcode_round_trip(Opcode::JMP);
}

/// A call pushes the address just after its own nine bytes and jumps to its
/// target; a return found there pops that address back into the program
/// counter and leaves the call stack as it was before the call.
pub proof fn lemma_call_then_return(m: Machine)
    requires
        m.wf(),
        m.program.len() <= usize::MAX,
        m.pc + 9 <= m.program.len(),
        m.program[m.pc] == Opcode::CALL.code(),
        m.word(m.pc + 1) < m.program.len(),
        m.program[m.word(m.pc + 1) as int] == Opcode::RET.code(),
    ensures
        step(m).1 == Ok::<Step, Trap>(Step::Continue),
        step(m).0.pc == m.word(m.pc + 1),
        step(m).0.calls == m.calls.push((m.pc + 9) as usize),
        step(step(m).0).1 == Ok::<Step, Trap>(Step::Continue),
        step(step(m).0).0.pc == m.pc + 9,
        step(step(m).0).0.calls == m.calls,
{
    lemma_opcode_round_trip(Opcode::CALL);
    lemma_opcode_round_trip(Opcode::RET);
    let m1 = step(m).0;
    assert(m1.calls.drop_last() =~= m.calls);
}

/// A push raises the stack top by its size, grows the buffer to hold the new
/// top (at least doubling it, where the address space allows, whenever it
/// must grow) and keeps every byte that the buffer held.
pub proof fn lemma_push_keeps_and_grows(m: Machine, size: nat, next: int)
    requires
        m.wf(),
        m.sp + size <= usize::MAX,
        next >= 0,
    ensures
        push(m, size, next).1 == Ok::<Step, Trap>(Step::Continue),
        push(m, size, next).0.wf(),
        push(m, size, next).0.sp == m.sp + size,
        push(m, size, next).0.stack.subrange(0, m.stack.len() as int) == m.stack,
        m.sp + size > m.stack.len() ==> push(m, size, next).0.stack.len() >= 2 * m.stack.len()
            || 2 * m.stack.len() > usize::MAX,
{
    let m2 = push(m, size, next).0;
    assert(m2.stack.subrange(0, m.stack.len() as int) =~= m.stack);
}

/// A program made of a single `HLT` halts after one cycle, just past that
/// byte, with registers and stack untouched.
pub proof fn lemma_halt_only_program(m: Machine, fuel: nat)
    requires
        m.wf(),
        m.pc == 0,
        m.program == seq![Opcode::HLT.code()],
        fuel >= 1,
    ensures
        step(m) == (m.at(1), Ok::<Step, Trap>(Step::Halt)),
        run_steps(m, fuel) == (m.at(1), Ok::<Exit, Trap>(Exit::Halted)),
{
    lemma_opcode_round_trip(Opcode::HLT);
}

/// A bit pattern that differs from an integer of the signed 64-bit range by a
/// multiple of 2^64 reads back as that integer.
proof fn lemma_signed_of_congruent(v: int, k: int)
    requires
        i64::MIN <= v <= i64::MAX,
        0 <= v + k * 0x1_0000_0000_0000_0000 < 0x1_0000_0000_0000_0000,
    ensures
        signed_of((v + k * 0x1_0000_0000_0000_0000) as u64) == v,
{
    assert(k == 0 || k == 1) by (nonlinear_arith)
        requires
            i64::MIN <= v <= i64::MAX,
            0 <= v + k * 0x1_0000_0000_0000_0000 < 0x1_0000_0000_0000_0000,
    ;
}

/// `p` reduced modulo 2^64 is `p` shifted by a whole number of 2^64.
proof fn lemma_mod_shift(p: int) -> (k: int)
    ensures
        p % 0x1_0000_0000_0000_0000 == p + k * 0x1_0000_0000_0000_0000,
{
    vstd::arithmetic::div_mod::lemma_fundamental_div_mod(p, 0x1_0000_0000_0000_0000);
    -(p / 0x1_0000_0000_0000_0000)
}

/// Integer arithmetic is exact on the signed readings of the registers: a
/// sum, difference or product that fits in 64 bits is stored as that value,
/// and a division by zero traps.
pub proof fn lemma_int_arith_exact(m: Machine, d: u8, a: u8, b: u8, next: int)
    requires
        m.wf(),
        d < 16,
        a < 16,
        b < 16,
    ensures
        ({
            let x = signed_of(m.regs[a as int].bits);
            let y = signed_of(m.regs[b as int].bits);
            &&& i64::MIN <= x + y <= i64::MAX ==> int_arith(m, Opcode::ADD, d, a, b, next).1 == Ok::<Step, Trap>(Step::Continue)
                && signed_of(int_arith(m, Opcode::ADD, d, a, b, next).0.regs[d as int].bits) == x + y
            &&& i64::MIN <= x - y <= i64::MAX ==> int_arith(m, Opcode::SUB, d, a, b, next).1 == Ok::<Step, Trap>(Step::Continue)
                && signed_of(int_arith(m, Opcode::SUB, d, a, b, next).0.regs[d as int].bits) == x - y
            &&& i64::MIN <= x * y <= i64::MAX ==> int_arith(m, Opcode::MUL, d, a, b, next).1 == Ok::<Step, Trap>(Step::Continue)
                && signed_of(int_arith(m, Opcode::MUL, d, a, b, next).0.regs[d as int].bits) == x * y
            &&& y == 0 ==> int_arith(m, Opcode::DIV, d, a, b, next) == (m, Err::<Step, Trap>(Trap::ArithmeticTrap))
        }),
{
    let xb = m.regs[a as int].bits as int;
    let yb = m.regs[b as int].bits as int;
    let x = signed_of(m.regs[a as int].bits);
    let y = signed_of(m.regs[b as int].bits);
    let big: int = 0x1_0000_0000_0000_0000;
    let i: int = if xb >= 0x8000_0000_0000_0000 { 1 } else { 0 };
    let j: int = if yb >= 0x8000_0000_0000_0000 { 1 } else { 0 };
    assert(xb == x + i * big && yb == y + j * big);
    if i64::MIN <= x + y <= i64::MAX {
        let k = lemma_mod_shift(xb + yb);
        lemma_signed_of_congruent(x + y, k + i + j);
    }
    if i64::MIN <= x - y <= i64::MAX {
        let k = lemma_mod_shift(xb - yb);
        lemma_signed_of_congruent(x - y, k + i - j);
    }
    if i64::MIN <= x * y <= i64::MAX {
        let k = lemma_mod_shift(xb * yb);
        assert(xb * yb == x * y + (x * j + y * i + i * j * big) * big) by (nonlinear_arith)
            requires
                xb == x + i * big,
                yb == y + j * big,
        ;
        lemma_signed_of_congruent(x * y, k + x * j + y * i + i * j * big);
    }
}

} // verus!
