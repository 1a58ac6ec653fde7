use vstd::prelude::*;

use crate::vm::address::{unpacked, AddressLocation};
use crate::vm::codec::{le_bytes, le_value};
use crate::vm::compare::{float_holds, holds, Comparison};
use crate::vm::instruction::Opcode;
use crate::vm::register::{bits_of, signed_of, Reg};

verus! {

/// Number of registers in the register file.
pub const REGISTER_COUNT: usize = 16;

/// The most bytes that one move copies: the width of a register.
pub const MOVE_LIMIT: u8 = 8;

/// A fatal condition that stops execution.
#[derive(Clone, Copy, Debug, PartialEq, Eq, Structural)]
pub enum Trap {
    /// An instruction or an operand reads past the end of the program.
    MalformedStream,
    /// The byte at the program counter encodes no opcode.
    InvalidOpcode,
    /// An address falls in a space that the instruction cannot use (heap,
    /// external, a read-only program as destination, or a tag that names no space).
    UnsupportedAddressSpace,
    /// Integer division by zero, or of the least integer by -1.
    ArithmeticTrap,
    /// A pop below the bottom of the stack, or a return with no caller.
    StackUnderflow,
    /// A stack top or stack access beyond what the stack can hold.
    StackOverflow,
    /// A register operand at or above the register count.
    RegisterIndexOutOfRange,
}

/// A floating-point operation, which the engine hands to its host.
#[derive(Clone, Copy, Debug, PartialEq, Eq, Structural)]
pub enum FloatKind {
    Add,
    Sub,
    Mul,
    Div,
    IntToFloat,
    FloatToInt,
}

/// A pending floating-point operation: the host computes it on the operand
/// bits and writes the result into register `dest`.
#[derive(Clone, Copy, Debug, PartialEq, Eq, Structural)]
pub struct FloatOp {
    pub kind: FloatKind,
    pub dest: u8,
    pub lhs: u64,
    pub rhs: u64,
}

/// What one executed instruction asks of the caller.
#[derive(Clone, Copy, Debug, PartialEq, Eq, Structural)]
pub enum Step {
    Continue,
    Halt,
    Float(FloatOp),
}

/// Why a run stopped without a trap.
#[derive(Clone, Copy, Debug, PartialEq, Eq, Structural)]
pub enum Exit {
    Halted,
    Float(FloatOp),
    StepLimit,
}

/// How a jump computes its target from its operand.
#[derive(Clone, Copy, Debug, PartialEq, Eq, Structural)]
pub enum JumpMode {
    Absolute,
    Backward,
    Forward,
}

/// The abstract state of the machine.
pub ghost struct Machine {
    pub program: Seq<u8>,
    pub regs: Seq<Reg>,
    pub pc: int,
    pub sp: int,
    pub stack: Seq<u8>,
    pub calls: Seq<usize>,
}

impl Machine {
    /// Well-formed: a full register file and a stack top inside the buffer.
    pub open spec fn wf(self) -> bool {
        &&& self.regs.len() == REGISTER_COUNT
        &&& 0 <= self.pc
        &&& 0 <= self.sp <= self.stack.len()
    }

    pub open spec fn word(self, i: int) -> nat {
        le_value(self.program.subrange(i, i + 8))
    }

    pub open spec fn at(self, pc: int) -> Machine {
        Machine { pc, ..self }
    }

    pub open spec fn with_reg(self, d: u8, r: Reg) -> Machine {
        Machine { regs: self.regs.update(d as int, r), ..self }
    }
}

pub open spec fn reg_ok(i: u8) -> bool {
    i < REGISTER_COUNT
}

pub open spec fn bool_reg(b: bool) -> Reg {
    Reg { bits: if b { 1 } else { 0 } }
}

pub open spec fn move_len(b: u8) -> nat {
    if b > MOVE_LIMIT { MOVE_LIMIT as nat } else { b as nat }
}

/// `bytes` followed by zeros up to the width of a register.
pub open spec fn pad_word(bytes: Seq<u8>) -> Seq<u8> {
    bytes + Seq::new((8 - bytes.len()) as nat, |i: int| 0u8)
}

/// The length of a stack buffer that must hold `need` bytes: unchanged when
/// it already does, else at least doubled, and never less than `need`.
pub open spec fn grown_len(len: nat, need: nat) -> nat {
    if need <= len {
        len
    } else if need <= 2 * len && 2 * len <= usize::MAX {
        2 * len
    } else {
        need
    }
}

pub open spec fn grown(s: Seq<u8>, need: nat) -> Seq<u8> {
    s + Seq::new((grown_len(s.len(), need) - s.len()) as nat, |i: int| 0u8)
}

/// `s` with `bytes` written from `off` on.
pub open spec fn splice(s: Seq<u8>, off: int, bytes: Seq<u8>) -> Seq<u8> {
    s.subrange(0, off) + bytes + s.subrange(off + bytes.len(), s.len() as int)
}

pub open spec fn float_kind(op: Opcode) -> FloatKind {
    match op {
        Opcode::ADDF => FloatKind::Add,
        Opcode::SUBF => FloatKind::Sub,
        Opcode::MULF => FloatKind::Mul,
        Opcode::DIVF => FloatKind::Div,
        Opcode::ITOF => FloatKind::IntToFloat,
        _ => FloatKind::FloatToInt,
    }
}

pub open spec fn comparison(op: Opcode) -> Comparison {
    match op {
        Opcode::EQ | Opcode::EQF => Comparison::Eq,
        Opcode::NEQ | Opcode::NEQF => Comparison::Neq,
        Opcode::LT | Opcode::LTF => Comparison::Lt,
        Opcode::GT | Opcode::GTF => Comparison::Gt,
        Opcode::GEQ | Opcode::GEQF => Comparison::Geq,
        _ => Comparison::Leq,
    }
}

pub open spec fn jump_mode(op: Opcode) -> JumpMode {
    match op {
        Opcode::JMP | Opcode::JT | Opcode::JF => JumpMode::Absolute,
        Opcode::JMP_B | Opcode::JT_B | Opcode::JF_B => JumpMode::Backward,
        _ => JumpMode::Forward,
    }
}

/// The space that the opcode names for its source operand.
pub open spec fn source_space(op: Opcode) -> AddressLocation {
    match op {
        Opcode::MOVR_P | Opcode::MOVS_P | Opcode::MOVH_P => AddressLocation::Program,
        Opcode::MOVR_S | Opcode::MOVS_S | Opcode::MOVH_S => AddressLocation::Stack,
        Opcode::MOVR_R | Opcode::MOVS_R | Opcode::MOVH_R => AddressLocation::Register,
        _ => AddressLocation::Heap,
    }
}

/// The space that the opcode names for its destination operand.
pub open spec fn dest_space(op: Opcode) -> AddressLocation {
    match op {
        Opcode::MOVS_S | Opcode::MOVS_P | Opcode::MOVS_R | Opcode::MOVS_H => AddressLocation::Stack,
        Opcode::MOVR_R | Opcode::MOVR_P | Opcode::MOVR_S | Opcode::MOVR_H => AddressLocation::Register,
        _ => AddressLocation::Heap,
    }
}

pub open spec fn load(m: Machine, d: u8, r: Reg, next: int) -> (Machine, Result<Step, Trap>) {
    if !reg_ok(d) {
        (m, Err(Trap::RegisterIndexOutOfRange))
    } else {
        (m.with_reg(d, r).at(next), Ok(Step::Continue))
    }
}

/// Integer arithmetic in two's complement: sums, differences and products
/// wrap modulo 2^64; a quotient truncates toward zero.
pub open spec fn int_arith(m: Machine, op: Opcode, d: u8, a: u8, b: u8, next: int) -> (Machine, Result<Step, Trap>) {
    if !(reg_ok(d) && reg_ok(a) && reg_ok(b)) {
        (m, Err(Trap::RegisterIndexOutOfRange))
    } else {
        let x = m.regs[a as int].bits;
        let y = m.regs[b as int].bits;
        let sx = signed_of(x);
        let sy = signed_of(y);
        match op {
            Opcode::ADD => load(m, d, Reg { bits: ((x + y) % 0x1_0000_0000_0000_0000) as u64 }, next),
            Opcode::SUB => load(m, d, Reg { bits: ((x - y) % 0x1_0000_0000_0000_0000) as u64 }, next),
            Opcode::MUL => load(m, d, Reg { bits: ((x * y) % 0x1_0000_0000_0000_0000) as u64 }, next),
            _ => match (sx as i64).checked_div(sy as i64) {
                Some(q) => load(m, d, Reg { bits: bits_of(q) }, next),
                None => (m, Err(Trap::ArithmeticTrap)),
            },
        }
    }
}

pub open spec fn float_request(m: Machine, kind: FloatKind, d: u8, a: u8, b: u8, next: int) -> (Machine, Result<Step, Trap>) {
    if !(reg_ok(d) && reg_ok(a) && reg_ok(b)) {
        (m, Err(Trap::RegisterIndexOutOfRange))
    } else {
        let req = FloatOp { kind, dest: d, lhs: m.regs[a as int].bits, rhs: m.regs[b as int].bits };
        (m.at(next), Ok(Step::Float(req)))
    }
}

pub open spec fn compare(m: Machine, c: Comparison, floats: bool, d: u8, a: u8, b: u8, next: int) -> (Machine, Result<Step, Trap>) {
    if !(reg_ok(d) && reg_ok(a) && reg_ok(b)) {
        (m, Err(Trap::RegisterIndexOutOfRange))
    } else {
        let x = m.regs[a as int].bits;
        let y = m.regs[b as int].bits;
        let r = if floats { float_holds(c, x, y) } else { holds(c, signed_of(x), signed_of(y)) };
        load(m, d, bool_reg(r), next)
    }
}

pub open spec fn logic(m: Machine, op: Opcode, d: u8, a: u8, b: u8, next: int) -> (Machine, Result<Step, Trap>) {
    if !(reg_ok(d) && reg_ok(a) && reg_ok(b)) {
        (m, Err(Trap::RegisterIndexOutOfRange))
    } else {
        let x = m.regs[a as int].bits != 0;
        let y = m.regs[b as int].bits != 0;
        let r = match op {
            Opcode::AND => x && y,
            Opcode::OR => x || y,
            _ => !x,
        };
        load(m, d, bool_reg(r), next)
    }
}

pub open spec fn jump_target(mode: JumpMode, v: nat, next: int) -> int {
    match mode {
        JumpMode::Absolute => v as int,
        JumpMode::Backward => next - v,
        JumpMode::Forward => next + v,
    }
}

/// A jump lands anywhere from the start of the program to its end, which halts.
pub open spec fn jump(m: Machine, mode: JumpMode, v: nat, next: int) -> (Machine, Result<Step, Trap>) {
    let t = jump_target(mode, v, next);
    if t < 0 || t > m.program.len() {
        (m, Err(Trap::MalformedStream))
    } else {
        (m.at(t), Ok(Step::Continue))
    }
}

pub open spec fn cond_jump(m: Machine, mode: JumpMode, when: bool, r: u8, v: nat, next: int) -> (Machine, Result<Step, Trap>) {
    if !reg_ok(r) {
        (m, Err(Trap::RegisterIndexOutOfRange))
    } else if (m.regs[r as int].bits != 0) == when {
        jump(m, mode, v, next)
    } else {
        (m.at(next), Ok(Step::Continue))
    }
}

pub open spec fn call(m: Machine, v: nat, next: int) -> (Machine, Result<Step, Trap>) {
    if v > m.program.len() {
        (m, Err(Trap::MalformedStream))
    } else {
        (Machine { pc: v as int, calls: m.calls.push(next as usize), ..m }, Ok(Step::Continue))
    }
}

pub open spec fn ret(m: Machine) -> (Machine, Result<Step, Trap>) {
    if m.calls.len() == 0 {
        (m, Err(Trap::StackUnderflow))
    } else {
        (Machine { pc: m.calls.last() as int, calls: m.calls.drop_last(), ..m }, Ok(Step::Continue))
    }
}

pub open spec fn push(m: Machine, size: nat, next: int) -> (Machine, Result<Step, Trap>) {
    let top = m.sp + size;
    if top > usize::MAX {
        (m, Err(Trap::StackOverflow))
    } else {
        (Machine { stack: grown(m.stack, top as nat), sp: top, pc: next, ..m }, Ok(Step::Continue))
    }
}

pub open spec fn pop(m: Machine, size: nat, next: int) -> (Machine, Result<Step, Trap>) {
    if size > m.sp {
        (m, Err(Trap::StackUnderflow))
    } else {
        (Machine { sp: m.sp - size, pc: next, ..m }, Ok(Step::Continue))
    }
}

/// The `n` bytes that a source address designates in `space`.
pub open spec fn read_mem(m: Machine, space: AddressLocation, addr: u64, n: nat) -> Result<Seq<u8>, Trap> {
    match unpacked(addr) {
        None => Err(Trap::UnsupportedAddressSpace),
        Some((loc, off)) => if loc != space {
            Err(Trap::UnsupportedAddressSpace)
        } else if loc == AddressLocation::Program {
            if off + n <= m.program.len() {
                Ok(m.program.subrange(off as int, off + n))
            } else {
                Err(Trap::MalformedStream)
            }
        } else if loc == AddressLocation::Stack {
            if off + n <= m.stack.len() {
                Ok(m.stack.subrange(off as int, off + n))
            } else {
                Err(Trap::StackOverflow)
            }
        } else {
            Err(Trap::UnsupportedAddressSpace)
        },
    }
}

/// The stack after `bytes` are written at a destination address in `space`;
/// the stack is the one space that can be written through an address.
pub open spec fn write_mem(m: Machine, space: AddressLocation, addr: u64, bytes: Seq<u8>) -> Result<Seq<u8>, Trap> {
    match unpacked(addr) {
        None => Err(Trap::UnsupportedAddressSpace),
        Some((loc, off)) => if loc != space || loc != AddressLocation::Stack {
            Err(Trap::UnsupportedAddressSpace)
        } else if off + bytes.len() > usize::MAX {
            Err(Trap::StackOverflow)
        } else {
            Ok(splice(grown(m.stack, (off + bytes.len()) as nat), off as int, bytes))
        },
    }
}

pub open spec fn with_stack(m: Machine, r: Result<Seq<u8>, Trap>, next: int) -> (Machine, Result<Step, Trap>) {
    match r {
        Ok(st) => (Machine { stack: st, pc: next, ..m }, Ok(Step::Continue)),
        Err(e) => (m, Err(e)),
    }
}

pub open spec fn move_reg(m: Machine, d: u8, s: u8, next: int) -> (Machine, Result<Step, Trap>) {
    if !(reg_ok(d) && reg_ok(s)) {
        (m, Err(Trap::RegisterIndexOutOfRange))
    } else {
        load(m, d, m.regs[s as int], next)
    }
}

pub open spec fn move_to_reg(m: Machine, space: AddressLocation, d: u8, addr: u64, n: nat, next: int) -> (Machine, Result<Step, Trap>) {
    if !reg_ok(d) {
        (m, Err(Trap::RegisterIndexOutOfRange))
    } else {
        match read_mem(m, space, addr, n) {
            Ok(bytes) => load(m, d, Reg { bits: le_value(pad_word(bytes)) as u64 }, next),
            Err(e) => (m, Err(e)),
        }
    }
}

pub open spec fn move_from_reg(m: Machine, space: AddressLocation, addr: u64, s: u8, n: nat, next: int) -> (Machine, Result<Step, Trap>) {
    if !reg_ok(s) {
        (m, Err(Trap::RegisterIndexOutOfRange))
    } else {
        let bytes = le_bytes(m.regs[s as int].bits as nat, 8).subrange(0, n as int);
        with_stack(m, write_mem(m, space, addr, bytes), next)
    }
}

pub open spec fn move_mem(m: Machine, op: Opcode, daddr: u64, saddr: u64, n: nat, next: int) -> (Machine, Result<Step, Trap>) {
    match read_mem(m, source_space(op), saddr, n) {
        Ok(bytes) => with_stack(m, write_mem(m, dest_space(op), daddr, bytes), next),
        Err(e) => (m, Err(e)),
    }
}

/// The effect of the instruction `op` whose operands start at `at` and which
/// ends just before `next`.
pub open spec fn execute(m: Machine, op: Opcode, at: int, next: int) -> (Machine, Result<Step, Trap>) {
    let p = m.program;
    match op {
        Opcode::HLT => (m.at(next), Ok(Step::Halt)),
        Opcode::LDI | Opcode::LDF => load(m, p[at], Reg { bits: m.word(at + 1) as u64 }, next),
        Opcode::LDB => load(m, p[at], Reg { bits: p[at + 1] as u64 }, next),
        Opcode::ADD | Opcode::SUB | Opcode::MUL | Opcode::DIV => int_arith(m, op, p[at], p[at + 1], p[at + 2], next),
        Opcode::ADDF | Opcode::SUBF | Opcode::MULF | Opcode::DIVF => float_request(m, float_kind(op), p[at], p[at + 1], p[at + 2], next),
        Opcode::ITOF | Opcode::FTOI => float_request(m, float_kind(op), p[at], p[at + 1], p[at + 1], next),
        Opcode::EQ | Opcode::NEQ | Opcode::LT | Opcode::GT | Opcode::GEQ | Opcode::LEQ => compare(m, comparison(op), false, p[at], p[at + 1], p[at + 2], next),
        Opcode::EQF | Opcode::NEQF | Opcode::LTF | Opcode::GTF | Opcode::GEQF | Opcode::LEQF => compare(m, comparison(op), true, p[at], p[at + 1], p[at + 2], next),
        Opcode::AND | Opcode::OR => logic(m, op, p[at], p[at + 1], p[at + 2], next),
        Opcode::NOT => logic(m, op, p[at], p[at + 1], p[at + 1], next),
        Opcode::CALL => call(m, m.word(at), next),
        Opcode::RET => ret(m),
        Opcode::JMP | Opcode::JMP_B | Opcode::JMP_F => jump(m, jump_mode(op), m.word(at), next),
        Opcode::JT | Opcode::JT_B | Opcode::JT_F => cond_jump(m, jump_mode(op), true, p[at], m.word(at + 1), next),
        Opcode::JF | Opcode::JF_B | Opcode::JF_F => cond_jump(m, jump_mode(op), false, p[at], m.word(at + 1), next),
        Opcode::PUSH => push(m, m.word(at), next),
        Opcode::POP => pop(m, m.word(at), next),
        Opcode::MOVR_R => move_reg(m, p[at], p[at + 1], next),
        Opcode::MOVR_P | Opcode::MOVR_S | Opcode::MOVR_H => move_to_reg(m, source_space(op), p[at], m.word(at + 1) as u64, move_len(p[at + 9]), next),
        Opcode::MOVS_R | Opcode::MOVH_R => move_from_reg(m, dest_space(op), m.word(at) as u64, p[at + 8], move_len(p[at + 9]), next),
        _ => move_mem(m, op, m.word(at) as u64, m.word(at + 8) as u64, move_len(p[at + 16]), next),
    }
}

/// One fetch-decode-execute cycle. A program counter at or past the end of
/// the program halts; a trap leaves the machine as it was.
///
/// Choices that the instruction set leaves to the engine: a byte that encodes
/// no opcode traps rather than halting; a return with an empty call stack
/// traps as an underflow; each address operand must point into the space that
/// the opcode names, and only the stack can be written through one; floating
/// point arithmetic and conversions are handed to the host as a `FloatOp`.
pub open spec fn step(m: Machine) -> (Machine, Result<Step, Trap>) {
    if m.pc < 0 || m.pc >= m.program.len() {
        (m, Ok(Step::Halt))
    } else {
        match Opcode::decode(m.program[m.pc]) {
            None => (m, Err(Trap::InvalidOpcode)),
            Some(op) => {
                let next = m.pc + 1 + op.operand_len();
                if next > m.program.len() {
                    (m, Err(Trap::MalformedStream))
                } else {
                    execute(m, op, m.pc + 1, next)
                }
            },
        }
    }
}

/// Up to `fuel` cycles, stopping at a halt, a trap or a float request.
pub open spec fn run_steps(m: Machine, fuel: nat) -> (Machine, Result<Exit, Trap>)
    decreases fuel,
{
    if fuel == 0 {
        (m, Ok(Exit::StepLimit))
    } else {
        let (m2, r) = step(m);
        match r {
            Err(e) => (m2, Err(e)),
            Ok(Step::Halt) => (m2, Ok(Exit::Halted)),
            Ok(Step::Float(f)) => (m2, Ok(Exit::Float(f))),
            Ok(Step::Continue) => run_steps(m2, (fuel - 1) as nat),
        }
    }
}

} // verus!
