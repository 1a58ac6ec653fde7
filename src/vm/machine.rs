use vstd::prelude::*;

use crate::vm::address::{unpack_address, AddressLocation};
use crate::vm::codec::{read_word, word_bytes};
use crate::vm::compare::{compare_floats, compare_ints, Comparison};
use crate::vm::instruction::Opcode;
use crate::vm::machine_model as model;
use crate::vm::machine_model::{
    Exit, FloatKind, FloatOp, JumpMode, Machine, Step, Trap, MOVE_LIMIT, REGISTER_COUNT,
};
use crate::vm::register::Reg;

verus! {

proof fn lemma_mod_word(v: int, k: int)
    requires
        0 <= v - k * 0x1_0000_0000_0000_0000 < 0x1_0000_0000_0000_0000,
    ensures
        v % 0x1_0000_0000_0000_0000 == v - k * 0x1_0000_0000_0000_0000,
{
    vstd::arithmetic::div_mod::lemma_fundamental_div_mod_converse(
        v,
        0x1_0000_0000_0000_0000,
        k,
        v - k * 0x1_0000_0000_0000_0000,
    );
}

fn float_kind_of(op: Opcode) -> (r: FloatKind)
    ensures
        r == model::float_kind(op),
{
    match op {
        Opcode::ADDF => FloatKind::Add,
        Opcode::SUBF => FloatKind::Sub,
        Opcode::MULF => FloatKind::Mul,
        Opcode::DIVF => FloatKind::Div,
        Opcode::ITOF => FloatKind::IntToFloat,
        _ => FloatKind::FloatToInt,
    }
}

fn comparison_of(op: Opcode) -> (r: Comparison)
    ensures
        r == model::comparison(op),
{
    match op {
        Opcode::EQ | Opcode::EQF => Comparison::Eq,
        Opcode::NEQ | Opcode::NEQF => Comparison::Neq,
        Opcode::LT | Opcode::LTF => Comparison::Lt,
        Opcode::GT | Opcode::GTF => Comparison::Gt,
        Opcode::GEQ | Opcode::GEQF => Comparison::Geq,
        _ => Comparison::Leq,
    }
}

fn jump_mode_of(op: Opcode) -> (r: JumpMode)
    ensures
        r == model::jump_mode(op),
{
    match op {
        Opcode::JMP | Opcode::JT | Opcode::JF => JumpMode::Absolute,
        Opcode::JMP_B | Opcode::JT_B | Opcode::JF_B => JumpMode::Backward,
        _ => JumpMode::Forward,
    }
}

fn source_space_of(op: Opcode) -> (r: AddressLocation)
    ensures
        r == model::source_space(op),
{
    match op {
        Opcode::MOVR_P | Opcode::MOVS_P | Opcode::MOVH_P => AddressLocation::Program,
        Opcode::MOVR_S | Opcode::MOVS_S | Opcode::MOVH_S => AddressLocation::Stack,
        Opcode::MOVR_R | Opcode::MOVS_R | Opcode::MOVH_R => AddressLocation::Register,
        _ => AddressLocation::Heap,
    }
}

fn dest_space_of(op: Opcode) -> (r: AddressLocation)
    ensures
        r == model::dest_space(op),
{
    match op {
        Opcode::MOVS_S | Opcode::MOVS_P | Opcode::MOVS_R | Opcode::MOVS_H => AddressLocation::Stack,
        Opcode::MOVR_R | Opcode::MOVR_P | Opcode::MOVR_S | Opcode::MOVR_H => AddressLocation::Register,
        _ => AddressLocation::Heap,
    }
}

/// Instructions that only read and write registers.
spec fn is_compute(op: Opcode) -> bool {
    match op {
        Opcode::LDI | Opcode::LDF | Opcode::LDB | Opcode::ADD | Opcode::SUB | Opcode::MUL | Opcode::DIV
        | Opcode::ADDF | Opcode::SUBF | Opcode::MULF | Opcode::DIVF | Opcode::ITOF | Opcode::FTOI
        | Opcode::EQ | Opcode::NEQ | Opcode::LT | Opcode::GT | Opcode::GEQ | Opcode::LEQ
        | Opcode::EQF | Opcode::NEQF | Opcode::LTF | Opcode::GTF | Opcode::GEQF | Opcode::LEQF
        | Opcode::AND | Opcode::OR | Opcode::NOT => true,
        _ => false,
    }
}

/// Instructions that move the program counter or the stack top.
spec fn is_control(op: Opcode) -> bool {
    match op {
        Opcode::HLT | Opcode::CALL | Opcode::RET | Opcode::JMP | Opcode::JMP_B | Opcode::JMP_F
        | Opcode::JT | Opcode::JT_B | Opcode::JT_F | Opcode::JF | Opcode::JF_B | Opcode::JF_F
        | Opcode::PUSH | Opcode::POP => true,
        _ => false,
    }
}

fn compute_opcode(op: Opcode) -> (r: bool)
    ensures
        r == is_compute(op),
{
    match op {
        Opcode::LDI | Opcode::LDF | Opcode::LDB | Opcode::ADD | Opcode::SUB | Opcode::MUL | Opcode::DIV
        | Opcode::ADDF | Opcode::SUBF | Opcode::MULF | Opcode::DIVF | Opcode::ITOF | Opcode::FTOI
        | Opcode::EQ | Opcode::NEQ | Opcode::LT | Opcode::GT | Opcode::GEQ | Opcode::LEQ
        | Opcode::EQF | Opcode::NEQF | Opcode::LTF | Opcode::GTF | Opcode::GEQF | Opcode::LEQF
        | Opcode::AND | Opcode::OR | Opcode::NOT => true,
        _ => false,
    }
}

fn control_opcode(op: Opcode) -> (r: bool)
    ensures
        r == is_control(op),
{
    match op {
        Opcode::HLT | Opcode::CALL | Opcode::RET | Opcode::JMP | Opcode::JMP_B | Opcode::JMP_F
        | Opcode::JT | Opcode::JT_B | Opcode::JT_F | Opcode::JF | Opcode::JF_B | Opcode::JF_F
        | Opcode::PUSH | Opcode::POP => true,
        _ => false,
    }
}

fn move_len_of(b: u8) -> (r: usize)
    ensures
        r == model::move_len(b),
        r <= 8,
{
    if b > MOVE_LIMIT {
        MOVE_LIMIT as usize
    } else {
        b as usize
    }
}

/// The virtual machine: registers, program, stack and call stack.
pub struct VM {
    registers: Vec<Reg>,
    pc: usize,
    sp: usize,
    program: Vec<u8>,
    stack: Vec<u8>,
    call_stack: Vec<usize>,
}

impl View for VM {
    type V = Machine;

    closed spec fn view(&self) -> Machine {
        Machine {
            program: self.program@,
            regs: self.registers@,
            pc: self.pc as int,
            sp: self.sp as int,
            stack: self.stack@,
            calls: self.call_stack@,
        }
    }
}

impl VM {
    pub open spec fn wf(&self) -> bool {
        self@.wf()
    }

    /// A machine with zeroed registers, an empty program and a zeroed stack
    /// buffer of `stack_size` bytes.
    pub fn new(stack_size: usize) -> (r: Self)
        ensures
            r.wf(),
            r@.program == Seq::<u8>::empty(),
            r@.regs == Seq::new(REGISTER_COUNT as nat, |i: int| Reg { bits: 0 }),
            r@.pc == 0,
            r@.sp == 0,
            r@.stack == Seq::new(stack_size as nat, |i: int| 0u8),
            r@.calls == Seq::<usize>::empty(),
    {
        let mut registers: Vec<Reg> = Vec::new();
        let mut i: usize = 0;
        while i < REGISTER_COUNT
            invariant
                i <= REGISTER_COUNT,
                registers@ == Seq::new(i as nat, |j: int| Reg { bits: 0 }),
            decreases REGISTER_COUNT - i,
        {
            registers.push(Reg::new());
            i = i + 1;
            assert(registers@ =~= Seq::new(i as nat, |j: int| Reg { bits: 0 }));
        }
        let mut stack: Vec<u8> = Vec::new();
        stack.resize(stack_size, 0u8);
        assert(stack@ =~= Seq::new(stack_size as nat, |i: int| 0u8));
        Self {
            registers: registers,
            pc: 0,
            sp: 0,
            program: Vec::new(),
            stack: stack,
            call_stack: Vec::new(),
        }
    }

    /// Replaces the program and moves the program counter to its start.
    pub fn load_program(&mut self, program: Vec<u8>)
        requires
            old(self).wf(),
        ensures
            final(self).wf(),
            final(self)@ == (Machine { program: program@, pc: 0, ..old(self)@ }),
    {
        self.program = program;
        self.pc = 0;
    }

    /// Moves the program counter, as a debugger or a host stepping the machine would.
    pub fn set_pc(&mut self, pc: usize)
        requires
            old(self).wf(),
        ensures
            final(self).wf(),
            final(self)@ == old(self)@.at(pc as int),
    {
        self.pc = pc;
    }

    pub fn pc(&self) -> (r: usize)
        ensures
            r == self@.pc,
    {
        self.pc
    }

    pub fn sp(&self) -> (r: usize)
        ensures
            r == self@.sp,
    {
        self.sp
    }

    pub fn program(&self) -> (r: &[u8])
        ensures
            r@ == self@.program,
    {
        self.program.as_slice()
    }

    pub fn stack(&self) -> (r: &[u8])
        ensures
            r@ == self@.stack,
    {
        self.stack.as_slice()
    }

    pub fn call_stack(&self) -> (r: &[usize])
        ensures
            r@ == self@.calls,
    {
        self.call_stack.as_slice()
    }

    pub fn read_register(&self, index: u8) -> (r: Result<Reg, Trap>)
        requires
            self.wf(),
        ensures
            index < REGISTER_COUNT ==> r == Ok::<Reg, Trap>(self@.regs[index as int]),
            index >= REGISTER_COUNT ==> r == Err::<Reg, Trap>(Trap::RegisterIndexOutOfRange),
    {
        if index as usize >= REGISTER_COUNT {
            return Err(Trap::RegisterIndexOutOfRange);
        }
        Ok(self.registers[index as usize])
    }

    /// Stores a value into a register; this is also how a host hands back the
    /// result of a floating-point request.
    pub fn write_register(&mut self, index: u8, value: Reg) -> (r: Result<(), Trap>)
        requires
            old(self).wf(),
        ensures
            final(self).wf(),
            index < REGISTER_COUNT ==> r is Ok && final(self)@ == old(self)@.with_reg(index, value),
            index >= REGISTER_COUNT ==> r == Err::<(), Trap>(Trap::RegisterIndexOutOfRange)
                && final(self)@ == old(self)@,
    {
        if index as usize >= REGISTER_COUNT {
            return Err(Trap::RegisterIndexOutOfRange);
        }
        self.registers.set(index as usize, value);
        Ok(())
    }
}

impl VM {
    fn decode_byte(&self, at: usize) -> (r: u8)
        requires
            at < self@.program.len(),
        ensures
            r == self@.program[at as int],
    {
        self.program[at]
    }

    fn decode_word(&self, at: usize) -> (r: u64)
        requires
            at + 8 <= self@.program.len(),
        ensures
            r as nat == self@.word(at as int),
    {
        read_word(self.program.as_slice(), at)
    }

    fn load(&mut self, d: u8, r: Reg, next: usize) -> (res: Result<Step, Trap>)
        requires
            old(self).wf(),
        ensures
            final(self).wf(),
            (final(self)@, res) == model::load(old(self)@, d, r, next as int),
    {
        if d as usize >= REGISTER_COUNT {
            return Err(Trap::RegisterIndexOutOfRange);
        }
        self.registers.set(d as usize, r);
        self.pc = next;
        Ok(Step::Continue)
    }

    fn int_arith(&mut self, op: Opcode, d: u8, a: u8, b: u8, next: usize) -> (res: Result<Step, Trap>)
        requires
            old(self).wf(),
        ensures
            final(self).wf(),
            (final(self)@, res) == model::int_arith(old(self)@, op, d, a, b, next as int),
    {
        if d as usize >= REGISTER_COUNT || a as usize >= REGISTER_COUNT || b as usize >= REGISTER_COUNT {
            return Err(Trap::RegisterIndexOutOfRange);
        }
        let x = self.registers[a as usize];
        let y = self.registers[b as usize];
        let v = match op {
            Opcode::ADD => {
                proof {
                    if x.bits + y.bits > u64::MAX {
                        lemma_mod_word(x.bits + y.bits, 1);
                    } else {
                        lemma_mod_word(x.bits + y.bits, 0);
                    }
                }
                x.bits.wrapping_add(y.bits)
            },
            Opcode::SUB => {
                proof {
                    if x.bits < y.bits {
                        lemma_mod_word(x.bits - y.bits, -1);
                    } else {
                        lemma_mod_word(x.bits - y.bits, 0);
                    }
                }
                x.bits.wrapping_sub(y.bits)
            },
            Opcode::MUL => x.bits.wrapping_mul(y.bits),
            _ => match x.as_int().checked_div(y.as_int()) {
                Some(q) => Reg::from_int(q).bits,
                None => {
                    return Err(Trap::ArithmeticTrap);
                },
            },
        };
        self.load(d, Reg { bits: v }, next)
    }

    fn float_request(&mut self, kind: FloatKind, d: u8, a: u8, b: u8, next: usize) -> (res: Result<Step, Trap>)
        requires
            old(self).wf(),
        ensures
            final(self).wf(),
            (final(self)@, res) == model::float_request(old(self)@, kind, d, a, b, next as int),
    {
        if d as usize >= REGISTER_COUNT || a as usize >= REGISTER_COUNT || b as usize >= REGISTER_COUNT {
            return Err(Trap::RegisterIndexOutOfRange);
        }
        let req = FloatOp {
            kind: kind,
            dest: d,
            lhs: self.registers[a as usize].bits,
            rhs: self.registers[b as usize].bits,
        };
        self.pc = next;
        Ok(Step::Float(req))
    }

    fn compare(&mut self, c: Comparison, floats: bool, d: u8, a: u8, b: u8, next: usize) -> (res: Result<Step, Trap>)
        requires
            old(self).wf(),
        ensures
            final(self).wf(),
            (final(self)@, res) == model::compare(old(self)@, c, floats, d, a, b, next as int),
    {
        if d as usize >= REGISTER_COUNT || a as usize >= REGISTER_COUNT || b as usize >= REGISTER_COUNT {
            return Err(Trap::RegisterIndexOutOfRange);
        }
        let x = self.registers[a as usize];
        let y = self.registers[b as usize];
        let r = if floats {
            compare_floats(c, x.bits, y.bits)
        } else {
            compare_ints(c, x.as_int(), y.as_int())
        };
        self.load(d, Reg::from_bool(r), next)
    }

    fn logic(&mut self, op: Opcode, d: u8, a: u8, b: u8, next: usize) -> (res: Result<Step, Trap>)
        requires
            old(self).wf(),
        ensures
            final(self).wf(),
            (final(self)@, res) == model::logic(old(self)@, op, d, a, b, next as int),
    {
        if d as usize >= REGISTER_COUNT || a as usize >= REGISTER_COUNT || b as usize >= REGISTER_COUNT {
            return Err(Trap::RegisterIndexOutOfRange);
        }
        let x = self.registers[a as usize].as_bool();
        let y = self.registers[b as usize].as_bool();
        let r = match op {
            Opcode::AND => x && y,
            Opcode::OR => x || y,
            _ => !x,
        };
        self.load(d, Reg::from_bool(r), next)
    }

    fn jump(&mut self, mode: JumpMode, v: u64, next: usize) -> (res: Result<Step, Trap>)
        requires
            old(self).wf(),
            next <= old(self)@.program.len(),
        ensures
            final(self).wf(),
            (final(self)@, res) == model::jump(old(self)@, mode, v as nat, next as int),
    {
        let len = self.program.len() as u64;
        let t: u64 = match mode {
            JumpMode::Absolute => v,
            JumpMode::Backward => {
                if v > next as u64 {
                    return Err(Trap::MalformedStream);
                }
                next as u64 - v
            },
            JumpMode::Forward => {
                if v > len - next as u64 {
                    return Err(Trap::MalformedStream);
                }
                next as u64 + v
            },
        };
        if t > len {
            return Err(Trap::MalformedStream);
        }
        self.pc = t as usize;
        Ok(Step::Continue)
    }

    fn cond_jump(&mut self, mode: JumpMode, when: bool, r: u8, v: u64, next: usize) -> (res: Result<Step, Trap>)
        requires
            old(self).wf(),
            next <= old(self)@.program.len(),
        ensures
            final(self).wf(),
            (final(self)@, res) == model::cond_jump(old(self)@, mode, when, r, v as nat, next as int),
    {
        if r as usize >= REGISTER_COUNT {
            return Err(Trap::RegisterIndexOutOfRange);
        }
        if self.registers[r as usize].as_bool() == when {
            self.jump(mode, v, next)
        } else {
            self.pc = next;
            Ok(Step::Continue)
        }
    }

    fn call(&mut self, v: u64, next: usize) -> (res: Result<Step, Trap>)
        requires
            old(self).wf(),
        ensures
            final(self).wf(),
            (final(self)@, res) == model::call(old(self)@, v as nat, next as int),
    {
        if v > self.program.len() as u64 {
            return Err(Trap::MalformedStream);
        }
        self.call_stack.push(next);
        self.pc = v as usize;
        Ok(Step::Continue)
    }

    fn ret(&mut self) -> (res: Result<Step, Trap>)
        requires
            old(self).wf(),
        ensures
            final(self).wf(),
            (final(self)@, res) == model::ret(old(self)@),
    {
        match self.call_stack.pop() {
            Some(p) => {
                self.pc = p;
                Ok(Step::Continue)
            },
            None => Err(Trap::StackUnderflow),
        }
    }

    /// Grows the stack buffer, with zeros, so that it holds `need` bytes.
    fn grow_stack(&mut self, need: usize)
        requires
            old(self).wf(),
        ensures
            final(self).wf(),
            final(self)@ == (Machine { stack: model::grown(old(self)@.stack, need as nat), ..old(self)@ }),
    {
        let len = self.stack.len();
        if need <= len {
            assert(self.stack@ =~= model::grown(self.stack@, need as nat));
            return;
        }
        let new_len = if len <= usize::MAX / 2 && need <= 2 * len {
            2 * len
        } else {
            need
        };
        self.stack.resize(new_len, 0u8);
        assert(self.stack@ =~= model::grown(old(self)@.stack, need as nat));
    }

    fn push(&mut self, size: u64, next: usize) -> (res: Result<Step, Trap>)
        requires
            old(self).wf(),
        ensures
            final(self).wf(),
            (final(self)@, res) == model::push(old(self)@, size as nat, next as int),
    {
        if size > (usize::MAX - self.sp) as u64 {
            return Err(Trap::StackOverflow);
        }
        let top = self.sp + size as usize;
        self.grow_stack(top);
        self.sp = top;
        self.pc = next;
        Ok(Step::Continue)
    }

    fn pop(&mut self, size: u64, next: usize) -> (res: Result<Step, Trap>)
        requires
            old(self).wf(),
        ensures
            final(self).wf(),
            (final(self)@, res) == model::pop(old(self)@, size as nat, next as int),
    {
        if size > self.sp as u64 {
            return Err(Trap::StackUnderflow);
        }
        self.sp = self.sp - size as usize;
        self.pc = next;
        Ok(Step::Continue)
    }
}

impl VM {
    fn read_mem(&self, space: AddressLocation, addr: u64, n: usize) -> (r: Result<Vec<u8>, Trap>)
        requires
            n <= 8,
        ensures
            match model::read_mem(self@, space, addr, n as nat) {
                Ok(b) => r is Ok && r.unwrap()@ == b,
                Err(e) => r == Err::<Vec<u8>, Trap>(e),
            },
    {
        match unpack_address(addr) {
            None => Err(Trap::UnsupportedAddressSpace),
            Some((loc, off)) => {
                if loc != space {
                    return Err(Trap::UnsupportedAddressSpace);
                }
                match loc {
                    AddressLocation::Program => {
                        let len = self.program.len();
                        if off > len as u64 || n as u64 > len as u64 - off {
                            return Err(Trap::MalformedStream);
                        }
                        let part = vstd::slice::slice_subrange(self.program.as_slice(), off as usize, off as usize + n);
                        Ok(vstd::slice::slice_to_vec(part))
                    },
                    AddressLocation::Stack => {
                        let len = self.stack.len();
                        if off > len as u64 || n as u64 > len as u64 - off {
                            return Err(Trap::StackOverflow);
                        }
                        let part = vstd::slice::slice_subrange(self.stack.as_slice(), off as usize, off as usize + n);
                        Ok(vstd::slice::slice_to_vec(part))
                    },
                    _ => Err(Trap::UnsupportedAddressSpace),
                }
            },
        }
    }

    fn write_mem(&mut self, space: AddressLocation, addr: u64, bytes: &Vec<u8>) -> (r: Result<(), Trap>)
        requires
            old(self).wf(),
            bytes@.len() <= 8,
        ensures
            final(self).wf(),
            match model::write_mem(old(self)@, space, addr, bytes@) {
                Ok(st) => r is Ok && final(self)@ == (Machine { stack: st, ..old(self)@ }),
                Err(e) => r == Err::<(), Trap>(e) && final(self)@ == old(self)@,
            },
    {
        match unpack_address(addr) {
            None => Err(Trap::UnsupportedAddressSpace),
            Some((loc, off)) => {
                if loc != space || loc != AddressLocation::Stack {
                    return Err(Trap::UnsupportedAddressSpace);
                }
                let n = bytes.len();
                if off > (usize::MAX - n) as u64 {
                    return Err(Trap::StackOverflow);
                }
                let start = off as usize;
                self.grow_stack(start + n);
                let ghost g = self.stack@;
                let mut k: usize = 0;
                while k < n
                    invariant
                        k <= n,
                        n == bytes@.len(),
                        start + n <= g.len(),
                        start + n <= usize::MAX,
                        self.stack@.len() == g.len(),
                        forall|i: int|
                            0 <= i < g.len() ==> #[trigger] self.stack@[i] == if start <= i < start + k {
                                bytes@[i - start]
                            } else {
                                g[i]
                            },
                        self.registers@ == old(self)@.regs,
                        self.program@ == old(self)@.program,
                        self.pc == old(self)@.pc,
                        self.sp == old(self)@.sp,
                        self.call_stack@ == old(self)@.calls,
                        self.sp <= g.len(),
                    decreases n - k,
                {
                    self.stack.set(start + k, bytes[k]);
                    k = k + 1;
                }
                assert(self.stack@ =~= model::splice(g, start as int, bytes@));
                Ok(())
            },
        }
    }

    fn move_reg(&mut self, d: u8, s: u8, next: usize) -> (res: Result<Step, Trap>)
        requires
            old(self).wf(),
        ensures
            final(self).wf(),
            (final(self)@, res) == model::move_reg(old(self)@, d, s, next as int),
    {
        if d as usize >= REGISTER_COUNT || s as usize >= REGISTER_COUNT {
            return Err(Trap::RegisterIndexOutOfRange);
        }
        let v = self.registers[s as usize];
        self.load(d, v, next)
    }

    fn move_to_reg(&mut self, space: AddressLocation, d: u8, addr: u64, n: usize, next: usize) -> (res: Result<Step, Trap>)
        requires
            old(self).wf(),
            n <= 8,
        ensures
            final(self).wf(),
            (final(self)@, res) == model::move_to_reg(old(self)@, space, d, addr, n as nat, next as int),
    {
        if d as usize >= REGISTER_COUNT {
            return Err(Trap::RegisterIndexOutOfRange);
        }
        let bytes = match self.read_mem(space, addr, n) {
            Ok(b) => b,
            Err(e) => {
                return Err(e);
            },
        };
        let mut buf = bytes.clone();
        assert(buf@ == bytes@);
        while buf.len() < 8
            invariant
                bytes@.len() <= buf@.len() <= 8,
                buf@ == bytes@ + Seq::new((buf@.len() - bytes@.len()) as nat, |i: int| 0u8),
            decreases 8 - buf@.len(),
        {
            buf.push(0u8);
            assert(buf@ =~= bytes@ + Seq::new((buf@.len() - bytes@.len()) as nat, |i: int| 0u8));
        }
        assert(buf@ =~= model::pad_word(bytes@));
        assert(buf@.subrange(0, 8) =~= buf@);
        let v = read_word(buf.as_slice(), 0);
        self.load(d, Reg { bits: v }, next)
    }

    fn move_from_reg(&mut self, space: AddressLocation, addr: u64, s: u8, n: usize, next: usize) -> (res: Result<Step, Trap>)
        requires
            old(self).wf(),
            n <= 8,
        ensures
            final(self).wf(),
            (final(self)@, res) == model::move_from_reg(old(self)@, space, addr, s, n as nat, next as int),
    {
        if s as usize >= REGISTER_COUNT {
            return Err(Trap::RegisterIndexOutOfRange);
        }
        let all = word_bytes(self.registers[s as usize].bits);
        proof {
            reveal_with_fuel(crate::vm::codec::le_bytes, 9);
        }
        assert(all@.len() == 8);
        let bytes = vstd::slice::slice_to_vec(vstd::slice::slice_subrange(all.as_slice(), 0, n));
        match self.write_mem(space, addr, &bytes) {
            Ok(()) => {
                self.pc = next;
                Ok(Step::Continue)
            },
            Err(e) => Err(e),
        }
    }

    fn move_mem(&mut self, op: Opcode, daddr: u64, saddr: u64, n: usize, next: usize) -> (res: Result<Step, Trap>)
        requires
            old(self).wf(),
            n <= 8,
        ensures
            final(self).wf(),
            (final(self)@, res) == model::move_mem(old(self)@, op, daddr, saddr, n as nat, next as int),
    {
        let bytes = match self.read_mem(source_space_of(op), saddr, n) {
            Ok(b) => b,
            Err(e) => {
                return Err(e);
            },
        };
        match self.write_mem(dest_space_of(op), daddr, &bytes) {
            Ok(()) => {
                self.pc = next;
                Ok(Step::Continue)
            },
            Err(e) => Err(e),
        }
    }
}

impl VM {
    /// Executes the instruction `op`, whose operands lie from `at` up to `next`.
    fn execute(&mut self, op: Opcode, at: usize, next: usize) -> (res: Result<Step, Trap>)
        requires
            old(self).wf(),
            next == at + op.operand_len(),
            next <= old(self)@.program.len(),
        ensures
            final(self).wf(),
            (final(self)@, res) == model::execute(old(self)@, op, at as int, next as int),
    {
        if compute_opcode(op) {
            self.execute_compute(op, at, next)
        } else if control_opcode(op) {
            self.execute_control(op, at, next)
        } else {
            self.execute_move(op, at, next)
        }
    }

    /// Loads, arithmetic, comparisons and logic.
    fn execute_compute(&mut self, op: Opcode, at: usize, next: usize) -> (res: Result<Step, Trap>)
        requires
            old(self).wf(),
            is_compute(op),
            next == at + op.operand_len(),
            next <= old(self)@.program.len(),
        ensures
            final(self).wf(),
            (final(self)@, res) == model::execute(old(self)@, op, at as int, next as int),
    {
        match op {
            Opcode::LDI | Opcode::LDF => {
                let d = self.decode_byte(at);
                let v = self.decode_word(at + 1);
                self.load(d, Reg { bits: v }, next)
            },
            Opcode::LDB => {
                let d = self.decode_byte(at);
                let v = self.decode_byte(at + 1);
                self.load(d, Reg::from_byte(v), next)
            },
            Opcode::ADD | Opcode::SUB | Opcode::MUL | Opcode::DIV => {
                let d = self.decode_byte(at);
                let a = self.decode_byte(at + 1);
                let b = self.decode_byte(at + 2);
                self.int_arith(op, d, a, b, next)
            },
            Opcode::ADDF | Opcode::SUBF | Opcode::MULF | Opcode::DIVF => {
                let d = self.decode_byte(at);
                let a = self.decode_byte(at + 1);
                let b = self.decode_byte(at + 2);
                self.float_request(float_kind_of(op), d, a, b, next)
            },
            Opcode::ITOF | Opcode::FTOI => {
                let d = self.decode_byte(at);
                let a = self.decode_byte(at + 1);
                self.float_request(float_kind_of(op), d, a, a, next)
            },
            Opcode::EQ | Opcode::NEQ | Opcode::LT | Opcode::GT | Opcode::GEQ | Opcode::LEQ => {
                let d = self.decode_byte(at);
                let a = self.decode_byte(at + 1);
                let b = self.decode_byte(at + 2);
                self.compare(comparison_of(op), false, d, a, b, next)
            },
            Opcode::EQF | Opcode::NEQF | Opcode::LTF | Opcode::GTF | Opcode::GEQF | Opcode::LEQF => {
                let d = self.decode_byte(at);
                let a = self.decode_byte(at + 1);
                let b = self.decode_byte(at + 2);
                self.compare(comparison_of(op), true, d, a, b, next)
            },
            Opcode::AND | Opcode::OR => {
                let d = self.decode_byte(at);
                let a = self.decode_byte(at + 1);
                let b = self.decode_byte(at + 2);
                self.logic(op, d, a, b, next)
            },
            Opcode::NOT => {
                let d = self.decode_byte(at);
                let a = self.decode_byte(at + 1);
                self.logic(op, d, a, a, next)
            },
            // every other opcode is excluded by the precondition
            _ => Err(Trap::InvalidOpcode),
        }
    }

    /// Halting, calls, returns, jumps and stack pushes and pops.
    fn execute_control(&mut self, op: Opcode, at: usize, next: usize) -> (res: Result<Step, Trap>)
        requires
            old(self).wf(),
            is_control(op),
            next == at + op.operand_len(),
            next <= old(self)@.program.len(),
        ensures
            final(self).wf(),
            (final(self)@, res) == model::execute(old(self)@, op, at as int, next as int),
    {
        match op {
            Opcode::HLT => {
                self.pc = next;
                Ok(Step::Halt)
            },
            Opcode::CALL => {
                let v = self.decode_word(at);
                self.call(v, next)
            },
            Opcode::RET => self.ret(),
            Opcode::JMP | Opcode::JMP_B | Opcode::JMP_F => {
                let v = self.decode_word(at);
                self.jump(jump_mode_of(op), v, next)
            },
            Opcode::JT | Opcode::JT_B | Opcode::JT_F => {
                let r = self.decode_byte(at);
                let v = self.decode_word(at + 1);
                self.cond_jump(jump_mode_of(op), true, r, v, next)
            },
            Opcode::JF | Opcode::JF_B | Opcode::JF_F => {
                let r = self.decode_byte(at);
                let v = self.decode_word(at + 1);
                self.cond_jump(jump_mode_of(op), false, r, v, next)
            },
            Opcode::PUSH => {
                let v = self.decode_word(at);
                self.push(v, next)
            },
            Opcode::POP => {
                let v = self.decode_word(at);
                self.pop(v, next)
            },
            // every other opcode is excluded by the precondition
            _ => Err(Trap::InvalidOpcode),
        }
    }

    /// The move family.
    fn execute_move(&mut self, op: Opcode, at: usize, next: usize) -> (res: Result<Step, Trap>)
        requires
            old(self).wf(),
            !is_compute(op) && !is_control(op),
            next == at + op.operand_len(),
            next <= old(self)@.program.len(),
        ensures
            final(self).wf(),
            (final(self)@, res) == model::execute(old(self)@, op, at as int, next as int),
    {
        match op {
            Opcode::MOVR_R => {
                let d = self.decode_byte(at);
                let s = self.decode_byte(at + 1);
                self.move_reg(d, s, next)
            },
            Opcode::MOVR_P | Opcode::MOVR_S | Opcode::MOVR_H => {
                let d = self.decode_byte(at);
                let addr = self.decode_word(at + 1);
                let n = move_len_of(self.decode_byte(at + 9));
                self.move_to_reg(source_space_of(op), d, addr, n, next)
            },
            Opcode::MOVS_R | Opcode::MOVH_R => {
                let addr = self.decode_word(at);
                let s = self.decode_byte(at + 8);
                let n = move_len_of(self.decode_byte(at + 9));
                self.move_from_reg(dest_space_of(op), addr, s, n, next)
            },
            _ => {
                let daddr = self.decode_word(at);
                let saddr = self.decode_word(at + 8);
                let n = move_len_of(self.decode_byte(at + 16));
                self.move_mem(op, daddr, saddr, n, next)
            },
        }
    }

    fn decode_opcode(&self) -> (r: Option<Opcode>)
        requires
            self@.pc < self@.program.len(),
        ensures
            r == Opcode::decode(self@.program[self@.pc]),
    {
        Opcode::from_byte(self.program[self.pc])
    }

    /// One fetch-decode-execute cycle.
    fn execute_instruction(&mut self) -> (r: Result<Step, Trap>)
        requires
            old(self).wf(),
        ensures
            final(self).wf(),
            (final(self)@, r) == model::step(old(self)@),
    {
        if self.pc >= self.program.len() {
            return Ok(Step::Halt);
        }
        let op = match self.decode_opcode() {
            Some(op) => op,
            None => {
                return Err(Trap::InvalidOpcode);
            },
        };
        let at = self.pc + 1;
        let n = op.operand_bytes();
        if n > self.program.len() - at {
            return Err(Trap::MalformedStream);
        }
        self.execute(op, at, at + n)
    }

    /// Executes one instruction. A trap leaves the machine unchanged.
    pub fn run_once(&mut self) -> (r: Result<Step, Trap>)
        requires
            old(self).wf(),
        ensures
            final(self).wf(),
            (final(self)@, r) == model::step(old(self)@),
    {
        self.execute_instruction()
    }

    /// Executes at most `max_steps` instructions, stopping early at a halt, a
    /// trap or a floating-point request.
    pub fn run_for(&mut self, max_steps: u64) -> (r: Result<Exit, Trap>)
        requires
            old(self).wf(),
        ensures
            final(self).wf(),
            (final(self)@, r) == model::run_steps(old(self)@, max_steps as nat),
    {
        let mut fuel = max_steps;
        while fuel > 0
            invariant
                self.wf(),
                model::run_steps(self@, fuel as nat) == model::run_steps(old(self)@, max_steps as nat),
            decreases fuel,
        {
            match self.execute_instruction() {
                Err(e) => {
                    return Err(e);
                },
                Ok(Step::Halt) => {
                    return Ok(Exit::Halted);
                },
                Ok(Step::Float(f)) => {
                    return Ok(Exit::Float(f));
                },
                Ok(Step::Continue) => {},
            }
            fuel = fuel - 1;
        }
        Ok(Exit::StepLimit)
    }

    /// Runs until the program halts, traps or requests a floating-point
    /// operation (bounded only by `u64::MAX` cycles).
    pub fn run(&mut self) -> (r: Result<Exit, Trap>)
        requires
            old(self).wf(),
        ensures
            final(self).wf(),
            (final(self)@, r) == model::run_steps(old(self)@, u64::MAX as nat),
    {
        self.run_for(u64::MAX)
    }

    /// Moves the program counter to `offset`, then runs as `run` does.
    pub fn run_from(&mut self, offset: usize) -> (r: Result<Exit, Trap>)
        requires
            old(self).wf(),
        ensures
            final(self).wf(),
            (final(self)@, r) == model::run_steps(old(self)@.at(offset as int), u64::MAX as nat),
    {
        self.pc = offset;
        self.run()
    }
}

} // verus!
