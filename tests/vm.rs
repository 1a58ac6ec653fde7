use miniscript::vm::address::{pack_address, unpack_address, AddressLocation};
use miniscript::vm::instruction::{Instruction, Opcode};
use miniscript::vm::{Exit, FloatKind, FloatOp, Reg, Step, Trap, VM};

fn op(o: Opcode) -> u8 {
    o.to_byte()
}

fn word(v: u64) -> Vec<u8> {
    v.to_le_bytes().to_vec()
}

fn ldi(r: u8, v: i64) -> Vec<u8> {
    let mut p = vec![op(Opcode::LDI), r];
    p.extend_from_slice(&v.to_le_bytes());
    p
}

fn ldf(r: u8, v: f64) -> Vec<u8> {
    let mut p = vec![op(Opcode::LDF), r];
    p.extend_from_slice(&v.to_bits().to_le_bytes());
    p
}

fn three(o: Opcode, d: u8, a: u8, b: u8) -> Vec<u8> {
    vec![op(o), d, a, b]
}

fn with_word(o: Opcode, v: u64) -> Vec<u8> {
    let mut p = vec![op(o)];
    p.extend_from_slice(&word(v));
    p
}

fn machine(parts: &[Vec<u8>]) -> VM {
    let mut vm = VM::new(8);
    vm.load_program(parts.concat());
    vm
}

fn int_of(vm: &VM, r: u8) -> i64 {
    vm.read_register(r).unwrap().as_int()
}

#[test]
fn test_hlt_opcode() {
    let opcode = Opcode::HLT;
    assert_eq!(opcode, Opcode::HLT);
}

#[test]
fn opcode_bytes_round_trip() {
    for b in 0u8..54 {
        let o = Opcode::from_byte(b).unwrap();
        assert_eq!(o.to_byte(), b);
        assert_eq!(Opcode::from_byte(o.to_byte()), Some(o));
    }
    for b in 54u8..=255 {
        assert_eq!(Opcode::from_byte(b), None);
    }
    assert_eq!(Opcode::LDI.to_byte(), 1);
    assert_eq!(Opcode::NOT.to_byte(), 53);
    assert_eq!(Instruction::new(Opcode::RET).opcode, Opcode::RET);
}

#[test]
fn operand_widths() {
    assert_eq!(Opcode::HLT.operand_bytes(), 0);
    assert_eq!(Opcode::LDI.operand_bytes(), 9);
    assert_eq!(Opcode::CALL.operand_bytes(), 8);
    assert_eq!(Opcode::MOVR_P.operand_bytes(), 10);
    assert_eq!(Opcode::MOVS_P.operand_bytes(), 17);
}

#[test]
fn load_integer_then_read() {
    let mut vm = machine(&[ldi(3, 42), vec![op(Opcode::HLT)]]);
    assert_eq!(vm.run(), Ok(Exit::Halted));
    assert_eq!(int_of(&vm, 3), 42);
    assert_eq!(vm.read_register(3).unwrap().bits, 42);
}

#[test]
fn load_negative_integer_then_read() {
    let mut vm = machine(&[ldi(0, -5)]);
    assert_eq!(vm.run(), Ok(Exit::Halted));
    assert_eq!(int_of(&vm, 0), -5);
}

#[test]
fn load_float_then_read() {
    let mut vm = machine(&[ldf(2, 3.5), vec![op(Opcode::HLT)]]);
    assert_eq!(vm.run(), Ok(Exit::Halted));
    assert_eq!(f64::from_bits(vm.read_register(2).unwrap().bits), 3.5);
}

#[test]
fn load_byte_then_read() {
    let mut vm = machine(&[vec![op(Opcode::LDB), 4, 0xAB]]);
    assert_eq!(vm.run(), Ok(Exit::Halted));
    assert_eq!(vm.read_register(4).unwrap().as_byte(), 0xAB);
    assert_eq!(vm.read_register(4).unwrap().bits, 0xAB);
}

#[test]
fn add_and_sub() {
    let mut vm = machine(&[
        ldi(1, 7),
        ldi(2, 3),
        three(Opcode::ADD, 0, 1, 2),
        three(Opcode::SUB, 3, 1, 2),
        vec![op(Opcode::HLT)],
    ]);
    assert_eq!(vm.run(), Ok(Exit::Halted));
    assert_eq!(int_of(&vm, 0), 10);
    assert_eq!(int_of(&vm, 3), 4);
}

#[test]
fn mul_and_div() {
    let mut vm = machine(&[
        ldi(1, 7),
        ldi(2, 3),
        ldi(5, -7),
        ldi(6, 2),
        three(Opcode::MUL, 0, 1, 2),
        three(Opcode::DIV, 3, 1, 2),
        three(Opcode::DIV, 4, 5, 6),
    ]);
    assert_eq!(vm.run(), Ok(Exit::Halted));
    assert_eq!(int_of(&vm, 0), 21);
    assert_eq!(int_of(&vm, 3), 2);
    assert_eq!(int_of(&vm, 4), -3);
}

#[test]
fn arithmetic_wraps() {
    let mut vm = machine(&[
        ldi(1, i64::MAX),
        ldi(2, 1),
        three(Opcode::ADD, 0, 1, 2),
        ldi(3, i64::MIN),
        three(Opcode::SUB, 4, 3, 2),
        three(Opcode::SUB, 5, 2, 1),
    ]);
    assert_eq!(vm.run(), Ok(Exit::Halted));
    assert_eq!(int_of(&vm, 0), i64::MIN);
    assert_eq!(int_of(&vm, 4), i64::MAX);
    assert_eq!(int_of(&vm, 5), 1 - i64::MAX);
}

#[test]
fn divide_by_zero_traps() {
    let mut vm = machine(&[ldi(1, 7), ldi(2, 0), three(Opcode::DIV, 0, 1, 2)]);
    assert_eq!(vm.run(), Err(Trap::ArithmeticTrap));
    assert_eq!(vm.pc(), 20);
    assert_eq!(int_of(&vm, 0), 0);
}

#[test]
fn least_integer_over_minus_one_traps() {
    let mut vm = machine(&[ldi(1, i64::MIN), ldi(2, -1), three(Opcode::DIV, 0, 1, 2)]);
    assert_eq!(vm.run(), Err(Trap::ArithmeticTrap));
}

#[test]
fn packed_address_round_trip() {
    let locations = [
        AddressLocation::Program,
        AddressLocation::Register,
        AddressLocation::Stack,
        AddressLocation::Heap,
        AddressLocation::External,
    ];
    for (tag, loc) in locations.iter().enumerate() {
        for off in [0u64, 1, 12345, (1u64 << 61) - 1] {
            let v = pack_address(*loc, off);
            assert_eq!(v >> 61, tag as u64);
            assert_eq!(unpack_address(v), Some((*loc, off)));
        }
    }
    assert_eq!(unpack_address(5u64 << 61), None);
    assert_eq!(unpack_address(7u64 << 61 | 3), None);
}

#[test]
fn jump_lands_on_target() {
    let mut program = with_word(Opcode::JMP, 10);
    program.push(op(Opcode::HLT));
    program.extend(ldi(1, 99));
    let mut vm = VM::new(0);
    vm.load_program(program);
    assert_eq!(vm.run_once(), Ok(Step::Continue));
    assert_eq!(vm.pc(), 10);
    assert_eq!(vm.run(), Ok(Exit::Halted));
    assert_eq!(int_of(&vm, 1), 99);
}

#[test]
fn relative_jumps() {
    // JMP_F at 0 skips forward over the ten-byte LDI at 9 to the HLT at 19.
    let mut program = with_word(Opcode::JMP_F, 10);
    program.extend(ldi(1, 1));
    program.push(op(Opcode::HLT));
    let mut vm = VM::new(0);
    vm.load_program(program);
    assert_eq!(vm.run(), Ok(Exit::Halted));
    assert_eq!(int_of(&vm, 1), 0);

    let mut vm = machine(&[with_word(Opcode::JMP_B, 10)]);
    assert_eq!(vm.run(), Err(Trap::MalformedStream));
    let mut vm = machine(&[with_word(Opcode::JMP_B, 9)]);
    assert_eq!(vm.run_once(), Ok(Step::Continue));
    assert_eq!(vm.pc(), 0);
    let mut vm = machine(&[with_word(Opcode::JMP, 100)]);
    assert_eq!(vm.run_once(), Err(Trap::MalformedStream));
}

#[test]
fn conditional_jumps() {
    // r1 = true, so JT jumps over the load of r2 to the HLT at 23; JF falls through.
    let mut p = vec![op(Opcode::LDB), 1, 1];
    p.push(op(Opcode::JT));
    p.push(1);
    p.extend(word(23));
    p.extend(ldi(2, 5));
    p.push(op(Opcode::HLT));
    let mut vm = VM::new(0);
    vm.load_program(p);
    assert_eq!(vm.run(), Ok(Exit::Halted));
    assert_eq!(int_of(&vm, 2), 0);

    let mut p = vec![op(Opcode::LDB), 1, 1];
    p.push(op(Opcode::JF));
    p.push(1);
    p.extend(word(23));
    p.extend(ldi(2, 5));
    p.push(op(Opcode::HLT));
    let mut vm = VM::new(0);
    vm.load_program(p);
    assert_eq!(vm.run(), Ok(Exit::Halted));
    assert_eq!(int_of(&vm, 2), 5);
}

#[test]
fn call_then_return() {
    let mut program = vec![op(Opcode::HLT); 5];
    program.extend(with_word(Opcode::CALL, 20));
    program.resize(20, op(Opcode::HLT));
    program.push(op(Opcode::RET));
    let mut vm = VM::new(0);
    vm.load_program(program);
    vm.set_pc(5);
    assert_eq!(vm.run_once(), Ok(Step::Continue));
    assert_eq!(vm.pc(), 20);
    assert_eq!(vm.call_stack(), &[14usize][..]);
    assert_eq!(vm.run_once(), Ok(Step::Continue));
    assert_eq!(vm.pc(), 14);
    assert!(vm.call_stack().is_empty());
}

#[test]
fn run_from_offset_follows_call_and_return() {
    let mut program = vec![op(Opcode::HLT); 5];
    program.extend(with_word(Opcode::CALL, 20));
    program.resize(20, op(Opcode::HLT));
    program.push(op(Opcode::RET));
    let mut vm = VM::new(0);
    vm.load_program(program);
    assert_eq!(vm.run_from(5), Ok(Exit::Halted));
    assert_eq!(vm.pc(), 15);
}

#[test]
fn return_without_call_traps() {
    let mut vm = machine(&[vec![op(Opcode::RET)]]);
    assert_eq!(vm.run(), Err(Trap::StackUnderflow));
    assert_eq!(vm.pc(), 0);
}

#[test]
fn push_grows_stack_and_keeps_bytes() {
    let dest = pack_address(AddressLocation::Stack, 0);
    let mut movs = vec![op(Opcode::MOVS_R)];
    movs.extend(word(dest));
    movs.extend([1, 4]);
    let mut vm = machine(&[ldi(1, 0x0102_0304_0506_0708), movs, with_word(Opcode::PUSH, 16)]);
    assert_eq!(vm.stack().len(), 8);
    assert_eq!(vm.run(), Ok(Exit::Halted));
    assert_eq!(vm.sp(), 16);
    assert!(vm.stack().len() >= 16);
    assert_eq!(&vm.stack()[0..4], &[8, 7, 6, 5]);
    assert!(vm.stack()[4..].iter().all(|b| *b == 0));
}

#[test]
fn push_doubles_buffer() {
    let mut vm = machine(&[with_word(Opcode::PUSH, 9)]);
    assert_eq!(vm.run(), Ok(Exit::Halted));
    assert_eq!(vm.sp(), 9);
    assert_eq!(vm.stack().len(), 16);
}

#[test]
fn pop_lowers_top_and_underflow_traps() {
    let mut vm = machine(&[with_word(Opcode::PUSH, 6), with_word(Opcode::POP, 4)]);
    assert_eq!(vm.run(), Ok(Exit::Halted));
    assert_eq!(vm.sp(), 2);
    assert_eq!(vm.stack().len(), 8);
    let mut vm = machine(&[with_word(Opcode::POP, 1)]);
    assert_eq!(vm.run(), Err(Trap::StackUnderflow));
}

#[test]
fn push_past_address_space_overflows() {
    let mut vm = machine(&[with_word(Opcode::PUSH, 1), with_word(Opcode::PUSH, u64::MAX)]);
    assert_eq!(vm.run(), Err(Trap::StackOverflow));
    assert_eq!(vm.sp(), 1);
}

#[test]
fn halt_only_program() {
    let mut vm = machine(&[vec![op(Opcode::HLT)]]);
    assert_eq!(vm.run_once(), Ok(Step::Halt));
    assert_eq!(vm.pc(), 1);
    let mut vm = machine(&[vec![op(Opcode::HLT)]]);
    assert_eq!(vm.run(), Ok(Exit::Halted));
    assert_eq!(vm.pc(), 1);
    for r in 0u8..16 {
        assert_eq!(vm.read_register(r).unwrap().bits, 0);
    }
}

#[test]
fn empty_program_halts_at_once() {
    let mut vm = VM::new(4);
    assert_eq!(vm.run(), Ok(Exit::Halted));
    assert_eq!(vm.pc(), 0);
}

#[test]
fn float_equality_is_exact() {
    let mut vm = machine(&[
        ldf(1, 1.5),
        ldf(2, 1.5),
        three(Opcode::EQF, 0, 1, 2),
        ldf(3, f64::NAN),
        three(Opcode::EQF, 4, 3, 3),
        three(Opcode::NEQF, 5, 3, 3),
        ldf(6, 0.0),
        ldf(7, -0.0),
        three(Opcode::EQF, 8, 6, 7),
        three(Opcode::EQ, 9, 6, 7),
    ]);
    assert_eq!(vm.run(), Ok(Exit::Halted));
    assert!(vm.read_register(0).unwrap().as_bool());
    assert!(!vm.read_register(4).unwrap().as_bool());
    assert!(vm.read_register(5).unwrap().as_bool());
    assert!(vm.read_register(8).unwrap().as_bool());
    assert!(!vm.read_register(9).unwrap().as_bool());
}

#[test]
fn float_comparisons_match_ieee() {
    let values = [
        0.0,
        -0.0,
        1.0,
        -1.0,
        2.5,
        -2.5,
        f64::INFINITY,
        f64::NEG_INFINITY,
        f64::NAN,
        f64::MIN_POSITIVE,
        f64::MAX,
        f64::MIN,
    ];
    let ops = [
        (Opcode::EQF, 0usize),
        (Opcode::NEQF, 1),
        (Opcode::LTF, 2),
        (Opcode::GTF, 3),
        (Opcode::GEQF, 4),
        (Opcode::LEQF, 5),
    ];
    for a in values {
        for b in values {
            for (o, k) in ops {
                let mut vm = machine(&[ldf(1, a), ldf(2, b), three(o, 0, 1, 2)]);
                assert_eq!(vm.run(), Ok(Exit::Halted));
                let expected = match k {
                    0 => a == b,
                    1 => a != b,
                    2 => a < b,
                    3 => a > b,
                    4 => a >= b,
                    _ => a <= b,
                };
                assert_eq!(vm.read_register(0).unwrap().as_bool(), expected, "{:?} {} {}", o, a, b);
            }
        }
    }
}

#[test]
fn integer_comparisons_are_signed() {
    let mut vm = machine(&[
        ldi(1, -1),
        ldi(2, 1),
        three(Opcode::LT, 0, 1, 2),
        three(Opcode::GT, 3, 1, 2),
        three(Opcode::GEQ, 4, 1, 1),
        three(Opcode::LEQ, 5, 2, 1),
        three(Opcode::EQ, 6, 1, 1),
        three(Opcode::NEQ, 7, 1, 2),
    ]);
    assert_eq!(vm.run(), Ok(Exit::Halted));
    let truth: Vec<bool> = [0u8, 3, 4, 5, 6, 7].iter().map(|r| vm.read_register(*r).unwrap().as_bool()).collect();
    assert_eq!(truth, vec![true, false, true, false, true, true]);
    assert_eq!(vm.read_register(0).unwrap().bits, 1);
}

#[test]
fn logic_instructions() {
    let mut vm = machine(&[
        vec![op(Opcode::LDB), 1, 1],
        vec![op(Opcode::LDB), 2, 0],
        three(Opcode::AND, 3, 1, 2),
        three(Opcode::OR, 4, 1, 2),
        vec![op(Opcode::NOT), 5, 2],
        vec![op(Opcode::NOT), 6, 1],
    ]);
    assert_eq!(vm.run(), Ok(Exit::Halted));
    assert_eq!(vm.read_register(3).unwrap().bits, 0);
    assert_eq!(vm.read_register(4).unwrap().bits, 1);
    assert_eq!(vm.read_register(5).unwrap().bits, 1);
    assert_eq!(vm.read_register(6).unwrap().bits, 0);
}

#[test]
fn float_arithmetic_goes_to_the_host() {
    let mut vm = machine(&[ldf(1, 1.25), ldf(2, 2.0), three(Opcode::MULF, 0, 1, 2), vec![op(Opcode::HLT)]]);
    let exit = vm.run();
    let expected = FloatOp { kind: FloatKind::Mul, dest: 0, lhs: 1.25f64.to_bits(), rhs: 2.0f64.to_bits() };
    assert_eq!(exit, Ok(Exit::Float(expected)));
    let product = f64::from_bits(expected.lhs) * f64::from_bits(expected.rhs);
    assert_eq!(vm.write_register(expected.dest, Reg { bits: product.to_bits() }), Ok(()));
    assert_eq!(vm.run(), Ok(Exit::Halted));
    assert_eq!(f64::from_bits(vm.read_register(0).unwrap().bits), 2.5);
}

#[test]
fn float_conversion_requests() {
    let mut vm = machine(&[ldi(1, 3), vec![op(Opcode::ITOF), 0, 1]]);
    let r = vm.run_once();
    assert_eq!(r, Ok(Step::Continue));
    let r = vm.run_once();
    assert_eq!(r, Ok(Step::Float(FloatOp { kind: FloatKind::IntToFloat, dest: 0, lhs: 3, rhs: 3 })));
}

#[test]
fn moves_between_spaces() {
    // register <- program: four bytes at offset 0 of the program.
    let src = pack_address(AddressLocation::Program, 0);
    let mut movr = vec![op(Opcode::MOVR_P), 1];
    movr.extend(word(src));
    movr.push(4);
    let mut vm = machine(&[movr.clone(), vec![op(Opcode::MOVR_R), 2, 1]]);
    assert_eq!(vm.run(), Ok(Exit::Halted));
    let expected = u32::from_le_bytes([movr[0], movr[1], movr[2], movr[3]]) as u64;
    assert_eq!(vm.read_register(1).unwrap().bits, expected);
    assert_eq!(vm.read_register(2).unwrap().bits, expected);

    // stack <- program, then register <- stack; sizes above eight are capped.
    let mut movs = vec![op(Opcode::MOVS_P)];
    movs.extend(word(pack_address(AddressLocation::Stack, 2)));
    movs.extend(word(pack_address(AddressLocation::Program, 0)));
    movs.push(200);
    let mut back = vec![op(Opcode::MOVR_S), 3];
    back.extend(word(pack_address(AddressLocation::Stack, 2)));
    back.push(8);
    let mut vm = machine(&[movs.clone(), back]);
    assert_eq!(vm.run(), Ok(Exit::Halted));
    assert_eq!(&vm.stack()[2..10], &movs[0..8]);
    assert_eq!(vm.stack().len(), 16);
    let mut first = [0u8; 8];
    first.copy_from_slice(&movs[0..8]);
    assert_eq!(vm.read_register(3).unwrap().bits, u64::from_le_bytes(first));
}

#[test]
fn stack_to_stack_move() {
    let mut movs = vec![op(Opcode::MOVS_R)];
    movs.extend(word(pack_address(AddressLocation::Stack, 0)));
    movs.extend([1, 3]);
    let mut copy = vec![op(Opcode::MOVS_S)];
    copy.extend(word(pack_address(AddressLocation::Stack, 5)));
    copy.extend(word(pack_address(AddressLocation::Stack, 0)));
    copy.push(3);
    let mut vm = machine(&[ldi(1, 0x0a0b0c), movs, copy]);
    assert_eq!(vm.run(), Ok(Exit::Halted));
    assert_eq!(vm.stack(), &[0x0c, 0x0b, 0x0a, 0, 0, 0x0c, 0x0b, 0x0a][..]);
}

#[test]
fn heap_and_mismatched_spaces_are_unsupported() {
    let mut heap = vec![op(Opcode::MOVR_H), 1];
    heap.extend(word(pack_address(AddressLocation::Heap, 0)));
    heap.push(4);
    let mut vm = machine(&[heap]);
    assert_eq!(vm.run(), Err(Trap::UnsupportedAddressSpace));

    let mut wrong = vec![op(Opcode::MOVR_S), 1];
    wrong.extend(word(pack_address(AddressLocation::Program, 0)));
    wrong.push(4);
    let mut vm = machine(&[wrong]);
    assert_eq!(vm.run(), Err(Trap::UnsupportedAddressSpace));

    let mut ext = vec![op(Opcode::MOVH_R)];
    ext.extend(word(pack_address(AddressLocation::External, 0)));
    ext.extend([1, 4]);
    let mut vm = machine(&[ext]);
    assert_eq!(vm.run(), Err(Trap::UnsupportedAddressSpace));
}

#[test]
fn reads_past_a_space_trap() {
    let mut past = vec![op(Opcode::MOVR_P), 1];
    past.extend(word(pack_address(AddressLocation::Program, 8)));
    past.push(8);
    let mut vm = machine(&[past]);
    assert_eq!(vm.run(), Err(Trap::MalformedStream));

    let mut past = vec![op(Opcode::MOVR_S), 1];
    past.extend(word(pack_address(AddressLocation::Stack, 4)));
    past.push(8);
    let mut vm = machine(&[past]);
    assert_eq!(vm.run(), Err(Trap::StackOverflow));
}

#[test]
fn invalid_opcode_traps() {
    let mut vm = machine(&[vec![200]]);
    assert_eq!(vm.run(), Err(Trap::InvalidOpcode));
    assert_eq!(vm.pc(), 0);
}

#[test]
fn truncated_instruction_traps() {
    let mut p = ldi(1, 5);
    p.truncate(6);
    let mut vm = machine(&[p]);
    assert_eq!(vm.run(), Err(Trap::MalformedStream));
}

#[test]
fn register_index_is_checked() {
    let mut vm = machine(&[ldi(16, 5)]);
    assert_eq!(vm.run(), Err(Trap::RegisterIndexOutOfRange));
    assert_eq!(vm.read_register(16), Err(Trap::RegisterIndexOutOfRange));
    assert_eq!(vm.write_register(200, Reg::new()), Err(Trap::RegisterIndexOutOfRange));
    let mut vm = machine(&[three(Opcode::ADD, 0, 1, 31)]);
    assert_eq!(vm.run(), Err(Trap::RegisterIndexOutOfRange));
}

#[test]
fn step_limit_stops_endless_loop() {
    let mut vm = machine(&[with_word(Opcode::JMP, 0)]);
    assert_eq!(vm.run_for(5), Ok(Exit::StepLimit));
    assert_eq!(vm.pc(), 0);
}

#[test]
fn register_views() {
    let r = Reg::from_int(-2);
    assert_eq!(r.bits, u64::MAX - 1);
    assert_eq!(r.as_int(), -2);
    assert_eq!(Reg::from_byte(7).as_byte(), 7);
    assert!(Reg::from_bool(true).as_bool());
    assert!(!Reg::from_bool(false).as_bool());
    let mut c = Reg::from_int(i64::MIN);
    assert_eq!(c.as_int(), i64::MIN);
    c.clear();
    assert_eq!(c.bits, 0);
}

#[test]
fn new_machine_is_zeroed() {
    let vm = VM::new(8);
    assert_eq!(vm.stack(), &[0u8; 8][..]);
    assert_eq!(vm.sp(), 0);
    assert_eq!(vm.pc(), 0);
    assert!(vm.program().is_empty());
    assert!(vm.call_stack().is_empty());
}
