use vstd::prelude::*;

use crate::vm::register::SIGN_BIT;

verus! {

/// Bits of positive infinity; a pattern whose magnitude lies above it is a NaN.
pub const INFINITY_BITS: u64 = 0x7ff0_0000_0000_0000;

/// The relation that a comparison instruction tests.
#[derive(Clone, Copy, Debug, PartialEq, Eq, Structural)]
pub enum Comparison {
    Eq,
    Neq,
    Lt,
    Gt,
    Geq,
    Leq,
}

pub open spec fn holds(c: Comparison, a: int, b: int) -> bool {
    match c {
        Comparison::Eq => a == b,
        Comparison::Neq => a != b,
        Comparison::Lt => a < b,
        Comparison::Gt => a > b,
        Comparison::Geq => a >= b,
        Comparison::Leq => a <= b,
    }
}

/// Whether a 64-bit pattern is an IEEE 754 NaN.
pub open spec fn is_nan(bits: u64) -> bool {
    bits % SIGN_BIT > INFINITY_BITS
}

/// A key whose integer order is the IEEE order of the non-NaN doubles;
/// both zeros get the key 0.
pub open spec fn float_key(bits: u64) -> int {
    if bits >= SIGN_BIT {
        -(bits - SIGN_BIT)
    } else {
        bits as int
    }
}

/// The IEEE 754 comparison of two doubles given by their bit patterns: every
/// relation but `!=` is false as soon as one side is NaN, and `!=` is then true.
pub open spec fn float_holds(c: Comparison, a: u64, b: u64) -> bool {
    if is_nan(a) || is_nan(b) {
        c == Comparison::Neq
    } else {
        holds(c, float_key(a), float_key(b))
    }
}

pub fn compare_ints(c: Comparison, a: i64, b: i64) -> (r: bool)
    ensures
        r == holds(c, a as int, b as int),
{
    match c {
        Comparison::Eq => a == b,
        Comparison::Neq => a != b,
        Comparison::Lt => a < b,
        Comparison::Gt => a > b,
        Comparison::Geq => a >= b,
        Comparison::Leq => a <= b,
    }
}

fn float_key_of(bits: u64) -> (r: i64)
    ensures
        r == float_key(bits),
{
    if bits >= SIGN_BIT {
        -((bits - SIGN_BIT) as i64)
    } else {
        bits as i64
    }
}

pub fn compare_floats(c: Comparison, a: u64, b: u64) -> (r: bool)
    ensures
        r == float_holds(c, a, b),
{
    if a % SIGN_BIT > INFINITY_BITS || b % SIGN_BIT > INFINITY_BITS {
        match c {
            Comparison::Neq => true,
            _ => false,
        }
    } else {
        compare_ints(c, float_key_of(a), float_key_of(b))
    }
}

/// Float equality is exact: a double that is not NaN equals itself, and NaN
/// equals nothing, not even a NaN with the same bits.
pub proof fn lemma_float_equality_exact(a: u64, b: u64)
    ensures
        !is_nan(a) ==> float_holds(Comparison::Eq, a, a),
        is_nan(a) ==> !float_holds(Comparison::Eq, a, b) && float_holds(Comparison::Neq, a, b),
        is_nan(b) ==> !float_holds(Comparison::Eq, a, b),
{
}

} // verus!
