use vstd::prelude::*;

verus! {

/// 2^63: the first bit pattern whose signed reading is negative.
pub const SIGN_BIT: u64 = 0x8000_0000_0000_0000;

/// The signed 64-bit integer that a bit pattern stands for (two's complement).
pub open spec fn signed_of(bits: u64) -> int {
    if bits < SIGN_BIT {
        bits as int
    } else {
        bits - 0x1_0000_0000_0000_0000
    }
}

/// The bit pattern of a signed 64-bit integer (two's complement).
pub open spec fn bits_of(v: i64) -> u64 {
    if v >= 0 {
        v as u64
    } else {
        (v + 0x1_0000_0000_0000_0000) as u64
    }
}

/// One 64-bit register cell. It carries no type: each instruction reads it
/// through the view that matches its operands.
#[derive(Clone, Copy, Debug, PartialEq, Eq, Structural)]
pub struct Reg {
    pub bits: u64,
}

impl Reg {
    pub fn new() -> (r: Self)
        ensures
            r.bits == 0,
    {
        Self { bits: 0 }
    }

    pub fn clear(&mut self)
        ensures
            final(self).bits == 0,
    {
        self.bits = 0;
    }

    pub fn from_int(v: i64) -> (r: Self)
        ensures
            r.bits == bits_of(v),
            signed_of(r.bits) == v,
    {
        if v >= 0 {
            Self { bits: v as u64 }
        } else {
            Self { bits: u64::MAX - ((-(v + 1)) as u64) }
        }
    }

    /// The integer view.
    pub fn as_int(&self) -> (r: i64)
        ensures
            r == signed_of(self.bits),
    {
        if self.bits < SIGN_BIT {
            self.bits as i64
        } else {
            -((u64::MAX - self.bits) as i64) - 1
        }
    }

    pub fn from_byte(b: u8) -> (r: Self)
        ensures
            r.bits == b,
    {
        Self { bits: b as u64 }
    }

    /// The byte view: the low eight bits.
    pub fn as_byte(&self) -> (r: u8)
        ensures
            r == self.bits % 256,
    {
        (self.bits % 256) as u8
    }

    pub fn from_bool(b: bool) -> (r: Self)
        ensures
            r.bits == (if b { 1u64 } else { 0u64 }),
    {
        Self { bits: if b { 1 } else { 0 } }
    }

    /// The boolean view: any nonzero cell reads as true.
    pub fn as_bool(&self) -> (r: bool)
        ensures
            r == (self.bits != 0),
    {
        self.bits != 0
    }
}

/// Reading a stored integer back through the integer view gives that integer.
pub proof fn lemma_int_round_trip(v: i64)
    ensures
        signed_of(bits_of(v)) == v,
{
}

} // verus!
