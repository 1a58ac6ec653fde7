use vstd::prelude::*;

verus! {

/// Number of opcode values in use; every byte from this value up is not an opcode.
pub const OPCODE_COUNT: u8 = 54;

/// The instruction set. Each variant is encoded as one byte, in declaration order from zero.
#[allow(non_camel_case_types)]
#[derive(Clone, Copy, Debug, PartialEq, Eq, Structural)]
pub enum Opcode {
    HLT,
    LDI,
    LDB,
    LDF,
    ADD,
    SUB,
    MUL,
    DIV,
    ADDF,
    SUBF,
    MULF,
    DIVF,
    ITOF,
    FTOI,
    CALL,
    RET,
    MOVR_R,
    MOVR_P,
    MOVR_S,
    MOVR_H,
    MOVH_H,
    MOVH_R,
    MOVH_S,
    MOVH_P,
    MOVS_S,
    MOVS_P,
    MOVS_R,
    MOVS_H,
    PUSH,
    POP,
    JMP,
    JMP_B,
    JMP_F,
    JT,
    JT_B,
    JT_F,
    JF,
    JF_B,
    JF_F,
    EQ,
    NEQ,
    LT,
    GT,
    GEQ,
    LEQ,
    EQF,
    NEQF,
    LTF,
    GTF,
    GEQF,
    LEQF,
    AND,
    OR,
    NOT,
}

impl Opcode {
    /// The byte that encodes this opcode.
    pub open spec fn code(self) -> u8 {
        match self {
            Opcode::HLT => 0,
            Opcode::LDI => 1,
            Opcode::LDB => 2,
            Opcode::LDF => 3,
            Opcode::ADD => 4,
            Opcode::SUB => 5,
            Opcode::MUL => 6,
            Opcode::DIV => 7,
            Opcode::ADDF => 8,
            Opcode::SUBF => 9,
            Opcode::MULF => 10,
            Opcode::DIVF => 11,
            Opcode::ITOF => 12,
            Opcode::FTOI => 13,
            Opcode::CALL => 14,
            Opcode::RET => 15,
            Opcode::MOVR_R => 16,
            Opcode::MOVR_P => 17,
            Opcode::MOVR_S => 18,
            Opcode::MOVR_H => 19,
            Opcode::MOVH_H => 20,
            Opcode::MOVH_R => 21,
            Opcode::MOVH_S => 22,
            Opcode::MOVH_P => 23,
            Opcode::MOVS_S => 24,
            Opcode::MOVS_P => 25,
            Opcode::MOVS_R => 26,
            Opcode::MOVS_H => 27,
            Opcode::PUSH => 28,
            Opcode::POP => 29,
            Opcode::JMP => 30,
            Opcode::JMP_B => 31,
            Opcode::JMP_F => 32,
            Opcode::JT => 33,
            Opcode::JT_B => 34,
            Opcode::JT_F => 35,
            Opcode::JF => 36,
            Opcode::JF_B => 37,
            Opcode::JF_F => 38,
            Opcode::EQ => 39,
            Opcode::NEQ => 40,
            Opcode::LT => 41,
            Opcode::GT => 42,
            Opcode::GEQ => 43,
            Opcode::LEQ => 44,
            Opcode::EQF => 45,
            Opcode::NEQF => 46,
            Opcode::LTF => 47,
            Opcode::GTF => 48,
            Opcode::GEQF => 49,
            Opcode::LEQF => 50,
            Opcode::AND => 51,
            Opcode::OR => 52,
            Opcode::NOT => 53,
        }
    }

    /// The opcode that a byte encodes, if any.
    pub open spec fn decode(b: u8) -> Option<Opcode> {
        match b {
            0 => Some(Opcode::HLT),
            1 => Some(Opcode::LDI),
            2 => Some(Opcode::LDB),
            3 => Some(Opcode::LDF),
            4 => Some(Opcode::ADD),
            5 => Some(Opcode::SUB),
            6 => Some(Opcode::MUL),
            7 => Some(Opcode::DIV),
            8 => Some(Opcode::ADDF),
            9 => Some(Opcode::SUBF),
            10 => Some(Opcode::MULF),
            11 => Some(Opcode::DIVF),
            12 => Some(Opcode::ITOF),
            13 => Some(Opcode::FTOI),
            14 => Some(Opcode::CALL),
            15 => Some(Opcode::RET),
            16 => Some(Opcode::MOVR_R),
            17 => Some(Opcode::MOVR_P),
            18 => Some(Opcode::MOVR_S),
            19 => Some(Opcode::MOVR_H),
            20 => Some(Opcode::MOVH_H),
            21 => Some(Opcode::MOVH_R),
            22 => Some(Opcode::MOVH_S),
            23 => Some(Opcode::MOVH_P),
            24 => Some(Opcode::MOVS_S),
            25 => Some(Opcode::MOVS_P),
            26 => Some(Opcode::MOVS_R),
            27 => Some(Opcode::MOVS_H),
            28 => Some(Opcode::PUSH),
            29 => Some(Opcode::POP),
            30 => Some(Opcode::JMP),
            31 => Some(Opcode::JMP_B),
            32 => Some(Opcode::JMP_F),
            33 => Some(Opcode::JT),
            34 => Some(Opcode::JT_B),
            35 => Some(Opcode::JT_F),
            36 => Some(Opcode::JF),
            37 => Some(Opcode::JF_B),
            38 => Some(Opcode::JF_F),
            39 => Some(Opcode::EQ),
            40 => Some(Opcode::NEQ),
            41 => Some(Opcode::LT),
            42 => Some(Opcode::GT),
            43 => Some(Opcode::GEQ),
            44 => Some(Opcode::LEQ),
            45 => Some(Opcode::EQF),
            46 => Some(Opcode::NEQF),
            47 => Some(Opcode::LTF),
            48 => Some(Opcode::GTF),
            49 => Some(Opcode::GEQF),
            50 => Some(Opcode::LEQF),
            51 => Some(Opcode::AND),
            52 => Some(Opcode::OR),
            53 => Some(Opcode::NOT),
            _ => None,
        }
    }

    /// How many operand bytes follow the opcode byte.
    pub open spec fn operand_len(self) -> nat {
        match self {
            Opcode::HLT
            | Opcode::RET => 0,
            Opcode::LDB
            | Opcode::ITOF
            | Opcode::FTOI
            | Opcode::MOVR_R
            | Opcode::NOT => 2,
            Opcode::ADD
            | Opcode::SUB
            | Opcode::MUL
            | Opcode::DIV
            | Opcode::ADDF
            | Opcode::SUBF
            | Opcode::MULF
            | Opcode::DIVF
            | Opcode::EQ
            | Opcode::NEQ
            | Opcode::LT
            | Opcode::GT
            | Opcode::GEQ
            | Opcode::LEQ
            | Opcode::EQF
            | Opcode::NEQF
            | Opcode::LTF
            | Opcode::GTF
            | Opcode::GEQF
            | Opcode::LEQF
            | Opcode::AND
            | Opcode::OR => 3,
            Opcode::CALL
            | Opcode::PUSH
            | Opcode::POP
            | Opcode::JMP
            | Opcode::JMP_B
            | Opcode::JMP_F => 8,
            Opcode::LDI
            | Opcode::LDF
            | Opcode::JT
            | Opcode::JT_B
            | Opcode::JT_F
            | Opcode::JF
            | Opcode::JF_B
            | Opcode::JF_F => 9,
            Opcode::MOVR_P
            | Opcode::MOVR_S
            | Opcode::MOVR_H
            | Opcode::MOVH_R
            | Opcode::MOVS_R => 10,
            Opcode::MOVH_H
            | Opcode::MOVH_S
            | Opcode::MOVH_P
            | Opcode::MOVS_S
            | Opcode::MOVS_P
            | Opcode::MOVS_H => 17,
        }
    }

    pub fn to_byte(self) -> (r: u8)
        ensures
            r == self.code(),
    {
        match self {
            Opcode::HLT => 0,
            Opcode::LDI => 1,
            Opcode::LDB => 2,
            Opcode::LDF => 3,
            Opcode::ADD => 4,
            Opcode::SUB => 5,
            Opcode::MUL => 6,
            Opcode::DIV => 7,
            Opcode::ADDF => 8,
            Opcode::SUBF => 9,
            Opcode::MULF => 10,
            Opcode::DIVF => 11,
            Opcode::ITOF => 12,
            Opcode::FTOI => 13,
            Opcode::CALL => 14,
            Opcode::RET => 15,
            Opcode::MOVR_R => 16,
            Opcode::MOVR_P => 17,
            Opcode::MOVR_S => 18,
            Opcode::MOVR_H => 19,
            Opcode::MOVH_H => 20,
            Opcode::MOVH_R => 21,
            Opcode::MOVH_S => 22,
            Opcode::MOVH_P => 23,
            Opcode::MOVS_S => 24,
            Opcode::MOVS_P => 25,
            Opcode::MOVS_R => 26,
            Opcode::MOVS_H => 27,
            Opcode::PUSH => 28,
            Opcode::POP => 29,
            Opcode::JMP => 30,
            Opcode::JMP_B => 31,
            Opcode::JMP_F => 32,
            Opcode::JT => 33,
            Opcode::JT_B => 34,
            Opcode::JT_F => 35,
            Opcode::JF => 36,
            Opcode::JF_B => 37,
            Opcode::JF_F => 38,
            Opcode::EQ => 39,
            Opcode::NEQ => 40,
            Opcode::LT => 41,
            Opcode::GT => 42,
            Opcode::GEQ => 43,
            Opcode::LEQ => 44,
            Opcode::EQF => 45,
            Opcode::NEQF => 46,
            Opcode::LTF => 47,
            Opcode::GTF => 48,
            Opcode::GEQF => 49,
            Opcode::LEQF => 50,
            Opcode::AND => 51,
            Opcode::OR => 52,
            Opcode::NOT => 53,
        }
    }

    /// Decodes an opcode byte; `None` for a byte that encodes no opcode.
    pub fn from_byte(b: u8) -> (r: Option<Opcode>)
        ensures
            r == Opcode::decode(b),
    {
        match b {
            0 => Some(Opcode::HLT),
            1 => Some(Opcode::LDI),
            2 => Some(Opcode::LDB),
            3 => Some(Opcode::LDF),
            4 => Some(Opcode::ADD),
            5 => Some(Opcode::SUB),
            6 => Some(Opcode::MUL),
            7 => Some(Opcode::DIV),
            8 => Some(Opcode::ADDF),
            9 => Some(Opcode::SUBF),
            10 => Some(Opcode::MULF),
            11 => Some(Opcode::DIVF),
            12 => Some(Opcode::ITOF),
            13 => Some(Opcode::FTOI),
            14 => Some(Opcode::CALL),
            15 => Some(Opcode::RET),
            16 => Some(Opcode::MOVR_R),
            17 => Some(Opcode::MOVR_P),
            18 => Some(Opcode::MOVR_S),
            19 => Some(Opcode::MOVR_H),
            20 => Some(Opcode::MOVH_H),
            21 => Some(Opcode::MOVH_R),
            22 => Some(Opcode::MOVH_S),
            23 => Some(Opcode::MOVH_P),
            24 => Some(Opcode::MOVS_S),
            25 => Some(Opcode::MOVS_P),
            26 => Some(Opcode::MOVS_R),
            27 => Some(Opcode::MOVS_H),
            28 => Some(Opcode::PUSH),
            29 => Some(Opcode::POP),
            30 => Some(Opcode::JMP),
            31 => Some(Opcode::JMP_B),
            32 => Some(Opcode::JMP_F),
            33 => Some(Opcode::JT),
            34 => Some(Opcode::JT_B),
            35 => Some(Opcode::JT_F),
            36 => Some(Opcode::JF),
            37 => Some(Opcode::JF_B),
            38 => Some(Opcode::JF_F),
            39 => Some(Opcode::EQ),
            40 => Some(Opcode::NEQ),
            41 => Some(Opcode::LT),
            42 => Some(Opcode::GT),
            43 => Some(Opcode::GEQ),
            44 => Some(Opcode::LEQ),
            45 => Some(Opcode::EQF),
            46 => Some(Opcode::NEQF),
            47 => Some(Opcode::LTF),
            48 => Some(Opcode::GTF),
            49 => Some(Opcode::GEQF),
            50 => Some(Opcode::LEQF),
            51 => Some(Opcode::AND),
            52 => Some(Opcode::OR),
            53 => Some(Opcode::NOT),
            _ => None,
        }
    }

    pub fn operand_bytes(self) -> (r: usize)
        ensures
            r == self.operand_len(),
    {
        match self {
            Opcode::HLT
            | Opcode::RET => 0,
            Opcode::LDB
            | Opcode::ITOF
            | Opcode::FTOI
            | Opcode::MOVR_R
            | Opcode::NOT => 2,
            Opcode::ADD
            | Opcode::SUB
            | Opcode::MUL
            | Opcode::DIV
            | Opcode::ADDF
            | Opcode::SUBF
            | Opcode::MULF
            | Opcode::DIVF
            | Opcode::EQ
            | Opcode::NEQ
            | Opcode::LT
            | Opcode::GT
            | Opcode::GEQ
            | Opcode::LEQ
            | Opcode::EQF
            | Opcode::NEQF
            | Opcode::LTF
            | Opcode::GTF
            | Opcode::GEQF
            | Opcode::LEQF
            | Opcode::AND
            | Opcode::OR => 3,
            Opcode::CALL
            | Opcode::PUSH
            | Opcode::POP
            | Opcode::JMP
            | Opcode::JMP_B
            | Opcode::JMP_F => 8,
            Opcode::LDI
            | Opcode::LDF
            | Opcode::JT
            | Opcode::JT_B
            | Opcode::JT_F
            | Opcode::JF
            | Opcode::JF_B
            | Opcode::JF_F => 9,
            Opcode::MOVR_P
            | Opcode::MOVR_S
            | Opcode::MOVR_H
            | Opcode::MOVH_R
            | Opcode::MOVS_R => 10,
            Opcode::MOVH_H
            | Opcode::MOVH_S
            | Opcode::MOVH_P
            | Opcode::MOVS_S
            | Opcode::MOVS_P
            | Opcode::MOVS_H => 17,
        }
    }
}

/// Decoding the byte of an opcode gives that opcode back.
pub proof fn lemma_opcode_round_trip(op: Opcode)
    ensures
        Opcode::decode(op.code()) == Some(op),
        op.code() < OPCODE_COUNT,
{
}

/// Exactly the bytes below `OPCODE_COUNT` encode an opcode, and each encodes
/// the opcode whose code it is.
pub proof fn lemma_decode_inverts_code(b: u8)
    ensures
        Opcode::decode(b) is Some <==> b < OPCODE_COUNT,
        Opcode::decode(b) matches Some(op) ==> op.code() == b,
{
}

/// One decoded instruction, identified by its opcode.
#[derive(PartialEq, Eq, Structural)]
pub struct Instruction {
    pub opcode: Opcode,
}

impl Instruction {
    pub fn new(opcode: Opcode) -> (r: Self)
        ensures
            r.opcode == opcode,
    {
        Self { opcode: opcode }
    }
}

} // verus!
