//! The opcode table: the 6-bit opcode field of an instruction's first byte
//! names one of these operations, and the operation alone decides which of
//! the seven instruction layouts follows.
use vstd::prelude::*;


verus! {

/// An EBC operation.
#[derive(Debug, Clone, Copy, PartialEq, Eq, Structural)]
#[allow(non_camel_case_types)]
pub enum OpCode {
    ADD,
    AND,
    ASHR,
    BREAK,
    CALL,
    CMPeq,
    CMPlte,
    CMPgte,
    CMPulte,
    CMPugte,
    CMPIeq,
    CMPIlte,
    CMPIgte,
    CMPIulte,
    CMPIugte,
    DIV,
    DIVU,
    EXTNDB,
    EXTNDD,
    EXTNDW,
    JMP,
    JMP8,
    LOADSP,
    MOD,
    MODU,
    MOVbw,
    MOVww,
    MOVdw,
    MOVqw,
    MOVbd,
    MOVwd,
    MOVdd,
    MOVqd,
    MOVqq,
    MOVI,
    MOVIn,
    MOVnw,
    MOVnd,
    MOVREL,
    MOVsnw,
    MOVsnd,
    MUL,
    MULU,
    NEG,
    NOT,
    OR,
    POP,
    POPn,
    PUSH,
    PUSHn,
    RET,
    SHL,
    SHR,
    STORESP,
    SUB,
    XOR,
}

/// The operation whose opcode field is `v`, if any.
pub open spec fn opcode_of(v: u8) -> Result<OpCode, ()> {
    match v {
        0x00 => Ok(OpCode::BREAK),
        0x01 => Ok(OpCode::JMP),
        0x02 => Ok(OpCode::JMP8),
        0x03 => Ok(OpCode::CALL),
        0x04 => Ok(OpCode::RET),
        0x05 => Ok(OpCode::CMPeq),
        0x06 => Ok(OpCode::CMPlte),
        0x07 => Ok(OpCode::CMPgte),
        0x08 => Ok(OpCode::CMPulte),
        0x09 => Ok(OpCode::CMPugte),
        0x0A => Ok(OpCode::NOT),
        0x0B => Ok(OpCode::NEG),
        0x0C => Ok(OpCode::ADD),
        0x0D => Ok(OpCode::SUB),
        0x0E => Ok(OpCode::MUL),
        0x0F => Ok(OpCode::MULU),
        0x10 => Ok(OpCode::DIV),
        0x11 => Ok(OpCode::DIVU),
        0x12 => Ok(OpCode::MOD),
        0x13 => Ok(OpCode::MODU),
        0x14 => Ok(OpCode::AND),
        0x15 => Ok(OpCode::OR),
        0x16 => Ok(OpCode::XOR),
        0x17 => Ok(OpCode::SHL),
        0x18 => Ok(OpCode::SHR),
        0x19 => Ok(OpCode::ASHR),
        0x1A => Ok(OpCode::EXTNDB),
        0x1B => Ok(OpCode::EXTNDW),
        0x1C => Ok(OpCode::EXTNDD),
        0x1D => Ok(OpCode::MOVbw),
        0x1E => Ok(OpCode::MOVww),
        0x1F => Ok(OpCode::MOVdw),
        0x20 => Ok(OpCode::MOVqw),
        0x21 => Ok(OpCode::MOVbd),
        0x22 => Ok(OpCode::MOVwd),
        0x23 => Ok(OpCode::MOVdd),
        0x24 => Ok(OpCode::MOVqd),
        0x25 => Ok(OpCode::MOVsnw),
        0x26 => Ok(OpCode::MOVsnd),
        0x28 => Ok(OpCode::MOVqq),
        0x29 => Ok(OpCode::LOADSP),
        0x2A => Ok(OpCode::STORESP),
        0x2B => Ok(OpCode::PUSH),
        0x2C => Ok(OpCode::POP),
        0x2D => Ok(OpCode::CMPIeq),
        0x2E => Ok(OpCode::CMPIlte),
        0x2F => Ok(OpCode::CMPIgte),
        0x30 => Ok(OpCode::CMPIulte),
        0x31 => Ok(OpCode::CMPIugte),
        0x32 => Ok(OpCode::MOVnw),
        0x33 => Ok(OpCode::MOVnd),
        0x35 => Ok(OpCode::PUSHn),
        0x36 => Ok(OpCode::POPn),
        0x37 => Ok(OpCode::MOVI),
        0x38 => Ok(OpCode::MOVIn),
        0x39 => Ok(OpCode::MOVREL),
        _ => Err(()),
    }
}

impl OpCode {
    /// The value of this operation's opcode field.
    pub open spec fn value(self) -> u8 {
        match self {
            OpCode::ADD => 0x0C,
            OpCode::AND => 0x14,
            OpCode::ASHR => 0x19,
            OpCode::BREAK => 0x00,
            OpCode::CALL => 0x03,
            OpCode::CMPeq => 0x05,
            OpCode::CMPlte => 0x06,
            OpCode::CMPgte => 0x07,
            OpCode::CMPulte => 0x08,
            OpCode::CMPugte => 0x09,
            OpCode::CMPIeq => 0x2D,
            OpCode::CMPIlte => 0x2E,
            OpCode::CMPIgte => 0x2F,
            OpCode::CMPIulte => 0x30,
            OpCode::CMPIugte => 0x31,
            OpCode::DIV => 0x10,
            OpCode::DIVU => 0x11,
            OpCode::EXTNDB => 0x1A,
            OpCode::EXTNDD => 0x1C,
            OpCode::EXTNDW => 0x1B,
            OpCode::JMP => 0x01,
            OpCode::JMP8 => 0x02,
            OpCode::LOADSP => 0x29,
            OpCode::MOD => 0x12,
            OpCode::MODU => 0x13,
            OpCode::MOVbw => 0x1D,
            OpCode::MOVww => 0x1E,
            OpCode::MOVdw => 0x1F,
            OpCode::MOVqw => 0x20,
            OpCode::MOVbd => 0x21,
            OpCode::MOVwd => 0x22,
            OpCode::MOVdd => 0x23,
            OpCode::MOVqd => 0x24,
            OpCode::MOVqq => 0x28,
            OpCode::MOVI => 0x37,
            OpCode::MOVIn => 0x38,
            OpCode::MOVnw => 0x32,
            OpCode::MOVnd => 0x33,
            OpCode::MOVREL => 0x39,
            OpCode::MOVsnw => 0x25,
            OpCode::MOVsnd => 0x26,
            OpCode::MUL => 0x0E,
            OpCode::MULU => 0x0F,
            OpCode::NEG => 0x0B,
            OpCode::NOT => 0x0A,
            OpCode::OR => 0x15,
            OpCode::POP => 0x2C,
            OpCode::POPn => 0x36,
            OpCode::PUSH => 0x2B,
            OpCode::PUSHn => 0x35,
            OpCode::RET => 0x04,
            OpCode::SHL => 0x17,
            OpCode::SHR => 0x18,
            OpCode::STORESP => 0x2A,
            OpCode::SUB => 0x0D,
            OpCode::XOR => 0x16,
        }
    }

    /// The operation's mnemonic, as the instruction set documents it.
    pub open spec fn mnemonic(self) -> Seq<char> {
        match self {
            OpCode::ADD => "ADD"@,
            OpCode::AND => "AND"@,
            OpCode::ASHR => "ASHR"@,
            OpCode::BREAK => "BREAK"@,
            OpCode::CALL => "CALL"@,
            OpCode::CMPeq => "CMPeq"@,
            OpCode::CMPlte => "CMPlte"@,
            OpCode::CMPgte => "CMPgte"@,
            OpCode::CMPulte => "CMPulte"@,
            OpCode::CMPugte => "CMPugte"@,
            OpCode::CMPIeq => "CMPIeq"@,
            OpCode::CMPIlte => "CMPIlte"@,
            OpCode::CMPIgte => "CMPIgte"@,
            OpCode::CMPIulte => "CMPIulte"@,
            OpCode::CMPIugte => "CMPIugte"@,
            OpCode::DIV => "DIV"@,
            OpCode::DIVU => "DIVU"@,
            OpCode::EXTNDB => "EXTNDB"@,
            OpCode::EXTNDD => "EXTNDD"@,
            OpCode::EXTNDW => "EXTNDW"@,
            OpCode::JMP => "JMP"@,
            OpCode::JMP8 => "JMP8"@,
            OpCode::LOADSP => "LOADSP"@,
            OpCode::MOD => "MOD"@,
            OpCode::MODU => "MODU"@,
            OpCode::MOVbw => "MOVbw"@,
            OpCode::MOVww => "MOVww"@,
            OpCode::MOVdw => "MOVdw"@,
            OpCode::MOVqw => "MOVqw"@,
            OpCode::MOVbd => "MOVbd"@,
            OpCode::MOVwd => "MOVwd"@,
            OpCode::MOVdd => "MOVdd"@,
            OpCode::MOVqd => "MOVqd"@,
            OpCode::MOVqq => "MOVqq"@,
            OpCode::MOVI => "MOVI"@,
            OpCode::MOVIn => "MOVIn"@,
            OpCode::MOVnw => "MOVnw"@,
            OpCode::MOVnd => "MOVnd"@,
            OpCode::MOVREL => "MOVREL"@,
            OpCode::MOVsnw => "MOVsnw"@,
            OpCode::MOVsnd => "MOVsnd"@,
            OpCode::MUL => "MUL"@,
            OpCode::MULU => "MULU"@,
            OpCode::NEG => "NEG"@,
            OpCode::NOT => "NOT"@,
            OpCode::OR => "OR"@,
            OpCode::POP => "POP"@,
            OpCode::POPn => "POPn"@,
            OpCode::PUSH => "PUSH"@,
            OpCode::PUSHn => "PUSHn"@,
            OpCode::RET => "RET"@,
            OpCode::SHL => "SHL"@,
            OpCode::SHR => "SHR"@,
            OpCode::STORESP => "STORESP"@,
            OpCode::SUB => "SUB"@,
            OpCode::XOR => "XOR"@,
        }
    }

    /// Which of the seven instruction layouts the operation uses.
    pub open spec fn shape(self) -> u8 {
        match self {
            OpCode::ADD => 6,
            OpCode::AND => 6,
            OpCode::ASHR => 6,
            OpCode::BREAK => 2,
            OpCode::CALL => 3,
            OpCode::CMPeq => 6,
            OpCode::CMPlte => 6,
            OpCode::CMPgte => 6,
            OpCode::CMPulte => 6,
            OpCode::CMPugte => 6,
            OpCode::CMPIeq => 5,
            OpCode::CMPIlte => 5,
            OpCode::CMPIgte => 5,
            OpCode::CMPIulte => 5,
            OpCode::CMPIugte => 5,
            OpCode::DIV => 6,
            OpCode::DIVU => 6,
            OpCode::EXTNDB => 6,
            OpCode::EXTNDD => 6,
            OpCode::EXTNDW => 6,
            OpCode::JMP => 3,
            OpCode::JMP8 => 2,
            OpCode::LOADSP => 4,
            OpCode::MOD => 6,
            OpCode::MODU => 6,
            OpCode::MOVbw => 7,
            OpCode::MOVww => 7,
            OpCode::MOVdw => 7,
            OpCode::MOVqw => 7,
            OpCode::MOVbd => 7,
            OpCode::MOVwd => 7,
            OpCode::MOVdd => 7,
            OpCode::MOVqd => 7,
            OpCode::MOVqq => 7,
            OpCode::MOVI => 5,
            OpCode::MOVIn => 5,
            OpCode::MOVnw => 7,
            OpCode::MOVnd => 7,
            OpCode::MOVREL => 5,
            OpCode::MOVsnw => 7,
            OpCode::MOVsnd => 7,
            OpCode::MUL => 6,
            OpCode::MULU => 6,
            OpCode::NEG => 6,
            OpCode::NOT => 6,
            OpCode::OR => 6,
            OpCode::POP => 3,
            OpCode::POPn => 3,
            OpCode::PUSH => 3,
            OpCode::PUSHn => 3,
            OpCode::RET => 1,
            OpCode::SHL => 6,
            OpCode::SHR => 6,
            OpCode::STORESP => 4,
            OpCode::SUB => 6,
            OpCode::XOR => 6,
        }
    }

    /// The value of this operation's opcode field.
    pub fn to(self) -> (r: u8)
        ensures
            r == self.value(),
    {
        match self {
            OpCode::ADD => 0x0C,
            OpCode::AND => 0x14,
            OpCode::ASHR => 0x19,
            OpCode::BREAK => 0x00,
            OpCode::CALL => 0x03,
            OpCode::CMPeq => 0x05,
            OpCode::CMPlte => 0x06,
            OpCode::CMPgte => 0x07,
            OpCode::CMPulte => 0x08,
            OpCode::CMPugte => 0x09,
            OpCode::CMPIeq => 0x2D,
            OpCode::CMPIlte => 0x2E,
            OpCode::CMPIgte => 0x2F,
            OpCode::CMPIulte => 0x30,
            OpCode::CMPIugte => 0x31,
            OpCode::DIV => 0x10,
            OpCode::DIVU => 0x11,
            OpCode::EXTNDB => 0x1A,
            OpCode::EXTNDD => 0x1C,
            OpCode::EXTNDW => 0x1B,
            OpCode::JMP => 0x01,
            OpCode::JMP8 => 0x02,
            OpCode::LOADSP => 0x29,
            OpCode::MOD => 0x12,
            OpCode::MODU => 0x13,
            OpCode::MOVbw => 0x1D,
            OpCode::MOVww => 0x1E,
            OpCode::MOVdw => 0x1F,
            OpCode::MOVqw => 0x20,
            OpCode::MOVbd => 0x21,
            OpCode::MOVwd => 0x22,
            OpCode::MOVdd => 0x23,
            OpCode::MOVqd => 0x24,
            OpCode::MOVqq => 0x28,
            OpCode::MOVI => 0x37,
            OpCode::MOVIn => 0x38,
            OpCode::MOVnw => 0x32,
            OpCode::MOVnd => 0x33,
            OpCode::MOVREL => 0x39,
            OpCode::MOVsnw => 0x25,
            OpCode::MOVsnd => 0x26,
            OpCode::MUL => 0x0E,
            OpCode::MULU => 0x0F,
            OpCode::NEG => 0x0B,
            OpCode::NOT => 0x0A,
            OpCode::OR => 0x15,
            OpCode::POP => 0x2C,
            OpCode::POPn => 0x36,
            OpCode::PUSH => 0x2B,
            OpCode::PUSHn => 0x35,
            OpCode::RET => 0x04,
            OpCode::SHL => 0x17,
            OpCode::SHR => 0x18,
            OpCode::STORESP => 0x2A,
            OpCode::SUB => 0x0D,
            OpCode::XOR => 0x16,
        }
    }

    /// The operation's mnemonic.
    pub fn name(self) -> (r: &'static str)
        ensures
            r@ == self.mnemonic(),
    {
        match self {
            OpCode::ADD => "ADD",
            OpCode::AND => "AND",
            OpCode::ASHR => "ASHR",
            OpCode::BREAK => "BREAK",
            OpCode::CALL => "CALL",
            OpCode::CMPeq => "CMPeq",
            OpCode::CMPlte => "CMPlte",
            OpCode::CMPgte => "CMPgte",
            OpCode::CMPulte => "CMPulte",
            OpCode::CMPugte => "CMPugte",
            OpCode::CMPIeq => "CMPIeq",
            OpCode::CMPIlte => "CMPIlte",
            OpCode::CMPIgte => "CMPIgte",
            OpCode::CMPIulte => "CMPIulte",
            OpCode::CMPIugte => "CMPIugte",
            OpCode::DIV => "DIV",
            OpCode::DIVU => "DIVU",
            OpCode::EXTNDB => "EXTNDB",
            OpCode::EXTNDD => "EXTNDD",
            OpCode::EXTNDW => "EXTNDW",
            OpCode::JMP => "JMP",
            OpCode::JMP8 => "JMP8",
            OpCode::LOADSP => "LOADSP",
            OpCode::MOD => "MOD",
            OpCode::MODU => "MODU",
            OpCode::MOVbw => "MOVbw",
            OpCode::MOVww => "MOVww",
            OpCode::MOVdw => "MOVdw",
            OpCode::MOVqw => "MOVqw",
            OpCode::MOVbd => "MOVbd",
            OpCode::MOVwd => "MOVwd",
            OpCode::MOVdd => "MOVdd",
            OpCode::MOVqd => "MOVqd",
            OpCode::MOVqq => "MOVqq",
            OpCode::MOVI => "MOVI",
            OpCode::MOVIn => "MOVIn",
            OpCode::MOVnw => "MOVnw",
            OpCode::MOVnd => "MOVnd",
            OpCode::MOVREL => "MOVREL",
            OpCode::MOVsnw => "MOVsnw",
            OpCode::MOVsnd => "MOVsnd",
            OpCode::MUL => "MUL",
            OpCode::MULU => "MULU",
            OpCode::NEG => "NEG",
            OpCode::NOT => "NOT",
            OpCode::OR => "OR",
            OpCode::POP => "POP",
            OpCode::POPn => "POPn",
            OpCode::PUSH => "PUSH",
            OpCode::PUSHn => "PUSHn",
            OpCode::RET => "RET",
            OpCode::SHL => "SHL",
            OpCode::SHR => "SHR",
            OpCode::STORESP => "STORESP",
            OpCode::SUB => "SUB",
            OpCode::XOR => "XOR",
        }
    }
}

/// The opcode table is total over the operations and one-to-one: the value
/// of every operation decodes back to that operation, and a value decodes
/// to an operation only if it is that operation's value.
pub proof fn lemma_opcode_table(op: OpCode, v: u8)
    ensures
        opcode_of(op.value()) == Ok::<OpCode, ()>(op),
        opcode_of(v) == Ok::<OpCode, ()>(op) ==> op.value() == v,
        op.value() < 64,
        1 <= op.shape() <= 7,
{
}

/// The operation whose mnemonic is `s`, read letter by letter.
pub open spec fn opcode_named(s: Seq<char>) -> Option<OpCode> {
    if s.len() == 3 && s[0] == 'A' && s[1] == 'D' && s[2] == 'D' {
        Some(OpCode::ADD)
    } else if s.len() == 3 && s[0] == 'A' && s[1] == 'N' && s[2] == 'D' {
        Some(OpCode::AND)
    } else if s.len() == 4 && s[0] == 'A' && s[1] == 'S' && s[2] == 'H' && s[3] == 'R' {
        Some(OpCode::ASHR)
    } else if s.len() == 5 && s[0] == 'B' && s[1] == 'R' && s[2] == 'E' && s[3] == 'A' && s[4] == 'K' {
        Some(OpCode::BREAK)
    } else if s.len() == 4 && s[0] == 'C' && s[1] == 'A' && s[2] == 'L' && s[3] == 'L' {
        Some(OpCode::CALL)
    } else if s.len() == 5 && s[0] == 'C' && s[1] == 'M' && s[2] == 'P' && s[3] == 'e' && s[4] == 'q' {
        Some(OpCode::CMPeq)
    } else if s.len() == 6 && s[0] == 'C' && s[1] == 'M' && s[2] == 'P' && s[3] == 'l' && s[4] == 't' && s[5] == 'e' {
        Some(OpCode::CMPlte)
    } else if s.len() == 6 && s[0] == 'C' && s[1] == 'M' && s[2] == 'P' && s[3] == 'g' && s[4] == 't' && s[5] == 'e' {
        Some(OpCode::CMPgte)
    } else if s.len() == 7 && s[0] == 'C' && s[1] == 'M' && s[2] == 'P' && s[3] == 'u' && s[4] == 'l' && s[5] == 't' && s[6] == 'e' {
        Some(OpCode::CMPulte)
    } else if s.len() == 7 && s[0] == 'C' && s[1] == 'M' && s[2] == 'P' && s[3] == 'u' && s[4] == 'g' && s[5] == 't' && s[6] == 'e' {
        Some(OpCode::CMPugte)
    } else if s.len() == 6 && s[0] == 'C' && s[1] == 'M' && s[2] == 'P' && s[3] == 'I' && s[4] == 'e' && s[5] == 'q' {
        Some(OpCode::CMPIeq)
    } else if s.len() == 7 && s[0] == 'C' && s[1] == 'M' && s[2] == 'P' && s[3] == 'I' && s[4] == 'l' && s[5] == 't' && s[6] == 'e' {
        Some(OpCode::CMPIlte)
    } else if s.len() == 7 && s[0] == 'C' && s[1] == 'M' && s[2] == 'P' && s[3] == 'I' && s[4] == 'g' && s[5] == 't' && s[6] == 'e' {
        Some(OpCode::CMPIgte)
    } else if s.len() == 8 && s[0] == 'C' && s[1] == 'M' && s[2] == 'P' && s[3] == 'I' && s[4] == 'u' && s[5] == 'l' && s[6] == 't' && s[7] == 'e' {
        Some(OpCode::CMPIulte)
    } else if s.len() == 8 && s[0] == 'C' && s[1] == 'M' && s[2] == 'P' && s[3] == 'I' && s[4] == 'u' && s[5] == 'g' && s[6] == 't' && s[7] == 'e' {
        Some(OpCode::CMPIugte)
    } else if s.len() == 3 && s[0] == 'D' && s[1] == 'I' && s[2] == 'V' {
        Some(OpCode::DIV)
    } else if s.len() == 4 && s[0] == 'D' && s[1] == 'I' && s[2] == 'V' && s[3] == 'U' {
        Some(OpCode::DIVU)
    } else if s.len() == 6 && s[0] == 'E' && s[1] == 'X' && s[2] == 'T' && s[3] == 'N' && s[4] == 'D' && s[5] == 'B' {
        Some(OpCode::EXTNDB)
    } else if s.len() == 6 && s[0] == 'E' && s[1] == 'X' && s[2] == 'T' && s[3] == 'N' && s[4] == 'D' && s[5] == 'D' {
        Some(OpCode::EXTNDD)
    } else if s.len() == 6 && s[0] == 'E' && s[1] == 'X' && s[2] == 'T' && s[3] == 'N' && s[4] == 'D' && s[5] == 'W' {
        Some(OpCode::EXTNDW)
    } else if s.len() == 3 && s[0] == 'J' && s[1] == 'M' && s[2] == 'P' {
        Some(OpCode::JMP)
    } else if s.len() == 4 && s[0] == 'J' && s[1] == 'M' && s[2] == 'P' && s[3] == '8' {
        Some(OpCode::JMP8)
    } else if s.len() == 6 && s[0] == 'L' && s[1] == 'O' && s[2] == 'A' && s[3] == 'D' && s[4] == 'S' && s[5] == 'P' {
        Some(OpCode::LOADSP)
    } else if s.len() == 3 && s[0] == 'M' && s[1] == 'O' && s[2] == 'D' {
        Some(OpCode::MOD)
    } else if s.len() == 4 && s[0] == 'M' && s[1] == 'O' && s[2] == 'D' && s[3] == 'U' {
        Some(OpCode::MODU)
    } else if s.len() == 5 && s[0] == 'M' && s[1] == 'O' && s[2] == 'V' && s[3] == 'b' && s[4] == 'w' {
        Some(OpCode::MOVbw)
    } else if s.len() == 5 && s[0] == 'M' && s[1] == 'O' && s[2] == 'V' && s[3] == 'w' && s[4] == 'w' {
        Some(OpCode::MOVww)
    } else if s.len() == 5 && s[0] == 'M' && s[1] == 'O' && s[2] == 'V' && s[3] == 'd' && s[4] == 'w' {
        Some(OpCode::MOVdw)
    } else if s.len() == 5 && s[0] == 'M' && s[1] == 'O' && s[2] == 'V' && s[3] == 'q' && s[4] == 'w' {
        Some(OpCode::MOVqw)
    } else if s.len() == 5 && s[0] == 'M' && s[1] == 'O' && s[2] == 'V' && s[3] == 'b' && s[4] == 'd' {
        Some(OpCode::MOVbd)
    } else if s.len() == 5 && s[0] == 'M' && s[1] == 'O' && s[2] == 'V' && s[3] == 'w' && s[4] == 'd' {
        Some(OpCode::MOVwd)
    } else if s.len() == 5 && s[0] == 'M' && s[1] == 'O' && s[2] == 'V' && s[3] == 'd' && s[4] == 'd' {
        Some(OpCode::MOVdd)
    } else if s.len() == 5 && s[0] == 'M' && s[1] == 'O' && s[2] == 'V' && s[3] == 'q' && s[4] == 'd' {
        Some(OpCode::MOVqd)
    } else if s.len() == 5 && s[0] == 'M' && s[1] == 'O' && s[2] == 'V' && s[3] == 'q' && s[4] == 'q' {
        Some(OpCode::MOVqq)
    } else if s.len() == 4 && s[0] == 'M' && s[1] == 'O' && s[2] == 'V' && s[3] == 'I' {
        Some(OpCode::MOVI)
    } else if s.len() == 5 && s[0] == 'M' && s[1] == 'O' && s[2] == 'V' && s[3] == 'I' && s[4] == 'n' {
        Some(OpCode::MOVIn)
    } else if s.len() == 5 && s[0] == 'M' && s[1] == 'O' && s[2] == 'V' && s[3] == 'n' && s[4] == 'w' {
        Some(OpCode::MOVnw)
    } else if s.len() == 5 && s[0] == 'M' && s[1] == 'O' && s[2] == 'V' && s[3] == 'n' && s[4] == 'd' {
        Some(OpCode::MOVnd)
    } else if s.len() == 6 && s[0] == 'M' && s[1] == 'O' && s[2] == 'V' && s[3] == 'R' && s[4] == 'E' && s[5] == 'L' {
        Some(OpCode::MOVREL)
    } else if s.len() == 6 && s[0] == 'M' && s[1] == 'O' && s[2] == 'V' && s[3] == 's' && s[4] == 'n' && s[5] == 'w' {
        Some(OpCode::MOVsnw)
    } else if s.len() == 6 && s[0] == 'M' && s[1] == 'O' && s[2] == 'V' && s[3] == 's' && s[4] == 'n' && s[5] == 'd' {
        Some(OpCode::MOVsnd)
    } else if s.len() == 3 && s[0] == 'M' && s[1] == 'U' && s[2] == 'L' {
        Some(OpCode::MUL)
    } else if s.len() == 4 && s[0] == 'M' && s[1] == 'U' && s[2] == 'L' && s[3] == 'U' {
        Some(OpCode::MULU)
    } else if s.len() == 3 && s[0] == 'N' && s[1] == 'E' && s[2] == 'G' {
        Some(OpCode::NEG)
    } else if s.len() == 3 && s[0] == 'N' && s[1] == 'O' && s[2] == 'T' {
        Some(OpCode::NOT)
    } else if s.len() == 2 && s[0] == 'O' && s[1] == 'R' {
        Some(OpCode::OR)
    } else if s.len() == 3 && s[0] == 'P' && s[1] == 'O' && s[2] == 'P' {
        Some(OpCode::POP)
    } else if s.len() == 4 && s[0] == 'P' && s[1] == 'O' && s[2] == 'P' && s[3] == 'n' {
        Some(OpCode::POPn)
    } else if s.len() == 4 && s[0] == 'P' && s[1] == 'U' && s[2] == 'S' && s[3] == 'H' {
        Some(OpCode::PUSH)
    } else if s.len() == 5 && s[0] == 'P' && s[1] == 'U' && s[2] == 'S' && s[3] == 'H' && s[4] == 'n' {
        Some(OpCode::PUSHn)
    } else if s.len() == 3 && s[0] == 'R' && s[1] == 'E' && s[2] == 'T' {
        Some(OpCode::RET)
    } else if s.len() == 3 && s[0] == 'S' && s[1] == 'H' && s[2] == 'L' {
        Some(OpCode::SHL)
    } else if s.len() == 3 && s[0] == 'S' && s[1] == 'H' && s[2] == 'R' {
        Some(OpCode::SHR)
    } else if s.len() == 7 && s[0] == 'S' && s[1] == 'T' && s[2] == 'O' && s[3] == 'R' && s[4] == 'E' && s[5] == 'S' && s[6] == 'P' {
        Some(OpCode::STORESP)
    } else if s.len() == 3 && s[0] == 'S' && s[1] == 'U' && s[2] == 'B' {
        Some(OpCode::SUB)
    } else if s.len() == 3 && s[0] == 'X' && s[1] == 'O' && s[2] == 'R' {
        Some(OpCode::XOR)
    } else {
        None
    }
}

/// Every mnemonic reads back as its own operation.
pub proof fn lemma_mnemonic_reads_back(op: OpCode)
    ensures
        opcode_named(op.mnemonic()) == Some(op),
{
    match op {
        OpCode::ADD => {
            reveal_strlit("ADD");
        },
        OpCode::AND => {
            reveal_strlit("AND");
        },
        OpCode::ASHR => {
            reveal_strlit("ASHR");
        },
        OpCode::BREAK => {
            reveal_strlit("BREAK");
        },
        OpCode::CALL => {
            reveal_strlit("CALL");
        },
        OpCode::CMPeq => {
            reveal_strlit("CMPeq");
        },
        OpCode::CMPlte => {
            reveal_strlit("CMPlte");
        },
        OpCode::CMPgte => {
            reveal_strlit("CMPgte");
        },
        OpCode::CMPulte => {
            reveal_strlit("CMPulte");
        },
        OpCode::CMPugte => {
            reveal_strlit("CMPugte");
        },
        OpCode::CMPIeq => {
            reveal_strlit("CMPIeq");
        },
        OpCode::CMPIlte => {
            reveal_strlit("CMPIlte");
        },
        OpCode::CMPIgte => {
            reveal_strlit("CMPIgte");
        },
        OpCode::CMPIulte => {
            reveal_strlit("CMPIulte");
        },
        OpCode::CMPIugte => {
            reveal_strlit("CMPIugte");
        },
        OpCode::DIV => {
            reveal_strlit("DIV");
        },
        OpCode::DIVU => {
            reveal_strlit("DIVU");
        },
        OpCode::EXTNDB => {
            reveal_strlit("EXTNDB");
        },
        OpCode::EXTNDD => {
            reveal_strlit("EXTNDD");
        },
        OpCode::EXTNDW => {
            reveal_strlit("EXTNDW");
        },
        OpCode::JMP => {
            reveal_strlit("JMP");
        },
        OpCode::JMP8 => {
            reveal_strlit("JMP8");
        },
        OpCode::LOADSP => {
            reveal_strlit("LOADSP");
        },
        OpCode::MOD => {
            reveal_strlit("MOD");
        },
        OpCode::MODU => {
            reveal_strlit("MODU");
        },
        OpCode::MOVbw => {
            reveal_strlit("MOVbw");
        },
        OpCode::MOVww => {
            reveal_strlit("MOVww");
        },
        OpCode::MOVdw => {
            reveal_strlit("MOVdw");
        },
        OpCode::MOVqw => {
            reveal_strlit("MOVqw");
        },
        OpCode::MOVbd => {
            reveal_strlit("MOVbd");
        },
        OpCode::MOVwd => {
            reveal_strlit("MOVwd");
        },
        OpCode::MOVdd => {
            reveal_strlit("MOVdd");
        },
        OpCode::MOVqd => {
            reveal_strlit("MOVqd");
        },
        OpCode::MOVqq => {
            reveal_strlit("MOVqq");
        },
        OpCode::MOVI => {
            reveal_strlit("MOVI");
        },
        OpCode::MOVIn => {
            reveal_strlit("MOVIn");
        },
        OpCode::MOVnw => {
            reveal_strlit("MOVnw");
        },
        OpCode::MOVnd => {
            reveal_strlit("MOVnd");
        },
        OpCode::MOVREL => {
            reveal_strlit("MOVREL");
        },
        OpCode::MOVsnw => {
            reveal_strlit("MOVsnw");
        },
        OpCode::MOVsnd => {
            reveal_strlit("MOVsnd");
        },
        OpCode::MUL => {
            reveal_strlit("MUL");
        },
        OpCode::MULU => {
            reveal_strlit("MULU");
        },
        OpCode::NEG => {
            reveal_strlit("NEG");
        },
        OpCode::NOT => {
            reveal_strlit("NOT");
        },
        OpCode::OR => {
            reveal_strlit("OR");
        },
        OpCode::POP => {
            reveal_strlit("POP");
        },
        OpCode::POPn => {
            reveal_strlit("POPn");
        },
        OpCode::PUSH => {
            reveal_strlit("PUSH");
        },
        OpCode::PUSHn => {
            reveal_strlit("PUSHn");
        },
        OpCode::RET => {
            reveal_strlit("RET");
        },
        OpCode::SHL => {
            reveal_strlit("SHL");
        },
        OpCode::SHR => {
            reveal_strlit("SHR");
        },
        OpCode::STORESP => {
            reveal_strlit("STORESP");
        },
        OpCode::SUB => {
            reveal_strlit("SUB");
        },
        OpCode::XOR => {
            reveal_strlit("XOR");
        },
    }
}

/// No two operations share a mnemonic.
pub proof fn lemma_mnemonics_distinct(a: OpCode, b: OpCode)
    ensures
        a.mnemonic() == b.mnemonic() ==> a == b,
{
    lemma_mnemonic_reads_back(a);
    lemma_mnemonic_reads_back(b);
}

impl TryFrom<u8> for OpCode {
    type Error = ();

    fn try_from(v: u8) -> (r: Result<OpCode, ()>) {
        match v {
            0x00 => Ok(OpCode::BREAK),
            0x01 => Ok(OpCode::JMP),
            0x02 => Ok(OpCode::JMP8),
            0x03 => Ok(OpCode::CALL),
            0x04 => Ok(OpCode::RET),
            0x05 => Ok(OpCode::CMPeq),
            0x06 => Ok(OpCode::CMPlte),
            0x07 => Ok(OpCode::CMPgte),
            0x08 => Ok(OpCode::CMPulte),
            0x09 => Ok(OpCode::CMPugte),
            0x0A => Ok(OpCode::NOT),
            0x0B => Ok(OpCode::NEG),
            0x0C => Ok(OpCode::ADD),
            0x0D => Ok(OpCode::SUB),
            0x0E => Ok(OpCode::MUL),
            0x0F => Ok(OpCode::MULU),
            0x10 => Ok(OpCode::DIV),
            0x11 => Ok(OpCode::DIVU),
            0x12 => Ok(OpCode::MOD),
            0x13 => Ok(OpCode::MODU),
            0x14 => Ok(OpCode::AND),
            0x15 => Ok(OpCode::OR),
            0x16 => Ok(OpCode::XOR),
            0x17 => Ok(OpCode::SHL),
            0x18 => Ok(OpCode::SHR),
            0x19 => Ok(OpCode::ASHR),
            0x1A => Ok(OpCode::EXTNDB),
            0x1B => Ok(OpCode::EXTNDW),
            0x1C => Ok(OpCode::EXTNDD),
            0x1D => Ok(OpCode::MOVbw),
            0x1E => Ok(OpCode::MOVww),
            0x1F => Ok(OpCode::MOVdw),
            0x20 => Ok(OpCode::MOVqw),
            0x21 => Ok(OpCode::MOVbd),
            0x22 => Ok(OpCode::MOVwd),
            0x23 => Ok(OpCode::MOVdd),
            0x24 => Ok(OpCode::MOVqd),
            0x25 => Ok(OpCode::MOVsnw),
            0x26 => Ok(OpCode::MOVsnd),
            0x28 => Ok(OpCode::MOVqq),
            0x29 => Ok(OpCode::LOADSP),
            0x2A => Ok(OpCode::STORESP),
            0x2B => Ok(OpCode::PUSH),
            0x2C => Ok(OpCode::POP),
            0x2D => Ok(OpCode::CMPIeq),
            0x2E => Ok(OpCode::CMPIlte),
            0x2F => Ok(OpCode::CMPIgte),
            0x30 => Ok(OpCode::CMPIulte),
            0x31 => Ok(OpCode::CMPIugte),
            0x32 => Ok(OpCode::MOVnw),
            0x33 => Ok(OpCode::MOVnd),
            0x35 => Ok(OpCode::PUSHn),
            0x36 => Ok(OpCode::POPn),
            0x37 => Ok(OpCode::MOVI),
            0x38 => Ok(OpCode::MOVIn),
            0x39 => Ok(OpCode::MOVREL),
            _ => Err(()),
        }
    }
}

impl vstd::std_specs::convert::TryFromSpecImpl<u8> for OpCode {
    open spec fn obeys_try_from_spec() -> bool {
        true
    }

    open spec fn try_from_spec(v: u8) -> Result<OpCode, ()> {
        opcode_of(v)
    }
}

} // verus!
