//! Brainfuck instructions and their one-character symbols.

use vstd::prelude::*;
use vstd::string::StringSliceAdditionalSpecFns;

verus! {

/// An instruction of a program: its kind and its argument.
#[derive(Clone, Copy, Debug, PartialEq, Eq, Structural)]
pub struct Instruction {
    pub ins_type: InstructionType,
    pub argument: u8,
}

/// The eight Brainfuck instructions.
#[derive(Clone, Copy, Debug, PartialEq, Eq, Structural)]
pub enum InstructionType {
    /// '>': Increment the data pointer (to point to the next cell to the right).
    Right,
    /// '<': Decrement the data pointer (to point to the next cell to the left).
    Left,
    /// '+': Increment (increase by one) the byte at the data pointer.
    Plus,
    /// '-': Decrement (decrease by one) the byte at the data pointer.
    Minus,
    /// '.': Output the byte at the data pointer.
    PutChar,
    /// ',': Accept one byte of input, storing its value in the byte at the data pointer.
    ReadChar,
    /// '[': If the byte at the data pointer is zero, jump forward to the command after
    /// the matching ']'.
    JumpIfZero,
    /// ']': If the byte at the data pointer is nonzero, jump back to the command after
    /// the matching '['.
    JumpIfNotZero,
}

/// The ASCII symbol of an instruction.
pub open spec fn symbol_of(t: InstructionType) -> u8 {
    match t {
        InstructionType::Right => 62,
        InstructionType::Left => 60,
        InstructionType::Plus => 43,
        InstructionType::Minus => 45,
        InstructionType::PutChar => 46,
        InstructionType::ReadChar => 44,
        InstructionType::JumpIfZero => 91,
        InstructionType::JumpIfNotZero => 93,
    }
}

/// The instruction whose symbol is the byte `b`, if any.
pub open spec fn instruction_of(b: u8) -> Option<InstructionType> {
    if b == 62 {
        Some(InstructionType::Right)
    } else if b == 60 {
        Some(InstructionType::Left)
    } else if b == 43 {
        Some(InstructionType::Plus)
    } else if b == 45 {
        Some(InstructionType::Minus)
    } else if b == 46 {
        Some(InstructionType::PutChar)
    } else if b == 44 {
        Some(InstructionType::ReadChar)
    } else if b == 91 {
        Some(InstructionType::JumpIfZero)
    } else if b == 93 {
        Some(InstructionType::JumpIfNotZero)
    } else {
        None
    }
}

/// The instruction a string of bytes spells: exactly one symbol byte.
pub open spec fn parse_spec(bytes: Seq<u8>) -> Result<InstructionType, ()> {
    if bytes.len() == 1 && instruction_of(bytes[0]) is Some {
        Ok(instruction_of(bytes[0])->0)
    } else {
        Err(())
    }
}

impl InstructionType {
    /// The instruction spelled by `s`, which must be a single symbol.
    pub fn from_str(s: &str) -> (r: Result<Self, ()>)
        ensures
            r == parse_spec(s.spec_bytes()),
    {
        let bytes = s.as_bytes();
        if bytes.len() != 1 {
            return Err(());
        }
        match Self::from_byte(bytes[0]) {
            Some(t) => Ok(t),
            None => Err(()),
        }
    }

    /// The instruction whose symbol is `value`, if any.
    pub fn from_byte(value: u8) -> (r: Option<Self>)
        ensures
            r == instruction_of(value),
    {
        if value == 62 {
            Some(InstructionType::Right)
        } else if value == 60 {
            Some(InstructionType::Left)
        } else if value == 43 {
            Some(InstructionType::Plus)
        } else if value == 45 {
            Some(InstructionType::Minus)
        } else if value == 46 {
            Some(InstructionType::PutChar)
        } else if value == 44 {
            Some(InstructionType::ReadChar)
        } else if value == 91 {
            Some(InstructionType::JumpIfZero)
        } else if value == 93 {
            Some(InstructionType::JumpIfNotZero)
        } else {
            None
        }
    }

    /// The instruction whose symbol is `value`, which must be one of the
    /// eight symbols.
    pub fn from(value: u8) -> (r: Self)
        requires
            instruction_of(value) is Some,
        ensures
            Some(r) == instruction_of(value),
    {
        Self::from_byte(value).unwrap()
    }

    /// The instruction's symbol.
    pub fn symbol(&self) -> (r: u8)
        ensures
            r == symbol_of(*self),
    {
        match self {
            InstructionType::Right => 62,
            InstructionType::Left => 60,
            InstructionType::Plus => 43,
            InstructionType::Minus => 45,
            InstructionType::PutChar => 46,
            InstructionType::ReadChar => 44,
            InstructionType::JumpIfZero => 91,
            InstructionType::JumpIfNotZero => 93,
        }
    }

    /// The instruction's symbol, as a one-character string.
    pub fn to_string(&self) -> (r: String)
        ensures
            r@ == seq![symbol_of(*self) as char],
    {
        let r = match self {
            InstructionType::Right => ">".to_owned(),
            InstructionType::Left => "<".to_owned(),
            InstructionType::Plus => "+".to_owned(),
            InstructionType::Minus => "-".to_owned(),
            InstructionType::PutChar => ".".to_owned(),
            InstructionType::ReadChar => ",".to_owned(),
            InstructionType::JumpIfZero => "[".to_owned(),
            InstructionType::JumpIfNotZero => "]".to_owned(),
        };
        proof {
            reveal_strlit(">");
            reveal_strlit("<");
            reveal_strlit("+");
            reveal_strlit("-");
            reveal_strlit(".");
            reveal_strlit(",");
            reveal_strlit("[");
            reveal_strlit("]");
        }
        r
    }
}

impl std::str::FromStr for InstructionType {
    type Err = ();

    fn from_str(s: &str) -> Result<Self, ()> {
        InstructionType::from_str(s)
    }
}

/// Reading an instruction's symbol gives the instruction back.
pub proof fn lemma_symbol_round_trip(t: InstructionType)
    ensures
        instruction_of(symbol_of(t)) == Some(t),
        parse_spec(seq![symbol_of(t)]) == Ok::<InstructionType, ()>(t),
{
}

} // verus!
