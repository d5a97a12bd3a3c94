//! Opcode decoding.
use vstd::prelude::*;

verus! {

/// One decoded opcode of the machine.
#[derive(Debug, Clone, Copy, PartialEq, Eq, Structural)]
pub enum Instruction {
    Halt,
    Illegal,
    LoadI,
    LoadR,
    Add,
    Print,
    Nop,
    Jump,
    Jeq,
    Jneq,
    Comp,
    Color,
    Inc,
    Dec,
    Call,
    Ret,
    Input,
    And,
    Xor,
    Or,
    Sub,
    Div,
    Mul,
    Jz,
    Jnz,
    PrintB,
    AndI,
    ColorI,
    Draw,
    Push,
    Pop,
    JumpDt,
}

/// The opcode table: bytes 0 through 30 name an instruction, every other byte
/// is illegal.
pub open spec fn opcode_table(b: u8) -> Instruction {
    if b == 0 { Instruction::Halt }
    else if b == 1 { Instruction::LoadI }
    else if b == 2 { Instruction::Add }
    else if b == 3 { Instruction::Print }
    else if b == 4 { Instruction::Nop }
    else if b == 5 { Instruction::Jump }
    else if b == 6 { Instruction::LoadR }
    else if b == 7 { Instruction::Jeq }
    else if b == 8 { Instruction::Comp }
    else if b == 9 { Instruction::Jneq }
    else if b == 10 { Instruction::Color }
    else if b == 11 { Instruction::Inc }
    else if b == 12 { Instruction::Dec }
    else if b == 13 { Instruction::Call }
    else if b == 14 { Instruction::Ret }
    else if b == 15 { Instruction::Input }
    else if b == 16 { Instruction::And }
    else if b == 17 { Instruction::Xor }
    else if b == 18 { Instruction::Or }
    else if b == 19 { Instruction::Sub }
    else if b == 20 { Instruction::Div }
    else if b == 21 { Instruction::Mul }
    else if b == 22 { Instruction::Jz }
    else if b == 23 { Instruction::Jnz }
    else if b == 24 { Instruction::PrintB }
    else if b == 25 { Instruction::AndI }
    else if b == 26 { Instruction::ColorI }
    else if b == 27 { Instruction::Draw }
    else if b == 28 { Instruction::Push }
    else if b == 29 { Instruction::Pop }
    else if b == 30 { Instruction::JumpDt }
    else { Instruction::Illegal }
}

/// Number of operand bytes that follow each opcode in a program.
pub open spec fn operand_count_spec(i: Instruction) -> nat {
    match i {
        Instruction::Halt | Instruction::Illegal | Instruction::Nop
            | Instruction::Ret | Instruction::Draw => 0,
        Instruction::Print | Instruction::PrintB | Instruction::Jump
            | Instruction::Jeq | Instruction::Jneq | Instruction::Jz
            | Instruction::Jnz | Instruction::JumpDt | Instruction::Call
            | Instruction::Inc | Instruction::Dec | Instruction::Input
            | Instruction::Push | Instruction::Pop => 1,
        Instruction::LoadI | Instruction::LoadR | Instruction::Comp => 2,
        Instruction::Add | Instruction::Sub | Instruction::Mul | Instruction::Div
            | Instruction::And | Instruction::Or | Instruction::Xor
            | Instruction::AndI | Instruction::Color | Instruction::ColorI => 3,
    }
}

impl Instruction {
    /// Decodes one opcode byte; total, never fails.
    pub fn decode(b: u8) -> (r: Instruction)
        ensures
            r == opcode_table(b),
            b <= 30 <==> r != Instruction::Illegal,
    {
        match b {
            0 => Instruction::Halt,
            1 => Instruction::LoadI,
            2 => Instruction::Add,
            3 => Instruction::Print,
            4 => Instruction::Nop,
            5 => Instruction::Jump,
            6 => Instruction::LoadR,
            7 => Instruction::Jeq,
            8 => Instruction::Comp,
            9 => Instruction::Jneq,
            10 => Instruction::Color,
            11 => Instruction::Inc,
            12 => Instruction::Dec,
            13 => Instruction::Call,
            14 => Instruction::Ret,
            15 => Instruction::Input,
            16 => Instruction::And,
            17 => Instruction::Xor,
            18 => Instruction::Or,
            19 => Instruction::Sub,
            20 => Instruction::Div,
            21 => Instruction::Mul,
            22 => Instruction::Jz,
            23 => Instruction::Jnz,
            24 => Instruction::PrintB,
            25 => Instruction::AndI,
            26 => Instruction::ColorI,
            27 => Instruction::Draw,
            28 => Instruction::Push,
            29 => Instruction::Pop,
            30 => Instruction::JumpDt,
            _ => Instruction::Illegal,
        }
    }

    /// Number of operand bytes that follow this opcode.
    pub fn operand_count(self) -> (r: usize)
        ensures
            r == operand_count_spec(self),
            r <= 3,
    {
        match self {
            Instruction::Halt | Instruction::Illegal | Instruction::Nop
                | Instruction::Ret | Instruction::Draw => 0,
            Instruction::Print | Instruction::PrintB | Instruction::Jump
                | Instruction::Jeq | Instruction::Jneq | Instruction::Jz
                | Instruction::Jnz | Instruction::JumpDt | Instruction::Call
                | Instruction::Inc | Instruction::Dec | Instruction::Input
                | Instruction::Push | Instruction::Pop => 1,
            Instruction::LoadI | Instruction::LoadR | Instruction::Comp => 2,
            Instruction::Add | Instruction::Sub | Instruction::Mul | Instruction::Div
                | Instruction::And | Instruction::Or | Instruction::Xor
                | Instruction::AndI | Instruction::Color | Instruction::ColorI => 3,
        }
    }
}

impl From<u8> for Instruction {
    fn from(b: u8) -> (r: Instruction) {
        Instruction::decode(b)
    }
}

impl vstd::std_specs::convert::FromSpecImpl<u8> for Instruction {
    open spec fn obeys_from_spec() -> bool {
        true
    }

    open spec fn from_spec(b: u8) -> Instruction {
        opcode_table(b)
    }
}

/// Every byte past the end of the opcode table decodes as illegal, and every
/// byte inside it decodes as a real instruction.
pub proof fn lemma_decode_total(b: u8)
    ensures
        b >= 31 ==> opcode_table(b) == Instruction::Illegal,
        b <= 30 ==> opcode_table(b) != Instruction::Illegal,
{
}

} // verus!
