use vstd::prelude::*;

verus! {

/// Operation an opcode byte names.
#[derive(Clone, Copy, Debug, PartialEq, Eq, Structural)]
pub enum Opcode {
    NOP,
    LD,
    INC,
    DEC,
    RLCA,
    ADD,
}

/// How an operation's operands are fetched.
#[derive(Clone, Copy, Debug, PartialEq, Eq, Structural)]
pub enum AddressingMode {
    /// The operands are implied by the opcode itself.
    Implied,
    /// One immediate byte follows the opcode.
    ImmediateByte,
    /// One immediate word (two bytes, least-significant first) follows.
    ImmediateWord,
    /// An operand lives at the address held in a register pair.
    RegisterIndirect,
}

/// A decoded instruction: an operation and how its operands are fetched.
#[derive(Clone, Copy, Debug, PartialEq, Eq, Structural)]
pub struct Instruction {
    pub opcode: Opcode,
    pub addressing_mode: AddressingMode,
}

/// The base decode table: the operation and addressing mode defined for each
/// opcode byte, or nothing where the table defines no operation. A byte
/// without an operation must fail fast at execution, never act as a no-op.
pub open spec fn decode_spec(byte: u8) -> Option<Instruction> {
    match byte {
        0x00 => Some(Instruction { opcode: Opcode::NOP, addressing_mode: AddressingMode::Implied }),
        0x01 => Some(
            Instruction { opcode: Opcode::LD, addressing_mode: AddressingMode::ImmediateWord },
        ),
        0x02 => Some(
            Instruction { opcode: Opcode::LD, addressing_mode: AddressingMode::RegisterIndirect },
        ),
        0x03 => Some(Instruction { opcode: Opcode::INC, addressing_mode: AddressingMode::Implied }),
        0x04 => Some(Instruction { opcode: Opcode::INC, addressing_mode: AddressingMode::Implied }),
        0x05 => Some(Instruction { opcode: Opcode::DEC, addressing_mode: AddressingMode::Implied }),
        0x06 => Some(
            Instruction { opcode: Opcode::LD, addressing_mode: AddressingMode::ImmediateByte },
        ),
        0x07 => Some(
            Instruction { opcode: Opcode::RLCA, addressing_mode: AddressingMode::Implied },
        ),
        0x08 => Some(
            Instruction { opcode: Opcode::LD, addressing_mode: AddressingMode::ImmediateWord },
        ),
        0x09 => Some(Instruction { opcode: Opcode::ADD, addressing_mode: AddressingMode::Implied }),
        _ => None,
    }
}

impl Instruction {
    /// Pairs an operation with its addressing mode.
    pub fn new(opcode: Opcode, addressing_mode: AddressingMode) -> (r: Instruction)
        ensures
            r == (Instruction { opcode, addressing_mode }),
    {
        Instruction { opcode, addressing_mode }
    }

    /// Looks an opcode byte up in the base decode table; nothing where the
    /// table defines no operation for it.
    pub fn decode(byte: u8) -> (r: Option<Instruction>)
        ensures
            r == decode_spec(byte),
    {
        match byte {
            0x00 => Some(Instruction::new(Opcode::NOP, AddressingMode::Implied)),
            0x01 => Some(Instruction::new(Opcode::LD, AddressingMode::ImmediateWord)),
            0x02 => Some(Instruction::new(Opcode::LD, AddressingMode::RegisterIndirect)),
            0x03 => Some(Instruction::new(Opcode::INC, AddressingMode::Implied)),
            0x04 => Some(Instruction::new(Opcode::INC, AddressingMode::Implied)),
            0x05 => Some(Instruction::new(Opcode::DEC, AddressingMode::Implied)),
            0x06 => Some(Instruction::new(Opcode::LD, AddressingMode::ImmediateByte)),
            0x07 => Some(Instruction::new(Opcode::RLCA, AddressingMode::Implied)),
            0x08 => Some(Instruction::new(Opcode::LD, AddressingMode::ImmediateWord)),
            0x09 => Some(Instruction::new(Opcode::ADD, AddressingMode::Implied)),
            _ => None,
        }
    }
}

} // verus!
