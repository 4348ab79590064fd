//! The operation IR the decoder emits: one variant per instruction family of
//! the Sharp SM83 (the CPU of the Game Boy and Game Boy Color), with
//! abstract operands for the executor to interpret.
//!
//! A register operand is an index 0 through 7, where 6 denotes the indirect
//! `(HL)` memory operand and, depending on the encoding, 0 or 7 denotes
//! register A.

use vstd::prelude::*;

verus! {

/// A decoded CPU instruction for the Sharp SM83.
#[derive(Debug, Clone, Copy, PartialEq, Eq, Structural)]
pub enum Operation {
    NOP,
    /// Load an 8-bit register (register, value)
    Load8(u8, u8),
    /// Load a 16-bit register (register pair, value)
    Load16(u8, u16),
    /// Store an 8-bit value in memory (address, value)
    Store8(u16, u8),
    /// Store a 16-bit value in memory (address, value)
    Store16(u16, u16),
    /// Value to add to A, and whether the carry flag joins the sum
    Add8(u8, bool),
    /// Value to add to HL
    Add16(u16),
    /// Value to subtract from A, and whether the carry flag joins
    Sub8(u8, bool),
    /// Value for a bitwise and with A
    And8(u8),
    /// Value for a bitwise or with A
    Or8(u8),
    /// Value for a bitwise xor with A
    Xor8(u8),
    /// Value to compare with A (a subtraction whose result is dropped)
    Compare8(u8),
    /// Register to increment
    Increment8(u8),
    /// Register pair to increment
    Increment16(u8),
    /// Register to decrement
    Decrement8(u8),
    /// Register pair to decrement
    Decrement16(u8),
    /// Rotate register left 1 bit; the flag tells whether the carry bit
    /// rotates through
    RotateLeft(u8, bool),
    /// Rotate register right 1 bit; the flag tells whether the carry bit
    /// rotates through
    RotateRight(u8, bool),
    /// Shift register left 1 bit
    ShiftLeftArithmetic(u8),
    /// Shift register right 1 bit, keeping the most significant bit
    ShiftRightArithmetic(u8),
    /// Shift register right 1 bit, with 0 as the new most significant bit
    ShiftRightLogical(u8),
    /// Swap the upper and lower 4 bits of the register
    SwapBits(u8),
    /// Decimal-adjust register A
    DAA,
    /// A = !A
    Complement,
    /// Set the carry flag
    SetCarryFlag,
    /// Complement the carry flag
    ComplementCarryFlag,
    /// Address to jump to
    Jump(u16),
    /// Address to jump to, storing the next address on the stack
    Call(u16),
    /// Return to the previous address on the stack; the flag tells whether
    /// interrupts are enabled on the way
    Return(bool),
    /// Set the carry flag to the value of a bit (register, bit)
    TestBit(u8, u8),
    /// Clear a bit in a register (register, bit)
    ResetBit(u8, u8),
    /// Set a bit in a register (register, bit)
    SetBit(u8, u8),
    /// Pop the last 2 stack bytes into the register pair
    PopStack(u8),
    /// Push the register pair onto the stack
    PushStack(u8),
    /// Add the signed offset to the stack pointer
    AddStackPointer(i8),
    /// Set the stack pointer to the value
    SetStackPointer(u16),
    EnableInterrupts,
    DisableInterrupts,
    Stop,
    Halt,
}

/// A decoded operation together with its cost in machine cycles.
#[derive(Debug, Clone, Copy, PartialEq, Eq, Structural)]
pub struct Instruction {
    pub cycles: u8,
    pub op: Operation,
}

} // verus!
