//! The conditions under which the engine or the bus refuses to go on.

use crate::cpu::Register;
use vstd::prelude::*;

verus! {

/// Whether a bus access was a read or a write.
#[derive(Debug, Clone, Copy, PartialEq, Eq)]
pub enum AccessKind {
    Read,
    Write,
}

/// The width at which a register is accessed.
#[derive(Debug, Clone, Copy, PartialEq, Eq)]
pub enum RegisterWidth {
    /// One byte.
    Bits8,
    /// Two bytes.
    Bits16,
}

/// Why an operation of the engine or the bus did not complete.
///
/// None of these is transient: each marks an instruction, a register access
/// or a memory region that the emulator does not cover. The caller decides
/// whether to halt, skip or report.
#[derive(Debug, Clone, Copy, PartialEq, Eq)]
pub enum EmulationError {
    /// The byte fetched at `address` selects no instruction.
    UnknownOpcode { opcode: u8, address: u16 },
    /// The byte fetched at `address`, after the extension prefix, selects no
    /// extended instruction.
    UnknownExtendedOpcode { opcode: u8, address: u16 },
    /// A register was read or written at a width it does not support.
    InvalidRegisterWidth { register: Register, requested_width: RegisterWidth },
    /// A bus access touched an address range that has no backing storage.
    UnimplementedMemoryRegion { address: u16, access_kind: AccessKind },
}

} // verus!
