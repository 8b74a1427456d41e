//! What holds of the register file, the bus and the instructions, whatever
//! state they start from.

use crate::cpu::{CpuState, MachineState, Register};
use crate::error::{AccessKind, EmulationError};
use crate::interconnect::{BusState, Region};
use crate::word::{high_byte, low_byte, signed, word, wrap16};
use vstd::prelude::*;

verus! {

/// Whether `register` can be read and written as a word.
pub open spec fn is_wide(register: Register) -> bool {
    register == Register::BC || register == Register::DE || register == Register::HL || register
        == Register::SP
}

/// A word written to a pair or to the stack pointer is the word read back,
/// and the two registers of a pair hold its upper and lower half.
pub proof fn lemma_wide_write_then_read(state: CpuState, register: Register, value: u16)
    requires
        is_wide(register),
    ensures
        state.write_reg_u16(register, value) matches Ok(next) && {
            &&& next.read_reg_u16(register) == Ok::<u16, EmulationError>(value)
            &&& register == Register::BC ==> next.b == high_byte(value) && next.c == low_byte(value)
            &&& register == Register::DE ==> next.d == high_byte(value) && next.e == low_byte(value)
            &&& register == Register::HL ==> next.h == high_byte(value) && next.l == low_byte(value)
            &&& register == Register::SP ==> next.sp == value
        },
{
}

/// A pair has no storage of its own: a byte written to one of its registers
/// shows in the pair at once, and the other half stays.
pub proof fn lemma_pair_follows_its_halves(state: CpuState, value: u8)
    ensures
        state.write_reg_u8(Register::C, value) matches Ok(next) && next.read_reg_u16(Register::BC)
            == Ok::<u16, EmulationError>(word(state.b, value)),
        state.write_reg_u8(Register::C, value) matches Ok(next) && next.read_reg_u8(Register::C)
            == Ok::<u8, EmulationError>(value),
{
}

/// A register that has no 16-bit form refuses a 16-bit access, and one that
/// cannot be written as a byte refuses that write.
pub proof fn lemma_unsupported_widths_are_refused(state: CpuState, register: Register, value: u16)
    ensures
        !is_wide(register) ==> state.read_reg_u16(register) is Err && state.write_reg_u16(
            register,
            value,
        ) is Err,
        is_wide(register) ==> state.read_reg_u8(register) is Err,
        register != Register::A && register != Register::C ==> state.write_reg_u8(
            register,
            low_byte(value),
        ) is Err,
{
}

/// A byte that the bus accepted is the byte read back from the same
/// address, wherever that address can be read.
pub proof fn lemma_read_after_write(bus: BusState, address: u16, value: u8)
    requires
        bus.wf(),
        bus.write_u8(address, value) is Ok,
        BusState::readable(address),
    ensures
        bus.write_u8(address, value) matches Ok(written) && written.0.read_u8(address) == Ok::<
            u8,
            EmulationError,
        >(value),
{
}

/// A write changes no byte but the one at its address.
pub proof fn lemma_write_leaves_other_addresses(bus: BusState, address: u16, value: u8, other: u16)
    requires
        bus.wf(),
        other != address,
    ensures
        bus.write_u8(address, value) matches Ok(written) ==> written.0.read_u8(other)
            == bus.read_u8(other),
        bus.write_u8(address, value) matches Ok(written) ==> written.0.wf(),
{
}

/// Two bytes written at `address` and at the address after it are read
/// back as one word, the first byte its lower half, wherever the bus took
/// both writes and both addresses can be read.
pub proof fn lemma_read_u16_after_two_writes(bus: BusState, address: u16, low: u8, high: u8)
    requires
        bus.wf(),
        bus.write_u8(address, low) matches Ok(first) && first.0.write_u8(wrap16(address, 1), high)
            is Ok,
        BusState::readable(address),
        BusState::readable(wrap16(address, 1)),
    ensures
        bus.write_u8(address, low) matches Ok(first) && first.0.write_u8(
            wrap16(address, 1),
            high,
        ) matches Ok(second) && second.0.read_u16(address) == Ok::<u16, EmulationError>(
            word(high, low),
        ),
{
}

/// A 16-bit read is made of the two bytes that 8-bit reads return.
pub proof fn lemma_read_u16_is_two_reads(bus: BusState, address: u16)
    requires
        BusState::readable(address),
        BusState::readable(wrap16(address, 1)),
    ensures
        bus.read_u16(address) matches Ok(value) && bus.read_u8(address) == Ok::<u8, EmulationError>(
            low_byte(value),
        ) && bus.read_u8(wrap16(address, 1)) == Ok::<u8, EmulationError>(high_byte(value)),
{
}

/// An access outside the backed ranges is refused with its address and
/// kind: a read outside general RAM and video RAM, a write outside video RAM
/// and the hardware I/O registers.
pub proof fn lemma_unbacked_access_is_refused(bus: BusState, address: u16, value: u8)
    ensures
        !BusState::readable(address) ==> bus.read_u8(address) == Err::<u8, EmulationError>(
            EmulationError::UnimplementedMemoryRegion { address, access_kind: AccessKind::Read },
        ),
        !BusState::writable(address) ==> (bus.write_u8(address, value) matches Err(error) && error
            == (EmulationError::UnimplementedMemoryRegion {
            address,
            access_kind: AccessKind::Write,
        })),
        Region::HardwareIoRegisters.contains(address) ==> (bus.write_u8(
            address,
            value,
        ) matches Ok(written) && written.0 == bus),
{
}

/// The relative branch, taken: with the opcode at `P`, the offset `O` after
/// it and the zero flag clear, the step leaves the program counter at
/// `P + 2 + O`, modulo 65536, and changes nothing else.
pub proof fn lemma_relative_branch_taken(machine: MachineState, offset: u8)
    requires
        machine.fetch() == Ok::<u8, EmulationError>(0x20),
        machine.bus.read_u8(wrap16(machine.cpu.pc, 1)) == Ok::<u8, EmulationError>(offset),
        !machine.cpu.flags.zero_flag,
    ensures
        machine.step() matches Ok(next) && {
            &&& next == machine.advance(2 + signed(offset))
            &&& next.cpu.pc as int == (machine.cpu.pc + 2 + signed(offset)) % 0x1_0000
            &&& 0 <= machine.cpu.pc + 2 + signed(offset) < 0x1_0000 ==> next.cpu.pc
                == machine.cpu.pc + 2 + signed(offset)
        },
{
}

/// The relative branch, not taken: with the zero flag set the step leaves
/// the program counter after the two bytes of the instruction.
pub proof fn lemma_relative_branch_not_taken(machine: MachineState)
    requires
        machine.fetch() == Ok::<u8, EmulationError>(0x20),
        BusState::readable(wrap16(machine.cpu.pc, 1)),
        machine.cpu.flags.zero_flag,
    ensures
        machine.step() matches Ok(next) && next == machine.advance(2),
{
}

/// A exclusive-or A leaves A zero and the zero flag set, whatever A held,
/// clears the other flags and moves on by one byte.
pub proof fn lemma_xor_a_clears_a(machine: MachineState)
    requires
        machine.fetch() == Ok::<u8, EmulationError>(0xAF),
    ensures
        machine.step() matches Ok(next) && {
            &&& next.cpu.a == 0
            &&& next.cpu.flags.zero_flag
            &&& !next.cpu.flags.subtract_flag
            &&& !next.cpu.flags.half_carry_flag
            &&& !next.cpu.flags.carry_flag
            &&& next.cpu.pc == wrap16(machine.cpu.pc, 1)
            &&& next.bus == machine.bus
        },
{
}

/// The test of bit 7 of H sets the zero flag exactly when H is below 0x80,
/// sets the half-carry flag, clears the subtract flag, keeps the carry flag
/// and every register, and moves on by two bytes.
pub proof fn lemma_bit_test_flags(machine: MachineState)
    requires
        machine.fetch() == Ok::<u8, EmulationError>(0xCB),
        machine.bus.read_u8(wrap16(machine.cpu.pc, 1)) == Ok::<u8, EmulationError>(0x7C),
    ensures
        machine.step() matches Ok(next) && {
            &&& next.cpu.flags.zero_flag == (machine.cpu.h < 0x80)
            &&& next.cpu.flags.half_carry_flag
            &&& !next.cpu.flags.subtract_flag
            &&& next.cpu.flags.carry_flag == machine.cpu.flags.carry_flag
            &&& next.cpu.pc == wrap16(machine.cpu.pc, 2)
            &&& (CpuState { flags: machine.cpu.flags, pc: machine.cpu.pc, ..next.cpu })
                == machine.cpu
            &&& next.bus == machine.bus
        },
{
}

/// Store and decrement, where the bus takes the write and the address can
/// be read: afterwards the bus holds A at the address that HL named, HL is
/// one less, modulo 65536, and the flags and A are as before.
pub proof fn lemma_store_and_decrement(machine: MachineState)
    requires
        machine.bus.wf(),
        machine.fetch() == Ok::<u8, EmulationError>(0x32),
        BusState::writable(word(machine.cpu.h, machine.cpu.l)),
        BusState::readable(word(machine.cpu.h, machine.cpu.l)),
    ensures
        machine.step() matches Ok(next) && {
            &&& next.bus.read_u8(word(machine.cpu.h, machine.cpu.l)) == Ok::<u8, EmulationError>(
                machine.cpu.a,
            )
            &&& next.cpu.read_reg_u16(Register::HL) == Ok::<u16, EmulationError>(
                wrap16(word(machine.cpu.h, machine.cpu.l), -1),
            )
            &&& next.cpu.flags == machine.cpu.flags
            &&& next.cpu.a == machine.cpu.a
            &&& next.cpu.pc == wrap16(machine.cpu.pc, 1)
        },
{
}

/// Store and decrement at an address that the bus does not take: the step
/// is refused with that address, and HL is not decremented.
pub proof fn lemma_store_and_decrement_refused(machine: MachineState)
    requires
        machine.fetch() == Ok::<u8, EmulationError>(0x32),
        !BusState::writable(word(machine.cpu.h, machine.cpu.l)),
    ensures
        machine.step() == Err::<MachineState, EmulationError>(
            EmulationError::UnimplementedMemoryRegion {
                address: word(machine.cpu.h, machine.cpu.l),
                access_kind: AccessKind::Write,
            },
        ),
{
}

/// Whether `opcode` selects an instruction.
pub open spec fn is_known_opcode(opcode: u8) -> bool {
    opcode == 0x0E || opcode == 0x20 || opcode == 0x21 || opcode == 0x31 || opcode == 0x32
        || opcode == 0x3E || opcode == 0xAF || opcode == 0xCB || opcode == 0xE2
}

/// A byte that selects no instruction is reported, with the address it was
/// fetched from; and no other fetched byte is.
pub proof fn lemma_unknown_opcode_is_reported(machine: MachineState, opcode: u8)
    requires
        machine.fetch() == Ok::<u8, EmulationError>(opcode),
    ensures
        !is_known_opcode(opcode) ==> machine.step() == Err::<MachineState, EmulationError>(
            EmulationError::UnknownOpcode { opcode, address: machine.cpu.pc },
        ),
        is_known_opcode(opcode) ==> !(machine.step() matches Err(error) && error
            is UnknownOpcode),
{
}

/// After the extension prefix, a byte other than 0x7C is reported with the
/// address after the prefix, where it was fetched.
pub proof fn lemma_unknown_extended_opcode_is_reported(machine: MachineState, extension_op: u8)
    requires
        machine.fetch() == Ok::<u8, EmulationError>(0xCB),
        machine.bus.read_u8(wrap16(machine.cpu.pc, 1)) == Ok::<u8, EmulationError>(extension_op),
        extension_op != 0x7C,
    ensures
        machine.step() == Err::<MachineState, EmulationError>(
            EmulationError::UnknownExtendedOpcode {
                opcode: extension_op,
                address: wrap16(machine.cpu.pc, 1),
            },
        ),
{
}

/// A step that fetches from an address that cannot be read is refused with
/// that address.
pub proof fn lemma_fetch_outside_memory_is_refused(machine: MachineState)
    requires
        !BusState::readable(machine.cpu.pc),
    ensures
        machine.step() == Err::<MachineState, EmulationError>(
            EmulationError::UnimplementedMemoryRegion {
                address: machine.cpu.pc,
                access_kind: AccessKind::Read,
            },
        ),
{
}

/// A step keeps both arrays of the bus at their fixed length.
pub proof fn lemma_step_keeps_bus_wf(machine: MachineState)
    requires
        machine.bus.wf(),
    ensures
        machine.step() matches Ok(next) ==> next.bus.wf(),
{
}

} // verus!
