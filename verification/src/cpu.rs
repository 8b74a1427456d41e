//! The instruction execution engine: register file, condition flags, and the
//! fetch/decode/execute step.

use crate::add_signed::AddSigned;
use crate::error::{EmulationError, RegisterWidth};
use crate::interconnect::{BusState, Interconnect};
use crate::word::{
    high_byte, lemma_cast_is_signed, lemma_halves_are_shift_and_mask, lemma_word_is_shift_or,
    low_byte, signed, word, wrap16,
};
use vstd::prelude::*;

verus! {

/// The four condition flags.
#[derive(Debug, Clone, Copy, PartialEq, Eq)]
pub struct FlagRegister {
    /// Set when a result is zero (Z).
    pub zero_flag: bool,
    /// Set when the last operation was a subtraction (N).
    pub subtract_flag: bool,
    /// Set on a carry out of the lower four bits (H).
    pub half_carry_flag: bool,
    /// Set on a carry out of the whole value (C).
    pub carry_flag: bool,
}

/// The registers an instruction can name as an operand.
///
/// `BC`, `DE` and `HL` are pairs of 8-bit registers read and written as one
/// 16-bit value; `SP` is the stack pointer.
#[derive(Debug, Clone, Copy, PartialEq, Eq)]
pub enum Register {
    A,
    B,
    C,
    D,
    E,
    BC,
    DE,
    HL,
    SP,
}

/// Where an operand lives: in a register, or on the bus at an address.
#[derive(Debug, Clone, Copy, PartialEq, Eq)]
pub enum Location {
    Reg(Register),
    Ram(u16),
}

/// What a step leaves for its caller to see.
#[derive(Debug, Clone, Copy, PartialEq, Eq)]
pub struct CpuStepResult {
    /// The program counter after the step.
    pub pc: u16,
    /// The opcode that was executed.
    pub opcode: u8,
}

/// The contents of the register file and the flags.
///
/// The pairs BC, DE and HL have no storage of their own: each is made of its
/// two 8-bit registers whenever it is read, and taken apart into them
/// whenever it is written.
#[derive(Debug, Clone, Copy, PartialEq, Eq)]
pub struct CpuState {
    pub a: u8,
    pub b: u8,
    pub c: u8,
    pub d: u8,
    pub e: u8,
    pub h: u8,
    pub l: u8,
    /// The stack pointer.
    pub sp: u16,
    /// The program counter.
    pub pc: u16,
    pub flags: FlagRegister,
}

impl CpuState {
    /// Every register zero and every flag clear.
    pub open spec fn initial() -> CpuState {
        CpuState {
            a: 0,
            b: 0,
            c: 0,
            d: 0,
            e: 0,
            h: 0,
            l: 0,
            sp: 0,
            pc: 0,
            flags: FlagRegister {
                zero_flag: false,
                subtract_flag: false,
                half_carry_flag: false,
                carry_flag: false,
            },
        }
    }

    /// The value of `register` read as one byte. Only A, B, C, D and E are
    /// read at that width.
    pub open spec fn read_reg_u8(self, register: Register) -> Result<u8, EmulationError> {
        match register {
            Register::A => Ok(self.a),
            Register::B => Ok(self.b),
            Register::C => Ok(self.c),
            Register::D => Ok(self.d),
            Register::E => Ok(self.e),
            _ => Err(
                EmulationError::InvalidRegisterWidth {
                    register,
                    requested_width: RegisterWidth::Bits8,
                },
            ),
        }
    }

    /// The value of `register` read as a word. Only the pairs and the stack
    /// pointer are read at that width.
    pub open spec fn read_reg_u16(self, register: Register) -> Result<u16, EmulationError> {
        match register {
            Register::BC => Ok(word(self.b, self.c)),
            Register::DE => Ok(word(self.d, self.e)),
            Register::HL => Ok(word(self.h, self.l)),
            Register::SP => Ok(self.sp),
            _ => Err(
                EmulationError::InvalidRegisterWidth {
                    register,
                    requested_width: RegisterWidth::Bits16,
                },
            ),
        }
    }

    /// The registers after `value` is written to `register` as one byte.
    /// Only A and C are written at that width.
    pub open spec fn write_reg_u8(self, register: Register, value: u8) -> Result<
        CpuState,
        EmulationError,
    > {
        match register {
            Register::A => Ok(CpuState { a: value, ..self }),
            Register::C => Ok(CpuState { c: value, ..self }),
            _ => Err(
                EmulationError::InvalidRegisterWidth {
                    register,
                    requested_width: RegisterWidth::Bits8,
                },
            ),
        }
    }

    /// The registers after `value` is written to `register` as a word: a
    /// pair takes the upper half into its first register and the lower half
    /// into its second.
    pub open spec fn write_reg_u16(self, register: Register, value: u16) -> Result<
        CpuState,
        EmulationError,
    > {
        match register {
            Register::BC => Ok(CpuState { b: high_byte(value), c: low_byte(value), ..self }),
            Register::DE => Ok(CpuState { d: high_byte(value), e: low_byte(value), ..self }),
            Register::HL => Ok(CpuState { h: high_byte(value), l: low_byte(value), ..self }),
            Register::SP => Ok(CpuState { sp: value, ..self }),
            _ => Err(
                EmulationError::InvalidRegisterWidth {
                    register,
                    requested_width: RegisterWidth::Bits16,
                },
            ),
        }
    }

    /// The byte at `location`: a register's value, or what the bus returns
    /// for the address.
    pub open spec fn read_u8(self, bus: BusState, location: Location) -> Result<
        u8,
        EmulationError,
    > {
        match location {
            Location::Reg(register) => self.read_reg_u8(register),
            Location::Ram(address) => bus.read_u8(address),
        }
    }
}

/// The engine's registers together with the bus it runs against: all that
/// an instruction can read or change.
pub struct MachineState {
    pub cpu: CpuState,
    pub bus: BusState,
}

impl MachineState {
    /// The machine made of an engine in state `cpu` and a bus in state `bus`.
    pub open spec fn of(cpu: CpuState, bus: BusState) -> MachineState {
        MachineState { cpu, bus }
    }

    /// The machine with its program counter moved on by `by`.
    pub open spec fn advance(self, by: int) -> MachineState {
        MachineState { cpu: CpuState { pc: wrap16(self.cpu.pc, by), ..self.cpu }, bus: self.bus }
    }

    /// An 8-bit load: the byte at `value_location` goes to `location`, and
    /// the program counter moves past the opcode and `pc_offset` operand
    /// bytes.
    pub open spec fn load_u8(
        self,
        location: Location,
        value_location: Location,
        pc_offset: u16,
    ) -> Result<MachineState, EmulationError> {
        match self.cpu.read_u8(self.bus, value_location) {
            Err(error) => Err(error),
            Ok(value) => match location {
                Location::Reg(register) => match self.cpu.write_reg_u8(register, value) {
                    Err(error) => Err(error),
                    Ok(cpu) => Ok(MachineState { cpu, bus: self.bus }.advance(1 + pc_offset)),
                },
                Location::Ram(address) => match self.bus.write_u8(address, value) {
                    Err(error) => Err(error),
                    Ok(written) => Ok(
                        MachineState { cpu: self.cpu, bus: written.0 }.advance(1 + pc_offset),
                    ),
                },
            },
        }
    }

    /// A 16-bit immediate load: the little-endian word in the two bytes after
    /// the opcode goes to `register`, and the program counter moves on by 3.
    pub open spec fn load_u16_immediate(self, register: Register) -> Result<
        MachineState,
        EmulationError,
    > {
        match self.bus.read_u16(wrap16(self.cpu.pc, 1)) {
            Err(error) => Err(error),
            Ok(immediate) => match self.cpu.write_reg_u16(register, immediate) {
                Err(error) => Err(error),
                Ok(cpu) => Ok(MachineState { cpu, bus: self.bus }.advance(3)),
            },
        }
    }

    /// The relative branch taken while the zero flag is clear: the byte
    /// after the opcode is a signed offset from the address after the
    /// two-byte instruction. With the zero flag set the branch falls
    /// through to that address.
    pub open spec fn jump_relative_if_not_zero(self) -> Result<MachineState, EmulationError> {
        match self.bus.read_u8(wrap16(self.cpu.pc, 1)) {
            Err(error) => Err(error),
            Ok(offset) => if self.cpu.flags.zero_flag {
                Ok(self.advance(2))
            } else {
                Ok(self.advance(2 + signed(offset)))
            },
        }
    }

    /// Store and decrement: A goes to the bus at the address in HL, then HL
    /// goes down by one, modulo 65536. The flags are left alone.
    pub open spec fn store_and_decrement(self) -> Result<MachineState, EmulationError> {
        let address = word(self.cpu.h, self.cpu.l);
        match self.bus.write_u8(address, self.cpu.a) {
            Err(error) => Err(error),
            Ok(written) => Ok(
                MachineState {
                    cpu: CpuState {
                        h: high_byte(wrap16(address, -1)),
                        l: low_byte(wrap16(address, -1)),
                        ..self.cpu
                    },
                    bus: written.0,
                }.advance(1),
            ),
        }
    }

    /// A exclusive-or A: A becomes zero, the zero flag is set and the other
    /// three flags are cleared.
    pub open spec fn xor_a(self) -> MachineState {
        MachineState {
            cpu: CpuState {
                a: 0,
                flags: FlagRegister {
                    zero_flag: true,
                    subtract_flag: false,
                    half_carry_flag: false,
                    carry_flag: false,
                },
                ..self.cpu
            },
            bus: self.bus,
        }.advance(1)
    }

    /// Test of bit 7 of H: the zero flag tells whether the bit is 0, the
    /// half-carry flag is set, the subtract flag is cleared and the carry
    /// flag is left alone.
    pub open spec fn test_bit_7_of_h(self) -> MachineState {
        MachineState {
            cpu: CpuState {
                flags: FlagRegister {
                    zero_flag: self.cpu.h < 0x80,
                    subtract_flag: false,
                    half_carry_flag: true,
                    carry_flag: self.cpu.flags.carry_flag,
                },
                ..self.cpu
            },
            bus: self.bus,
        }.advance(2)
    }

    /// An instruction of the extended table: the byte after the prefix
    /// selects it. A byte that selects none is reported with the address it
    /// was fetched from.
    pub open spec fn extension_op(self) -> Result<MachineState, EmulationError> {
        let address = wrap16(self.cpu.pc, 1);
        match self.bus.read_u8(address) {
            Err(error) => Err(error),
            Ok(extension_op) => if extension_op == 0x7C {
                Ok(self.test_bit_7_of_h())
            } else {
                Err(EmulationError::UnknownExtendedOpcode { opcode: extension_op, address })
            },
        }
    }

    /// The instruction that `opcode` selects, executed with the program
    /// counter at the opcode byte. An opcode that selects none is reported
    /// with that address.
    pub open spec fn execute(self, opcode: u8) -> Result<MachineState, EmulationError> {
        let operand = Location::Ram(wrap16(self.cpu.pc, 1));
        if opcode == 0x0E {
            self.load_u8(Location::Reg(Register::C), operand, 1)
        } else if opcode == 0x20 {
            self.jump_relative_if_not_zero()
        } else if opcode == 0x21 {
            self.load_u16_immediate(Register::HL)
        } else if opcode == 0x31 {
            self.load_u16_immediate(Register::SP)
        } else if opcode == 0x32 {
            self.store_and_decrement()
        } else if opcode == 0x3E {
            self.load_u8(Location::Reg(Register::A), operand, 1)
        } else if opcode == 0xAF {
            Ok(self.xor_a())
        } else if opcode == 0xCB {
            self.extension_op()
        } else if opcode == 0xE2 {
            self.load_u8(
                Location::Ram((0xFF00 + self.cpu.c) as u16),
                Location::Reg(Register::A),
                0,
            )
        } else {
            Err(EmulationError::UnknownOpcode { opcode, address: self.cpu.pc })
        }
    }

    /// The opcode that a step fetches: the byte at the program counter.
    pub open spec fn fetch(self) -> Result<u8, EmulationError> {
        self.bus.read_u8(self.cpu.pc)
    }

    /// One step: fetch the opcode at the program counter and execute the
    /// instruction it selects.
    pub open spec fn step(self) -> Result<MachineState, EmulationError> {
        match self.fetch() {
            Err(error) => Err(error),
            Ok(opcode) => self.execute(opcode),
        }
    }
}

/// The engine: the register file, the flags, and the execution of
/// instructions against a bus.
#[derive(Debug)]
pub struct Cpu {
    reg_a: u8,
    reg_b: u8,
    reg_c: u8,
    reg_d: u8,
    reg_e: u8,
    reg_h: u8,
    reg_l: u8,
    sp: u16,
    pc: u16,
    flag_reg: FlagRegister,
}

impl View for Cpu {
    type V = CpuState;

    closed spec fn view(&self) -> CpuState {
        CpuState {
            a: self.reg_a,
            b: self.reg_b,
            c: self.reg_c,
            d: self.reg_d,
            e: self.reg_e,
            h: self.reg_h,
            l: self.reg_l,
            sp: self.sp,
            pc: self.pc,
            flags: self.flag_reg,
        }
    }
}

impl Cpu {
    /// An engine with every register zero and every flag clear.
    pub fn new() -> (cpu: Cpu)
        ensures
            cpu@ == CpuState::initial(),
    {
        Cpu {
            reg_a: 0,
            reg_b: 0,
            reg_c: 0,
            reg_d: 0,
            reg_e: 0,
            reg_h: 0,
            reg_l: 0,
            sp: 0,
            pc: 0,
            flag_reg: FlagRegister {
                zero_flag: false,
                subtract_flag: false,
                half_carry_flag: false,
                carry_flag: false,
            },
        }
    }

    /// A copy of the registers and flags as they are now.
    pub fn state(&self) -> (state: CpuState)
        ensures
            state == self@,
    {
        CpuState {
            a: self.reg_a,
            b: self.reg_b,
            c: self.reg_c,
            d: self.reg_d,
            e: self.reg_e,
            h: self.reg_h,
            l: self.reg_l,
            sp: self.sp,
            pc: self.pc,
            flags: self.flag_reg,
        }
    }

    /// Executes the instruction at the program counter and reports the
    /// program counter it leaves and the opcode it executed.
    ///
    /// A step that cannot complete changes nothing: the engine and the bus
    /// are then as they were, and the error says why.
    pub fn step(&mut self, interconnect: &mut Interconnect) -> (result: Result<
        CpuStepResult,
        EmulationError,
    >)
        ensures
            match result {
                Ok(outcome) => {
                    &&& MachineState::of(old(self)@, old(interconnect)@).step() matches Ok(next)
                    &&& next == MachineState::of(final(self)@, final(interconnect)@)
                    &&& outcome.pc == next.cpu.pc
                    &&& MachineState::of(old(self)@, old(interconnect)@).fetch() matches Ok(opcode)
                    &&& outcome.opcode == opcode
                },
                Err(error) => {
                    &&& MachineState::of(old(self)@, old(interconnect)@).step() matches Err(refusal)
                    &&& refusal == error
                    &&& final(self)@ == old(self)@
                    &&& final(interconnect)@ == old(interconnect)@
                },
            },
    {
        let pc = self.pc;
        let opcode = interconnect.read_u8(pc)?;
        match opcode {
            0x0E => self.load_u8(
                interconnect,
                Location::Reg(Register::C),
                Location::Ram(pc.wrapping_add(1)),
                1,
            )?,
            0x20 => {
                let operand = interconnect.read_u8(pc.wrapping_add(1))?;
                proof {
                    lemma_cast_is_signed(operand);
                }
                let offset = operand as i8;
                if !self.flag_reg.zero_flag {
                    // The offset counts from the address after this instruction.
                    let new_address = pc.wrapping_add(1).add_signed(offset).wrapping_add(1);
                    self.pc = new_address;
                } else {
                    self.pc = pc.wrapping_add(2);
                }
            },
            0x21 => self.load_u16_immediate(interconnect, Register::HL)?,
            0x31 => self.load_u16_immediate(interconnect, Register::SP)?,
            0x32 => {
                let address = self.read_reg_u16(Register::HL)?;
                interconnect.write_u8(address, self.reg_a)?;
                let new_hl = address.wrapping_sub(1);
                self.write_reg_u16(Register::HL, new_hl)?;
                self.pc = pc.wrapping_add(1);
            },
            0x3E => self.load_u8(
                interconnect,
                Location::Reg(Register::A),
                Location::Ram(pc.wrapping_add(1)),
                1,
            )?,
            0xAF => {
                assert(self.reg_a ^ self.reg_a == 0) by (bit_vector);
                self.reg_a = self.reg_a ^ self.reg_a;
                self.flag_reg.zero_flag = self.reg_a == 0;
                self.flag_reg.subtract_flag = false;
                self.flag_reg.half_carry_flag = false;
                self.flag_reg.carry_flag = false;
                self.pc = pc.wrapping_add(1);
            },
            0xCB => self.read_extension_op(interconnect)?,
            0xE2 => {
                let offset_location = 0xFF00 + self.reg_c as u16;
                self.load_u8(
                    interconnect,
                    Location::Ram(offset_location),
                    Location::Reg(Register::A),
                    0,
                )?
            },
            _ => {
                return Err(EmulationError::UnknownOpcode { opcode, address: pc });
            },
        }
        Ok(CpuStepResult { pc: self.pc, opcode })
    }

    /// Executes the extended instruction whose opcode follows the prefix at
    /// the program counter.
    fn read_extension_op(&mut self, interconnect: &Interconnect) -> (result: Result<
        (),
        EmulationError,
    >)
        ensures
            match result {
                Ok(_) => {
                    &&& MachineState::of(old(self)@, interconnect@).extension_op() matches Ok(next)
                    &&& next == MachineState::of(final(self)@, interconnect@)
                },
                Err(error) => {
                    &&& MachineState::of(old(self)@, interconnect@).extension_op() matches Err(refusal)
                    &&& refusal == error
                    &&& final(self)@ == old(self)@
                },
            },
    {
        let address = self.pc.wrapping_add(1);
        let extension_op = interconnect.read_u8(address)?;
        match extension_op {
            0x7C => {
                let h = self.reg_h;
                assert(((h >> 7) == 0) == (h < 0x80)) by (bit_vector);
                self.flag_reg.zero_flag = (self.reg_h >> 7) == 0;
                self.flag_reg.half_carry_flag = true;
                self.flag_reg.subtract_flag = false;
                self.pc = address.wrapping_add(1);
                Ok(())
            },
            _ => Err(EmulationError::UnknownExtendedOpcode { opcode: extension_op, address }),
        }
    }

    /// Loads the word that follows the opcode at the program counter into
    /// `register`.
    fn load_u16_immediate(&mut self, interconnect: &Interconnect, register: Register) -> (result:
        Result<(), EmulationError>)
        ensures
            match result {
                Ok(_) => {
                    &&& MachineState::of(old(self)@, interconnect@).load_u16_immediate(
                        register,
                    ) matches Ok(next)
                    &&& next == MachineState::of(final(self)@, interconnect@)
                },
                Err(error) => {
                    &&& MachineState::of(old(self)@, interconnect@).load_u16_immediate(
                        register,
                    ) matches Err(refusal)
                    &&& refusal == error
                    &&& final(self)@ == old(self)@
                },
            },
    {
        let immediate = interconnect.read_u16(self.pc.wrapping_add(1))?;
        self.write_reg_u16(register, immediate)?;
        self.pc = self.pc.wrapping_add(3);
        Ok(())
    }

    /// Copies the byte at `value_location` to `location` and moves the
    /// program counter past the opcode and `pc_offset` operand bytes.
    fn load_u8(
        &mut self,
        interconnect: &mut Interconnect,
        location: Location,
        value_location: Location,
        pc_offset: u16,
    ) -> (result: Result<(), EmulationError>)
        ensures
            match result {
                Ok(_) => {
                    &&& MachineState::of(old(self)@, old(interconnect)@).load_u8(
                        location,
                        value_location,
                        pc_offset,
                    ) matches Ok(next)
                    &&& next == MachineState::of(final(self)@, final(interconnect)@)
                },
                Err(error) => {
                    &&& MachineState::of(old(self)@, old(interconnect)@).load_u8(
                        location,
                        value_location,
                        pc_offset,
                    ) matches Err(refusal)
                    &&& refusal == error
                    &&& final(self)@ == old(self)@
                    &&& final(interconnect)@ == old(interconnect)@
                },
            },
    {
        let value = self.read_u8(interconnect, value_location)?;
        match location {
            Location::Reg(reg) => self.write_reg_u8(reg, value)?,
            Location::Ram(address) => {
                interconnect.write_u8(address, value)?;
            },
        }
        self.pc = self.pc.wrapping_add(1).wrapping_add(pc_offset);
        Ok(())
    }

    /// Reads a pair or the stack pointer.
    pub fn read_reg_u16(&self, register: Register) -> (result: Result<u16, EmulationError>)
        ensures
            result == self@.read_reg_u16(register),
    {
        proof {
            lemma_word_is_shift_or(self.reg_b, self.reg_c);
            lemma_word_is_shift_or(self.reg_d, self.reg_e);
            lemma_word_is_shift_or(self.reg_h, self.reg_l);
        }
        match register {
            Register::BC => Ok((self.reg_b as u16) << 8 | (self.reg_c as u16)),
            Register::DE => Ok((self.reg_d as u16) << 8 | (self.reg_e as u16)),
            Register::HL => Ok((self.reg_h as u16) << 8 | (self.reg_l as u16)),
            Register::SP => Ok(self.sp),
            _ => Err(
                EmulationError::InvalidRegisterWidth {
                    register,
                    requested_width: RegisterWidth::Bits16,
                },
            ),
        }
    }

    /// Reads the byte at `location`, from a register or through the bus.
    pub fn read_u8(&self, interconnect: &Interconnect, location: Location) -> (result: Result<
        u8,
        EmulationError,
    >)
        ensures
            result == self@.read_u8(interconnect@, location),
    {
        match location {
            Location::Reg(reg) => self.read_reg_u8(reg),
            Location::Ram(address) => interconnect.read_u8(address),
        }
    }

    /// Reads one of the registers A, B, C, D, E.
    pub fn read_reg_u8(&self, register: Register) -> (result: Result<u8, EmulationError>)
        ensures
            result == self@.read_reg_u8(register),
    {
        match register {
            Register::A => Ok(self.reg_a),
            Register::B => Ok(self.reg_b),
            Register::C => Ok(self.reg_c),
            Register::D => Ok(self.reg_d),
            Register::E => Ok(self.reg_e),
            _ => Err(
                EmulationError::InvalidRegisterWidth {
                    register,
                    requested_width: RegisterWidth::Bits8,
                },
            ),
        }
    }

    /// Writes a pair or the stack pointer. A register that has no 16-bit
    /// form refuses the write, and the engine is then as it was.
    pub fn write_reg_u16(&mut self, register: Register, value: u16) -> (result: Result<
        (),
        EmulationError,
    >)
        ensures
            match result {
                Ok(_) => {
                    &&& old(self)@.write_reg_u16(register, value) matches Ok(next)
                    &&& next == final(self)@
                },
                Err(error) => {
                    &&& old(self)@.write_reg_u16(register, value) matches Err(refusal)
                    &&& refusal == error
                    &&& final(self)@ == old(self)@
                },
            },
    {
        proof {
            lemma_halves_are_shift_and_mask(value);
        }
        let upper = (value >> 8) as u8;
        let lower = (value & 0x00FF) as u8;
        match register {
            Register::BC => {
                self.reg_b = upper;
                self.reg_c = lower;
                Ok(())
            },
            Register::DE => {
                self.reg_d = upper;
                self.reg_e = lower;
                Ok(())
            },
            Register::HL => {
                self.reg_h = upper;
                self.reg_l = lower;
                Ok(())
            },
            Register::SP => {
                self.sp = value;
                Ok(())
            },
            _ => Err(
                EmulationError::InvalidRegisterWidth {
                    register,
                    requested_width: RegisterWidth::Bits16,
                },
            ),
        }
    }

    /// Writes one of the registers A, C. Any other register refuses the
    /// write, and the engine is then as it was.
    pub fn write_reg_u8(&mut self, register: Register, value: u8) -> (result: Result<
        (),
        EmulationError,
    >)
        ensures
            match result {
                Ok(_) => {
                    &&& old(self)@.write_reg_u8(register, value) matches Ok(next)
                    &&& next == final(self)@
                },
                Err(error) => {
                    &&& old(self)@.write_reg_u8(register, value) matches Err(refusal)
                    &&& refusal == error
                    &&& final(self)@ == old(self)@
                },
            },
    {
        match register {
            Register::A => {
                self.reg_a = value;
                Ok(())
            },
            Register::C => {
                self.reg_c = value;
                Ok(())
            },
            _ => Err(
                EmulationError::InvalidRegisterWidth {
                    register,
                    requested_width: RegisterWidth::Bits8,
                },
            ),
        }
    }
}

} // verus!
