//! The whole machine: an engine and the bus it runs against.

use crate::cpu::{Cpu, CpuState, CpuStepResult, MachineState};
use crate::error::EmulationError;
use crate::interconnect::{BusState, Interconnect};
use vstd::prelude::*;

verus! {

/// The machine after up to `steps` steps from `machine`, and the error that
/// ended the run early, if one did. A step that fails is not counted and
/// leaves the machine as the step before it left it.
pub open spec fn run_spec(machine: MachineState, steps: nat) -> (MachineState, Option<EmulationError>)
    decreases steps,
{
    if steps == 0 {
        (machine, None)
    } else {
        match machine.step() {
            Err(error) => (machine, Some(error)),
            Ok(next) => run_spec(next, (steps - 1) as nat),
        }
    }
}

/// An engine wired to a bus.
pub struct Gameboy {
    interconnect: Interconnect,
    cpu: Cpu,
}

impl View for Gameboy {
    type V = MachineState;

    closed spec fn view(&self) -> MachineState {
        MachineState::of(self.cpu@, self.interconnect@)
    }
}

impl Gameboy {
    /// A machine that starts at address 0 of `bootrom`: the registers are
    /// zero, the flags clear, and the bus holds the boot image.
    pub fn new(bootrom: &mut [u8]) -> (gameboy: Gameboy)
        ensures
            gameboy@ == MachineState::of(CpuState::initial(), BusState::initial(old(bootrom)@)),
            final(bootrom)@ == old(bootrom)@,
    {
        Gameboy { interconnect: Interconnect::new(bootrom), cpu: Cpu::new() }
    }

    /// The engine of the machine.
    pub fn cpu(&self) -> (cpu: &Cpu)
        ensures
            cpu@ == self@.cpu,
    {
        &self.cpu
    }

    /// The bus of the machine.
    pub fn interconnect(&self) -> (interconnect: &Interconnect)
        ensures
            interconnect@ == self@.bus,
    {
        &self.interconnect
    }

    /// Executes up to `max_steps` instructions and stops at the first one
    /// that cannot complete, whose error it returns. The machine is then as
    /// the last completed step left it.
    pub fn run(&mut self, max_steps: u64) -> (result: Result<(), EmulationError>)
        ensures
            final(self)@ == run_spec(old(self)@, max_steps as nat).0,
            match result {
                Ok(_) => run_spec(old(self)@, max_steps as nat).1 is None,
                Err(error) => run_spec(old(self)@, max_steps as nat).1 == Some(error),
            },
    {
        let mut remaining = max_steps;
        while remaining > 0
            invariant
                run_spec(self@, remaining as nat) == run_spec(old(self)@, max_steps as nat),
            decreases remaining,
        {
            match self.step() {
                Ok(_) => {},
                Err(error) => {
                    return Err(error);
                },
            }
            remaining -= 1;
        }
        Ok(())
    }

    /// Executes one instruction.
    pub fn step(&mut self) -> (result: Result<CpuStepResult, EmulationError>)
        ensures
            match result {
                Ok(outcome) => {
                    &&& old(self)@.step() matches Ok(next)
                    &&& next == final(self)@
                    &&& outcome.pc == next.cpu.pc
                    &&& old(self)@.fetch() matches Ok(opcode)
                    &&& outcome.opcode == opcode
                },
                Err(error) => {
                    &&& old(self)@.step() matches Err(refusal)
                    &&& refusal == error
                    &&& final(self)@ == old(self)@
                },
            },
    {
        self.cpu.step(&mut self.interconnect)
    }
}

} // verus!
