//! A single-step debugger over a machine: the commands it understands and
//! what each of them does.

use crate::cpu::{CpuStepResult, MachineState};
use crate::error::EmulationError;
use crate::gameboy::Gameboy;
use vstd::prelude::*;
use vstd::string::StrSliceExecFns;

verus! {

/// What the debugger can be told to do.
#[derive(Debug, Clone, Copy, PartialEq, Eq)]
pub enum DebugCommand {
    /// Execute one instruction.
    Step,
    /// Run until the program counter reaches the location.
    WaitForLocation(u16),
}

/// Whether `c` is one of the digits 0 to 9.
pub open spec fn is_digit(c: char) -> bool {
    '0' <= c <= '9'
}

/// The number that the digit `c` stands for.
pub open spec fn digit_value(c: char) -> nat {
    if is_digit(c) {
        (c as int - '0' as int) as nat
    } else {
        0
    }
}

/// The number that `digits` spell in base ten.
pub open spec fn decimal_value(digits: Seq<char>) -> nat
    decreases digits.len(),
{
    if digits.len() == 0 {
        0
    } else {
        decimal_value(digits.drop_last()) * 10 + digit_value(digits.last())
    }
}

/// Whether every character of `text` is a digit.
pub open spec fn all_digits(text: Seq<char>) -> bool {
    forall|i: int| 0 <= i < text.len() ==> is_digit(#[trigger] text[i])
}

/// `text` without the `+` that may stand in front of the digits.
pub open spec fn unsigned_part(text: Seq<char>) -> Seq<char> {
    if text.len() > 0 && text[0] == '+' {
        text.subrange(1, text.len() as int)
    } else {
        text
    }
}

/// The location that `text` spells: one or more digits, after at most one
/// `+`, whose value fits in 16 bits. Any other text spells none.
pub open spec fn decimal_u16(text: Seq<char>) -> Option<u16> {
    let digits = unsigned_part(text);
    if digits.len() > 0 && all_digits(digits) && decimal_value(digits) <= u16::MAX {
        Some(decimal_value(digits) as u16)
    } else {
        None
    }
}

/// A number does not get smaller when digits are appended to it.
pub proof fn lemma_decimal_value_grows(digits: Seq<char>, count: int)
    requires
        0 <= count <= digits.len(),
    ensures
        decimal_value(digits.subrange(0, count)) <= decimal_value(digits),
    decreases digits.len() - count,
{
    if count == digits.len() {
        assert(digits.subrange(0, count) =~= digits);
    } else {
        lemma_decimal_value_grows(digits.drop_last(), count);
        assert(digits.drop_last().subrange(0, count) =~= digits.subrange(0, count));
    }
}

/// `text` without the whitespace at its two ends, as `str::trim` returns it.
pub uninterp spec fn without_surrounding_whitespace(text: Seq<char>) -> Seq<char>;

/// `str::trim`: the slice of `text` that is left when leading and trailing
/// whitespace is taken away. Which characters count as whitespace is the
/// standard library's matter; the contract gives the result a name and
/// claims no more than that equal texts are trimmed alike.
#[verifier::external_body]
fn trim(text: &str) -> (trimmed: &str)
    ensures
        trimmed@ == without_surrounding_whitespace(text@),
{
    text.trim()
}

/// The command that a line starting with `w` and continuing with `text`
/// stands for: a wait for the location that `text` spells, or a step if it
/// spells none.
pub open spec fn wait_command_spec(text: Seq<char>) -> DebugCommand {
    match decimal_u16(text) {
        Some(location) => DebugCommand::WaitForLocation(location),
        None => DebugCommand::Step,
    }
}

/// The command that the line `input` stands for. A line that starts with
/// `w` asks to wait for the location that follows, whitespace around it
/// aside; every other line, the empty one too, asks for a step.
pub open spec fn command_of(input: Seq<char>) -> DebugCommand {
    if input.len() > 0 && input[0] == 'w' {
        wait_command_spec(without_surrounding_whitespace(input.subrange(1, input.len() as int)))
    } else {
        DebugCommand::Step
    }
}

/// Reads `text` as a location in base ten.
pub fn parse_location(text: &str) -> (location: Option<u16>)
    ensures
        location == decimal_u16(text@),
{
    let len = text.unicode_len();
    let start: usize = if len > 0 && text.get_char(0) == '+' {
        1
    } else {
        0
    };
    if start == len {
        return None;
    }
    let ghost digits = unsigned_part(text@);
    assert(digits =~= text@.subrange(start as int, len as int));
    let mut value: u32 = 0;
    let mut i: usize = start;
    while i < len
        invariant
            start <= i <= len,
            len == text@.len(),
            digits == text@.subrange(start as int, len as int),
            digits == unsigned_part(text@),
            all_digits(digits.subrange(0, i - start)),
            value == decimal_value(digits.subrange(0, i - start)),
            value <= u16::MAX,
        decreases len - i,
    {
        let c = text.get_char(i);
        if c < '0' || c > '9' {
            assert(!is_digit(digits[i - start]));
            return None;
        }
        let digit: u32 = c as u32 - '0' as u32;
        let next: u32 = value * 10 + digit;
        proof {
            let longer = digits.subrange(0, i - start + 1);
            assert(longer.drop_last() =~= digits.subrange(0, i - start));
            assert(longer.last() == c);
            assert(next == decimal_value(longer));
            assert(all_digits(longer)) by {
                assert forall|j: int| 0 <= j < longer.len() implies is_digit(
                    #[trigger] longer[j],
                ) by {
                    if j < i - start {
                        assert(longer[j] == digits.subrange(0, i - start)[j]);
                    }
                }
            }
            lemma_decimal_value_grows(digits, i - start + 1);
        }
        if next > 0xFFFF {
            return None;
        }
        value = next;
        i += 1;
    }
    assert(digits.subrange(0, i - start) =~= digits);
    Some(value as u16)
}

/// The command for a line that starts with `w` and goes on with `text`.
pub fn wait_command(text: &str) -> (command: DebugCommand)
    ensures
        command == wait_command_spec(text@),
{
    match parse_location(text) {
        Some(location) => DebugCommand::WaitForLocation(location),
        None => DebugCommand::Step,
    }
}

/// A debugger attached to a machine for as long as it borrows it. When the
/// debugger lets go, the machine is as the debugger's last command left it.
pub struct Debugger<'a> {
    pub gameboy: &'a mut Gameboy,
}

impl<'a> Debugger<'a> {
    /// The machine as the debugger sees it now.
    pub open spec fn machine(&self) -> MachineState {
        (*self.gameboy)@
    }

    /// Attaches a debugger to `gameboy`.
    pub fn new(gameboy: &'a mut Gameboy) -> (debugger: Self)
        ensures
            debugger.machine() == old(gameboy)@,
            *final(gameboy) == *final(debugger.gameboy),
    {
        Debugger { gameboy }
    }

    /// Reads one line of input as a command.
    pub fn parse_input(&self, input: &str) -> (command: DebugCommand)
        ensures
            command == command_of(input@),
    {
        let len = input.unicode_len();
        if len > 0 && input.get_char(0) == 'w' {
            wait_command(trim(input.substring_char(1, len)))
        } else {
            DebugCommand::Step
        }
    }

    /// Carries out `command`. Waiting for a location is not supported yet:
    /// it executes one instruction, as a step does.
    pub fn execute(&mut self, command: DebugCommand) -> (result: Result<
        CpuStepResult,
        EmulationError,
    >)
        ensures
            match result {
                Ok(outcome) => {
                    &&& old(self).machine().step() matches Ok(next)
                    &&& next == final(self).machine()
                    &&& outcome.pc == next.cpu.pc
                    &&& old(self).machine().fetch() matches Ok(opcode)
                    &&& outcome.opcode == opcode
                },
                Err(error) => {
                    &&& old(self).machine().step() matches Err(refusal)
                    &&& refusal == error
                    &&& final(self).machine() == old(self).machine()
                },
            },
            *final(final(self).gameboy) == *final(old(self).gameboy),
    {
        match command {
            DebugCommand::Step => self.step(),
            DebugCommand::WaitForLocation(_) => self.step(),
        }
    }

    /// Executes one instruction of the machine.
    pub fn step(&mut self) -> (result: Result<CpuStepResult, EmulationError>)
        ensures
            match result {
                Ok(outcome) => {
                    &&& old(self).machine().step() matches Ok(next)
                    &&& next == final(self).machine()
                    &&& outcome.pc == next.cpu.pc
                    &&& old(self).machine().fetch() matches Ok(opcode)
                    &&& outcome.opcode == opcode
                },
                Err(error) => {
                    &&& old(self).machine().step() matches Err(refusal)
                    &&& refusal == error
                    &&& final(self).machine() == old(self).machine()
                },
            },
            *final(final(self).gameboy) == *final(old(self).gameboy),
    {
        self.gameboy.step()
    }
}

} // verus!
