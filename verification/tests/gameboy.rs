use rust_gb::cpu::{CpuStepResult, Register};
use rust_gb::error::{AccessKind, EmulationError};
use rust_gb::gameboy::Gameboy;

#[test]
fn new_gameboy_starts_at_the_boot_image() {
    let mut image = vec![0x3E, 0x07];
    let gameboy = Gameboy::new(&mut image);
    assert_eq!(gameboy.cpu().state().pc, 0);
    assert_eq!(gameboy.interconnect().read_u8(0), Ok(0x3E));
    assert_eq!(gameboy.interconnect().read_u8(1), Ok(0x07));
    assert_eq!(gameboy.interconnect().read_u8(2), Ok(0x00));
}

#[test]
fn gameboy_step_executes_one_instruction() {
    let mut image = vec![0x3E, 0x07, 0xAF];
    let mut gameboy = Gameboy::new(&mut image);
    assert_eq!(gameboy.step(), Ok(CpuStepResult { pc: 2, opcode: 0x3E }));
    assert_eq!(gameboy.cpu().read_reg_u8(Register::A), Ok(0x07));
    assert_eq!(gameboy.step(), Ok(CpuStepResult { pc: 3, opcode: 0xAF }));
    assert_eq!(gameboy.cpu().read_reg_u8(Register::A), Ok(0x00));
}

#[test]
fn gameboy_step_reports_an_unknown_opcode() {
    let mut image = vec![0xFF];
    let mut gameboy = Gameboy::new(&mut image);
    assert_eq!(gameboy.step(), Err(EmulationError::UnknownOpcode { opcode: 0xFF, address: 0 }));
    assert_eq!(gameboy.cpu().state().pc, 0);
}

#[test]
fn gameboy_run_stops_after_the_given_steps() {
    // JR NZ, -2 branches to itself for ever.
    let mut image = vec![0x3E, 0x07, 0x20, 0xFE];
    let mut gameboy = Gameboy::new(&mut image);
    assert_eq!(gameboy.run(0), Ok(()));
    assert_eq!(gameboy.cpu().state().pc, 0);
    assert_eq!(gameboy.run(1), Ok(()));
    assert_eq!(gameboy.cpu().state().pc, 2);
    assert_eq!(gameboy.run(1000), Ok(()));
    assert_eq!(gameboy.cpu().state().pc, 2);
    assert_eq!(gameboy.cpu().read_reg_u8(Register::A), Ok(0x07));
}

#[test]
fn gameboy_run_stops_at_the_first_error() {
    let mut image = vec![0x3E, 0x07, 0x0E, 0x09, 0xD3];
    let mut gameboy = Gameboy::new(&mut image);
    assert_eq!(gameboy.run(10), Err(EmulationError::UnknownOpcode { opcode: 0xD3, address: 4 }));
    assert_eq!(gameboy.cpu().state().pc, 4);
    assert_eq!(gameboy.cpu().read_reg_u8(Register::A), Ok(0x07));
    assert_eq!(gameboy.cpu().read_reg_u8(Register::C), Ok(0x09));
}

#[test]
fn gameboy_run_clears_video_ram() {
    // LD SP, 0xFFFE; XOR A; LD HL, 0x9FFF; LD (HL-), A; BIT 7, H; JR NZ, -5;
    // then an opcode that is not known.
    let mut image = vec![0x31, 0xFE, 0xFF, 0xAF, 0x21, 0xFF, 0x9F, 0x32, 0xCB, 0x7C, 0x20, 0xFB, 0xFF];
    let mut gameboy = Gameboy::new(&mut image);
    // Three instructions to set up, then three for each of the 8192 bytes.
    assert_eq!(gameboy.run(3 + 3 * 8192), Ok(()));
    assert_eq!(gameboy.cpu().state().pc, 12);
    assert_eq!(gameboy.cpu().read_reg_u16(Register::HL), Ok(0x7FFF));
    assert_eq!(gameboy.run(1), Err(EmulationError::UnknownOpcode { opcode: 0xFF, address: 12 }));
}

#[test]
fn gameboy_run_stops_when_code_runs_out_of_memory() {
    // A branch far back, out of general RAM.
    let mut image = vec![0xAF, 0x0E, 0x01, 0x20, 0x10, 0x32];
    let mut gameboy = Gameboy::new(&mut image);
    // XOR A sets zero, so the branch falls through to the store at HL = 0.
    assert_eq!(
        gameboy.run(100),
        Err(EmulationError::UnimplementedMemoryRegion { address: 0, access_kind: AccessKind::Write })
    );
    assert_eq!(gameboy.cpu().state().pc, 5);
}
