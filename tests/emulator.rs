use gbemu::command::{parse_debug_operation, DebugCommand, Reg16, Reg8, Register};
use gbemu::emulator::{ContinueStep, DebugOutput, Emulator, ExecutionMode};
use gbemu::gb::{ProcessingCore, GB};

/// A core whose every instruction is one byte long.
struct CountingCore {
    pc: u16,
    a: u8,
    steps: u32,
}

impl ProcessingCore for CountingCore {
    fn pc(&self) -> u16 {
        self.pc
    }

    fn step(&mut self) -> String {
        let text = format!("NOP @{:04X}", self.pc);
        self.pc = self.pc.wrapping_add(1);
        self.steps += 1;
        text
    }

    fn run(&mut self) {
        while self.pc < 0x0200 {
            self.step();
        }
    }

    fn next_instructions(&self, n: u16) -> Vec<(u16, String)> {
        (0..n).map(|i| (self.pc.wrapping_add(i), String::from("NOP"))).collect()
    }

    fn read_8bit_register(&self, r: Reg8) -> u8 {
        match r {
            Reg8::A => self.a,
            _ => 0,
        }
    }

    fn read_16bit_register(&self, r: Reg16) -> u16 {
        match r {
            Reg16::PC => self.pc,
            _ => 0,
        }
    }

    fn registers_text(&self) -> String {
        format!("PC={:04X}", self.pc)
    }
}

fn core_at(pc: u16) -> CountingCore {
    CountingCore { pc, a: 0x42, steps: 0 }
}

#[test]
fn gb_steps_and_runs() {
    let mut gb = GB::new(core_at(0x0100));
    assert_eq!(gb.step(), "NOP @0100");
    assert_eq!(gb.cpu.pc, 0x0101);
    gb.run();
    assert_eq!(gb.cpu.pc, 0x0200);
}

#[test]
fn emulator_mode_is_fixed_at_start() {
    let e = Emulator::new(core_at(0), true);
    assert_eq!(e.mode, ExecutionMode::Debugging);
    let e = Emulator::new(core_at(0), false);
    assert_eq!(e.mode, ExecutionMode::Running);
}

#[test]
fn breakpoint_toggle_twice_scenario() {
    let mut e = Emulator::new(core_at(0x0100), true);
    assert!(!e.is_breakpoint(0x0150));
    let cmd = parse_debug_operation("b 0150").unwrap();
    let out = e.execute_debug_command(cmd);
    assert!(matches!(out, DebugOutput::BreakpointSet(0x0150)));
    assert!(e.is_breakpoint(0x0150));
    let cmd = parse_debug_operation("b 0150").unwrap();
    let out = e.execute_debug_command(cmd);
    assert!(matches!(out, DebugOutput::BreakpointRemoved(0x0150)));
    assert!(!e.is_breakpoint(0x0150));
    assert!(e.breakpoints.is_empty());
}

#[test]
fn step_reports_address_before_execution() {
    let mut e = Emulator::new(core_at(0x0100), true);
    match e.execute_debug_command(DebugCommand::Step) {
        DebugOutput::Executed(addr, text) => {
            assert_eq!(addr, 0x0100);
            assert_eq!(text, "NOP @0100");
        }
        other => panic!("unexpected output {:?}", other),
    }
    assert_eq!(e.gb.cpu.pc, 0x0101);
}

#[test]
fn continue_stops_before_breakpoint() {
    let mut e = Emulator::new(core_at(0x0100), true);
    e.toggle_breakpoint(0x0104);
    assert!(matches!(e.execute_debug_command(DebugCommand::Continue), DebugOutput::Continuing));
    let mut trace = Vec::new();
    while let ContinueStep::Executed(addr, _) = e.continue_step() {
        trace.push(addr);
    }
    assert_eq!(trace, vec![0x0100, 0x0101, 0x0102, 0x0103]);
    assert_eq!(e.gb.cpu.pc, 0x0104);
    assert!(matches!(e.continue_step(), ContinueStep::Halted(0x0104)));
    assert_eq!(e.gb.cpu.steps, 4);
}

#[test]
fn print_commands_read_core() {
    let mut e = Emulator::new(core_at(0x0123), true);
    let out = e.execute_debug_command(DebugCommand::PrintRegister(Register::Register8(Reg8::A)));
    assert!(matches!(out, DebugOutput::Register8(Reg8::A, 0x42)));
    let out = e.execute_debug_command(DebugCommand::PrintRegister(Register::Register16(Reg16::PC)));
    assert!(matches!(out, DebugOutput::Register16(Reg16::PC, 0x0123)));
    match e.execute_debug_command(DebugCommand::PrintCpuRegs) {
        DebugOutput::CpuRegs(text) => assert_eq!(text, "PC=0123"),
        other => panic!("unexpected output {:?}", other),
    }
}

#[test]
fn disassemble_does_not_advance() {
    let mut e = Emulator::new(core_at(0x0100), true);
    match e.execute_debug_command(DebugCommand::Disassemble(3)) {
        DebugOutput::Instructions(list) => {
            let addrs: Vec<u16> = list.iter().map(|x| x.0).collect();
            assert_eq!(addrs, vec![0x0100, 0x0101, 0x0102]);
        }
        other => panic!("unexpected output {:?}", other),
    }
    assert_eq!(e.gb.cpu.pc, 0x0100);
    assert_eq!(e.gb.cpu.steps, 0);
}

#[test]
fn empty_line_repeats_last_command() {
    let mut e = Emulator::new(core_at(0x0100), true);
    assert_eq!(e.resolve_command(DebugCommand::LastCommand), None);
    assert_eq!(e.resolve_command(DebugCommand::Step), Some(DebugCommand::Step));
    assert_eq!(e.resolve_command(DebugCommand::LastCommand), Some(DebugCommand::Step));
    assert_eq!(e.last_command, Some(DebugCommand::Step));
}

#[test]
fn quit_and_repeat_show_nothing() {
    let mut e = Emulator::new(core_at(0x0100), true);
    assert!(matches!(e.execute_debug_command(DebugCommand::Quit), DebugOutput::Nothing));
    assert!(matches!(e.execute_debug_command(DebugCommand::LastCommand), DebugOutput::Nothing));
    assert_eq!(e.gb.cpu.steps, 0);
}
