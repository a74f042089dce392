use std::collections::HashSet;

use vstd::prelude::*;

use crate::command::{DebugCommand, Reg16, Reg8, Register};
use crate::gb::{GB, ProcessingCore};

verus! {

broadcast use vstd::std_specs::hash::group_hash_axioms;

/// How the emulator is driven, chosen once at start.
#[derive(Clone, Copy, Debug, PartialEq, Eq, Structural)]
pub enum ExecutionMode {
    Running,
    Debugging,
}

/// What the debugger has to show after a command.
#[derive(Debug)]
pub enum DebugOutput {
    /// An instruction was executed at this address.
    Executed(u16, String),
    BreakpointSet(u16),
    BreakpointRemoved(u16),
    Register8(Reg8, u8),
    Register16(Reg16, u16),
    CpuRegs(String),
    /// The next instructions, not executed.
    Instructions(Vec<(u16, String)>),
    /// Stepping until a breakpoint has begun: the caller goes on with `continue_step`.
    Continuing,
    /// Nothing to show.
    Nothing,
}

/// One move of stepping until a breakpoint.
#[derive(Debug)]
pub enum ContinueStep {
    /// The instruction at this address was executed.
    Executed(u16, String),
    /// The next instruction is at this address, a breakpoint: nothing was executed.
    Halted(u16),
}

/// A breakpoint set after a toggle at `addr`: added where absent, removed where present.
pub open spec fn toggled(s: Set<u16>, addr: u16) -> Set<u16> {
    if s.contains(addr) {
        s.remove(addr)
    } else {
        s.insert(addr)
    }
}

/// Whether an output is the one that a command calls for.
pub open spec fn output_fits(cmd: DebugCommand, out: DebugOutput) -> bool {
    match cmd {
        DebugCommand::Step => out is Executed,
        DebugCommand::Continue => out is Continuing,
        DebugCommand::PrintRegister(Register::Register8(r)) => match out {
            DebugOutput::Register8(q, _) => q == r,
            _ => false,
        },
        DebugCommand::PrintRegister(Register::Register16(r)) => match out {
            DebugOutput::Register16(q, _) => q == r,
            _ => false,
        },
        DebugCommand::PrintCpuRegs => out is CpuRegs,
        DebugCommand::Disassemble(n) => out is Instructions,
        DebugCommand::SetBreakpoint(a) => out is BreakpointSet || out is BreakpointRemoved,
        DebugCommand::Quit | DebugCommand::LastCommand => out is Nothing,
    }
}

/// The execution controller: the console together with the debugger's state.
pub struct Emulator<C> {
    pub gb: GB<C>,
    pub mode: ExecutionMode,
    pub breakpoints: HashSet<u16>,
    pub last_command: Option<DebugCommand>,
}

impl<C: ProcessingCore> Emulator<C> {
    /// The addresses at which stepping until a breakpoint halts.
    pub open spec fn breakpoint_set(&self) -> Set<u16> {
        self.breakpoints@
    }

    /// The command that an empty line repeats.
    pub open spec fn last(&self) -> Option<DebugCommand> {
        self.last_command
    }

    pub fn new(cpu: C, debug: bool) -> (r: Emulator<C>)
        ensures
            r.gb.cpu == cpu,
            r.mode == if debug {
                ExecutionMode::Debugging
            } else {
                ExecutionMode::Running
            },
            r.breakpoint_set() == Set::<u16>::empty(),
            r.last() is None,
    {
        Emulator {
            gb: GB::new(cpu),
            mode: if debug {
                ExecutionMode::Debugging
            } else {
                ExecutionMode::Running
            },
            breakpoints: HashSet::new(),
            last_command: None,
        }
    }

    /// Whether stepping until a breakpoint halts before the instruction at `addr`.
    pub fn is_breakpoint(&self, addr: u16) -> (r: bool)
        ensures
            r == self.breakpoint_set().contains(addr),
    {
        self.breakpoints.contains(&addr)
    }

    /// Adds a breakpoint where there is none, removes it where there is one, and
    /// tells which it did.
    pub fn toggle_breakpoint(&mut self, addr: u16) -> (added: bool)
        ensures
            added == !old(self).breakpoint_set().contains(addr),
            final(self).breakpoint_set() == toggled(old(self).breakpoint_set(), addr),
            final(self).last() == old(self).last(),
            final(self).gb == old(self).gb,
            final(self).mode == old(self).mode,
    {
        if self.breakpoints.contains(&addr) {
            self.breakpoints.remove(&addr);
            false
        } else {
            self.breakpoints.insert(addr);
            true
        }
    }

    /// The command to carry out for a parsed command: an empty line stands for the
    /// last command given, if any; any other command is carried out itself and
    /// becomes the last command.
    pub fn resolve_command(&mut self, cmd: DebugCommand) -> (r: Option<DebugCommand>)
        ensures
            cmd == DebugCommand::LastCommand ==> r == old(self).last() && final(self).last()
                == old(self).last(),
            cmd != DebugCommand::LastCommand ==> r == Some(cmd) && final(self).last() == Some(
                cmd,
            ),
            final(self).breakpoint_set() == old(self).breakpoint_set(),
            final(self).gb == old(self).gb,
            final(self).mode == old(self).mode,
    {
        match cmd {
            DebugCommand::LastCommand => self.last_command,
            _ => {
                self.last_command = Some(cmd);
                Some(cmd)
            },
        }
    }

    /// One move of stepping until a breakpoint: halts, with nothing changed, where
    /// the next instruction is at a breakpoint; else executes it and returns its
    /// address and text.
    pub fn continue_step(&mut self) -> (r: ContinueStep)
        ensures
            final(self).breakpoint_set() == old(self).breakpoint_set(),
            final(self).last() == old(self).last(),
            final(self).mode == old(self).mode,
            match r {
                ContinueStep::Halted(pc) => {
                    &&& old(self).breakpoint_set().contains(pc)
                    &&& final(self).gb == old(self).gb
                },
                ContinueStep::Executed(pc, _) => !old(self).breakpoint_set().contains(pc),
            },
    {
        let pc = self.gb.cpu.pc();
        if self.is_breakpoint(pc) {
            ContinueStep::Halted(pc)
        } else {
            let text = self.gb.step();
            ContinueStep::Executed(pc, text)
        }
    }

    /// Carries out one command and returns what there is to show. `Continue` only
    /// begins: the caller repeats `continue_step` until it halts.
    pub fn execute_debug_command(&mut self, command: DebugCommand) -> (r: DebugOutput)
        ensures
            output_fits(command, r),
            command matches DebugCommand::SetBreakpoint(a) ==> {
                &&& final(self).breakpoint_set() == toggled(old(self).breakpoint_set(), a)
                &&& r == if old(self).breakpoint_set().contains(a) {
                    DebugOutput::BreakpointRemoved(a)
                } else {
                    DebugOutput::BreakpointSet(a)
                }
            },
            !(command is SetBreakpoint) ==> final(self).breakpoint_set()
                == old(self).breakpoint_set(),
            !(command is Step) ==> final(self).gb == old(self).gb,
            final(self).last() == old(self).last(),
            final(self).mode == old(self).mode,
    {
        match command {
            DebugCommand::SetBreakpoint(addr) => {
                if self.toggle_breakpoint(addr) {
                    DebugOutput::BreakpointSet(addr)
                } else {
                    DebugOutput::BreakpointRemoved(addr)
                }
            },
            DebugCommand::Continue => DebugOutput::Continuing,
            DebugCommand::Step => {
                let pc_of_inst = self.gb.cpu.pc();
                let inst = self.gb.step();
                DebugOutput::Executed(pc_of_inst, inst)
            },
            DebugCommand::PrintRegister(r) => match r {
                Register::Register8(r8) => DebugOutput::Register8(
                    r8,
                    self.gb.cpu.read_8bit_register(r8),
                ),
                Register::Register16(r16) => DebugOutput::Register16(
                    r16,
                    self.gb.cpu.read_16bit_register(r16),
                ),
            },
            DebugCommand::PrintCpuRegs => DebugOutput::CpuRegs(self.gb.cpu.registers_text()),
            DebugCommand::Disassemble(n) => DebugOutput::Instructions(
                self.gb.cpu.next_instructions(n),
            ),
            DebugCommand::Quit | DebugCommand::LastCommand => DebugOutput::Nothing,
        }
    }
}

/// Toggling the same breakpoint twice gives back the set it started from.
pub proof fn lemma_toggle_twice(s: Set<u16>, addr: u16)
    ensures
        toggled(toggled(s, addr), addr) == s,
{
    if s.contains(addr) {
        assert(s.remove(addr).insert(addr) =~= s);
    } else {
        assert(s.insert(addr).remove(addr) =~= s);
    }
}

} // verus!
