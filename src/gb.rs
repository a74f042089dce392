use vstd::prelude::*;

use crate::command::{Reg16, Reg8};

verus! {

/// The instruction engine that the console drives. It owns its view of the bus,
/// through which its memory accesses reach the peripheral register file; this
/// library drives it and never looks inside.
pub trait ProcessingCore {
    /// The address of the next instruction.
    fn pc(&self) -> u16;

    /// Executes one instruction and describes it.
    fn step(&mut self) -> String;

    /// Executes instructions until the engine stops by itself.
    fn run(&mut self);

    /// The next `n` instructions, address and text, without executing them.
    fn next_instructions(&self, n: u16) -> Vec<(u16, String)>;

    fn read_8bit_register(&self, r: Reg8) -> u8;

    fn read_16bit_register(&self, r: Reg16) -> u16;

    /// The whole register file as text.
    fn registers_text(&self) -> String;
}

/// The console: a processing core and what it is attached to.
pub struct GB<C> {
    pub cpu: C,
}

impl<C: ProcessingCore> GB<C> {
    pub fn new(cpu: C) -> (r: GB<C>)
        ensures
            r.cpu == cpu,
    {
        GB { cpu }
    }

    /// Executes one instruction and describes it.
    pub fn step(&mut self) -> String {
        self.cpu.step()
    }

    /// Lets the core run freely.
    pub fn run(&mut self) {
        self.cpu.run();
    }
}

} // verus!
