use vstd::prelude::*;

use crate::interrupt::Interrupt;
use crate::joypad::Joypad;
use crate::video::{PPU, ppu_writable, ppu_write_error, lemma_register_write_keeps_memory};

verus! {

/// Why an access to the peripheral register page failed.
#[derive(Clone, Copy, Debug, PartialEq, Eq, Structural)]
pub enum IoError {
    /// No register is known at this offset.
    Unimplemented(u8),
    /// The register at this offset cannot be written.
    ReadOnly(u8),
    /// The register at this offset cannot be read.
    WriteOnly(u8),
}

/// The sound registers: writes are accepted and have no effect yet.
pub open spec fn is_sound(addr: u8) -> bool {
    0x10 <= addr <= 0x26
}

/// The PPU's part of the register page.
pub open spec fn is_ppu(addr: u8) -> bool {
    0x40 <= addr <= 0x4b
}

/// The boot-overlay control register.
pub const BOOT_CONTROL: u8 = 0x50;

/// The peripheral register file: the registers of the I/O page, routed by offset.
pub struct GBIO {
    pub interrupt: Interrupt,
    pub joypad: Joypad,
    pub ppu: PPU,
    /// Whether the boot program is still mapped at address 0.
    pub boot: bool,
}

/// What a write at `addr` returns.
pub open spec fn write_result(addr: u8) -> Result<(), IoError> {
    if addr == 0x00 || addr == 0x0f || addr == 0xff || is_sound(addr) || addr == BOOT_CONTROL {
        Ok(())
    } else if is_ppu(addr) {
        if ppu_writable(addr) {
            Ok(())
        } else {
            Err(ppu_write_error(addr))
        }
    } else {
        Err(IoError::Unimplemented(addr))
    }
}

impl GBIO {
    pub open spec fn wf(&self) -> bool {
        self.ppu.wf()
    }

    /// The register file after `v` is written at `addr`; unchanged where the
    /// write has no effect or fails.
    pub open spec fn after_write(self, addr: u8, v: u8) -> GBIO {
        if addr == 0x00 {
            GBIO { joypad: self.joypad.with_selection(v), ..self }
        } else if addr == 0x0f {
            GBIO { interrupt: self.interrupt.with_flags(v), ..self }
        } else if addr == 0xff {
            GBIO { interrupt: self.interrupt.with_enable(v), ..self }
        } else if is_ppu(addr) {
            GBIO { ppu: self.ppu.after_write(addr, v), ..self }
        } else if addr == BOOT_CONTROL {
            GBIO { boot: self.boot && v == 0, ..self }
        } else {
            self
        }
    }

    /// What a read at `addr` returns.
    pub open spec fn read_result(self, addr: u8) -> Result<u8, IoError> {
        if addr == 0x00 {
            Ok(self.joypad.joypad_byte())
        } else if addr == 0x0f {
            Ok(self.interrupt.flags_byte())
        } else if addr == 0xff {
            Ok(self.interrupt.enable_byte())
        } else if is_sound(addr) || addr == BOOT_CONTROL {
            Err(IoError::WriteOnly(addr))
        } else if is_ppu(addr) {
            match self.ppu.reg_value(addr) {
                Some(v) => Ok(v),
                None => Err(IoError::Unimplemented(addr)),
            }
        } else {
            Err(IoError::Unimplemented(addr))
        }
    }

    /// The power-on state, with the boot overlay active.
    pub fn new() -> (r: GBIO)
        ensures
            r.wf(),
            r.boot,
            r.interrupt.flags_byte() == 0,
            r.interrupt.enable_byte() == 0,
            r.joypad.joypad_byte() == 0,
            r.ppu.lcd_control_byte() == 0,
    {
        GBIO {
            interrupt: Interrupt::default(),
            joypad: Joypad::default(),
            ppu: PPU::default(),
            boot: true,
        }
    }

    /// Whether the boot program is still mapped at address 0.
    pub fn boot_sequence(&self) -> (r: bool)
        ensures
            r == self.boot,
    {
        self.boot
    }

    pub fn write_byte(&mut self, addr: u8, val: u8) -> (r: Result<(), IoError>)
        requires
            old(self).wf(),
        ensures
            final(self).wf(),
            *final(self) == old(self).after_write(addr, val),
            r == write_result(addr),
    {
        proof {
            lemma_register_write_keeps_memory(self.ppu, addr, val);
        }
        match addr {
            0x00 => {
                self.joypad.write_joypad(val);
                Ok(())
            },
            0x0f => {
                self.interrupt.write_flags(val);
                Ok(())
            },
            0xff => {
                self.interrupt.write_enable(val);
                Ok(())
            },
            0x10..=0x26 => Ok(()),
            0x40..=0x4b => self.ppu.write_ppu(addr, val),
            0x50 => {
                self.boot = self.boot && val == 0;
                Ok(())
            },
            _ => Err(IoError::Unimplemented(addr)),
        }
    }

    pub fn read_byte(&self, addr: u8) -> (r: Result<u8, IoError>)
        ensures
            r == self.read_result(addr),
    {
        match addr {
            0x00 => Ok(self.joypad.read_joypad()),
            0x0f => Ok(self.interrupt.read_flags()),
            0xff => Ok(self.interrupt.read_enable()),
            0x10..=0x26 | 0x50 => Err(IoError::WriteOnly(addr)),
            0x40..=0x4b => self.ppu.read_ppu(addr),
            _ => Err(IoError::Unimplemented(addr)),
        }
    }
}

/// The boot overlay only ever switches off: a nonzero write to its control
/// register switches it off, a zero write leaves it as it was, and once it is off
/// no write at any offset switches it on again.
pub proof fn lemma_boot_flag_monotonic(s: GBIO, addr: u8, v: u8)
    ensures
        v != 0 ==> !s.after_write(BOOT_CONTROL, v).boot,
        v == 0 ==> s.after_write(BOOT_CONTROL, v).boot == s.boot,
        !s.boot ==> !s.after_write(addr, v).boot,
{
}

} // verus!
