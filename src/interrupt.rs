use vstd::prelude::*;

use crate::bits::{has_bit, pack5, lemma_pack5_bits, lemma_pack_none};

verus! {

pub const INTERRUPT_VBLANK_MASK: u8 = 0b0000_0001;
pub const INTERRUPT_LCDSTAT_MASK: u8 = 0b0000_0010;
pub const INTERRUPT_TIMER_MASK: u8 = 0b0000_0100;
pub const INTERRUPT_SERIAL_MASK: u8 = 0b0000_1000;
pub const INTERRUPT_JOYPAD_MASK: u8 = 0b0001_0000;

/// Enable and pending state of the five interrupt sources.
pub struct Interrupt {
    pub enabled_vblank: bool,
    pub enabled_lcdstat: bool,
    pub enabled_timer: bool,
    pub enabled_serial: bool,
    pub enabled_joypad: bool,
    pub flagged_vblank: bool,
    pub flagged_lcdstat: bool,
    pub flagged_timer: bool,
    pub flagged_serial: bool,
    pub flagged_joypad: bool,
}

impl Interrupt {
    /// The IF register as the hardware shows it.
    pub open spec fn flags_byte(self) -> u8 {
        pack5(
            self.flagged_joypad,
            self.flagged_serial,
            self.flagged_timer,
            self.flagged_lcdstat,
            self.flagged_vblank,
        )
    }

    /// The IE register as the hardware shows it.
    pub open spec fn enable_byte(self) -> u8 {
        pack5(
            self.enabled_joypad,
            self.enabled_serial,
            self.enabled_timer,
            self.enabled_lcdstat,
            self.enabled_vblank,
        )
    }

    /// The state after `v` is written to IF: every pending flag taken from its bit.
    pub open spec fn with_flags(self, v: u8) -> Interrupt {
        Interrupt {
            flagged_vblank: has_bit(v, INTERRUPT_VBLANK_MASK),
            flagged_lcdstat: has_bit(v, INTERRUPT_LCDSTAT_MASK),
            flagged_timer: has_bit(v, INTERRUPT_TIMER_MASK),
            flagged_serial: has_bit(v, INTERRUPT_SERIAL_MASK),
            flagged_joypad: has_bit(v, INTERRUPT_JOYPAD_MASK),
            ..self
        }
    }

    /// The state after `v` is written to IE: every enable flag taken from its bit.
    pub open spec fn with_enable(self, v: u8) -> Interrupt {
        Interrupt {
            enabled_vblank: has_bit(v, INTERRUPT_VBLANK_MASK),
            enabled_lcdstat: has_bit(v, INTERRUPT_LCDSTAT_MASK),
            enabled_timer: has_bit(v, INTERRUPT_TIMER_MASK),
            enabled_serial: has_bit(v, INTERRUPT_SERIAL_MASK),
            enabled_joypad: has_bit(v, INTERRUPT_JOYPAD_MASK),
            ..self
        }
    }

    pub fn write_flags(&mut self, val: u8)
        ensures
            *final(self) == old(self).with_flags(val),
    {
        self.flagged_vblank = (val & INTERRUPT_VBLANK_MASK) != 0;
        self.flagged_lcdstat = (val & INTERRUPT_LCDSTAT_MASK) != 0;
        self.flagged_timer = (val & INTERRUPT_TIMER_MASK) != 0;
        self.flagged_serial = (val & INTERRUPT_SERIAL_MASK) != 0;
        self.flagged_joypad = (val & INTERRUPT_JOYPAD_MASK) != 0;
    }

    pub fn write_enable(&mut self, val: u8)
        ensures
            *final(self) == old(self).with_enable(val),
    {
        self.enabled_vblank = (val & INTERRUPT_VBLANK_MASK) != 0;
        self.enabled_lcdstat = (val & INTERRUPT_LCDSTAT_MASK) != 0;
        self.enabled_timer = (val & INTERRUPT_TIMER_MASK) != 0;
        self.enabled_serial = (val & INTERRUPT_SERIAL_MASK) != 0;
        self.enabled_joypad = (val & INTERRUPT_JOYPAD_MASK) != 0;
    }

    pub fn read_flags(&self) -> (r: u8)
        ensures
            r == self.flags_byte(),
    {
        (if self.flagged_joypad { INTERRUPT_JOYPAD_MASK } else { 0 }) | (if self.flagged_serial {
            INTERRUPT_SERIAL_MASK
        } else {
            0
        }) | (if self.flagged_timer { INTERRUPT_TIMER_MASK } else { 0 }) | (if self.flagged_lcdstat {
            INTERRUPT_LCDSTAT_MASK
        } else {
            0
        }) | (if self.flagged_vblank { INTERRUPT_VBLANK_MASK } else { 0 })
    }

    pub fn read_enable(&self) -> (r: u8)
        ensures
            r == self.enable_byte(),
    {
        (if self.enabled_joypad { INTERRUPT_JOYPAD_MASK } else { 0 }) | (if self.enabled_serial {
            INTERRUPT_SERIAL_MASK
        } else {
            0
        }) | (if self.enabled_timer { INTERRUPT_TIMER_MASK } else { 0 }) | (if self.enabled_lcdstat {
            INTERRUPT_LCDSTAT_MASK
        } else {
            0
        }) | (if self.enabled_vblank { INTERRUPT_VBLANK_MASK } else { 0 })
    }
}

impl Default for Interrupt {
    /// Power-on state: nothing enabled, nothing pending.
    fn default() -> (r: Interrupt)
        ensures
            r.flags_byte() == 0,
            r.enable_byte() == 0,
            !r.enabled_vblank && !r.enabled_lcdstat && !r.enabled_timer && !r.enabled_serial
                && !r.enabled_joypad,
            !r.flagged_vblank && !r.flagged_lcdstat && !r.flagged_timer && !r.flagged_serial
                && !r.flagged_joypad,
    {
        proof {
            lemma_pack_none();
        }
        Interrupt {
            enabled_vblank: false,
            enabled_lcdstat: false,
            enabled_timer: false,
            enabled_serial: false,
            enabled_joypad: false,
            flagged_vblank: false,
            flagged_lcdstat: false,
            flagged_timer: false,
            flagged_serial: false,
            flagged_joypad: false,
        }
    }
}

/// Writing a byte to IF and reading IF back gives the byte's five low bits, so every
/// byte that fits in five bits comes back unchanged; IE is left as it was.
pub proof fn lemma_flags_round_trip(s: Interrupt, v: u8)
    ensures
        s.with_flags(v).flags_byte() == v & 0x1f,
        v <= 0x1f ==> s.with_flags(v).flags_byte() == v,
        s.with_flags(v).enable_byte() == s.enable_byte(),
{
    lemma_pack5_bits(v);
}

/// Writing a byte to IE and reading IE back gives the byte's five low bits, so every
/// byte that fits in five bits comes back unchanged; IF is left as it was.
pub proof fn lemma_enable_round_trip(s: Interrupt, v: u8)
    ensures
        s.with_enable(v).enable_byte() == v & 0x1f,
        v <= 0x1f ==> s.with_enable(v).enable_byte() == v,
        s.with_enable(v).flags_byte() == s.flags_byte(),
{
    lemma_pack5_bits(v);
}

} // verus!
