use vstd::prelude::*;

use crate::bits::{has_bit, pack_low4, lemma_pack_low4_bound, lemma_pack_none};

verus! {

/// The input bank that a joypad read shows.
#[derive(Clone, Copy, Debug, PartialEq, Eq, Structural)]
pub enum SelectedInput {
    Direction,
    Buttons,
}

pub const SELECT_BUTTONS_MASK: u8 = 0b0010_0000;
pub const SELECT_DIRECTION_MASK: u8 = 0b0001_0000;

pub const INPUT_RIGHT_VALUE: u8 = 0b0000_0001;
pub const INPUT_LEFT_VALUE: u8 = 0b0000_0010;
pub const INPUT_UP_VALUE: u8 = 0b0000_0100;
pub const INPUT_DOWN_VALUE: u8 = 0b0000_1000;

pub const INPUT_A_VALUE: u8 = INPUT_RIGHT_VALUE;
pub const INPUT_B_VALUE: u8 = INPUT_LEFT_VALUE;
pub const INPUT_SELECT_VALUE: u8 = INPUT_UP_VALUE;
pub const INPUT_START_VALUE: u8 = INPUT_DOWN_VALUE;

/// The joypad multiplexer: eight button states, of which a read shows one bank.
/// The button states are set by whoever delivers input.
pub struct Joypad {
    pub selected_input: SelectedInput,
    pub input_up: bool,
    pub input_down: bool,
    pub input_left: bool,
    pub input_right: bool,
    pub input_a: bool,
    pub input_b: bool,
    pub input_start: bool,
    pub input_select: bool,
}

impl Joypad {
    /// The bank selected after `v` is written: the button bank wins when both
    /// select bits are set, and with neither set the selection stays.
    pub open spec fn selection_after(self, v: u8) -> SelectedInput {
        if has_bit(v, SELECT_BUTTONS_MASK) {
            SelectedInput::Buttons
        } else if has_bit(v, SELECT_DIRECTION_MASK) {
            SelectedInput::Direction
        } else {
            self.selected_input
        }
    }

    /// The state after `v` is written: only the selection changes.
    pub open spec fn with_selection(self, v: u8) -> Joypad {
        Joypad { selected_input: self.selection_after(v), ..self }
    }

    /// The direction bank packed into the low nibble.
    pub open spec fn direction_byte(self) -> u8 {
        pack_low4(self.input_down, self.input_up, self.input_left, self.input_right)
    }

    /// The button bank packed into the low nibble.
    pub open spec fn buttons_byte(self) -> u8 {
        pack_low4(self.input_start, self.input_select, self.input_b, self.input_a)
    }

    /// What a read of the register shows: the selected bank only.
    pub open spec fn joypad_byte(self) -> u8 {
        match self.selected_input {
            SelectedInput::Direction => self.direction_byte(),
            SelectedInput::Buttons => self.buttons_byte(),
        }
    }

    pub fn write_joypad(&mut self, val: u8)
        ensures
            *final(self) == old(self).with_selection(val),
    {
        if (val & SELECT_BUTTONS_MASK) != 0 {
            self.selected_input = SelectedInput::Buttons;
        } else if (val & SELECT_DIRECTION_MASK) != 0 {
            self.selected_input = SelectedInput::Direction;
        }
    }

    pub fn read_joypad(&self) -> (r: u8)
        ensures
            r == self.joypad_byte(),
            r <= 0x0f,
    {
        proof {
            lemma_pack_low4_bound(self.input_down, self.input_up, self.input_left, self.input_right);
            lemma_pack_low4_bound(self.input_start, self.input_select, self.input_b, self.input_a);
        }
        match self.selected_input {
            SelectedInput::Direction => {
                (if self.input_down { INPUT_DOWN_VALUE } else { 0 }) | (if self.input_up {
                    INPUT_UP_VALUE
                } else {
                    0
                }) | (if self.input_left { INPUT_LEFT_VALUE } else { 0 }) | (if self.input_right {
                    INPUT_RIGHT_VALUE
                } else {
                    0
                })
            },
            SelectedInput::Buttons => {
                (if self.input_start { INPUT_START_VALUE } else { 0 }) | (if self.input_select {
                    INPUT_SELECT_VALUE
                } else {
                    0
                }) | (if self.input_b { INPUT_B_VALUE } else { 0 }) | (if self.input_a {
                    INPUT_A_VALUE
                } else {
                    0
                })
            },
        }
    }
}

impl Default for Joypad {
    /// Power-on state: direction bank selected, nothing pressed.
    fn default() -> (r: Joypad)
        ensures
            r.selected_input == SelectedInput::Direction,
            !r.input_up && !r.input_down && !r.input_left && !r.input_right,
            !r.input_a && !r.input_b && !r.input_start && !r.input_select,
            r.joypad_byte() == 0,
    {
        proof {
            lemma_pack_none();
        }
        Joypad {
            selected_input: SelectedInput::Direction,
            input_up: false,
            input_down: false,
            input_left: false,
            input_right: false,
            input_a: false,
            input_b: false,
            input_start: false,
            input_select: false,
        }
    }
}

/// With the direction bank selected, a read depends on the four directions alone:
/// two joypads that differ only in A, B, Select and Start read the same.
pub proof fn lemma_direction_bank_isolated(j: Joypad, k: Joypad)
    requires
        j.selected_input == SelectedInput::Direction,
        k.selected_input == SelectedInput::Direction,
        j.input_up == k.input_up,
        j.input_down == k.input_down,
        j.input_left == k.input_left,
        j.input_right == k.input_right,
    ensures
        j.joypad_byte() == k.joypad_byte(),
        j.joypad_byte() == j.direction_byte(),
{
}

/// With the button bank selected, a read depends on A, B, Select and Start alone:
/// two joypads that differ only in the directions read the same.
pub proof fn lemma_buttons_bank_isolated(j: Joypad, k: Joypad)
    requires
        j.selected_input == SelectedInput::Buttons,
        k.selected_input == SelectedInput::Buttons,
        j.input_a == k.input_a,
        j.input_b == k.input_b,
        j.input_select == k.input_select,
        j.input_start == k.input_start,
    ensures
        j.joypad_byte() == k.joypad_byte(),
        j.joypad_byte() == j.buttons_byte(),
{
}

/// A write with only the direction-select bit of the two set selects the
/// direction bank, after which a read shows the four directions alone.
pub proof fn lemma_direction_select(j: Joypad, v: u8)
    requires
        has_bit(v, SELECT_DIRECTION_MASK),
        !has_bit(v, SELECT_BUTTONS_MASK),
    ensures
        j.with_selection(v).selected_input == SelectedInput::Direction,
        j.with_selection(v).joypad_byte() == j.direction_byte(),
{
}

/// A write with the button-select bit set selects the button bank, whatever the
/// direction-select bit and the earlier selection.
pub proof fn lemma_buttons_select_wins(j: Joypad, v: u8)
    requires
        has_bit(v, SELECT_BUTTONS_MASK),
    ensures
        j.with_selection(v).selected_input == SelectedInput::Buttons,
        j.with_selection(v).joypad_byte() == j.buttons_byte(),
{
}

} // verus!
