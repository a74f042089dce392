use gbemu::joypad::{Joypad, SelectedInput};

fn all_pressed() -> Joypad {
    let mut j = Joypad::default();
    j.input_up = true;
    j.input_down = true;
    j.input_left = true;
    j.input_right = true;
    j.input_a = true;
    j.input_b = true;
    j.input_start = true;
    j.input_select = true;
    j
}

#[test]
fn joypad_power_on_selects_direction() {
    let j = Joypad::default();
    assert_eq!(j.selected_input, SelectedInput::Direction);
    assert_eq!(j.read_joypad(), 0);
}

#[test]
fn joypad_direction_bank_ignores_buttons() {
    for mask in 0u8..16 {
        let mut j = Joypad::default();
        j.input_a = mask & 1 != 0;
        j.input_b = mask & 2 != 0;
        j.input_select = mask & 4 != 0;
        j.input_start = mask & 8 != 0;
        j.write_joypad(0x10);
        assert_eq!(j.read_joypad(), 0);
        j.input_right = true;
        j.input_down = true;
        assert_eq!(j.read_joypad(), 0b1001);
    }
}

#[test]
fn joypad_buttons_bank_ignores_directions() {
    for mask in 0u8..16 {
        let mut j = Joypad::default();
        j.input_right = mask & 1 != 0;
        j.input_left = mask & 2 != 0;
        j.input_up = mask & 4 != 0;
        j.input_down = mask & 8 != 0;
        j.write_joypad(0x20);
        assert_eq!(j.read_joypad(), 0);
        j.input_b = true;
        j.input_select = true;
        assert_eq!(j.read_joypad(), 0b0110);
    }
}

#[test]
fn joypad_bit_positions() {
    let mut j = Joypad::default();
    j.input_up = true;
    assert_eq!(j.read_joypad(), 0b0100);
    j.input_left = true;
    assert_eq!(j.read_joypad(), 0b0110);
    j.write_joypad(0x20);
    assert_eq!(j.read_joypad(), 0);
    j.input_start = true;
    assert_eq!(j.read_joypad(), 0b1000);
    j.input_a = true;
    assert_eq!(j.read_joypad(), 0b1001);
}

#[test]
fn joypad_button_select_wins_over_direction_select() {
    let mut j = all_pressed();
    j.input_up = false;
    j.write_joypad(0x30);
    assert_eq!(j.selected_input, SelectedInput::Buttons);
    assert_eq!(j.read_joypad(), 0x0f);
    j.write_joypad(0x10);
    assert_eq!(j.selected_input, SelectedInput::Direction);
    assert_eq!(j.read_joypad(), 0b1011);
}

#[test]
fn joypad_write_without_select_bits_keeps_bank() {
    let mut j = all_pressed();
    j.write_joypad(0x20);
    j.write_joypad(0x0f);
    assert_eq!(j.selected_input, SelectedInput::Buttons);
    j.write_joypad(0x10);
    j.write_joypad(0xcf);
    assert_eq!(j.selected_input, SelectedInput::Direction);
    assert!(j.input_a && j.input_up);
}
