use chip8::emulator::Emulator;

/// A machine whose program is a key wait into `V5` followed by a jump to
/// itself.
fn machine_waiting_for_key() -> Emulator {
    let mut emulator = Emulator::new();
    assert_eq!(emulator.load_rom(&[0xF5, 0x0A, 0x12, 0x02]), Ok(()));
    emulator
}

#[test]
fn key_wait_repeats_while_no_key_is_down() {
    let mut emulator = machine_waiting_for_key();
    for _ in 0..50 {
        emulator.execution_cycle_with(0);
        assert_eq!(emulator.pc(), 0x200);
        assert_eq!(emulator.awaiting_release(), None);
        assert_eq!(emulator.registers(), &[0u8; 16]);
    }
}

#[test]
fn key_wait_completes_on_release_and_stores_the_key_once() {
    for key in 0..16u8 {
        let mut emulator = machine_waiting_for_key();
        emulator.execution_cycle_with(0);
        emulator.set_btn_press(key, true);
        emulator.execution_cycle_with(0);
        assert_eq!(emulator.pc(), 0x200);
        assert_eq!(emulator.awaiting_release(), Some(key));
        assert_eq!(emulator.registers()[5], 0);
        for _ in 0..10 {
            emulator.execution_cycle_with(0);
            assert_eq!(emulator.pc(), 0x200);
            assert_eq!(emulator.awaiting_release(), Some(key));
            assert_eq!(emulator.registers()[5], 0);
        }
        emulator.set_btn_press(key, false);
        emulator.execution_cycle_with(0);
        assert_eq!(emulator.pc(), 0x202);
        assert_eq!(emulator.awaiting_release(), None);
        let mut expected = [0u8; 16];
        expected[5] = key;
        assert_eq!(emulator.registers(), &expected);
        emulator.execution_cycle_with(0);
        assert_eq!(emulator.pc(), 0x202);
        assert_eq!(emulator.registers(), &expected);
    }
}

#[test]
fn key_wait_latches_the_highest_key_that_is_down() {
    let mut emulator = machine_waiting_for_key();
    emulator.set_btn_press(2, true);
    emulator.set_btn_press(9, true);
    emulator.set_btn_press(4, true);
    emulator.execution_cycle_with(0);
    assert_eq!(emulator.awaiting_release(), Some(9));
    emulator.set_btn_press(2, false);
    emulator.set_btn_press(4, false);
    emulator.execution_cycle_with(0);
    assert_eq!(emulator.pc(), 0x200);
    assert_eq!(emulator.awaiting_release(), Some(9));
    emulator.set_btn_press(9, false);
    emulator.execution_cycle_with(0);
    assert_eq!(emulator.pc(), 0x202);
    assert_eq!(emulator.registers()[5], 9);
}

#[test]
fn key_wait_ignores_other_keys_once_one_is_latched() {
    let mut emulator = machine_waiting_for_key();
    emulator.set_btn_press(3, true);
    emulator.execution_cycle_with(0);
    assert_eq!(emulator.awaiting_release(), Some(3));
    emulator.set_btn_press(0xF, true);
    emulator.execution_cycle_with(0);
    assert_eq!(emulator.awaiting_release(), Some(3));
    emulator.set_btn_press(0xF, false);
    emulator.set_btn_press(3, false);
    emulator.execution_cycle_with(0);
    assert_eq!(emulator.registers()[5], 3);
    assert_eq!(emulator.pc(), 0x202);
}

#[test]
fn key_wait_executed_directly_rewinds_the_program_counter() {
    let mut emulator = Emulator::new();
    emulator.execute_instruction_with(0xF00A, 0);
    assert_eq!(emulator.pc(), 0x1FE);
    let mut emulator = Emulator::new();
    emulator.execute_instruction_with(0x1000, 0);
    emulator.execute_instruction_with(0xF00A, 0);
    assert_eq!(emulator.pc(), 0xFFFE);
}

#[test]
fn skip_if_key_pressed() {
    let mut emulator = Emulator::new();
    emulator.set_btn_press(7, true);
    emulator.execute_instruction_with(0x6107, 0);
    emulator.execute_instruction_with(0xE19E, 0);
    assert_eq!(emulator.pc(), 0x202);
    emulator.execute_instruction_with(0x6108, 0);
    emulator.execute_instruction_with(0xE19E, 0);
    assert_eq!(emulator.pc(), 0x202);
}

#[test]
fn skip_if_key_not_pressed() {
    let mut emulator = Emulator::new();
    emulator.set_btn_press(7, true);
    emulator.execute_instruction_with(0x6107, 0);
    emulator.execute_instruction_with(0xE1A1, 0);
    assert_eq!(emulator.pc(), 0x200);
    emulator.execute_instruction_with(0x6108, 0);
    emulator.execute_instruction_with(0xE1A1, 0);
    assert_eq!(emulator.pc(), 0x202);
}

#[test]
fn a_key_number_above_15_counts_as_not_pressed() {
    let mut emulator = Emulator::new();
    for key in 0..16u8 {
        emulator.set_btn_press(key, true);
    }
    emulator.execute_instruction_with(0x6110, 0);
    emulator.execute_instruction_with(0xE19E, 0);
    assert_eq!(emulator.pc(), 0x200);
    emulator.execute_instruction_with(0xE1A1, 0);
    assert_eq!(emulator.pc(), 0x202);
    emulator.execute_instruction_with(0x61FF, 0);
    emulator.execute_instruction_with(0xE19E, 0);
    assert_eq!(emulator.pc(), 0x202);
}
