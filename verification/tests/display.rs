use chip8::emulator::Emulator;

fn lit_pixels(emulator: &Emulator) -> Vec<(usize, usize)> {
    let mut lit = Vec::new();
    for (row, line) in emulator.display().iter().enumerate() {
        for (col, pixel) in line.iter().enumerate() {
            if *pixel {
                lit.push((col, row));
            }
        }
    }
    lit
}

/// A machine whose memory at 0x300 holds `sprite`, with the index register
/// pointing at it and `V0`, `V1` holding the position.
fn machine_with_sprite(sprite: &[u8], x: u8, y: u8) -> Emulator {
    let mut rom = vec![0u8; 0x100];
    rom.extend_from_slice(sprite);
    let mut emulator = Emulator::new();
    assert_eq!(emulator.load_rom(&rom), Ok(()));
    emulator.execute_instruction_with(0x6000 | u16::from(x), 0);
    emulator.execute_instruction_with(0x6100 | u16::from(y), 0);
    emulator.execute_instruction_with(0xA300, 0);
    emulator
}

#[test]
fn draw_sets_pixels_under_set_bits_most_significant_bit_leftmost() {
    let mut emulator = machine_with_sprite(&[0b1010_0001, 0b0100_0000], 3, 2);
    emulator.execute_instruction_with(0xD012, 0);
    assert_eq!(lit_pixels(&emulator), vec![(3, 2), (5, 2), (10, 2), (4, 3)]);
    assert_eq!(emulator.registers()[0xF], 0);
    assert!(emulator.draw_flag());
}

#[test]
fn drawing_the_same_sprite_twice_erases_it_and_reports_a_collision() {
    for (x, y) in [(0u8, 0u8), (10, 5), (56, 31), (63, 0), (200, 100)] {
        let mut emulator = machine_with_sprite(&[0xFF], x, y);
        emulator.execute_instruction_with(0x00E0, 0);
        emulator.execute_instruction_with(0xD011, 0);
        assert_eq!(emulator.registers()[0xF], 0);
        assert!(!lit_pixels(&emulator).is_empty());
        emulator.execute_instruction_with(0xD011, 0);
        assert_eq!(emulator.registers()[0xF], 1);
        assert!(lit_pixels(&emulator).is_empty());
    }
}

#[test]
fn eight_by_one_sprite_lights_eight_pixels_in_a_row() {
    let mut emulator = machine_with_sprite(&[0xFF], 8, 4);
    emulator.execute_instruction_with(0xD011, 0);
    let expected: Vec<(usize, usize)> = (8..16).map(|col| (col, 4)).collect();
    assert_eq!(lit_pixels(&emulator), expected);
}

#[test]
fn a_partial_overlap_collides_and_leaves_the_exclusive_or() {
    let mut emulator = machine_with_sprite(&[0b1111_0000, 0b0011_1100], 0, 0);
    emulator.execute_instruction_with(0xD011, 0);
    assert_eq!(emulator.registers()[0xF], 0);
    emulator.execute_instruction_with(0xA301, 0);
    emulator.execute_instruction_with(0xD011, 0);
    assert_eq!(emulator.registers()[0xF], 1);
    assert_eq!(lit_pixels(&emulator), vec![(0, 0), (1, 0), (4, 0), (5, 0)]);
}

#[test]
fn disjoint_sprites_do_not_collide() {
    let mut emulator = machine_with_sprite(&[0xF0, 0x0F], 0, 0);
    emulator.execute_instruction_with(0xD011, 0);
    emulator.execute_instruction_with(0xA301, 0);
    emulator.execute_instruction_with(0xD011, 0);
    assert_eq!(emulator.registers()[0xF], 0);
    assert_eq!(lit_pixels(&emulator).len(), 8);
}

#[test]
fn a_sprite_at_width_minus_four_shows_its_left_four_columns_only() {
    let mut emulator = machine_with_sprite(&[0xFF, 0b1001_1111, 0b0110_0000], 60, 10);
    emulator.execute_instruction_with(0xD013, 0);
    assert_eq!(
        lit_pixels(&emulator),
        vec![(60, 10), (61, 10), (62, 10), (63, 10), (60, 11), (63, 11), (61, 12), (62, 12)]
    );
    for row in 0..32 {
        for col in 0..60 {
            assert!(!emulator.display()[row][col]);
        }
    }
    assert_eq!(emulator.registers()[0xF], 0);
}

#[test]
fn a_sprite_is_clipped_at_the_bottom_edge() {
    let mut emulator = machine_with_sprite(&[0x80, 0x80, 0x80, 0x80, 0x80], 7, 29);
    emulator.execute_instruction_with(0xD015, 0);
    assert_eq!(lit_pixels(&emulator), vec![(7, 29), (7, 30), (7, 31)]);
}

#[test]
fn a_sprite_at_the_bottom_right_corner_is_clipped_both_ways() {
    let mut emulator = machine_with_sprite(&[0xFF, 0xFF], 63, 31);
    emulator.execute_instruction_with(0xD012, 0);
    assert_eq!(lit_pixels(&emulator), vec![(63, 31)]);
}

#[test]
fn the_origin_wraps_modulo_the_screen_size() {
    let mut emulator = machine_with_sprite(&[0xC0], 64 + 5, 32 + 3);
    emulator.execute_instruction_with(0xD011, 0);
    assert_eq!(lit_pixels(&emulator), vec![(5, 3), (6, 3)]);
    let mut emulator = machine_with_sprite(&[0xC0], 255, 255);
    emulator.execute_instruction_with(0xD011, 0);
    assert_eq!(lit_pixels(&emulator), vec![(63, 31)]);
}

#[test]
fn a_draw_marks_the_display_dirty_even_when_nothing_changes() {
    let mut emulator = machine_with_sprite(&[0x00, 0x00], 0, 0);
    emulator.execute_instruction_with(0xD012, 0);
    assert!(emulator.draw_flag());
    assert!(lit_pixels(&emulator).is_empty());
    assert_eq!(emulator.registers()[0xF], 0);
    emulator.clear_draw_flag();
    emulator.execute_instruction_with(0xD010, 0);
    assert!(emulator.draw_flag());
}

#[test]
fn a_draw_overwrites_a_stale_flag() {
    let mut emulator = machine_with_sprite(&[0x80], 0, 0);
    emulator.execute_instruction_with(0x6F01, 0);
    emulator.execute_instruction_with(0xD011, 0);
    assert_eq!(emulator.registers()[0xF], 0);
}

#[test]
fn a_draw_reads_its_position_before_it_writes_the_flag() {
    let mut emulator = machine_with_sprite(&[0x80], 0, 0);
    emulator.execute_instruction_with(0x6F09, 0);
    emulator.execute_instruction_with(0xDFF1, 0);
    assert_eq!(lit_pixels(&emulator), vec![(9, 9)]);
    assert_eq!(emulator.registers()[0xF], 0);
}

#[test]
fn a_fifteen_row_sprite_is_drawn_in_full() {
    let sprite = [0x80u8; 15];
    let mut emulator = machine_with_sprite(&sprite, 1, 1);
    emulator.execute_instruction_with(0xD01F, 0);
    let expected: Vec<(usize, usize)> = (1..16).map(|row| (1, row)).collect();
    assert_eq!(lit_pixels(&emulator), expected);
}

#[test]
fn a_font_glyph_is_drawn_from_the_font_address() {
    let mut emulator = Emulator::new();
    emulator.execute_instruction_with(0x6201, 0);
    emulator.execute_instruction_with(0xF229, 0);
    emulator.execute_instruction_with(0xD005, 0);
    assert_eq!(
        lit_pixels(&emulator),
        vec![(2, 0), (1, 1), (2, 1), (2, 2), (2, 3), (1, 4), (2, 4), (3, 4)]
    );
}

#[test]
fn a_sprite_is_read_across_the_end_of_memory() {
    let mut rom = vec![0u8; 3584];
    rom[3583] = 0x80;
    let mut emulator = Emulator::new();
    assert_eq!(emulator.load_rom(&rom), Ok(()));
    emulator.execute_instruction_with(0xAFFF, 0);
    emulator.execute_instruction_with(0xD012, 0);
    assert_eq!(lit_pixels(&emulator), vec![(0, 0)]);
}

#[test]
fn clear_screen_turns_every_pixel_off() {
    let mut emulator = machine_with_sprite(&[0xFF, 0xFF, 0xFF], 20, 20);
    emulator.execute_instruction_with(0xD013, 0);
    assert_eq!(lit_pixels(&emulator).len(), 24);
    emulator.clear_draw_flag();
    let registers = *emulator.registers();
    assert!(!emulator.draw_flag());
    emulator.execute_instruction_with(0x00E0, 0);
    assert!(lit_pixels(&emulator).is_empty());
    assert_eq!(emulator.registers(), &registers);
    assert!(emulator.draw_flag());
}

#[test]
fn clear_screen_marks_the_display_dirty_even_when_it_was_blank() {
    let mut emulator = Emulator::new();
    assert!(!emulator.draw_flag());
    emulator.execute_instruction_with(0x00E0, 0);
    assert!(emulator.draw_flag());
    assert!(lit_pixels(&emulator).is_empty());
    emulator.clear_draw_flag();
    emulator.execute_instruction(0x00E0);
    assert!(emulator.draw_flag());
}

#[test]
fn clear_screen_changes_nothing_but_the_display_and_the_dirty_flag() {
    let mut emulator = machine_with_sprite(&[0xFF], 5, 6);
    emulator.execute_instruction_with(0x2400, 0);
    emulator.execute_instruction_with(0x6A33, 0);
    emulator.execute_instruction_with(0xFA15, 0);
    emulator.execute_instruction_with(0xFA18, 0);
    emulator.set_btn_press(4, true);
    emulator.execute_instruction_with(0xD011, 0);
    emulator.clear_draw_flag();
    let registers = *emulator.registers();
    let memory = *emulator.memory();
    emulator.execute_instruction_with(0x00E0, 0);
    assert_eq!(emulator.registers(), &registers);
    assert_eq!(emulator.memory(), &memory);
    assert_eq!(emulator.index_register(), 0x300);
    assert_eq!(emulator.pc(), 0x400);
    assert_eq!(emulator.stack(), &vec![0x200]);
    assert_eq!((emulator.delay_timer(), emulator.sound_timer()), (0x33, 0x33));
    assert!(emulator.is_key_pressed(4));
    assert_eq!(emulator.awaiting_release(), None);
    assert!(lit_pixels(&emulator).is_empty());
    assert!(emulator.draw_flag());
}

#[test]
fn a_cycle_that_clears_the_screen_marks_the_display_dirty() {
    let mut emulator = Emulator::new();
    assert_eq!(emulator.load_rom(&[0x00, 0xE0]), Ok(()));
    assert!(!emulator.next_cycle_faults());
    emulator.execution_cycle();
    assert!(emulator.draw_flag());
    assert_eq!(emulator.pc(), 0x202);
}
