//! Properties of the machine that hold for every state, proved over the model.

use vstd::prelude::*;
use crate::instruction::Instruction;
use crate::machine::{blank_display, lemma_wrapped_offset, wrap16, wrap8, MachineState};
use crate::semantics::{lemma_highest_pressed, sprite_bit};

verus! {

/// Executing an instruction keeps a well-formed state well formed.
pub proof fn law_execute_preserves_well_formed(
    s: MachineState,
    instruction: Instruction,
    random_byte: u8,
)
    requires
        s.well_formed(),
        instruction.in_range(),
    ensures
        s.execute(instruction, random_byte).well_formed(),
{
    lemma_highest_pressed(s.keys, 16);
}

/// A whole cycle, a timer tick, a key event and a program load each keep a
/// well-formed state well formed.
pub proof fn law_operations_preserve_well_formed(
    s: MachineState,
    random_byte: u8,
    key: u8,
    pressed: bool,
    rom: Seq<u8>,
)
    requires
        s.well_formed(),
    ensures
        s.cycle(random_byte).well_formed(),
        s.tick().well_formed(),
        s.set_key(key, pressed).well_formed(),
        s.load(rom).well_formed(),
        MachineState::initial().well_formed(),
{
    crate::instruction::lemma_decode_in_range(s.fetch());
    law_execute_preserves_well_formed(
        s.advance(),
        crate::instruction::decode_spec(s.fetch()),
        random_byte,
    );
}

/// Only `Cxkk` looks at the random byte: every other instruction has the same
/// effect whatever byte is supplied.
pub proof fn law_only_random_uses_the_random_byte(
    s: MachineState,
    instruction: Instruction,
    first: u8,
    second: u8,
)
    requires
        instruction !is Random,
    ensures
        s.execute(instruction, first) == s.execute(instruction, second),
{
}

/// The framebuffer is changed by the clear and draw instructions only, and
/// no other instruction touches the dirty flag.
pub proof fn law_only_display_instructions_change_the_display(
    s: MachineState,
    instruction: Instruction,
    random_byte: u8,
)
    requires
        instruction !is ClearScreen,
        instruction !is Draw,
    ensures
        s.execute(instruction, random_byte).display == s.display,
        s.execute(instruction, random_byte).draw_flag == s.draw_flag,
{
}

/// Clear and draw both leave the display marked dirty, whatever the flag was
/// before and whether or not a pixel changed. A clear leaves every pixel off
/// and changes nothing but the display and the flag.
pub proof fn law_display_instructions_mark_the_display_dirty(
    s: MachineState,
    x: u8,
    y: u8,
    rows: u8,
    random_byte: u8,
)
    ensures
        s.execute(Instruction::ClearScreen, random_byte).draw_flag,
        s.execute(Instruction::Draw { x, y, rows }, random_byte).draw_flag,
        s.execute(Instruction::ClearScreen, random_byte) == (MachineState {
            display: blank_display(),
            draw_flag: true,
            ..s
        }),
        forall|col: int, row: int|
            0 <= col < 64 && 0 <= row < 32 ==> !#[trigger] s.execute(
                Instruction::ClearScreen,
                random_byte,
            ).pixel(col, row),
{
}

/// Memory is written by the two store instructions only: the font and the
/// program stay as they are under every other instruction.
pub proof fn law_only_stores_change_memory(
    s: MachineState,
    instruction: Instruction,
    random_byte: u8,
)
    requires
        instruction !is StoreBcd,
        instruction !is StoreRegisters,
    ensures
        s.execute(instruction, random_byte).memory == s.memory,
{
}

/// Add-immediate wraps and leaves the flag alone: adding `a` and then `b` to
/// a register that holds zero leaves `(a + b) mod 256` in it, and the flag
/// register, if it is another register, keeps its value.
pub proof fn law_add_immediate_wraps(s: MachineState, x: u8, a: u8, b: u8, first: u8, second: u8)
    requires
        s.well_formed(),
        x < 16,
        s.reg(x) == 0,
    ensures
        ({
            let after = s.execute(Instruction::AddImm { x, byte: a }, first).execute(
                Instruction::AddImm { x, byte: b },
                second,
            );
            &&& after.reg(x) == (a + b) % 256
            &&& x != 0xF ==> after.reg(0xF) == s.reg(0xF)
            &&& after == s.with_reg(x, after.reg(x))
        }),
{
    let once = s.execute(Instruction::AddImm { x, byte: a }, first);
    let after = once.execute(Instruction::AddImm { x, byte: b }, second);
    assert(once == s.with_reg(x, wrap8(0 + a)));
    assert(wrap8(0 + a) == a);
    assert(once.reg(x) == a);
    assert(after == once.with_reg(x, wrap8(a + b)));
    assert(after.registers =~= s.registers.update(x as int, wrap8(a + b)));
}

/// Subtract polarity: `8xy5` leaves `Vx - Vy` modulo 256 in `Vx`, and `8xy7`
/// leaves `Vy - Vx`; each sets the flag to 1 exactly when it did not have to
/// borrow, and to 0 when it did.
pub proof fn law_subtract_flag_means_no_borrow(s: MachineState, x: u8, y: u8, random_byte: u8)
    requires
        s.well_formed(),
        x < 0xF,
        y < 16,
    ensures
        ({
            let after = s.execute(Instruction::Sub { x, y }, random_byte);
            &&& after.reg(x) == (s.reg(x) - s.reg(y)) % 256
            &&& after.reg(0xF) == 1 <==> s.reg(x) >= s.reg(y)
            &&& after.reg(0xF) == 0 <==> s.reg(x) < s.reg(y)
        }),
        ({
            let after = s.execute(Instruction::SubReverse { x, y }, random_byte);
            &&& after.reg(x) == (s.reg(y) - s.reg(x)) % 256
            &&& after.reg(0xF) == 1 <==> s.reg(y) >= s.reg(x)
            &&& after.reg(0xF) == 0 <==> s.reg(y) < s.reg(x)
        }),
{
}

/// The shifts work on the second register: `8xy6` leaves half of `Vy` in
/// `Vx` and `8xyE` leaves twice `Vy` modulo 256, while the flag receives the
/// bit that such a shift would push out of the old `Vx`: its lowest bit for a
/// right shift, its highest for a left shift.
pub proof fn law_shifts_read_the_second_register(s: MachineState, x: u8, y: u8, random_byte: u8)
    requires
        s.well_formed(),
        x < 0xF,
        y < 16,
    ensures
        ({
            let after = s.execute(Instruction::ShiftRight { x, y }, random_byte);
            &&& after.reg(x) == s.reg(y) / 2
            &&& after.reg(0xF) == s.reg(x) % 2
        }),
        ({
            let after = s.execute(Instruction::ShiftLeft { x, y }, random_byte);
            &&& after.reg(x) == (s.reg(y) * 2) % 256
            &&& after.reg(0xF) == s.reg(x) / 128
        }),
{
}

/// A draw never wraps around an edge: pixels left of the origin column or
/// above the origin row keep their value, whatever the sprite.
pub proof fn law_draw_does_not_wrap(
    s: MachineState,
    x: u8,
    y: u8,
    rows: u8,
    col: int,
    row: int,
    random_byte: u8,
)
    requires
        s.well_formed(),
        x < 16,
        y < 16,
        0 <= col < 64,
        0 <= row < 32,
        col < s.reg(x) % 64 || row < s.reg(y) % 32,
    ensures
        s.execute(Instruction::Draw { x, y, rows }, random_byte).pixel(col, row) == s.pixel(
            col,
            row,
        ),
{
}

/// Clipping at the right edge: a sprite whose origin column is four short of
/// the screen width shows its leftmost four columns and nothing else. Columns
/// 60 to 63 of the sprite's rows are flipped by sprite bits 0 to 3 (counted
/// from the left), and every other pixel keeps its value.
pub proof fn law_draw_clips_at_right_edge(
    s: MachineState,
    x: u8,
    y: u8,
    rows: u8,
    col: int,
    row: int,
    random_byte: u8,
)
    requires
        s.well_formed(),
        x < 16,
        y < 16,
        rows < 16,
        s.reg(x) % 64 == 60,
        0 <= col < 64,
        0 <= row < 32,
    ensures
        ({
            let origin_y = s.reg(y) % 32;
            let after = s.execute(Instruction::Draw { x, y, rows }, random_byte);
            if 60 <= col && origin_y <= row < origin_y + rows {
                after.pixel(col, row) == (s.pixel(col, row) != sprite_bit(
                    s.byte_at(s.index + (row - origin_y)),
                    (col - 60) as u8,
                ))
            } else {
                after.pixel(col, row) == s.pixel(col, row)
            }
        }),
{
}

/// Drawing is its own inverse: the same sprite drawn twice at the same place
/// leaves the display as it was. The position registers must not be the flag
/// register, which the first draw overwrites.
pub proof fn law_draw_twice_restores_display(
    s: MachineState,
    x: u8,
    y: u8,
    rows: u8,
    first: u8,
    second: u8,
)
    requires
        s.well_formed(),
        x < 0xF,
        y < 0xF,
    ensures
        s.execute(Instruction::Draw { x, y, rows }, first).execute(
            Instruction::Draw { x, y, rows },
            second,
        ).display == s.display,
{
    let once = s.draw(x, y, rows);
    let twice = once.draw(x, y, rows);
    assert forall|row: int| 0 <= row < 32 implies twice.display[row] =~= s.display[row] by {
        assert forall|col: int| 0 <= col < 64 implies twice.display[row][col]
            == s.display[row][col] by {
            assert(once.sprite_covers(x, y, rows, col, row) == s.sprite_covers(
                x,
                y,
                rows,
                col,
                row,
            ));
            assert(once.pixel(col, row) == (s.pixel(col, row) != s.sprite_covers(
                x,
                y,
                rows,
                col,
                row,
            )));
        }
    }
}

/// Collision: on a cleared screen, a one-row sprite of eight set bits drawn
/// twice at the same place reports no collision the first time, and the second
/// time turns every pixel off again and reports a collision.
pub proof fn law_second_draw_collides(s: MachineState, x: u8, y: u8, first: u8, second: u8)
    requires
        s.well_formed(),
        x < 0xF,
        y < 0xF,
        s.byte_at(s.index as int) == 0xFF,
    ensures
        ({
            let cleared = s.execute(Instruction::ClearScreen, first);
            let once = cleared.execute(Instruction::Draw { x, y, rows: 1 }, first);
            let twice = once.execute(Instruction::Draw { x, y, rows: 1 }, second);
            &&& once.reg(0xF) == 0
            &&& twice.reg(0xF) == 1
            &&& twice.display == blank_display()
        }),
{
    let cleared = s.execute(Instruction::ClearScreen, first);
    let once = cleared.draw(x, y, 1);
    let origin_x = (s.reg(x) % 64) as int;
    let origin_y = (s.reg(y) % 32) as int;

    assert(!cleared.sprite_collides(x, y, 1)) by {
        assert forall|col: int, row: int| !cleared.sprite_erases(x, y, 1, col, row) by {}
    }
    assert(sprite_bit(0xFF, 0)) by (bit_vector);
    assert(once.sprite_erases(x, y, 1, origin_x, origin_y));
    law_draw_twice_restores_display(cleared, x, y, 1, first, second);
}

/// Moving the program counter back by one instruction undoes moving it
/// forward by one, also across the 16-bit boundary.
proof fn lemma_rewind_undoes_advance(s: MachineState)
    ensures
        s.advance().rewind() == s,
{
    let forward = wrap16(s.pc + 2);
    assert(forward == if s.pc + 2 < 0x1_0000 {
        s.pc + 2
    } else {
        s.pc + 2 - 0x1_0000
    });
}

/// One key-wait step, without the fetch, in each of the situations that a key
/// wait can meet: nothing down and nothing latched, a key down and nothing
/// latched, the latched key still down, the latched key released.
proof fn lemma_key_wait_steps(s: MachineState, x: u8, key: u8)
    requires
        s.well_formed(),
        x < 16,
        key < 16,
    ensures
        ({
            let next = s.advance().wait_key(x);
            &&& s.awaiting_release is None && (forall|other: int|
                0 <= other < 16 ==> !s.keys[other]) ==> next == s
            &&& s.awaiting_release is None && s.keys[key as int] && (forall|other: int|
                key < other < 16 ==> !s.keys[other]) ==> next == (MachineState {
                awaiting_release: Some(key),
                ..s
            })
            &&& s.awaiting_release == Some(key) && s.keys[key as int] ==> next == s
            &&& s.awaiting_release == Some(key) && !s.keys[key as int] ==> next == (MachineState {
                awaiting_release: None,
                ..s.with_reg(x, key).advance()
            })
        }),
{
    lemma_highest_pressed(s.keys, 16);
    lemma_rewind_undoes_advance(s);
}

/// The key wait blocks while nothing happens: with no key down and no key
/// latched, a cycle that fetches a key wait leaves the whole state, program
/// counter included, as it was.
pub proof fn law_key_wait_blocks(s: MachineState, x: u8, random_byte: u8)
    requires
        s.well_formed(),
        x < 16,
        crate::instruction::decode_spec(s.fetch()) == (Instruction::WaitKey { x }),
        s.awaiting_release is None,
        forall|key: int| 0 <= key < 16 ==> !s.keys[key],
    ensures
        s.cycle(random_byte) == s,
{
    lemma_key_wait_steps(s, x, 0);
}

/// The key wait completes on release: from a machine blocked in a key wait
/// with no key down, pressing key `key` latches it without moving on, the wait
/// stays blocked for as long as the key is held, and the cycle after its
/// release stores `key` in the destination register and moves on. Nothing
/// else has changed by then.
pub proof fn law_key_wait_round_trip(
    s: MachineState,
    x: u8,
    key: u8,
    first: u8,
    second: u8,
    third: u8,
)
    requires
        s.well_formed(),
        x < 16,
        key < 16,
        crate::instruction::decode_spec(s.fetch()) == (Instruction::WaitKey { x }),
        s.awaiting_release is None,
        forall|other: int| 0 <= other < 16 ==> !s.keys[other],
    ensures
        ({
            let pressed = s.set_key(key, true);
            let latched = pressed.cycle(first);
            let released = latched.set_key(key, false);
            let done = released.cycle(third);
            &&& latched == (MachineState { awaiting_release: Some(key), ..pressed })
            &&& latched.cycle(second) == latched
            &&& done == s.with_reg(x, key).advance()
        }),
{
    let pressed = s.set_key(key, true);
    let latched = MachineState { awaiting_release: Some(key), ..pressed };
    let released = latched.set_key(key, false);

    lemma_key_wait_steps(pressed, x, key);
    lemma_key_wait_steps(latched, x, key);
    lemma_key_wait_steps(released, x, key);
    assert(released.keys =~= s.keys);
}

/// Binary-coded decimal: the three bytes stored are decimal digits, and read
/// as hundreds, tens and units they spell the register's value.
pub proof fn law_bcd_digits_spell_the_value(s: MachineState, x: u8, random_byte: u8)
    requires
        s.well_formed(),
        x < 16,
    ensures
        ({
            let after = s.execute(Instruction::StoreBcd { x }, random_byte);
            let hundreds = after.byte_at(s.index as int);
            let tens = after.byte_at(s.index + 1);
            let units = after.byte_at(s.index + 2);
            &&& hundreds < 10 && tens < 10 && units < 10
            &&& hundreds * 100 + tens * 10 + units == s.reg(x)
        }),
{
}

/// Bulk store and load are mirror images: after `V0..=Vx` are stored, any
/// machine with that memory and the index register back at the same address
/// loads the same values into `V0..=Vx`, whatever its registers held. Each of
/// the two advances the index register by exactly `x + 1` and the store leaves
/// the registers alone.
pub proof fn law_store_load_round_trip(
    s: MachineState,
    t: MachineState,
    x: u8,
    i: u8,
    first: u8,
    second: u8,
)
    requires
        s.well_formed(),
        t.well_formed(),
        x < 16,
        i <= x,
        t.memory == s.execute(Instruction::StoreRegisters { x }, first).memory,
        t.index == s.index,
    ensures
        t.execute(Instruction::LoadRegisters { x }, second).reg(i) == s.reg(i),
        s.execute(Instruction::StoreRegisters { x }, first).index == wrap16(s.index + x + 1),
        t.execute(Instruction::LoadRegisters { x }, second).index == wrap16(t.index + x + 1),
        s.execute(Instruction::StoreRegisters { x }, first).registers == s.registers,
{
    lemma_load_reads_what_store_wrote(s, t, x, i);
}

/// Register `i` comes back from the address that the store wrote it to.
proof fn lemma_load_reads_what_store_wrote(s: MachineState, t: MachineState, x: u8, i: u8)
    requires
        s.well_formed(),
        t.well_formed(),
        x < 16,
        i <= x,
        t.memory == s.store_registers(x).memory,
        t.index == s.index,
    ensures
        t.load_registers(x).reg(i) == s.reg(i),
{
    let address = (s.index + i) % 4096;
    lemma_wrapped_offset(s.index as int, address, i as int);
    assert(s.store_registers(x).memory[address] == s.registers[i as int]);
    assert(t.byte_at(t.index + i) == t.memory[address]);
}

} // verus!
