//! The interpreter: machine state held in fixed-size arrays, and one method
//! per externally visible operation.

use vstd::prelude::*;
use crate::consts::{
    FONTSET, FONTSET_SIZE, FONTSET_START_ADDRESS, MAX_ROM_SIZE, NUM_BITS_IN_BYTE, PROGRAM_START,
    SCREEN_HEIGHT, SCREEN_WIDTH,
};
use crate::instruction::decode_spec;
use crate::machine::{
    blank_display, initial_memory, lemma_wrapped_offset, wrapped_distance, MachineState,
};
use crate::semantics::{highest_pressed, AudioCommand};

verus! {

/// Why a program was not loaded.
#[derive(Clone, Copy, Debug, PartialEq, Eq, Structural)]
pub enum LoadError {
    /// The program has `len` bytes, more than fit between the program start
    /// address and the end of memory.
    RomTooLarge { len: usize },
}

/// A CHIP-8 machine.
///
/// Its mathematical value is `self@`, a [`MachineState`]; every contract is
/// stated over that value. A machine made by [`Emulator::new`] is well formed
/// and every operation keeps it so, but no operation depends on it.
pub struct Emulator {
    memory: [u8; 4096],
    v_registers: [u8; 16],
    index_register: u16,
    pc: u16,
    stack: Vec<u16>,
    delay_timer: u8,
    sound_timer: u8,
    btn_pressings: [bool; 16],
    btn_waiting_for_release: Option<u8>,
    display: [[bool; SCREEN_WIDTH]; SCREEN_HEIGHT],
    draw_flag: bool,
}

/// A framebuffer as a sequence of rows.
pub open spec fn grid_view(grid: [[bool; SCREEN_WIDTH]; SCREEN_HEIGHT]) -> Seq<Seq<bool>> {
    Seq::new(32, |row: int| grid[row]@)
}

/// Whether the pixel at (`col`, `row`) has already been visited when a blit
/// that started at (`start_x`, `start_y`) has finished `rows_done` rows and
/// `cols_done` columns of the next one.
spec fn visited(
    col: int,
    row: int,
    start_x: int,
    start_y: int,
    rows_done: int,
    cols_done: int,
) -> bool {
    row < start_y + rows_done || (row == start_y + rows_done && col < start_x + cols_done)
}

impl View for Emulator {
    type V = MachineState;

    closed spec fn view(&self) -> MachineState {
        MachineState {
            memory: self.memory@,
            registers: self.v_registers@,
            index: self.index_register,
            pc: self.pc,
            stack: self.stack@,
            delay_timer: self.delay_timer,
            sound_timer: self.sound_timer,
            keys: self.btn_pressings@,
            awaiting_release: self.btn_waiting_for_release,
            display: grid_view(self.display),
            draw_flag: self.draw_flag,
        }
    }
}

impl Emulator {
    /// Whatever a machine holds, its memory, registers, keypad and
    /// framebuffer have their fixed sizes; of what makes a state well formed,
    /// only the latched key is left to the operations to keep.
    pub proof fn lemma_view_has_fixed_sizes(self)
        ensures
            self@.has_fixed_sizes(),
            self@.well_formed() <==> (self@.awaiting_release matches Some(key) ==> key < 16),
    {
    }

    /// A machine that has just been switched on: the font in its reserved
    /// place, everything else zero, the program counter at the program start.
    pub fn new() -> (emulator: Emulator)
        ensures
            emulator@ == MachineState::initial(),
            emulator@.well_formed(),
    {
        let mut emu = Emulator {
            memory: [0; 4096],
            v_registers: [0; 16],
            index_register: 0,
            pc: PROGRAM_START,
            stack: Vec::new(),
            delay_timer: 0,
            sound_timer: 0,
            btn_pressings: [false; 16],
            display: [[false; SCREEN_WIDTH]; SCREEN_HEIGHT],
            draw_flag: false,
            btn_waiting_for_release: None,
        };

        proof {
            assert(emu@.registers =~= MachineState::initial().registers);
            assert(emu@.keys =~= MachineState::initial().keys);
            assert(emu@.display =~~= MachineState::initial().display);
        }
        let mut i: usize = 0;
        while i < FONTSET_SIZE
            invariant
                i <= FONTSET_SIZE,
                emu@ == (MachineState { memory: emu@.memory, ..MachineState::initial() }),
                emu@.memory.len() == 4096,
                forall|a: int|
                    0 <= a < 4096 ==> #[trigger] emu@.memory[a] == if FONTSET_START_ADDRESS <= a
                        < FONTSET_START_ADDRESS + i {
                        FONTSET@[a - FONTSET_START_ADDRESS]
                    } else {
                        0u8
                    },
            decreases FONTSET_SIZE - i,
        {
            emu.memory[FONTSET_START_ADDRESS + i] = FONTSET[i];
            i += 1;
        }

        proof {
            assert(emu@.memory =~= initial_memory());
        }
        emu
    }

    /// Copies a program into memory, starting at the program start address.
    ///
    /// A program longer than [`MAX_ROM_SIZE`] is rejected and the machine is
    /// left exactly as it was.
    pub fn load_rom(&mut self, rom: &[u8]) -> (result: Result<(), LoadError>)
        ensures
            rom@.len() <= MAX_ROM_SIZE ==> result is Ok && final(self)@ == old(self)@.load(rom@),
            rom@.len() > MAX_ROM_SIZE ==> result == Err::<(), LoadError>(
                LoadError::RomTooLarge { len: rom@.len() as usize },
            ) && final(self)@ == old(self)@,
            old(self)@.well_formed() ==> final(self)@.well_formed(),
    {
        let ram_starting_index: usize = PROGRAM_START as usize;

        if rom.len() > MAX_ROM_SIZE {
            return Err(LoadError::RomTooLarge { len: rom.len() });
        }
        let ghost before = self@;
        let mut i: usize = 0;
        while i < rom.len()
            invariant
                i <= rom@.len() <= MAX_ROM_SIZE,
                ram_starting_index == PROGRAM_START,
                self@ == (MachineState { memory: self@.memory, ..before }),
                self@.memory.len() == 4096,
                forall|a: int|
                    0 <= a < 4096 ==> #[trigger] self@.memory[a] == if PROGRAM_START <= a
                        < PROGRAM_START + i {
                        rom@[a - PROGRAM_START]
                    } else {
                        before.memory[a]
                    },
            decreases rom@.len() - i,
        {
            self.memory[ram_starting_index + i] = rom[i];
            i += 1;
        }
        proof {
            assert(self@.memory =~= before.load(rom@).memory);
        }
        Ok(())
    }

    /// Records that the key numbered `btn` went down (`value` true) or up.
    /// Numbers above 15 are ignored.
    pub fn set_btn_press(&mut self, btn: u8, value: bool)
        ensures
            final(self)@ == old(self)@.set_key(btn, value),
            old(self)@.well_formed() ==> final(self)@.well_formed(),
    {
        if btn < 16 {
            self.btn_pressings[btn as usize] = value;
        }
    }

    /// Whether [`Emulator::execution_cycle`] may not be called in this state:
    /// the next instruction is a return and the call stack is empty.
    pub fn next_cycle_faults(&self) -> (faults: bool)
        ensures
            faults == self@.cycle_faults(),
    {
        let instruction: u16 = self.fetch();
        self.would_fault(instruction)
    }

    /// Whether [`Emulator::execute_instruction`] may not be called on
    /// `instruction` in this state: it is a return and the call stack is
    /// empty.
    pub fn would_fault(&self, instruction: u16) -> (faults: bool)
        ensures
            faults == self@.faults(decode_spec(instruction)),
    {
        instruction == 0x00EE && self.stack.len() == 0
    }

    /// The instruction word at the program counter.
    pub fn fetch(&self) -> (instruction: u16)
        ensures
            instruction == self@.fetch(),
    {
        let high: u8 = self.memory[self.pc as usize % 4096];
        let low: u8 = self.memory[(self.pc as usize + 1) % 4096];
        proof {
            assert(((high as u16) << 8) | (low as u16) == high * 0x100 + low) by (bit_vector);
        }
        ((high as u16) << 8) | (low as u16)
    }

    /// One 60 Hz tick: each timer that is not zero goes down by one. The
    /// result says whether the tone should sound: it should while the sound
    /// timer was still running at this tick.
    pub fn tick_timers(&mut self) -> (command: AudioCommand)
        ensures
            final(self)@ == old(self)@.tick(),
            command == old(self)@.tone(),
            old(self)@.well_formed() ==> final(self)@.well_formed(),
    {
        if self.delay_timer > 0 {
            self.delay_timer -= 1;
        }
        if self.sound_timer > 0 {
            self.sound_timer -= 1;
            AudioCommand::Resume
        } else {
            AudioCommand::Pause
        }
    }

    /// The framebuffer: `display()[row][col]`.
    pub fn display(&self) -> (grid: &[[bool; SCREEN_WIDTH]; SCREEN_HEIGHT])
        ensures
            grid_view(*grid) == self@.display,
    {
        &self.display
    }

    /// Whether a clear or draw instruction has run since the flag was last
    /// cleared.
    pub fn draw_flag(&self) -> (dirty: bool)
        ensures
            dirty == self@.draw_flag,
    {
        self.draw_flag
    }

    /// Clears the dirty flag, after the framebuffer has been presented.
    pub fn clear_draw_flag(&mut self)
        ensures
            final(self)@ == (MachineState { draw_flag: false, ..old(self)@ }),
    {
        self.draw_flag = false;
    }

    /// The sixteen general-purpose registers.
    pub fn registers(&self) -> (registers: &[u8; 16])
        ensures
            registers@ == self@.registers,
    {
        &self.v_registers
    }

    /// The whole of memory.
    pub fn memory(&self) -> (memory: &[u8; 4096])
        ensures
            memory@ == self@.memory,
    {
        &self.memory
    }

    /// The index register.
    pub fn index_register(&self) -> (index: u16)
        ensures
            index == self@.index,
    {
        self.index_register
    }

    /// The program counter.
    pub fn pc(&self) -> (pc: u16)
        ensures
            pc == self@.pc,
    {
        self.pc
    }

    /// The return addresses on the call stack, oldest first.
    pub fn stack(&self) -> (stack: &Vec<u16>)
        ensures
            stack@ == self@.stack,
    {
        &self.stack
    }

    /// The delay timer.
    pub fn delay_timer(&self) -> (value: u8)
        ensures
            value == self@.delay_timer,
    {
        self.delay_timer
    }

    /// The sound timer.
    pub fn sound_timer(&self) -> (value: u8)
        ensures
            value == self@.sound_timer,
    {
        self.sound_timer
    }

    /// The key that a key-wait instruction has seen go down and is waiting to
    /// see released, if the machine is blocked in that way.
    pub fn awaiting_release(&self) -> (key: Option<u8>)
        ensures
            key == self@.awaiting_release,
    {
        self.btn_waiting_for_release
    }

    /// The value of register `x`.
    pub(crate) fn register(&self, x: u8) -> (value: u8)
        requires
            x < 16,
        ensures
            value == self@.reg(x),
    {
        self.v_registers[x as usize]
    }

    /// Whether the key numbered `key` is held down; no key has a number
    /// above 15.
    pub fn is_key_pressed(&self, key: u8) -> (pressed: bool)
        ensures
            pressed == self@.key_down(key),
    {
        (key as usize) < 16 && self.btn_pressings[key as usize]
    }

    /// Sets register `x` to `value`.
    pub(crate) fn set_register(&mut self, x: u8, value: u8)
        requires
            x < 16,
        ensures
            final(self)@ == old(self)@.with_reg(x, value),
    {
        self.v_registers[x as usize] = value;
    }

    /// Moves the program counter past the next instruction.
    pub(crate) fn skip_next(&mut self)
        ensures
            final(self)@ == old(self)@.advance(),
    {
        self.pc = self.pc.wrapping_add(2);
    }

    /// Sets the program counter to `addr`.
    pub(crate) fn jump_to(&mut self, addr: u16)
        ensures
            final(self)@ == old(self)@.with_pc(addr),
    {
        self.pc = addr;
    }

    /// Pushes the program counter on the call stack and jumps to `addr`.
    pub(crate) fn call_subroutine(&mut self, addr: u16)
        ensures
            final(self)@ == (MachineState {
                pc: addr,
                stack: old(self)@.stack.push(old(self)@.pc),
                ..old(self)@
            }),
    {
        self.stack.push(self.pc);
        self.pc = addr;
    }

    /// Pops the newest return address off the call stack into the program
    /// counter.
    pub(crate) fn return_from_subroutine(&mut self)
        requires
            old(self)@.stack.len() > 0,
        ensures
            final(self)@ == (MachineState {
                pc: old(self)@.stack.last(),
                stack: old(self)@.stack.drop_last(),
                ..old(self)@
            }),
    {
        match self.stack.pop() {
            Some(popped) => {
                self.pc = popped;
            },
            None => {},
        }
    }

    /// Sets the index register to `index`.
    pub(crate) fn set_index_register(&mut self, index: u16)
        ensures
            final(self)@ == old(self)@.with_index(index),
    {
        self.index_register = index;
    }

    /// Sets the delay timer to `value`.
    pub(crate) fn set_delay_timer(&mut self, value: u8)
        ensures
            final(self)@ == (MachineState { delay_timer: value, ..old(self)@ }),
    {
        self.delay_timer = value;
    }

    /// Sets the sound timer to `value`.
    pub(crate) fn set_sound_timer(&mut self, value: u8)
        ensures
            final(self)@ == (MachineState { sound_timer: value, ..old(self)@ }),
    {
        self.sound_timer = value;
    }

    /// Marks the display dirty.
    pub(crate) fn mark_dirty(&mut self)
        ensures
            final(self)@ == (MachineState { draw_flag: true, ..old(self)@ }),
    {
        self.draw_flag = true;
    }

    /// Turns every pixel off.
    pub(crate) fn clear_display(&mut self)
        ensures
            final(self)@ == (MachineState { display: blank_display(), ..old(self)@ }),
    {
        self.display = [[false; SCREEN_WIDTH]; SCREEN_HEIGHT];
        proof {
            assert forall|row: int| 0 <= row < 32 implies self@.display[row] =~= blank_display()[row] by {}
            assert(self@.display =~= blank_display());
        }
    }

    /// The key-wait instruction for destination register `x`.
    pub(crate) fn wait_for_key(&mut self, x: usize)
        requires
            x < 16,
        ensures
            final(self)@ == old(self)@.wait_key(x as u8),
    {
        let mut pressed = false;

        match self.btn_waiting_for_release {
            Some(btn) => {
                if !self.is_key_pressed(btn) {
                    pressed = true;
                    self.v_registers[x] = btn;
                    self.btn_waiting_for_release = None;
                }
            },
            None => {
                let mut latched: Option<u8> = None;
                let mut i: usize = 0;
                while i < 16
                    invariant
                        i <= 16,
                        latched == highest_pressed(self.btn_pressings@, i as int),
                    decreases 16 - i,
                {
                    if self.btn_pressings[i] {
                        latched = Some(i as u8);
                    }
                    i += 1;
                }
                self.btn_waiting_for_release = latched;
            },
        }

        if !pressed {
            self.pc = self.pc.wrapping_sub(2);
        }
    }

    /// Writes the hundreds, tens and units digits of register `x` to memory
    /// at the index register and the two addresses after it.
    pub(crate) fn store_bcd(&mut self, x: usize)
        requires
            x < 16,
        ensures
            final(self)@ == old(self)@.store_bcd(x as u8),
    {
        let index: usize = self.index_register as usize;
        let vx: u8 = self.v_registers[x];

        let hundreds: u8 = vx / 100;
        let tens: u8 = (vx % 100) / 10;
        let units: u8 = vx % 10;

        self.memory[index % 4096] = hundreds;
        self.memory[(index + 1) % 4096] = tens;
        self.memory[(index + 2) % 4096] = units;
    }

    /// Copies registers `0..=x` to memory from the index register upwards and
    /// moves the index register past them.
    pub(crate) fn store_registers(&mut self, x: usize)
        requires
            x < 16,
        ensures
            final(self)@ == old(self)@.store_registers(x as u8),
    {
        let ghost before = self@;
        let base: usize = self.index_register as usize;
        let mut i: usize = 0;
        while i <= x
            invariant
                i <= x + 1,
                x < 16,
                base == before.index,
                self@ == (MachineState { memory: self@.memory, ..before }),
                self@.memory.len() == 4096,
                forall|a: int|
                    0 <= a < 4096 ==> #[trigger] self@.memory[a] == if wrapped_distance(
                        base as int,
                        a,
                    ) < i {
                        before.registers[wrapped_distance(base as int, a)]
                    } else {
                        before.memory[a]
                    },
            decreases x + 1 - i,
        {
            proof {
                assert forall|a: int| 0 <= a < 4096 implies (#[trigger] wrapped_distance(
                    base as int,
                    a,
                ) == i <==> a == (base + i) % 4096) by {
                    lemma_wrapped_offset(base as int, a, i as int);
                }
            }
            self.memory[(base + i) % 4096] = self.v_registers[i];
            i += 1;
        }
        self.index_register = self.index_register.wrapping_add(x as u16 + 1);
        proof {
            assert(self@.memory =~= before.store_registers(x as u8).memory);
        }
    }

    /// Copies memory from the index register upwards into registers `0..=x`
    /// and moves the index register past the bytes read.
    pub(crate) fn load_registers(&mut self, x: usize)
        requires
            x < 16,
        ensures
            final(self)@ == old(self)@.load_registers(x as u8),
    {
        let ghost before = self@;
        let base: usize = self.index_register as usize;
        let mut i: usize = 0;
        while i <= x
            invariant
                i <= x + 1,
                x < 16,
                base == before.index,
                self@ == (MachineState { registers: self@.registers, ..before }),
                self@.registers.len() == 16,
                forall|r: int|
                    0 <= r < 16 ==> #[trigger] self@.registers[r] == if r < i {
                        before.byte_at(before.index + r)
                    } else {
                        before.registers[r]
                    },
            decreases x + 1 - i,
        {
            self.v_registers[i] = self.memory[(base + i) % 4096];
            i += 1;
        }
        self.index_register = self.index_register.wrapping_add(x as u16 + 1);
        proof {
            assert(self@.registers =~= before.load_registers(x as u8).registers);
        }
    }

    /// Draws the sprite of `sprite_height` rows found at the index register
    /// at the position held in registers `x` and `y`, flipping every pixel
    /// under a set sprite bit, and records in the flag register whether a lit
    /// pixel was turned off.
    pub(crate) fn update_sprite(&mut self, sprite_height: usize, x: usize, y: usize)
        requires
            sprite_height < 16,
            x < 16,
            y < 16,
        ensures
            final(self)@ == old(self)@.blit(x as u8, y as u8, sprite_height as u8),
    {
        let ghost before = self@;
        let ghost rx = x as u8;
        let ghost ry = y as u8;
        let ghost rows = sprite_height as u8;

        let starting_x: usize = (self.v_registers[x] as usize) % SCREEN_WIDTH;
        let starting_y: usize = (self.v_registers[y] as usize) % SCREEN_HEIGHT;

        let mut must_activate_vf = false;

        let rows_on_screen: usize = SCREEN_HEIGHT - starting_y;
        let cols_on_screen: usize = SCREEN_WIDTH - starting_x;
        let vertical_limit: usize = if sprite_height < rows_on_screen {
            sprite_height
        } else {
            rows_on_screen
        };
        let horizontal_limit: usize = if NUM_BITS_IN_BYTE < cols_on_screen {
            NUM_BITS_IN_BYTE
        } else {
            cols_on_screen
        };

        let mut i: usize = 0;
        while i < vertical_limit
            invariant
                i <= vertical_limit <= 15,
                vertical_limit == if sprite_height < 32 - starting_y {
                    sprite_height as int
                } else {
                    32 - starting_y
                },
                horizontal_limit == if 8 < 64 - starting_x {
                    8int
                } else {
                    64 - starting_x
                },
                starting_x == before.reg(rx) % 64,
                starting_y == before.reg(ry) % 32,
                rx == x,
                ry == y,
                rows == sprite_height,
                self@ == (MachineState { display: self@.display, ..before }),
                forall|row: int, col: int|
                    0 <= row < 32 && 0 <= col < 64 ==> #[trigger] self.display[row][col] == (
                    before.pixel(col, row) != (row < starting_y + i && before.sprite_covers(
                        rx,
                        ry,
                        rows,
                        col,
                        row,
                    ))),
                must_activate_vf <==> exists|col: int, row: int|
                    row < starting_y + i && #[trigger] before.sprite_erases(rx, ry, rows, col, row),
            decreases vertical_limit - i,
        {
            let sprite_line: u8 = self.memory[(self.index_register as usize + i) % 4096];
            let screen_row: usize = starting_y + i;

            let mut j: usize = 0;
            while j < horizontal_limit
                invariant
                    j <= horizontal_limit <= 8,
                    i < vertical_limit <= 15,
                    screen_row == starting_y + i,
                    vertical_limit == if sprite_height < 32 - starting_y {
                        sprite_height as int
                    } else {
                        32 - starting_y
                    },
                    horizontal_limit == if 8 < 64 - starting_x {
                        8int
                    } else {
                        64 - starting_x
                    },
                    starting_x == before.reg(rx) % 64,
                    starting_y == before.reg(ry) % 32,
                    rx == x,
                    ry == y,
                    rows == sprite_height,
                        sprite_line == before.byte_at(before.index + i),
                    self@ == (MachineState { display: self@.display, ..before }),
                    forall|row: int, col: int|
                        0 <= row < 32 && 0 <= col < 64 ==> #[trigger] self.display[row][col] == (
                        before.pixel(col, row) != (visited(
                            col,
                            row,
                            starting_x as int,
                            starting_y as int,
                            i as int,
                            j as int,
                        ) && before.sprite_covers(rx, ry, rows, col, row))),
                    must_activate_vf <==> exists|col: int, row: int|
                        visited(
                            col,
                            row,
                            starting_x as int,
                            starting_y as int,
                            i as int,
                            j as int,
                        ) && #[trigger] before.sprite_erases(rx, ry, rows, col, row),
                decreases horizontal_limit - j,
            {
                let shift: u8 = j as u8;
                let bit: u8 = sprite_line & (0x80u8 >> shift);
                let line_index: usize = starting_x + j;
                proof {
                    assert(before.sprite_covers(
                        rx,
                        ry,
                        rows,
                        line_index as int,
                        screen_row as int,
                    ) == (bit != 0));
                    assert(before.sprite_erases(
                        rx,
                        ry,
                        rows,
                        line_index as int,
                        screen_row as int,
                    ) == (bit != 0 && self.display[screen_row as int][line_index as int]));
                }

                if bit != 0 {
                    if self.display[screen_row][line_index] {
                        must_activate_vf = true;
                    }
                    let lit: bool = self.display[screen_row][line_index];
                    self.display[screen_row][line_index] = !lit;
                }
                j += 1;

                proof {
                    assert forall|col: int, row: int|
                        visited(
                            col,
                            row,
                            starting_x as int,
                            starting_y as int,
                            i as int,
                            j as int,
                        ) == (visited(
                            col,
                            row,
                            starting_x as int,
                            starting_y as int,
                            i as int,
                            j - 1,
                        ) || (col == line_index && row == screen_row)) by {}
                }
            }
            i += 1;
        }

        self.v_registers[0xF] = if must_activate_vf {
            1
        } else {
            0
        };

        proof {
            let after = before.blit(rx, ry, rows);
            assert forall|row: int| 0 <= row < 32 implies self@.display[row] =~= after.display[row] by {}
            assert(self@.display =~= after.display);
        }
    }
}

} // verus!
