//! What each instruction does to a machine state, as functions on the model.

use vstd::prelude::*;
use crate::consts::{FONTSET_START_ADDRESS, GLYPH_SIZE, PROGRAM_START};
use crate::instruction::{decode_spec, Instruction};
use crate::machine::{blank_display, wrap16, wrap8, wrapped_distance, MachineState};

verus! {

/// What the caller should do with the tone generator after a timer tick.
#[derive(Clone, Copy, Debug, PartialEq, Eq, Structural)]
pub enum AudioCommand {
    /// The sound timer was running: the tone should be audible.
    Resume,
    /// The sound timer was at zero: the tone should be silent.
    Pause,
}

/// Whether the pixel in column `col` (0 is leftmost) of a sprite row is set.
pub open spec fn sprite_bit(row_byte: u8, col: u8) -> bool {
    row_byte & (0x80u8 >> col) != 0
}

/// The highest-numbered key below `below` that is down, if any.
pub open spec fn highest_pressed(keys: Seq<bool>, below: int) -> Option<u8>
    decreases below,
{
    if below <= 0 {
        None
    } else if keys[below - 1] {
        Some((below - 1) as u8)
    } else {
        highest_pressed(keys, below - 1)
    }
}

/// `highest_pressed` finds a key that is down and has no key above it (and
/// below `below`) that is down, or reports that none below `below` is down.
pub proof fn lemma_highest_pressed(keys: Seq<bool>, below: int)
    requires
        0 <= below <= keys.len(),
        below <= 256,
    ensures
        match highest_pressed(keys, below) {
            Some(key) => key < below && keys[key as int] && forall|other: int|
                key < other < below ==> !keys[other],
            None => forall|other: int| 0 <= other < below ==> !keys[other],
        },
    decreases below,
{
    if below > 0 && !keys[below - 1] {
        lemma_highest_pressed(keys, below - 1);
    }
}

impl MachineState {
    /// The state with register `x` set to `value`.
    pub open spec fn with_reg(self, x: u8, value: u8) -> MachineState {
        MachineState { registers: self.registers.update(x as int, value), ..self }
    }

    /// The state with the flag register set to `flag`.
    pub open spec fn with_flag(self, flag: u8) -> MachineState {
        self.with_reg(0xF, flag)
    }

    /// The state with the program counter set to `pc`.
    pub open spec fn with_pc(self, pc: u16) -> MachineState {
        MachineState { pc, ..self }
    }

    /// The state with the index register set to `index`.
    pub open spec fn with_index(self, index: u16) -> MachineState {
        MachineState { index, ..self }
    }

    /// The state with the program counter moved past one instruction.
    pub open spec fn advance(self) -> MachineState {
        self.with_pc(wrap16(self.pc + 2))
    }

    /// The state with the program counter moved back by one instruction.
    pub open spec fn rewind(self) -> MachineState {
        self.with_pc(wrap16(self.pc - 2))
    }

    /// Skips the next instruction if `condition` holds.
    pub open spec fn skip_if(self, condition: bool) -> MachineState {
        if condition {
            self.advance()
        } else {
            self
        }
    }

    /// Whether drawing a sprite of `rows` rows from the index register at the
    /// position held in `Vx`, `Vy` flips the pixel at (`col`, `row`).
    ///
    /// The origin is reduced modulo the screen size. The sprite itself does
    /// not wrap: only pixels at or right of the origin column and at or below
    /// the origin row, and on the screen, are affected.
    pub open spec fn sprite_covers(self, x: u8, y: u8, rows: u8, col: int, row: int) -> bool {
        let origin_x = self.reg(x) % 64;
        let origin_y = self.reg(y) % 32;
        &&& origin_x <= col < 64
        &&& col < origin_x + 8
        &&& origin_y <= row < 32
        &&& row < origin_y + rows
        &&& sprite_bit(self.byte_at(self.index + (row - origin_y)), (col - origin_x) as u8)
    }

    /// Whether the draw flips a pixel that is currently on.
    pub open spec fn sprite_erases(self, x: u8, y: u8, rows: u8, col: int, row: int) -> bool {
        self.sprite_covers(x, y, rows, col, row) && self.pixel(col, row)
    }

    /// Whether the draw turns any lit pixel off.
    pub open spec fn sprite_collides(self, x: u8, y: u8, rows: u8) -> bool {
        exists|col: int, row: int| #[trigger] self.sprite_erases(x, y, rows, col, row)
    }

    /// The sprite blit: every covered pixel is flipped and the flag register
    /// reports whether a lit pixel was turned off.
    pub open spec fn blit(self, x: u8, y: u8, rows: u8) -> MachineState {
        MachineState {
            display: Seq::new(
                32,
                |row: int|
                    Seq::new(
                        64,
                        |col: int| self.pixel(col, row) != self.sprite_covers(x, y, rows, col, row),
                    ),
            ),
            ..self.with_flag(
                if self.sprite_collides(x, y, rows) {
                    1
                } else {
                    0
                },
            )
        }
    }

    /// `Dxyn`: the display is marked dirty, whether or not a pixel changes,
    /// and the sprite is blitted.
    pub open spec fn draw(self, x: u8, y: u8, rows: u8) -> MachineState {
        (MachineState { draw_flag: true, ..self }).blit(x, y, rows)
    }

    /// `Fx0A`: with no key latched, latch the highest key that is down (if
    /// any) and repeat the instruction; with a key latched, repeat the
    /// instruction until that key is up, then store its number in `Vx`.
    pub open spec fn wait_key(self, x: u8) -> MachineState {
        match self.awaiting_release {
            Some(key) => if self.key_down(key) {
                self.rewind()
            } else {
                MachineState { awaiting_release: None, ..self.with_reg(x, key) }
            },
            None => MachineState {
                awaiting_release: highest_pressed(self.keys, 16),
                ..self.rewind()
            },
        }
    }

    /// `Fx33`: hundreds, tens and units of `Vx` at `I`, `I+1`, `I+2`.
    pub open spec fn store_bcd(self, x: u8) -> MachineState {
        let value = self.reg(x);
        let base = self.index as int;
        MachineState {
            memory: self.memory.update(base % 4096, value / 100).update(
                (base + 1) % 4096,
                (value % 100) / 10,
            ).update((base + 2) % 4096, value % 10),
            ..self
        }
    }

    /// `Fx55`: `V0..=Vx` are written to memory from `I` upwards and `I` moves
    /// past them.
    pub open spec fn store_registers(self, x: u8) -> MachineState {
        MachineState {
            memory: Seq::new(
                4096,
                |a: int|
                    {
                        let offset = wrapped_distance(self.index as int, a);
                        if offset <= x {
                            self.registers[offset]
                        } else {
                            self.memory[a]
                        }
                    },
            ),
            index: wrap16(self.index + x + 1),
            ..self
        }
    }

    /// `Fx65`: `V0..=Vx` are read from memory from `I` upwards and `I` moves
    /// past them.
    pub open spec fn load_registers(self, x: u8) -> MachineState {
        MachineState {
            registers: Seq::new(
                16,
                |i: int|
                    if i <= x {
                        self.byte_at(self.index + i)
                    } else {
                        self.registers[i]
                    },
            ),
            index: wrap16(self.index + x + 1),
            ..self
        }
    }

    /// Whether executing `instruction` in this state is a fault: a return
    /// with an empty call stack.
    pub open spec fn faults(self, instruction: Instruction) -> bool {
        instruction == Instruction::Return && self.stack.len() == 0
    }

    /// The effect of a control-flow instruction; any other instruction leaves
    /// the state as it is.
    ///
    /// A return with an empty call stack is a fault (see `faults`). The
    /// interpreter never executes one; here it stands for no change.
    pub open spec fn control_flow(self, instruction: Instruction) -> MachineState {
        match instruction {
            Instruction::Return => if self.stack.len() > 0 {
                MachineState { pc: self.stack.last(), stack: self.stack.drop_last(), ..self }
            } else {
                self
            },
            Instruction::Jump { addr } => self.with_pc(addr),
            Instruction::Call { addr } => MachineState {
                pc: addr,
                stack: self.stack.push(self.pc),
                ..self
            },
            Instruction::SkipEqImm { x, byte } => self.skip_if(self.reg(x) == byte),
            Instruction::SkipNeImm { x, byte } => self.skip_if(self.reg(x) != byte),
            Instruction::SkipEqReg { x, y } => self.skip_if(self.reg(x) == self.reg(y)),
            Instruction::SkipNeReg { x, y } => self.skip_if(self.reg(x) != self.reg(y)),
            Instruction::JumpOffset { addr } => self.with_pc(wrap16(addr + self.reg(0))),
            _ => self,
        }
    }

    /// The effect of an instruction that computes a register value, where
    /// `random_byte` is the byte drawn for `Cxkk`; any other instruction
    /// leaves the state as it is.
    ///
    /// The flag register is written after the destination, so it holds the
    /// flag when both are the same register.
    pub open spec fn register_op(self, instruction: Instruction, random_byte: u8) -> MachineState {
        match instruction {
            Instruction::LoadImm { x, byte } => self.with_reg(x, byte),
            Instruction::AddImm { x, byte } => self.with_reg(x, wrap8(self.reg(x) + byte)),
            Instruction::Copy { x, y } => self.with_reg(x, self.reg(y)),
            Instruction::Or { x, y } => self.with_reg(x, self.reg(x) | self.reg(y)).with_flag(0),
            Instruction::And { x, y } => self.with_reg(x, self.reg(x) & self.reg(y)).with_flag(0),
            Instruction::Xor { x, y } => self.with_reg(x, self.reg(x) ^ self.reg(y)).with_flag(0),
            Instruction::Add { x, y } => self.with_reg(
                x,
                wrap8(self.reg(x) + self.reg(y)),
            ).with_flag(
                if self.reg(x) + self.reg(y) > 0xFF {
                    1
                } else {
                    0
                },
            ),
            Instruction::Sub { x, y } => self.with_reg(
                x,
                wrap8(self.reg(x) - self.reg(y)),
            ).with_flag(
                if self.reg(x) >= self.reg(y) {
                    1
                } else {
                    0
                },
            ),
            Instruction::ShiftRight { x, y } => self.with_reg(x, self.reg(y) / 2).with_flag(
                self.reg(x) % 2,
            ),
            Instruction::SubReverse { x, y } => self.with_reg(
                x,
                wrap8(self.reg(y) - self.reg(x)),
            ).with_flag(
                if self.reg(y) >= self.reg(x) {
                    1
                } else {
                    0
                },
            ),
            Instruction::ShiftLeft { x, y } => self.with_reg(x, wrap8(self.reg(y) * 2)).with_flag(
                self.reg(x) / 0x80,
            ),
            Instruction::Random { x, mask } => self.with_reg(x, random_byte & mask),
            _ => self,
        }
    }

    /// The effect of an instruction that sets the index register or moves
    /// data between registers and memory; any other instruction leaves the
    /// state as it is.
    pub open spec fn memory_op(self, instruction: Instruction) -> MachineState {
        match instruction {
            Instruction::LoadIndex { addr } => self.with_index(addr),
            Instruction::AddIndex { x } => self.with_index(wrap16(self.index + self.reg(x))),
            Instruction::FontAddress { x } => self.with_index(
                (FONTSET_START_ADDRESS + self.reg(x) * GLYPH_SIZE) as u16,
            ),
            Instruction::StoreBcd { x } => self.store_bcd(x),
            Instruction::StoreRegisters { x } => self.store_registers(x),
            Instruction::LoadRegisters { x } => self.load_registers(x),
            _ => self,
        }
    }

    /// The effect of a display instruction; any other instruction leaves the
    /// state as it is.
    ///
    /// Both display instructions mark the display dirty: a clear as well as a
    /// draw, and each whether or not a pixel changes.
    pub open spec fn display_op(self, instruction: Instruction) -> MachineState {
        match instruction {
            Instruction::ClearScreen => MachineState {
                display: blank_display(),
                draw_flag: true,
                ..self
            },
            Instruction::Draw { x, y, rows } => self.draw(x, y, rows),
            _ => self,
        }
    }

    /// The effect of a keypad or timer instruction; any other instruction
    /// leaves the state as it is.
    pub open spec fn input_timer_op(self, instruction: Instruction) -> MachineState {
        match instruction {
            Instruction::SkipKeyPressed { x } => self.skip_if(self.key_down(self.reg(x))),
            Instruction::SkipKeyNotPressed { x } => self.skip_if(!self.key_down(self.reg(x))),
            Instruction::WaitKey { x } => self.wait_key(x),
            Instruction::ReadDelay { x } => self.with_reg(x, self.delay_timer),
            Instruction::SetDelay { x } => MachineState { delay_timer: self.reg(x), ..self },
            Instruction::SetSound { x } => MachineState { sound_timer: self.reg(x), ..self },
            _ => self,
        }
    }

    /// The state after executing `instruction`, where `random_byte` is the
    /// byte drawn for `Cxkk` (it has no influence on any other instruction).
    /// An unknown instruction changes nothing.
    pub open spec fn execute(self, instruction: Instruction, random_byte: u8) -> MachineState {
        if instruction.is_control_flow() {
            self.control_flow(instruction)
        } else if instruction.is_register_op() {
            self.register_op(instruction, random_byte)
        } else if instruction.is_memory_op() {
            self.memory_op(instruction)
        } else if instruction.is_display_op() {
            self.display_op(instruction)
        } else if instruction.is_input_timer_op() {
            self.input_timer_op(instruction)
        } else {
            self
        }
    }

    /// Whether the next fetch-decode-execute cycle is a fault.
    pub open spec fn cycle_faults(self) -> bool {
        self.faults(decode_spec(self.fetch()))
    }

    /// The state after one fetch-decode-execute cycle: the program counter
    /// moves past the fetched word before that word is executed.
    pub open spec fn cycle(self, random_byte: u8) -> MachineState {
        self.advance().execute(decode_spec(self.fetch()), random_byte)
    }

    /// The state after one 60 Hz tick: each timer moves one step towards zero
    /// and stays there.
    pub open spec fn tick(self) -> MachineState {
        MachineState {
            delay_timer: if self.delay_timer > 0 {
                (self.delay_timer - 1) as u8
            } else {
                0
            },
            sound_timer: if self.sound_timer > 0 {
                (self.sound_timer - 1) as u8
            } else {
                0
            },
            ..self
        }
    }

    /// What the tone generator should do at a tick taken in this state.
    pub open spec fn tone(self) -> AudioCommand {
        if self.sound_timer > 0 {
            AudioCommand::Resume
        } else {
            AudioCommand::Pause
        }
    }

    /// The state after the key numbered `key` goes down (`pressed`) or up.
    /// Numbers above 15 name no key and change nothing.
    pub open spec fn set_key(self, key: u8, pressed: bool) -> MachineState {
        if key < 16 {
            MachineState { keys: self.keys.update(key as int, pressed), ..self }
        } else {
            self
        }
    }

    /// The state with `rom` copied into memory from the program start address.
    pub open spec fn load(self, rom: Seq<u8>) -> MachineState {
        MachineState {
            memory: Seq::new(
                4096,
                |a: int|
                    if PROGRAM_START <= a < PROGRAM_START + rom.len() {
                        rom[a - PROGRAM_START]
                    } else {
                        self.memory[a]
                    },
            ),
            ..self
        }
    }
}

} // verus!
