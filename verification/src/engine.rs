//! The execution engine: fetch, decode and dispatch.
//!
//! Everything here works on the machine through the operations that
//! [`Emulator`] offers, and is proved from their contracts alone.

use vstd::prelude::*;
use crate::consts::{FONTSET_START_ADDRESS, GLYPH_SIZE};
use crate::emulator::Emulator;
use crate::instruction::{decode, decode_spec, lemma_decode_in_range, Instruction};
use crate::laws::law_execute_preserves_well_formed;
use crate::machine::{wrap16, wrap8};
use crate::random::random_byte_in;

verus! {

/// The sum of two bytes modulo 256, and whether the true sum needs a ninth
/// bit.
fn overflowing_add(a: u8, b: u8) -> (result: (u8, bool))
    ensures
        result.0 == wrap8(a + b),
        result.1 == (a + b > 0xFF),
{
    (a.wrapping_add(b), a > 0xFF - b)
}

/// The difference of two bytes modulo 256, and whether the true difference
/// is negative.
fn overflowing_sub(a: u8, b: u8) -> (result: (u8, bool))
    ensures
        result.0 == wrap8(a - b),
        result.1 == (a < b),
{
    (a.wrapping_sub(b), a < b)
}

/// A 16-bit word plus a byte, modulo 65536.
fn wrapping_add_byte(word: u16, byte: u8) -> (sum: u16)
    ensures
        sum == wrap16(word + byte),
{
    word.wrapping_add(byte as u16)
}

impl Emulator {
    /// One fetch-decode-execute cycle. The byte for `Cxkk`, when that is the
    /// instruction fetched, is drawn at random from 1 to 255.
    pub fn execution_cycle(&mut self)
        requires
            !old(self)@.cycle_faults(),
        ensures
            exists|random_byte: u8|
                random_byte >= 1 && final(self)@ == #[trigger] old(self)@.cycle(random_byte),
            decode_spec(old(self)@.fetch()) !is Random ==> forall|random_byte: u8|
                final(self)@ == #[trigger] old(self)@.cycle(random_byte),
            old(self)@.well_formed() ==> final(self)@.well_formed(),
    {
        let instruction: u16 = self.fetch();
        self.skip_next();
        let ghost fetched = self@;
        self.execute_instruction(instruction);
        proof {
            let decoded = decode_spec(instruction);
            let drawn = choose|random_byte: u8|
                random_byte >= 1 && self@ == #[trigger] fetched.execute(decoded, random_byte);
            assert(self@ == old(self)@.cycle(drawn));
        }
    }

    /// One fetch-decode-execute cycle, with `random_byte` standing for the
    /// byte that `Cxkk` draws.
    pub fn execution_cycle_with(&mut self, random_byte: u8)
        requires
            !old(self)@.cycle_faults(),
        ensures
            final(self)@ == old(self)@.cycle(random_byte),
            old(self)@.well_formed() ==> final(self)@.well_formed(),
    {
        let instruction: u16 = self.fetch();
        self.skip_next();
        self.execute_instruction_with(instruction, random_byte);
    }

    /// Executes one instruction word. The byte for `Cxkk` is drawn at random
    /// from 1 to 255.
    ///
    /// The caller has already moved the program counter past the word.
    pub fn execute_instruction(&mut self, instruction: u16)
        requires
            !old(self)@.faults(decode_spec(instruction)),
        ensures
            exists|random_byte: u8|
                random_byte >= 1 && final(self)@ == #[trigger] old(self)@.execute(
                    decode_spec(instruction),
                    random_byte,
                ),
            decode_spec(instruction) !is Random ==> forall|random_byte: u8|
                final(self)@ == #[trigger] old(self)@.execute(decode_spec(instruction), random_byte),
            old(self)@.well_formed() ==> final(self)@.well_formed(),
    {
        proof {
            lemma_decode_in_range(instruction);
        }
        let decoded = decode(instruction);
        let random_byte: u8 = match decoded {
            Instruction::Random { .. } => random_byte_in(1, 255),
            _ => 1,
        };
        self.apply(decoded, random_byte);
        proof {
            if old(self)@.well_formed() {
                law_execute_preserves_well_formed(old(self)@, decoded, random_byte);
            }
        }
    }

    /// Executes one instruction word, with `random_byte` standing for the
    /// byte that `Cxkk` draws.
    ///
    /// The caller has already moved the program counter past the word.
    pub fn execute_instruction_with(&mut self, instruction: u16, random_byte: u8)
        requires
            !old(self)@.faults(decode_spec(instruction)),
        ensures
            final(self)@ == old(self)@.execute(decode_spec(instruction), random_byte),
            old(self)@.well_formed() ==> final(self)@.well_formed(),
    {
        proof {
            lemma_decode_in_range(instruction);
            if old(self)@.well_formed() {
                law_execute_preserves_well_formed(
                    old(self)@,
                    decode_spec(instruction),
                    random_byte,
                );
            }
        }
        self.apply(decode(instruction), random_byte);
    }

    /// Executes one decoded instruction.
    fn apply(&mut self, instruction: Instruction, random_byte: u8)
        requires
            instruction.in_range(),
            !old(self)@.faults(instruction),
        ensures
            final(self)@ == old(self)@.execute(instruction, random_byte),
    {
        match instruction {
            Instruction::Return
            | Instruction::Jump { .. }
            | Instruction::Call { .. }
            | Instruction::SkipEqImm { .. }
            | Instruction::SkipNeImm { .. }
            | Instruction::SkipEqReg { .. }
            | Instruction::SkipNeReg { .. }
            | Instruction::JumpOffset { .. } => self.run_control_flow(instruction),
            Instruction::LoadImm { .. }
            | Instruction::AddImm { .. }
            | Instruction::Copy { .. }
            | Instruction::Or { .. }
            | Instruction::And { .. }
            | Instruction::Xor { .. }
            | Instruction::Add { .. }
            | Instruction::Sub { .. }
            | Instruction::ShiftRight { .. }
            | Instruction::SubReverse { .. }
            | Instruction::ShiftLeft { .. }
            | Instruction::Random { .. } => self.run_register_op(instruction, random_byte),
            Instruction::LoadIndex { .. }
            | Instruction::AddIndex { .. }
            | Instruction::FontAddress { .. }
            | Instruction::StoreBcd { .. }
            | Instruction::StoreRegisters { .. }
            | Instruction::LoadRegisters { .. } => self.run_memory_op(instruction),
            Instruction::ClearScreen | Instruction::Draw { .. } => self.run_display_op(instruction),
            Instruction::SkipKeyPressed { .. }
            | Instruction::SkipKeyNotPressed { .. }
            | Instruction::WaitKey { .. }
            | Instruction::ReadDelay { .. }
            | Instruction::SetDelay { .. }
            | Instruction::SetSound { .. } => self.run_input_timer_op(instruction),
            Instruction::Unknown => {},
        }
    }

    /// Control flow: return, jump, call and the register-comparison skips.
    fn run_control_flow(&mut self, instruction: Instruction)
        requires
            instruction.in_range(),
            instruction.is_control_flow(),
            !old(self)@.faults(instruction),
        ensures
            final(self)@ == old(self)@.control_flow(instruction),
    {
        match instruction {
            Instruction::Return => {
                self.return_from_subroutine();
            },
            Instruction::Jump { addr } => {
                self.jump_to(addr);
            },
            Instruction::Call { addr } => {
                self.call_subroutine(addr);
            },
            Instruction::SkipEqImm { x, byte } => {
                if self.register(x) == byte {
                    self.skip_next();
                }
            },
            Instruction::SkipNeImm { x, byte } => {
                if self.register(x) != byte {
                    self.skip_next();
                }
            },
            Instruction::SkipEqReg { x, y } => {
                if self.register(x) == self.register(y) {
                    self.skip_next();
                }
            },
            Instruction::SkipNeReg { x, y } => {
                if self.register(x) != self.register(y) {
                    self.skip_next();
                }
            },
            Instruction::JumpOffset { addr } => {
                self.jump_to(addr + self.register(0) as u16);
            },
            _ => {},
        }
    }

    /// Register loads, arithmetic and logic, and the random draw.
    ///
    /// The destination register is written first and the flag register
    /// second, so the flag wins when both are the same register.
    fn run_register_op(&mut self, instruction: Instruction, random_byte: u8)
        requires
            instruction.in_range(),
            instruction.is_register_op(),
        ensures
            final(self)@ == old(self)@.register_op(instruction, random_byte),
    {
        match instruction {
            Instruction::LoadImm { x, byte } => {
                self.set_register(x, byte);
            },
            Instruction::AddImm { x, byte } => {
                let (sum, _) = overflowing_add(self.register(x), byte);
                self.set_register(x, sum);
            },
            Instruction::Copy { x, y } => {
                self.set_register(x, self.register(y));
            },
            Instruction::Or { x, y } => {
                self.set_register(x, self.register(x) | self.register(y));
                self.set_register(0xF, 0);
            },
            Instruction::And { x, y } => {
                self.set_register(x, self.register(x) & self.register(y));
                self.set_register(0xF, 0);
            },
            Instruction::Xor { x, y } => {
                self.set_register(x, self.register(x) ^ self.register(y));
                self.set_register(0xF, 0);
            },
            Instruction::Add { x, y } => {
                let (sum, overflow) = overflowing_add(self.register(x), self.register(y));
                self.set_register(x, sum);
                self.set_register(0xF, if overflow {
                    1
                } else {
                    0
                });
            },
            Instruction::Sub { x, y } => {
                let (diff, overflow) = overflowing_sub(self.register(x), self.register(y));
                self.set_register(x, diff);
                self.set_register(0xF, if overflow {
                    0
                } else {
                    1
                });
            },
            Instruction::ShiftRight { x, y } => {
                let vx_value: u8 = self.register(x);
                let vy_value: u8 = self.register(y);
                proof {
                    assert(vy_value >> 1 == vy_value / 2) by (bit_vector);
                    assert(vx_value & 1 == vx_value % 2) by (bit_vector);
                }
                self.set_register(x, vy_value >> 1);
                self.set_register(0xF, vx_value & 1);
            },
            Instruction::SubReverse { x, y } => {
                let (diff, overflow) = overflowing_sub(self.register(y), self.register(x));
                self.set_register(x, diff);
                self.set_register(0xF, if overflow {
                    0
                } else {
                    1
                });
            },
            Instruction::ShiftLeft { x, y } => {
                let vx_value: u8 = self.register(x);
                let vy_value: u8 = self.register(y);
                proof {
                    assert(vy_value << 1 == (vy_value * 2) % 0x100) by (bit_vector);
                    assert((vx_value & 0x80 == 0x80) == (vx_value / 0x80 == 1)) by (bit_vector);
                    assert((vx_value & 0x80 != 0x80) == (vx_value / 0x80 == 0)) by (bit_vector);
                }
                self.set_register(x, vy_value << 1);
                self.set_register(0xF, if (vx_value & 0x80) == 0x80 {
                    1
                } else {
                    0
                });
            },
            Instruction::Random { x, mask } => {
                self.set_register(x, random_byte & mask);
            },
            _ => {},
        }
    }

    /// Index-register updates and transfers between registers and memory.
    fn run_memory_op(&mut self, instruction: Instruction)
        requires
            instruction.in_range(),
            instruction.is_memory_op(),
        ensures
            final(self)@ == old(self)@.memory_op(instruction),
    {
        match instruction {
            Instruction::LoadIndex { addr } => {
                self.set_index_register(addr);
            },
            Instruction::AddIndex { x } => {
                let vx: u8 = self.register(x);
                self.set_index_register(wrapping_add_byte(self.index_register(), vx));
            },
            Instruction::FontAddress { x } => {
                let vx: u8 = self.register(x);
                let sprite_address: usize = FONTSET_START_ADDRESS + (vx as usize * GLYPH_SIZE);
                self.set_index_register(sprite_address as u16);
            },
            Instruction::StoreBcd { x } => {
                self.store_bcd(x as usize);
            },
            Instruction::StoreRegisters { x } => {
                self.store_registers(x as usize);
            },
            Instruction::LoadRegisters { x } => {
                self.load_registers(x as usize);
            },
            _ => {},
        }
    }

    /// Display: clear and draw.
    fn run_display_op(&mut self, instruction: Instruction)
        requires
            instruction.in_range(),
            instruction.is_display_op(),
        ensures
            final(self)@ == old(self)@.display_op(instruction),
    {
        match instruction {
            Instruction::ClearScreen => {
                self.mark_dirty();
                self.clear_display();
            },
            Instruction::Draw { x, y, rows } => {
                self.mark_dirty();
                self.update_sprite(rows as usize, x as usize, y as usize);
            },
            _ => {},
        }
    }

    /// Keypad and timers.
    fn run_input_timer_op(&mut self, instruction: Instruction)
        requires
            instruction.in_range(),
            instruction.is_input_timer_op(),
        ensures
            final(self)@ == old(self)@.input_timer_op(instruction),
    {
        match instruction {
            Instruction::SkipKeyPressed { x } => {
                let vx: u8 = self.register(x);
                if self.is_key_pressed(vx) {
                    self.skip_next();
                }
            },
            Instruction::SkipKeyNotPressed { x } => {
                let vx: u8 = self.register(x);
                if !self.is_key_pressed(vx) {
                    self.skip_next();
                }
            },
            Instruction::WaitKey { x } => {
                self.wait_for_key(x as usize);
            },
            Instruction::ReadDelay { x } => {
                self.set_register(x, self.delay_timer());
            },
            Instruction::SetDelay { x } => {
                self.set_delay_timer(self.register(x));
            },
            Instruction::SetSound { x } => {
                self.set_sound_timer(self.register(x));
            },
            _ => {},
        }
    }
}

} // verus!
