//! The mathematical model of the machine: what a state is, independent of how
//! the interpreter stores it.

use vstd::prelude::*;
use crate::consts::{FONTSET, FONTSET_SIZE, FONTSET_START_ADDRESS, PROGRAM_START};

verus! {

/// A complete machine state as plain mathematical values.
///
/// `display[row][col]` is the pixel in the given row (counted from the top)
/// and column (counted from the left).
pub struct MachineState {
    /// The 4096 bytes of memory.
    pub memory: Seq<u8>,
    /// The sixteen general-purpose registers `V0` to `VF`.
    pub registers: Seq<u8>,
    /// The index register `I`.
    pub index: u16,
    /// The program counter.
    pub pc: u16,
    /// The return addresses of the subroutines being run, oldest first.
    pub stack: Seq<u16>,
    /// The delay timer.
    pub delay_timer: u8,
    /// The sound timer.
    pub sound_timer: u8,
    /// For each of the sixteen keys, whether it is held down.
    pub keys: Seq<bool>,
    /// The key that a key wait has seen go down and now waits to see
    /// released, if there is one.
    pub awaiting_release: Option<u8>,
    /// The framebuffer: 32 rows of 64 pixels.
    pub display: Seq<Seq<bool>>,
    /// Whether a clear or a draw has run since the display was last
    /// presented.
    pub draw_flag: bool,
}

/// Reduces an integer to a byte, modulo 256.
pub open spec fn wrap8(i: int) -> u8 {
    (i % 0x100) as u8
}

/// Reduces an integer to a 16-bit word, modulo 65536.
pub open spec fn wrap16(i: int) -> u16 {
    (i % 0x1_0000) as u16
}

/// A framebuffer with every pixel off.
pub open spec fn blank_display() -> Seq<Seq<bool>> {
    Seq::new(32, |row: int| Seq::new(64, |col: int| false))
}

/// Memory as it is before any program is loaded: the font at its reserved
/// address, zero everywhere else.
pub open spec fn initial_memory() -> Seq<u8> {
    Seq::new(
        4096,
        |a: int|
            if FONTSET_START_ADDRESS <= a < FONTSET_START_ADDRESS + FONTSET_SIZE {
                FONTSET@[a - FONTSET_START_ADDRESS]
            } else {
                0u8
            },
    )
}

/// How many bytes `address` lies above `base`, counting round the end of
/// memory to its start.
pub open spec fn wrapped_distance(base: int, address: int) -> int {
    (address - base) % 4096
}

/// Addresses wrap one to one: among the addresses of memory, the one that
/// lies `offset` bytes above `base`, wrapping at the end of memory, is the
/// only one whose distance from `base` is `offset`.
pub proof fn lemma_wrapped_offset(base: int, address: int, offset: int)
    requires
        0 <= base < 0x1_0000,
        0 <= address < 4096,
        0 <= offset < 4096,
    ensures
        wrapped_distance(base, address) == offset <==> address == (base + offset) % 4096,
{
}

impl MachineState {
    /// Whether memory, registers, keypad and framebuffer have their fixed
    /// sizes.
    pub open spec fn has_fixed_sizes(self) -> bool {
        &&& self.memory.len() == 4096
        &&& self.registers.len() == 16
        &&& self.keys.len() == 16
        &&& self.display.len() == 32
        &&& forall|row: int| 0 <= row < 32 ==> (#[trigger] self.display[row]).len() == 64
    }

    /// The shape every reachable state has: fixed sizes for memory, registers,
    /// keypad and framebuffer, and a latched key that names a real key.
    pub open spec fn well_formed(self) -> bool {
        &&& self.has_fixed_sizes()
        &&& (self.awaiting_release matches Some(k) ==> k < 16)
    }

    /// The state of a machine that has just been switched on.
    pub open spec fn initial() -> MachineState {
        MachineState {
            memory: initial_memory(),
            registers: Seq::new(16, |i: int| 0u8),
            index: 0,
            pc: PROGRAM_START,
            stack: Seq::empty(),
            delay_timer: 0,
            sound_timer: 0,
            keys: Seq::new(16, |i: int| false),
            awaiting_release: None,
            display: blank_display(),
            draw_flag: false,
        }
    }

    /// The byte at `addr`, with addresses past the end of memory wrapping
    /// around to its start.
    pub open spec fn byte_at(self, addr: int) -> u8 {
        self.memory[addr % 4096]
    }

    /// The value of register `x`.
    pub open spec fn reg(self, x: u8) -> u8 {
        self.registers[x as int]
    }

    /// Whether the key numbered `key` is held down. Numbers above 15 name no
    /// key, and no key is never down.
    pub open spec fn key_down(self, key: u8) -> bool {
        key < 16 && self.keys[key as int]
    }

    /// The pixel at column `col` of row `row`.
    pub open spec fn pixel(self, col: int, row: int) -> bool {
        self.display[row][col]
    }

    /// The instruction word at the program counter: two bytes, high byte first.
    pub open spec fn fetch(self) -> u16 {
        (self.byte_at(self.pc as int) * 0x100 + self.byte_at(self.pc + 1)) as u16
    }
}

} // verus!
