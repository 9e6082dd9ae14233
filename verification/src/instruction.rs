//! Instruction words and their decoded form.

use vstd::prelude::*;

verus! {

/// One decoded instruction.
///
/// `x` and `y` are register numbers (0 to 15), `byte` an 8-bit immediate,
/// `addr` a 12-bit address and `rows` a sprite height (0 to 15).
#[derive(Clone, Copy, Debug, PartialEq, Eq, Structural)]
pub enum Instruction {
    /// `00E0`: turn every pixel off and mark the display dirty.
    ClearScreen,
    /// `00EE`: return from a subroutine.
    Return,
    /// `1nnn`: jump to `addr`.
    Jump { addr: u16 },
    /// `2nnn`: call the subroutine at `addr`.
    Call { addr: u16 },
    /// `3xkk`: skip the next instruction if `Vx == byte`.
    SkipEqImm { x: u8, byte: u8 },
    /// `4xkk`: skip the next instruction if `Vx != byte`.
    SkipNeImm { x: u8, byte: u8 },
    /// `5xy0`: skip the next instruction if `Vx == Vy`.
    SkipEqReg { x: u8, y: u8 },
    /// `6xkk`: `Vx = byte`.
    LoadImm { x: u8, byte: u8 },
    /// `7xkk`: `Vx = Vx + byte`, wrapping, flag register untouched.
    AddImm { x: u8, byte: u8 },
    /// `8xy0`: `Vx = Vy`.
    Copy { x: u8, y: u8 },
    /// `8xy1`: `Vx = Vx | Vy`, flag register cleared.
    Or { x: u8, y: u8 },
    /// `8xy2`: `Vx = Vx & Vy`, flag register cleared.
    And { x: u8, y: u8 },
    /// `8xy3`: `Vx = Vx ^ Vy`, flag register cleared.
    Xor { x: u8, y: u8 },
    /// `8xy4`: `Vx = Vx + Vy`, wrapping, flag = carry.
    Add { x: u8, y: u8 },
    /// `8xy5`: `Vx = Vx - Vy`, wrapping, flag = no borrow.
    Sub { x: u8, y: u8 },
    /// `8xy6`: `Vx = Vy >> 1`, flag = lowest bit of the old `Vx`.
    ShiftRight { x: u8, y: u8 },
    /// `8xy7`: `Vx = Vy - Vx`, wrapping, flag = no borrow.
    SubReverse { x: u8, y: u8 },
    /// `8xyE`: `Vx = Vy << 1`, flag = highest bit of the old `Vx`.
    ShiftLeft { x: u8, y: u8 },
    /// `9xy0`: skip the next instruction if `Vx != Vy`.
    SkipNeReg { x: u8, y: u8 },
    /// `Annn`: `I = addr`.
    LoadIndex { addr: u16 },
    /// `Bnnn`: jump to `addr + V0`.
    JumpOffset { addr: u16 },
    /// `Cxkk`: `Vx = random & mask`.
    Random { x: u8, mask: u8 },
    /// `Dxyn`: draw a sprite of `rows` rows at `(Vx, Vy)` and mark the display
    /// dirty.
    Draw { x: u8, y: u8, rows: u8 },
    /// `Ex9E`: skip the next instruction if the key numbered `Vx` is down.
    SkipKeyPressed { x: u8 },
    /// `ExA1`: skip the next instruction if the key numbered `Vx` is up.
    SkipKeyNotPressed { x: u8 },
    /// `Fx07`: `Vx = delay timer`.
    ReadDelay { x: u8 },
    /// `Fx0A`: wait for a key to be pressed and released, then `Vx = key`.
    WaitKey { x: u8 },
    /// `Fx15`: `delay timer = Vx`.
    SetDelay { x: u8 },
    /// `Fx18`: `sound timer = Vx`.
    SetSound { x: u8 },
    /// `Fx1E`: `I = I + Vx`, wrapping at 16 bits.
    AddIndex { x: u8 },
    /// `Fx29`: `I` = address of the glyph for digit `Vx`.
    FontAddress { x: u8 },
    /// `Fx33`: store the three decimal digits of `Vx` at `I`, `I+1`, `I+2`.
    StoreBcd { x: u8 },
    /// `Fx55`: store `V0..=Vx` at `I`, then `I = I + x + 1`.
    StoreRegisters { x: u8 },
    /// `Fx65`: load `V0..=Vx` from `I`, then `I = I + x + 1`.
    LoadRegisters { x: u8 },
    /// Any other word: executes as a no-op.
    Unknown,
}

/// The four 4-bit fields of an instruction word, most significant first.
pub open spec fn nibbles(word: u16) -> (u8, u8, u8, u8) {
    (
        (word / 0x1000) as u8,
        ((word / 0x100) % 0x10) as u8,
        ((word / 0x10) % 0x10) as u8,
        (word % 0x10) as u8,
    )
}

/// The low 12 bits of an instruction word.
pub open spec fn address_field(word: u16) -> u16 {
    word % 0x1000
}

/// The low 8 bits of an instruction word.
pub open spec fn byte_field(word: u16) -> u8 {
    (word % 0x100) as u8
}

/// The instruction that a word encodes.
pub open spec fn decode_spec(word: u16) -> Instruction {
    let (family, x, y, n) = nibbles(word);
    let addr = address_field(word);
    let byte = byte_field(word);
    if word == 0x00E0 {
        Instruction::ClearScreen
    } else if word == 0x00EE {
        Instruction::Return
    } else if family == 0x1 {
        Instruction::Jump { addr }
    } else if family == 0x2 {
        Instruction::Call { addr }
    } else if family == 0x3 {
        Instruction::SkipEqImm { x, byte }
    } else if family == 0x4 {
        Instruction::SkipNeImm { x, byte }
    } else if family == 0x5 && n == 0 {
        Instruction::SkipEqReg { x, y }
    } else if family == 0x6 {
        Instruction::LoadImm { x, byte }
    } else if family == 0x7 {
        Instruction::AddImm { x, byte }
    } else if family == 0x8 && n == 0x0 {
        Instruction::Copy { x, y }
    } else if family == 0x8 && n == 0x1 {
        Instruction::Or { x, y }
    } else if family == 0x8 && n == 0x2 {
        Instruction::And { x, y }
    } else if family == 0x8 && n == 0x3 {
        Instruction::Xor { x, y }
    } else if family == 0x8 && n == 0x4 {
        Instruction::Add { x, y }
    } else if family == 0x8 && n == 0x5 {
        Instruction::Sub { x, y }
    } else if family == 0x8 && n == 0x6 {
        Instruction::ShiftRight { x, y }
    } else if family == 0x8 && n == 0x7 {
        Instruction::SubReverse { x, y }
    } else if family == 0x8 && n == 0xE {
        Instruction::ShiftLeft { x, y }
    } else if family == 0x9 && n == 0 {
        Instruction::SkipNeReg { x, y }
    } else if family == 0xA {
        Instruction::LoadIndex { addr }
    } else if family == 0xB {
        Instruction::JumpOffset { addr }
    } else if family == 0xC {
        Instruction::Random { x, mask: byte }
    } else if family == 0xD {
        Instruction::Draw { x, y, rows: n }
    } else if family == 0xE && byte == 0x9E {
        Instruction::SkipKeyPressed { x }
    } else if family == 0xE && byte == 0xA1 {
        Instruction::SkipKeyNotPressed { x }
    } else if family == 0xF && byte == 0x07 {
        Instruction::ReadDelay { x }
    } else if family == 0xF && byte == 0x0A {
        Instruction::WaitKey { x }
    } else if family == 0xF && byte == 0x15 {
        Instruction::SetDelay { x }
    } else if family == 0xF && byte == 0x18 {
        Instruction::SetSound { x }
    } else if family == 0xF && byte == 0x1E {
        Instruction::AddIndex { x }
    } else if family == 0xF && byte == 0x29 {
        Instruction::FontAddress { x }
    } else if family == 0xF && byte == 0x33 {
        Instruction::StoreBcd { x }
    } else if family == 0xF && byte == 0x55 {
        Instruction::StoreRegisters { x }
    } else if family == 0xF && byte == 0x65 {
        Instruction::LoadRegisters { x }
    } else {
        Instruction::Unknown
    }
}

/// The word with family nibble `family`, register nibble `x` and low byte
/// `byte`.
pub open spec fn word_xkk(family: u8, x: u8, byte: u8) -> u16 {
    (family * 0x1000 + x * 0x100 + byte) as u16
}

/// The word with the four nibbles `family`, `x`, `y` and `n`.
pub open spec fn word_xyn(family: u8, x: u8, y: u8, n: u8) -> u16 {
    (family * 0x1000 + x * 0x100 + y * 0x10 + n) as u16
}

/// The word with family nibble `family` and address `addr`.
pub open spec fn word_nnn(family: u8, addr: u16) -> u16 {
    (family * 0x1000 + addr) as u16
}

impl Instruction {
    /// The word that encodes this instruction. `Unknown` stands for many
    /// words; zero is taken for it.
    pub open spec fn encode(self) -> u16 {
        match self {
            Instruction::ClearScreen => 0x00E0,
            Instruction::Return => 0x00EE,
            Instruction::Jump { addr } => word_nnn(0x1, addr),
            Instruction::Call { addr } => word_nnn(0x2, addr),
            Instruction::SkipEqImm { x, byte } => word_xkk(0x3, x, byte),
            Instruction::SkipNeImm { x, byte } => word_xkk(0x4, x, byte),
            Instruction::SkipEqReg { x, y } => word_xyn(0x5, x, y, 0x0),
            Instruction::LoadImm { x, byte } => word_xkk(0x6, x, byte),
            Instruction::AddImm { x, byte } => word_xkk(0x7, x, byte),
            Instruction::Copy { x, y } => word_xyn(0x8, x, y, 0x0),
            Instruction::Or { x, y } => word_xyn(0x8, x, y, 0x1),
            Instruction::And { x, y } => word_xyn(0x8, x, y, 0x2),
            Instruction::Xor { x, y } => word_xyn(0x8, x, y, 0x3),
            Instruction::Add { x, y } => word_xyn(0x8, x, y, 0x4),
            Instruction::Sub { x, y } => word_xyn(0x8, x, y, 0x5),
            Instruction::ShiftRight { x, y } => word_xyn(0x8, x, y, 0x6),
            Instruction::SubReverse { x, y } => word_xyn(0x8, x, y, 0x7),
            Instruction::ShiftLeft { x, y } => word_xyn(0x8, x, y, 0xE),
            Instruction::SkipNeReg { x, y } => word_xyn(0x9, x, y, 0x0),
            Instruction::LoadIndex { addr } => word_nnn(0xA, addr),
            Instruction::JumpOffset { addr } => word_nnn(0xB, addr),
            Instruction::Random { x, mask } => word_xkk(0xC, x, mask),
            Instruction::Draw { x, y, rows } => word_xyn(0xD, x, y, rows),
            Instruction::SkipKeyPressed { x } => word_xkk(0xE, x, 0x9E),
            Instruction::SkipKeyNotPressed { x } => word_xkk(0xE, x, 0xA1),
            Instruction::ReadDelay { x } => word_xkk(0xF, x, 0x07),
            Instruction::WaitKey { x } => word_xkk(0xF, x, 0x0A),
            Instruction::SetDelay { x } => word_xkk(0xF, x, 0x15),
            Instruction::SetSound { x } => word_xkk(0xF, x, 0x18),
            Instruction::AddIndex { x } => word_xkk(0xF, x, 0x1E),
            Instruction::FontAddress { x } => word_xkk(0xF, x, 0x29),
            Instruction::StoreBcd { x } => word_xkk(0xF, x, 0x33),
            Instruction::StoreRegisters { x } => word_xkk(0xF, x, 0x55),
            Instruction::LoadRegisters { x } => word_xkk(0xF, x, 0x65),
            Instruction::Unknown => 0x0000,
        }
    }

    /// Whether every register number in the instruction is below 16, every
    /// address below 4096 and the sprite height below 16. Every decoded
    /// instruction is.
    pub open spec fn in_range(self) -> bool {
        match self {
            Instruction::ClearScreen | Instruction::Return | Instruction::Unknown => true,
            Instruction::Jump { addr }
            | Instruction::Call { addr }
            | Instruction::LoadIndex { addr }
            | Instruction::JumpOffset { addr } => addr < 0x1000,
            Instruction::SkipEqImm { x, .. }
            | Instruction::SkipNeImm { x, .. }
            | Instruction::LoadImm { x, .. }
            | Instruction::AddImm { x, .. }
            | Instruction::Random { x, .. }
            | Instruction::SkipKeyPressed { x }
            | Instruction::SkipKeyNotPressed { x }
            | Instruction::ReadDelay { x }
            | Instruction::WaitKey { x }
            | Instruction::SetDelay { x }
            | Instruction::SetSound { x }
            | Instruction::AddIndex { x }
            | Instruction::FontAddress { x }
            | Instruction::StoreBcd { x }
            | Instruction::StoreRegisters { x }
            | Instruction::LoadRegisters { x } => x < 16,
            Instruction::SkipEqReg { x, y }
            | Instruction::Copy { x, y }
            | Instruction::Or { x, y }
            | Instruction::And { x, y }
            | Instruction::Xor { x, y }
            | Instruction::Add { x, y }
            | Instruction::Sub { x, y }
            | Instruction::ShiftRight { x, y }
            | Instruction::SubReverse { x, y }
            | Instruction::ShiftLeft { x, y }
            | Instruction::SkipNeReg { x, y } => x < 16 && y < 16,
            Instruction::Draw { x, y, rows } => x < 16 && y < 16 && rows < 16,
        }
    }
    /// Whether this is a control-flow instruction: return, jump, call or one of the
    /// register-comparison skips.
    pub open spec fn is_control_flow(self) -> bool {
        self is Return
            || self is Jump
            || self is Call
            || self is SkipEqImm
            || self is SkipNeImm
            || self is SkipEqReg
            || self is SkipNeReg
            || self is JumpOffset
    }

    /// Whether this instruction only computes a register value: loads, arithmetic
    /// and logic, and the random draw.
    pub open spec fn is_register_op(self) -> bool {
        self is LoadImm
            || self is AddImm
            || self is Copy
            || self is Or
            || self is And
            || self is Xor
            || self is Add
            || self is Sub
            || self is ShiftRight
            || self is SubReverse
            || self is ShiftLeft
            || self is Random
    }

    /// Whether this instruction sets the index register or moves data between
    /// registers and memory.
    pub open spec fn is_memory_op(self) -> bool {
        self is LoadIndex
            || self is AddIndex
            || self is FontAddress
            || self is StoreBcd
            || self is StoreRegisters
            || self is LoadRegisters
    }

    /// Whether this is a display instruction: clear or draw.
    pub open spec fn is_display_op(self) -> bool {
        self is ClearScreen || self is Draw
    }

    /// Whether this instruction works on the keypad or the timers.
    pub open spec fn is_input_timer_op(self) -> bool {
        self is SkipKeyPressed
            || self is SkipKeyNotPressed
            || self is WaitKey
            || self is ReadDelay
            || self is SetDelay
            || self is SetSound
    }
}

/// Every decoded instruction has its operands in range.
pub proof fn lemma_decode_in_range(word: u16)
    ensures
        decode_spec(word).in_range(),
{
}

/// Decoding undoes encoding: the word for an instruction whose operands are
/// in range decodes to that instruction.
pub proof fn law_decode_inverts_encode(instruction: Instruction)
    requires
        instruction.in_range(),
    ensures
        decode_spec(instruction.encode()) == instruction,
{
    match instruction {
        Instruction::ClearScreen | Instruction::Return | Instruction::Unknown => {},
        Instruction::Jump { addr } => lemma_fields_nnn(0x1, addr),
        Instruction::Call { addr } => lemma_fields_nnn(0x2, addr),
        Instruction::LoadIndex { addr } => lemma_fields_nnn(0xA, addr),
        Instruction::JumpOffset { addr } => lemma_fields_nnn(0xB, addr),
        Instruction::SkipEqImm { x, byte } => lemma_fields_xkk(0x3, x, byte),
        Instruction::SkipNeImm { x, byte } => lemma_fields_xkk(0x4, x, byte),
        Instruction::LoadImm { x, byte } => lemma_fields_xkk(0x6, x, byte),
        Instruction::AddImm { x, byte } => lemma_fields_xkk(0x7, x, byte),
        Instruction::Random { x, mask } => lemma_fields_xkk(0xC, x, mask),
        Instruction::SkipKeyPressed { x } => lemma_fields_xkk(0xE, x, 0x9E),
        Instruction::SkipKeyNotPressed { x } => lemma_fields_xkk(0xE, x, 0xA1),
        Instruction::ReadDelay { x } => lemma_fields_xkk(0xF, x, 0x07),
        Instruction::WaitKey { x } => lemma_fields_xkk(0xF, x, 0x0A),
        Instruction::SetDelay { x } => lemma_fields_xkk(0xF, x, 0x15),
        Instruction::SetSound { x } => lemma_fields_xkk(0xF, x, 0x18),
        Instruction::AddIndex { x } => lemma_fields_xkk(0xF, x, 0x1E),
        Instruction::FontAddress { x } => lemma_fields_xkk(0xF, x, 0x29),
        Instruction::StoreBcd { x } => lemma_fields_xkk(0xF, x, 0x33),
        Instruction::StoreRegisters { x } => lemma_fields_xkk(0xF, x, 0x55),
        Instruction::LoadRegisters { x } => lemma_fields_xkk(0xF, x, 0x65),
        Instruction::SkipEqReg { x, y } => lemma_fields_xyn(0x5, x, y, 0x0),
        Instruction::Copy { x, y } => lemma_fields_xyn(0x8, x, y, 0x0),
        Instruction::Or { x, y } => lemma_fields_xyn(0x8, x, y, 0x1),
        Instruction::And { x, y } => lemma_fields_xyn(0x8, x, y, 0x2),
        Instruction::Xor { x, y } => lemma_fields_xyn(0x8, x, y, 0x3),
        Instruction::Add { x, y } => lemma_fields_xyn(0x8, x, y, 0x4),
        Instruction::Sub { x, y } => lemma_fields_xyn(0x8, x, y, 0x5),
        Instruction::ShiftRight { x, y } => lemma_fields_xyn(0x8, x, y, 0x6),
        Instruction::SubReverse { x, y } => lemma_fields_xyn(0x8, x, y, 0x7),
        Instruction::ShiftLeft { x, y } => lemma_fields_xyn(0x8, x, y, 0xE),
        Instruction::SkipNeReg { x, y } => lemma_fields_xyn(0x9, x, y, 0x0),
        Instruction::Draw { x, y, rows } => lemma_fields_xyn(0xD, x, y, rows),
    }
}

/// The fields of a word put together from four nibbles are those nibbles.
proof fn lemma_fields_xyn(family: u8, x: u8, y: u8, n: u8)
    requires
        family < 16,
        x < 16,
        y < 16,
        n < 16,
    ensures
        nibbles(word_xyn(family, x, y, n)) == (family, x, y, n),
        byte_field(word_xyn(family, x, y, n)) == y * 0x10 + n,
        word_xyn(family, x, y, n) == family * 0x1000 + x * 0x100 + y * 0x10 + n,
{
    let word = word_xyn(family, x, y, n);
    assert(word / 0x1000 == family && (word / 0x100) % 0x10 == x && (word / 0x10) % 0x10 == y
        && word % 0x10 == n && word % 0x100 == y * 0x10 + n) by (bit_vector)
        requires
            word == family * 0x1000 + x * 0x100 + y * 0x10 + n,
            family < 16,
            x < 16,
            y < 16,
            n < 16,
    ;
}

/// The fields of a word put together from two nibbles and a byte are those
/// nibbles and that byte.
proof fn lemma_fields_xkk(family: u8, x: u8, byte: u8)
    requires
        family < 16,
        x < 16,
    ensures
        nibbles(word_xkk(family, x, byte)) == (
            family,
            x,
            (byte / 0x10) as u8,
            (byte % 0x10) as u8,
        ),
        byte_field(word_xkk(family, x, byte)) == byte,
        word_xkk(family, x, byte) == family * 0x1000 + x * 0x100 + byte,
{
    let word = word_xkk(family, x, byte);
    assert(word / 0x1000 == family && (word / 0x100) % 0x10 == x && (word / 0x10) % 0x10 == byte
        / 0x10 && word % 0x10 == byte % 0x10 && word % 0x100 == byte) by (bit_vector)
        requires
            word == family * 0x1000 + x * 0x100 + byte,
            family < 16,
            x < 16,
    ;
}

/// The fields of a word put together from a nibble and an address are that
/// nibble and that address.
proof fn lemma_fields_nnn(family: u8, addr: u16)
    requires
        family < 16,
        addr < 0x1000,
    ensures
        nibbles(word_nnn(family, addr)).0 == family,
        address_field(word_nnn(family, addr)) == addr,
        word_nnn(family, addr) == family * 0x1000 + addr,
{
    let word = word_nnn(family, addr);
    assert(word / 0x1000 == family && word % 0x1000 == addr) by (bit_vector)
        requires
            word == family * 0x1000 + addr,
            family < 16,
            addr < 0x1000,
    ;
}

/// Splits an instruction word into its fields and names the instruction.
pub fn decode(word: u16) -> (instruction: Instruction)
    ensures
        instruction == decode_spec(word),
{
    let nibble1: u16 = (word & 0xF000) >> 12;
    let nibble2: u16 = (word & 0x0F00) >> 8;
    let nibble3: u16 = (word & 0x00F0) >> 4;
    let nibble4: u16 = word & 0x000F;
    let addr: u16 = word & 0x0FFF;
    let low: u16 = word & 0x00FF;
    proof {
        assert((word & 0xF000) >> 12 == word / 0x1000) by (bit_vector);
        assert((word & 0x0F00) >> 8 == (word / 0x100) % 0x10) by (bit_vector);
        assert((word & 0x00F0) >> 4 == (word / 0x10) % 0x10) by (bit_vector);
        assert(word & 0x000F == word % 0x10) by (bit_vector);
        assert(word & 0x0FFF == word % 0x1000) by (bit_vector);
        assert(word & 0x00FF == word % 0x100) by (bit_vector);
    }
    let x: u8 = nibble2 as u8;
    let y: u8 = nibble3 as u8;
    let n: u8 = nibble4 as u8;
    let byte: u8 = low as u8;
    match (nibble1, nibble2, nibble3, nibble4) {
        (0, 0, 0xE, 0) => Instruction::ClearScreen,
        (0, 0, 0xE, 0xE) => Instruction::Return,
        (1, _, _, _) => Instruction::Jump { addr },
        (2, _, _, _) => Instruction::Call { addr },
        (3, _, _, _) => Instruction::SkipEqImm { x, byte },
        (4, _, _, _) => Instruction::SkipNeImm { x, byte },
        (5, _, _, 0) => Instruction::SkipEqReg { x, y },
        (6, _, _, _) => Instruction::LoadImm { x, byte },
        (7, _, _, _) => Instruction::AddImm { x, byte },
        (8, _, _, 0) => Instruction::Copy { x, y },
        (8, _, _, 1) => Instruction::Or { x, y },
        (8, _, _, 2) => Instruction::And { x, y },
        (8, _, _, 3) => Instruction::Xor { x, y },
        (8, _, _, 4) => Instruction::Add { x, y },
        (8, _, _, 5) => Instruction::Sub { x, y },
        (8, _, _, 6) => Instruction::ShiftRight { x, y },
        (8, _, _, 7) => Instruction::SubReverse { x, y },
        (8, _, _, 0xE) => Instruction::ShiftLeft { x, y },
        (9, _, _, 0) => Instruction::SkipNeReg { x, y },
        (0xA, _, _, _) => Instruction::LoadIndex { addr },
        (0xB, _, _, _) => Instruction::JumpOffset { addr },
        (0xC, _, _, _) => Instruction::Random { x, mask: byte },
        (0xD, _, _, _) => Instruction::Draw { x, y, rows: n },
        (0xE, _, 0x9, 0xE) => Instruction::SkipKeyPressed { x },
        (0xE, _, 0xA, 0x1) => Instruction::SkipKeyNotPressed { x },
        (0xF, _, 0x0, 0x7) => Instruction::ReadDelay { x },
        (0xF, _, 0x0, 0xA) => Instruction::WaitKey { x },
        (0xF, _, 0x1, 0x5) => Instruction::SetDelay { x },
        (0xF, _, 0x1, 0x8) => Instruction::SetSound { x },
        (0xF, _, 0x1, 0xE) => Instruction::AddIndex { x },
        (0xF, _, 0x2, 0x9) => Instruction::FontAddress { x },
        (0xF, _, 0x3, 0x3) => Instruction::StoreBcd { x },
        (0xF, _, 0x5, 0x5) => Instruction::StoreRegisters { x },
        (0xF, _, 0x6, 0x5) => Instruction::LoadRegisters { x },
        _ => Instruction::Unknown,
    }
}

} // verus!
