//! A CHIP-8 interpreter core: machine state, instruction decoding and the
//! effect of every instruction, each stated as a contract over a mathematical
//! model of the machine.

pub mod consts;
pub mod emulator;
pub mod engine;
pub mod instruction;
pub mod laws;
pub mod machine;
mod random;
pub mod semantics;
