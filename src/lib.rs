//! A CHIP-8 virtual machine: machine state, instruction decoder, opcode
//! semantics, timers and the per-frame stepper, each stated over a
//! mathematical model and verified against it.
pub mod opcode;
pub mod instruction;
pub mod machine;
pub mod chip8;
pub mod emulator;
pub mod laws;
pub mod overview;
