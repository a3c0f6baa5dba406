//! A cycle-counting functional emulator of the Intel 8080.
//!
//! `Cpu::next` executes one instruction and returns the machine cycles it took. Its
//! contract is the model in `machine`: the state that each opcode leads to, with the
//! arithmetic of `alu`. The module `laws` proves facts that hold of every step.
pub mod alu;
pub mod bit;
pub mod cpu;
pub mod device;
pub mod laws;
pub mod machine;
pub mod memory;
pub mod register;

pub use cpu::Cpu;
pub use device::Device;
pub use memory::{Linear, Memory};
pub use register::{Flag, Register};
