//! A CHIP-8 virtual machine core: instruction decoder, machine state, executor and
//! timers, with every operation specified over a mathematical model of the machine.

pub mod clock;
pub mod constants;
pub mod framebuffer;
pub mod instruction_parser;
pub mod keypad;
pub mod laws;
pub mod machine;
pub mod virtual_computer;
