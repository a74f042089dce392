//! The peripheral register page of a handheld console (interrupts, joypad,
//! picture-processing registers and sprite attribute memory) and the execution
//! controller that an interactive debugger drives.

pub mod bits;
pub mod command;
pub mod emulator;
pub mod gb;
pub mod interrupt;
pub mod io;
pub mod joypad;
pub mod video;
