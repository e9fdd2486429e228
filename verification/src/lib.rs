//! A cycle-accurate emulator core for the classic 8-bit home console:
//! a 6502-derived CPU, a picture processing unit, a memory bus with
//! cartridge mappers, and a pair of joypad latches.
//!
//! The core is pure state-machine logic: a host feeds it a ROM image and
//! button presses and pulls finished RGB frames out of it.

pub mod bits;
pub mod bus;
pub mod cpu;
pub mod cpu_ops;
pub mod cpu_step;
pub mod cpu_undoc;
pub mod frame;
pub mod joypad;
pub mod laws;
pub mod mapper;
pub mod nes;
pub mod opcodes;
pub mod palette;
pub mod ppu;
pub mod ppu_regs;
pub mod rom;
pub mod trace;

pub use frame::Frame;
pub use joypad::Joypad;
pub use joypad::JoypadButton;
pub use nes::NES;
