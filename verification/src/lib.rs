//! Cycle-approximate core of a Commodore PET 4032 emulator.
//!
//! The crate models the MOS 6502 processor (registers, stack, interrupts,
//! addressing modes and cycle accounting), the PET system bus with its
//! memory-mapped peripherals, and the peripheral chips themselves: a 6522
//! interface adapter with interval timers, a 6821 keyboard scanner with the
//! 60 Hz frame interrupt, and a minimal 6845 CRT controller.

pub mod bus;
pub mod cpu;
pub mod crtc6845;
pub mod file_dialog;
pub mod opcodes;
pub mod petbus;
pub mod pia6821;
pub mod rom;
pub mod screen;
pub mod status;
pub mod via6522;
