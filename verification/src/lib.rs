//! The memory bus, the nametable mirroring and the clock of an 8-bit game
//! console.
//!
//! The console is a CPU, a picture processor and a cartridge around 2 KiB of
//! work RAM, 4 KiB of video memory and two controller ports. This crate is
//! what sits between the three: the bus views through which the CPU and the
//! picture processor reach memory and each other, the mapping of video
//! addresses to video memory under the cartridge's mirroring mode, and the
//! clock that steps the picture processor on every tick and the CPU on every
//! third. The three themselves come from outside, as implementations of
//! [`Cartridge`], [`Cpu`] and [`Ppu`].
//!
//! Nothing here assumes more of the three than the signatures of their
//! methods. A contract that involves a call of one of them names the call
//! with `call_ensures`, so that it holds whatever the part does, and says
//! of a part with a contract of its own what that contract says.

pub mod board;
pub mod bus;
pub mod cartridge;
pub mod clock;
pub mod controller;
pub mod cpu;
pub mod emulator;
pub mod memory;
pub mod mirroring;
pub mod ppu;

pub use board::{Board, Interrupt};
pub use cartridge::Cartridge;
pub use cpu::Cpu;
pub use emulator::Emulator;
pub use memory::RAM_SIZE;
pub use ppu::Ppu;
