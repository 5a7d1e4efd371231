//! The cartridge as the buses and the console use it.

use vstd::prelude::*;
use crate::mirroring::Mirroring;

verus! {

/// A cartridge: program memory, character memory, the mirroring mode of
/// video memory, and on some boards a counter of scanlines that raises an
/// interrupt. How addresses reach its banks is the cartridge's own affair.
///
/// No method has a contract here: an implementation promises what it sees
/// fit, and the contracts of this crate pass its promises on.
pub trait Cartridge: Sized {
    /// Why a ROM image was refused.
    type RomParserError;

    /// Reads a cartridge from a ROM image, with the data that an earlier
    /// session saved, if any.
    fn load(rom: &[u8], save_data: Option<&[u8]>) -> Result<Self, Self::RomParserError>;

    /// Reads program memory for the CPU.
    fn read_prg_mem(&mut self, addr: u16) -> u8;

    /// Takes a write of the CPU to program memory.
    fn write_prg_mem(&mut self, addr: u16, data: u8);

    /// Reads character memory for the picture processor.
    fn read_chr_mem(&mut self, addr: u16) -> u8;

    /// Takes a write of the picture processor to character memory.
    fn write_chr_mem(&mut self, addr: u16, data: u8);

    /// The mirroring mode in force.
    fn mirroring(&self) -> Mirroring;

    /// Hears that the picture processor has reached the next scanline.
    fn irq_scanline(&mut self);

    /// Says whether the cartridge has raised its interrupt since it was last
    /// asked, and takes the interrupt back.
    fn take_irq_set_state(&mut self) -> bool;

    /// The data to keep between sessions, if the cartridge has any.
    fn get_save_data(&self) -> Option<&[u8]>;

    /// The program as lines of address and text.
    fn disassemble(&self) -> Vec<(u16, String)>;
}

} // verus!
