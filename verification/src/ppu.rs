//! The picture processor as the CPU's bus and the console use it.

use vstd::prelude::*;
use crate::bus::PpuBus;
use crate::cartridge::Cartridge;

verus! {

/// A picture processor for cartridges of type `C`. It reaches the cartridge
/// and video memory through the view that each call hands it, and holds on
/// to neither.
///
/// No method has a contract here: an implementation promises what it sees
/// fit, and the contracts of this crate pass its promises on.
pub trait Ppu<C: Cartridge>: Sized {
    /// A finished picture.
    type Frame;

    /// A picture processor as it is when the console is switched on.
    fn new() -> Self;

    /// Puts the picture processor back to its state at power-on.
    fn reset(&mut self);

    /// Takes one step.
    fn clock(&mut self, bus: &mut PpuBus<'_, C>);

    /// Reads the register that the CPU address `addr` selects.
    fn read(&mut self, bus: &mut PpuBus<'_, C>, addr: u16) -> u8;

    /// Writes the register that the CPU address `addr` selects.
    fn write(&mut self, bus: &mut PpuBus<'_, C>, addr: u16, data: u8);

    /// Takes 256 bytes into object memory.
    fn write_oam_dma(&mut self, buffer: &[u8; 256]);

    /// Says whether the picture processor has raised its interrupt, at the
    /// start of vertical blank, since it was last asked, and takes the
    /// interrupt back.
    fn take_vblank_nmi_set_state(&mut self) -> bool;

    /// The picture just finished, if the last step finished one.
    fn ready_frame(&self) -> Option<&Self::Frame>;
}

} // verus!
