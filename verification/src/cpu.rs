//! The CPU as the console uses it.

use vstd::prelude::*;
use crate::bus::CpuBus;
use crate::cartridge::Cartridge;
use crate::ppu::Ppu;

verus! {

/// A CPU for cartridges of type `C` and picture processors of type `P`. It
/// reaches the rest of the machine through the view that each call hands
/// it, and decodes its addresses itself: work RAM below `0x2000`, the
/// picture processor's registers from there to `0x3FFF`, the transfer to
/// object memory at `0x4014`, the controller ports at `0x4016` and `0x4017`,
/// and program memory above.
///
/// No method has a contract here: an implementation promises what it sees
/// fit, and the contracts of this crate pass its promises on.
pub trait Cpu<C: Cartridge, P: Ppu<C>>: Sized {
    /// A CPU as it is when the console is switched on.
    fn new() -> Self;

    /// The cycles that the instruction in hand still takes: 0 between
    /// instructions.
    fn cycles(&self) -> u8;

    /// Puts the CPU back to its state at power-on.
    fn reset(&mut self, bus: &mut CpuBus<'_, C, P>);

    /// Takes one step.
    fn clock(&mut self, bus: &mut CpuBus<'_, C, P>);

    /// Enters the handler of the interrupt that cannot be masked.
    fn nmi(&mut self, bus: &mut CpuBus<'_, C, P>);

    /// Enters the handler of the interrupt that can be masked.
    fn irq(&mut self, bus: &mut CpuBus<'_, C, P>);
}

} // verus!
