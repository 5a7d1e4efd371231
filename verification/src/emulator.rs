//! The console: a CPU, the board it is wired to, and the clock that steps
//! the picture processor on each tick and the CPU on each third.

use vstd::prelude::*;
use crate::board::{Board, reset_parts, step_cpu, step_ppu};
use crate::bus::CpuBus;
use crate::cartridge::Cartridge;
use crate::clock::{cpu_due, next_clock_count};
use crate::cpu::Cpu;
use crate::ppu::Ppu;

verus! {

/// The console with a cartridge in its slot.
pub struct Emulator<C, U, P> {
    cpu: U,
    board: Board<C, P>,
    clock_count: u8,
}

/// What a console holds, as contracts speak of it.
pub struct EmulatorView<C, U, P> {
    pub cpu: U,
    pub board: Board<C, P>,
    pub clock_count: u8,
}

impl<C, U, P> View for Emulator<C, U, P> {
    type V = EmulatorView<C, U, P>;

    closed spec fn view(&self) -> EmulatorView<C, U, P> {
        EmulatorView { cpu: self.cpu, board: self.board, clock_count: self.clock_count }
    }
}

impl<C: Cartridge, U: Cpu<C, P>, P: Ppu<C>> Emulator<C, U, P> {
    /// Loads a cartridge from a ROM image, with the saved data of an earlier
    /// session if there is any, puts a console together around it with a new
    /// CPU and a new picture processor, and resets it. Fails with the
    /// loader's error when the loader refuses the image.
    pub fn new(rom: &[u8], save_data: Option<&[u8]>) -> (result: Result<Self, C::RomParserError>)
        ensures
            exists|loaded: Result<C, C::RomParserError>|
                {
                    &&& #[trigger] call_ensures(C::load, (rom, save_data), loaded)
                    &&& match loaded {
                        Err(error) => result == Err::<Self, C::RomParserError>(error),
                        Ok(cartridge) => exists|cpu: U, ppu: P, console: &mut Self|
                            {
                                &&& #[trigger] call_ensures(U::new, (), cpu)
                                &&& #[trigger] call_ensures(P::new, (), ppu)
                                &&& #[trigger] call_ensures(
                                    Self::assemble,
                                    (cartridge, cpu, ppu),
                                    *console,
                                )
                                &&& #[trigger] call_ensures(Self::reset, (console,), ())
                                &&& result == Ok::<Self, C::RomParserError>(*final(console))
                            },
                    }
                },
            result matches Ok(emulator) ==> {
                &&& emulator@.clock_count == 0
                &&& emulator@.board.controller1 == 0
                &&& emulator@.board.controller2 == 0
            },
    {
        match C::load(rom, save_data) {
            Ok(cartridge) => {
                let mut emulator = Self::assemble(cartridge, U::new(), P::new());
                emulator.reset();
                Ok(emulator)
            },
            Err(error) => Err(error),
        }
    }

    /// Puts a console together from its three parts: memory is zero, no
    /// button is held, both strobes are clear and the clock is at zero. The
    /// parts are as given; neither processor has been reset.
    pub fn assemble(cartridge: C, cpu: U, ppu: P) -> (emulator: Self)
        ensures
            emulator@.cpu == cpu,
            emulator@.board.cartridge == cartridge,
            emulator@.board.ppu == ppu,
            emulator@.board.is_blank(),
            emulator@.clock_count == 0,
    {
        Self { cpu, board: Board::new(cartridge, ppu), clock_count: 0 }
    }

    /// Runs one tick. The picture processor takes a step. If the counter says
    /// that the CPU is due, the CPU then takes one too. Returns the frame
    /// that the picture processor has ready after the tick, if any.
    ///
    /// The buttons held stay as set. On a tick on which the CPU is not due,
    /// the CPU, work RAM and the controller ports are as before.
    pub fn clock(&mut self) -> (frame: Option<&P::Frame>)
        ensures
            final(self)@.clock_count == next_clock_count(old(self)@.clock_count),
            final(self)@.board.controller1 == old(self)@.board.controller1,
            final(self)@.board.controller2 == old(self)@.board.controller2,
            !cpu_due(old(self)@.clock_count) ==> {
                &&& final(self)@.cpu == old(self)@.cpu
                &&& final(self)@.board.ram == old(self)@.board.ram
                &&& final(self)@.board.port1() == old(self)@.board.port1()
                &&& final(self)@.board.port2() == old(self)@.board.port2()
            },
            call_ensures(P::ready_frame, (&final(self)@.board.ppu,), frame),
            exists|stepped: &mut Board<C, P>|
                {
                    &&& *stepped == old(self)@.board
                    &&& #[trigger] call_ensures(step_ppu::<C, P>, (stepped,), ())
                    &&& if cpu_due(old(self)@.clock_count) {
                        exists|cpu: &mut U, board: &mut Board<C, P>|
                            {
                                &&& *cpu == old(self)@.cpu
                                &&& *board == *final(stepped)
                                &&& #[trigger] call_ensures(step_cpu::<C, U, P>, (cpu, board), ())
                                &&& *final(cpu) == final(self)@.cpu
                                &&& *final(board) == final(self)@.board
                            }
                    } else {
                        &&& *final(stepped) == final(self)@.board
                        &&& final(self)@.cpu == old(self)@.cpu
                    }
                },
    {
        step_ppu(&mut self.board);
        if self.clock_count % 3 == 0 {
            self.clock_count = 0;
            step_cpu(&mut self.cpu, &mut self.board);
        }
        self.clock_count = self.clock_count.wrapping_add(1);

        self.board.ppu.ready_frame()
    }

    /// Sets the buttons held on the first controller.
    pub fn set_controller1(&mut self, state: u8)
        ensures
            final(self)@ == (EmulatorView {
                board: Board { controller1: state, ..old(self)@.board },
                ..old(self)@
            }),
    {
        self.board.controller1 = state;
    }

    /// Sets the buttons held on the second controller.
    pub fn set_controller2(&mut self, state: u8)
        ensures
            final(self)@ == (EmulatorView {
                board: Board { controller2: state, ..old(self)@.board },
                ..old(self)@
            }),
    {
        self.board.controller2 = state;
    }

    /// Resets the CPU and the picture processor and puts the clock back to
    /// zero, so that the CPU is due on the next tick. The buttons held stay
    /// as set.
    ///
    /// The console itself clears nothing: where the CPU's reset hands back
    /// work RAM, video memory and the controller ports as it got them, they
    /// are after the reset what they were before it.
    pub fn reset(&mut self)
        ensures
            final(self)@.clock_count == 0,
            final(self)@.board.controller1 == old(self)@.board.controller1,
            final(self)@.board.controller2 == old(self)@.board.controller2,
            exists|cpu: &mut U, board: &mut Board<C, P>|
                {
                    &&& *cpu == old(self)@.cpu
                    &&& *board == old(self)@.board
                    &&& #[trigger] call_ensures(reset_parts::<C, U, P>, (cpu, board), ())
                    &&& *final(cpu) == final(self)@.cpu
                    &&& *final(board) == final(self)@.board
                },
            (forall|cpu: &mut U, view: &mut CpuBus<C, P>| #[trigger]
                call_ensures(U::reset, (cpu, view), ()) ==> final(view).same_memory(&*view))
                ==> final(self)@.board.same_memory(&old(self)@.board),
    {
        reset_parts(&mut self.cpu, &mut self.board);
        self.clock_count = 0;
    }

    /// The data that the cartridge wants kept between sessions, if it has
    /// any: what the cartridge answers when asked.
    pub fn get_save_data(&self) -> (data: Option<&[u8]>)
        ensures
            call_ensures(C::get_save_data, (&self@.board.cartridge,), data),
    {
        self.board.cartridge.get_save_data()
    }

    /// The cartridge's program as lines of address and text: what the
    /// cartridge answers when asked. The whole program is listed, whatever
    /// the range asked for.
    pub fn disassemble(&self, _start: u16, _end: u16) -> (listing: Vec<(u16, String)>)
        ensures
            call_ensures(C::disassemble, (&self@.board.cartridge,), listing),
    {
        self.board.cartridge.disassemble()
    }

    /// The CPU.
    pub fn cpu(&self) -> (cpu: &U)
        ensures
            *cpu == self@.cpu,
    {
        &self.cpu
    }
}

} // verus!
