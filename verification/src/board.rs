//! The board: everything that the CPU is wired to, and the steps that the
//! two processors take on it.
//!
//! Nothing is assumed of the three parts. Where a step calls a part, its
//! contract says so with `call_ensures`: the part's method, what it was
//! handed, and what it returned. A method that takes `&mut self` is handed a
//! borrow, which the contract binds by `exists`: `*borrow` is the part
//! before the call and `*final(borrow)` the part after it. A view that is
//! handed over lends parts of the board: `*final(view.ram)` is what the
//! board holds as work RAM once the view is gone, and likewise for the other
//! parts. So a caller that knows the contracts of its own cartridge, CPU and
//! picture processor learns from a step what those contracts say, and a
//! caller that knows none learns which calls were made, in which order, and
//! on what.

use vstd::prelude::*;
use crate::bus::{CpuBus, CpuBusView, PpuBus, PpuBusView};
use crate::cartridge::Cartridge;
use crate::controller::ControllerPort;
use crate::cpu::Cpu;
use crate::memory::zeroed;
use crate::ppu::Ppu;

verus! {

/// The cartridge, the picture processor, work RAM, video memory and the two
/// controller ports.
pub struct Board<C, P> {
    pub cartridge: C,
    pub controller1: u8,
    pub controller2: u8,
    pub controller1_state: bool,
    pub controller2_state: bool,
    pub controller1_snapshot: u8,
    pub controller2_snapshot: u8,
    pub ram: [u8; 2048],
    pub ppu: P,
    pub name_tables: [u8; 4096],
}

/// An interrupt that the CPU can be made to enter.
#[derive(Clone, Copy, Debug, PartialEq, Eq, Structural)]
pub enum Interrupt {
    /// The interrupt of the picture processor, which cannot be masked.
    Nmi,
    /// The interrupt of the cartridge.
    Irq,
}

impl<C, P> Board<C, P> {
    /// The first controller port.
    pub open spec fn port1(&self) -> ControllerPort {
        ControllerPort {
            live: self.controller1,
            strobe: self.controller1_state,
            snapshot: self.controller1_snapshot,
        }
    }

    /// The second controller port.
    pub open spec fn port2(&self) -> ControllerPort {
        ControllerPort {
            live: self.controller2,
            strobe: self.controller2_state,
            snapshot: self.controller2_snapshot,
        }
    }

    /// What a view for the picture processor holds when made of this board.
    pub open spec fn ppu_view(&self) -> PpuBusView<C> {
        PpuBusView { cartridge: self.cartridge, name_tables: self.name_tables@ }
    }

    /// What a view for the CPU holds when made of this board.
    pub open spec fn cpu_view(&self) -> CpuBusView<C, P> {
        CpuBusView {
            port1: self.port1(),
            port2: self.port2(),
            ram: self.ram@,
            cartridge: self.cartridge,
            ppu: self.ppu,
            name_tables: self.name_tables@,
        }
    }

    /// Whether the board is as at power-on: memory is zero, no button is
    /// held and both strobes are clear.
    pub open spec fn is_blank(&self) -> bool {
        &&& self.ram@ == zeroed(2048)
        &&& self.name_tables@ == zeroed(4096)
        &&& self.port1() == (ControllerPort { live: 0, strobe: false, snapshot: 0 })
        &&& self.port2() == (ControllerPort { live: 0, strobe: false, snapshot: 0 })
    }

    /// Whether work RAM, video memory and the controller ports are the same
    /// on both boards.
    pub open spec fn same_memory(&self, other: &Self) -> bool {
        &&& self.ram == other.ram
        &&& self.name_tables == other.name_tables
        &&& self.port1() == other.port1()
        &&& self.port2() == other.port2()
    }
}

impl<C: Cartridge, P: Ppu<C>> Board<C, P> {
    /// A board at power-on around the two parts given.
    pub fn new(cartridge: C, ppu: P) -> (board: Self)
        ensures
            board.cartridge == cartridge,
            board.ppu == ppu,
            board.is_blank(),
    {
        let ram = [0u8; 2048];
        let name_tables = [0u8; 4096];
        assert(ram@ =~= zeroed(2048));
        assert(name_tables@ =~= zeroed(4096));
        Board {
            cartridge,
            controller1: 0,
            controller2: 0,
            controller1_state: false,
            controller2_state: false,
            controller1_snapshot: 0,
            controller2_snapshot: 0,
            ram,
            ppu,
            name_tables,
        }
    }
}

/// The picture processor takes one step, with a view of the cartridge and
/// video memory in its hand. Work RAM and the controller ports are left
/// alone.
pub fn step_ppu<C: Cartridge, P: Ppu<C>>(board: &mut Board<C, P>)
    ensures
        exists|ppu: &mut P, view: &mut PpuBus<C>|
            {
                &&& *ppu == old(board).ppu
                &&& *final(ppu) == final(board).ppu
                &&& (*view)@ == old(board).ppu_view()
                &&& #[trigger] call_ensures(P::clock, (ppu, view), ())
                &&& has_resolved(*final(view))
                &&& *final(view.cartridge) == final(board).cartridge
                &&& *final(view.name_tables) == final(board).name_tables
            },
        final(board).ram == old(board).ram,
        final(board).port1() == old(board).port1(),
        final(board).port2() == old(board).port2(),
{
    let mut ppu_bus = PpuBus::borrow(&mut board.cartridge, &mut board.name_tables);
    board.ppu.clock(&mut ppu_bus);
}

/// Finds the interrupt that the CPU is to enter, if any. A CPU in the
/// middle of an instruction enters none, and nobody is asked. Else the
/// picture processor is asked first; if it has raised its interrupt, that
/// is the one, and the cartridge is not asked, so that an interrupt of the
/// cartridge stays raised. Else the cartridge is asked.
pub fn poll_interrupt<C: Cartridge, U: Cpu<C, P>, P: Ppu<C>>(
    cpu: &U,
    ppu: &mut P,
    cartridge: &mut C,
) -> (interrupt: Option<Interrupt>)
    ensures
        exists|cycles: u8|
            {
                &&& #[trigger] call_ensures(U::cycles, (cpu,), cycles)
                &&& if cycles != 0 {
                    &&& interrupt is None
                    &&& *final(ppu) == *old(ppu)
                    &&& *final(cartridge) == *old(cartridge)
                } else {
                    exists|asked: &mut P, nmi: bool|
                        {
                            &&& *asked == *old(ppu)
                            &&& *final(asked) == *final(ppu)
                            &&& #[trigger] call_ensures(
                                P::take_vblank_nmi_set_state,
                                (asked,),
                                nmi,
                            )
                            &&& if nmi {
                                &&& interrupt == Some(Interrupt::Nmi)
                                &&& *final(cartridge) == *old(cartridge)
                            } else {
                                exists|asked_next: &mut C, irq: bool|
                                    {
                                        &&& *asked_next == *old(cartridge)
                                        &&& *final(asked_next) == *final(cartridge)
                                        &&& #[trigger] call_ensures(
                                            C::take_irq_set_state,
                                            (asked_next,),
                                            irq,
                                        )
                                        &&& interrupt == if irq {
                                            Some(Interrupt::Irq)
                                        } else {
                                            None
                                        }
                                    }
                            }
                        }
                }
            },
{
    if cpu.cycles() != 0 {
        None
    } else if ppu.take_vblank_nmi_set_state() {
        Some(Interrupt::Nmi)
    } else if cartridge.take_irq_set_state() {
        Some(Interrupt::Irq)
    } else {
        None
    }
}

/// The CPU enters `interrupt`, if there is one, and then takes one step,
/// both with the view `bus` in its hand.
pub fn enter_and_step<C: Cartridge, U: Cpu<C, P>, P: Ppu<C>>(
    cpu: &mut U,
    bus: &mut CpuBus<'_, C, P>,
    interrupt: Option<Interrupt>,
)
    ensures
        exists|stepped: &mut U, view: &mut CpuBus<C, P>|
            {
                &&& *final(stepped) == *final(cpu)
                &&& *final(view) == *final(bus)
                &&& #[trigger] call_ensures(U::clock, (stepped, view), ())
                &&& match interrupt {
                    None => *stepped == *old(cpu) && *view == *old(bus),
                    Some(Interrupt::Nmi) => exists|entered: &mut U, entry_view: &mut CpuBus<C, P>|
                        {
                            &&& *entered == *old(cpu)
                            &&& *entry_view == *old(bus)
                            &&& *final(entered) == *stepped
                            &&& *final(entry_view) == *view
                            &&& #[trigger] call_ensures(U::nmi, (entered, entry_view), ())
                        },
                    Some(Interrupt::Irq) => exists|entered: &mut U, entry_view: &mut CpuBus<C, P>|
                        {
                            &&& *entered == *old(cpu)
                            &&& *entry_view == *old(bus)
                            &&& *final(entered) == *stepped
                            &&& *final(entry_view) == *view
                            &&& #[trigger] call_ensures(U::irq, (entered, entry_view), ())
                        },
                }
            },
{
    match interrupt {
        Some(Interrupt::Nmi) => cpu.nmi(bus),
        Some(Interrupt::Irq) => cpu.irq(bus),
        None => {},
    }
    cpu.clock(bus);
}

/// The CPU takes one step: the interrupts are polled, and the CPU enters
/// the one found, if any, and takes a step with a view of the whole board in
/// its hand. The buttons held stay as set.
pub fn step_cpu<C: Cartridge, U: Cpu<C, P>, P: Ppu<C>>(cpu: &mut U, board: &mut Board<C, P>)
    ensures
        final(board).controller1 == old(board).controller1,
        final(board).controller2 == old(board).controller2,
        exists|
            asked_ppu: &mut P,
            asked_cartridge: &mut C,
            interrupt: Option<Interrupt>,
            stepped: &mut U,
            view: &mut CpuBus<C, P>,
        |
            {
                &&& *asked_ppu == old(board).ppu
                &&& *asked_cartridge == old(board).cartridge
                &&& #[trigger] call_ensures(
                    poll_interrupt::<C, U, P>,
                    (&*old(cpu), asked_ppu, asked_cartridge),
                    interrupt,
                )
                &&& *stepped == *old(cpu)
                &&& *final(stepped) == *final(cpu)
                &&& (*view)@ == (CpuBusView {
                    cartridge: *final(asked_cartridge),
                    ppu: *final(asked_ppu),
                    ..old(board).cpu_view()
                })
                &&& #[trigger] call_ensures(
                    enter_and_step::<C, U, P>,
                    (stepped, view, interrupt),
                    (),
                )
                &&& has_resolved(*final(view))
                &&& *final(view.controller1_state) == final(board).controller1_state
                &&& *final(view.controller2_state) == final(board).controller2_state
                &&& *final(view.controller1_snapshot) == final(board).controller1_snapshot
                &&& *final(view.controller2_snapshot) == final(board).controller2_snapshot
                &&& *final(view.ram) == final(board).ram
                &&& *final(view.cartridge) == final(board).cartridge
                &&& *final(view.ppu) == final(board).ppu
                &&& *final(view.name_tables) == final(board).name_tables
            },
{
    let interrupt = poll_interrupt(&*cpu, &mut board.ppu, &mut board.cartridge);
    let mut cpu_bus = CpuBus::borrow(
        &board.controller1,
        &board.controller2,
        &mut board.controller1_state,
        &mut board.controller2_state,
        &mut board.controller1_snapshot,
        &mut board.controller2_snapshot,
        &mut board.ram,
        &mut board.cartridge,
        &mut board.ppu,
        &mut board.name_tables,
    );
    enter_and_step(cpu, &mut cpu_bus, interrupt);
}

/// The CPU is reset, with a view of the whole board in its hand, and then
/// the picture processor. The buttons held stay as set.
///
/// The board itself clears nothing: where the CPU's reset hands back work
/// RAM, video memory and the controller ports as it got them, they are
/// after the reset what they were before it.
pub fn reset_parts<C: Cartridge, U: Cpu<C, P>, P: Ppu<C>>(cpu: &mut U, board: &mut Board<C, P>)
    ensures
        final(board).controller1 == old(board).controller1,
        final(board).controller2 == old(board).controller2,
        exists|reset: &mut U, view: &mut CpuBus<C, P>, ppu: &mut P|
            {
                &&& *reset == *old(cpu)
                &&& *final(reset) == *final(cpu)
                &&& (*view)@ == old(board).cpu_view()
                &&& #[trigger] call_ensures(U::reset, (reset, view), ())
                &&& has_resolved(*final(view))
                &&& *final(view.controller1_state) == final(board).controller1_state
                &&& *final(view.controller2_state) == final(board).controller2_state
                &&& *final(view.controller1_snapshot) == final(board).controller1_snapshot
                &&& *final(view.controller2_snapshot) == final(board).controller2_snapshot
                &&& *final(view.ram) == final(board).ram
                &&& *final(view.cartridge) == final(board).cartridge
                &&& *final(view.name_tables) == final(board).name_tables
                &&& *final(view.ppu) == *ppu
                &&& *final(ppu) == final(board).ppu
                &&& #[trigger] call_ensures(P::reset, (ppu,), ())
            },
        (forall|reset: &mut U, view: &mut CpuBus<C, P>| #[trigger]
            call_ensures(U::reset, (reset, view), ()) ==> final(view).same_memory(&*view))
            ==> final(board).same_memory(old(board)),
{
    let mut cpu_bus = CpuBus::borrow(
        &board.controller1,
        &board.controller2,
        &mut board.controller1_state,
        &mut board.controller2_state,
        &mut board.controller1_snapshot,
        &mut board.controller2_snapshot,
        &mut board.ram,
        &mut board.cartridge,
        &mut board.ppu,
        &mut board.name_tables,
    );
    cpu.reset(&mut cpu_bus);
    board.ppu.reset();
}

} // verus!
