//! The two bus views. A view lends the CPU or the picture processor the
//! parts of the machine it may touch for the length of one step; it owns
//! nothing, and the borrows it is made of keep any two views from being
//! live at once.
//!
//! A view is a record of references, and the contracts speak of them as
//! such. `*view.ram` is work RAM as the view holds it now; `*final(view.ram)`
//! is work RAM as its lender finds it once the view is gone. A method that
//! leaves a part alone says that the reference is what it was:
//! `final(self).ram == old(self).ram`. A method that changes what a part
//! holds says what the part holds after the call, and that the lender will
//! still find what the view holds last:
//! `*final(final(self).ram) == *final(old(self).ram)`.
//!
//! Nothing is assumed of the cartridge and the picture processor. Where a
//! method calls one of them, its contract says so with `call_ensures`: the
//! part's method, what it was handed, and what it returned. A method that
//! takes `&mut self` is handed a borrow, which the contract binds by
//! `exists`: `*borrow` is the part before the call and `*final(borrow)` the
//! part after it.

use vstd::prelude::*;
use crate::cartridge::Cartridge;
use crate::controller::ControllerPort;
use crate::memory::{RAM_SIZE, ram_index};
use crate::mirroring::{Mirroring, folds_into_window, mirror_index, mirror_name_tables_addr};
use crate::ppu::Ppu;

verus! {

/// What the picture processor sees: the cartridge and video memory.
pub struct PpuBus<'a, C> {
    pub cartridge: &'a mut C,
    pub name_tables: &'a mut [u8; 4096],
}

/// What a view for the picture processor holds at one moment.
pub struct PpuBusView<C> {
    pub cartridge: C,
    pub name_tables: Seq<u8>,
}

impl<'a, C> View for PpuBus<'a, C> {
    type V = PpuBusView<C>;

    open spec fn view(&self) -> PpuBusView<C> {
        PpuBusView { cartridge: *self.cartridge, name_tables: self.name_tables@ }
    }
}

impl<'a, C: Cartridge> PpuBus<'a, C> {
    /// Makes a view of `cartridge` and `name_tables`. What is written
    /// through the view is what the two hold once the view is gone.
    pub fn borrow(cartridge: &'a mut C, name_tables: &'a mut [u8; 4096]) -> (bus: Self)
        ensures
            *bus.cartridge == *old(cartridge),
            *bus.name_tables == *old(name_tables),
            *final(cartridge) == *final(bus.cartridge),
            *final(name_tables) == *final(bus.name_tables),
    {
        Self { cartridge, name_tables }
    }

    /// Reads character memory: the cartridge is asked, and its answer is
    /// returned. Video memory is left alone.
    pub fn read_chr_mem(&mut self, addr: u16) -> (value: u8)
        ensures
            exists|cartridge: &mut C|
                {
                    &&& *cartridge == *old(self).cartridge
                    &&& *final(cartridge) == *final(self).cartridge
                    &&& #[trigger] call_ensures(C::read_chr_mem, (cartridge, addr), value)
                },
            final(self).name_tables == old(self).name_tables,
            *final(final(self).cartridge) == *final(old(self).cartridge),
    {
        self.cartridge.read_chr_mem(addr)
    }

    /// Writes character memory: the write is handed to the cartridge, which
    /// decides what becomes of it. Video memory is left alone.
    pub fn write_chr_mem(&mut self, addr: u16, data: u8)
        ensures
            exists|cartridge: &mut C|
                {
                    &&& *cartridge == *old(self).cartridge
                    &&& *final(cartridge) == *final(self).cartridge
                    &&& #[trigger] call_ensures(C::write_chr_mem, (cartridge, addr, data), ())
                },
            final(self).name_tables == old(self).name_tables,
            *final(final(self).cartridge) == *final(old(self).cartridge),
    {
        self.cartridge.write_chr_mem(addr, data);
    }

    /// Reads the nametable byte behind `addr`: the byte of video memory at
    /// the index that `addr` mirrors to under the cartridge's mode. Nothing
    /// changes.
    pub fn read_name_tables(&mut self, addr: u16) -> (value: u8)
        requires
            folds_into_window(addr),
        ensures
            exists|mode: Mirroring|
                {
                    &&& #[trigger] call_ensures(C::mirroring, (&*old(self).cartridge,), mode)
                    &&& value == old(self).name_tables@[mirror_index(mode, addr)]
                },
            final(self).cartridge == old(self).cartridge,
            final(self).name_tables == old(self).name_tables,
    {
        let mode = self.cartridge.mirroring();
        let index = mirror_name_tables_addr(mode, addr);
        self.name_tables[index as usize]
    }

    /// Writes the nametable byte behind `addr`: the byte of video memory at
    /// the index that `addr` mirrors to under the cartridge's mode takes
    /// `data`, and no other byte changes.
    pub fn write_name_tables(&mut self, addr: u16, data: u8)
        requires
            folds_into_window(addr),
        ensures
            exists|mode: Mirroring|
                {
                    &&& #[trigger] call_ensures(C::mirroring, (&*old(self).cartridge,), mode)
                    &&& final(self).name_tables@ == old(self).name_tables@.update(
                        mirror_index(mode, addr),
                        data,
                    )
                },
            *final(final(self).name_tables) == *final(old(self).name_tables),
            final(self).cartridge == old(self).cartridge,
    {
        let mode = self.cartridge.mirroring();
        let index = mirror_name_tables_addr(mode, addr);
        self.name_tables[index as usize] = data;
    }

    /// Tells the cartridge that the picture processor has reached the next
    /// scanline. Video memory is left alone.
    pub fn irq_scanline(&mut self)
        ensures
            exists|cartridge: &mut C|
                {
                    &&& *cartridge == *old(self).cartridge
                    &&& *final(cartridge) == *final(self).cartridge
                    &&& #[trigger] call_ensures(C::irq_scanline, (cartridge,), ())
                },
            final(self).name_tables == old(self).name_tables,
            *final(final(self).cartridge) == *final(old(self).cartridge),
    {
        self.cartridge.irq_scanline();
    }
}

/// What the CPU sees: work RAM, the two controller ports, the cartridge and
/// the picture processor with its video memory.
pub struct CpuBus<'a, C, P> {
    pub controller1: &'a u8,
    pub controller2: &'a u8,
    pub controller1_state: &'a mut bool,
    pub controller2_state: &'a mut bool,
    pub controller1_snapshot: &'a mut u8,
    pub controller2_snapshot: &'a mut u8,
    pub ram: &'a mut [u8; 2048],
    pub cartridge: &'a mut C,
    pub ppu: &'a mut P,
    pub name_tables: &'a mut [u8; 4096],
}

/// What a view for the CPU holds at one moment.
pub struct CpuBusView<C, P> {
    pub port1: ControllerPort,
    pub port2: ControllerPort,
    pub ram: Seq<u8>,
    pub cartridge: C,
    pub ppu: P,
    pub name_tables: Seq<u8>,
}

impl<'a, C, P> View for CpuBus<'a, C, P> {
    type V = CpuBusView<C, P>;

    open spec fn view(&self) -> CpuBusView<C, P> {
        CpuBusView {
            port1: self.port1(),
            port2: self.port2(),
            ram: self.ram@,
            cartridge: *self.cartridge,
            ppu: *self.ppu,
            name_tables: self.name_tables@,
        }
    }
}

impl<'a, C, P> CpuBus<'a, C, P> {
    /// The first controller port as the view holds it.
    pub open spec fn port1(&self) -> ControllerPort {
        ControllerPort {
            live: *self.controller1,
            strobe: *self.controller1_state,
            snapshot: *self.controller1_snapshot,
        }
    }

    /// The second controller port as the view holds it.
    pub open spec fn port2(&self) -> ControllerPort {
        ControllerPort {
            live: *self.controller2,
            strobe: *self.controller2_state,
            snapshot: *self.controller2_snapshot,
        }
    }

    /// Both views lend the same first port, in the same state.
    pub open spec fn same_port1(&self, other: &Self) -> bool {
        &&& self.controller1 == other.controller1
        &&& self.controller1_state == other.controller1_state
        &&& self.controller1_snapshot == other.controller1_snapshot
    }

    /// Both views lend the same second port, in the same state.
    pub open spec fn same_port2(&self, other: &Self) -> bool {
        &&& self.controller2 == other.controller2
        &&& self.controller2_state == other.controller2_state
        &&& self.controller2_snapshot == other.controller2_snapshot
    }

    /// Both views lend the same work RAM, video memory and controller
    /// ports, in the same state.
    pub open spec fn same_memory(&self, other: &Self) -> bool {
        &&& self.same_port1(other)
        &&& self.same_port2(other)
        &&& self.ram == other.ram
        &&& self.name_tables == other.name_tables
    }

    /// Both views lend the same cartridge, picture processor and video
    /// memory, in the same state.
    pub open spec fn same_video(&self, other: &Self) -> bool {
        &&& self.cartridge == other.cartridge
        &&& self.ppu == other.ppu
        &&& self.name_tables == other.name_tables
    }
}

impl<'a, C: Cartridge, P: Ppu<C>> CpuBus<'a, C, P> {
    /// Makes a view of the parts given. What is written through the view is
    /// what the parts hold once the view is gone.
    pub fn borrow(
        controller1: &'a u8,
        controller2: &'a u8,
        controller1_state: &'a mut bool,
        controller2_state: &'a mut bool,
        controller1_snapshot: &'a mut u8,
        controller2_snapshot: &'a mut u8,
        ram: &'a mut [u8; 2048],
        cartridge: &'a mut C,
        ppu: &'a mut P,
        name_tables: &'a mut [u8; 4096],
    ) -> (bus: Self)
        ensures
            bus.controller1 == controller1,
            bus.controller2 == controller2,
            *bus.controller1_state == *old(controller1_state),
            *bus.controller2_state == *old(controller2_state),
            *bus.controller1_snapshot == *old(controller1_snapshot),
            *bus.controller2_snapshot == *old(controller2_snapshot),
            *bus.ram == *old(ram),
            *bus.cartridge == *old(cartridge),
            *bus.ppu == *old(ppu),
            *bus.name_tables == *old(name_tables),
            *final(controller1_state) == *final(bus.controller1_state),
            *final(controller2_state) == *final(bus.controller2_state),
            *final(controller1_snapshot) == *final(bus.controller1_snapshot),
            *final(controller2_snapshot) == *final(bus.controller2_snapshot),
            *final(ram) == *final(bus.ram),
            *final(cartridge) == *final(bus.cartridge),
            *final(ppu) == *final(bus.ppu),
            *final(name_tables) == *final(bus.name_tables),
    {
        Self {
            controller1,
            controller2,
            controller1_state,
            controller2_state,
            controller1_snapshot,
            controller2_snapshot,
            ram,
            cartridge,
            ppu,
            name_tables,
        }
    }

    /// Stores `data` in work RAM at `addr` modulo the size of the RAM.
    pub fn write_ram(&mut self, addr: u16, data: u8)
        ensures
            final(self).ram@ == old(self).ram@.update(ram_index(addr), data),
            *final(final(self).ram) == *final(old(self).ram),
            final(self).same_port1(old(self)),
            final(self).same_port2(old(self)),
            final(self).same_video(old(self)),
    {
        assert(addr & 0x07FF < 0x0800) by (bit_vector);
        self.ram[(addr & (RAM_SIZE - 1)) as usize] = data;
    }

    /// Loads from work RAM at `addr` modulo the size of the RAM. Nothing
    /// changes.
    pub fn read_ram(&mut self, addr: u16) -> (value: u8)
        ensures
            value == old(self).ram@[ram_index(addr)],
            final(self).ram == old(self).ram,
            final(self).same_port1(old(self)),
            final(self).same_port2(old(self)),
            final(self).same_video(old(self)),
    {
        assert(addr & 0x07FF < 0x0800) by (bit_vector);
        self.ram[(addr & (RAM_SIZE - 1)) as usize]
    }

    /// Writes a register of the picture processor: the write is handed to
    /// the picture processor together with a view of the cartridge and video
    /// memory, and what it leaves of the three is what the view holds after.
    /// Work RAM and the controller ports are left alone.
    pub fn write_ppu_register(&mut self, addr: u16, data: u8)
        ensures
            exists|ppu: &mut P, view: &mut PpuBus<C>|
                {
                    &&& *ppu == *old(self).ppu
                    &&& *final(ppu) == *final(self).ppu
                    &&& *view.cartridge == *old(self).cartridge
                    &&& *view.name_tables == *old(self).name_tables
                    &&& has_resolved(*final(view))
                    &&& *final(view.cartridge) == *final(self).cartridge
                    &&& *final(view.name_tables) == *final(self).name_tables
                    &&& #[trigger] call_ensures(P::write, (ppu, view, addr, data), ())
                },
            final(self).ram == old(self).ram,
            final(self).same_port1(old(self)),
            final(self).same_port2(old(self)),
            *final(final(self).cartridge) == *final(old(self).cartridge),
            *final(final(self).ppu) == *final(old(self).ppu),
            *final(final(self).name_tables) == *final(old(self).name_tables),
    {
        let mut ppu_bus = PpuBus::borrow(self.cartridge, self.name_tables);
        self.ppu.write(&mut ppu_bus, addr, data);
    }

    /// Reads a register of the picture processor: the picture processor is
    /// asked, with a view of the cartridge and video memory in hand, and its
    /// answer is returned; what it leaves of the three is what the view
    /// holds after. Work RAM and the controller ports are left alone.
    pub fn read_ppu_register(&mut self, addr: u16) -> (value: u8)
        ensures
            exists|ppu: &mut P, view: &mut PpuBus<C>|
                {
                    &&& *ppu == *old(self).ppu
                    &&& *final(ppu) == *final(self).ppu
                    &&& *view.cartridge == *old(self).cartridge
                    &&& *view.name_tables == *old(self).name_tables
                    &&& has_resolved(*final(view))
                    &&& *final(view.cartridge) == *final(self).cartridge
                    &&& *final(view.name_tables) == *final(self).name_tables
                    &&& #[trigger] call_ensures(P::read, (ppu, view, addr), value)
                },
            final(self).ram == old(self).ram,
            final(self).same_port1(old(self)),
            final(self).same_port2(old(self)),
            *final(final(self).cartridge) == *final(old(self).cartridge),
            *final(final(self).ppu) == *final(old(self).ppu),
            *final(final(self).name_tables) == *final(old(self).name_tables),
    {
        let mut ppu_bus = PpuBus::borrow(self.cartridge, self.name_tables);
        self.ppu.read(&mut ppu_bus, addr)
    }

    /// Writes `data` to the first controller port: the strobe follows bit 0
    /// and the shift register is loaded from the live byte.
    pub fn controller1_write(&mut self, data: u8)
        ensures
            final(self).port1() == old(self).port1().after_write(data),
            final(self).controller1 == old(self).controller1,
            *final(final(self).controller1_state) == *final(old(self).controller1_state),
            *final(final(self).controller1_snapshot) == *final(old(self).controller1_snapshot),
            final(self).same_port2(old(self)),
            final(self).ram == old(self).ram,
            final(self).same_video(old(self)),
    {
        *self.controller1_state = data & 0x01 == 0x01;
        *self.controller1_snapshot = *self.controller1;
    }

    /// Reads the first controller port: bit 7 of the live byte while the
    /// strobe is set, else bit 7 of the shift register, which then moves up
    /// by one bit.
    pub fn read_controller1_snapshot(&mut self) -> (bit: u8)
        ensures
            bit == old(self).port1().read_bit(),
            final(self).port1() == old(self).port1().after_read(),
            final(self).controller1 == old(self).controller1,
            final(self).controller1_state == old(self).controller1_state,
            *final(final(self).controller1_snapshot) == *final(old(self).controller1_snapshot),
            final(self).same_port2(old(self)),
            final(self).ram == old(self).ram,
            final(self).same_video(old(self)),
    {
        if *self.controller1_state {
            (*self.controller1 & 0x80) >> 7
        } else {
            let data = (*self.controller1_snapshot & 0x80) >> 7;
            *self.controller1_snapshot <<= 1;
            data
        }
    }

    /// Writes `data` to the second controller port: the strobe follows bit 0
    /// and the shift register is loaded from the live byte.
    pub fn controller2_write(&mut self, data: u8)
        ensures
            final(self).port2() == old(self).port2().after_write(data),
            final(self).controller2 == old(self).controller2,
            *final(final(self).controller2_state) == *final(old(self).controller2_state),
            *final(final(self).controller2_snapshot) == *final(old(self).controller2_snapshot),
            final(self).same_port1(old(self)),
            final(self).ram == old(self).ram,
            final(self).same_video(old(self)),
    {
        *self.controller2_state = data & 0x01 == 0x01;
        *self.controller2_snapshot = *self.controller2;
    }

    /// Reads the second controller port: bit 7 of the live byte while the
    /// strobe is set, else bit 7 of the shift register, which then moves up
    /// by one bit.
    pub fn read_controller2_snapshot(&mut self) -> (bit: u8)
        ensures
            bit == old(self).port2().read_bit(),
            final(self).port2() == old(self).port2().after_read(),
            final(self).controller2 == old(self).controller2,
            final(self).controller2_state == old(self).controller2_state,
            *final(final(self).controller2_snapshot) == *final(old(self).controller2_snapshot),
            final(self).same_port1(old(self)),
            final(self).ram == old(self).ram,
            final(self).same_video(old(self)),
    {
        if *self.controller2_state {
            (*self.controller2 & 0x80) >> 7
        } else {
            let data = (*self.controller2_snapshot & 0x80) >> 7;
            *self.controller2_snapshot <<= 1;
            data
        }
    }

    /// Writes program memory: the write is handed to the cartridge, which
    /// decides what becomes of it. Nothing but the cartridge changes.
    pub fn write_prg_mem(&mut self, addr: u16, data: u8)
        ensures
            exists|cartridge: &mut C|
                {
                    &&& *cartridge == *old(self).cartridge
                    &&& *final(cartridge) == *final(self).cartridge
                    &&& #[trigger] call_ensures(C::write_prg_mem, (cartridge, addr, data), ())
                },
            *final(final(self).cartridge) == *final(old(self).cartridge),
            final(self).ppu == old(self).ppu,
            final(self).name_tables == old(self).name_tables,
            final(self).ram == old(self).ram,
            final(self).same_port1(old(self)),
            final(self).same_port2(old(self)),
    {
        self.cartridge.write_prg_mem(addr, data)
    }

    /// Reads program memory: the cartridge is asked, and its answer is
    /// returned. Nothing but the cartridge changes.
    pub fn read_prg_mem(&mut self, addr: u16) -> (value: u8)
        ensures
            exists|cartridge: &mut C|
                {
                    &&& *cartridge == *old(self).cartridge
                    &&& *final(cartridge) == *final(self).cartridge
                    &&& #[trigger] call_ensures(C::read_prg_mem, (cartridge, addr), value)
                },
            *final(final(self).cartridge) == *final(old(self).cartridge),
            final(self).ppu == old(self).ppu,
            final(self).name_tables == old(self).name_tables,
            final(self).ram == old(self).ram,
            final(self).same_port1(old(self)),
            final(self).same_port2(old(self)),
    {
        self.cartridge.read_prg_mem(addr)
    }

    /// Hands the picture processor 256 bytes for its object memory. Nothing
    /// but the picture processor changes.
    pub fn write_ppu_oam_dma(&mut self, buffer: &[u8; 256])
        ensures
            exists|ppu: &mut P|
                {
                    &&& *ppu == *old(self).ppu
                    &&& *final(ppu) == *final(self).ppu
                    &&& #[trigger] call_ensures(P::write_oam_dma, (ppu, buffer), ())
                },
            *final(final(self).ppu) == *final(old(self).ppu),
            final(self).cartridge == old(self).cartridge,
            final(self).name_tables == old(self).name_tables,
            final(self).ram == old(self).ram,
            final(self).same_port1(old(self)),
            final(self).same_port2(old(self)),
    {
        self.ppu.write_oam_dma(buffer);
    }
}

} // verus!
