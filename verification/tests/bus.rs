use nestadia::bus::{CpuBus, PpuBus};
use nestadia::cartridge::Cartridge;
use nestadia::mirroring::{mirror_name_tables_addr, Mirroring, BANK_SIZE, VRAM_SIZE};
use nestadia::ppu::Ppu;
use nestadia::RAM_SIZE;

/// A cartridge of two flat memories that remembers what it was asked.
struct BoardCartridge {
    prg: Vec<u8>,
    chr: Vec<u8>,
    mode: Mirroring,
    scanlines: u32,
}

impl BoardCartridge {
    fn with_mode(mode: Mirroring) -> Self {
        BoardCartridge { prg: vec![0; 0x10000], chr: vec![0; 0x2000], mode, scanlines: 0 }
    }
}

impl Cartridge for BoardCartridge {
    type RomParserError = ();

    fn load(_rom: &[u8], _save_data: Option<&[u8]>) -> Result<Self, ()> {
        Ok(BoardCartridge::with_mode(Mirroring::Horizontal))
    }

    fn read_prg_mem(&mut self, addr: u16) -> u8 {
        self.prg[addr as usize]
    }

    fn write_prg_mem(&mut self, addr: u16, data: u8) {
        self.prg[addr as usize] = data;
    }

    fn read_chr_mem(&mut self, addr: u16) -> u8 {
        self.chr[addr as usize & 0x1FFF]
    }

    fn write_chr_mem(&mut self, addr: u16, data: u8) {
        self.chr[addr as usize & 0x1FFF] = data;
    }

    fn mirroring(&self) -> Mirroring {
        self.mode
    }

    fn irq_scanline(&mut self) {
        self.scanlines += 1;
    }

    fn take_irq_set_state(&mut self) -> bool {
        false
    }

    fn get_save_data(&self) -> Option<&[u8]> {
        None
    }

    fn disassemble(&self) -> Vec<(u16, String)> {
        Vec::new()
    }
}

/// A picture processor whose registers are video memory itself: a register
/// access at `addr` is a nametable access at `addr`.
struct WindowPpu {
    oam: Vec<u8>,
    accesses: u32,
}

impl WindowPpu {
    fn fresh() -> Self {
        WindowPpu { oam: Vec::new(), accesses: 0 }
    }
}

impl<C: Cartridge> Ppu<C> for WindowPpu {
    type Frame = ();

    fn new() -> Self {
        WindowPpu::fresh()
    }

    fn reset(&mut self) {}

    fn clock(&mut self, _bus: &mut PpuBus<'_, C>) {}

    fn read(&mut self, bus: &mut PpuBus<'_, C>, addr: u16) -> u8 {
        self.accesses += 1;
        bus.read_name_tables(addr)
    }

    fn write(&mut self, bus: &mut PpuBus<'_, C>, addr: u16, data: u8) {
        self.accesses += 1;
        bus.write_name_tables(addr, data);
    }

    fn write_oam_dma(&mut self, buffer: &[u8; 256]) {
        self.oam = buffer.to_vec();
    }

    fn take_vblank_nmi_set_state(&mut self) -> bool {
        false
    }

    fn ready_frame(&self) -> Option<&()> {
        None
    }
}

/// The parts that a CPU view is made of.
struct Parts {
    controller1: u8,
    controller2: u8,
    controller1_state: bool,
    controller2_state: bool,
    controller1_snapshot: u8,
    controller2_snapshot: u8,
    ram: [u8; 2048],
    cartridge: BoardCartridge,
    ppu: WindowPpu,
    name_tables: [u8; 4096],
}

impl Parts {
    fn with_mode(mode: Mirroring) -> Self {
        Parts {
            controller1: 0,
            controller2: 0,
            controller1_state: false,
            controller2_state: false,
            controller1_snapshot: 0,
            controller2_snapshot: 0,
            ram: [0; 2048],
            cartridge: BoardCartridge::with_mode(mode),
            ppu: WindowPpu::fresh(),
            name_tables: [0; 4096],
        }
    }

    fn fresh() -> Self {
        Parts::with_mode(Mirroring::Horizontal)
    }

    fn bus(&mut self) -> CpuBus<'_, BoardCartridge, WindowPpu> {
        CpuBus::borrow(
            &self.controller1,
            &self.controller2,
            &mut self.controller1_state,
            &mut self.controller2_state,
            &mut self.controller1_snapshot,
            &mut self.controller2_snapshot,
            &mut self.ram,
            &mut self.cartridge,
            &mut self.ppu,
            &mut self.name_tables,
        )
    }
}

const ALL_MODES: [Mirroring; 5] = [
    Mirroring::Horizontal,
    Mirroring::Vertical,
    Mirroring::FourScreen,
    Mirroring::OneScreenLower,
    Mirroring::OneScreenUpper,
];

#[test]
fn ram_size_is_two_kib() {
    assert_eq!(RAM_SIZE, 0x0800);
    assert_eq!(BANK_SIZE, 0x0400);
    assert_eq!(VRAM_SIZE, 0x1000);
}

#[test]
fn ram_write_is_read_back_through_every_mirror() {
    let mut parts = Parts::fresh();
    let mut bus = parts.bus();
    for low in (0u16..0x0800).step_by(37) {
        for writer in 0u16..32 {
            let a1 = low | (writer << 11);
            let data = (low as u8) ^ (writer as u8) ^ 0xA5;
            bus.write_ram(a1, data);
            for reader in 0u16..32 {
                let a2 = low | (reader << 11);
                assert_eq!(a1 & 0x07FF, a2 & 0x07FF);
                assert_eq!(bus.read_ram(a2), data);
            }
        }
    }
}

#[test]
fn ram_write_lands_at_address_modulo_size() {
    let mut parts = Parts::fresh();
    {
        let mut bus = parts.bus();
        bus.write_ram(0x0000, 0x11);
        bus.write_ram(0x0FFF, 0x22);
        bus.write_ram(0x1801, 0x33);
        bus.write_ram(0xFFFE, 0x44);
    }
    assert_eq!(parts.ram[0], 0x11);
    assert_eq!(parts.ram[0x07FF], 0x22);
    assert_eq!(parts.ram[1], 0x33);
    assert_eq!(parts.ram[0x07FE], 0x44);
    let touched = parts.ram.iter().filter(|byte| **byte != 0).count();
    assert_eq!(touched, 4);
}

#[test]
fn ram_write_leaves_other_addresses_alone() {
    let mut parts = Parts::fresh();
    let mut bus = parts.bus();
    bus.write_ram(0x0123, 0x77);
    bus.write_ram(0x0124, 0x88);
    assert_eq!(bus.read_ram(0x0123), 0x77);
    assert_eq!(bus.read_ram(0x0122), 0x00);
    assert_eq!(bus.read_ram(0x0923), 0x77);
    assert_eq!(bus.read_ram(0x0924), 0x88);
}

#[test]
fn ram_access_touches_nothing_else() {
    let mut parts = Parts::fresh();
    parts.controller1 = 0xC3;
    parts.controller1_snapshot = 0x5A;
    {
        let mut bus = parts.bus();
        bus.write_ram(0x0010, 0x99);
        assert_eq!(bus.read_ram(0x0010), 0x99);
    }
    assert_eq!(parts.controller1, 0xC3);
    assert_eq!(parts.controller1_snapshot, 0x5A);
    assert!(!parts.controller1_state);
    assert!(parts.name_tables.iter().all(|byte| *byte == 0));
    assert_eq!(parts.ppu.accesses, 0);
}

#[test]
fn controller_shifts_out_most_significant_bit_first() {
    let mut parts = Parts::fresh();
    parts.controller1 = 0b1011_0010;
    let mut bus = parts.bus();
    bus.controller1_write(0x00);
    let mut bits = Vec::new();
    for _ in 0..8 {
        bits.push(bus.read_controller1_snapshot());
    }
    assert_eq!(bits, vec![1, 0, 1, 1, 0, 0, 1, 0]);
    assert_eq!(bus.read_controller1_snapshot(), 0);
}

#[test]
fn controller_reads_zero_after_eight_bits_until_strobed_again() {
    let mut parts = Parts::fresh();
    parts.controller1 = 0xFF;
    let mut bus = parts.bus();
    bus.controller1_write(0x00);
    for _ in 0..8 {
        assert_eq!(bus.read_controller1_snapshot(), 1);
    }
    for _ in 0..20 {
        assert_eq!(bus.read_controller1_snapshot(), 0);
    }
    bus.controller1_write(0x01);
    bus.controller1_write(0x00);
    assert_eq!(bus.read_controller1_snapshot(), 1);
}

#[test]
fn controller_write_latches_live_byte_at_once() {
    let mut parts = Parts::fresh();
    parts.controller1 = 0x81;
    {
        let mut bus = parts.bus();
        bus.controller1_write(0x00);
    }
    assert_eq!(parts.controller1_snapshot, 0x81);
    assert!(!parts.controller1_state);
    {
        let mut bus = parts.bus();
        assert_eq!(bus.read_controller1_snapshot(), 1);
    }
    assert_eq!(parts.controller1_snapshot, 0x02);
}

#[test]
fn controller_shift_out_ignores_later_input() {
    let mut parts = Parts::fresh();
    parts.controller1 = 0b1000_0000;
    parts.bus().controller1_write(0x00);
    parts.controller1 = 0b0111_1111;
    let mut bus = parts.bus();
    let mut bits = Vec::new();
    for _ in 0..8 {
        bits.push(bus.read_controller1_snapshot());
    }
    assert_eq!(bits, vec![1, 0, 0, 0, 0, 0, 0, 0]);
}

#[test]
fn controller_poll_mode_follows_live_byte() {
    let mut parts = Parts::fresh();
    parts.bus().controller1_write(0x01);
    assert!(parts.controller1_state);
    for live in [0x80u8, 0x00, 0xFF, 0x7F, 0x80, 0x01, 0xC0] {
        parts.controller1 = live;
        let mut bus = parts.bus();
        for _ in 0..3 {
            assert_eq!(bus.read_controller1_snapshot(), live >> 7);
        }
    }
}

#[test]
fn controller_poll_mode_does_not_shift() {
    let mut parts = Parts::fresh();
    parts.controller1 = 0x80;
    {
        let mut bus = parts.bus();
        bus.controller1_write(0x01);
        for _ in 0..12 {
            assert_eq!(bus.read_controller1_snapshot(), 1);
        }
    }
    assert_eq!(parts.controller1_snapshot, 0x80);
}

#[test]
fn controller_strobe_is_bit_zero_of_the_write() {
    let mut parts = Parts::fresh();
    for (data, strobe) in [(0x00u8, false), (0x01, true), (0xFE, false), (0xFF, true), (0x03, true), (0x80, false)] {
        parts.bus().controller1_write(data);
        assert_eq!(parts.controller1_state, strobe);
        parts.bus().controller2_write(data);
        assert_eq!(parts.controller2_state, strobe);
    }
}

#[test]
fn second_controller_has_its_own_register() {
    let mut parts = Parts::fresh();
    parts.controller1 = 0b1111_0000;
    parts.controller2 = 0b0101_0110;
    let mut bus = parts.bus();
    bus.controller1_write(0x00);
    bus.controller2_write(0x00);
    let mut first = Vec::new();
    let mut second = Vec::new();
    for _ in 0..9 {
        second.push(bus.read_controller2_snapshot());
        first.push(bus.read_controller1_snapshot());
    }
    assert_eq!(first, vec![1, 1, 1, 1, 0, 0, 0, 0, 0]);
    assert_eq!(second, vec![0, 1, 0, 1, 0, 1, 1, 0, 0]);
}

#[test]
fn second_controller_polls_its_own_live_byte() {
    let mut parts = Parts::fresh();
    parts.controller1 = 0x00;
    parts.controller2 = 0x80;
    let mut bus = parts.bus();
    bus.controller2_write(0x01);
    assert_eq!(bus.read_controller2_snapshot(), 1);
    assert_eq!(bus.read_controller2_snapshot(), 1);
    bus.controller1_write(0x01);
    assert_eq!(bus.read_controller1_snapshot(), 0);
}

#[test]
fn horizontal_mirroring_pairs_top_and_bottom() {
    let mode = Mirroring::Horizontal;
    assert_eq!(mirror_name_tables_addr(mode, 0x2000), 0);
    assert_eq!(mirror_name_tables_addr(mode, 0x2400), 0);
    assert_eq!(mirror_name_tables_addr(mode, 0x2800), 1024);
    assert_eq!(mirror_name_tables_addr(mode, 0x2C00), 1024);
    for offset in 0u16..0x0400 {
        assert_eq!(mirror_name_tables_addr(mode, 0x2000 + offset), offset);
        assert_eq!(mirror_name_tables_addr(mode, 0x2400 + offset), offset);
        assert_eq!(mirror_name_tables_addr(mode, 0x2800 + offset), 1024 + offset);
        assert_eq!(mirror_name_tables_addr(mode, 0x2C00 + offset), 1024 + offset);
    }
}

#[test]
fn vertical_mirroring_pairs_left_and_right() {
    let mode = Mirroring::Vertical;
    assert_eq!(mirror_name_tables_addr(mode, 0x2000), 0);
    assert_eq!(mirror_name_tables_addr(mode, 0x2800), 0);
    assert_eq!(mirror_name_tables_addr(mode, 0x2400), 1024);
    assert_eq!(mirror_name_tables_addr(mode, 0x2C00), 1024);
    for offset in 0u16..0x0400 {
        assert_eq!(mirror_name_tables_addr(mode, 0x2000 + offset), offset);
        assert_eq!(mirror_name_tables_addr(mode, 0x2800 + offset), offset);
        assert_eq!(mirror_name_tables_addr(mode, 0x2400 + offset), 1024 + offset);
        assert_eq!(mirror_name_tables_addr(mode, 0x2C00 + offset), 1024 + offset);
    }
}

#[test]
fn four_screen_mirroring_aliases_nothing() {
    let mode = Mirroring::FourScreen;
    let mut seen = vec![false; 4096];
    for addr in 0x2000u16..0x3000 {
        let index = mirror_name_tables_addr(mode, addr);
        assert_eq!(index, addr - 0x2000);
        assert!(!seen[index as usize]);
        seen[index as usize] = true;
    }
    assert!(seen.iter().all(|hit| *hit));
}

#[test]
fn one_screen_mirroring_uses_a_single_bank() {
    for quadrant in 0u16..4 {
        for offset in [0u16, 1, 0x0155, 0x03FF] {
            let addr = 0x2000 + quadrant * 0x0400 + offset;
            assert_eq!(mirror_name_tables_addr(Mirroring::OneScreenLower, addr), offset);
            assert_eq!(mirror_name_tables_addr(Mirroring::OneScreenUpper, addr), 1024 + offset);
        }
    }
}

#[test]
fn mirrored_index_is_always_in_video_memory() {
    for mode in ALL_MODES {
        for addr in 0x2000u16..=0x3FFF {
            assert!(mirror_name_tables_addr(mode, addr) < VRAM_SIZE);
        }
    }
}

#[test]
fn window_repeats_above_0x3000() {
    for mode in ALL_MODES {
        for addr in (0x2000u16..0x3000).step_by(7) {
            let index = mirror_name_tables_addr(mode, addr);
            assert_eq!(mirror_name_tables_addr(mode, addr + 0x1000), index);
            assert_eq!(mirror_name_tables_addr(mode, addr | 0x4000), index);
            assert_eq!(mirror_name_tables_addr(mode, addr | 0xC000), index);
        }
    }
}

#[test]
fn last_address_of_each_quadrant() {
    assert_eq!(mirror_name_tables_addr(Mirroring::Horizontal, 0x23FF), 0x03FF);
    assert_eq!(mirror_name_tables_addr(Mirroring::Horizontal, 0x27FF), 0x03FF);
    assert_eq!(mirror_name_tables_addr(Mirroring::Horizontal, 0x2BFF), 0x07FF);
    assert_eq!(mirror_name_tables_addr(Mirroring::Horizontal, 0x2FFF), 0x07FF);
    assert_eq!(mirror_name_tables_addr(Mirroring::Vertical, 0x27FF), 0x07FF);
    assert_eq!(mirror_name_tables_addr(Mirroring::Vertical, 0x2BFF), 0x03FF);
    assert_eq!(mirror_name_tables_addr(Mirroring::FourScreen, 0x2FFF), 0x0FFF);
    assert_eq!(mirror_name_tables_addr(Mirroring::OneScreenLower, 0x2FFF), 0x03FF);
    assert_eq!(mirror_name_tables_addr(Mirroring::OneScreenUpper, 0x2000), 0x0400);
}

#[test]
fn nametable_write_is_read_back_through_its_alias() {
    let mut cartridge = BoardCartridge::with_mode(Mirroring::Vertical);
    let mut vram = [0u8; 4096];
    {
        let mut bus = PpuBus::borrow(&mut cartridge, &mut vram);
        bus.write_name_tables(0x2805, 0x5A);
        assert_eq!(bus.read_name_tables(0x2005), 0x5A);
        assert_eq!(bus.read_name_tables(0x2405), 0x00);
        bus.write_name_tables(0x2C05, 0xA5);
        assert_eq!(bus.read_name_tables(0x2405), 0xA5);
        assert_eq!(bus.read_name_tables(0x3405), 0xA5);
    }
    assert_eq!(vram[5], 0x5A);
    assert_eq!(vram[1024 + 5], 0xA5);
    assert_eq!(vram.iter().filter(|byte| **byte != 0).count(), 2);
}

#[test]
fn nametable_access_follows_the_mode_of_the_cartridge() {
    for (mode, index) in [
        (Mirroring::Horizontal, 0x0410usize),
        (Mirroring::Vertical, 0x0010),
        (Mirroring::FourScreen, 0x0810),
        (Mirroring::OneScreenLower, 0x0010),
        (Mirroring::OneScreenUpper, 0x0410),
    ] {
        let mut cartridge = BoardCartridge::with_mode(mode);
        let mut vram = [0u8; 4096];
        PpuBus::borrow(&mut cartridge, &mut vram).write_name_tables(0x2810, 0xEE);
        assert_eq!(vram[index], 0xEE);
        assert_eq!(vram.iter().filter(|byte| **byte != 0).count(), 1);
        vram[index] = 0x42;
        assert_eq!(PpuBus::borrow(&mut cartridge, &mut vram).read_name_tables(0x2810), 0x42);
    }
}

#[test]
fn nametable_access_sees_a_change_of_mode() {
    let mut cartridge = BoardCartridge::with_mode(Mirroring::OneScreenLower);
    let mut vram = [0u8; 4096];
    PpuBus::borrow(&mut cartridge, &mut vram).write_name_tables(0x2400, 1);
    cartridge.mode = Mirroring::OneScreenUpper;
    PpuBus::borrow(&mut cartridge, &mut vram).write_name_tables(0x2400, 2);
    assert_eq!(vram[0], 1);
    assert_eq!(vram[1024], 2);
}

#[test]
fn character_memory_goes_to_the_cartridge() {
    let mut cartridge = BoardCartridge::with_mode(Mirroring::Horizontal);
    let mut vram = [0u8; 4096];
    {
        let mut bus = PpuBus::borrow(&mut cartridge, &mut vram);
        bus.write_chr_mem(0x0123, 0x3C);
        assert_eq!(bus.read_chr_mem(0x0123), 0x3C);
        assert_eq!(bus.read_chr_mem(0x0124), 0x00);
    }
    assert_eq!(cartridge.chr[0x0123], 0x3C);
    assert!(vram.iter().all(|byte| *byte == 0));
}

#[test]
fn scanline_is_passed_on_to_the_cartridge() {
    let mut cartridge = BoardCartridge::with_mode(Mirroring::Horizontal);
    let mut vram = [0u8; 4096];
    {
        let mut bus = PpuBus::borrow(&mut cartridge, &mut vram);
        bus.irq_scanline();
        bus.irq_scanline();
        bus.irq_scanline();
    }
    assert_eq!(cartridge.scanlines, 3);
}

#[test]
fn program_memory_goes_to_the_cartridge() {
    let mut parts = Parts::fresh();
    {
        let mut bus = parts.bus();
        bus.write_prg_mem(0x8000, 0x4C);
        bus.write_prg_mem(0xFFFC, 0x34);
        assert_eq!(bus.read_prg_mem(0x8000), 0x4C);
        assert_eq!(bus.read_prg_mem(0xFFFC), 0x34);
        assert_eq!(bus.read_prg_mem(0x8001), 0x00);
    }
    assert_eq!(parts.cartridge.prg[0x8000], 0x4C);
    assert!(parts.ram.iter().all(|byte| *byte == 0));
}

#[test]
fn ppu_register_access_hands_the_ppu_a_view_of_video_memory() {
    let mut parts = Parts::with_mode(Mirroring::Horizontal);
    {
        let mut bus = parts.bus();
        bus.write_ppu_register(0x2C07, 0x6B);
        assert_eq!(bus.read_ppu_register(0x2807), 0x6B);
        assert_eq!(bus.read_ppu_register(0x2007), 0x00);
    }
    assert_eq!(parts.ppu.accesses, 3);
    assert_eq!(parts.name_tables[1024 + 7], 0x6B);
    assert!(parts.ram.iter().all(|byte| *byte == 0));
}

#[test]
fn oam_dma_hands_the_ppu_all_256_bytes() {
    let mut parts = Parts::fresh();
    let mut buffer = [0u8; 256];
    for (place, byte) in buffer.iter_mut().enumerate() {
        *byte = (place as u8).wrapping_mul(3);
    }
    parts.bus().write_ppu_oam_dma(&buffer);
    assert_eq!(parts.ppu.oam, buffer.to_vec());
}

#[test]
fn cpu_view_writes_back_to_its_parts() {
    let mut parts = Parts::fresh();
    parts.controller2 = 0x40;
    {
        let mut bus = parts.bus();
        bus.write_ram(0x07FF, 1);
        bus.controller2_write(0x00);
        bus.read_controller2_snapshot();
        bus.write_prg_mem(0x6000, 2);
        bus.write_ppu_register(0x2000, 3);
    }
    assert_eq!(parts.ram[0x07FF], 1);
    assert_eq!(parts.controller2_snapshot, 0x80);
    assert_eq!(parts.cartridge.prg[0x6000], 2);
    assert_eq!(parts.name_tables[0], 3);
    assert_eq!(parts.controller2, 0x40);
}
