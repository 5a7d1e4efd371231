//! Nametable mirroring: how the four logical nametables of the picture
//! processor alias onto the physical banks of video memory.

use vstd::prelude::*;

verus! {

/// Size in bytes of one nametable, and of one bank of video memory.
pub const BANK_SIZE: u16 = 0x0400;

/// Size in bytes of video memory: four banks.
pub const VRAM_SIZE: u16 = 0x1000;

/// Policy, chosen by the cartridge, that maps logical nametables to banks.
#[derive(Clone, Copy, Debug, PartialEq, Eq, Structural)]
pub enum Mirroring {
    /// The two upper nametables share bank 0, the two lower share bank 1.
    Horizontal,
    /// The two left nametables share bank 0, the two right share bank 1.
    Vertical,
    /// Each nametable has a bank of its own.
    FourScreen,
    /// Every nametable is bank 0.
    OneScreenLower,
    /// Every nametable is bank 1.
    OneScreenUpper,
}

/// Whether `addr` folds into the logical nametable window. Every address
/// from `0x2000` to `0x3FFF` does, and so does any other with bit 13 set.
pub open spec fn folds_into_window(addr: u16) -> bool {
    addr & 0x2FFF >= 0x2000
}

/// Offset of a video address inside the logical nametable window
/// `0x2000..=0x2FFF`, once bits 12, 14 and 15 are dropped.
pub open spec fn logical_offset(addr: u16) -> int {
    (addr & 0x2FFF) - 0x2000
}

/// Physical bank behind logical nametable `quadrant`, counted 0 to 3 from
/// `0x2000` up, under `mode`.
pub open spec fn bank_of(mode: Mirroring, quadrant: int) -> int {
    match mode {
        Mirroring::Horizontal => quadrant / 2,
        Mirroring::Vertical => quadrant % 2,
        Mirroring::FourScreen => quadrant,
        Mirroring::OneScreenLower => 0,
        Mirroring::OneScreenUpper => 1,
    }
}

/// Index into video memory of the byte behind video address `addr`: the
/// bank of the address's nametable, and in it the place that the byte has
/// in the nametable.
pub open spec fn mirror_index(mode: Mirroring, addr: u16) -> int {
    let offset = logical_offset(addr);
    bank_of(mode, offset / 0x0400) * 0x0400 + offset % 0x0400
}

/// The address of byte `offset` of logical nametable `quadrant`.
pub open spec fn nametable_addr(quadrant: u16, offset: u16) -> u16 {
    (0x2000 + quadrant * 0x0400 + offset) as u16
}

/// The logical offset of an address that folds into the window is its low
/// twelve bits.
pub proof fn lemma_logical_offset(addr: u16)
    requires
        folds_into_window(addr),
    ensures
        0 <= logical_offset(addr) < 0x1000,
        logical_offset(addr) == addr & 0x0FFF,
{
    assert(addr & 0x2FFF >= 0x2000 ==> (addr & 0x2FFF) - 0x2000 == addr & 0x0FFF && addr & 0x0FFF
        < 0x1000) by (bit_vector);
}

/// The index that an address mirrors to lies in video memory, whatever the
/// mode.
pub proof fn lemma_mirror_index_in_vram(mode: Mirroring, addr: u16)
    requires
        folds_into_window(addr),
    ensures
        0 <= mirror_index(mode, addr) < VRAM_SIZE,
{
    lemma_logical_offset(addr);
}

/// Only the low twelve bits of an address count: addresses that agree in
/// them mirror to the same index. So `0x3000..=0x3FFF` repeats
/// `0x2000..=0x2FFF`.
pub proof fn lemma_window_repeats(mode: Mirroring, a: u16, b: u16)
    requires
        folds_into_window(a),
        folds_into_window(b),
        a & 0x0FFF == b & 0x0FFF,
    ensures
        mirror_index(mode, a) == mirror_index(mode, b),
{
    lemma_logical_offset(a);
    lemma_logical_offset(b);
}

/// Byte `offset` of logical nametable `quadrant` lies at `offset` in the
/// bank that the mode gives the nametable.
pub proof fn lemma_mirroring_table(mode: Mirroring, quadrant: u16, offset: u16)
    requires
        quadrant < 4,
        offset < BANK_SIZE,
    ensures
        folds_into_window(nametable_addr(quadrant, offset)),
        logical_offset(nametable_addr(quadrant, offset)) == quadrant * 0x0400 + offset,
        mirror_index(mode, nametable_addr(quadrant, offset)) == bank_of(mode, quadrant as int)
            * 0x0400 + offset,
{
    let addr = nametable_addr(quadrant, offset);
    assert(0x2000 <= addr <= 0x2FFF ==> addr & 0x2FFF == addr) by (bit_vector);
}

/// Horizontal mirroring: `0x2000` and `0x2400` share bank 0, `0x2800` and
/// `0x2C00` share bank 1, byte for byte.
pub proof fn lemma_horizontal(offset: u16)
    requires
        offset < BANK_SIZE,
    ensures
        mirror_index(Mirroring::Horizontal, nametable_addr(0, offset)) == offset,
        mirror_index(Mirroring::Horizontal, nametable_addr(1, offset)) == offset,
        mirror_index(Mirroring::Horizontal, nametable_addr(2, offset)) == 0x0400 + offset,
        mirror_index(Mirroring::Horizontal, nametable_addr(3, offset)) == 0x0400 + offset,
{
    lemma_mirroring_table(Mirroring::Horizontal, 0, offset);
    lemma_mirroring_table(Mirroring::Horizontal, 1, offset);
    lemma_mirroring_table(Mirroring::Horizontal, 2, offset);
    lemma_mirroring_table(Mirroring::Horizontal, 3, offset);
}

/// Vertical mirroring: `0x2000` and `0x2800` share bank 0, `0x2400` and
/// `0x2C00` share bank 1, byte for byte.
pub proof fn lemma_vertical(offset: u16)
    requires
        offset < BANK_SIZE,
    ensures
        mirror_index(Mirroring::Vertical, nametable_addr(0, offset)) == offset,
        mirror_index(Mirroring::Vertical, nametable_addr(2, offset)) == offset,
        mirror_index(Mirroring::Vertical, nametable_addr(1, offset)) == 0x0400 + offset,
        mirror_index(Mirroring::Vertical, nametable_addr(3, offset)) == 0x0400 + offset,
{
    lemma_mirroring_table(Mirroring::Vertical, 0, offset);
    lemma_mirroring_table(Mirroring::Vertical, 1, offset);
    lemma_mirroring_table(Mirroring::Vertical, 2, offset);
    lemma_mirroring_table(Mirroring::Vertical, 3, offset);
}

/// Four-screen mirroring: an address mirrors to its logical offset, so no
/// two bytes of the window share a byte of video memory.
pub proof fn lemma_four_screen(a: u16, b: u16)
    requires
        folds_into_window(a),
        folds_into_window(b),
    ensures
        mirror_index(Mirroring::FourScreen, a) == logical_offset(a),
        logical_offset(a) != logical_offset(b) ==> mirror_index(Mirroring::FourScreen, a)
            != mirror_index(Mirroring::FourScreen, b),
{
    lemma_logical_offset(a);
    lemma_logical_offset(b);
}

/// One-screen mirroring: every address mirrors into bank 0 under the lower
/// mode and into bank 1 under the upper, at its place in its nametable.
pub proof fn lemma_one_screen(addr: u16)
    requires
        folds_into_window(addr),
    ensures
        mirror_index(Mirroring::OneScreenLower, addr) == logical_offset(addr) % 0x0400,
        mirror_index(Mirroring::OneScreenUpper, addr) == 0x0400 + logical_offset(addr) % 0x0400,
        0 <= mirror_index(Mirroring::OneScreenLower, addr) < 0x0400,
        0x0400 <= mirror_index(Mirroring::OneScreenUpper, addr) < 0x0800,
{
    lemma_logical_offset(addr);
}

/// The index in video memory of the byte behind video address `addr` under
/// `mode`.
pub fn mirror_name_tables_addr(mode: Mirroring, addr: u16) -> (index: u16)
    requires
        folds_into_window(addr),
    ensures
        index == mirror_index(mode, addr),
        index < VRAM_SIZE,
{
    proof {
        lemma_logical_offset(addr);
    }
    let mirrored: u16 = addr & 0x2FFF;
    let idx: u16 = mirrored - 0x2000;
    match mode {
        Mirroring::Horizontal => {
            if idx < 1024 {
                idx
            } else if idx < 3072 {
                idx - 1024
            } else {
                idx - 2048
            }
        },
        Mirroring::Vertical => {
            if idx < 2048 {
                idx
            } else {
                idx - 2048
            }
        },
        Mirroring::FourScreen => idx,
        Mirroring::OneScreenLower => {
            if idx < 1024 {
                idx
            } else if idx < 2048 {
                idx - 1024
            } else if idx < 3072 {
                idx - 2048
            } else {
                idx - 3072
            }
        },
        Mirroring::OneScreenUpper => {
            if idx < 1024 {
                idx + 1024
            } else if idx < 2048 {
                idx
            } else if idx < 3072 {
                idx - 1024
            } else {
                idx - 2048
            }
        },
    }
}

} // verus!
