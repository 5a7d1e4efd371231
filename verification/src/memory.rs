//! Work RAM: 2 KiB of storage that the CPU sees four times over in the
//! address window `0x0000..=0x1FFF`.

use vstd::prelude::*;

verus! {

/// Size of work RAM in bytes.
pub const RAM_SIZE: u16 = 0x0800;

/// Memory of `len` bytes, all zero: what the console holds when switched on.
pub open spec fn zeroed(len: nat) -> Seq<u8> {
    Seq::new(len, |i: int| 0u8)
}

/// Index into work RAM of the byte behind CPU address `addr`.
pub open spec fn ram_index(addr: u16) -> int {
    (addr & 0x07FF) as int
}

/// The index of an address is its remainder modulo the size of work RAM, so
/// it is a valid index whatever the address.
pub proof fn lemma_ram_index_is_remainder(addr: u16)
    ensures
        ram_index(addr) == addr % 2048,
        0 <= ram_index(addr) < 2048,
{
    assert((addr & 0x07FF) == addr % 2048) by (bit_vector);
}

/// A value stored through one address is the value loaded through any
/// address that agrees with it in the low eleven bits, and every byte that
/// the store does not name is left as it was.
pub proof fn lemma_ram_mirroring(ram: Seq<u8>, a1: u16, a2: u16, data: u8)
    requires
        ram.len() == 2048,
    ensures
        a1 & 0x07FF == a2 & 0x07FF ==> ram.update(ram_index(a1), data)[ram_index(a2)] == data,
        a1 & 0x07FF != a2 & 0x07FF ==> ram.update(ram_index(a1), data)[ram_index(a2)]
            == ram[ram_index(a2)],
{
    lemma_ram_index_is_remainder(a1);
    lemma_ram_index_is_remainder(a2);
}

/// Addresses `0x0800` apart name the same byte: the RAM repeats every 2 KiB.
pub proof fn lemma_ram_repeats(addr: u16)
    requires
        addr < 0xF800,
    ensures
        ram_index((addr + 0x0800) as u16) == ram_index(addr),
{
    assert(addr < 0xF800 ==> ((addr + 0x0800u16) as u16) & 0x07FF == addr & 0x07FF)
        by (bit_vector);
}

} // verus!
