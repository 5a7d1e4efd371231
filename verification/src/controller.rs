//! The serial protocol of a controller port: a strobe latch and an 8-bit
//! shift register over the live button byte.

use vstd::prelude::*;

verus! {

/// State of one controller port.
pub struct ControllerPort {
    /// Buttons held right now, as the host last set them.
    pub live: u8,
    /// The strobe latch: while set, reads poll the live byte.
    pub strobe: bool,
    /// The shift register that reads drain while the strobe is clear.
    pub snapshot: u8,
}

/// The strobe that a write of `data` to the port sets: bit 0.
pub open spec fn strobe_of(data: u8) -> bool {
    data & 0x01 == 0x01
}

/// Bit 7 of `byte`, as 0 or 1.
pub open spec fn top_bit(byte: u8) -> u8 {
    (byte & 0x80) >> 7
}

/// Bit `index` of `byte`, as 0 or 1.
pub open spec fn bit_of(byte: u8, index: u8) -> u8 {
    (byte >> index) & 1
}

impl ControllerPort {
    /// The port after the CPU writes `data` to it: the strobe follows bit 0
    /// and the shift register is loaded from the live byte.
    pub open spec fn after_write(self, data: u8) -> ControllerPort {
        ControllerPort { live: self.live, strobe: strobe_of(data), snapshot: self.live }
    }

    /// What a read of the port returns: bit 7 of the live byte while the
    /// strobe is set, else bit 7 of the shift register.
    pub open spec fn read_bit(self) -> u8 {
        if self.strobe {
            top_bit(self.live)
        } else {
            top_bit(self.snapshot)
        }
    }

    /// The port after a read: with the strobe clear the shift register moves
    /// up by one bit and takes in a zero.
    pub open spec fn after_read(self) -> ControllerPort {
        if self.strobe {
            self
        } else {
            ControllerPort { live: self.live, strobe: self.strobe, snapshot: self.snapshot << 1 }
        }
    }

    /// The port after `reads` reads in a row.
    pub open spec fn after_reads(self, reads: nat) -> ControllerPort
        decreases reads,
    {
        if reads == 0 {
            self
        } else {
            self.after_reads((reads - 1) as nat).after_read()
        }
    }

    /// The port after the host sets the live byte to `live`.
    pub open spec fn with_live(self, live: u8) -> ControllerPort {
        ControllerPort { live, strobe: self.strobe, snapshot: self.snapshot }
    }
}

/// While the strobe is set, a read returns bit 7 of the live byte as the
/// host last set it, and no number of reads changes the port.
pub proof fn lemma_poll_mode(port: ControllerPort, live: u8, reads: nat)
    requires
        port.strobe,
    ensures
        port.with_live(live).read_bit() == top_bit(live),
        port.with_live(live).after_reads(reads) == port.with_live(live),
    decreases reads,
{
    if reads > 0 {
        lemma_poll_mode(port, live, (reads - 1) as nat);
    }
}

/// While the strobe is clear, what the host does to the live byte shows in
/// no read.
pub proof fn lemma_shift_ignores_live(port: ControllerPort, live: u8)
    requires
        !port.strobe,
    ensures
        port.with_live(live).read_bit() == port.read_bit(),
        port.with_live(live).after_read() == port.after_read().with_live(live),
{
}

/// With the strobe clear, `reads` reads leave the shift register holding
/// its first value moved up by `reads` bits; after eight it is empty.
pub proof fn lemma_shift_register(port: ControllerPort, reads: nat)
    requires
        !port.strobe,
    ensures
        port.after_reads(reads).live == port.live,
        !port.after_reads(reads).strobe,
        reads < 8 ==> port.after_reads(reads).snapshot == port.snapshot << (reads as u8),
        reads >= 8 ==> port.after_reads(reads).snapshot == 0,
    decreases reads,
{
    let first = port.snapshot;
    if reads == 0 {
        assert(first << 0u8 == first) by (bit_vector);
    } else {
        lemma_shift_register(port, (reads - 1) as nat);
        if reads < 8 {
            let moved = (reads - 1) as u8;
            assert(moved < 7 ==> (first << moved) << 1 == first << ((moved + 1) as u8))
                by (bit_vector);
        } else if reads == 8 {
            assert((first << 7u8) << 1 == 0) by (bit_vector);
        } else {
            assert(0u8 << 1 == 0) by (bit_vector);
        }
    }
}

/// After a write that clears the strobe, the first eight reads return the
/// bits of the live byte as it was at the write, bit 7 first, and every
/// later read returns 0.
pub proof fn lemma_shift_out(port: ControllerPort, data: u8, reads: nat)
    requires
        !strobe_of(data),
    ensures
        reads < 8 ==> port.after_write(data).after_reads(reads).read_bit() == bit_of(
            port.live,
            (7 - reads) as u8,
        ),
        reads >= 8 ==> port.after_write(data).after_reads(reads).read_bit() == 0,
{
    lemma_shift_register(port.after_write(data), reads);
    let held = port.live;
    if reads < 8 {
        let moved = reads as u8;
        assert(moved < 8 ==> ((held << moved) & 0x80) >> 7 == (held >> ((7 - moved) as u8)) & 1)
            by (bit_vector);
    } else {
        assert((0u8 & 0x80) >> 7 == 0) by (bit_vector);
    }
}

} // verus!
