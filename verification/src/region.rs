//! A bounds-checked register window: one resolved, immutable BAR sub-region,
//! with typed reads and writes that each become one trapped I/O access (or,
//! for a 64-bit field, two).

use crate::io::{HypercallChannel, IoAccess, IoKind};
use vstd::prelude::*;

verus! {

/// A region of physical address space which may be accessed by I/O read and
/// write hypercalls. Copyable: access is stateless, each access being a fresh
/// hypercall; concurrent use from two owners is nonetheless a hazard, since
/// the device registers behind it are shared mutable state.
#[derive(Clone, Copy, PartialEq, Eq, Structural, Debug)]
pub struct HypIoRegion {
    /// The physical address of the start of the region.
    pub paddr: usize,
    /// The size of the region in bytes.
    pub size: usize,
}

/// The access an in-window read of `size` bytes at `offset` performs; its
/// `data` is whatever the device returned.
pub open spec fn region_read(region: HypIoRegion, offset: usize, size: usize, data: u64) -> IoAccess {
    IoAccess { kind: IoKind::Read, address: (region.paddr + offset) as usize, size, data }
}

/// The access an in-window write of `size` bytes at `offset` performs.
pub open spec fn region_write(region: HypIoRegion, offset: usize, size: usize, data: u64) -> IoAccess {
    IoAccess { kind: IoKind::Write, address: (region.paddr + offset) as usize, size, data }
}

impl HypIoRegion {
    /// The window describes addresses the machine has: its end does not wrap.
    pub open spec fn wf(self) -> bool {
        self.paddr + self.size <= usize::MAX
    }

    /// Reads one byte at `offset`.
    pub fn read_u8<C: HypercallChannel>(self, channel: &mut C, offset: usize) -> (r: u8)
        requires
            self.wf(),
            offset + 1 <= self.size,
        ensures
            final(channel).log() == old(channel).log().push(
                region_read(self, offset, 1, final(channel).log().last().data),
            ),
            r == final(channel).log().last().data & 0xFF,
    {
        let data = channel.io_read(self.paddr + offset, 1);
        proof {
            assert(data & 0xFF < 0x100) by (bit_vector);
        }
        (data & 0xFF) as u8
    }

    /// Reads a 16-bit value at `offset`.
    pub fn read_u16<C: HypercallChannel>(self, channel: &mut C, offset: usize) -> (r: u16)
        requires
            self.wf(),
            offset + 2 <= self.size,
        ensures
            final(channel).log() == old(channel).log().push(
                region_read(self, offset, 2, final(channel).log().last().data),
            ),
            r == final(channel).log().last().data & 0xFFFF,
    {
        let data = channel.io_read(self.paddr + offset, 2);
        proof {
            assert(data & 0xFFFF < 0x1_0000) by (bit_vector);
        }
        (data & 0xFFFF) as u16
    }

    /// Reads a 32-bit value at `offset`.
    pub fn read_u32<C: HypercallChannel>(self, channel: &mut C, offset: usize) -> (r: u32)
        requires
            self.wf(),
            offset + 4 <= self.size,
        ensures
            final(channel).log() == old(channel).log().push(
                region_read(self, offset, 4, final(channel).log().last().data),
            ),
            r == final(channel).log().last().data & 0xFFFF_FFFF,
    {
        let data = channel.io_read(self.paddr + offset, 4);
        proof {
            assert(data & 0xFFFF_FFFF < 0x1_0000_0000) by (bit_vector);
        }
        (data & 0xFFFF_FFFF) as u32
    }

    /// Writes one byte at `offset`.
    pub fn write_u8<C: HypercallChannel>(self, channel: &mut C, offset: usize, value: u8)
        requires
            self.wf(),
            offset + 1 <= self.size,
        ensures
            final(channel).log() == old(channel).log().push(
                region_write(self, offset, 1, value as u64),
            ),
    {
        let data = value as u64;
        proof {
            assert(data & 0xFF == data) by (bit_vector)
                requires
                    data < 0x100,
            ;
        }
        channel.io_write(self.paddr + offset, 1, data);
    }

    /// Writes a 16-bit value at `offset`.
    pub fn write_u16<C: HypercallChannel>(self, channel: &mut C, offset: usize, value: u16)
        requires
            self.wf(),
            offset + 2 <= self.size,
        ensures
            final(channel).log() == old(channel).log().push(
                region_write(self, offset, 2, value as u64),
            ),
    {
        let data = value as u64;
        proof {
            assert(data & 0xFFFF == data) by (bit_vector)
                requires
                    data < 0x1_0000,
            ;
        }
        channel.io_write(self.paddr + offset, 2, data);
    }

    /// Writes a 32-bit value at `offset`.
    pub fn write_u32<C: HypercallChannel>(self, channel: &mut C, offset: usize, value: u32)
        requires
            self.wf(),
            offset + 4 <= self.size,
        ensures
            final(channel).log() == old(channel).log().push(
                region_write(self, offset, 4, value as u64),
            ),
    {
        let data = value as u64;
        proof {
            assert(data & 0xFFFF_FFFF == data) by (bit_vector)
                requires
                    data < 0x1_0000_0000,
            ;
        }
        channel.io_write(self.paddr + offset, 4, data);
    }

    /// Writes a 64-bit value at `offset`.
    ///
    /// A 64-bit field cannot travel in one hypercall: each trapped access
    /// carries strictly less than the 8-byte payload ceiling. The value is
    /// therefore split into its low and high 32-bit words, written in that
    /// order at `offset` and `offset + 4`, with no atomicity across the two
    /// calls.
    pub fn write_u64<C: HypercallChannel>(self, channel: &mut C, offset: usize, value: u64)
        requires
            self.wf(),
            offset + 8 <= self.size,
        ensures
            final(channel).log() == old(channel).log().push(
                region_write(self, offset, 4, value & 0xFFFF_FFFF),
            ).push(region_write(self, (offset + 4) as usize, 4, value >> 32)),
    {
        proof {
            assert(value & 0xFFFF_FFFF < 0x1_0000_0000) by (bit_vector);
            assert(value >> 32 < 0x1_0000_0000) by (bit_vector);
        }
        self.write_u32(channel, offset, (value & 0xFFFF_FFFF) as u32);
        self.write_u32(channel, offset + 4, (value >> 32) as u32);
    }
}

} // verus!
