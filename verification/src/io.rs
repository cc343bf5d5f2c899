//! The trapped I/O primitive: a hypervisor call that reads or writes up to a
//! register width of bytes at a physical address.
//!
//! The channel is modelled by the sequence of accesses it has performed. Every
//! read returns an arbitrary register width of data (the device decides); the
//! contracts of the operations built on top state exactly which accesses they
//! issue and how their results are computed from the data that came back.

use vstd::prelude::*;

verus! {

/// Whether a single hypercall may carry `size` bytes of payload. Every access
/// must stay strictly below the channel's 8-byte payload ceiling, so only
/// one-, two- and four-byte transfers are issued.
pub open spec fn valid_io_size(size: usize) -> bool {
    size == 1 || size == 2 || size == 4
}

/// The mask selecting the low `size` bytes of a payload.
pub open spec fn size_mask(size: usize) -> u64 {
    if size == 1 {
        0xFF
    } else if size == 2 {
        0xFFFF
    } else {
        0xFFFF_FFFF
    }
}

/// Direction of one trapped access.
#[derive(Clone, Copy, PartialEq, Eq, Structural, Debug)]
pub enum IoKind {
    Read,
    Write,
}

/// One trapped I/O access. For a read, `data` is the value the hypervisor
/// returned; for a write, the value handed to it.
#[derive(Clone, Copy, PartialEq, Eq, Structural, Debug)]
pub struct IoAccess {
    pub kind: IoKind,
    pub address: usize,
    pub size: usize,
    pub data: u64,
}

/// The hypercall channel: one trapped read and one trapped write, each a full
/// trap into the host carrying at most a register width of payload.
///
/// An implementation exposes the sequence of accesses it has performed as its
/// `log`; nothing is promised about the data a read returns, since the device
/// behind the channel decides it. The production implementation wraps the
/// hypervisor-call instruction and lives outside this crate; [`MemoryChannel`]
/// is an in-memory implementation for exercising the protocol.
pub trait HypercallChannel: Sized {
    /// The accesses this channel has performed, oldest first. An
    /// implementation that is reasoned about overrides this; the default — no
    /// accesses remembered — serves implementations outside the library, such
    /// as the production one, about whose log nothing is claimed.
    open spec fn log(&self) -> Seq<IoAccess> {
        Seq::empty()
    }

    /// Asks the hypervisor to perform an I/O read of `size` bytes at the given
    /// physical address. The full register width is returned; callers truncate
    /// to the requested size.
    fn io_read(&mut self, address: usize, size: usize) -> (data: u64)
        requires
            valid_io_size(size),
        ensures
            final(self).log() == old(self).log().push(
                IoAccess { kind: IoKind::Read, address, size, data },
            ),
    ;

    /// Asks the hypervisor to perform an I/O write of the low `size` bytes of
    /// `data` at the given physical address.
    fn io_write(&mut self, address: usize, size: usize, data: u64)
        requires
            valid_io_size(size),
            data & size_mask(size) == data,
        ensures
            final(self).log() == old(self).log().push(
                IoAccess { kind: IoKind::Write, address, size, data },
            ),
    ;
}

/// The value the in-memory channel holds at `address`: the data of the most
/// recent write to that exact address, or zero where none has happened.
pub open spec fn spec_stored(cells: Seq<(usize, u64)>, address: usize) -> u64
    decreases cells.len(),
{
    if cells.len() == 0 {
        0
    } else if cells.last().0 == address {
        cells.last().1
    } else {
        spec_stored(cells.drop_last(), address)
    }
}

/// An in-memory hypercall channel: writes are remembered by address and reads
/// return the most recently written value, truncated to the requested size.
/// It stands in for the hypervisor when the protocol is exercised without one.
pub struct MemoryChannel {
    cells: Vec<(usize, u64)>,
    history: Ghost<Seq<IoAccess>>,
}

impl MemoryChannel {
    /// What the channel currently holds at `address`.
    pub closed spec fn stored(&self, address: usize) -> u64 {
        spec_stored(self.cells@, address)
    }

    /// A channel that has performed no accesses and holds zero everywhere.
    pub fn new() -> (r: MemoryChannel)
        ensures
            r.log() == Seq::<IoAccess>::empty(),
            forall|a: usize| r.stored(a) == 0,
    {
        MemoryChannel { cells: Vec::new(), history: Ghost(Seq::empty()) }
    }

    /// The most recent value written at `address`, or zero.
    fn lookup(&self, address: usize) -> (r: u64)
        ensures
            r == self.stored(address),
    {
        let mut i: usize = self.cells.len();
        proof {
            assert(self.cells@.subrange(0, i as int) =~= self.cells@);
        }
        while i > 0
            invariant
                i <= self.cells.len(),
                spec_stored(self.cells@, address) == spec_stored(
                    self.cells@.subrange(0, i as int),
                    address,
                ),
            decreases i,
        {
            i = i - 1;
            let cell = self.cells[i];
            proof {
                assert(self.cells@.subrange(0, i + 1 as int).last() == self.cells@[i as int]);
                assert(self.cells@.subrange(0, i + 1 as int).drop_last() =~= self.cells@.subrange(
                    0,
                    i as int,
                ));
            }
            if cell.0 == address {
                return cell.1;
            }
        }
        proof {
            assert(self.cells@.subrange(0, 0) =~= Seq::<(usize, u64)>::empty());
        }
        0
    }
}

impl HypercallChannel for MemoryChannel {
    closed spec fn log(&self) -> Seq<IoAccess> {
        self.history@
    }

    fn io_read(&mut self, address: usize, size: usize) -> (data: u64)
        ensures
            data == old(self).stored(address) & size_mask(size),
            final(self).stored(address) == old(self).stored(address),
    {
        let stored = self.lookup(address);
        let mask: u64 = if size == 1 {
            0xFF
        } else if size == 2 {
            0xFFFF
        } else {
            0xFFFF_FFFF
        };
        let data = stored & mask;
        self.history = Ghost(
            self.history@.push(IoAccess { kind: IoKind::Read, address, size, data }),
        );
        data
    }

    fn io_write(&mut self, address: usize, size: usize, data: u64)
        ensures
            final(self).stored(address) == data,
            forall|a: usize| a != address ==> final(self).stored(a) == old(self).stored(a),
    {
        self.cells.push((address, data));
        proof {
            assert(self.cells@.drop_last() =~= old(self).cells@);
            assert forall|a: usize| a != address implies spec_stored(self.cells@, a)
                == spec_stored(old(self).cells@, a) by {
                assert(self.cells@.last().0 == address);
            }
        }
        self.history = Ghost(
            self.history@.push(IoAccess { kind: IoKind::Write, address, size, data }),
        );
    }
}

} // verus!
