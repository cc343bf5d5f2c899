//! Hypervisor detection and hypercall-relayed PCI configuration access.
//!
//! The restrictive hypervisor announces itself through a four-byte ASCII
//! signature returned by the CPU identification instruction at the leaf
//! reserved for hypervisor signature queries. The instruction itself cannot
//! be verified: the caller executes it and hands the signature bytes to
//! [`HypCam::is_pkvm`].

use crate::io::{HypercallChannel, IoAccess, IoKind};
use crate::pci::{ConfigAccess, ConfigurationAccess, DeviceFunction};
use vstd::prelude::*;

verus! {

/// A PCI configuration access mechanism: the legacy memory-mapped layout or
/// the enhanced one, which differ in how a device function and register
/// offset map to an address offset within the root's window.
#[derive(Clone, Copy, PartialEq, Eq, Structural, Debug)]
pub enum Cam {
    /// The legacy mechanism: 8 bits of register offset, 16 MiB of space.
    MmioCam,
    /// The enhanced mechanism: 12 bits of register offset, 256 MiB of space.
    Ecam,
}

impl Cam {
    /// The size in bytes of the configuration space window the mechanism
    /// addresses.
    pub open spec fn spec_size(self) -> usize {
        match self {
            Cam::MmioCam => 0x100_0000,
            Cam::Ecam => 0x1000_0000,
        }
    }

    /// The offset within the configuration space window at which the given
    /// register of the given device function sits: the bus, device and
    /// function numbers packed above the register offset, shifted by the
    /// mechanism's register-offset width.
    pub open spec fn spec_cam_offset(self, device_function: DeviceFunction, register_offset: u8) -> u32 {
        let bdf = (device_function.bus as u32) << 8 | (device_function.device as u32) << 3
            | (device_function.function as u32);
        let shift: u32 = match self {
            Cam::MmioCam => 8,
            Cam::Ecam => 12,
        };
        (bdf << shift) | (register_offset as u32)
    }

    /// Every offset the mechanism produces lies inside its window.
    pub proof fn lemma_cam_offset_bound(self, device_function: DeviceFunction, register_offset: u8)
        ensures
            self.spec_cam_offset(device_function, register_offset) < self.spec_size(),
    {
        let b = device_function.bus as u32;
        let d = device_function.device as u32;
        let f = device_function.function as u32;
        let r = register_offset as u32;
        assert(((b << 8 | d << 3 | f) << 8) | r < 0x100_0000) by (bit_vector)
            requires
                b < 0x100 && d < 0x100 && f < 0x100 && r < 0x100,
        ;
        assert(((b << 8 | d << 3 | f) << 12) | r < 0x1000_0000) by (bit_vector)
            requires
                b < 0x100 && d < 0x100 && f < 0x100 && r < 0x100,
        ;
    }

    /// Computes the mechanism's offset for a register of a device function.
    pub fn cam_offset(self, device_function: DeviceFunction, register_offset: u8) -> (r: u32)
        ensures
            r == self.spec_cam_offset(device_function, register_offset),
            r < self.spec_size(),
    {
        proof {
            self.lemma_cam_offset_bound(device_function, register_offset);
        }
        let bdf = (device_function.bus as u32) << 8 | (device_function.device as u32) << 3
            | (device_function.function as u32);
        let shift: u32 = match self {
            Cam::MmioCam => 8,
            Cam::Ecam => 12,
        };
        (bdf << shift) | (register_offset as u32)
    }
}

/// The signature bytes the restrictive hypervisor reports: the ASCII string
/// "PKVM".
pub open spec fn pkvm_signature() -> Seq<u8> {
    seq![0x50u8, 0x4Bu8, 0x56u8, 0x4Du8]
}

/// A PCI configuration access mechanism whose every register touch is relayed
/// through an I/O hypercall on the given channel.
///
/// One value must be driven from one execution context at a time: the device
/// state behind the relayed window is shared mutable state, so a caller that
/// duplicates the access path for composing with a PCI root must guarantee
/// that the two copies are never driven concurrently against the same
/// hardware.
pub struct HypCam<C: HypercallChannel> {
    /// The physical base address of the PCI root complex.
    pub phys_base: usize,
    pub cam: Cam,
    pub channel: C,
    pub access_history: Ghost<Seq<ConfigAccess>>,
}

impl<C: HypercallChannel> HypCam<C> {
    /// The whole configuration space window lies within the address space.
    pub open spec fn wf(self) -> bool {
        self.phys_base + self.cam.spec_size() <= usize::MAX
    }

    /// Creates a new mechanism for the PCI root complex at the given physical
    /// base address, relaying accesses through `channel`.
    pub fn new(phys_base: usize, cam: Cam, channel: C) -> (r: HypCam<C>)
        requires
            phys_base + cam.spec_size() <= usize::MAX,
        ensures
            r.wf(),
            r.phys_base == phys_base,
            r.cam == cam,
            r.channel == channel,
            r.access_log() == Seq::<ConfigAccess>::empty(),
    {
        HypCam { phys_base, cam, channel, access_history: Ghost(Seq::empty()) }
    }

    /// Returns whether the given CPU identification signature is the
    /// restrictive hypervisor's: the bytes of "PKVM". The caller obtains the
    /// signature from the CPU identification instruction at the hypervisor
    /// signature leaf.
    pub fn is_pkvm(signature: [u8; 4]) -> (r: bool)
        ensures
            r == (signature@ == pkvm_signature()),
    {
        let matches = signature[0] == 0x50 && signature[1] == 0x4B && signature[2] == 0x56
            && signature[3] == 0x4D;
        proof {
            if matches {
                assert(signature@ =~= pkvm_signature());
            } else {
                assert(signature@ != pkvm_signature());
            }
        }
        matches
    }
}

impl<C: HypercallChannel> ConfigurationAccess for HypCam<C> {
    open spec fn access_log(&self) -> Seq<ConfigAccess> {
        self.access_history@
    }

    fn read_word(&mut self, device_function: DeviceFunction, register_offset: u8) -> (data: u32)
        ensures
            final(self).phys_base == old(self).phys_base,
            final(self).cam == old(self).cam,
            old(self).wf() ==> ({
                let t = *old(self);
                let post = final(self).channel.log();
                &&& post == old(self).channel.log().push(
                    IoAccess {
                        kind: IoKind::Read,
                        address: (t.phys_base + t.cam.spec_cam_offset(
                            device_function,
                            register_offset,
                        )) as usize,
                        size: 4,
                        data: post.last().data,
                    },
                )
                &&& data == post.last().data & 0xFFFF_FFFF
            }),
    {
        let address = self.cam.cam_offset(device_function, register_offset);
        // The relayed address never overflows for a mechanism the constructor
        // admits; the trait carries no precondition, so a degenerate zero
        // read stands in where it would.
        if address as usize > usize::MAX - self.phys_base {
            self.access_history = Ghost(
                self.access_history@.push(
                    ConfigAccess { kind: IoKind::Read, device_function, register_offset, data: 0 },
                ),
            );
            return 0;
        }
        let data = self.channel.io_read(self.phys_base + address as usize, 4);
        proof {
            assert(data & 0xFFFF_FFFF < 0x1_0000_0000) by (bit_vector);
        }
        let word = (data & 0xFFFF_FFFF) as u32;
        self.access_history = Ghost(
            self.access_history@.push(
                ConfigAccess { kind: IoKind::Read, device_function, register_offset, data: word },
            ),
        );
        word
    }

    fn write_word(&mut self, device_function: DeviceFunction, register_offset: u8, data: u32)
        ensures
            final(self).phys_base == old(self).phys_base,
            final(self).cam == old(self).cam,
            old(self).wf() ==> ({
                let t = *old(self);
                final(self).channel.log() == old(self).channel.log().push(
                    IoAccess {
                        kind: IoKind::Write,
                        address: (t.phys_base + t.cam.spec_cam_offset(
                            device_function,
                            register_offset,
                        )) as usize,
                        size: 4,
                        data: data as u64,
                    },
                )
            }),
    {
        let address = self.cam.cam_offset(device_function, register_offset);
        self.access_history = Ghost(
            self.access_history@.push(
                ConfigAccess { kind: IoKind::Write, device_function, register_offset, data },
            ),
        );
        if address as usize > usize::MAX - self.phys_base {
            return ;
        }
        proof {
            let d = data as u64;
            assert(d & 0xFFFF_FFFF == d) by (bit_vector)
                requires
                    d < 0x1_0000_0000,
            ;
        }
        self.channel.io_write(self.phys_base + address as usize, 4, data as u64);
    }
}

} // verus!
