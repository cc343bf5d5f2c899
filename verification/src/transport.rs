//! The VirtIO PCI transport protocol, built from hypercall-relayed register
//! windows: feature negotiation, per-queue configuration, notification,
//! interrupt acknowledgment, and device-configuration access.
//!
//! Every operation's contract states exactly which trapped accesses it
//! appends to the channel's log and how its result is computed from the data
//! those accesses returned: the register-level protocol is replayed exactly.

use crate::io::{HypercallChannel, IoAccess, IoKind};
use crate::pci::{
    capability_walk_matches, is_config_read, spec_resolve_bar_region, vendor_decode_matches,
    first_capability, get_bar_region, spec_first_capability, BarInfo, CapabilityInfo,
    ConfigurationAccess, DeviceFunction, PciRoot, VendorCapability, VirtioPciError,
    VIRTIO_PCI_CAP_COMMON_CFG, VIRTIO_PCI_CAP_DEVICE_CFG, VIRTIO_PCI_CAP_ISR_CFG,
    VIRTIO_PCI_CAP_NOTIFY_CFG, VIRTIO_VENDOR_ID,
};
use crate::region::{region_read, region_write, HypIoRegion};
use vstd::prelude::*;

verus! {

// Byte offsets of the fields of the common configuration structure, whose
// layout is fixed by the VirtIO specification: four 32-bit feature registers,
// then five 16-bit registers (MSI-X configuration and queue count among
// them), two bytes of status and generation, six 16-bit queue-scoped
// registers, and three 64-bit queue addresses.
pub const DEVICE_FEATURE_SELECT_OFFSET: usize = 0;

pub const DEVICE_FEATURE_OFFSET: usize = 4;

pub const DRIVER_FEATURE_SELECT_OFFSET: usize = 8;

pub const DRIVER_FEATURE_OFFSET: usize = 12;

pub const DEVICE_STATUS_OFFSET: usize = 20;

pub const CONFIG_GENERATION_OFFSET: usize = 21;

pub const QUEUE_SELECT_OFFSET: usize = 22;

pub const QUEUE_SIZE_OFFSET: usize = 24;

pub const QUEUE_ENABLE_OFFSET: usize = 28;

pub const QUEUE_NOTIFY_OFF_OFFSET: usize = 30;

pub const QUEUE_DESC_OFFSET: usize = 32;

pub const QUEUE_DRIVER_OFFSET: usize = 40;

pub const QUEUE_DEVICE_OFFSET: usize = 48;

/// The size in bytes of the common configuration structure.
pub const COMMON_CFG_SIZE: usize = 56;

/// The low half of a 64-bit feature set: what travels under select index 0.
pub open spec fn feature_low(features: u64) -> u64 {
    features & 0xFFFF_FFFF
}

/// The high half of a 64-bit feature set: what travels under select index 1.
pub open spec fn feature_high(features: u64) -> u64 {
    features >> 32
}

/// The 64-bit feature set recomposed from the two 32-bit halves read under
/// select indices 0 and 1.
pub open spec fn feature_join(low: u64, high: u64) -> u64 {
    ((high & 0xFFFF_FFFF) << 32) | (low & 0xFFFF_FFFF)
}

/// Splitting a feature set into the two words the driver writes and joining
/// what a device echoing those words would return yields the set back: the
/// two-phase select/write and select/read sequencing is bit-exact.
pub proof fn lemma_feature_round_trip(features: u64)
    ensures
        feature_join(feature_low(features), feature_high(features)) == features,
{
    assert((((features >> 32) & 0xFFFF_FFFF) << 32) | ((features & 0xFFFF_FFFF) & 0xFFFF_FFFF)
        == features) by (bit_vector);
}

/// The byte offset inside the notify region at which a queue is notified:
/// the queue's notify offset (a 16-bit register value) times the transport's
/// notify-offset multiplier.
pub open spec fn notify_byte_offset(queue_notify_off: u64, notify_off_multiplier: u32) -> int {
    (queue_notify_off & 0xFFFF) * notify_off_multiplier
}

/// PCI transport for VirtIO over I/O hypercalls: the four register windows
/// resolved from the device's capability list (the device-configuration one
/// optional), the notify-offset multiplier, and the identity of the device.
/// The windows are resolved once, at construction, and immutable afterwards.
///
/// One instance must be exclusively owned by one driver session: the
/// queue-scoped operations share the device's select register, so two owners
/// interleaving operations on the same device would corrupt each other's
/// select-then-access pairs.
#[derive(Clone, Copy, PartialEq, Eq, Structural, Debug)]
pub struct HypPciTransport {
    pub device_type: DeviceType,
    /// The bus, device and function identifier of the VirtIO device.
    pub device_function: DeviceFunction,
    /// The common configuration structure within some BAR.
    pub common_cfg: HypIoRegion,
    /// The start of the queue notification region within some BAR.
    pub notify_region: HypIoRegion,
    pub notify_off_multiplier: u32,
    /// The interrupt status register within some BAR.
    pub isr_status: HypIoRegion,
    /// The VirtIO device-specific configuration within some BAR.
    pub config_space: Option<HypIoRegion>,
}

/// The access a transport operation performs when reading `size` bytes at
/// `offset` of the common configuration window.
pub open spec fn common_read(t: HypPciTransport, offset: usize, size: usize, data: u64) -> IoAccess {
    region_read(t.common_cfg, offset, size, data)
}

/// The access a transport operation performs when writing `size` bytes at
/// `offset` of the common configuration window.
pub open spec fn common_write(t: HypPciTransport, offset: usize, size: usize, data: u64) -> IoAccess {
    region_write(t.common_cfg, offset, size, data)
}

impl HypPciTransport {
    /// What construction guarantees of every transport: each window is
    /// well-formed and large enough for the accesses the protocol makes in
    /// it, and the notify-offset multiplier is even.
    pub open spec fn wf(self) -> bool {
        &&& self.common_cfg.wf()
        &&& self.common_cfg.size >= COMMON_CFG_SIZE
        &&& self.notify_region.wf()
        &&& self.notify_region.size >= 2
        &&& self.isr_status.wf()
        &&& self.isr_status.size >= 1
        &&& self.notify_off_multiplier % 2 == 0
        &&& match self.config_space {
            Some(config_space) => config_space.wf() && config_space.size >= 4,
            None => true,
        }
    }

    /// The type of the device, decoded once at construction from its PCI
    /// device identifier.
    pub fn device_type(&self) -> (r: DeviceType)
        ensures
            r == self.device_type,
    {
        self.device_type
    }

    /// Reads the device's 64-bit feature set: the low half under feature
    /// select index 0, the high half under index 1.
    pub fn read_device_features<C: HypercallChannel>(&mut self, channel: &mut C) -> (features: u64)
        requires
            old(self).wf(),
        ensures
            *final(self) == *old(self),
            ({
                let t = *old(self);
                let pre = old(channel).log();
                let post = final(channel).log();
                let n = pre.len() as int;
                &&& post == pre.push(common_write(t, DEVICE_FEATURE_SELECT_OFFSET, 4, 0)).push(
                    common_read(t, DEVICE_FEATURE_OFFSET, 4, post[n + 1].data),
                ).push(common_write(t, DEVICE_FEATURE_SELECT_OFFSET, 4, 1)).push(
                    common_read(t, DEVICE_FEATURE_OFFSET, 4, post[n + 3].data),
                )
                &&& features == feature_join(post[n + 1].data, post[n + 3].data)
            }),
    {
        let ghost pre = channel.log();
        self.common_cfg.write_u32(channel, DEVICE_FEATURE_SELECT_OFFSET, 0);
        let device_features_low = self.common_cfg.read_u32(channel, DEVICE_FEATURE_OFFSET);
        let ghost l2 = channel.log();
        self.common_cfg.write_u32(channel, DEVICE_FEATURE_SELECT_OFFSET, 1);
        let device_features_high = self.common_cfg.read_u32(channel, DEVICE_FEATURE_OFFSET);
        proof {
            let post = channel.log();
            let n = pre.len() as int;
            assert(post[n + 1] == l2.last());
            assert(post[n + 3] == post.last());
        }
        ((device_features_high as u64) << 32) | (device_features_low as u64)
    }

    /// Writes the driver's 64-bit feature set: the low half under feature
    /// select index 0, the high half under index 1.
    pub fn write_driver_features<C: HypercallChannel>(
        &mut self,
        channel: &mut C,
        driver_features: u64,
    )
        requires
            old(self).wf(),
        ensures
            *final(self) == *old(self),
            ({
                let t = *old(self);
                final(channel).log() == old(channel).log().push(
                    common_write(t, DRIVER_FEATURE_SELECT_OFFSET, 4, 0),
                ).push(common_write(t, DRIVER_FEATURE_OFFSET, 4, feature_low(driver_features))).push(
                    common_write(t, DRIVER_FEATURE_SELECT_OFFSET, 4, 1),
                ).push(common_write(t, DRIVER_FEATURE_OFFSET, 4, feature_high(driver_features)))
            }),
    {
        proof {
            let v = driver_features;
            assert(v & 0xFFFF_FFFF < 0x1_0000_0000) by (bit_vector);
            assert(v >> 32 < 0x1_0000_0000) by (bit_vector);
        }
        self.common_cfg.write_u32(channel, DRIVER_FEATURE_SELECT_OFFSET, 0);
        self.common_cfg.write_u32(
            channel,
            DRIVER_FEATURE_OFFSET,
            (driver_features & 0xFFFF_FFFF) as u32,
        );
        self.common_cfg.write_u32(channel, DRIVER_FEATURE_SELECT_OFFSET, 1);
        self.common_cfg.write_u32(channel, DRIVER_FEATURE_OFFSET, (driver_features >> 32) as u32);
    }

    /// Reads the largest queue size the device supports for `queue`: select
    /// the queue, read the 16-bit queue-size register, widen.
    pub fn max_queue_size<C: HypercallChannel>(&mut self, channel: &mut C, queue: u16) -> (r: u32)
        requires
            old(self).wf(),
        ensures
            *final(self) == *old(self),
            ({
                let t = *old(self);
                let pre = old(channel).log();
                let post = final(channel).log();
                let n = pre.len() as int;
                &&& post == pre.push(common_write(t, QUEUE_SELECT_OFFSET, 2, queue as u64)).push(
                    common_read(t, QUEUE_SIZE_OFFSET, 2, post[n + 1].data),
                )
                &&& r == post[n + 1].data & 0xFFFF
            }),
    {
        self.common_cfg.write_u16(channel, QUEUE_SELECT_OFFSET, queue);
        let queue_size = self.common_cfg.read_u16(channel, QUEUE_SIZE_OFFSET);
        queue_size as u32
    }

    /// Notifies the device that `queue` has new work: select the queue, read
    /// its 16-bit notify offset, and write the queue index at that offset
    /// times the notify-offset multiplier inside the notify region.
    ///
    /// Returns whether the notification was written: a device whose notify
    /// offset places the write outside the notify region is non-conforming,
    /// and the write is withheld rather than issued out of bounds.
    pub fn notify<C: HypercallChannel>(&mut self, channel: &mut C, queue: u16) -> (performed: bool)
        requires
            old(self).wf(),
        ensures
            *final(self) == *old(self),
            ({
                let t = *old(self);
                let pre = old(channel).log();
                let post = final(channel).log();
                let n = pre.len() as int;
                &&& post.len() >= n + 2
                &&& post[n] == common_write(t, QUEUE_SELECT_OFFSET, 2, queue as u64)
                &&& post[n + 1] == common_read(t, QUEUE_NOTIFY_OFF_OFFSET, 2, post[n + 1].data)
                &&& ({
                    let offset_bytes = notify_byte_offset(
                        post[n + 1].data,
                        t.notify_off_multiplier,
                    );
                    if offset_bytes + 2 <= t.notify_region.size {
                        &&& performed
                        &&& post == pre.push(post[n]).push(post[n + 1]).push(
                            IoAccess {
                                kind: IoKind::Write,
                                address: (t.notify_region.paddr + offset_bytes) as usize,
                                size: 2,
                                data: queue as u64,
                            },
                        )
                    } else {
                        &&& !performed
                        &&& post == pre.push(post[n]).push(post[n + 1])
                    }
                })
            }),
    {
        self.common_cfg.write_u16(channel, QUEUE_SELECT_OFFSET, queue);
        let queue_notify_off = self.common_cfg.read_u16(channel, QUEUE_NOTIFY_OFF_OFFSET);
        let ghost l2 = channel.log();
        proof {
            let q = queue_notify_off as u64;
            assert(q & 0xFFFF == q) by (bit_vector)
                requires
                    q < 0x1_0000,
            ;
            let m = self.notify_off_multiplier as u64;
            assert((queue_notify_off as u64) * m < 0x1_0000_0000_0000) by (nonlinear_arith)
                requires
                    (queue_notify_off as u64) < 0x1_0000,
                    m < 0x1_0000_0000,
            ;
        }
        let offset_bytes: u64 = (queue_notify_off as u64) * (self.notify_off_multiplier as u64);
        if offset_bytes + 2 <= self.notify_region.size as u64 {
            self.notify_region.write_u16(channel, offset_bytes as usize, queue);
            proof {
                let post = channel.log();
                let n = old(channel).log().len() as int;
                assert(post[n] == l2[n]);
                assert(post[n + 1] == l2.last());
            }
            true
        } else {
            proof {
                let post = channel.log();
                let n = old(channel).log().len() as int;
                assert(post[n + 1] == post.last());
            }
            false
        }
    }

    /// Reads the 8-bit device-status register, exposed as a raw bit-flag set.
    pub fn get_status<C: HypercallChannel>(&self, channel: &mut C) -> (status: u8)
        requires
            self.wf(),
        ensures
            ({
                let pre = old(channel).log();
                let post = final(channel).log();
                let n = pre.len() as int;
                &&& post == pre.push(common_read(*self, DEVICE_STATUS_OFFSET, 1, post[n].data))
                &&& status == post[n].data & 0xFF
            }),
    {
        self.common_cfg.read_u8(channel, DEVICE_STATUS_OFFSET)
    }

    /// Writes the 8-bit device-status register.
    pub fn set_status<C: HypercallChannel>(&mut self, channel: &mut C, status: u8)
        requires
            old(self).wf(),
        ensures
            *final(self) == *old(self),
            final(channel).log() == old(channel).log().push(
                common_write(*old(self), DEVICE_STATUS_OFFSET, 1, status as u64),
            ),
    {
        self.common_cfg.write_u8(channel, DEVICE_STATUS_OFFSET, status);
    }

    /// Does nothing: the guest page size is meaningful only for the legacy
    /// register layout, which this transport does not implement.
    pub fn set_guest_page_size(&mut self, _guest_page_size: u32)
        ensures
            *final(self) == *old(self),
    {
    }

    /// This transport never uses the legacy register layout.
    pub fn requires_legacy_layout(&self) -> (r: bool)
        ensures
            !r,
    {
        false
    }

    /// Configures `queue`: select it, write its size, write the three 64-bit
    /// physical addresses of its descriptor table, driver area and device
    /// area — each split into two 32-bit writes, low word first, since a
    /// 64-bit field cannot travel in one hypercall — and finally write 1 to
    /// the queue-enable register. There is no rollback: the protocol has no
    /// error channel for individual register writes.
    pub fn queue_set<C: HypercallChannel>(
        &mut self,
        channel: &mut C,
        queue: u16,
        size: u32,
        descriptors: usize,
        driver_area: usize,
        device_area: usize,
    )
        requires
            old(self).wf(),
        ensures
            *final(self) == *old(self),
            ({
                let t = *old(self);
                let desc = descriptors as u64;
                let driver = driver_area as u64;
                let device = device_area as u64;
                final(channel).log() == old(channel).log().push(
                    common_write(t, QUEUE_SELECT_OFFSET, 2, queue as u64),
                ).push(common_write(t, QUEUE_SIZE_OFFSET, 2, (size as u64) & 0xFFFF)).push(
                    common_write(t, QUEUE_DESC_OFFSET, 4, desc & 0xFFFF_FFFF),
                ).push(common_write(t, (QUEUE_DESC_OFFSET + 4) as usize, 4, desc >> 32)).push(
                    common_write(t, QUEUE_DRIVER_OFFSET, 4, driver & 0xFFFF_FFFF),
                ).push(common_write(t, (QUEUE_DRIVER_OFFSET + 4) as usize, 4, driver >> 32)).push(
                    common_write(t, QUEUE_DEVICE_OFFSET, 4, device & 0xFFFF_FFFF),
                ).push(common_write(t, (QUEUE_DEVICE_OFFSET + 4) as usize, 4, device >> 32)).push(
                    common_write(t, QUEUE_ENABLE_OFFSET, 2, 1),
                )
            }),
    {
        proof {
            let s = size;
            assert(((s & 0xFFFF) as u16) as u64 == (s as u64) & 0xFFFF) by (bit_vector);
        }
        self.common_cfg.write_u16(channel, QUEUE_SELECT_OFFSET, queue);
        self.common_cfg.write_u16(channel, QUEUE_SIZE_OFFSET, (size & 0xFFFF) as u16);
        self.common_cfg.write_u64(channel, QUEUE_DESC_OFFSET, descriptors as u64);
        self.common_cfg.write_u64(channel, QUEUE_DRIVER_OFFSET, driver_area as u64);
        self.common_cfg.write_u64(channel, QUEUE_DEVICE_OFFSET, device_area as u64);
        self.common_cfg.write_u16(channel, QUEUE_ENABLE_OFFSET, 1);
    }

    /// Does nothing: the protocol provides no way to disable a queue once it
    /// has been set up, so enabling is monotonic.
    pub fn queue_unset(&mut self, _queue: u16)
        ensures
            *final(self) == *old(self),
    {
    }

    /// Returns whether `queue` is in use: select it and read the queue-enable
    /// register, which holds 1 exactly for a configured queue.
    pub fn queue_used<C: HypercallChannel>(&mut self, channel: &mut C, queue: u16) -> (r: bool)
        requires
            old(self).wf(),
        ensures
            *final(self) == *old(self),
            ({
                let t = *old(self);
                let pre = old(channel).log();
                let post = final(channel).log();
                let n = pre.len() as int;
                &&& post == pre.push(common_write(t, QUEUE_SELECT_OFFSET, 2, queue as u64)).push(
                    common_read(t, QUEUE_ENABLE_OFFSET, 2, post[n + 1].data),
                )
                &&& r == (post[n + 1].data & 0xFFFF == 1)
            }),
    {
        self.common_cfg.write_u16(channel, QUEUE_SELECT_OFFSET, queue);
        let queue_enable = self.common_cfg.read_u16(channel, QUEUE_ENABLE_OFFSET);
        queue_enable == 1
    }

    /// Acknowledges an interrupt by reading the 8-bit interrupt-status
    /// register; per the device's own semantics the read clears the register
    /// and de-asserts the interrupt line. Returns whether either of the two
    /// low bits — queue interrupt and configuration-change interrupt, not
    /// distinguished here — was set.
    pub fn ack_interrupt<C: HypercallChannel>(&mut self, channel: &mut C) -> (r: bool)
        requires
            old(self).wf(),
        ensures
            *final(self) == *old(self),
            ({
                let t = *old(self);
                let pre = old(channel).log();
                let post = final(channel).log();
                let n = pre.len() as int;
                &&& post == pre.push(region_read(t.isr_status, 0, 1, post[n].data))
                &&& r == (post[n].data & 0x3 != 0)
            }),
    {
        let isr_status = self.isr_status.read_u8(channel, 0);
        proof {
            let d = final(channel).log().last().data;
            assert((d & 0xFF) & 0x3 == d & 0x3) by (bit_vector);
        }
        isr_status & 0x3 != 0
    }

    /// Reads the configuration-generation counter, incremented by the device
    /// whenever its configuration changes. The counter is a single byte, and
    /// deliberately only that byte is read, so the widened result carries no
    /// stray bits of the neighbouring registers. No retry logic sits here: a
    /// caller guarding multi-field reads against tearing samples the
    /// generation before and after its own reads and retries on mismatch.
    pub fn read_config_generation<C: HypercallChannel>(&self, channel: &mut C) -> (r: u32)
        requires
            self.wf(),
        ensures
            ({
                let pre = old(channel).log();
                let post = final(channel).log();
                let n = pre.len() as int;
                &&& post == pre.push(common_read(*self, CONFIG_GENERATION_OFFSET, 1, post[n].data))
                &&& r == post[n].data & 0xFF
            }),
    {
        self.common_cfg.read_u8(channel, CONFIG_GENERATION_OFFSET) as u32
    }

    /// Reads a 32-bit value at `offset` of the device-specific configuration
    /// space. Fails when the device publishes no such space, or when the
    /// access would run past its end; a driver may legitimately probe for
    /// optional fields, so both are returned, not raised.
    pub fn read_config_space_u32<C: HypercallChannel>(&self, channel: &mut C, offset: usize) -> (r:
        Result<u32, Error>)
        requires
            self.wf(),
            offset % 4 == 0,
        ensures
            ({
                let pre = old(channel).log();
                let post = final(channel).log();
                let n = pre.len() as int;
                match self.config_space {
                    None => r == Err::<u32, Error>(Error::ConfigSpaceMissing) && post == pre,
                    Some(config_space) => {
                        if config_space.size < offset + 4 {
                            r == Err::<u32, Error>(Error::ConfigSpaceTooSmall) && post == pre
                        } else {
                            &&& post == pre.push(
                                region_read(config_space, offset, 4, post[n].data),
                            )
                            &&& r == Ok::<u32, Error>((post[n].data & 0xFFFF_FFFF) as u32)
                        }
                    },
                }
            }),
    {
        let config_space = match self.config_space {
            Some(config_space) => config_space,
            None => {
                return Err(Error::ConfigSpaceMissing);
            },
        };
        if config_space.size < 4 || offset > config_space.size - 4 {
            Err(Error::ConfigSpaceTooSmall)
        } else {
            Ok(config_space.read_u32(channel, offset))
        }
    }

    /// Reads a 16-bit value at `offset` of the device-specific configuration
    /// space, under the same bounds rules as the 32-bit read.
    pub fn read_config_space_u16<C: HypercallChannel>(&self, channel: &mut C, offset: usize) -> (r:
        Result<u16, Error>)
        requires
            self.wf(),
            offset % 2 == 0,
        ensures
            ({
                let pre = old(channel).log();
                let post = final(channel).log();
                let n = pre.len() as int;
                match self.config_space {
                    None => r == Err::<u16, Error>(Error::ConfigSpaceMissing) && post == pre,
                    Some(config_space) => {
                        if config_space.size < offset + 2 {
                            r == Err::<u16, Error>(Error::ConfigSpaceTooSmall) && post == pre
                        } else {
                            &&& post == pre.push(
                                region_read(config_space, offset, 2, post[n].data),
                            )
                            &&& r == Ok::<u16, Error>((post[n].data & 0xFFFF) as u16)
                        }
                    },
                }
            }),
    {
        let config_space = match self.config_space {
            Some(config_space) => config_space,
            None => {
                return Err(Error::ConfigSpaceMissing);
            },
        };
        if config_space.size < 2 || offset > config_space.size - 2 {
            Err(Error::ConfigSpaceTooSmall)
        } else {
            Ok(config_space.read_u16(channel, offset))
        }
    }

    /// Reads one byte at `offset` of the device-specific configuration
    /// space, under the same bounds rules as the 32-bit read.
    pub fn read_config_space_u8<C: HypercallChannel>(&self, channel: &mut C, offset: usize) -> (r:
        Result<u8, Error>)
        requires
            self.wf(),
        ensures
            ({
                let pre = old(channel).log();
                let post = final(channel).log();
                let n = pre.len() as int;
                match self.config_space {
                    None => r == Err::<u8, Error>(Error::ConfigSpaceMissing) && post == pre,
                    Some(config_space) => {
                        if config_space.size < offset + 1 {
                            r == Err::<u8, Error>(Error::ConfigSpaceTooSmall) && post == pre
                        } else {
                            &&& post == pre.push(
                                region_read(config_space, offset, 1, post[n].data),
                            )
                            &&& r == Ok::<u8, Error>((post[n].data & 0xFF) as u8)
                        }
                    },
                }
            }),
    {
        let config_space = match self.config_space {
            Some(config_space) => config_space,
            None => {
                return Err(Error::ConfigSpaceMissing);
            },
        };
        if config_space.size < 1 || offset > config_space.size - 1 {
            Err(Error::ConfigSpaceTooSmall)
        } else {
            Ok(config_space.read_u8(channel, offset))
        }
    }

    /// Writes a 32-bit value at `offset` of the device-specific configuration
    /// space, under the same bounds rules as the 32-bit read.
    pub fn write_config_space_u32<C: HypercallChannel>(
        &mut self,
        channel: &mut C,
        offset: usize,
        value: u32,
    ) -> (r: Result<(), Error>)
        requires
            old(self).wf(),
            offset % 4 == 0,
        ensures
            *final(self) == *old(self),
            ({
                let pre = old(channel).log();
                let post = final(channel).log();
                match old(self).config_space {
                    None => r == Err::<(), Error>(Error::ConfigSpaceMissing) && post == pre,
                    Some(config_space) => {
                        if config_space.size < offset + 4 {
                            r == Err::<(), Error>(Error::ConfigSpaceTooSmall) && post == pre
                        } else {
                            &&& post == pre.push(region_write(config_space, offset, 4, value as u64))
                            &&& r == Ok::<(), Error>(())
                        }
                    },
                }
            }),
    {
        let config_space = match self.config_space {
            Some(config_space) => config_space,
            None => {
                return Err(Error::ConfigSpaceMissing);
            },
        };
        if config_space.size < 4 || offset > config_space.size - 4 {
            Err(Error::ConfigSpaceTooSmall)
        } else {
            config_space.write_u32(channel, offset, value);
            Ok(())
        }
    }

    /// Writes a 16-bit value at `offset` of the device-specific configuration
    /// space, under the same bounds rules as the 32-bit read.
    pub fn write_config_space_u16<C: HypercallChannel>(
        &mut self,
        channel: &mut C,
        offset: usize,
        value: u16,
    ) -> (r: Result<(), Error>)
        requires
            old(self).wf(),
            offset % 2 == 0,
        ensures
            *final(self) == *old(self),
            ({
                let pre = old(channel).log();
                let post = final(channel).log();
                match old(self).config_space {
                    None => r == Err::<(), Error>(Error::ConfigSpaceMissing) && post == pre,
                    Some(config_space) => {
                        if config_space.size < offset + 2 {
                            r == Err::<(), Error>(Error::ConfigSpaceTooSmall) && post == pre
                        } else {
                            &&& post == pre.push(region_write(config_space, offset, 2, value as u64))
                            &&& r == Ok::<(), Error>(())
                        }
                    },
                }
            }),
    {
        let config_space = match self.config_space {
            Some(config_space) => config_space,
            None => {
                return Err(Error::ConfigSpaceMissing);
            },
        };
        if config_space.size < 2 || offset > config_space.size - 2 {
            Err(Error::ConfigSpaceTooSmall)
        } else {
            config_space.write_u16(channel, offset, value);
            Ok(())
        }
    }

    /// Writes one byte at `offset` of the device-specific configuration
    /// space, under the same bounds rules as the 32-bit read.
    pub fn write_config_space_u8<C: HypercallChannel>(
        &mut self,
        channel: &mut C,
        offset: usize,
        value: u8,
    ) -> (r: Result<(), Error>)
        requires
            old(self).wf(),
        ensures
            *final(self) == *old(self),
            ({
                let pre = old(channel).log();
                let post = final(channel).log();
                match old(self).config_space {
                    None => r == Err::<(), Error>(Error::ConfigSpaceMissing) && post == pre,
                    Some(config_space) => {
                        if config_space.size < offset + 1 {
                            r == Err::<(), Error>(Error::ConfigSpaceTooSmall) && post == pre
                        } else {
                            &&& post == pre.push(region_write(config_space, offset, 1, value as u64))
                            &&& r == Ok::<(), Error>(())
                        }
                    },
                }
            }),
    {
        let config_space = match self.config_space {
            Some(config_space) => config_space,
            None => {
                return Err(Error::ConfigSpaceMissing);
            },
        };
        if config_space.size < 1 || offset > config_space.size - 1 {
            Err(Error::ConfigSpaceTooSmall)
        } else {
            config_space.write_u8(channel, offset, value);
            Ok(())
        }
    }
}

/// Assembly of a transport from what discovery gathered: the device and
/// vendor identifier word, the decoded vendor capabilities in list order, and
/// the six decoded BARs. Rejections, in the order they are checked: a vendor
/// identifier other than the VirtIO one; no eligible common-configuration
/// capability, or one whose window does not resolve; no eligible
/// notify-configuration capability, an odd notify-offset multiplier, or a
/// notify window that does not resolve; no interrupt-status capability, or
/// its window not resolving; a device-configuration capability present but
/// its window not resolving. The windows are resolved for the types accessed
/// in them: the 56-byte, 8-byte-aligned common structure, 16-bit notify
/// writes, 8-bit interrupt status, 32-bit configuration accesses.
pub open spec fn spec_resolve_transport(
    device_function: DeviceFunction,
    device_vendor: u32,
    caps: Seq<VendorCapability>,
    bars: Seq<BarInfo>,
) -> Result<HypPciTransport, VirtioPciError> {
    if device_vendor & 0xFFFF != VIRTIO_VENDOR_ID {
        Err(VirtioPciError::InvalidVendorId((device_vendor & 0xFFFF) as u16))
    } else {
        match spec_first_capability(caps, VIRTIO_PCI_CAP_COMMON_CFG) {
            None => Err(VirtioPciError::MissingCommonConfig),
            Some(common) => match spec_resolve_bar_region(bars, common.info, COMMON_CFG_SIZE, 8) {
                Err(e) => Err(e),
                Ok(common_cfg) => match spec_first_capability(caps, VIRTIO_PCI_CAP_NOTIFY_CFG) {
                    None => Err(VirtioPciError::MissingNotifyConfig),
                    Some(notify) => {
                        if notify.notify_off_multiplier % 2 != 0 {
                            Err(
                                VirtioPciError::InvalidNotifyOffMultiplier(
                                    notify.notify_off_multiplier,
                                ),
                            )
                        } else {
                            match spec_resolve_bar_region(bars, notify.info, 2, 2) {
                                Err(e) => Err(e),
                                Ok(notify_region) => match spec_first_capability(
                                    caps,
                                    VIRTIO_PCI_CAP_ISR_CFG,
                                ) {
                                    None => Err(VirtioPciError::MissingIsrConfig),
                                    Some(isr) => match spec_resolve_bar_region(
                                        bars,
                                        isr.info,
                                        1,
                                        1,
                                    ) {
                                        Err(e) => Err(e),
                                        Ok(isr_status) => {
                                            let config_space = match spec_first_capability(
                                                caps,
                                                VIRTIO_PCI_CAP_DEVICE_CFG,
                                            ) {
                                                None => Ok(None),
                                                Some(device) => match spec_resolve_bar_region(
                                                    bars,
                                                    device.info,
                                                    4,
                                                    4,
                                                ) {
                                                    Err(e) => Err(e),
                                                    Ok(region) => Ok(Some(region)),
                                                },
                                            };
                                            match config_space {
                                                Err(e) => Err(e),
                                                Ok(config_space) => Ok(
                                                    HypPciTransport {
                                                        device_type: spec_device_type(
                                                            (device_vendor >> 16) as u16,
                                                        ),
                                                        device_function,
                                                        common_cfg,
                                                        notify_region,
                                                        notify_off_multiplier:
                                                            notify.notify_off_multiplier,
                                                        isr_status,
                                                        config_space,
                                                    },
                                                ),
                                            }
                                        },
                                    },
                                },
                            }
                        }
                    },
                },
            },
        }
    }
}

impl HypPciTransport {
    /// Assembles a transport from the discovery results, as
    /// [`spec_resolve_transport`] lays down.
    pub fn resolve_transport(
        device_function: DeviceFunction,
        device_vendor: u32,
        caps: &Vec<VendorCapability>,
        bars: &[BarInfo; 6],
    ) -> (r: Result<HypPciTransport, VirtioPciError>)
        ensures
            r == spec_resolve_transport(device_function, device_vendor, caps@, bars@),
            r matches Ok(t) ==> t.wf() && t.device_function == device_function,
    {
        proof {
            let w = device_vendor;
            assert(w & 0xFFFF < 0x1_0000) by (bit_vector);
            assert(w >> 16 < 0x1_0000) by (bit_vector);
        }
        let vendor_id = (device_vendor & 0xFFFF) as u16;
        if vendor_id != VIRTIO_VENDOR_ID {
            return Err(VirtioPciError::InvalidVendorId(vendor_id));
        }
        let device_type = device_type((device_vendor >> 16) as u16);
        let common = match first_capability(caps, VIRTIO_PCI_CAP_COMMON_CFG) {
            Some(common) => common,
            None => {
                return Err(VirtioPciError::MissingCommonConfig);
            },
        };
        let common_cfg = match get_bar_region(bars, &common.info, COMMON_CFG_SIZE, 8) {
            Ok(region) => region,
            Err(e) => {
                return Err(e);
            },
        };
        let notify = match first_capability(caps, VIRTIO_PCI_CAP_NOTIFY_CFG) {
            Some(notify) => notify,
            None => {
                return Err(VirtioPciError::MissingNotifyConfig);
            },
        };
        if notify.notify_off_multiplier % 2 != 0 {
            return Err(VirtioPciError::InvalidNotifyOffMultiplier(notify.notify_off_multiplier));
        }
        let notify_region = match get_bar_region(bars, &notify.info, 2, 2) {
            Ok(region) => region,
            Err(e) => {
                return Err(e);
            },
        };
        let isr_status = match get_bar_region(
            bars,
            &match first_capability(caps, VIRTIO_PCI_CAP_ISR_CFG) {
                Some(isr) => isr,
                None => {
                    return Err(VirtioPciError::MissingIsrConfig);
                },
            }.info,
            1,
            1,
        ) {
            Ok(region) => region,
            Err(e) => {
                return Err(e);
            },
        };
        let config_space = match first_capability(caps, VIRTIO_PCI_CAP_DEVICE_CFG) {
            None => None,
            Some(device) => match get_bar_region(bars, &device.info, 4, 4) {
                Ok(region) => Some(region),
                Err(e) => {
                    return Err(e);
                },
            },
        };
        proof {
            crate::pci::lemma_resolved_region_wf(bars@, common.info, COMMON_CFG_SIZE, 8, common_cfg);
            crate::pci::lemma_resolved_region_wf(bars@, notify.info, 2, 2, notify_region);
        }
        Ok(
            HypPciTransport {
                device_type,
                device_function,
                common_cfg,
                notify_region,
                notify_off_multiplier: notify.notify_off_multiplier,
                isr_status,
                config_space,
            },
        )
    }

    /// Constructs a new VirtIO transport for the given device function on the
    /// given PCI root: read the device and vendor identifier and, only when
    /// the vendor is the VirtIO one, walk and decode the vendor capabilities
    /// and resolve the four register windows against the six decoded BARs of
    /// the device function, which the caller's PCI root supplies. A foreign
    /// vendor is rejected before any further configuration access is relayed.
    /// A malformed or non-conforming device fails construction with the
    /// specific reason; the device cannot change at run time, so the caller
    /// is expected to abandon it rather than retry.
    pub fn new<C: ConfigurationAccess>(
        root: &mut PciRoot<C>,
        device_function: DeviceFunction,
        bars: &[BarInfo; 6],
    ) -> (r: Result<HypPciTransport, VirtioPciError>)
        ensures
            r matches Ok(t) ==> t.wf() && t.device_function == device_function,
            ({
                let pre = old(root).configuration_access.access_log();
                let post = final(root).configuration_access.access_log();
                let n = pre.len() as int;
                &&& post.len() > n
                &&& post.subrange(0, n) == pre
                &&& is_config_read(post[n], device_function, 0)
                &&& (post[n].data & 0xFFFF != VIRTIO_VENDOR_ID ==> {
                    &&& post == pre.push(post[n])
                    &&& r == Err::<HypPciTransport, VirtioPciError>(
                        VirtioPciError::InvalidVendorId((post[n].data & 0xFFFF) as u16),
                    )
                })
                &&& (post[n].data & 0xFFFF == VIRTIO_VENDOR_ID ==> exists|
                    k: int,
                    raw: Seq<CapabilityInfo>,
                    caps: Seq<VendorCapability>,
                |
                    {
                        &&& n + 1 <= k <= post.len()
                        &&& capability_walk_matches(device_function, post.subrange(n + 1, k), raw)
                        &&& #[trigger] vendor_decode_matches(
                            device_function,
                            raw,
                            post.subrange(k, post.len() as int),
                            caps,
                        )
                        &&& r == spec_resolve_transport(device_function, post[n].data, caps, bars@)
                    })
            }),
    {
        let ghost pre = root.configuration_access.access_log();
        let ghost n = pre.len() as int;
        let device_vendor = root.configuration_access.read_word(device_function, 0);
        let ghost vendor_access = root.configuration_access.access_log().last();
        proof {
            let w = device_vendor;
            assert(w & 0xFFFF < 0x1_0000) by (bit_vector);
        }
        let vendor_id = (device_vendor & 0xFFFF) as u16;
        if vendor_id != VIRTIO_VENDOR_ID {
            proof {
                let post = root.configuration_access.access_log();
                assert(post.subrange(0, n) =~= pre);
            }
            return Err(VirtioPciError::InvalidVendorId(vendor_id));
        }
        let raw = root.capabilities(device_function);
        let ghost l2 = root.configuration_access.access_log();
        let caps = root.read_vendor_capabilities(device_function, &raw);
        let result = Self::resolve_transport(device_function, device_vendor, &caps, bars);
        proof {
            let post = root.configuration_access.access_log();
            let k = l2.len() as int;
            assert(post.subrange(0, k) == l2);
            assert forall|j: int| 0 <= j < k implies post[j] == l2[j] by {
                assert(post.subrange(0, k)[j] == post[j]);
            }
            assert(l2.subrange(0, n + 1) == pre.push(vendor_access));
            assert forall|j: int| 0 <= j <= n implies l2[j] == pre.push(vendor_access)[j] by {
                assert(l2.subrange(0, n + 1)[j] == l2[j]);
            }
            assert(post.subrange(0, n) =~= pre);
            assert(post[n] == vendor_access);
            assert(post.subrange(n + 1, k) =~= l2.subrange(n + 1, k));
            assert(l2.subrange(0, n + 1) =~= pre.push(vendor_access));
            assert(l2.subrange(n + 1, k) =~= l2.subrange(n + 1, l2.len() as int));
            assert(capability_walk_matches(device_function, post.subrange(n + 1, k), raw@));
            assert(vendor_decode_matches(
                device_function,
                raw@,
                post.subrange(k, post.len() as int),
                caps@,
            ));
        }
        result
    }
}

/// An error a transport operation returns at run time; discovery-time errors
/// are [`VirtioPciError`].
#[derive(Clone, Copy, PartialEq, Eq, Structural, Debug)]
pub enum Error {
    /// The device publishes no device-specific configuration space.
    ConfigSpaceMissing,
    /// The access would run past the end of the configuration space.
    ConfigSpaceTooSmall,
}

/// The type of a VirtIO device, decoded from its PCI device identifier.
#[derive(Clone, Copy, PartialEq, Eq, Structural, Debug)]
pub enum DeviceType {
    Invalid,
    Network,
    Block,
    Console,
    EntropySource,
    TraditionalMemoryBalloon,
    IoMemory,
    Rpmsg,
    ScsiHost,
    NineP,
    Mac80211,
    RprocSerial,
    Caif,
    MemoryBalloon,
    Gpu,
    Timer,
    Input,
    Socket,
    Crypto,
    SignalDistribution,
    Pstore,
    Iommu,
    Memory,
}

/// The device type a PCI device identifier names: the transitional
/// identifiers name their fixed types, and identifiers from 0x1040 up name
/// the type numbered by their distance from 0x1040. Everything else, the
/// unassigned numbers included, is invalid.
pub open spec fn spec_device_type(pci_device_id: u16) -> DeviceType {
    if pci_device_id == 0x1000 {
        DeviceType::Network
    } else if pci_device_id == 0x1001 {
        DeviceType::Block
    } else if pci_device_id == 0x1002 {
        DeviceType::TraditionalMemoryBalloon
    } else if pci_device_id == 0x1003 {
        DeviceType::Console
    } else if pci_device_id == 0x1004 {
        DeviceType::ScsiHost
    } else if pci_device_id == 0x1005 {
        DeviceType::EntropySource
    } else if pci_device_id == 0x1009 {
        DeviceType::NineP
    } else if 0x1040 <= pci_device_id {
        spec_device_type_number((pci_device_id - 0x1040) as u16)
    } else {
        DeviceType::Invalid
    }
}

/// The device type assigned to a VirtIO device type number.
pub open spec fn spec_device_type_number(number: u16) -> DeviceType {
    match number {
        1u16 => DeviceType::Network,
        2u16 => DeviceType::Block,
        3u16 => DeviceType::Console,
        4u16 => DeviceType::EntropySource,
        5u16 => DeviceType::TraditionalMemoryBalloon,
        6u16 => DeviceType::IoMemory,
        7u16 => DeviceType::Rpmsg,
        8u16 => DeviceType::ScsiHost,
        9u16 => DeviceType::NineP,
        10u16 => DeviceType::Mac80211,
        11u16 => DeviceType::RprocSerial,
        12u16 => DeviceType::Caif,
        13u16 => DeviceType::MemoryBalloon,
        16u16 => DeviceType::Gpu,
        17u16 => DeviceType::Timer,
        18u16 => DeviceType::Input,
        19u16 => DeviceType::Socket,
        20u16 => DeviceType::Crypto,
        21u16 => DeviceType::SignalDistribution,
        22u16 => DeviceType::Pstore,
        23u16 => DeviceType::Iommu,
        24u16 => DeviceType::Memory,
        _ => DeviceType::Invalid,
    }
}

/// Decodes the type of a VirtIO device from its PCI device identifier.
pub fn device_type(pci_device_id: u16) -> (r: DeviceType)
    ensures
        r == spec_device_type(pci_device_id),
{
    if pci_device_id == 0x1000 {
        DeviceType::Network
    } else if pci_device_id == 0x1001 {
        DeviceType::Block
    } else if pci_device_id == 0x1002 {
        DeviceType::TraditionalMemoryBalloon
    } else if pci_device_id == 0x1003 {
        DeviceType::Console
    } else if pci_device_id == 0x1004 {
        DeviceType::ScsiHost
    } else if pci_device_id == 0x1005 {
        DeviceType::EntropySource
    } else if pci_device_id == 0x1009 {
        DeviceType::NineP
    } else if 0x1040 <= pci_device_id {
        match pci_device_id - 0x1040 {
            1 => DeviceType::Network,
            2 => DeviceType::Block,
            3 => DeviceType::Console,
            4 => DeviceType::EntropySource,
            5 => DeviceType::TraditionalMemoryBalloon,
            6 => DeviceType::IoMemory,
            7 => DeviceType::Rpmsg,
            8 => DeviceType::ScsiHost,
            9 => DeviceType::NineP,
            10 => DeviceType::Mac80211,
            11 => DeviceType::RprocSerial,
            12 => DeviceType::Caif,
            13 => DeviceType::MemoryBalloon,
            16 => DeviceType::Gpu,
            17 => DeviceType::Timer,
            18 => DeviceType::Input,
            19 => DeviceType::Socket,
            20 => DeviceType::Crypto,
            21 => DeviceType::SignalDistribution,
            22 => DeviceType::Pstore,
            23 => DeviceType::Iommu,
            24 => DeviceType::Memory,
            _ => DeviceType::Invalid,
        }
    } else {
        DeviceType::Invalid
    }
}

} // verus!
