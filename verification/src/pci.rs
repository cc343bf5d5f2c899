//! PCI capability discovery for a VirtIO device function: walking the
//! capability list, classifying vendor-specific capabilities, and resolving
//! each into a bounded, aligned register window within a BAR.

use crate::region::HypIoRegion;
use vstd::prelude::*;

verus! {

/// PCI capability identifier of vendor-specific capabilities.
pub const PCI_CAP_ID_VNDR: u8 = 9;

/// The PCI vendor identifier VirtIO devices carry.
pub const VIRTIO_VENDOR_ID: u16 = 0x1AF4;

/// Subtype of a vendor-specific capability naming the common configuration
/// structure.
pub const VIRTIO_PCI_CAP_COMMON_CFG: u8 = 1;

/// Subtype naming the queue-notification structure.
pub const VIRTIO_PCI_CAP_NOTIFY_CFG: u8 = 2;

/// Subtype naming the interrupt-status structure.
pub const VIRTIO_PCI_CAP_ISR_CFG: u8 = 3;

/// Subtype naming the device-specific configuration structure.
pub const VIRTIO_PCI_CAP_DEVICE_CFG: u8 = 4;

/// Offset within a vendor-specific capability of the word whose low byte is
/// the BAR index of the target structure.
pub const CAP_BAR_OFFSET: u8 = 4;

/// Offset within a vendor-specific capability of the target structure's byte
/// offset inside its BAR.
pub const CAP_BAR_OFFSET_OFFSET: u8 = 8;

/// Offset within a vendor-specific capability of the target structure's byte
/// length.
pub const CAP_LENGTH_OFFSET: u8 = 12;

/// Offset within a notify-type capability of the trailing notify-offset
/// multiplier word; only capabilities at least 20 bytes long carry it.
pub const CAP_NOTIFY_OFF_MULTIPLIER_OFFSET: u8 = 16;

/// Offset of the status/command register pair in configuration space.
pub const STATUS_COMMAND_OFFSET: u8 = 4;

/// Offset of the capabilities-pointer register in configuration space.
pub const CAPABILITIES_POINTER_OFFSET: u8 = 0x34;

/// The bus, device and function identifier of a PCI device function.
#[derive(Clone, Copy, PartialEq, Eq, Structural, Debug)]
pub struct DeviceFunction {
    pub bus: u8,
    pub device: u8,
    pub function: u8,
}

/// One configuration-space access: a word read or written at a register of a
/// device function. For a read, `data` is the word the device returned; for a
/// write, the word handed to it.
#[derive(Clone, Copy, PartialEq, Eq, Structural, Debug)]
pub struct ConfigAccess {
    pub kind: crate::io::IoKind,
    pub device_function: DeviceFunction,
    pub register_offset: u8,
    pub data: u32,
}

/// Whether `access` is a read of the given register of the given device
/// function.
pub open spec fn is_config_read(
    access: ConfigAccess,
    device_function: DeviceFunction,
    register_offset: u8,
) -> bool {
    &&& access.kind == crate::io::IoKind::Read
    &&& access.device_function == device_function
    &&& access.register_offset == register_offset
}

/// Word-level access to PCI configuration space, keyed by device function and
/// byte register offset. A collaborator supplies it: the hypercall-relayed
/// implementation is [`crate::cam::HypCam`], and a mock implementation can
/// stand in for a device when the resolver is exercised. The mechanism is
/// modelled by the sequence of word accesses it has performed; nothing is
/// promised of the words read, since the device behind the access decides
/// them, and every caller in this crate is verified for every value that may
/// come back.
pub trait ConfigurationAccess: Sized {
    /// The word accesses this mechanism has performed, oldest first. An
    /// implementation that is reasoned about overrides this; the default — no
    /// accesses remembered — serves implementations outside the library,
    /// about whose history nothing is claimed.
    open spec fn access_log(&self) -> Seq<ConfigAccess> {
        Seq::empty()
    }

    /// Reads the 32-bit register at `register_offset` of `device_function`.
    fn read_word(&mut self, device_function: DeviceFunction, register_offset: u8) -> (data: u32)
        ensures
            final(self).access_log() == old(self).access_log().push(
                ConfigAccess {
                    kind: crate::io::IoKind::Read,
                    device_function,
                    register_offset,
                    data,
                },
            ),
    ;

    /// Writes the 32-bit register at `register_offset` of `device_function`.
    fn write_word(&mut self, device_function: DeviceFunction, register_offset: u8, data: u32)
        ensures
            final(self).access_log() == old(self).access_log().push(
                ConfigAccess {
                    kind: crate::io::IoKind::Write,
                    device_function,
                    register_offset,
                    data,
                },
            ),
    ;
}

/// A decoded base address register, published by the PCI root. Decoding BARs
/// belongs to the root complex, a collaborator; this layer only consumes the
/// result.
#[derive(Clone, Copy, PartialEq, Eq, Structural, Debug)]
pub enum BarInfo {
    /// A memory-space BAR: its physical base address and size in bytes.
    Memory { address: u64, size: u32 },
    /// An I/O-space BAR: its port address and size in bytes.
    Io { address: u32, size: u32 },
}

impl BarInfo {
    /// The base address and size of a memory-space BAR, or nothing for an
    /// I/O-space BAR.
    pub fn memory_address_size(&self) -> (r: Option<(u64, u32)>)
        ensures
            r == match *self {
                BarInfo::Memory { address, size } => Some((address, size)),
                BarInfo::Io { .. } => None::<(u64, u32)>,
            },
    {
        match *self {
            BarInfo::Memory { address, size } => Some((address, size)),
            BarInfo::Io { .. } => None,
        }
    }
}

/// An error which occurred while discovering or driving a VirtIO device over
/// the PCI transport.
#[derive(Clone, Copy, PartialEq, Eq, Structural, Debug)]
pub enum VirtioPciError {
    /// The device function carries a PCI vendor identifier other than the
    /// VirtIO one.
    InvalidVendorId(u16),
    /// No common-configuration capability was found.
    MissingCommonConfig,
    /// No notify-configuration capability carrying a multiplier was found.
    MissingNotifyConfig,
    /// The notify-offset multiplier is odd.
    InvalidNotifyOffMultiplier(u32),
    /// No interrupt-status capability was found.
    MissingIsrConfig,
    /// A capability named an I/O-space BAR where memory space was required.
    UnexpectedIoBar,
    /// The named BAR is not allocated: its base address is zero, or the index
    /// names none of the six base address registers.
    BarNotAllocated(u8),
    /// The capability's offset and length fall outside its BAR, the target
    /// type does not fit the declared length, or the window would run past
    /// the end of the address space.
    BarOffsetOutOfRange,
    /// The resolved physical address does not satisfy the target type's
    /// alignment.
    Misaligned { address: usize, alignment: usize },
}

/// One entry of the PCI capability list: where it sits in configuration
/// space, its capability identifier, and its 16-bit private header.
#[derive(Clone, Copy, PartialEq, Eq, Structural, Debug)]
pub struct CapabilityInfo {
    pub offset: u8,
    pub id: u8,
    pub private_header: u16,
}

/// Location of a VirtIO structure within a BAR, decoded from a
/// vendor-specific capability: BAR index, byte offset and byte length.
#[derive(Clone, Copy, PartialEq, Eq, Structural, Debug)]
pub struct VirtioCapabilityInfo {
    pub bar: u8,
    pub offset: u32,
    pub length: u32,
}

/// A vendor-specific capability of at least 16 bytes, fully decoded: its
/// declared structure length and subtype from the private header, the
/// location of its target structure, and — for notify-type capabilities long
/// enough to carry one — the notify-offset multiplier, else zero.
#[derive(Clone, Copy, PartialEq, Eq, Structural, Debug)]
pub struct VendorCapability {
    pub cap_len: u8,
    pub cfg_type: u8,
    pub info: VirtioCapabilityInfo,
    pub notify_off_multiplier: u32,
}

/// Whether a vendor capability can serve as the `cfg_type` structure: the
/// subtype must match, the declared length must reach the 16 bytes of the
/// fixed fields, and a notify capability must also carry the trailing
/// multiplier word, so reach 20 bytes.
pub open spec fn cap_matches(cap: VendorCapability, cfg_type: u8) -> bool {
    &&& cap.cfg_type == cfg_type
    &&& cap.cap_len >= 16
    &&& (cfg_type == VIRTIO_PCI_CAP_NOTIFY_CFG ==> cap.cap_len >= 20)
}

/// The capability the resolver retains for `cfg_type`: the first eligible
/// occurrence in list order; later duplicates are ignored.
pub open spec fn spec_first_capability(caps: Seq<VendorCapability>, cfg_type: u8) -> Option<
    VendorCapability,
>
    decreases caps.len(),
{
    if caps.len() == 0 {
        None
    } else if cap_matches(caps[0], cfg_type) {
        Some(caps[0])
    } else {
        spec_first_capability(caps.subrange(1, caps.len() as int), cfg_type)
    }
}

/// First occurrence wins: if entry `i` is the first eligible capability of a
/// subtype, it is the one retained, whatever duplicates follow it.
pub proof fn lemma_first_occurrence_wins(caps: Seq<VendorCapability>, cfg_type: u8, i: int)
    requires
        0 <= i < caps.len(),
        cap_matches(caps[i], cfg_type),
        forall|k: int| 0 <= k < i ==> !cap_matches(caps[k], cfg_type),
    ensures
        spec_first_capability(caps, cfg_type) == Some(caps[i]),
    decreases i,
{
    if i == 0 {
    } else {
        let rest = caps.subrange(1, caps.len() as int);
        assert(rest[i - 1] == caps[i]);
        assert(forall|k: int| 0 <= k < i - 1 ==> rest[k] == caps[k + 1]);
        lemma_first_occurrence_wins(rest, cfg_type, i - 1);
    }
}

/// The first eligible capability of the given subtype, or nothing.
pub fn first_capability(caps: &Vec<VendorCapability>, cfg_type: u8) -> (r: Option<
    VendorCapability,
>)
    ensures
        r == spec_first_capability(caps@, cfg_type),
{
    let mut i: usize = 0;
    proof {
        assert(caps@.subrange(0, caps@.len() as int) =~= caps@);
    }
    while i < caps.len()
        invariant
            i <= caps.len(),
            spec_first_capability(caps@, cfg_type) == spec_first_capability(
                caps@.subrange(i as int, caps@.len() as int),
                cfg_type,
            ),
        decreases caps.len() - i,
    {
        let cap = caps[i];
        let eligible = cap.cfg_type == cfg_type && cap.cap_len >= 16 && (cfg_type
            != VIRTIO_PCI_CAP_NOTIFY_CFG || cap.cap_len >= 20);
        proof {
            let tail = caps@.subrange(i as int, caps@.len() as int);
            assert(tail[0] == caps@[i as int]);
            assert(tail.subrange(1, tail.len() as int) =~= caps@.subrange(
                i + 1 as int,
                caps@.len() as int,
            ));
        }
        if eligible {
            return Some(cap);
        }
        i = i + 1;
    }
    proof {
        assert(caps@.subrange(i as int, caps@.len() as int).len() == 0);
    }
    None
}

/// Whether the decoder passes a capability-list entry over without reading
/// its fields: it is not vendor-specific, its declared structure does not
/// reach the 16 bytes of the fixed fields, or the structure would run past
/// the 256 bytes of configuration space and cannot be read.
pub open spec fn vendor_capability_skipped(entry: CapabilityInfo) -> bool {
    ||| entry.id != PCI_CAP_ID_VNDR
    ||| entry.private_header & 0xFF < 16
    ||| entry.offset + (entry.private_header & 0xFF) > 256
}

/// How many words the decoder reads for a retained entry: the BAR index,
/// offset and length words, plus the notify-offset multiplier word for a
/// notify-type capability of at least 20 bytes.
pub open spec fn vendor_capability_reads(entry: CapabilityInfo) -> int {
    if entry.private_header >> 8 == VIRTIO_PCI_CAP_NOTIFY_CFG && entry.private_header & 0xFF
        >= 20 {
        4
    } else {
        3
    }
}

/// The vendor capability decoded from a retained entry and the words read
/// for it: structure length and subtype from the private header, BAR index
/// from the first word's low byte, offset and length from the next two
/// words, and the multiplier from the fourth word where one was read.
pub open spec fn vendor_capability_decoded(
    entry: CapabilityInfo,
    reads: Seq<ConfigAccess>,
) -> VendorCapability {
    VendorCapability {
        cap_len: (entry.private_header & 0xFF) as u8,
        cfg_type: (entry.private_header >> 8) as u8,
        info: VirtioCapabilityInfo {
            bar: (reads[0].data & 0xFF) as u8,
            offset: reads[1].data,
            length: reads[2].data,
        },
        notify_off_multiplier: if vendor_capability_reads(entry) == 4 {
            reads[3].data
        } else {
            0
        },
    }
}

/// The vendor capabilities `caps` are exactly what decoding the entries of
/// `raw` against the configuration reads in `reads` yields, in order:
/// skipped entries contribute nothing, and every retained entry contributes
/// its three or four field reads — at the entry's offset plus 4, 8, 12 and,
/// where a multiplier is read, 16 — and the capability decoded from them.
pub open spec fn vendor_decode_matches(
    device_function: DeviceFunction,
    raw: Seq<CapabilityInfo>,
    reads: Seq<ConfigAccess>,
    caps: Seq<VendorCapability>,
) -> bool
    decreases raw.len(),
{
    if raw.len() == 0 {
        reads.len() == 0 && caps.len() == 0
    } else {
        let entry = raw.last();
        if vendor_capability_skipped(entry) {
            vendor_decode_matches(device_function, raw.drop_last(), reads, caps)
        } else {
            let count = vendor_capability_reads(entry);
            let m = reads.len() - count;
            &&& reads.len() >= count
            &&& caps.len() >= 1
            &&& is_config_read(reads[m], device_function, (entry.offset + CAP_BAR_OFFSET) as u8)
            &&& is_config_read(
                reads[m + 1],
                device_function,
                (entry.offset + CAP_BAR_OFFSET_OFFSET) as u8,
            )
            &&& is_config_read(
                reads[m + 2],
                device_function,
                (entry.offset + CAP_LENGTH_OFFSET) as u8,
            )
            &&& (count == 4 ==> is_config_read(
                reads[m + 3],
                device_function,
                (entry.offset + CAP_NOTIFY_OFF_MULTIPLIER_OFFSET) as u8,
            ))
            &&& caps.last() == vendor_capability_decoded(
                entry,
                reads.subrange(m, reads.len() as int),
            )
            &&& vendor_decode_matches(
                device_function,
                raw.drop_last(),
                reads.subrange(0, m),
                caps.drop_last(),
            )
        }
    }
}

/// Entry `i` of a capability walk is decoded from read `2 + i` of the walk's
/// accesses: the read sits at the entry's own offset, the identifier is the
/// word's low byte, the private header its high 16 bits, and the following
/// entry sits at the word's second byte masked four-byte aligned.
pub open spec fn walk_entry_matches(
    reads: Seq<ConfigAccess>,
    device_function: DeviceFunction,
    caps: Seq<CapabilityInfo>,
    i: int,
) -> bool {
    let access = reads[2 + i];
    &&& is_config_read(access, device_function, caps[i].offset)
    &&& caps[i].id == access.data & 0xFF
    &&& caps[i].private_header == access.data >> 16
    &&& (i + 1 < caps.len() ==> caps[i + 1].offset == ((access.data >> 8) & 0xFC) as u8)
}

/// The capability list `caps` is exactly what the walk's configuration reads
/// showed: first the status/command word; nothing more when status bit 4
/// announces no capability list; otherwise the capabilities pointer, then one
/// header read per entry, chained from the pointer (masked four-byte aligned)
/// through each header's next byte, ending at a zero next pointer unless the
/// 64-entry bound cut a looping chain short.
pub open spec fn capability_walk_matches(
    device_function: DeviceFunction,
    reads: Seq<ConfigAccess>,
    caps: Seq<CapabilityInfo>,
) -> bool {
    &&& caps.len() <= 64
    &&& reads.len() >= 1
    &&& is_config_read(reads[0], device_function, STATUS_COMMAND_OFFSET)
    &&& if (reads[0].data >> 16) & 0x10 == 0 {
        reads.len() == 1 && caps.len() == 0
    } else {
        &&& reads.len() == 2 + caps.len()
        &&& is_config_read(reads[1], device_function, CAPABILITIES_POINTER_OFFSET)
        &&& (caps.len() == 0 ==> reads[1].data & 0xFC == 0)
        &&& (caps.len() > 0 ==> caps[0].offset == (reads[1].data & 0xFC) as u8)
        &&& (forall|i: int|
            0 <= i < caps.len() ==> #[trigger] walk_entry_matches(reads, device_function, caps, i))
        &&& (0 < caps.len() < 64 ==> (reads[1 + caps.len() as int].data >> 8) & 0xFC == 0)
    }
}

/// A PCI root complex, reached through some configuration access mechanism.
pub struct PciRoot<C: ConfigurationAccess> {
    pub configuration_access: C,
}

impl<C: ConfigurationAccess> PciRoot<C> {
    /// Wraps a configuration access mechanism.
    pub fn new(configuration_access: C) -> (r: PciRoot<C>) {
        PciRoot { configuration_access }
    }

    /// Walks the capability list of `device_function` and returns its entries
    /// in list order, each decoded from the configuration reads the walk
    /// performed, as [`capability_walk_matches`] lays down. An empty list is
    /// returned where the status register reports no capability list. The
    /// walk visits at most 64 entries: the entries of a well-formed list sit
    /// four-byte aligned in 256 bytes of configuration space, so a longer
    /// chain must have looped.
    pub fn capabilities(&mut self, device_function: DeviceFunction) -> (caps: Vec<CapabilityInfo>)
        ensures
            caps@.len() <= 64,
            ({
                let pre = old(self).configuration_access.access_log();
                let post = final(self).configuration_access.access_log();
                &&& post.len() > pre.len()
                &&& post.subrange(0, pre.len() as int) == pre
                &&& capability_walk_matches(
                    device_function,
                    post.subrange(pre.len() as int, post.len() as int),
                    caps@,
                )
            }),
    {
        let ghost pre = self.configuration_access.access_log();
        let ghost n = pre.len() as int;
        let status_command = self.configuration_access.read_word(
            device_function,
            STATUS_COMMAND_OFFSET,
        );
        let ghost status_access = self.configuration_access.access_log().last();
        let status = status_command >> 16;
        let mut caps: Vec<CapabilityInfo> = Vec::new();
        // Bit 4 of the status register announces a capability list.
        if status & 0x10 == 0 {
            proof {
                let post = self.configuration_access.access_log();
                assert(post.subrange(0, n) =~= pre);
                assert(post.subrange(n, post.len() as int) =~= seq![status_access]);
            }
            return caps;
        }
        let pointer = self.configuration_access.read_word(
            device_function,
            CAPABILITIES_POINTER_OFFSET,
        );
        let ghost pointer_access = self.configuration_access.access_log().last();
        proof {
            assert(pointer & 0xFC < 0x100) by (bit_vector);
        }
        let mut offset: u8 = (pointer & 0xFC) as u8;
        let mut steps: usize = 0;
        #[verifier::loop_isolation(false)]
        while offset != 0 && steps < 64
            invariant
                caps@.len() == steps,
                steps <= 64,
                ({
                    let log = self.configuration_access.access_log();
                    &&& log.len() == n + 2 + caps@.len()
                    &&& log.subrange(0, n) == pre
                    &&& log[n] == status_access
                    &&& log[n + 1] == pointer_access
                }),
                is_config_read(status_access, device_function, STATUS_COMMAND_OFFSET),
                status_access.data == status_command,
                is_config_read(pointer_access, device_function, CAPABILITIES_POINTER_OFFSET),
                pointer_access.data == pointer,
                caps@.len() == 0 ==> offset == (pointer & 0xFC) as u8,
                caps@.len() > 0 ==> caps@[0].offset == (pointer & 0xFC) as u8,
                caps@.len() > 0 ==> offset == ((self.configuration_access.access_log()[n + 1
                    + caps@.len()].data >> 8) & 0xFC) as u8,
                forall|i: int|
                    0 <= i < caps@.len() ==> #[trigger] walk_entry_matches(
                        self.configuration_access.access_log().subrange(
                            n,
                            self.configuration_access.access_log().len() as int,
                        ),
                        device_function,
                        caps@,
                        i,
                    ),
            decreases 64 - steps,
        {
            let ghost log_before = self.configuration_access.access_log();
            let ghost caps_before = caps@;
            let header = self.configuration_access.read_word(device_function, offset);
            proof {
                assert(header & 0xFF < 0x100) by (bit_vector);
                assert(header >> 16 < 0x1_0000) by (bit_vector);
                assert((header >> 8) & 0xFC < 0x100) by (bit_vector);
            }
            caps.push(
                CapabilityInfo {
                    offset,
                    id: (header & 0xFF) as u8,
                    private_header: (header >> 16) as u16,
                },
            );
            proof {
                let log = self.configuration_access.access_log();
                let delta = log.subrange(n, log.len() as int);
                let acc = ConfigAccess {
                    kind: crate::io::IoKind::Read,
                    device_function,
                    register_offset: offset,
                    data: header,
                };
                assert(log == log_before.push(acc));
                assert forall|j: int| 0 <= j < n implies log[j] == pre[j] by {
                    assert(log[j] == log_before[j]);
                    assert(log_before.subrange(0, n)[j] == log_before[j]);
                }
                assert(log.subrange(0, n) =~= pre);
                assert forall|i: int| 0 <= i < caps@.len() implies #[trigger] walk_entry_matches(
                    delta,
                    device_function,
                    caps@,
                    i,
                ) by {
                    if i < caps_before.len() {
                        let delta_before = log_before.subrange(n, log_before.len() as int);
                        assert(walk_entry_matches(delta_before, device_function, caps_before, i));
                        assert(delta[2 + i] == log[n + 2 + i]);
                        assert(delta_before[2 + i] == log_before[n + 2 + i]);
                        assert(log[n + 2 + i] == log_before[n + 2 + i]);
                        assert(caps@[i] == caps_before[i]);
                        if i + 1 < caps@.len() {
                            assert(caps@[i + 1] == if i + 1 < caps_before.len() {
                                caps_before[i + 1]
                            } else {
                                caps@.last()
                            });
                        }
                    } else {
                        assert(delta[2 + i] == log.last());
                        assert(log.last() == acc);
                    }
                }
            }
            offset = ((header >> 8) & 0xFC) as u8;
            steps = steps + 1;
        }
        proof {
            let post = self.configuration_access.access_log();
            let delta = post.subrange(n, post.len() as int);
            assert(delta[0] == status_access);
            assert(delta[1] == pointer_access);
            if caps@.len() == 0 {
                assert(pointer & 0xFC < 0x100) by (bit_vector);
            } else if caps@.len() < 64 {
                let last_header = post[n + 1 + caps@.len()].data;
                assert((last_header >> 8) & 0xFC < 0x100) by (bit_vector);
            }
        }
        caps
    }

    /// Decodes every vendor-specific capability of the walked list `raw`
    /// whose declared structure fits in configuration space and reaches the
    /// 16 bytes of the fixed fields, as [`vendor_decode_matches`] lays down:
    /// three further configuration-space reads extract the BAR index, byte
    /// offset and byte length of the target structure, and a fourth read
    /// extracts the notify-offset multiplier of a notify-type capability
    /// long enough to carry one. Everything else is ignored.
    pub fn read_vendor_capabilities(
        &mut self,
        device_function: DeviceFunction,
        raw: &Vec<CapabilityInfo>,
    ) -> (caps: Vec<VendorCapability>)
        ensures
            ({
                let pre = old(self).configuration_access.access_log();
                let post = final(self).configuration_access.access_log();
                &&& post.len() >= pre.len()
                &&& post.subrange(0, pre.len() as int) == pre
                &&& vendor_decode_matches(
                    device_function,
                    raw@,
                    post.subrange(pre.len() as int, post.len() as int),
                    caps@,
                )
            }),
    {
        let ghost pre = self.configuration_access.access_log();
        let ghost n = pre.len() as int;
        let mut caps: Vec<VendorCapability> = Vec::new();
        let mut i: usize = 0;
        proof {
            assert(self.configuration_access.access_log().subrange(0, n) =~= pre);
            assert(self.configuration_access.access_log().subrange(n, n) =~= Seq::<
                ConfigAccess,
            >::empty());
            assert(raw@.subrange(0, 0) =~= Seq::<CapabilityInfo>::empty());
        }
        #[verifier::loop_isolation(false)]
        while i < raw.len()
            invariant
                i <= raw.len(),
                self.configuration_access.access_log().len() >= n,
                self.configuration_access.access_log().subrange(0, n) == pre,
                vendor_decode_matches(
                    device_function,
                    raw@.subrange(0, i as int),
                    self.configuration_access.access_log().subrange(
                        n,
                        self.configuration_access.access_log().len() as int,
                    ),
                    caps@,
                ),
            decreases raw@.len() - i,
        {
            let ghost log_before = self.configuration_access.access_log();
            let ghost caps_before = caps@;
            let capability = raw[i];
            let cap_len = (capability.private_header & 0xFF) as u8;
            proof {
                let h = capability.private_header;
                assert(h & 0xFF < 0x100) by (bit_vector);
                assert(h >> 8 < 0x100) by (bit_vector);
            }
            let cfg_type = (capability.private_header >> 8) as u8;
            // A structure that would run past the 256 bytes of configuration
            // space cannot be read; such a capability is passed over, as is
            // anything not vendor-specific or shorter than the fixed fields.
            let skip = capability.id != PCI_CAP_ID_VNDR || cap_len < 16 || capability.offset
                as usize + cap_len as usize > 256;
            if !skip {
                let bar_word = self.configuration_access.read_word(
                    device_function,
                    capability.offset + CAP_BAR_OFFSET,
                );
                proof {
                    assert(bar_word & 0xFF < 0x100) by (bit_vector);
                }
                let offset_word = self.configuration_access.read_word(
                    device_function,
                    capability.offset + CAP_BAR_OFFSET_OFFSET,
                );
                let length_word = self.configuration_access.read_word(
                    device_function,
                    capability.offset + CAP_LENGTH_OFFSET,
                );
                let info = VirtioCapabilityInfo {
                    bar: (bar_word & 0xFF) as u8,
                    offset: offset_word,
                    length: length_word,
                };
                let wants_multiplier = cfg_type == VIRTIO_PCI_CAP_NOTIFY_CFG && cap_len >= 20;
                let notify_off_multiplier: u32 = if wants_multiplier {
                    self.configuration_access.read_word(
                        device_function,
                        capability.offset + CAP_NOTIFY_OFF_MULTIPLIER_OFFSET,
                    )
                } else {
                    0
                };
                caps.push(VendorCapability { cap_len, cfg_type, info, notify_off_multiplier });
                proof {
                    let log = self.configuration_access.access_log();
                    let delta = log.subrange(n, log.len() as int);
                    let count = vendor_capability_reads(capability);
                    let m = delta.len() - count;
                    assert(wants_multiplier == (count == 4));
                    assert(log.subrange(0, n) =~= pre);
                    assert(delta.subrange(0, m) =~= log_before.subrange(
                        n,
                        log_before.len() as int,
                    ));
                    assert(caps@.last() == vendor_capability_decoded(
                        capability,
                        delta.subrange(m, delta.len() as int),
                    ));
                    assert(caps@.drop_last() =~= caps_before);
                    assert(raw@.subrange(0, i + 1).last() == raw@[i as int]);
                    assert(raw@.subrange(0, i + 1).drop_last() =~= raw@.subrange(0, i as int));
                }
            } else {
                proof {
                    assert(vendor_capability_skipped(raw@[i as int]));
                    assert(raw@.subrange(0, i + 1).last() == raw@[i as int]);
                    assert(raw@.subrange(0, i + 1).drop_last() =~= raw@.subrange(0, i as int));
                }
            }
            i = i + 1;
        }
        proof {
            assert(raw@.subrange(0, raw@.len() as int) =~= raw@);
        }
        caps
    }
}

/// Resolution of a capability record against the six decoded BARs, for a
/// target type of the given size and alignment. Rejections, in the order they
/// are checked: a BAR index naming no allocated BAR; an I/O-space BAR; a zero
/// (unallocated) base address; an offset and length falling outside the BAR,
/// a target type exceeding the length, or a window past the end of the
/// address space; a resolved address missing the target alignment. Otherwise
/// the window starts at the BAR's base plus the capability's offset and spans
/// the capability's length.
pub open spec fn spec_resolve_bar_region(
    bars: Seq<BarInfo>,
    info: VirtioCapabilityInfo,
    type_size: usize,
    type_align: usize,
) -> Result<HypIoRegion, VirtioPciError> {
    if info.bar >= 6 {
        Err(VirtioPciError::BarNotAllocated(info.bar))
    } else {
        match bars[info.bar as int] {
            BarInfo::Io { .. } => Err(VirtioPciError::UnexpectedIoBar),
            BarInfo::Memory { address, size } => {
                if address == 0 {
                    Err(VirtioPciError::BarNotAllocated(info.bar))
                } else if info.offset + info.length > size || type_size > info.length {
                    Err(VirtioPciError::BarOffsetOutOfRange)
                } else if address + info.offset + info.length > usize::MAX {
                    Err(VirtioPciError::BarOffsetOutOfRange)
                } else if (address + info.offset) % (type_align as int) != 0 {
                    Err(
                        VirtioPciError::Misaligned {
                            address: (address + info.offset) as usize,
                            alignment: type_align,
                        },
                    )
                } else {
                    Ok(
                        HypIoRegion {
                            paddr: (address + info.offset) as usize,
                            size: info.length as usize,
                        },
                    )
                }
            },
        }
    }
}

/// Resolves one capability record into a register window, as
/// [`spec_resolve_bar_region`] lays down. `type_size` and `type_align` are
/// the size and natural alignment of the values the window is accessed with.
pub fn get_bar_region(
    bars: &[BarInfo; 6],
    struct_info: &VirtioCapabilityInfo,
    type_size: usize,
    type_align: usize,
) -> (r: Result<HypIoRegion, VirtioPciError>)
    requires
        type_align == 1 || type_align == 2 || type_align == 4 || type_align == 8,
    ensures
        r == spec_resolve_bar_region(bars@, *struct_info, type_size, type_align),
{
    if struct_info.bar >= 6 {
        return Err(VirtioPciError::BarNotAllocated(struct_info.bar));
    }
    let (bar_address, bar_size) = match bars[struct_info.bar as usize].memory_address_size() {
        Some(pair) => pair,
        None => {
            return Err(VirtioPciError::UnexpectedIoBar);
        },
    };
    if bar_address == 0 {
        return Err(VirtioPciError::BarNotAllocated(struct_info.bar));
    }
    let span: u64 = struct_info.offset as u64 + struct_info.length as u64;
    if span > bar_size as u64 || type_size as u64 > struct_info.length as u64 {
        return Err(VirtioPciError::BarOffsetOutOfRange);
    }
    if bar_address > u64::MAX - span || bar_address + span > usize::MAX as u64 {
        return Err(VirtioPciError::BarOffsetOutOfRange);
    }
    let paddr: usize = (bar_address + struct_info.offset as u64) as usize;
    if paddr % type_align != 0 {
        return Err(VirtioPciError::Misaligned { address: paddr, alignment: type_align });
    }
    Ok(HypIoRegion { paddr, size: struct_info.length as usize })
}

/// An `Ok` resolution yields a well-formed window at least the target type's
/// size, aligned to the target type.
pub proof fn lemma_resolved_region_wf(
    bars: Seq<BarInfo>,
    info: VirtioCapabilityInfo,
    type_size: usize,
    type_align: usize,
    region: HypIoRegion,
)
    requires
        type_align >= 1,
        spec_resolve_bar_region(bars, info, type_size, type_align) == Ok::<
            HypIoRegion,
            VirtioPciError,
        >(region),
    ensures
        region.wf(),
        region.size >= type_size,
        region.paddr as int % type_align as int == 0,
{
}

} // verus!
