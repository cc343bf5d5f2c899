//! Capability discovery, BAR resolution, configuration access and hypervisor
//! detection, exercised against mock configuration spaces.

use virtio_hyp_pci::cam::{Cam, HypCam};
use virtio_hyp_pci::io::{HypercallChannel, MemoryChannel};
use virtio_hyp_pci::pci::{
    first_capability, get_bar_region, BarInfo, ConfigurationAccess, DeviceFunction, PciRoot,
    VendorCapability, VirtioCapabilityInfo, VirtioPciError,
};
use virtio_hyp_pci::region::HypIoRegion;
use virtio_hyp_pci::transport::{device_type, DeviceType, HypPciTransport};

/// A mock configuration space: 64 words of 32 bits, read back as written,
/// counting the reads performed.
struct MockConfig {
    words: [u32; 64],
    reads: usize,
}

impl ConfigurationAccess for MockConfig {
    fn read_word(&mut self, _device_function: DeviceFunction, register_offset: u8) -> u32 {
        self.reads += 1;
        self.words[(register_offset / 4) as usize]
    }

    fn write_word(&mut self, _device_function: DeviceFunction, register_offset: u8, data: u32) {
        self.words[(register_offset / 4) as usize] = data;
    }
}

fn device_function() -> DeviceFunction {
    DeviceFunction { bus: 0, device: 3, function: 0 }
}

/// A well-formed VirtIO block device: a common capability at 0x40, an
/// interrupt-status capability at 0x50, and a notify capability at 0x60
/// carrying a multiplier.
fn well_formed_config() -> MockConfig {
    let mut words = [0u32; 64];
    words[0] = 0x1042_1AF4;
    // Bit 4 of the status register (the high half): a capability list exists.
    words[1] = 0x0010_0000;
    words[0x34 / 4] = 0x40;
    // Common configuration: vendor capability, next 0x50, length 16, type 1.
    words[0x40 / 4] = 0x0110_5009;
    words[0x44 / 4] = 0;
    words[0x48 / 4] = 0x100;
    words[0x4C / 4] = 56;
    // Interrupt status: vendor capability, next 0x60, length 16, type 3.
    words[0x50 / 4] = 0x0310_6009;
    words[0x54 / 4] = 0;
    words[0x58 / 4] = 0x300;
    words[0x5C / 4] = 0x20;
    // Notify: vendor capability, last, length 20, type 2, multiplier 4.
    words[0x60 / 4] = 0x0214_0009;
    words[0x64 / 4] = 0;
    words[0x68 / 4] = 0x400;
    words[0x6C / 4] = 0x80;
    words[0x70 / 4] = 4;
    MockConfig { words, reads: 0 }
}

fn bars() -> [BarInfo; 6] {
    let unused = BarInfo::Memory { address: 0, size: 0 };
    [
        BarInfo::Memory { address: 0x8000_0000, size: 0x1000 },
        unused,
        unused,
        unused,
        unused,
        unused,
    ]
}

#[test]
fn new_resolves_all_windows() {
    let mut root = PciRoot::new(well_formed_config());
    let t = HypPciTransport::new(&mut root, device_function(), &bars()).unwrap();
    assert_eq!(t.device_type, DeviceType::Block);
    assert_eq!(t.common_cfg, HypIoRegion { paddr: 0x8000_0100, size: 56 });
    assert_eq!(t.isr_status, HypIoRegion { paddr: 0x8000_0300, size: 0x20 });
    assert_eq!(t.notify_region, HypIoRegion { paddr: 0x8000_0400, size: 0x80 });
    assert_eq!(t.notify_off_multiplier, 4);
    assert_eq!(t.config_space, None);
}

#[test]
fn new_rejects_foreign_vendor() {
    let mut config = well_formed_config();
    config.words[0] = 0x1042_8086;
    let mut root = PciRoot::new(config);
    assert_eq!(
        HypPciTransport::new(&mut root, device_function(), &bars()),
        Err(VirtioPciError::InvalidVendorId(0x8086)),
    );
    // The vendor check precedes the walk: one read of the identifier word,
    // and no capability access against the foreign device.
    assert_eq!(root.configuration_access.reads, 1);
}

#[test]
fn new_requires_a_notify_multiplier() {
    let mut config = well_formed_config();
    // Shrink the notify capability below 20 bytes: no multiplier word, so the
    // notify capability counts as not found.
    config.words[0x60 / 4] = 0x0210_0009;
    let mut root = PciRoot::new(config);
    assert_eq!(
        HypPciTransport::new(&mut root, device_function(), &bars()),
        Err(VirtioPciError::MissingNotifyConfig),
    );
}

#[test]
fn new_rejects_odd_multiplier() {
    let mut config = well_formed_config();
    config.words[0x70 / 4] = 3;
    let mut root = PciRoot::new(config);
    assert_eq!(
        HypPciTransport::new(&mut root, device_function(), &bars()),
        Err(VirtioPciError::InvalidNotifyOffMultiplier(3)),
    );
}

#[test]
fn new_keeps_the_first_duplicate() {
    let mut config = well_formed_config();
    // A second common capability after the notify one, naming offset 0x800:
    // the first occurrence must win.
    config.words[0x60 / 4] = 0x0214_7009;
    config.words[0x70 / 4] = 4;
    config.words[0x74 / 4] = 0x0110_0009;
    config.words[0x78 / 4] = 0;
    config.words[0x7C / 4] = 0x800;
    config.words[0x80 / 4] = 56;
    let mut root = PciRoot::new(config);
    let t = HypPciTransport::new(&mut root, device_function(), &bars()).unwrap();
    assert_eq!(t.common_cfg, HypIoRegion { paddr: 0x8000_0100, size: 56 });
}

#[test]
fn new_resolves_device_config_when_present() {
    let mut config = well_formed_config();
    // Chain a device-configuration capability after the notify one.
    config.words[0x60 / 4] = 0x0214_7409;
    config.words[0x74 / 4] = 0x0410_0009;
    config.words[0x78 / 4] = 0;
    config.words[0x7C / 4] = 0x800;
    config.words[0x80 / 4] = 8;
    let mut root = PciRoot::new(config);
    let t = HypPciTransport::new(&mut root, device_function(), &bars()).unwrap();
    assert_eq!(t.config_space, Some(HypIoRegion { paddr: 0x8000_0800, size: 8 }));
}

#[test]
fn new_requires_interrupt_status() {
    let mut config = well_formed_config();
    // Skip the interrupt-status capability: common points straight at notify.
    config.words[0x40 / 4] = 0x0110_6009;
    let mut root = PciRoot::new(config);
    assert_eq!(
        HypPciTransport::new(&mut root, device_function(), &bars()),
        Err(VirtioPciError::MissingIsrConfig),
    );
}

#[test]
fn new_without_capability_list() {
    let mut config = well_formed_config();
    config.words[1] = 0;
    let mut root = PciRoot::new(config);
    assert_eq!(
        HypPciTransport::new(&mut root, device_function(), &bars()),
        Err(VirtioPciError::MissingCommonConfig),
    );
}

fn capability(cfg_type: u8, cap_len: u8, offset: u32) -> VendorCapability {
    VendorCapability {
        cap_len,
        cfg_type,
        info: VirtioCapabilityInfo { bar: 0, offset, length: 64 },
        notify_off_multiplier: 0,
    }
}

#[test]
fn first_capability_ignores_later_duplicates() {
    let caps = vec![
        capability(3, 16, 0x100),
        capability(1, 16, 0x200),
        capability(1, 16, 0x300),
    ];
    assert_eq!(first_capability(&caps, 1), Some(capability(1, 16, 0x200)));
}

#[test]
fn first_capability_skips_short_notify() {
    // A notify capability must reach 20 bytes; a 16-byte one is passed over.
    let caps = vec![capability(2, 16, 0x100), capability(2, 20, 0x200)];
    assert_eq!(first_capability(&caps, 2), Some(capability(2, 20, 0x200)));
    assert_eq!(first_capability(&caps, 4), None);
}

fn info(bar: u8, offset: u32, length: u32) -> VirtioCapabilityInfo {
    VirtioCapabilityInfo { bar, offset, length }
}

#[test]
fn bar_region_rejects_unallocated() {
    let mut bars = bars();
    bars[1] = BarInfo::Memory { address: 0, size: 0x1000 };
    assert_eq!(
        get_bar_region(&bars, &info(1, 0, 64), 4, 4),
        Err(VirtioPciError::BarNotAllocated(1)),
    );
    assert_eq!(
        get_bar_region(&bars, &info(6, 0, 64), 4, 4),
        Err(VirtioPciError::BarNotAllocated(6)),
    );
}

#[test]
fn bar_region_rejects_io_space() {
    let mut bars = bars();
    bars[2] = BarInfo::Io { address: 0xC000, size: 0x100 };
    assert_eq!(
        get_bar_region(&bars, &info(2, 0, 64), 4, 4),
        Err(VirtioPciError::UnexpectedIoBar),
    );
}

#[test]
fn bar_region_rejects_out_of_range() {
    assert_eq!(
        get_bar_region(&bars(), &info(0, 0xF00, 0x200), 4, 4),
        Err(VirtioPciError::BarOffsetOutOfRange),
    );
    // The target type does not fit the capability's declared length.
    assert_eq!(
        get_bar_region(&bars(), &info(0, 0, 2), 4, 4),
        Err(VirtioPciError::BarOffsetOutOfRange),
    );
}

#[test]
fn bar_region_rejects_misaligned() {
    assert_eq!(
        get_bar_region(&bars(), &info(0, 0x102, 64), 4, 4),
        Err(VirtioPciError::Misaligned { address: 0x8000_0102, alignment: 4 }),
    );
}

#[test]
fn bar_region_resolves() {
    assert_eq!(
        get_bar_region(&bars(), &info(0, 0x100, 64), 4, 4),
        Ok(HypIoRegion { paddr: 0x8000_0100, size: 64 }),
    );
}

#[test]
fn cam_offsets() {
    let df = device_function();
    // bus 0, device 3, function 0: bdf = 3 << 3 = 24.
    assert_eq!(Cam::MmioCam.cam_offset(df, 0x10), 24 << 8 | 0x10);
    assert_eq!(Cam::Ecam.cam_offset(df, 0x10), 24 << 12 | 0x10);
}

#[test]
fn hyp_cam_relays_words() {
    let mut cam = HypCam::new(0x9000_0000, Cam::Ecam, MemoryChannel::new());
    let df = device_function();
    assert_eq!(cam.read_word(df, 0x10), 0);
    cam.write_word(df, 0x10, 0xABCD_1234);
    assert_eq!(cam.read_word(df, 0x10), 0xABCD_1234);
    // A different register is a different relayed address.
    assert_eq!(cam.read_word(df, 0x14), 0);
}

#[test]
fn pkvm_signature_detection() {
    assert!(HypCam::<MemoryChannel>::is_pkvm([0x50, 0x4B, 0x56, 0x4D]));
    assert!(!HypCam::<MemoryChannel>::is_pkvm([0x4B, 0x56, 0x4D, 0x4B]));
}

#[test]
fn device_types_decode() {
    assert_eq!(device_type(0x1000), DeviceType::Network);
    assert_eq!(device_type(0x1001), DeviceType::Block);
    assert_eq!(device_type(0x1009), DeviceType::NineP);
    assert_eq!(device_type(0x1041), DeviceType::Network);
    assert_eq!(device_type(0x1042), DeviceType::Block);
    assert_eq!(device_type(0x1050), DeviceType::Gpu);
    assert_eq!(device_type(0x1058), DeviceType::Memory);
    assert_eq!(device_type(0x104E), DeviceType::Invalid);
    assert_eq!(device_type(0x1040), DeviceType::Invalid);
    assert_eq!(device_type(0x0123), DeviceType::Invalid);
}

#[test]
fn memory_channel_stores_by_address() {
    let mut channel = MemoryChannel::new();
    assert_eq!(channel.io_read(0x100, 4), 0);
    channel.io_write(0x100, 4, 0xAABB_CCDD);
    assert_eq!(channel.io_read(0x100, 4), 0xAABB_CCDD);
    assert_eq!(channel.io_read(0x100, 2), 0xCCDD);
    assert_eq!(channel.io_read(0x100, 1), 0xDD);
    channel.io_write(0x100, 4, 1);
    assert_eq!(channel.io_read(0x100, 4), 1);
}

#[test]
fn region_splits_64_bit_writes() {
    let mut channel = MemoryChannel::new();
    let region = HypIoRegion { paddr: 0x2000, size: 16 };
    region.write_u64(&mut channel, 8, 0x1122_3344_5566_7788);
    assert_eq!(channel.io_read(0x2008, 4), 0x5566_7788);
    assert_eq!(channel.io_read(0x200C, 4), 0x1122_3344);
    assert_eq!(region.read_u32(&mut channel, 8), 0x5566_7788);
}
