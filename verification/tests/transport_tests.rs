//! Transport protocol behaviour, exercised against a mock device that
//! emulates the common-configuration, notify and interrupt-status windows.

use virtio_hyp_pci::io::HypercallChannel;
use virtio_hyp_pci::pci::DeviceFunction;
use virtio_hyp_pci::region::HypIoRegion;
use virtio_hyp_pci::transport::{DeviceType, Error, HypPciTransport};

const COMMON_BASE: usize = 0x4000;
const NOTIFY_BASE: usize = 0x5000;
const ISR_BASE: usize = 0x6000;
const CONFIG_BASE: usize = 0x7000;

/// A mock device: register state behind the hypercall channel. Reads of the
/// feature register return the bank the driver last wrote, so feature writes
/// echo back; reading the interrupt status clears it, as the device semantics
/// prescribe.
struct MockDevice {
    device_feature_select: u32,
    driver_feature_select: u32,
    features: [u32; 2],
    queue_select: u16,
    queue_size: [u16; 4],
    queue_enable: [u16; 4],
    queue_notify_off: [u16; 4],
    device_status: u8,
    config_generation: u8,
    isr: u8,
    config: [u8; 8],
    writes: Vec<(usize, usize, u64)>,
}

impl MockDevice {
    fn new() -> MockDevice {
        MockDevice {
            device_feature_select: 0,
            driver_feature_select: 0,
            features: [0; 2],
            queue_select: 0,
            queue_size: [0; 4],
            queue_enable: [0; 4],
            queue_notify_off: [0; 4],
            device_status: 0,
            config_generation: 0,
            isr: 0,
            config: [0; 8],
            writes: Vec::new(),
        }
    }
}

impl HypercallChannel for MockDevice {
    fn io_read(&mut self, address: usize, size: usize) -> u64 {
        let mask: u64 = match size {
            1 => 0xFF,
            2 => 0xFFFF,
            _ => 0xFFFF_FFFF,
        };
        let value: u64 = if address == COMMON_BASE + 4 {
            self.features[(self.device_feature_select & 1) as usize] as u64
        } else if address == COMMON_BASE + 20 {
            self.device_status as u64
        } else if address == COMMON_BASE + 21 {
            self.config_generation as u64
        } else if address == COMMON_BASE + 24 {
            self.queue_size[(self.queue_select & 3) as usize] as u64
        } else if address == COMMON_BASE + 28 {
            self.queue_enable[(self.queue_select & 3) as usize] as u64
        } else if address == COMMON_BASE + 30 {
            self.queue_notify_off[(self.queue_select & 3) as usize] as u64
        } else if address == ISR_BASE {
            let value = self.isr;
            self.isr = 0;
            value as u64
        } else if (CONFIG_BASE..CONFIG_BASE + 8).contains(&address) {
            let mut value: u64 = 0;
            for i in (0..size).rev() {
                value = value << 8 | self.config[address - CONFIG_BASE + i] as u64;
            }
            value
        } else {
            0
        };
        value & mask
    }

    fn io_write(&mut self, address: usize, size: usize, data: u64) {
        self.writes.push((address, size, data));
        if address == COMMON_BASE {
            self.device_feature_select = data as u32;
        } else if address == COMMON_BASE + 8 {
            self.driver_feature_select = data as u32;
        } else if address == COMMON_BASE + 12 {
            self.features[(self.driver_feature_select & 1) as usize] = data as u32;
        } else if address == COMMON_BASE + 20 {
            self.device_status = data as u8;
        } else if address == COMMON_BASE + 22 {
            self.queue_select = data as u16;
        } else if address == COMMON_BASE + 24 {
            self.queue_size[(self.queue_select & 3) as usize] = data as u16;
        } else if address == COMMON_BASE + 28 {
            self.queue_enable[(self.queue_select & 3) as usize] = data as u16;
        } else if (CONFIG_BASE..CONFIG_BASE + 8).contains(&address) {
            for i in 0..size {
                self.config[address - CONFIG_BASE + i] = (data >> (8 * i)) as u8;
            }
        }
    }
}

fn transport(config_space: Option<HypIoRegion>) -> HypPciTransport {
    HypPciTransport {
        device_type: DeviceType::Block,
        device_function: DeviceFunction { bus: 0, device: 1, function: 0 },
        common_cfg: HypIoRegion { paddr: COMMON_BASE, size: 56 },
        notify_region: HypIoRegion { paddr: NOTIFY_BASE, size: 0x100 },
        notify_off_multiplier: 4,
        isr_status: HypIoRegion { paddr: ISR_BASE, size: 1 },
        config_space,
    }
}

#[test]
fn feature_round_trip() {
    let mut device = MockDevice::new();
    let mut t = transport(None);
    let features: u64 = 0xFEDC_BA98_7654_3210;
    t.write_driver_features(&mut device, features);
    assert_eq!(device.features[0], 0x7654_3210);
    assert_eq!(device.features[1], 0xFEDC_BA98);
    assert_eq!(t.read_device_features(&mut device), features);
}

#[test]
fn read_device_features_sequences_selects() {
    let mut device = MockDevice::new();
    let mut t = transport(None);
    device.features = [0x0000_0007, 0x0000_0001];
    assert_eq!(t.read_device_features(&mut device), 0x0000_0001_0000_0007);
    assert_eq!(
        device.writes,
        vec![(COMMON_BASE, 4, 0), (COMMON_BASE, 4, 1)],
    );
}

#[test]
fn notify_writes_scaled_offset() {
    let mut device = MockDevice::new();
    let mut t = transport(None);
    device.queue_notify_off[0] = 3;
    assert!(t.notify(&mut device, 0));
    // queue_notify_off = 3 and notify_off_multiplier = 4: byte offset 12.
    assert_eq!(device.writes.last(), Some(&(NOTIFY_BASE + 12, 2, 0)));
}

#[test]
fn notify_out_of_range_is_withheld() {
    let mut device = MockDevice::new();
    let mut t = transport(None);
    device.queue_notify_off[0] = 0xFFFF;
    let before = device.writes.len();
    assert!(!t.notify(&mut device, 0));
    // Only the queue-select write happened; nothing touched the notify region.
    assert_eq!(device.writes.len(), before + 1);
    assert_eq!(device.writes.last(), Some(&(COMMON_BASE + 22, 2, 0)));
}

#[test]
fn ack_interrupt_reports_and_clears() {
    let mut device = MockDevice::new();
    let mut t = transport(None);
    device.isr = 0b01;
    assert!(t.ack_interrupt(&mut device));
    // The read cleared the register, so a second acknowledgment sees nothing.
    assert!(!t.ack_interrupt(&mut device));
}

#[test]
fn ack_interrupt_zero_is_false() {
    let mut device = MockDevice::new();
    let mut t = transport(None);
    device.isr = 0b00;
    assert!(!t.ack_interrupt(&mut device));
    device.isr = 0b10;
    assert!(t.ack_interrupt(&mut device));
}

#[test]
fn queue_lifecycle_enable_is_monotonic() {
    let mut device = MockDevice::new();
    let mut t = transport(None);
    assert!(!t.queue_used(&mut device, 0));
    t.queue_set(&mut device, 0, 8, 0x10000, 0x20000, 0x30000);
    assert!(t.queue_used(&mut device, 0));
    t.queue_unset(0);
    // Unsetting is a documented no-op: the queue stays in use.
    assert!(t.queue_used(&mut device, 0));
}

#[test]
fn queue_set_replays_the_register_protocol() {
    let mut device = MockDevice::new();
    let mut t = transport(None);
    t.queue_set(&mut device, 2, 8, 0x1_2345_6789, 0xAAAA_BBBB_CCCC_DDDD, 0x4000);
    assert_eq!(
        device.writes,
        vec![
            (COMMON_BASE + 22, 2, 2),
            (COMMON_BASE + 24, 2, 8),
            (COMMON_BASE + 32, 4, 0x2345_6789),
            (COMMON_BASE + 36, 4, 0x1),
            (COMMON_BASE + 40, 4, 0xCCCC_DDDD),
            (COMMON_BASE + 44, 4, 0xAAAA_BBBB),
            (COMMON_BASE + 48, 4, 0x4000),
            (COMMON_BASE + 52, 4, 0),
            (COMMON_BASE + 28, 2, 1),
        ],
    );
}

#[test]
fn max_queue_size_widens_the_register() {
    let mut device = MockDevice::new();
    let mut t = transport(None);
    device.queue_size[1] = 256;
    assert_eq!(t.max_queue_size(&mut device, 1), 256);
    assert_eq!(device.writes, vec![(COMMON_BASE + 22, 2, 1)]);
}

#[test]
fn status_round_trip() {
    let mut device = MockDevice::new();
    let mut t = transport(None);
    assert_eq!(t.get_status(&mut device), 0);
    t.set_status(&mut device, 0x8F);
    assert_eq!(t.get_status(&mut device), 0x8F);
}

#[test]
fn config_generation_is_read() {
    let mut device = MockDevice::new();
    let t = transport(None);
    device.config_generation = 7;
    assert_eq!(t.read_config_generation(&mut device), 7);
}

#[test]
fn guest_page_size_and_legacy_layout() {
    let mut t = transport(None);
    t.set_guest_page_size(4096);
    assert!(!t.requires_legacy_layout());
    assert_eq!(t.device_type(), DeviceType::Block);
}

#[test]
fn config_space_bounds() {
    let mut device = MockDevice::new();
    let t = transport(Some(HypIoRegion { paddr: CONFIG_BASE, size: 4 }));
    // A four-byte read at offset 4 of a four-byte window runs past its end.
    assert_eq!(t.read_config_space_u32(&mut device, 4), Err(Error::ConfigSpaceTooSmall));
    assert_eq!(t.read_config_space_u32(&mut device, 0), Ok(0));
}

#[test]
fn config_space_missing() {
    let mut device = MockDevice::new();
    let mut t = transport(None);
    assert_eq!(t.read_config_space_u32(&mut device, 0), Err(Error::ConfigSpaceMissing));
    assert_eq!(t.read_config_space_u8(&mut device, 0), Err(Error::ConfigSpaceMissing));
    assert_eq!(t.write_config_space_u16(&mut device, 0, 1), Err(Error::ConfigSpaceMissing));
}

#[test]
fn config_space_round_trip() {
    let mut device = MockDevice::new();
    let mut t = transport(Some(HypIoRegion { paddr: CONFIG_BASE, size: 8 }));
    assert_eq!(t.write_config_space_u32(&mut device, 0, 0xAABB_CCDD), Ok(()));
    assert_eq!(t.write_config_space_u16(&mut device, 4, 0x1122), Ok(()));
    assert_eq!(t.write_config_space_u8(&mut device, 6, 0x33), Ok(()));
    assert_eq!(t.read_config_space_u32(&mut device, 0), Ok(0xAABB_CCDD));
    assert_eq!(t.read_config_space_u16(&mut device, 4), Ok(0x1122));
    assert_eq!(t.read_config_space_u8(&mut device, 6), Ok(0x33));
    assert_eq!(t.read_config_space_u8(&mut device, 8), Err(Error::ConfigSpaceTooSmall));
    assert_eq!(t.write_config_space_u32(&mut device, 8, 1), Err(Error::ConfigSpaceTooSmall));
}
