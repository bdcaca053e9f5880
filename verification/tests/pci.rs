use vmm_core::pci::PciBarConfiguration;
use vmm_core::pci::PciBarPrefetchable;
use vmm_core::pci::PciBarRegionType;
use vmm_core::pci::PciCapConfig;
use vmm_core::pci::PciCapability;
use vmm_core::pci::PciCapabilityID;
use vmm_core::pci::PciClassCode;
use vmm_core::pci::PciConfiguration;
use vmm_core::pci::PciHeaderType;
use vmm_core::pci::PciMultimediaSubclass;
use vmm_core::pci::PciProgrammingInterface;
use vmm_core::pci::Error;
use vmm_core::pci::RestoreError;
use vmm_core::pci::BAR0_REG;
use vmm_core::pci::CAPABILITY_LIST_HEAD_OFFSET;
use vmm_core::pci::ROM_BAR_IDX;
use vmm_core::pci::ROM_BAR_REG;

struct TestCap {
    data: [u8; 4],
}

impl TestCap {
    fn new(len: u8, foo: u8) -> TestCap {
        // A vendor-specific capability body: vendor byte, space for the
        // next pointer, length, payload.
        TestCap {
            data: [0, 0, len, foo],
        }
    }
}

impl PciCapability for TestCap {
    fn bytes(&self) -> &[u8] {
        &self.data
    }

    fn id(&self) -> PciCapabilityID {
        PciCapabilityID::VendorSpecific
    }

    fn writable_bits(&self) -> Vec<u32> {
        vec![0u32; 1]
    }
}

struct TestCapCfg {}

const TEST_CAP_MASK: [u32; 0] = [];

impl PciCapConfig for TestCapCfg {
    type WriteResult = ();

    fn read_reg(&self, _reg_idx: usize) -> u32 {
        0
    }

    fn read_mask(&self) -> &'static [u32] {
        &TEST_CAP_MASK
    }

    fn write_reg(&mut self, _reg_idx: usize, _offset: u64, _data: &[u8]) -> Option<()> {
        None
    }

    fn num_regs(&self) -> usize {
        0
    }
}

fn new_test_config() -> PciConfiguration<TestCapCfg> {
    PciConfiguration::new(
        0x1234,
        0x5678,
        PciClassCode::MultimediaController,
        &PciMultimediaSubclass::AudioController,
        Some(&TestPI::Test),
        PciHeaderType::Device,
        0xABCD,
        0x2468,
        0,
    )
}

#[test]
fn add_capability() {
    let mut cfg: PciConfiguration<TestCapCfg> = PciConfiguration::new(
        0x1234,
        0x5678,
        PciClassCode::MultimediaController,
        &PciMultimediaSubclass::AudioController,
        None,
        PciHeaderType::Device,
        0xABCD,
        0x2468,
        0,
    );

    // Add two capabilities with different contents.
    let cap1 = TestCap::new(4, 0xAA);
    let cap1_offset = 64;
    cfg.add_capability(&cap1, None).unwrap();

    let cap2 = TestCap::new(0x04, 0x55);
    let cap2_offset = 68;
    cfg.add_capability(&cap2, None).unwrap();

    // The capability list head should be pointing to cap1.
    let cap_ptr = cfg.read_reg(CAPABILITY_LIST_HEAD_OFFSET / 4) & 0xFF;
    assert_eq!(cap1_offset, cap_ptr as usize);

    // Verify the contents of the capabilities.
    let cap1_data = cfg.read_reg(cap1_offset / 4);
    assert_eq!(cap1_data & 0xFF, 0x09); // capability ID
    assert_eq!((cap1_data >> 8) & 0xFF, cap2_offset as u32); // next capability pointer
    assert_eq!((cap1_data >> 16) & 0xFF, 0x04); // cap1.len
    assert_eq!((cap1_data >> 24) & 0xFF, 0xAA); // cap1.foo

    let cap2_data = cfg.read_reg(cap2_offset / 4);
    assert_eq!(cap2_data & 0xFF, 0x09); // capability ID
    assert_eq!((cap2_data >> 8) & 0xFF, 0x00); // next capability pointer
    assert_eq!((cap2_data >> 16) & 0xFF, 0x04); // cap2.len
    assert_eq!((cap2_data >> 24) & 0xFF, 0x55); // cap2.foo
}

#[derive(Copy, Clone)]
enum TestPI {
    Test,
}

impl PciProgrammingInterface for TestPI {
    fn get_register_value(&self) -> u8 {
        0x5a
    }
}

#[test]
fn class_code() {
    let cfg = new_test_config();

    let class_reg = cfg.read_reg(2);
    let class_code = (class_reg >> 24) & 0xFF;
    let subclass = (class_reg >> 16) & 0xFF;
    let prog_if = (class_reg >> 8) & 0xFF;
    assert_eq!(class_code, 0x04);
    assert_eq!(subclass, 0x01);
    assert_eq!(prog_if, 0x5a);
}

#[test]
fn read_only_bits() {
    let mut cfg = new_test_config();

    // Attempt to overwrite vendor ID and device ID, which are read-only
    cfg.write_reg(0, 0, &[0xBA, 0xAD, 0xF0, 0x0D]);
    // The original vendor and device ID should remain.
    assert_eq!(cfg.read_reg(0), 0x56781234);
}

#[test]
fn query_unused_bar() {
    let cfg = new_test_config();

    // No BAR 0 has been configured, so these should return None or 0 as appropriate.
    assert_eq!(cfg.get_bar_type(0), None);
    assert_eq!(cfg.get_bar_addr(0), 0);

    let mut bar_iter = cfg.get_bars();
    assert_eq!(bar_iter.next(), None);
}

#[test]
fn add_pci_bar_mem_64bit() {
    let mut cfg = new_test_config();

    cfg.add_pci_bar(
        PciBarConfiguration::new(
            0,
            0x10,
            PciBarRegionType::Memory64BitRegion,
            PciBarPrefetchable::NotPrefetchable,
        )
        .set_address(0x0123_4567_89AB_CDE0),
    )
    .expect("add_pci_bar failed");

    assert_eq!(
        cfg.get_bar_type(0),
        Some(PciBarRegionType::Memory64BitRegion)
    );
    assert_eq!(cfg.get_bar_addr(0), 0x0123_4567_89AB_CDE0);
    assert_eq!(cfg.get_writable_bits(BAR0_REG + 1), 0xFFFFFFFF);
    assert_eq!(cfg.get_writable_bits(BAR0_REG + 0), 0xFFFFFFF0);

    let mut bar_iter = cfg.get_bars();
    assert_eq!(
        bar_iter.next(),
        Some(PciBarConfiguration {
            addr: 0x0123_4567_89AB_CDE0,
            size: 0x10,
            bar_idx: 0,
            region_type: PciBarRegionType::Memory64BitRegion,
            prefetchable: PciBarPrefetchable::NotPrefetchable
        })
    );
    assert_eq!(bar_iter.next(), None);
}

#[test]
fn add_pci_bar_mem_32bit() {
    let mut cfg = new_test_config();

    cfg.add_pci_bar(
        PciBarConfiguration::new(
            0,
            0x10,
            PciBarRegionType::Memory32BitRegion,
            PciBarPrefetchable::NotPrefetchable,
        )
        .set_address(0x12345670),
    )
    .expect("add_pci_bar failed");

    assert_eq!(
        cfg.get_bar_type(0),
        Some(PciBarRegionType::Memory32BitRegion)
    );
    assert_eq!(cfg.get_bar_addr(0), 0x12345670);
    assert_eq!(cfg.get_writable_bits(BAR0_REG), 0xFFFFFFF0);

    let mut bar_iter = cfg.get_bars();
    assert_eq!(
        bar_iter.next(),
        Some(PciBarConfiguration {
            addr: 0x12345670,
            size: 0x10,
            bar_idx: 0,
            region_type: PciBarRegionType::Memory32BitRegion,
            prefetchable: PciBarPrefetchable::NotPrefetchable
        })
    );
    assert_eq!(bar_iter.next(), None);
}

#[test]
fn add_pci_bar_io() {
    let mut cfg = new_test_config();

    cfg.add_pci_bar(
        PciBarConfiguration::new(
            0,
            0x4,
            PciBarRegionType::IoRegion,
            PciBarPrefetchable::NotPrefetchable,
        )
        .set_address(0x1230),
    )
    .expect("add_pci_bar failed");

    assert_eq!(cfg.get_bar_type(0), Some(PciBarRegionType::IoRegion));
    assert_eq!(cfg.get_bar_addr(0), 0x1230);
    assert_eq!(cfg.get_writable_bits(BAR0_REG), 0xFFFFFFFC);

    let mut bar_iter = cfg.get_bars();
    assert_eq!(
        bar_iter.next(),
        Some(PciBarConfiguration {
            addr: 0x1230,
            size: 0x4,
            bar_idx: 0,
            region_type: PciBarRegionType::IoRegion,
            prefetchable: PciBarPrefetchable::NotPrefetchable
        })
    );
    assert_eq!(bar_iter.next(), None);
}

#[test]
fn add_pci_bar_multiple() {
    let mut cfg = new_test_config();

    // bar_num 0-1: 64-bit memory
    cfg.add_pci_bar(
        PciBarConfiguration::new(
            0,
            0x10,
            PciBarRegionType::Memory64BitRegion,
            PciBarPrefetchable::NotPrefetchable,
        )
        .set_address(0x0123_4567_89AB_CDE0),
    )
    .expect("add_pci_bar failed");

    // bar 2: 32-bit memory
    cfg.add_pci_bar(
        PciBarConfiguration::new(
            2,
            0x10,
            PciBarRegionType::Memory32BitRegion,
            PciBarPrefetchable::NotPrefetchable,
        )
        .set_address(0x12345670),
    )
    .expect("add_pci_bar failed");

    // bar 3: I/O
    cfg.add_pci_bar(
        PciBarConfiguration::new(
            3,
            0x4,
            PciBarRegionType::IoRegion,
            PciBarPrefetchable::NotPrefetchable,
        )
        .set_address(0x1230),
    )
    .expect("add_pci_bar failed");

    // Confirm default memory and I/O region configurations.
    let mut bar_iter = cfg.get_bars();
    assert_eq!(
        bar_iter.next(),
        Some(PciBarConfiguration {
            addr: 0x0123_4567_89AB_CDE0,
            size: 0x10,
            bar_idx: 0,
            region_type: PciBarRegionType::Memory64BitRegion,
            prefetchable: PciBarPrefetchable::NotPrefetchable
        })
    );
    assert_eq!(
        bar_iter.next(),
        Some(PciBarConfiguration {
            addr: 0x12345670,
            size: 0x10,
            bar_idx: 2,
            region_type: PciBarRegionType::Memory32BitRegion,
            prefetchable: PciBarPrefetchable::NotPrefetchable
        })
    );
    assert_eq!(
        bar_iter.next(),
        Some(PciBarConfiguration {
            addr: 0x1230,
            size: 0x4,
            bar_idx: 3,
            region_type: PciBarRegionType::IoRegion,
            prefetchable: PciBarPrefetchable::NotPrefetchable
        })
    );
    assert_eq!(bar_iter.next(), None);

    // Reassign the address for BAR 0 and verify that get_memory_regions() matches.
    cfg.write_reg(4 + 0, 0, &0xBBAA9980u32.to_le_bytes());
    cfg.write_reg(4 + 1, 0, &0xFFEEDDCCu32.to_le_bytes());

    let mut bar_iter = cfg.get_bars();
    assert_eq!(
        bar_iter.next(),
        Some(PciBarConfiguration {
            addr: 0xFFEE_DDCC_BBAA_9980,
            size: 0x10,
            bar_idx: 0,
            region_type: PciBarRegionType::Memory64BitRegion,
            prefetchable: PciBarPrefetchable::NotPrefetchable
        })
    );
    assert_eq!(
        bar_iter.next(),
        Some(PciBarConfiguration {
            addr: 0x12345670,
            size: 0x10,
            bar_idx: 2,
            region_type: PciBarRegionType::Memory32BitRegion,
            prefetchable: PciBarPrefetchable::NotPrefetchable
        })
    );
    assert_eq!(
        bar_iter.next(),
        Some(PciBarConfiguration {
            addr: 0x1230,
            size: 0x4,
            bar_idx: 3,
            region_type: PciBarRegionType::IoRegion,
            prefetchable: PciBarPrefetchable::NotPrefetchable
        })
    );
    assert_eq!(bar_iter.next(), None);
}

#[test]
fn add_pci_bar_invalid_size() {
    let mut cfg = new_test_config();

    // I/O BAR with size 2 (too small)
    assert_eq!(
        cfg.add_pci_bar(
            PciBarConfiguration::new(
                0,
                0x2,
                PciBarRegionType::IoRegion,
                PciBarPrefetchable::NotPrefetchable,
            )
            .set_address(0x1230),
        ),
        Err(Error::BarSizeInvalid(0x2))
    );

    // I/O BAR with size 3 (not a power of 2)
    assert_eq!(
        cfg.add_pci_bar(
            PciBarConfiguration::new(
                0,
                0x3,
                PciBarRegionType::IoRegion,
                PciBarPrefetchable::NotPrefetchable,
            )
            .set_address(0x1230),
        ),
        Err(Error::BarSizeInvalid(0x3))
    );

    // Memory BAR with size 8 (too small)
    assert_eq!(
        cfg.add_pci_bar(
            PciBarConfiguration::new(
                0,
                0x8,
                PciBarRegionType::Memory32BitRegion,
                PciBarPrefetchable::NotPrefetchable,
            )
            .set_address(0x12345670),
        ),
        Err(Error::BarSizeInvalid(0x8))
    );
}

#[test]
fn add_rom_bar() {
    let mut cfg = new_test_config();

    // Attempt to add a 64-bit memory BAR as the expansion ROM (invalid).
    assert_eq!(
        cfg.add_pci_bar(PciBarConfiguration::new(
            ROM_BAR_IDX,
            0x1000,
            PciBarRegionType::Memory64BitRegion,
            PciBarPrefetchable::NotPrefetchable,
        ),),
        Err(Error::BarInvalidRomType)
    );

    // Attempt to add an I/O BAR as the expansion ROM (invalid).
    assert_eq!(
        cfg.add_pci_bar(PciBarConfiguration::new(
            ROM_BAR_IDX,
            0x1000,
            PciBarRegionType::IoRegion,
            PciBarPrefetchable::NotPrefetchable,
        ),),
        Err(Error::BarInvalidRomType)
    );

    // Attempt to add a 1KB memory region as the expansion ROM (too small).
    assert_eq!(
        cfg.add_pci_bar(PciBarConfiguration::new(
            ROM_BAR_IDX,
            1024,
            PciBarRegionType::Memory32BitRegion,
            PciBarPrefetchable::NotPrefetchable,
        ),),
        Err(Error::BarSizeInvalid(1024))
    );

    // Add a 32-bit memory BAR as the expansion ROM (valid).
    cfg.add_pci_bar(
        PciBarConfiguration::new(
            ROM_BAR_IDX,
            0x800,
            PciBarRegionType::Memory32BitRegion,
            PciBarPrefetchable::NotPrefetchable,
        )
        .set_address(0x12345000),
    )
    .expect("add_pci_bar failed");

    assert_eq!(
        cfg.get_bar_type(ROM_BAR_IDX),
        Some(PciBarRegionType::Memory32BitRegion)
    );
    assert_eq!(cfg.get_bar_addr(ROM_BAR_IDX), 0x12345000);
    assert_eq!(cfg.read_reg(ROM_BAR_REG), 0x12345000);
    assert_eq!(cfg.get_writable_bits(ROM_BAR_REG), 0xFFFFF801);
}

#[test]
fn pci_configuration_capability_snapshot_restore() {
    let mut cfg = new_test_config();

    let snap_init = cfg.snapshot();

    // Add a capability.
    let cap1 = TestCap::new(4, 0xAA);
    cfg.add_capability(&cap1, None).unwrap();

    let snap_mod = cfg.snapshot();
    cfg.restore(snap_init.clone())
        .expect("failed to restore snap_init");
    let snap_restore_init = cfg.snapshot();
    assert_eq!(snap_init, snap_restore_init);
    assert_ne!(snap_init, snap_mod);
    cfg.restore(snap_mod.clone())
        .expect("failed to restore snap_mod");
    let snap_restore_mod = cfg.snapshot();
    assert_eq!(snap_mod, snap_restore_mod);
}

#[test]
fn pci_configuration_pci_bar_snapshot_restore() {
    let mut cfg = new_test_config();

    let snap_init = cfg.snapshot();

    // bar_num 0-1: 64-bit memory
    cfg.add_pci_bar(
        PciBarConfiguration::new(
            0,
            0x10,
            PciBarRegionType::Memory64BitRegion,
            PciBarPrefetchable::NotPrefetchable,
        )
        .set_address(0x0123_4567_89AB_CDE0),
    )
    .expect("add_pci_bar failed");

    let snap_mod = cfg.snapshot();
    cfg.restore(snap_init.clone())
        .expect("failed to restore snap_init");
    let snap_restore_init = cfg.snapshot();
    assert_eq!(snap_init, snap_restore_init);
    assert_ne!(snap_init, snap_mod);
    cfg.restore(snap_mod.clone())
        .expect("failed to restore snap_mod");
    let snap_restore_mod = cfg.snapshot();
    assert_eq!(snap_mod, snap_restore_mod);
}

#[test]
fn pci_configuration_capability_pci_bar_snapshot_restore() {
    let mut cfg = new_test_config();

    let snap_init = cfg.snapshot();

    // Add a capability.
    let cap1 = TestCap::new(4, 0xAA);
    cfg.add_capability(&cap1, None).unwrap();

    // bar_num 0-1: 64-bit memory
    cfg.add_pci_bar(
        PciBarConfiguration::new(
            0,
            0x10,
            PciBarRegionType::Memory64BitRegion,
            PciBarPrefetchable::NotPrefetchable,
        )
        .set_address(0x0123_4567_89AB_CDE0),
    )
    .expect("add_pci_bar failed");

    let snap_mod = cfg.snapshot();
    cfg.restore(snap_init.clone())
        .expect("failed to restore snap_init");
    let snap_restore_init = cfg.snapshot();
    assert_eq!(snap_init, snap_restore_init);
    assert_ne!(snap_init, snap_mod);
    cfg.restore(snap_mod.clone())
        .expect("failed to restore snap_mod");
    let snap_restore_mod = cfg.snapshot();
    assert_eq!(snap_mod, snap_restore_mod);
}

#[test]
fn add_pci_bar_error_variants() {
    let mut cfg = new_test_config();

    // Index beyond the last BAR slot.
    assert_eq!(
        cfg.add_pci_bar(PciBarConfiguration::new(
            7,
            0x10,
            PciBarRegionType::Memory32BitRegion,
            PciBarPrefetchable::NotPrefetchable,
        )),
        Err(Error::BarInvalid(7))
    );

    // Address not aligned to the region size.
    assert_eq!(
        cfg.add_pci_bar(
            PciBarConfiguration::new(
                0,
                0x10,
                PciBarRegionType::Memory32BitRegion,
                PciBarPrefetchable::NotPrefetchable,
            )
            .set_address(0x8),
        ),
        Err(Error::BarAlignmentInvalid(0x8, 0x10))
    );

    // End address beyond the 32-bit range.
    assert_eq!(
        cfg.add_pci_bar(
            PciBarConfiguration::new(
                0,
                0x10,
                PciBarRegionType::Memory32BitRegion,
                PciBarPrefetchable::NotPrefetchable,
            )
            .set_address(0xFFFF_FFF0),
        ),
        Err(Error::BarAddressInvalid(0xFFFF_FFF0, 0x10))
    );

    // A 64-bit BAR cannot start at the slot before the ROM BAR.
    assert_eq!(
        cfg.add_pci_bar(
            PciBarConfiguration::new(
                5,
                0x10,
                PciBarRegionType::Memory64BitRegion,
                PciBarPrefetchable::NotPrefetchable,
            )
            .set_address(0x1000_0000),
        ),
        Err(Error::BarInvalid64(5))
    );

    cfg.add_pci_bar(
        PciBarConfiguration::new(
            0,
            0x10,
            PciBarRegionType::Memory32BitRegion,
            PciBarPrefetchable::NotPrefetchable,
        )
        .set_address(0x1000_0000),
    )
    .expect("add_pci_bar failed");

    // The slot is now taken.
    assert_eq!(
        cfg.add_pci_bar(
            PciBarConfiguration::new(
                0,
                0x10,
                PciBarRegionType::Memory32BitRegion,
                PciBarPrefetchable::NotPrefetchable,
            )
            .set_address(0x2000_0000),
        ),
        Err(Error::BarInUse(0))
    );

    // A 64-bit BAR also needs the following slot free.
    cfg.add_pci_bar(
        PciBarConfiguration::new(
            2,
            0x10,
            PciBarRegionType::Memory32BitRegion,
            PciBarPrefetchable::NotPrefetchable,
        )
        .set_address(0x3000_0000),
    )
    .expect("add_pci_bar failed");
    assert_eq!(
        cfg.add_pci_bar(
            PciBarConfiguration::new(
                1,
                0x10,
                PciBarRegionType::Memory64BitRegion,
                PciBarPrefetchable::NotPrefetchable,
            )
            .set_address(0x4000_0000),
        ),
        Err(Error::BarInUse64(1))
    );
}

struct EmptyCap;

impl PciCapability for EmptyCap {
    fn bytes(&self) -> &[u8] {
        &[]
    }

    fn id(&self) -> PciCapabilityID {
        PciCapabilityID::VendorSpecific
    }

    fn writable_bits(&self) -> Vec<u32> {
        Vec::new()
    }
}

struct BigCap {
    data: Vec<u8>,
}

impl PciCapability for BigCap {
    fn bytes(&self) -> &[u8] {
        &self.data
    }

    fn id(&self) -> PciCapabilityID {
        PciCapabilityID::VendorSpecific
    }

    fn writable_bits(&self) -> Vec<u32> {
        Vec::new()
    }
}

#[test]
fn add_capability_error_variants() {
    let mut cfg = new_test_config();

    // Empty capabilities are invalid.
    assert_eq!(cfg.add_capability(&EmptyCap, None), Err(Error::CapabilityEmpty));

    // A capability that runs past the config-space ceiling is refused.
    let big = BigCap { data: vec![0u8; 200] };
    assert_eq!(
        cfg.add_capability(&big, None),
        Err(Error::CapabilitySpaceFull(200))
    );
}

#[test]
fn restore_rejects_mismatched_shapes() {
    let mut cfg = new_test_config();
    let mut snap = cfg.snapshot();
    snap.registers.pop();
    assert_eq!(cfg.restore(snap), Err(RestoreError::InvalidRegisters));

    let mut snap = cfg.snapshot();
    snap.bar_used.pop();
    assert_eq!(cfg.restore(snap), Err(RestoreError::InvalidBarUsed));

    // A capability tail of any age or shape is taken as is, as a
    // restored device layout supersedes the running one.
    let mut snap = cfg.snapshot();
    snap.last_capability = Some((0x41, 4));
    assert_eq!(cfg.restore(snap), Ok(()));
}

#[test]
fn set_irq_programs_line_and_pin() {
    let mut cfg = new_test_config();
    cfg.set_irq(5, vmm_core::pci::PciInterruptPin::IntB);
    // Pin is 1-based in config space; the line sits in the low byte.
    assert_eq!(cfg.read_reg(15) & 0xffff, (2 << 8) | 5);
}

#[test]
fn setup_mapping_mirrors_registers() {
    let mut cfg = new_test_config();
    cfg.setup_mapping(0, 256).expect("setup_mapping failed");
    // A second mirror cannot be installed.
    assert!(cfg.setup_mapping(0, 256).is_err());
}

struct ValueCapCfg {
    value: u32,
}

const VALUE_CAP_MASK: [u32; 1] = [0xffff_ffff];

impl PciCapConfig for ValueCapCfg {
    type WriteResult = ();

    fn read_reg(&self, _reg_idx: usize) -> u32 {
        self.value
    }

    fn read_mask(&self) -> &'static [u32] {
        &VALUE_CAP_MASK
    }

    fn write_reg(&mut self, _reg_idx: usize, _offset: u64, _data: &[u8]) -> Option<()> {
        None
    }

    fn num_regs(&self) -> usize {
        1
    }
}

#[test]
fn restore_accepts_snapshot_older_than_capabilities() {
    // Snapshot, then install a capability with a config, then restore the
    // old snapshot: the earlier state comes back whole even though the
    // installed config outlives it.
    let mut cfg: PciConfiguration<ValueCapCfg> = PciConfiguration::new(
        0x1234,
        0x5678,
        PciClassCode::MultimediaController,
        &PciMultimediaSubclass::AudioController,
        None,
        PciHeaderType::Device,
        0xABCD,
        0x2468,
        0,
    );
    let snap_init = cfg.snapshot();

    let cap = TestCap::new(4, 0xAA);
    cfg.add_capability(&cap, Some(ValueCapCfg { value: 0xabcd_1234 }))
        .unwrap();
    assert_ne!(cfg.snapshot(), snap_init);

    cfg.restore(snap_init.clone()).expect("restore failed");
    assert_eq!(cfg.snapshot(), snap_init);
}

#[test]
fn sync_capability_folds_dynamic_values_in() {
    let mut cfg: PciConfiguration<ValueCapCfg> = PciConfiguration::new(
        0x1234,
        0x5678,
        PciClassCode::MultimediaController,
        &PciMultimediaSubclass::AudioController,
        None,
        PciHeaderType::Device,
        0xABCD,
        0x2468,
        0,
    );
    let cap = TestCap::new(4, 0xAA);
    cfg.add_capability(&cap, Some(ValueCapCfg { value: 0xabcd_1234 }))
        .unwrap();
    cfg.setup_mapping(0, 256).expect("setup_mapping failed");

    // The dynamic value reaches the register file and the mirror only
    // once the owner folds it in.
    assert!(cfg.sync_capability(0));
    let snap = cfg.snapshot();
    assert_eq!(snap.registers[16], 0xabcd_1234); // capability register at 0x40
    assert!(!cfg.sync_capability(1)); // only one capability is installed
}
