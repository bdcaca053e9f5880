use vmm_core::aml::append_pkg_length;
use vmm_core::aml::Acquire;
use vmm_core::aml::Add;
use vmm_core::aml::AddressSpace;
use vmm_core::aml::AddressSpaceCachable;
use vmm_core::aml::Aml;
use vmm_core::aml::Arg;
use vmm_core::aml::BufferData;
use vmm_core::aml::Device;
use vmm_core::aml::EISAName;
use vmm_core::aml::Equal;
use vmm_core::aml::Field;
use vmm_core::aml::FieldAccessType;
use vmm_core::aml::FieldEntry;
use vmm_core::aml::FieldLockRule;
use vmm_core::aml::FieldUpdateRule;
use vmm_core::aml::If;
use vmm_core::aml::Interrupt;
use vmm_core::aml::LessThan;
use vmm_core::aml::Local;
use vmm_core::aml::Memory32Fixed;
use vmm_core::aml::Method;
use vmm_core::aml::MethodCall;
use vmm_core::aml::Mutex;
use vmm_core::aml::Name;
use vmm_core::aml::Notify;
use vmm_core::aml::One;
use vmm_core::aml::OpRegion;
use vmm_core::aml::OpRegionSpace;
use vmm_core::aml::Package;
use vmm_core::aml::Path;
use vmm_core::aml::Release;
use vmm_core::aml::ResourceTemplate;
use vmm_core::aml::Return;
use vmm_core::aml::Scope;
use vmm_core::aml::Store;
use vmm_core::aml::While;
use vmm_core::aml::Zero;

#[test]
fn test_device() {
    /*
    Device (_SB.COM1)
    {
        Name (_HID, EisaId ("PNP0501") /* 16550A-compatible COM Serial Port */) // _HID: Hardware ID
        Name (_CRS, ResourceTemplate ()  // _CRS: Current Resource Settings
        {
            Interrupt (ResourceConsumer, Edge, ActiveHigh, Exclusive, ,, )
            {
                0x00000004,
            }
            IO (Decode16,
                0x03F8,             // Range Minimum
                0x03F8,             // Range Maximum
                0x00,               // Alignment
                0x08,               // Length
                )
        }
    }
        */
    let com1_device = [
        0x5B, 0x82, 0x30, 0x2E, 0x5F, 0x53, 0x42, 0x5F, 0x43, 0x4F, 0x4D, 0x31, 0x08, 0x5F, 0x48,
        0x49, 0x44, 0x0C, 0x41, 0xD0, 0x05, 0x01, 0x08, 0x5F, 0x43, 0x52, 0x53, 0x11, 0x16, 0x0A,
        0x13, 0x89, 0x06, 0x00, 0x03, 0x01, 0x04, 0x00, 0x00, 0x00, 0x47, 0x01, 0xF8, 0x03, 0xF8,
        0x03, 0x00, 0x08, 0x79, 0x00,
    ];
    let mut aml = Vec::new();

    Device::new(
        Path::new("_SB_.COM1"),
        vec![
            &Name::new(Path::new("_HID"), &EISAName::new("PNP0501")),
            &Name::new(
                Path::new("_CRS"),
                &ResourceTemplate::new(vec![
                    &Interrupt::new(true, true, false, false, 4),
                    &vmm_core::aml::IO::new(0x3f8, 0x3f8, 0, 0x8),
                ]),
            ),
        ],
    )
    .to_aml_bytes(&mut aml);
    assert_eq!(aml, &com1_device[..]);
}

#[test]
fn test_scope() {
    /*
    Scope (_SB.MBRD)
    {
        Name (_CRS, ResourceTemplate ()  // _CRS: Current Resource Settings
        {
            Memory32Fixed (ReadWrite,
                0xE8000000,         // Address Base
                0x10000000,         // Address Length
                )
        })
    }
    */

    let mbrd_scope = [
        0x10, 0x21, 0x2E, 0x5F, 0x53, 0x42, 0x5F, 0x4D, 0x42, 0x52, 0x44, 0x08, 0x5F, 0x43, 0x52,
        0x53, 0x11, 0x11, 0x0A, 0x0E, 0x86, 0x09, 0x00, 0x01, 0x00, 0x00, 0x00, 0xE8, 0x00, 0x00,
        0x00, 0x10, 0x79, 0x00,
    ];
    let mut aml = Vec::new();

    Scope::new(
        Path::new("_SB_.MBRD"),
        vec![&Name::new(
            Path::new("_CRS"),
            &ResourceTemplate::new(vec![&Memory32Fixed::new(true, 0xE800_0000, 0x1000_0000)]),
        )],
    )
    .to_aml_bytes(&mut aml);
    assert_eq!(aml, &mbrd_scope[..]);
}

#[test]
fn test_resource_template() {
    /*
    Name (_CRS, ResourceTemplate ()  // _CRS: Current Resource Settings
    {
        Memory32Fixed (ReadWrite,
            0xE8000000,         // Address Base
            0x10000000,         // Address Length
            )
    })
    */
    let crs_memory_32_fixed = [
        0x08, 0x5F, 0x43, 0x52, 0x53, 0x11, 0x11, 0x0A, 0x0E, 0x86, 0x09, 0x00, 0x01, 0x00, 0x00,
        0x00, 0xE8, 0x00, 0x00, 0x00, 0x10, 0x79, 0x00,
    ];
    let mut aml = Vec::new();

    Name::new(
        Path::new("_CRS"),
        &ResourceTemplate::new(vec![&Memory32Fixed::new(true, 0xE800_0000, 0x1000_0000)]),
    )
    .to_aml_bytes(&mut aml);
    assert_eq!(aml, crs_memory_32_fixed);

    /*
        Name (_CRS, ResourceTemplate ()  // _CRS: Current Resource Settings
        {
            WordBusNumber (ResourceProducer, MinFixed, MaxFixed, PosDecode,
                0x0000,             // Granularity
                0x0000,             // Range Minimum
                0x00FF,             // Range Maximum
                0x0000,             // Translation Offset
                0x0100,             // Length
                ,, )
            WordIO (ResourceProducer, MinFixed, MaxFixed, PosDecode, EntireRange,
                0x0000,             // Granularity
                0x0000,             // Range Minimum
                0x0CF7,             // Range Maximum
                0x0000,             // Translation Offset
                0x0CF8,             // Length
                ,, , TypeStatic, DenseTranslation)
            WordIO (ResourceProducer, MinFixed, MaxFixed, PosDecode, EntireRange,
                0x0000,             // Granularity
                0x0D00,             // Range Minimum
                0xFFFF,             // Range Maximum
                0x0000,             // Translation Offset
                0xF300,             // Length
                ,, , TypeStatic, DenseTranslation)
            DWordMemory (ResourceProducer, PosDecode, MinFixed, MaxFixed, Cacheable, ReadWrite,
                0x00000000,         // Granularity
                0x000A0000,         // Range Minimum
                0x000BFFFF,         // Range Maximum
                0x00000000,         // Translation Offset
                0x00020000,         // Length
                ,, , AddressRangeMemory, TypeStatic)
            DWordMemory (ResourceProducer, PosDecode, MinFixed, MaxFixed, NonCacheable, ReadWrite,
                0x00000000,         // Granularity
                0xC0000000,         // Range Minimum
                0xFEBFFFFF,         // Range Maximum
                0x00000000,         // Translation Offset
                0x3EC00000,         // Length
                ,, , AddressRangeMemory, TypeStatic)
            QWordMemory (ResourceProducer, PosDecode, MinFixed, MaxFixed, Cacheable, ReadWrite,
                0x0000000000000000, // Granularity
                0x0000000800000000, // Range Minimum
                0x0000000FFFFFFFFF, // Range Maximum
                0x0000000000000000, // Translation Offset
                0x0000000800000000, // Length
                ,, , AddressRangeMemory, TypeStatic)
        })
    */

    // WordBusNumber from above
    let crs_word_bus_number = [
        0x08, 0x5F, 0x43, 0x52, 0x53, 0x11, 0x15, 0x0A, 0x12, 0x88, 0x0D, 0x00, 0x02, 0x0C, 0x00,
        0x00, 0x00, 0x00, 0x00, 0xFF, 0x00, 0x00, 0x00, 0x00, 0x01, 0x79, 0x00,
    ];
    aml.clear();

    Name::new(
        Path::new("_CRS"),
        &ResourceTemplate::new(vec![&AddressSpace::new_bus_number(0x0u16, 0xffu16)]),
    )
    .to_aml_bytes(&mut aml);
    assert_eq!(aml, &crs_word_bus_number);

    // WordIO blocks (x 2) from above
    let crs_word_io = [
        0x08, 0x5F, 0x43, 0x52, 0x53, 0x11, 0x25, 0x0A, 0x22, 0x88, 0x0D, 0x00, 0x01, 0x0C, 0x03,
        0x00, 0x00, 0x00, 0x00, 0xF7, 0x0C, 0x00, 0x00, 0xF8, 0x0C, 0x88, 0x0D, 0x00, 0x01, 0x0C,
        0x03, 0x00, 0x00, 0x00, 0x0D, 0xFF, 0xFF, 0x00, 0x00, 0x00, 0xF3, 0x79, 0x00,
    ];
    aml.clear();

    Name::new(
        Path::new("_CRS"),
        &ResourceTemplate::new(vec![
            &AddressSpace::new_io(0x0u16, 0xcf7u16),
            &AddressSpace::new_io(0xd00u16, 0xffffu16),
        ]),
    )
    .to_aml_bytes(&mut aml);
    assert_eq!(aml, &crs_word_io[..]);

    // DWordMemory blocks (x 2) from above
    let crs_dword_memory = [
        0x08, 0x5F, 0x43, 0x52, 0x53, 0x11, 0x39, 0x0A, 0x36, 0x87, 0x17, 0x00, 0x00, 0x0C, 0x03,
        0x00, 0x00, 0x00, 0x00, 0x00, 0x00, 0x0A, 0x00, 0xFF, 0xFF, 0x0B, 0x00, 0x00, 0x00, 0x00,
        0x00, 0x00, 0x00, 0x02, 0x00, 0x87, 0x17, 0x00, 0x00, 0x0C, 0x01, 0x00, 0x00, 0x00, 0x00,
        0x00, 0x00, 0x00, 0xC0, 0xFF, 0xFF, 0xBF, 0xFE, 0x00, 0x00, 0x00, 0x00, 0x00, 0x00, 0xC0,
        0x3E, 0x79, 0x00,
    ];
    aml.clear();

    Name::new(
        Path::new("_CRS"),
        &ResourceTemplate::new(vec![
            &AddressSpace::new_memory(
                AddressSpaceCachable::Cacheable,
                true,
                0xa_0000u32,
                0xb_ffffu32,
            ),
            &AddressSpace::new_memory(
                AddressSpaceCachable::NotCacheable,
                true,
                0xc000_0000u32,
                0xfebf_ffffu32,
            ),
        ]),
    )
    .to_aml_bytes(&mut aml);
    assert_eq!(aml, &crs_dword_memory[..]);

    // QWordMemory from above
    let crs_qword_memory = [
        0x08, 0x5F, 0x43, 0x52, 0x53, 0x11, 0x33, 0x0A, 0x30, 0x8A, 0x2B, 0x00, 0x00, 0x0C, 0x03,
        0x00, 0x00, 0x00, 0x00, 0x00, 0x00, 0x00, 0x00, 0x00, 0x00, 0x00, 0x00, 0x08, 0x00, 0x00,
        0x00, 0xFF, 0xFF, 0xFF, 0xFF, 0x0F, 0x00, 0x00, 0x00, 0x00, 0x00, 0x00, 0x00, 0x00, 0x00,
        0x00, 0x00, 0x00, 0x00, 0x00, 0x00, 0x08, 0x00, 0x00, 0x00, 0x79, 0x00,
    ];
    aml.clear();
    Name::new(
        Path::new("_CRS"),
        &ResourceTemplate::new(vec![&AddressSpace::new_memory(
            AddressSpaceCachable::Cacheable,
            true,
            0x8_0000_0000u64,
            0xf_ffff_ffffu64,
        )]),
    )
    .to_aml_bytes(&mut aml);

    assert_eq!(aml, &crs_qword_memory[..]);

    /*
        Name (_CRS, ResourceTemplate ()  // _CRS: Current Resource Settings
        {
            Interrupt (ResourceConsumer, Edge, ActiveHigh, Exclusive, ,, )
            {
                0x00000004,
            }
            IO (Decode16,
                0x03F8,             // Range Minimum
                0x03F8,             // Range Maximum
                0x00,               // Alignment
                0x08,               // Length
                )
        })

    */
    let interrupt_io_data = [
        0x08, 0x5F, 0x43, 0x52, 0x53, 0x11, 0x16, 0x0A, 0x13, 0x89, 0x06, 0x00, 0x03, 0x01, 0x04,
        0x00, 0x00, 0x00, 0x47, 0x01, 0xF8, 0x03, 0xF8, 0x03, 0x00, 0x08, 0x79, 0x00,
    ];
    aml.clear();
    Name::new(
        Path::new("_CRS"),
        &ResourceTemplate::new(vec![
            &Interrupt::new(true, true, false, false, 4),
            &vmm_core::aml::IO::new(0x3f8, 0x3f8, 0, 0x8),
        ]),
    )
    .to_aml_bytes(&mut aml);

    assert_eq!(aml, &interrupt_io_data[..]);
}

#[test]
fn test_pkg_length() {
    let mut pkg_len_62 = Vec::new();
    append_pkg_length(&mut pkg_len_62, 62);
    assert_eq!(pkg_len_62, [63]);

    let mut pkg_len_64 = Vec::new();
    append_pkg_length(&mut pkg_len_64, 64);
    assert_eq!(pkg_len_64, [1 << 6 | (66 & 0xf), 66 >> 4]);

    let mut pkg_len_4096 = Vec::new();
    append_pkg_length(&mut pkg_len_4096, 4096);
    assert_eq!(
        pkg_len_4096,
        [
            2 << 6 | (4099 & 0xf) as u8,
            (4099 >> 4) as u8,
            (4099 >> 12) as u8
        ]
    );
}

#[test]
fn test_package() {
    /*
    Name (_S5, Package (0x01)  // _S5_: S5 System State
    {
        0x05
    })
    */
    let s5_sleep_data = [0x08, 0x5F, 0x53, 0x35, 0x5F, 0x12, 0x04, 0x01, 0x0A, 0x05];
    let mut aml = Vec::new();

    Name::new(Path::new("_S5_"), &Package::new(vec![&5u8])).to_aml_bytes(&mut aml);

    assert_eq!(s5_sleep_data.to_vec(), aml);
}

#[test]
fn test_eisa_name() {
    let mut aml = Vec::new();
    Name::new(Path::new("_HID"), &EISAName::new("PNP0501")).to_aml_bytes(&mut aml);
    assert_eq!(
        aml,
        [0x08, 0x5F, 0x48, 0x49, 0x44, 0x0C, 0x41, 0xD0, 0x05, 0x01],
    )
}

#[test]
fn test_name_path() {
    let mut aml = Vec::new();
    (&Path::new("_SB_")).to_aml_bytes(&mut aml);
    assert_eq!(aml, [0x5Fu8, 0x53, 0x42, 0x5F]);
    aml.clear();
    (&Path::new("\\_SB_")).to_aml_bytes(&mut aml);
    assert_eq!(aml, [0x5C, 0x5F, 0x53, 0x42, 0x5F]);
    aml.clear();
    (&Path::new("_SB_.COM1")).to_aml_bytes(&mut aml);
    assert_eq!(aml, [0x2E, 0x5F, 0x53, 0x42, 0x5F, 0x43, 0x4F, 0x4D, 0x31]);
    aml.clear();
    (&Path::new("_SB_.PCI0._HID")).to_aml_bytes(&mut aml);
    assert_eq!(
        aml,
        [0x2F, 0x03, 0x5F, 0x53, 0x42, 0x5F, 0x50, 0x43, 0x49, 0x30, 0x5F, 0x48, 0x49, 0x44]
    );
}

#[test]
fn test_numbers() {
    let mut aml = Vec::new();
    128u8.to_aml_bytes(&mut aml);
    assert_eq!(aml, [0x0a, 0x80]);
    aml.clear();
    1024u16.to_aml_bytes(&mut aml);
    assert_eq!(aml, [0x0b, 0x0, 0x04]);
    aml.clear();
    (16u32 << 20).to_aml_bytes(&mut aml);
    assert_eq!(aml, [0x0c, 0x00, 0x00, 0x0, 0x01]);
    aml.clear();
    0xdeca_fbad_deca_fbadu64.to_aml_bytes(&mut aml);
    assert_eq!(aml, [0x0e, 0xad, 0xfb, 0xca, 0xde, 0xad, 0xfb, 0xca, 0xde]);
    aml.clear();

    // u8
    0x00_u8.to_aml_bytes(&mut aml);
    assert_eq!(aml, [0x00]);
    aml.clear();
    0x01_u8.to_aml_bytes(&mut aml);
    assert_eq!(aml, [0x01]);
    aml.clear();
    0x86_u8.to_aml_bytes(&mut aml);
    assert_eq!(aml, [0x0a, 0x86]);
    aml.clear();

    // u16
    0x00_u16.to_aml_bytes(&mut aml);
    assert_eq!(aml, [0x00]);
    aml.clear();
    0x01_u16.to_aml_bytes(&mut aml);
    assert_eq!(aml, [0x01]);
    aml.clear();
    0x86_u16.to_aml_bytes(&mut aml);
    assert_eq!(aml, [0x0a, 0x86]);
    aml.clear();
    0xF00D_u16.to_aml_bytes(&mut aml);
    assert_eq!(aml, [0x0b, 0x0d, 0xf0]);
    aml.clear();

    // u32
    0x00_u32.to_aml_bytes(&mut aml);
    assert_eq!(aml, [0x00]);
    aml.clear();
    0x01_u32.to_aml_bytes(&mut aml);
    assert_eq!(aml, [0x01]);
    aml.clear();
    0x86_u32.to_aml_bytes(&mut aml);
    assert_eq!(aml, [0x0a, 0x86]);
    aml.clear();
    0xF00D_u32.to_aml_bytes(&mut aml);
    assert_eq!(aml, [0x0b, 0x0d, 0xf0]);
    aml.clear();
    0xDECAF_u32.to_aml_bytes(&mut aml);
    assert_eq!(aml, [0x0c, 0xaf, 0xec, 0x0d, 0x00]);
    aml.clear();

    // u64
    0x00_u64.to_aml_bytes(&mut aml);
    assert_eq!(aml, [0x00]);
    aml.clear();
    0x01_u64.to_aml_bytes(&mut aml);
    assert_eq!(aml, [0x01]);
    aml.clear();
    0x86_u64.to_aml_bytes(&mut aml);
    assert_eq!(aml, [0x0a, 0x86]);
    aml.clear();
    0xF00D_u64.to_aml_bytes(&mut aml);
    assert_eq!(aml, [0x0b, 0x0d, 0xf0]);
    aml.clear();
    0xDECAF_u64.to_aml_bytes(&mut aml);
    assert_eq!(aml, [0x0c, 0xaf, 0xec, 0x0d, 0x00]);
    aml.clear();
    0xDECAFC0FFEE_u64.to_aml_bytes(&mut aml);
    assert_eq!(aml, [0x0e, 0xee, 0xff, 0xc0, 0xaf, 0xec, 0x0d, 0x00, 0x00]);
    aml.clear();

    // usize
    0x00_usize.to_aml_bytes(&mut aml);
    assert_eq!(aml, [0x00]);
    aml.clear();
    0x01_usize.to_aml_bytes(&mut aml);
    assert_eq!(aml, [0x01]);
    aml.clear();
    0x86_usize.to_aml_bytes(&mut aml);
    assert_eq!(aml, [0x0a, 0x86]);
    aml.clear();
    0xF00D_usize.to_aml_bytes(&mut aml);
    assert_eq!(aml, [0x0b, 0x0d, 0xf0]);
    aml.clear();
    0xDECAF_usize.to_aml_bytes(&mut aml);
    assert_eq!(aml, [0x0c, 0xaf, 0xec, 0x0d, 0x00]);
    aml.clear();
    0xDECAFC0FFEE_usize.to_aml_bytes(&mut aml);
    assert_eq!(aml, [0x0e, 0xee, 0xff, 0xc0, 0xaf, 0xec, 0x0d, 0x00, 0x00]);
    aml.clear();
}

#[test]
fn test_name() {
    let mut aml = Vec::new();
    Name::new(Path::new("_SB_.PCI0._UID"), &0x1234u16).to_aml_bytes(&mut aml);
    assert_eq!(
        aml,
        [
            0x08, /* NameOp */
            0x2F, /* MultiNamePrefix */
            0x03, /* 3 name parts */
            0x5F, 0x53, 0x42, 0x5F, /* _SB_ */
            0x50, 0x43, 0x49, 0x30, /* PCI0 */
            0x5F, 0x55, 0x49, 0x44, /* _UID */
            0x0b, /* WordPrefix */
            0x34, 0x12
        ]
    );
}

#[test]
fn test_string() {
    let mut aml = Vec::new();
    (&"ACPI" as &dyn Aml).to_aml_bytes(&mut aml);
    assert_eq!(aml, [0x0d, b'A', b'C', b'P', b'I', 0]);
    aml.clear();
    "ACPI".to_owned().to_aml_bytes(&mut aml);
    assert_eq!(aml, [0x0d, b'A', b'C', b'P', b'I', 0]);
}

#[test]
fn test_method() {
    let mut aml = Vec::new();
    Method::new(Path::new("_STA"), 0, false, vec![&Return::new(&0xfu8)]).to_aml_bytes(&mut aml);
    assert_eq!(
        aml,
        [0x14, 0x09, 0x5F, 0x53, 0x54, 0x41, 0x00, 0xA4, 0x0A, 0x0F]
    );
}

#[test]
fn test_field() {
    /*
        Field (PRST, ByteAcc, NoLock, WriteAsZeros)
        {
            Offset (0x04),
            CPEN,   1,
            CINS,   1,
            CRMV,   1,
            CEJ0,   1,
            Offset (0x05),
            CCMD,   8
        }

    */

    let field_data = [
        0x5Bu8, 0x81, 0x23, 0x50, 0x52, 0x53, 0x54, 0x41, 0x00, 0x20, 0x43, 0x50, 0x45, 0x4E,
        0x01, 0x43, 0x49, 0x4E, 0x53, 0x01, 0x43, 0x52, 0x4D, 0x56, 0x01, 0x43, 0x45, 0x4A, 0x30,
        0x01, 0x00, 0x04, 0x43, 0x43, 0x4D, 0x44, 0x08,
    ];
    let mut aml = Vec::new();

    Field::new(
        Path::new("PRST"),
        FieldAccessType::Byte,
        FieldLockRule::NoLock,
        FieldUpdateRule::WriteAsZeroes,
        vec![
            FieldEntry::Reserved(32),
            FieldEntry::Named(*b"CPEN", 1),
            FieldEntry::Named(*b"CINS", 1),
            FieldEntry::Named(*b"CRMV", 1),
            FieldEntry::Named(*b"CEJ0", 1),
            FieldEntry::Reserved(4),
            FieldEntry::Named(*b"CCMD", 8),
        ],
    )
    .to_aml_bytes(&mut aml);
    assert_eq!(aml, &field_data[..]);

    /*
        Field (PRST, DWordAcc, Lock, Preserve)
        {
            CSEL,   32,
            Offset (0x08),
            CDAT,   32
        }
    */

    let field_data = [
        0x5Bu8, 0x81, 0x12, 0x50, 0x52, 0x53, 0x54, 0x13, 0x43, 0x53, 0x45, 0x4C, 0x20, 0x00,
        0x20, 0x43, 0x44, 0x41, 0x54, 0x20,
    ];
    aml.clear();

    Field::new(
        Path::new("PRST"),
        FieldAccessType::DWord,
        FieldLockRule::Lock,
        FieldUpdateRule::Preserve,
        vec![
            FieldEntry::Named(*b"CSEL", 32),
            FieldEntry::Reserved(32),
            FieldEntry::Named(*b"CDAT", 32),
        ],
    )
    .to_aml_bytes(&mut aml);
    assert_eq!(aml, &field_data[..]);
}

#[test]
fn test_op_region() {
    /*
        OperationRegion (PRST, SystemIO, 0x0CD8, 0x0C)
    */
    let op_region_data = [
        0x5Bu8, 0x80, 0x50, 0x52, 0x53, 0x54, 0x01, 0x0B, 0xD8, 0x0C, 0x0A, 0x0C,
    ];
    let mut aml = Vec::new();

    OpRegion::new(
        Path::new("PRST"),
        OpRegionSpace::SystemIO,
        &0xcd8_usize,
        &0xc_usize,
    )
    .to_aml_bytes(&mut aml);
    assert_eq!(aml, &op_region_data[..]);
}

#[test]
fn test_arg_if() {
    /*
        Method(TEST, 1, NotSerialized) {
            If (Arg0 == Zero) {
                    Return(One)
            }
            Return(Zero)
        }
    */
    let arg_if_data = [
        0x14, 0x0F, 0x54, 0x45, 0x53, 0x54, 0x01, 0xA0, 0x06, 0x93, 0x68, 0x00, 0xA4, 0x01, 0xA4,
        0x00,
    ];
    let mut aml = Vec::new();

    Method::new(
        Path::new("TEST"),
        1,
        false,
        vec![
            &If::new(&Equal::new(&Arg(0), &Zero {}), vec![&Return::new(&One {})]),
            &Return::new(&Zero {}),
        ],
    )
    .to_aml_bytes(&mut aml);
    assert_eq!(aml, &arg_if_data);
}

#[test]
fn test_local_if() {
    /*
        Method(TEST, 0, NotSerialized) {
            Local0 = One
            If (Local0 == Zero) {
                    Return(One)
            }
            Return(Zero)
        }
    */
    let local_if_data = [
        0x14, 0x12, 0x54, 0x45, 0x53, 0x54, 0x00, 0x70, 0x01, 0x60, 0xA0, 0x06, 0x93, 0x60, 0x00,
        0xA4, 0x01, 0xA4, 0x00,
    ];
    let mut aml = Vec::new();

    Method::new(
        Path::new("TEST"),
        0,
        false,
        vec![
            &Store::new(&Local(0), &One {}),
            &If::new(&Equal::new(&Local(0), &Zero {}), vec![&Return::new(&One {})]),
            &Return::new(&Zero {}),
        ],
    )
    .to_aml_bytes(&mut aml);
    assert_eq!(aml, &local_if_data);
}

#[test]
fn test_mutex() {
    /*
    Device (_SB_.MHPC)
    {
            Name (_HID, EisaId("PNP0A06") /* Generic Container Device */)  // _HID: Hardware ID
            Mutex (MLCK, 0x00)
            Method (TEST, 0, NotSerialized)
            {
                Acquire (MLCK, 0xFFFF)
                Local0 = One
                Release (MLCK)
            }
    }
    */

    let mutex_data = [
        0x5B, 0x82, 0x33, 0x2E, 0x5F, 0x53, 0x42, 0x5F, 0x4D, 0x48, 0x50, 0x43, 0x08, 0x5F, 0x48,
        0x49, 0x44, 0x0C, 0x41, 0xD0, 0x0A, 0x06, 0x5B, 0x01, 0x4D, 0x4C, 0x43, 0x4B, 0x00, 0x14,
        0x17, 0x54, 0x45, 0x53, 0x54, 0x00, 0x5B, 0x23, 0x4D, 0x4C, 0x43, 0x4B, 0xFF, 0xFF, 0x70,
        0x01, 0x60, 0x5B, 0x27, 0x4D, 0x4C, 0x43, 0x4B,
    ];
    let mut aml = Vec::new();

    let mutex = Mutex::new(Path::new("MLCK"), 0);
    Device::new(
        Path::new("_SB_.MHPC"),
        vec![
            &Name::new(Path::new("_HID"), &EISAName::new("PNP0A06")),
            &mutex,
            &Method::new(
                Path::new("TEST"),
                0,
                false,
                vec![
                    &Acquire::new(Path::new("MLCK"), 0xffff),
                    &Store::new(&Local(0), &One {}),
                    &Release::new(Path::new("MLCK")),
                ],
            ),
        ],
    )
    .to_aml_bytes(&mut aml);
    assert_eq!(aml, &mutex_data[..]);
}

#[test]
fn test_notify() {
    /*
    Device (_SB.MHPC)
    {
        Name (_HID, EisaId ("PNP0A06") /* Generic Container Device */)  // _HID: Hardware ID
        Method (TEST, 0, NotSerialized)
        {
            Notify (MHPC, One) // Device Check
        }
    }
    */
    let notify_data = [
        0x5B, 0x82, 0x21, 0x2E, 0x5F, 0x53, 0x42, 0x5F, 0x4D, 0x48, 0x50, 0x43, 0x08, 0x5F, 0x48,
        0x49, 0x44, 0x0C, 0x41, 0xD0, 0x0A, 0x06, 0x14, 0x0C, 0x54, 0x45, 0x53, 0x54, 0x00, 0x86,
        0x4D, 0x48, 0x50, 0x43, 0x01,
    ];
    let mut aml = Vec::new();

    Device::new(
        Path::new("_SB_.MHPC"),
        vec![
            &Name::new(Path::new("_HID"), &EISAName::new("PNP0A06")),
            &Method::new(
                Path::new("TEST"),
                0,
                false,
                vec![&Notify::new(&Path::new("MHPC"), &One {})],
            ),
        ],
    )
    .to_aml_bytes(&mut aml);
    assert_eq!(aml, &notify_data[..]);
}

#[test]
fn test_while() {
    /*
    Device (_SB.MHPC)
    {
        Name (_HID, EisaId ("PNP0A06") /* Generic Container Device */)  // _HID: Hardware ID
        Method (TEST, 0, NotSerialized)
        {
            Local0 = Zero
            While ((Local0 < 0x04))
            {
                Local0 += One
            }
        }
    }
    */

    let while_data = [
        0x5B, 0x82, 0x28, 0x2E, 0x5F, 0x53, 0x42, 0x5F, 0x4D, 0x48, 0x50, 0x43, 0x08, 0x5F, 0x48,
        0x49, 0x44, 0x0C, 0x41, 0xD0, 0x0A, 0x06, 0x14, 0x13, 0x54, 0x45, 0x53, 0x54, 0x00, 0x70,
        0x00, 0x60, 0xA2, 0x09, 0x95, 0x60, 0x0A, 0x04, 0x72, 0x60, 0x01, 0x60,
    ];
    let mut aml = Vec::new();

    Device::new(
        Path::new("_SB_.MHPC"),
        vec![
            &Name::new(Path::new("_HID"), &EISAName::new("PNP0A06")),
            &Method::new(
                Path::new("TEST"),
                0,
                false,
                vec![
                    &Store::new(&Local(0), &Zero {}),
                    &While::new(
                        &LessThan::new(&Local(0), &4usize),
                        vec![&Add::new(&Local(0), &Local(0), &One {})],
                    ),
                ],
            ),
        ],
    )
    .to_aml_bytes(&mut aml);
    assert_eq!(aml, &while_data[..])
}

#[test]
fn test_method_call() {
    /*
        Method (TST1, 1, NotSerialized)
        {
            TST2 (One, One)
        }

        Method (TST2, 2, NotSerialized)
        {
            TST1 (One)
        }
    */
    let test_data = [
        0x14, 0x0C, 0x54, 0x53, 0x54, 0x31, 0x01, 0x54, 0x53, 0x54, 0x32, 0x01, 0x01, 0x14, 0x0B,
        0x54, 0x53, 0x54, 0x32, 0x02, 0x54, 0x53, 0x54, 0x31, 0x01,
    ];

    let mut methods = Vec::new();
    Method::new(
        Path::new("TST1"),
        1,
        false,
        vec![&MethodCall::new(Path::new("TST2"), vec![&One {}, &One {}])],
    )
    .to_aml_bytes(&mut methods);
    Method::new(
        Path::new("TST2"),
        2,
        false,
        vec![&MethodCall::new(Path::new("TST1"), vec![&One {}])],
    )
    .to_aml_bytes(&mut methods);
    assert_eq!(&methods[..], &test_data[..])
}

#[test]
fn test_buffer() {
    /*
    Name (_MAT, Buffer (0x08)  // _MAT: Multiple APIC Table Entry
    {
        0x00, 0x08, 0x00, 0x00, 0x01, 0x00, 0x00, 0x00   /* ........ */
    })
    */
    let buffer_data = [
        0x08, 0x5F, 0x4D, 0x41, 0x54, 0x11, 0x0B, 0x0A, 0x08, 0x00, 0x08, 0x00, 0x00, 0x01, 0x00,
        0x00, 0x00,
    ];
    let mut aml = Vec::new();

    Name::new(
        Path::new("_MAT"),
        &BufferData::new(vec![0x00, 0x08, 0x00, 0x00, 0x01, 0x00, 0x00, 0x00]),
    )
    .to_aml_bytes(&mut aml);
    assert_eq!(aml, &buffer_data[..])
}
