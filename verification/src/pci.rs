//! Model of the 256-byte PCI configuration space of one function: 64 dword
//! registers with per-bit writable masks, BAR allocation, capability-list
//! chaining, pluggable capability configs, an optional guest-visible
//! mirror, and snapshot/restore.

use vstd::prelude::*;

verus! {

// The number of 32bit registers in the config space, 256 bytes.
pub const NUM_CONFIGURATION_REGISTERS: usize = 64;

pub const PCI_ID_REG: usize = 0;

pub const COMMAND_REG: usize = 1;

pub const COMMAND_REG_IO_SPACE_MASK: u32 = 0x0000_0001;

pub const COMMAND_REG_MEMORY_SPACE_MASK: u32 = 0x0000_0002;

pub const STATUS_REG: usize = 1;

pub const STATUS_REG_CAPABILITIES_USED_MASK: u32 = 0x0010_0000;

pub const CLASS_REG: usize = 2;

pub const HEADER_TYPE_REG: usize = 3;

pub const HEADER_TYPE_REG_OFFSET: usize = 2;

pub const HEADER_TYPE_MULTIFUNCTION_MASK: u8 = 0x80;

pub const BAR0_REG: usize = 4;

pub const BAR_IO_ADDR_MASK: u32 = 0xffff_fffc;

pub const BAR_IO_MIN_SIZE: u64 = 4;

pub const BAR_MEM_ADDR_MASK: u32 = 0xffff_fff0;

pub const BAR_MEM_MIN_SIZE: u64 = 16;

pub const BAR_ROM_MIN_SIZE: u64 = 2048;

// 6 normal BARs + expansion ROM BAR.
pub const NUM_BAR_REGS: usize = 7;

pub type PciBarIndex = usize;

pub const ROM_BAR_IDX: PciBarIndex = 6;

pub const ROM_BAR_REG: usize = 12;

pub const CAPABILITY_LIST_HEAD_OFFSET: usize = 0x34;

pub const PCI_CAP_NEXT_POINTER: usize = 0x1;

pub const FIRST_CAPABILITY_OFFSET: usize = 0x40;

pub const CAPABILITY_MAX_OFFSET: usize = 255;

pub const INTERRUPT_LINE_PIN_REG: usize = 15;

/// A PCI interrupt pin, INTA# through INTD#.
#[derive(Copy, Clone, PartialEq, Eq, Structural, Debug)]
pub enum PciInterruptPin {
    IntA,
    IntB,
    IntC,
    IntD,
}

/// The 0-based numeric value of an interrupt pin.
pub open spec fn interrupt_pin_value(pin: PciInterruptPin) -> u32 {
    match pin {
        PciInterruptPin::IntA => 0,
        PciInterruptPin::IntB => 1,
        PciInterruptPin::IntC => 2,
        PciInterruptPin::IntD => 3,
    }
}

/// Represents the types of PCI headers allowed in the configuration
/// registers.
#[derive(Copy, Clone)]
pub enum PciHeaderType {
    Device,
    Bridge,
}

/// Classes of PCI nodes.
#[derive(Copy, Clone, Debug, PartialEq, Eq, Structural)]
pub enum PciClassCode {
    TooOld,
    MassStorage,
    NetworkController,
    DisplayController,
    MultimediaController,
    MemoryController,
    BridgeDevice,
    SimpleCommunicationController,
    BaseSystemPeripheral,
    InputDevice,
    DockingStation,
    Processor,
    SerialBusController,
    WirelessController,
    IntelligentIoController,
    SatelliteCommunicationController,
    EncryptionController,
    DataAcquisitionSignalProcessing,
    ProcessingAccelerator,
    NonEssentialInstrumentation,
    Other,
}

/// The class-code byte of a PCI class.
pub open spec fn class_code_value(c: PciClassCode) -> u8 {
    match c {
        PciClassCode::TooOld => 0x00,
        PciClassCode::MassStorage => 0x01,
        PciClassCode::NetworkController => 0x02,
        PciClassCode::DisplayController => 0x03,
        PciClassCode::MultimediaController => 0x04,
        PciClassCode::MemoryController => 0x05,
        PciClassCode::BridgeDevice => 0x06,
        PciClassCode::SimpleCommunicationController => 0x07,
        PciClassCode::BaseSystemPeripheral => 0x08,
        PciClassCode::InputDevice => 0x09,
        PciClassCode::DockingStation => 0x0a,
        PciClassCode::Processor => 0x0b,
        PciClassCode::SerialBusController => 0x0c,
        PciClassCode::WirelessController => 0x0d,
        PciClassCode::IntelligentIoController => 0x0e,
        PciClassCode::SatelliteCommunicationController => 0x0f,
        PciClassCode::EncryptionController => 0x10,
        PciClassCode::DataAcquisitionSignalProcessing => 0x11,
        PciClassCode::ProcessingAccelerator => 0x12,
        PciClassCode::NonEssentialInstrumentation => 0x13,
        PciClassCode::Other => 0xff,
    }
}

impl PciClassCode {
    /// The class-code byte written into the PCI class register.
    pub fn get_register_value(&self) -> (r: u8)
        ensures
            r == class_code_value(*self),
    {
        match self {
            PciClassCode::TooOld => 0x00,
            PciClassCode::MassStorage => 0x01,
            PciClassCode::NetworkController => 0x02,
            PciClassCode::DisplayController => 0x03,
            PciClassCode::MultimediaController => 0x04,
            PciClassCode::MemoryController => 0x05,
            PciClassCode::BridgeDevice => 0x06,
            PciClassCode::SimpleCommunicationController => 0x07,
            PciClassCode::BaseSystemPeripheral => 0x08,
            PciClassCode::InputDevice => 0x09,
            PciClassCode::DockingStation => 0x0a,
            PciClassCode::Processor => 0x0b,
            PciClassCode::SerialBusController => 0x0c,
            PciClassCode::WirelessController => 0x0d,
            PciClassCode::IntelligentIoController => 0x0e,
            PciClassCode::SatelliteCommunicationController => 0x0f,
            PciClassCode::EncryptionController => 0x10,
            PciClassCode::DataAcquisitionSignalProcessing => 0x11,
            PciClassCode::ProcessingAccelerator => 0x12,
            PciClassCode::NonEssentialInstrumentation => 0x13,
            PciClassCode::Other => 0xff,
        }
    }

    /// The class for a class-code byte, if the byte names one.
    pub fn n(v: u8) -> (r: Option<PciClassCode>)
        ensures
            match r {
                Some(c) => class_code_value(c) == v,
                None => forall|c: PciClassCode| class_code_value(c) != v,
            },
    {
        match v {
            0x00 => Some(PciClassCode::TooOld),
            0x01 => Some(PciClassCode::MassStorage),
            0x02 => Some(PciClassCode::NetworkController),
            0x03 => Some(PciClassCode::DisplayController),
            0x04 => Some(PciClassCode::MultimediaController),
            0x05 => Some(PciClassCode::MemoryController),
            0x06 => Some(PciClassCode::BridgeDevice),
            0x07 => Some(PciClassCode::SimpleCommunicationController),
            0x08 => Some(PciClassCode::BaseSystemPeripheral),
            0x09 => Some(PciClassCode::InputDevice),
            0x0a => Some(PciClassCode::DockingStation),
            0x0b => Some(PciClassCode::Processor),
            0x0c => Some(PciClassCode::SerialBusController),
            0x0d => Some(PciClassCode::WirelessController),
            0x0e => Some(PciClassCode::IntelligentIoController),
            0x0f => Some(PciClassCode::SatelliteCommunicationController),
            0x10 => Some(PciClassCode::EncryptionController),
            0x11 => Some(PciClassCode::DataAcquisitionSignalProcessing),
            0x12 => Some(PciClassCode::ProcessingAccelerator),
            0x13 => Some(PciClassCode::NonEssentialInstrumentation),
            0xff => Some(PciClassCode::Other),
            _ => {
                proof {
                    assert forall|c: PciClassCode| class_code_value(c) != v by {
                        if class_code_value(c) == v {
                            assert(false);
                        }
                    }
                }
                None
            },
        }
    }

    /// The class for a class-code byte, or an error for an unknown byte.
    pub fn try_from(v: u8) -> (r: Result<PciClassCode, PciClassCodeParseError>)
        ensures
            match r {
                Ok(c) => class_code_value(c) == v,
                Err(_) => forall|c: PciClassCode| class_code_value(c) != v,
            },
    {
        match PciClassCode::n(v) {
            Some(class) => Ok(class),
            None => Err(PciClassCodeParseError::Unknown),
        }
    }
}

/// Error for a class-code byte that names no PCI class.
#[derive(Debug, PartialEq, Eq, Structural)]
pub enum PciClassCodeParseError {
    Unknown,
}

/// A PCI subclass. Each class in `PciClassCode` can specify a unique set
/// of subclasses. This trait is implemented by each subclass.
pub trait PciSubclass {
    /// The subclass byte as a specification-level value. An
    /// implementation overrides this alongside `get_register_value`; the
    /// default stands for impls outside the verified world.
    open spec fn reg_value(&self) -> u8 {
        0
    }

    /// Convert this subclass to the value used in the PCI specification.
    fn get_register_value(&self) -> (r: u8)
        ensures
            r == self.reg_value(),
    ;
}

/// Subclasses of the MassStorage class.
#[derive(Copy, Clone)]
pub enum PciMassStorageSubclass {
    Scsi,
    NonVolatileMemory,
    Other,
}

impl PciSubclass for PciMassStorageSubclass {
    open spec fn reg_value(&self) -> u8 {
        match self {
            PciMassStorageSubclass::Scsi => 0x00,
            PciMassStorageSubclass::NonVolatileMemory => 0x08,
            PciMassStorageSubclass::Other => 0x80,
        }
    }

    fn get_register_value(&self) -> u8 {
        match self {
            PciMassStorageSubclass::Scsi => 0x00,
            PciMassStorageSubclass::NonVolatileMemory => 0x08,
            PciMassStorageSubclass::Other => 0x80,
        }
    }
}

/// Subclasses of the NetworkController class.
#[derive(Copy, Clone)]
pub enum PciNetworkControllerSubclass {
    Other,
}

impl PciSubclass for PciNetworkControllerSubclass {
    open spec fn reg_value(&self) -> u8 {
        0x80
    }

    fn get_register_value(&self) -> u8 {
        0x80
    }
}

/// Subclasses of the DisplayController class.
#[derive(Copy, Clone)]
pub enum PciDisplaySubclass {
    VgaCompatibleController,
    XgaCompatibleController,
    ThreeDController,
    Other,
}

impl PciSubclass for PciDisplaySubclass {
    open spec fn reg_value(&self) -> u8 {
        match self {
            PciDisplaySubclass::VgaCompatibleController => 0x00,
            PciDisplaySubclass::XgaCompatibleController => 0x01,
            PciDisplaySubclass::ThreeDController => 0x02,
            PciDisplaySubclass::Other => 0x80,
        }
    }

    fn get_register_value(&self) -> u8 {
        match self {
            PciDisplaySubclass::VgaCompatibleController => 0x00,
            PciDisplaySubclass::XgaCompatibleController => 0x01,
            PciDisplaySubclass::ThreeDController => 0x02,
            PciDisplaySubclass::Other => 0x80,
        }
    }
}

/// Subclasses of the MultimediaController class.
#[derive(Copy, Clone)]
pub enum PciMultimediaSubclass {
    VideoController,
    AudioController,
    TelephonyDevice,
    AudioDevice,
    Other,
}

impl PciSubclass for PciMultimediaSubclass {
    open spec fn reg_value(&self) -> u8 {
        match self {
            PciMultimediaSubclass::VideoController => 0x00,
            PciMultimediaSubclass::AudioController => 0x01,
            PciMultimediaSubclass::TelephonyDevice => 0x02,
            PciMultimediaSubclass::AudioDevice => 0x03,
            PciMultimediaSubclass::Other => 0x80,
        }
    }

    fn get_register_value(&self) -> u8 {
        match self {
            PciMultimediaSubclass::VideoController => 0x00,
            PciMultimediaSubclass::AudioController => 0x01,
            PciMultimediaSubclass::TelephonyDevice => 0x02,
            PciMultimediaSubclass::AudioDevice => 0x03,
            PciMultimediaSubclass::Other => 0x80,
        }
    }
}

/// Subclasses of the BridgeDevice class.
#[derive(Copy, Clone)]
pub enum PciBridgeSubclass {
    HostBridge,
    IsaBridge,
    EisaBridge,
    McaBridge,
    PciToPciBridge,
    PcmciaBridge,
    NuBusBridge,
    CardBusBridge,
    RaceWayBridge,
    PciToPciSemiTransparentBridge,
    InfiniBrandToPciHostBridge,
    OtherBridgeDevice,
}

impl PciSubclass for PciBridgeSubclass {
    open spec fn reg_value(&self) -> u8 {
        match self {
            PciBridgeSubclass::HostBridge => 0x00,
            PciBridgeSubclass::IsaBridge => 0x01,
            PciBridgeSubclass::EisaBridge => 0x02,
            PciBridgeSubclass::McaBridge => 0x03,
            PciBridgeSubclass::PciToPciBridge => 0x04,
            PciBridgeSubclass::PcmciaBridge => 0x05,
            PciBridgeSubclass::NuBusBridge => 0x06,
            PciBridgeSubclass::CardBusBridge => 0x07,
            PciBridgeSubclass::RaceWayBridge => 0x08,
            PciBridgeSubclass::PciToPciSemiTransparentBridge => 0x09,
            PciBridgeSubclass::InfiniBrandToPciHostBridge => 0x0a,
            PciBridgeSubclass::OtherBridgeDevice => 0x80,
        }
    }

    fn get_register_value(&self) -> u8 {
        match self {
            PciBridgeSubclass::HostBridge => 0x00,
            PciBridgeSubclass::IsaBridge => 0x01,
            PciBridgeSubclass::EisaBridge => 0x02,
            PciBridgeSubclass::McaBridge => 0x03,
            PciBridgeSubclass::PciToPciBridge => 0x04,
            PciBridgeSubclass::PcmciaBridge => 0x05,
            PciBridgeSubclass::NuBusBridge => 0x06,
            PciBridgeSubclass::CardBusBridge => 0x07,
            PciBridgeSubclass::RaceWayBridge => 0x08,
            PciBridgeSubclass::PciToPciSemiTransparentBridge => 0x09,
            PciBridgeSubclass::InfiniBrandToPciHostBridge => 0x0a,
            PciBridgeSubclass::OtherBridgeDevice => 0x80,
        }
    }
}

/// Subclasses of the SimpleCommunicationController class.
#[derive(Copy, Clone)]
pub enum PciSimpleCommunicationControllerSubclass {
    Other,
}

impl PciSubclass for PciSimpleCommunicationControllerSubclass {
    open spec fn reg_value(&self) -> u8 {
        0x80
    }

    fn get_register_value(&self) -> u8 {
        0x80
    }
}

/// Subclasses of the BaseSystemPeripheral class.
#[derive(Copy, Clone)]
pub enum PciBaseSystemPeripheralSubclass {
    Iommu,
    Other,
}

impl PciSubclass for PciBaseSystemPeripheralSubclass {
    open spec fn reg_value(&self) -> u8 {
        match self {
            PciBaseSystemPeripheralSubclass::Iommu => 0x06,
            PciBaseSystemPeripheralSubclass::Other => 0x80,
        }
    }

    fn get_register_value(&self) -> u8 {
        match self {
            PciBaseSystemPeripheralSubclass::Iommu => 0x06,
            PciBaseSystemPeripheralSubclass::Other => 0x80,
        }
    }
}

/// Subclasses of the InputDevice class.
#[derive(Copy, Clone)]
pub enum PciInputDeviceSubclass {
    Other,
}

impl PciSubclass for PciInputDeviceSubclass {
    open spec fn reg_value(&self) -> u8 {
        0x80
    }

    fn get_register_value(&self) -> u8 {
        0x80
    }
}

/// Subclasses of the SerialBus class.
#[derive(Copy, Clone)]
pub enum PciSerialBusSubClass {
    Firewire,
    AccessBus,
    Ssa,
    Usb,
}

impl PciSubclass for PciSerialBusSubClass {
    open spec fn reg_value(&self) -> u8 {
        match self {
            PciSerialBusSubClass::Firewire => 0x00,
            PciSerialBusSubClass::AccessBus => 0x01,
            PciSerialBusSubClass::Ssa => 0x02,
            PciSerialBusSubClass::Usb => 0x03,
        }
    }

    fn get_register_value(&self) -> u8 {
        match self {
            PciSerialBusSubClass::Firewire => 0x00,
            PciSerialBusSubClass::AccessBus => 0x01,
            PciSerialBusSubClass::Ssa => 0x02,
            PciSerialBusSubClass::Usb => 0x03,
        }
    }
}

/// Subclasses of the WirelessController class.
#[derive(Copy, Clone)]
pub enum PciWirelessControllerSubclass {
    Other,
}

impl PciSubclass for PciWirelessControllerSubclass {
    open spec fn reg_value(&self) -> u8 {
        0x80
    }

    fn get_register_value(&self) -> u8 {
        0x80
    }
}

/// Subclasses for PciClassCode Other.
#[derive(Copy, Clone)]
pub enum PciOtherSubclass {
    Other,
}

impl PciSubclass for PciOtherSubclass {
    open spec fn reg_value(&self) -> u8 {
        0xff
    }

    fn get_register_value(&self) -> u8 {
        0xff
    }
}

/// A PCI class programming interface. Each combination of `PciClassCode`
/// and `PciSubclass` can specify a set of register-level programming
/// interfaces. This trait is implemented by each programming interface.
pub trait PciProgrammingInterface {
    /// The programming-interface byte as a specification-level value. An
    /// implementation overrides this alongside `get_register_value`; the
    /// default stands for impls outside the verified world.
    open spec fn reg_value(&self) -> u8 {
        0
    }

    /// Convert this programming interface to the value used in the PCI
    /// specification.
    fn get_register_value(&self) -> (r: u8)
        ensures
            r == self.reg_value(),
    ;
}

/// Types of PCI capabilities.
#[derive(Copy, Clone)]
pub enum PciCapabilityID {
    ListID,
    PowerManagement,
    AcceleratedGraphicsPort,
    VitalProductData,
    SlotIdentification,
    MessageSignalledInterrupts,
    CompactPciHotSwap,
    Pcix,
    HyperTransport,
    VendorSpecific,
    Debugport,
    CompactPciCentralResourceControl,
    PciStandardHotPlugController,
    BridgeSubsystemVendorDeviceID,
    AgpTargetPciPciBridge,
    SecureDevice,
    PciExpress,
    Msix,
    SataDataIndexConf,
    PciAdvancedFeatures,
    PciEnhancedAllocation,
}

/// The identifier byte of a capability type.
pub open spec fn capability_id_value(id: PciCapabilityID) -> u8 {
    match id {
        PciCapabilityID::ListID => 0,
        PciCapabilityID::PowerManagement => 0x01,
        PciCapabilityID::AcceleratedGraphicsPort => 0x02,
        PciCapabilityID::VitalProductData => 0x03,
        PciCapabilityID::SlotIdentification => 0x04,
        PciCapabilityID::MessageSignalledInterrupts => 0x05,
        PciCapabilityID::CompactPciHotSwap => 0x06,
        PciCapabilityID::Pcix => 0x07,
        PciCapabilityID::HyperTransport => 0x08,
        PciCapabilityID::VendorSpecific => 0x09,
        PciCapabilityID::Debugport => 0x0a,
        PciCapabilityID::CompactPciCentralResourceControl => 0x0b,
        PciCapabilityID::PciStandardHotPlugController => 0x0c,
        PciCapabilityID::BridgeSubsystemVendorDeviceID => 0x0d,
        PciCapabilityID::AgpTargetPciPciBridge => 0x0e,
        PciCapabilityID::SecureDevice => 0x0f,
        PciCapabilityID::PciExpress => 0x10,
        PciCapabilityID::Msix => 0x11,
        PciCapabilityID::SataDataIndexConf => 0x12,
        PciCapabilityID::PciAdvancedFeatures => 0x13,
        PciCapabilityID::PciEnhancedAllocation => 0x14,
    }
}

fn capability_id_byte(id: PciCapabilityID) -> (r: u8)
    ensures
        r == capability_id_value(id),
{
    match id {
        PciCapabilityID::ListID => 0,
        PciCapabilityID::PowerManagement => 0x01,
        PciCapabilityID::AcceleratedGraphicsPort => 0x02,
        PciCapabilityID::VitalProductData => 0x03,
        PciCapabilityID::SlotIdentification => 0x04,
        PciCapabilityID::MessageSignalledInterrupts => 0x05,
        PciCapabilityID::CompactPciHotSwap => 0x06,
        PciCapabilityID::Pcix => 0x07,
        PciCapabilityID::HyperTransport => 0x08,
        PciCapabilityID::VendorSpecific => 0x09,
        PciCapabilityID::Debugport => 0x0a,
        PciCapabilityID::CompactPciCentralResourceControl => 0x0b,
        PciCapabilityID::PciStandardHotPlugController => 0x0c,
        PciCapabilityID::BridgeSubsystemVendorDeviceID => 0x0d,
        PciCapabilityID::AgpTargetPciPciBridge => 0x0e,
        PciCapabilityID::SecureDevice => 0x0f,
        PciCapabilityID::PciExpress => 0x10,
        PciCapabilityID::Msix => 0x11,
        PciCapabilityID::SataDataIndexConf => 0x12,
        PciCapabilityID::PciAdvancedFeatures => 0x13,
        PciCapabilityID::PciEnhancedAllocation => 0x14,
    }
}

/// A PCI capability list. Devices can optionally specify capabilities in
/// their configuration space.
pub trait PciCapability {
    /// The capability body bytes, including the two-byte header space.
    /// An implementation overrides this alongside `bytes`; the default
    /// stands for impls outside the verified world.
    open spec fn spec_bytes(&self) -> Seq<u8> {
        Seq::empty()
    }

    /// The capability identifier as a specification-level value.
    open spec fn spec_id(&self) -> PciCapabilityID {
        PciCapabilityID::ListID
    }

    /// The writable-bit masks of the capability's registers.
    open spec fn spec_writable_bits(&self) -> Seq<u32> {
        Seq::empty()
    }

    fn bytes(&self) -> (r: &[u8])
        ensures
            r@ == self.spec_bytes(),
    ;

    fn id(&self) -> (r: PciCapabilityID)
        ensures
            r == self.spec_id(),
    ;

    fn writable_bits(&self) -> (r: Vec<u32>)
        ensures
            r@ == self.spec_writable_bits(),
    ;
}

/// Marker for the values a capability config may hand back from a write.
pub trait PciCapConfigWriteResult {

}

/// A trait for implementing complex PCI capabilities.
pub trait PciCapConfig {
    /// The value a write to the capability hands back to the caller.
    type WriteResult;

    /// The read mask as a specification-level value; its length is the
    /// number of registers the capability spans. An implementation
    /// overrides this alongside `read_mask`; the default stands for impls
    /// outside the verified world.
    open spec fn spec_read_mask(&self) -> Seq<u32> {
        Seq::empty()
    }

    /// The current register values as specification-level values.
    open spec fn spec_read_reg(&self, reg_idx: int) -> u32 {
        0
    }

    /// Reads a 32bit register from the capability. Only the bits set in
    /// the read mask will be used, while the rest of the bits will be
    /// taken from the `PciConfiguration`'s register data.
    /// `reg_idx` - index into the capability
    fn read_reg(&self, reg_idx: usize) -> (r: u32)
        requires
            reg_idx < self.spec_read_mask().len(),
        ensures
            r == self.spec_read_reg(reg_idx as int),
    ;

    /// Returns the read mask used by `read_reg`.
    fn read_mask(&self) -> (r: &'static [u32])
        ensures
            r@ == self.spec_read_mask(),
    ;

    /// Writes data to the capability.
    /// `reg_idx` - index into the capability's registers.
    /// `offset`  - byte offset within the register.
    /// `data`    - the data to write.
    fn write_reg(&mut self, reg_idx: usize, offset: u64, data: &[u8]) -> (r: Option<
        Self::WriteResult,
    >)
        requires
            reg_idx < old(self).spec_read_mask().len(),
        ensures
            final(self).spec_read_mask() == old(self).spec_read_mask(),
    ;

    /// The number of registers the capability spans.
    fn num_regs(&self) -> (r: usize)
        ensures
            r == self.spec_read_mask().len(),
    ;
}

/// See pci_regs.h in kernel
#[derive(Copy, Clone, Debug, PartialEq, Eq, Structural)]
pub enum PciBarRegionType {
    Memory32BitRegion,
    IoRegion,
    Memory64BitRegion,
}

/// The low type bits a BAR region type contributes to its base-address
/// register.
pub open spec fn region_type_value(t: PciBarRegionType) -> u32 {
    match t {
        PciBarRegionType::Memory32BitRegion => 0,
        PciBarRegionType::IoRegion => 0x01,
        PciBarRegionType::Memory64BitRegion => 0x04,
    }
}

#[derive(Copy, Clone, Debug, PartialEq, Eq, Structural)]
pub enum PciBarPrefetchable {
    NotPrefetchable,
    Prefetchable,
}

/// The prefetchable bit a BAR contributes to its base-address register.
pub open spec fn prefetchable_value(p: PciBarPrefetchable) -> u32 {
    match p {
        PciBarPrefetchable::NotPrefetchable => 0,
        PciBarPrefetchable::Prefetchable => 0x08,
    }
}

#[derive(Copy, Clone, Debug, PartialEq, Eq, Structural)]
pub struct PciBarConfiguration {
    pub addr: u64,
    pub size: u64,
    pub bar_idx: PciBarIndex,
    pub region_type: PciBarRegionType,
    pub prefetchable: PciBarPrefetchable,
}

impl PciBarConfiguration {
    pub fn new(
        bar_idx: PciBarIndex,
        size: u64,
        region_type: PciBarRegionType,
        prefetchable: PciBarPrefetchable,
    ) -> (r: PciBarConfiguration)
        ensures
            r == (PciBarConfiguration { bar_idx, addr: 0u64, size, region_type, prefetchable }),
    {
        PciBarConfiguration { bar_idx, addr: 0, size, region_type, prefetchable }
    }

    pub fn bar_index(&self) -> (r: PciBarIndex)
        ensures
            r == self.bar_idx,
    {
        self.bar_idx
    }

    /// The dword register index that holds this BAR.
    pub open spec fn spec_reg_index(&self) -> int {
        if self.bar_idx == ROM_BAR_IDX {
            ROM_BAR_REG as int
        } else {
            BAR0_REG + self.bar_idx
        }
    }

    pub fn reg_index(&self) -> (r: usize)
        requires
            self.bar_idx < NUM_BAR_REGS,
        ensures
            r == self.spec_reg_index(),
    {
        if self.bar_idx == ROM_BAR_IDX {
            ROM_BAR_REG
        } else {
            BAR0_REG + self.bar_idx
        }
    }

    pub fn address(&self) -> (r: u64)
        ensures
            r == self.addr,
    {
        self.addr
    }

    pub fn address_range(&self) -> (r: core::ops::Range<u64>)
        requires
            self.addr + self.size <= u64::MAX,
        ensures
            r.start == self.addr,
            r.end == self.addr + self.size,
    {
        self.addr..self.addr + self.size
    }

    pub fn set_address(self, addr: u64) -> (r: PciBarConfiguration)
        ensures
            r == (PciBarConfiguration { addr, ..self }),
    {
        PciBarConfiguration { addr, ..self }
    }

    pub fn size(&self) -> (r: u64)
        ensures
            r == self.size,
    {
        self.size
    }

    /// Whether this BAR is the expansion ROM BAR.
    pub open spec fn spec_is_expansion_rom(&self) -> bool {
        self.bar_idx == ROM_BAR_IDX
    }

    pub fn is_expansion_rom(&self) -> (r: bool)
        ensures
            r == self.spec_is_expansion_rom(),
    {
        self.bar_idx == ROM_BAR_IDX
    }

    /// Whether this BAR names a memory region.
    pub open spec fn spec_is_memory(&self) -> bool {
        self.region_type == PciBarRegionType::Memory32BitRegion || self.region_type
            == PciBarRegionType::Memory64BitRegion
    }

    pub fn is_memory(&self) -> (r: bool)
        ensures
            r == self.spec_is_memory(),
    {
        matches!(
            self.region_type,
            PciBarRegionType::Memory32BitRegion | PciBarRegionType::Memory64BitRegion
        )
    }

    pub fn is_64bit_memory(&self) -> (r: bool)
        ensures
            r == (self.region_type == PciBarRegionType::Memory64BitRegion),
    {
        matches!(self.region_type, PciBarRegionType::Memory64BitRegion)
    }

    /// Whether this BAR names an I/O region.
    pub open spec fn spec_is_io(&self) -> bool {
        self.region_type == PciBarRegionType::IoRegion
    }

    pub fn is_io(&self) -> (r: bool)
        ensures
            r == self.spec_is_io(),
    {
        matches!(self.region_type, PciBarRegionType::IoRegion)
    }

    pub fn is_prefetchable(&self) -> (r: bool)
        ensures
            r == (self.spec_is_memory() && self.prefetchable == PciBarPrefetchable::Prefetchable),
    {
        self.is_memory() && matches!(self.prefetchable, PciBarPrefetchable::Prefetchable)
    }
}

/// Setup-time configuration errors of BAR and capability management.
#[derive(Debug, PartialEq, Eq, Structural)]
pub enum Error {
    BarAddressInvalid(u64, u64),
    BarAlignmentInvalid(u64, u64),
    BarInUse(PciBarIndex),
    BarInUse64(PciBarIndex),
    BarInvalid(PciBarIndex),
    BarInvalid64(PciBarIndex),
    BarInvalidRomType,
    BarSizeInvalid(u64),
    CapabilityEmpty,
    CapabilityLengthInvalid(usize),
    CapabilitySpaceFull(usize),
}

/// Whether a size is a power of two.
pub open spec fn spec_is_pow2(x: u64) -> bool {
    x != 0 && (x & ((x - 1) as u64)) == 0
}

/// The shift, in bits, of the byte at `offset` within its dword register.
pub open spec fn byte_shift(offset: int) -> u32 {
    (8 * (offset % 4)) as u32
}

/// The `k`-th little-endian byte of a dword.
pub open spec fn u32_byte(x: u32, k: int) -> u8 {
    if k == 0 {
        (x % 256) as u8
    } else if k == 1 {
        ((x / 0x100) % 256) as u8
    } else if k == 2 {
        ((x / 0x10000) % 256) as u8
    } else {
        ((x / 0x1000000) % 256) as u8
    }
}

/// Registers after a byte write at `offset` that ignores the writable
/// masks; a write outside the register file is dropped.
pub open spec fn spec_write_byte_raw(regs: Seq<u32>, offset: int, value: u8) -> Seq<u32> {
    let reg_idx = offset / 4;
    if 0 <= reg_idx < regs.len() {
        let sh = byte_shift(offset);
        regs.update(reg_idx, (regs[reg_idx] & !(0xffu32 << sh)) | ((value as u32) << sh))
    } else {
        regs
    }
}

/// Registers after a byte write at `offset` through the writable masks;
/// a write outside the register file is dropped.
pub open spec fn spec_write_byte_masked(
    regs: Seq<u32>,
    writable: Seq<u32>,
    offset: int,
    value: u8,
) -> Seq<u32> {
    let reg_idx = offset / 4;
    if 0 <= reg_idx < regs.len() {
        let sh = byte_shift(offset);
        let wm = writable[reg_idx];
        let mask = (0xffu32 << sh) & wm;
        let shifted = ((value as u32) << sh) & wm;
        regs.update(reg_idx, (regs[reg_idx] & !mask) | shifted)
    } else {
        regs
    }
}

/// Registers after a 16-bit write at `offset` through the writable masks;
/// an unaligned or out-of-range write is dropped.
pub open spec fn spec_write_word_masked(
    regs: Seq<u32>,
    writable: Seq<u32>,
    offset: int,
    value: u16,
) -> Seq<u32> {
    let reg_idx = offset / 4;
    if (offset % 4 == 0 || offset % 4 == 2) && 0 <= reg_idx < regs.len() {
        let sh: u32 = if offset % 4 == 0 {
            0
        } else {
            16
        };
        let wm = writable[reg_idx];
        let mask = (0xffffu32 << sh) & wm;
        let shifted = ((value as u32) << sh) & wm;
        regs.update(reg_idx, (regs[reg_idx] & !mask) | shifted)
    } else {
        regs
    }
}

/// Registers after a 32-bit write at `offset` through the writable masks;
/// an unaligned or out-of-range write is dropped.
pub open spec fn spec_write_dword_masked(
    regs: Seq<u32>,
    writable: Seq<u32>,
    offset: int,
    value: u32,
) -> Seq<u32> {
    let reg_idx = offset / 4;
    if offset % 4 == 0 && 0 <= reg_idx < regs.len() {
        let wm = writable[reg_idx];
        regs.update(reg_idx, (regs[reg_idx] & !wm) | (value & wm))
    } else {
        regs
    }
}

/// Registers after setting the bits of `mask` in one register to `data`;
/// an out-of-range index is dropped.
pub open spec fn spec_set_reg_regs(regs: Seq<u32>, reg_idx: int, data: u32, mask: u32) -> Seq<
    u32,
> {
    if 0 <= reg_idx < regs.len() {
        regs.update(reg_idx, (regs[reg_idx] & !mask) | (data & mask))
    } else {
        regs
    }
}

/// The guest-visible mirror after a register write: the full dword for
/// most registers, but never the byte that carries the header type and
/// multi-function bit, which a higher-level bus object owns.
pub open spec fn spec_mirror_write(bytes: Seq<u8>, reg_idx: int, value: u32) -> Seq<u8> {
    if 0 <= reg_idx && 4 * reg_idx + 4 <= bytes.len() {
        if reg_idx == HEADER_TYPE_REG {
            bytes.update(4 * reg_idx, u32_byte(value, 0)).update(
                4 * reg_idx + 1,
                u32_byte(value, 1),
            ).update(4 * reg_idx + 3, u32_byte(value, 3))
        } else {
            bytes.update(4 * reg_idx, u32_byte(value, 0)).update(
                4 * reg_idx + 1,
                u32_byte(value, 1),
            ).update(4 * reg_idx + 2, u32_byte(value, 2)).update(4 * reg_idx + 3, u32_byte(value, 3))
        }
    } else {
        bytes
    }
}

/// The in-memory image of the configuration space that backs a
/// guest-visible mirror mapping; the embedder maps it at `base`.
pub struct MmioShadow {
    bytes: Vec<u8>,
    base: usize,
}

impl MmioShadow {
    /// The mirrored bytes as a specification-level value.
    pub closed spec fn spec_bytes(&self) -> Seq<u8> {
        self.bytes@
    }

    /// The base offset of the mirror within the embedder's mapping.
    pub closed spec fn spec_base(&self) -> int {
        self.base as int
    }

    pub fn bytes(&self) -> (r: &Vec<u8>)
        ensures
            r@ == self.spec_bytes(),
    {
        &self.bytes
    }

    pub fn base(&self) -> (r: usize)
        ensures
            r == self.spec_base(),
    {
        self.base
    }
}

/// The position, from the end, of the last capability whose first register
/// index is at or before `reg_idx`.
pub open spec fn spec_find_cap_pos(keys: Seq<usize>, reg_idx: int) -> Option<int>
    decreases keys.len(),
{
    if keys.len() == 0 {
        None
    } else if keys.last() <= reg_idx {
        Some(keys.len() - 1)
    } else {
        spec_find_cap_pos(keys.drop_last(), reg_idx)
    }
}

/// Contains the configuration space of a PCI node.
/// See the PCI configuration-space specification.
/// The configuration space is accessed with DWORD reads and writes from
/// the guest.
///
/// Every register mutation passes through one private choke point,
/// `do_write`, which updates the register array and, when a mirror is
/// installed, its guest-visible bytes in the same step - never the byte
/// that carries the header type and multi-function bit, which the bus
/// above owns. The one deliberate exception is the command-register
/// space-enable bit set by `add_pci_bar`, which patches the register
/// array directly.
pub struct PciConfiguration<C: PciCapConfig> {
    registers: Vec<u32>,
    writable_bits: Vec<u32>,  // writable bits for each register.
    bar_used: Vec<bool>,
    bar_configs: Vec<Option<PciBarConfiguration>>,
    // Contains the byte offset and size of the last capability.
    last_capability: Option<(usize, usize)>,
    cap_keys: Vec<usize>,
    cap_cfgs: Vec<C>,
    mmio_shadow: Option<MmioShadow>,
}

impl<C: PciCapConfig> PciConfiguration<C> {
    /// The register values as a specification-level sequence.
    pub closed spec fn spec_regs(&self) -> Seq<u32> {
        self.registers@
    }

    /// The writable-bit masks as a specification-level sequence.
    pub closed spec fn spec_writable(&self) -> Seq<u32> {
        self.writable_bits@
    }

    /// Which BARs are in use.
    pub closed spec fn spec_bar_used(&self) -> Seq<bool> {
        self.bar_used@
    }

    /// The stored BAR configurations.
    pub closed spec fn spec_bar_configs(&self) -> Seq<Option<PciBarConfiguration>> {
        self.bar_configs@
    }

    /// The byte offset and size of the last capability added.
    pub closed spec fn spec_last_capability(&self) -> Option<(usize, usize)> {
        self.last_capability
    }

    /// The first register indices of the installed capability configs.
    pub closed spec fn spec_cap_keys(&self) -> Seq<usize> {
        self.cap_keys@
    }

    /// The installed capability configs.
    pub closed spec fn spec_cap_cfgs(&self) -> Seq<C> {
        self.cap_cfgs@
    }

    /// The guest-visible mirror, when one has been installed.
    pub closed spec fn spec_mirror(&self) -> Option<(Seq<u8>, int)> {
        match self.mmio_shadow {
            Some(s) => Some((s.spec_bytes(), s.spec_base())),
            None => None,
        }
    }

    /// Structural well-formedness: the fixed array sizes, the sorted
    /// capability index list and its agreement with the recorded last
    /// capability, and the mirror size.
    pub closed spec fn wf(&self) -> bool {
        &&& self.registers@.len() == NUM_CONFIGURATION_REGISTERS
        &&& self.writable_bits@.len() == NUM_CONFIGURATION_REGISTERS
        &&& self.bar_used@.len() == NUM_BAR_REGS
        &&& self.bar_configs@.len() == NUM_BAR_REGS
        &&& self.cap_keys@.len() == self.cap_cfgs@.len()
        &&& forall|i: int, j: int|
            0 <= i < j < self.cap_keys@.len() ==> self.cap_keys@[i] < self.cap_keys@[j]
        &&& forall|i: int|
            0 <= i < self.cap_keys@.len() ==> (#[trigger] self.cap_keys@[i])
                < NUM_CONFIGURATION_REGISTERS
        &&& match self.mmio_shadow {
            Some(s) => s.spec_bytes().len() == 256,
            None => true,
        }
    }

    /// The value a read of `reg_idx` returns: the static register (all
    /// ones outside the register file), with the bits selected by a
    /// covering capability's read mask taken from that capability.
    pub open spec fn spec_read_reg(&self, reg_idx: int) -> u32 {
        let base = if 0 <= reg_idx < self.spec_regs().len() {
            self.spec_regs()[reg_idx]
        } else {
            0xffff_ffffu32
        };
        match spec_find_cap_pos(self.spec_cap_keys(), reg_idx) {
            Some(pos) => {
                let idx = self.spec_cap_keys()[pos];
                let cap = self.spec_cap_cfgs()[pos];
                let cap_idx = reg_idx - idx;
                if cap_idx < cap.spec_read_mask().len() {
                    let mask = cap.spec_read_mask()[cap_idx];
                    (base & !mask) | (cap.spec_read_reg(cap_idx) & mask)
                } else {
                    base
                }
            },
            None => base,
        }
    }

    /// Reads a 32bit register from `reg_idx` in the register map.
    pub fn read_reg(&self, reg_idx: usize) -> (r: u32)
        requires
            self.wf(),
        ensures
            r == self.spec_read_reg(reg_idx as int),
    {
        let mut data: u32 = if reg_idx < self.registers.len() {
            self.registers[reg_idx]
        } else {
            0xffff_ffff
        };
        let ghost base = data;
        proof {
            assert(self.spec_cap_keys().take(self.spec_cap_keys().len() as int)
                =~= self.spec_cap_keys());
        }
        let mut j: usize = self.cap_keys.len();
        while j > 0
            invariant
                self.wf(),
                j <= self.cap_keys@.len(),
                data == base,
                base == if 0 <= reg_idx < self.spec_regs().len() {
                    self.spec_regs()[reg_idx as int]
                } else {
                    0xffff_ffffu32
                },
                spec_find_cap_pos(self.spec_cap_keys(), reg_idx as int) == spec_find_cap_pos(
                    self.spec_cap_keys().take(j as int),
                    reg_idx as int,
                ),
            decreases j,
        {
            proof {
                assert(self.spec_cap_keys().take(j as int).drop_last() =~= self.spec_cap_keys().take(
                    j - 1,
                ));
            }
            j = j - 1;
            if self.cap_keys[j] <= reg_idx {
                let idx = self.cap_keys[j];
                let cap_idx = reg_idx - idx;
                let cap = &self.cap_cfgs[j];
                if cap_idx < cap.num_regs() {
                    let mask = cap.read_mask()[cap_idx];
                    data = (data & !mask) | (cap.read_reg(cap_idx) & mask);
                }
                proof {
                    assert(self.spec_cap_keys().take(j + 1).last() == self.spec_cap_keys()[j as int]);
                    assert(spec_find_cap_pos(self.spec_cap_keys().take(j + 1), reg_idx as int)
                        == Some(j as int));
                }
                return data;
            }
        }
        proof {
            assert(self.spec_cap_keys().take(0) =~= Seq::<usize>::empty());
        }
        data
    }

    fn do_write(&mut self, reg_idx: usize, value: u32)
        requires
            old(self).wf(),
            reg_idx < NUM_CONFIGURATION_REGISTERS,
        ensures
            final(self).wf(),
            final(self).spec_regs() == old(self).spec_regs().update(reg_idx as int, value),
            final(self).spec_writable() == old(self).spec_writable(),
            final(self).spec_bar_used() == old(self).spec_bar_used(),
            final(self).spec_bar_configs() == old(self).spec_bar_configs(),
            final(self).spec_last_capability() == old(self).spec_last_capability(),
            final(self).spec_cap_keys() == old(self).spec_cap_keys(),
            final(self).spec_cap_cfgs() == old(self).spec_cap_cfgs(),
            final(self).spec_mirror() == match old(self).spec_mirror() {
                Some((bytes, base)) => Some(
                    (spec_mirror_write(bytes, reg_idx as int, value), base),
                ),
                None => None::<(Seq<u8>, int)>,
            },
    {
        self.registers.set(reg_idx, value);
        let reg_offset = reg_idx * 4;
        match &mut self.mmio_shadow {
            Some(shadow) => {
                if reg_idx == HEADER_TYPE_REG {
                    // Skip writing the header type byte: that byte carries
                    // the multi-function bit managed by the bus above this
                    // register file.
                    shadow.bytes.set(reg_offset, (value % 256) as u8);
                    shadow.bytes.set(reg_offset + 1, ((value / 0x100) % 256) as u8);
                    shadow.bytes.set(reg_offset + 3, ((value / 0x1000000) % 256) as u8);
                } else {
                    shadow.bytes.set(reg_offset, (value % 256) as u8);
                    shadow.bytes.set(reg_offset + 1, ((value / 0x100) % 256) as u8);
                    shadow.bytes.set(reg_offset + 2, ((value / 0x10000) % 256) as u8);
                    shadow.bytes.set(reg_offset + 3, ((value / 0x1000000) % 256) as u8);
                }
            },
            None => {},
        }
    }

    /// Writes a byte to `offset`, optionally enforcing read-only bits.
    fn write_byte_internal(&mut self, offset: usize, value: u8, apply_writable_mask: bool)
        requires
            old(self).wf(),
        ensures
            final(self).wf(),
            final(self).spec_regs() == if apply_writable_mask {
                spec_write_byte_masked(
                    old(self).spec_regs(),
                    old(self).spec_writable(),
                    offset as int,
                    value,
                )
            } else {
                spec_write_byte_raw(old(self).spec_regs(), offset as int, value)
            },
            final(self).spec_writable() == old(self).spec_writable(),
            final(self).spec_bar_used() == old(self).spec_bar_used(),
            final(self).spec_bar_configs() == old(self).spec_bar_configs(),
            final(self).spec_last_capability() == old(self).spec_last_capability(),
            final(self).spec_cap_keys() == old(self).spec_cap_keys(),
            final(self).spec_cap_cfgs() == old(self).spec_cap_cfgs(),
            final(self).spec_mirror() is Some <==> old(self).spec_mirror() is Some,
            final(self).spec_mirror() is Some ==> final(self).spec_mirror()->Some_0.1 == old(self).spec_mirror()->Some_0.1,
    {
        let shift: u32 = ((offset % 4) * 8) as u32;
        let reg_idx = offset / 4;

        if reg_idx < NUM_CONFIGURATION_REGISTERS {
            let writable_mask: u32 = if apply_writable_mask {
                self.writable_bits[reg_idx]
            } else {
                0xffff_ffff
            };
            let old_value = self.registers[reg_idx];
            let mask = (0xffu32 << shift) & writable_mask;
            let shifted_value = ((value as u32) << shift) & writable_mask;
            let new_value = old_value & !mask | shifted_value;
            self.do_write(reg_idx, new_value);
            proof {
                assert((0xffu32 << shift) & 0xffff_ffffu32 == (0xffu32 << shift)) by (bit_vector);
                assert(((value as u32) << shift) & 0xffff_ffffu32 == ((value as u32) << shift))
                    by (bit_vector);
            }
        }
    }

    /// Writes a byte to `offset`.
    fn write_byte(&mut self, offset: usize, value: u8)
        requires
            old(self).wf(),
        ensures
            final(self).wf(),
            final(self).spec_regs() == spec_write_byte_masked(
                old(self).spec_regs(),
                old(self).spec_writable(),
                offset as int,
                value,
            ),
            final(self).spec_writable() == old(self).spec_writable(),
            final(self).spec_bar_used() == old(self).spec_bar_used(),
            final(self).spec_bar_configs() == old(self).spec_bar_configs(),
            final(self).spec_last_capability() == old(self).spec_last_capability(),
            final(self).spec_cap_keys() == old(self).spec_cap_keys(),
            final(self).spec_cap_cfgs() == old(self).spec_cap_cfgs(),
            final(self).spec_mirror() is Some <==> old(self).spec_mirror() is Some,
            final(self).spec_mirror() is Some ==> final(self).spec_mirror()->Some_0.1 == old(self).spec_mirror()->Some_0.1,
    {
        self.write_byte_internal(offset, value, true);
    }

    /// Writes a 16bit word to `offset`. `offset` must be 16bit aligned.
    fn write_word(&mut self, offset: usize, value: u16)
        requires
            old(self).wf(),
        ensures
            final(self).wf(),
            final(self).spec_regs() == spec_write_word_masked(
                old(self).spec_regs(),
                old(self).spec_writable(),
                offset as int,
                value,
            ),
            final(self).spec_writable() == old(self).spec_writable(),
            final(self).spec_bar_used() == old(self).spec_bar_used(),
            final(self).spec_bar_configs() == old(self).spec_bar_configs(),
            final(self).spec_last_capability() == old(self).spec_last_capability(),
            final(self).spec_cap_keys() == old(self).spec_cap_keys(),
            final(self).spec_cap_cfgs() == old(self).spec_cap_cfgs(),
            final(self).spec_mirror() is Some <==> old(self).spec_mirror() is Some,
            final(self).spec_mirror() is Some ==> final(self).spec_mirror()->Some_0.1 == old(self).spec_mirror()->Some_0.1,
    {
        let shift: u32 = match offset % 4 {
            0 => 0,
            2 => 16,
            _ => {
                return ;
            },
        };
        let reg_idx = offset / 4;

        if reg_idx < NUM_CONFIGURATION_REGISTERS {
            let old_value = self.registers[reg_idx];
            let writable_mask = self.writable_bits[reg_idx];
            let mask = (0xffffu32 << shift) & writable_mask;
            let shifted_value = ((value as u32) << shift) & writable_mask;
            let new_value = old_value & !mask | shifted_value;
            self.do_write(reg_idx, new_value);
        }
    }

    /// Writes a 32bit dword to `offset`. `offset` must be 32bit aligned.
    fn write_dword(&mut self, offset: usize, value: u32)
        requires
            old(self).wf(),
        ensures
            final(self).wf(),
            final(self).spec_regs() == spec_write_dword_masked(
                old(self).spec_regs(),
                old(self).spec_writable(),
                offset as int,
                value,
            ),
            final(self).spec_writable() == old(self).spec_writable(),
            final(self).spec_bar_used() == old(self).spec_bar_used(),
            final(self).spec_bar_configs() == old(self).spec_bar_configs(),
            final(self).spec_last_capability() == old(self).spec_last_capability(),
            final(self).spec_cap_keys() == old(self).spec_cap_keys(),
            final(self).spec_cap_cfgs() == old(self).spec_cap_cfgs(),
            final(self).spec_mirror() is Some <==> old(self).spec_mirror() is Some,
            final(self).spec_mirror() is Some ==> final(self).spec_mirror()->Some_0.1 == old(self).spec_mirror()->Some_0.1,
    {
        if offset % 4 != 0 {
            return ;
        }
        let reg_idx = offset / 4;
        if reg_idx < NUM_CONFIGURATION_REGISTERS {
            let old_value = self.registers[reg_idx];
            let writable = self.writable_bits[reg_idx];
            let new_value = (old_value & !writable) | (value & writable);
            self.do_write(reg_idx, new_value);
        }
    }

    /// Sets the value of a PciConfiguration register. This should be used
    /// when device-internal events require changing the configuration
    /// space - as such, the writable bits masks do not apply.
    /// `reg_idx` - index into the register file.
    /// `data`    - The data to write.
    /// `mask`    - The mask of which bits to modify.
    pub fn set_reg(&mut self, reg_idx: usize, data: u32, mask: u32)
        requires
            old(self).wf(),
        ensures
            final(self).wf(),
            final(self).spec_regs() == spec_set_reg_regs(
                old(self).spec_regs(),
                reg_idx as int,
                data,
                mask,
            ),
            final(self).spec_writable() == old(self).spec_writable(),
            final(self).spec_bar_used() == old(self).spec_bar_used(),
            final(self).spec_bar_configs() == old(self).spec_bar_configs(),
            final(self).spec_last_capability() == old(self).spec_last_capability(),
            final(self).spec_cap_keys() == old(self).spec_cap_keys(),
            final(self).spec_cap_cfgs() == old(self).spec_cap_cfgs(),
            final(self).spec_mirror() == (match old(self).spec_mirror() {
                Some((bytes, base)) => Some(
                    (
                        if reg_idx < NUM_CONFIGURATION_REGISTERS {
                            spec_mirror_write(
                                bytes,
                                reg_idx as int,
                                spec_set_reg_regs(
                                    old(self).spec_regs(),
                                    reg_idx as int,
                                    data,
                                    mask,
                                )[reg_idx as int],
                            )
                        } else {
                            bytes
                        },
                        base,
                    ),
                ),
                None => None::<(Seq<u8>, int)>,
            }),
    {
        if reg_idx >= NUM_CONFIGURATION_REGISTERS {
            return ;
        }
        let new_val = (self.registers[reg_idx] & !mask) | (data & mask);
        self.do_write(reg_idx, new_val);
    }
}

/// The initial register values of a function with the given identity.
pub open spec fn spec_initial_registers(
    vendor_id: u16,
    device_id: u16,
    class_code: PciClassCode,
    sub: u8,
    pi: u8,
    revision_id: u8,
    subsystem_vendor_id: u16,
    subsystem_id: u16,
    header_type: PciHeaderType,
) -> Seq<u32> {
    Seq::new(
        NUM_CONFIGURATION_REGISTERS as nat,
        |i: int|
            if i == 0 {
                ((device_id as u32) << 16) | (vendor_id as u32)
            } else if i == 2 {
                ((class_code_value(class_code) as u32) << 24) | ((sub as u32) << 16) | ((
                pi as u32) << 8) | (revision_id as u32)
            } else {
                match header_type {
                    PciHeaderType::Device => {
                        if i == 11 {
                            ((subsystem_id as u32) << 16) | (subsystem_vendor_id as u32)
                        } else {
                            0u32
                        }
                    },
                    PciHeaderType::Bridge => {
                        if i == 3 {
                            0x0001_0000u32
                        } else if i == 7 {
                            0x0000_00f0u32
                        } else if i == 8 {
                            0x0000_fff0u32
                        } else if i == 9 {
                            0x0001_fff1u32
                        } else {
                            0u32
                        }
                    },
                }
            },
    )
}

/// The initial writable-bit masks of a function of the given header type.
pub open spec fn spec_initial_writable(header_type: PciHeaderType) -> Seq<u32> {
    Seq::new(
        NUM_CONFIGURATION_REGISTERS as nat,
        |i: int|
            if i == 1 {
                0x0000_ffffu32  // Status (r/o), command (r/w)
            } else if i == 3 {
                0x0000_00ffu32  // Cacheline size (r/w)
            } else {
                match header_type {
                    PciHeaderType::Device => {
                        if i == 15 {
                            0x0000_00ffu32  // Interrupt line (r/w)
                        } else {
                            0u32
                        }
                    },
                    PciHeaderType::Bridge => {
                        if i == 6 {
                            0x00ff_ffffu32
                        } else if i == 7 {
                            0xf900_0000u32
                        } else if i == 8 {
                            0xfff0_fff0u32
                        } else if i == 9 {
                            0xfff0_fff0u32
                        } else if i == 10 {
                            0xffff_ffffu32
                        } else if i == 11 {
                            0xffff_ffffu32
                        } else if i == 15 {
                            0xffff_00ffu32
                        } else {
                            0u32
                        }
                    },
                }
            },
    )
}

/// The guest-facing part of a register write before any capability config
/// reacts: a 1/2/4-byte write routed through the writable masks; any other
/// length is dropped.
pub open spec fn spec_guest_write(
    regs: Seq<u32>,
    writable: Seq<u32>,
    reg_idx: int,
    offset: int,
    data: Seq<u8>,
) -> Seq<u32> {
    if 0 <= reg_idx < NUM_CONFIGURATION_REGISTERS && 0 <= offset < 0x1_0000 {
        let reg_offset = reg_idx * 4 + offset;
        if data.len() == 1 {
            spec_write_byte_masked(regs, writable, reg_offset, data[0])
        } else if data.len() == 2 {
            spec_write_word_masked(
                regs,
                writable,
                reg_offset,
                (data[0] as u16) | ((data[1] as u16) << 8),
            )
        } else if data.len() == 4 {
            spec_write_dword_masked(
                regs,
                writable,
                reg_offset,
                (data[0] as u32) | ((data[1] as u32) << 8) | ((data[2] as u32) << 16) | ((
                data[3] as u32) << 24),
            )
        } else {
            regs
        }
    } else {
        regs
    }
}

/// Registers after writing `data[start..]` byte by byte at `base + start`,
/// ignoring the writable masks.
pub open spec fn spec_write_bytes_raw(
    regs: Seq<u32>,
    base: int,
    data: Seq<u8>,
    start: int,
) -> Seq<u32>
    decreases data.len() - start,
{
    if start < 0 || start >= data.len() {
        regs
    } else {
        spec_write_bytes_raw(spec_write_byte_raw(regs, base + start, data[start]), base, data, start + 1)
    }
}

/// Writable masks after copying a capability's masks over its register
/// span.
pub open spec fn spec_copy_writable(writable: Seq<u32>, reg_idx: int, wb: Seq<u32>) -> Seq<u32> {
    Seq::new(
        writable.len(),
        |k: int|
            if reg_idx <= k < reg_idx + wb.len() {
                wb[k - reg_idx]
            } else {
                writable[k]
            },
    )
}

/// The dword-aligned config-space offset where the capability after one at
/// `offset` with `len` bytes begins.
pub open spec fn spec_next_dword(offset: int, len: int) -> int {
    ((offset + len + 3) / 4) * 4
}

fn clone_vec_copy<T: Copy>(v: &Vec<T>) -> (r: Vec<T>)
    ensures
        r@ == v@,
{
    let mut r: Vec<T> = Vec::new();
    let mut i: usize = 0;
    while i < v.len()
        invariant
            i <= v@.len(),
            r@ == v@.take(i as int),
        decreases v@.len() - i,
    {
        r.push(v[i]);
        proof {
            assert(r@ =~= v@.take(i + 1));
        }
        i = i + 1;
    }
    proof {
        assert(v@.take(v@.len() as int) =~= v@);
    }
    r
}

/// The plain serializable image of a configuration space.
#[derive(Clone, Debug, PartialEq)]
pub struct PciConfigurationSerialized {
    pub registers: Vec<u32>,
    pub writable_bits: Vec<u32>,
    pub bar_used: Vec<bool>,
    pub bar_configs: Vec<Option<PciBarConfiguration>>,
    pub last_capability: Option<(usize, usize)>,
}

/// Errors restoring a snapshot whose shape does not match this register
/// file.
#[derive(Debug, PartialEq, Eq, Structural)]
pub enum RestoreError {
    InvalidRegisters,
    InvalidWritableBits,
    InvalidBarUsed,
    InvalidBarConfigs,
}

impl<C: PciCapConfig> PciConfiguration<C> {
    pub fn new(
        vendor_id: u16,
        device_id: u16,
        class_code: PciClassCode,
        subclass: &dyn PciSubclass,
        programming_interface: Option<&dyn PciProgrammingInterface>,
        header_type: PciHeaderType,
        subsystem_vendor_id: u16,
        subsystem_id: u16,
        revision_id: u8,
    ) -> (r: PciConfiguration<C>)
        ensures
            r.wf(),
            r.spec_regs() == spec_initial_registers(
                vendor_id,
                device_id,
                class_code,
                subclass.reg_value(),
                match programming_interface {
                    Some(p) => p.reg_value(),
                    None => 0u8,
                },
                revision_id,
                subsystem_vendor_id,
                subsystem_id,
                header_type,
            ),
            r.spec_writable() == spec_initial_writable(header_type),
            r.spec_bar_used() == Seq::new(NUM_BAR_REGS as nat, |i: int| false),
            r.spec_bar_configs() == Seq::new(
                NUM_BAR_REGS as nat,
                |i: int| None::<PciBarConfiguration>,
            ),
            r.spec_last_capability() == None::<(usize, usize)>,
            r.spec_cap_keys() == Seq::<usize>::empty(),
            r.spec_cap_cfgs() == Seq::<C>::empty(),
            r.spec_mirror() == None::<(Seq<u8>, int)>,
    {
        let mut registers: Vec<u32> = vec![0u32; NUM_CONFIGURATION_REGISTERS];
        let mut writable_bits: Vec<u32> = vec![0u32; NUM_CONFIGURATION_REGISTERS];
        registers.set(0, ((device_id as u32) << 16) | (vendor_id as u32));
        // Status (r/o), command (r/w)
        writable_bits.set(1, 0x0000_ffff);
        let pi: u8 = if let Some(pi) = programming_interface {
            pi.get_register_value()
        } else {
            0
        };
        registers.set(
            2,
            ((class_code.get_register_value() as u32) << 24) | ((
            subclass.get_register_value() as u32) << 16) | ((pi as u32) << 8) | (
            revision_id as u32),
        );
        // Cacheline size (r/w)
        writable_bits.set(3, 0x0000_00ff);
        match header_type {
            PciHeaderType::Device => {
                registers.set(3, 0x0000_0000);  // Header type 0 (device)
                writable_bits.set(15, 0x0000_00ff);  // Interrupt line (r/w)
                registers.set(11, ((subsystem_id as u32) << 16) | (subsystem_vendor_id as u32));
            },
            PciHeaderType::Bridge => {
                registers.set(3, 0x0001_0000);  // Header type 1 (bridge)
                // Primary/secondary/subordinate bus number, secondary
                // latency timer
                writable_bits.set(6, 0x00ff_ffff);
                // IO base > IO Limit, no IO address on secondary side at
                // initialization
                registers.set(7, 0x0000_00f0);
                writable_bits.set(7, 0xf900_0000);  // IO base and limit, secondary status
                // mem base > mem Limit, no MMIO address on secondary side
                // at initialization
                registers.set(8, 0x0000_fff0);
                writable_bits.set(8, 0xfff0_fff0);  // Memory base and limit
                // pmem base > pmem Limit, no prefetch MMIO address on
                // secondary side at initialization
                registers.set(9, 0x0001_fff1);
                writable_bits.set(9, 0xfff0_fff0);  // Prefetchable base and limit
                writable_bits.set(10, 0xffff_ffff);  // Prefetchable base upper 32 bits
                writable_bits.set(11, 0xffff_ffff);  // Prefetchable limit upper 32 bits
                writable_bits.set(15, 0xffff_00ff);  // Bridge control (r/w), interrupt line (r/w)
            },
        }

        let mut bar_used: Vec<bool> = vec![false; NUM_BAR_REGS];
        let mut bar_configs: Vec<Option<PciBarConfiguration>> = vec![None; NUM_BAR_REGS];

        let r = PciConfiguration {
            registers,
            writable_bits,
            bar_used,
            bar_configs,
            last_capability: None,
            cap_keys: Vec::new(),
            cap_cfgs: Vec::new(),
            mmio_shadow: None,
        };
        proof {
            assert(r.spec_regs() =~= spec_initial_registers(
                vendor_id,
                device_id,
                class_code,
                subclass.reg_value(),
                match programming_interface {
                    Some(p) => p.reg_value(),
                    None => 0u8,
                },
                revision_id,
                subsystem_vendor_id,
                subsystem_id,
                header_type,
            ));
            assert(r.spec_writable() =~= spec_initial_writable(header_type));
            assert(r.spec_bar_used() =~= Seq::new(NUM_BAR_REGS as nat, |i: int| false));
            assert(r.spec_bar_configs() =~= Seq::new(
                NUM_BAR_REGS as nat,
                |i: int| None::<PciBarConfiguration>,
            ));
        }
        r
    }

    /// Writes data to the register file.
    /// `reg_idx` - index into the register file.
    /// `offset`  - the register file is in units of DWord; offset gives
    ///             the byte offset within the DWord.
    /// `data`    - The data to write.
    pub fn write_reg(&mut self, reg_idx: usize, offset: u64, data: &[u8]) -> (r: Option<
        C::WriteResult,
    >)
        requires
            old(self).wf(),
        ensures
            final(self).wf(),
            final(self).spec_writable() == old(self).spec_writable(),
            final(self).spec_bar_used() == old(self).spec_bar_used(),
            final(self).spec_bar_configs() == old(self).spec_bar_configs(),
            final(self).spec_last_capability() == old(self).spec_last_capability(),
            final(self).spec_cap_keys() == old(self).spec_cap_keys(),
            old(self).spec_mirror() is Some <==> final(self).spec_mirror() is Some,
            final(self).spec_mirror() is Some ==> final(self).spec_mirror()->Some_0.1 == old(self).spec_mirror()->Some_0.1 && final(self).spec_mirror()->Some_0.0.len() == 256,
            ({
                let mid = spec_guest_write(
                    old(self).spec_regs(),
                    old(self).spec_writable(),
                    reg_idx as int,
                    offset as int,
                    data@,
                );
                match spec_find_cap_pos(old(self).spec_cap_keys(), reg_idx as int) {
                    Some(pos) => {
                        let idx = old(self).spec_cap_keys()[pos];
                        let cap_idx = reg_idx - idx;
                        if cap_idx < old(self).spec_cap_cfgs()[pos].spec_read_mask().len() {
                            &&& final(self).spec_cap_cfgs() == old(self).spec_cap_cfgs().update(
                                pos,
                                final(self).spec_cap_cfgs()[pos],
                            )
                            &&& final(self).spec_cap_cfgs()[pos].spec_read_mask() == old(self).spec_cap_cfgs()[pos].spec_read_mask()
                            &&& final(self).spec_regs() == spec_set_reg_regs(
                                mid,
                                reg_idx as int,
                                final(self).spec_cap_cfgs()[pos].spec_read_reg(cap_idx),
                                old(self).spec_cap_cfgs()[pos].spec_read_mask()[cap_idx],
                            )
                        } else {
                            final(self).spec_regs() == mid && final(self).spec_cap_cfgs() == old(self).spec_cap_cfgs()
                        }
                    },
                    None => final(self).spec_regs() == mid && final(self).spec_cap_cfgs() == old(self).spec_cap_cfgs(),
                }
            }),
    {
        if reg_idx < NUM_CONFIGURATION_REGISTERS && offset < 0x1_0000 {
            let reg_offset = reg_idx * 4 + (offset as usize);
            if data.len() == 1 {
                self.write_byte(reg_offset, data[0]);
            } else if data.len() == 2 {
                self.write_word(reg_offset, (data[0] as u16) | ((data[1] as u16) << 8));
            } else if data.len() == 4 {
                self.write_dword(
                    reg_offset,
                    (data[0] as u32) | ((data[1] as u32) << 8) | ((data[2] as u32) << 16) | ((
                    data[3] as u32) << 24),
                );
            }
        }
        proof {
            assert(self.spec_cap_keys().take(self.spec_cap_keys().len() as int)
                =~= self.spec_cap_keys());
        }
        let mut j: usize = self.cap_keys.len();
        while j > 0
            invariant
                self.wf(),
                j <= self.cap_keys@.len(),
                self.spec_regs() == spec_guest_write(
                    old(self).spec_regs(),
                    old(self).spec_writable(),
                    reg_idx as int,
                    offset as int,
                    data@,
                ),
                self.spec_writable() == old(self).spec_writable(),
                self.spec_bar_used() == old(self).spec_bar_used(),
                self.spec_bar_configs() == old(self).spec_bar_configs(),
                self.spec_last_capability() == old(self).spec_last_capability(),
                self.spec_cap_keys() == old(self).spec_cap_keys(),
                self.spec_cap_cfgs() == old(self).spec_cap_cfgs(),
                self.spec_mirror() is Some <==> old(self).spec_mirror() is Some,
                self.spec_mirror() is Some ==> self.spec_mirror()->Some_0.1 == old(self).spec_mirror()->Some_0.1,
                spec_find_cap_pos(self.spec_cap_keys(), reg_idx as int) == spec_find_cap_pos(
                    self.spec_cap_keys().take(j as int),
                    reg_idx as int,
                ),
            decreases j,
        {
            proof {
                assert(self.spec_cap_keys().take(j as int).drop_last() =~= self.spec_cap_keys().take(
                    j - 1,
                ));
            }
            j = j - 1;
            if self.cap_keys[j] <= reg_idx {
                proof {
                    assert(self.spec_cap_keys().take(j + 1).last() == self.spec_cap_keys()[j as int]);
                    assert(spec_find_cap_pos(self.spec_cap_keys().take(j + 1), reg_idx as int)
                        == Some(j as int));
                }
                let idx = self.cap_keys[j];
                let cap_idx = reg_idx - idx;
                if cap_idx < self.cap_cfgs[j].num_regs() {
                    let cap = &mut self.cap_cfgs[j];
                    let ret = cap.write_reg(cap_idx, offset, data);
                    let new_val = cap.read_reg(cap_idx);
                    let mask = cap.read_mask()[cap_idx];
                    self.set_reg(reg_idx, new_val, mask);
                    return ret;
                }
                return None;
            }
        }
        None
    }

    /// Adds a region specified by `config`. Configures the specified
    /// BAR(s) to report this region and size to the guest kernel. Enforces
    /// a few constraints (i.e., region size must be a power of two, the
    /// register must not already be used).
    pub fn add_pci_bar(&mut self, config: PciBarConfiguration) -> (r: Result<
        PciBarIndex,
        Error,
    >)
        requires
            old(self).wf(),
        ensures
            final(self).wf(),
            final(self).spec_last_capability() == old(self).spec_last_capability(),
            final(self).spec_cap_keys() == old(self).spec_cap_keys(),
            final(self).spec_cap_cfgs() == old(self).spec_cap_cfgs(),
            match old(self).spec_bar_error(config) {
                Some(e) => r == Err::<PciBarIndex, Error>(e) && *final(self) == *old(self),
                None => r == Ok::<PciBarIndex, Error>(config.bar_idx) && ({
                    let reg_idx = config.spec_reg_index();
                    let is64 = config.region_type == PciBarRegionType::Memory64BitRegion;
                    let mem = config.spec_is_memory();
                    let regs1 = if is64 {
                        old(self).spec_regs().update(reg_idx + 1, ((config.addr >> 32) as u32))
                    } else {
                        old(self).spec_regs()
                    };
                    let cmd_mask: u32 = if mem {
                        COMMAND_REG_MEMORY_SPACE_MASK
                    } else {
                        COMMAND_REG_IO_SPACE_MASK
                    };
                    let regs2 = regs1.update(
                        COMMAND_REG as int,
                        regs1[COMMAND_REG as int] | cmd_mask,
                    );
                    let addr_mask: u32 = if mem {
                        BAR_MEM_ADDR_MASK
                    } else {
                        BAR_IO_ADDR_MASK
                    };
                    let lower_bits: u32 = if mem {
                        prefetchable_value(config.prefetchable) | region_type_value(
                            config.region_type,
                        )
                    } else {
                        region_type_value(config.region_type)
                    };
                    let low_writable: u32 = if config.spec_is_expansion_rom() {
                        ((!((config.size - 1) as u64)) as u32) | 1u32
                    } else {
                        (!((config.size - 1) as u64)) as u32
                    };
                    let wr1 = if is64 {
                        old(self).spec_writable().update(
                            reg_idx + 1,
                            ((!(((config.size - 1) as u64) >> 32)) as u32),
                        )
                    } else {
                        old(self).spec_writable()
                    };
                    let used1 = if is64 {
                        old(self).spec_bar_used().update(config.bar_idx + 1, true)
                    } else {
                        old(self).spec_bar_used()
                    };
                    &&& final(self).spec_regs() == regs2.update(
                        reg_idx,
                        ((config.addr as u32) & addr_mask) | lower_bits,
                    )
                    &&& final(self).spec_writable() == wr1.update(reg_idx, low_writable)
                    &&& final(self).spec_bar_used() == used1.update(config.bar_idx as int, true)
                    &&& final(self).spec_bar_configs() == old(self).spec_bar_configs().update(
                        config.bar_idx as int,
                        Some(config),
                    )
                }),
            },
    {
        if config.bar_idx >= NUM_BAR_REGS {
            return Err(Error::BarInvalid(config.bar_idx));
        }

        if self.bar_used[config.bar_idx] {
            return Err(Error::BarInUse(config.bar_idx));
        }

        if config.size == 0 || (config.size & (config.size - 1)) != 0 {
            return Err(Error::BarSizeInvalid(config.size));
        }

        if config.is_expansion_rom() && !matches!(
            config.region_type,
            PciBarRegionType::Memory32BitRegion,
        ) {
            return Err(Error::BarInvalidRomType);
        }

        let min_size: u64 = if config.is_expansion_rom() {
            BAR_ROM_MIN_SIZE
        } else if matches!(config.region_type, PciBarRegionType::IoRegion) {
            BAR_IO_MIN_SIZE
        } else {
            BAR_MEM_MIN_SIZE
        };

        if config.size < min_size {
            return Err(Error::BarSizeInvalid(config.size));
        }

        if config.addr % config.size != 0 {
            return Err(Error::BarAlignmentInvalid(config.addr, config.size));
        }

        let reg_idx = config.reg_index();
        let end_addr = match config.addr.checked_add(config.size) {
            Some(e) => e,
            None => {
                return Err(Error::BarAddressInvalid(config.addr, config.size));
            },
        };
        match config.region_type {
            PciBarRegionType::Memory32BitRegion | PciBarRegionType::IoRegion => {
                if end_addr > 0xffff_ffffu64 {
                    return Err(Error::BarAddressInvalid(config.addr, config.size));
                }
            },
            PciBarRegionType::Memory64BitRegion => {
                // The expansion ROM BAR cannot be used for part of a
                // 64-bit BAR.
                if config.bar_idx + 1 >= ROM_BAR_IDX {
                    return Err(Error::BarInvalid64(config.bar_idx));
                }

                if self.bar_used[config.bar_idx + 1] {
                    return Err(Error::BarInUse64(config.bar_idx));
                }

                self.do_write(reg_idx + 1, (config.addr >> 32) as u32);
                self.writable_bits.set(reg_idx + 1, (!((config.size - 1) >> 32)) as u32);
                self.bar_used.set(config.bar_idx + 1, true);
            },
        }

        let mem = config.is_memory();
        let cmd_mask: u32 = if mem {
            COMMAND_REG_MEMORY_SPACE_MASK
        } else {
            COMMAND_REG_IO_SPACE_MASK
        };
        let cmd = self.registers[COMMAND_REG];
        self.registers.set(COMMAND_REG, cmd | cmd_mask);
        let addr_mask: u32 = if mem {
            BAR_MEM_ADDR_MASK
        } else {
            BAR_IO_ADDR_MASK
        };
        let lower_bits: u32 = if mem {
            (match config.prefetchable {
                PciBarPrefetchable::NotPrefetchable => 0u32,
                PciBarPrefetchable::Prefetchable => 0x08u32,
            }) | (match config.region_type {
                PciBarRegionType::Memory32BitRegion => 0u32,
                PciBarRegionType::IoRegion => 0x01u32,
                PciBarRegionType::Memory64BitRegion => 0x04u32,
            })
        } else {
            match config.region_type {
                PciBarRegionType::Memory32BitRegion => 0u32,
                PciBarRegionType::IoRegion => 0x01u32,
                PciBarRegionType::Memory64BitRegion => 0x04u32,
            }
        };

        self.do_write(reg_idx, ((config.addr as u32) & addr_mask) | lower_bits);
        let low_writable: u32 = if config.is_expansion_rom() {
            // Expansion ROM enable bit.
            ((!(config.size - 1)) as u32) | 1u32
        } else {
            (!(config.size - 1)) as u32
        };
        self.writable_bits.set(reg_idx, low_writable);
        self.bar_used.set(config.bar_idx, true);
        self.bar_configs.set(config.bar_idx, Some(config));
        Ok(config.bar_idx)
    }

    /// The error `add_pci_bar` reports for this configuration, if any.
    pub open spec fn spec_bar_error(&self, config: PciBarConfiguration) -> Option<Error> {
        let min_size: u64 = if config.spec_is_expansion_rom() {
            BAR_ROM_MIN_SIZE
        } else if config.region_type == PciBarRegionType::IoRegion {
            BAR_IO_MIN_SIZE
        } else {
            BAR_MEM_MIN_SIZE
        };
        if config.bar_idx >= NUM_BAR_REGS {
            Some(Error::BarInvalid(config.bar_idx))
        } else if self.spec_bar_used()[config.bar_idx as int] {
            Some(Error::BarInUse(config.bar_idx))
        } else if !spec_is_pow2(config.size) {
            Some(Error::BarSizeInvalid(config.size))
        } else if config.spec_is_expansion_rom() && config.region_type
            != PciBarRegionType::Memory32BitRegion {
            Some(Error::BarInvalidRomType)
        } else if config.size < min_size {
            Some(Error::BarSizeInvalid(config.size))
        } else if config.addr % config.size != 0 {
            Some(Error::BarAlignmentInvalid(config.addr, config.size))
        } else if config.addr + config.size > u64::MAX {
            Some(Error::BarAddressInvalid(config.addr, config.size))
        } else if (config.region_type == PciBarRegionType::Memory32BitRegion || config.region_type
            == PciBarRegionType::IoRegion) && config.addr + config.size > 0xffff_ffff {
            Some(Error::BarAddressInvalid(config.addr, config.size))
        } else if config.region_type == PciBarRegionType::Memory64BitRegion && config.bar_idx + 1
            >= ROM_BAR_IDX {
            Some(Error::BarInvalid64(config.bar_idx))
        } else if config.region_type == PciBarRegionType::Memory64BitRegion && self.spec_bar_used()[
            config.bar_idx + 1] {
            Some(Error::BarInUse64(config.bar_idx))
        } else {
            None
        }
    }

    /// Returns an iterator of the currently configured base address
    /// registers.
    pub fn get_bars(&self) -> (r: PciBarIter<C>)
        ensures
            r.config == self,
            r.bar_num == 0,
    {
        PciBarIter { config: self, bar_num: 0 }
    }

    /// The region type of a BAR slot, when one is stored there.
    pub open spec fn spec_get_bar_type(&self, bar_num: int) -> Option<PciBarRegionType> {
        if 0 <= bar_num < NUM_BAR_REGS {
            match self.spec_bar_configs()[bar_num] {
                Some(c) => Some(c.region_type),
                None => None,
            }
        } else {
            None
        }
    }

    /// Returns the type of the given BAR region.
    pub fn get_bar_type(&self, bar_num: PciBarIndex) -> (r: Option<PciBarRegionType>)
        requires
            self.wf(),
        ensures
            r == self.spec_get_bar_type(bar_num as int),
    {
        if bar_num >= NUM_BAR_REGS {
            return None;
        }
        match &self.bar_configs[bar_num] {
            Some(c) => Some(c.region_type),
            None => None,
        }
    }

    /// The live address of a BAR: the current base-address register value
    /// with the type bits masked off, or 0 when the slot is empty.
    pub open spec fn spec_get_bar_addr(&self, bar_num: int) -> u64 {
        let bar_idx = if bar_num == ROM_BAR_IDX {
            ROM_BAR_REG as int
        } else {
            BAR0_REG + bar_num
        };
        match self.spec_get_bar_type(bar_num) {
            None => 0u64,
            Some(PciBarRegionType::IoRegion) => (self.spec_regs()[bar_idx] & BAR_IO_ADDR_MASK)
                as u64,
            Some(PciBarRegionType::Memory32BitRegion) => (self.spec_regs()[bar_idx]
                & BAR_MEM_ADDR_MASK) as u64,
            Some(PciBarRegionType::Memory64BitRegion) => ((self.spec_regs()[bar_idx]
                & BAR_MEM_ADDR_MASK) as u64) | ((self.spec_regs()[bar_idx + 1] as u64) << 32),
        }
    }

    /// Returns the address of the given BAR region.
    pub fn get_bar_addr(&self, bar_num: PciBarIndex) -> (r: u64)
        requires
            self.wf(),
        ensures
            r == self.spec_get_bar_addr(bar_num as int),
    {
        let bar_type = match self.get_bar_type(bar_num) {
            Some(t) => t,
            None => {
                return 0;
            },
        };

        let bar_idx = if bar_num == ROM_BAR_IDX {
            ROM_BAR_REG
        } else {
            BAR0_REG + bar_num
        };

        match bar_type {
            PciBarRegionType::IoRegion => (self.registers[bar_idx] & BAR_IO_ADDR_MASK) as u64,
            PciBarRegionType::Memory32BitRegion => (self.registers[bar_idx] & BAR_MEM_ADDR_MASK)
                as u64,
            PciBarRegionType::Memory64BitRegion => ((self.registers[bar_idx] & BAR_MEM_ADDR_MASK)
                as u64) | ((self.registers[bar_idx + 1] as u64) << 32),
        }
    }

    /// The configuration of a BAR slot as the guest currently sees it:
    /// absent when the slot is empty or the matching space-enable command
    /// bit is clear, else the stored configuration with its address
    /// refreshed from the live registers.
    pub open spec fn spec_get_bar_configuration(&self, bar_num: int) -> Option<
        PciBarConfiguration,
    > {
        if 0 <= bar_num < NUM_BAR_REGS {
            match self.spec_bar_configs()[bar_num] {
                Some(config) => {
                    let command = self.spec_read_reg(COMMAND_REG as int);
                    if (config.spec_is_memory() && (command & COMMAND_REG_MEMORY_SPACE_MASK == 0))
                        || (config.spec_is_io() && (command & COMMAND_REG_IO_SPACE_MASK == 0)) {
                        None
                    } else {
                        Some(
                            PciBarConfiguration {
                                addr: self.spec_get_bar_addr(bar_num),
                                ..config
                            },
                        )
                    }
                },
                None => None,
            }
        } else {
            None
        }
    }

    /// Returns the configuration of a base address register, if present.
    pub fn get_bar_configuration(&self, bar_num: usize) -> (r: Option<PciBarConfiguration>)
        requires
            self.wf(),
        ensures
            r == self.spec_get_bar_configuration(bar_num as int),
    {
        if bar_num >= NUM_BAR_REGS {
            return None;
        }
        let config = match &self.bar_configs[bar_num] {
            Some(c) => *c,
            None => {
                return None;
            },
        };

        let command = self.read_reg(COMMAND_REG);
        if (config.is_memory() && (command & COMMAND_REG_MEMORY_SPACE_MASK == 0)) || (
        config.is_io() && (command & COMMAND_REG_IO_SPACE_MASK == 0)) {
            return None;
        }

        // The address may have been modified by the guest, so the value in
        // bar_configs may be outdated. Replace it with the current value.
        let addr = self.get_bar_addr(bar_num);
        Some(PciBarConfiguration { addr, ..config })
    }

    /// The writable-bit mask of one register.
    pub fn get_writable_bits(&self, reg_idx: usize) -> (r: u32)
        requires
            self.wf(),
            reg_idx < NUM_CONFIGURATION_REGISTERS,
        ensures
            r == self.spec_writable()[reg_idx as int],
    {
        self.writable_bits[reg_idx]
    }

    /// Configures the IRQ line and pin used by this device.
    pub fn set_irq(&mut self, line: u8, pin: PciInterruptPin)
        requires
            old(self).wf(),
        ensures
            final(self).wf(),
            final(self).spec_regs() == old(self).spec_regs().update(
                INTERRUPT_LINE_PIN_REG as int,
                (old(self).spec_regs()[INTERRUPT_LINE_PIN_REG as int] & 0xffff_0000) | ((((
                interrupt_pin_value(pin) + 1) as u32)) << 8) | (line as u32),
            ),
            final(self).spec_writable() == old(self).spec_writable(),
            final(self).spec_bar_used() == old(self).spec_bar_used(),
            final(self).spec_bar_configs() == old(self).spec_bar_configs(),
            final(self).spec_last_capability() == old(self).spec_last_capability(),
            final(self).spec_cap_keys() == old(self).spec_cap_keys(),
            final(self).spec_cap_cfgs() == old(self).spec_cap_cfgs(),
    {
        // `pin` is 1-based in the pci config space.
        let pin_idx: u32 = (match pin {
            PciInterruptPin::IntA => 0u32,
            PciInterruptPin::IntB => 1u32,
            PciInterruptPin::IntC => 2u32,
            PciInterruptPin::IntD => 3u32,
        }) + 1;
        let new_val = (self.registers[INTERRUPT_LINE_PIN_REG] & 0xffff_0000) | (pin_idx << 8) | (
        line as u32);
        self.do_write(INTERRUPT_LINE_PIN_REG, new_val);
    }

    /// The config-space byte offset at which the next capability would be
    /// placed, and the byte that must be patched to point at it.
    pub open spec fn spec_next_cap_offsets(&self) -> (int, int) {
        match self.spec_last_capability() {
            Some((offset, len)) => (spec_next_dword(offset as int, len as int), offset + 1),
            None => (FIRST_CAPABILITY_OFFSET as int, CAPABILITY_LIST_HEAD_OFFSET as int),
        }
    }

    /// Adds the capability `cap_data` to the list of capabilities.
    /// `cap_data` should include the two-byte PCI capability header
    /// (type, next), but not populate it. Correct values will be generated
    /// automatically based on `cap_data.id()`.
    pub fn add_capability(&mut self, cap_data: &dyn PciCapability, cap_config: Option<C>) -> (r:
        Result<(), Error>)
        requires
            old(self).wf(),
            4 * cap_data.spec_writable_bits().len() <= cap_data.spec_bytes().len() + 3,
        ensures
            final(self).wf(),
            ({
                let total_len = cap_data.spec_bytes().len() as int;
                let cap_offset = old(self).spec_next_cap_offsets().0;
                let tail_offset = old(self).spec_next_cap_offsets().1;
                if total_len == 0 {
                    r == Err::<(), Error>(Error::CapabilityEmpty) && *final(self) == *old(self)
                } else if cap_offset + total_len > CAPABILITY_MAX_OFFSET {
                    r == Err::<(), Error>(Error::CapabilitySpaceFull(total_len as usize)) && *final(self) == *old(self)
                } else {
                    let regs1 = old(self).spec_regs().update(
                        STATUS_REG as int,
                        old(self).spec_regs()[STATUS_REG as int]
                            | STATUS_REG_CAPABILITIES_USED_MASK,
                    );
                    let regs2 = spec_write_byte_raw(regs1, tail_offset, cap_offset as u8);
                    let regs3 = spec_write_byte_raw(
                        regs2,
                        cap_offset,
                        capability_id_value(cap_data.spec_id()),
                    );
                    let regs4 = spec_write_byte_raw(regs3, cap_offset + 1, 0);
                    &&& r == Ok::<(), Error>(())
                    &&& final(self).spec_regs() == spec_write_bytes_raw(
                        regs4,
                        cap_offset,
                        cap_data.spec_bytes(),
                        2,
                    )
                    &&& final(self).spec_writable() == spec_copy_writable(
                        old(self).spec_writable(),
                        cap_offset / 4,
                        cap_data.spec_writable_bits(),
                    )
                    &&& final(self).spec_last_capability() == Some(
                        (cap_offset as usize, total_len as usize),
                    )
                    &&& final(self).spec_bar_used() == old(self).spec_bar_used()
                    &&& final(self).spec_bar_configs() == old(self).spec_bar_configs()
                    &&& match cap_config {
                        Some(cfg) => ((exists|pos: int|
                            0 <= pos < old(self).spec_cap_keys().len() && old(self).spec_cap_keys()[pos] == (cap_offset / 4) as usize && final(self).spec_cap_keys() == old(self).spec_cap_keys() && final(self).spec_cap_cfgs() == #[trigger] old(self).spec_cap_cfgs().update(
                                pos,
                                cfg,
                            )) || (exists|pos: int|
                            0 <= pos <= old(self).spec_cap_keys().len() && (forall|m: int|
                                0 <= m < pos ==> (#[trigger] old(self).spec_cap_keys()[m]) < (
                                cap_offset / 4) as usize) && (forall|m: int|
                                pos <= m < old(self).spec_cap_keys().len() ==> (#[trigger] old(self).spec_cap_keys()[m]) > (cap_offset / 4) as usize) && final(self).spec_cap_keys() == old(self).spec_cap_keys().insert(
                                pos,
                                (cap_offset / 4) as usize,
                            ) && final(self).spec_cap_cfgs() == #[trigger] old(self).spec_cap_cfgs().insert(pos, cfg))),
                        None => final(self).spec_cap_keys() == old(self).spec_cap_keys() && final(self).spec_cap_cfgs() == old(self).spec_cap_cfgs(),
                    }
                }
            }),
    {
        let cap_bytes = cap_data.bytes();
        let total_len = cap_bytes.len();
        // Check that the length is valid.
        if total_len == 0 {
            return Err(Error::CapabilityEmpty);
        }
        let (cap_offset, tail_offset): (usize, usize) = match self.last_capability {
            Some((offset, len)) => {
                let next = match offset.checked_add(len) {
                    Some(n) => match n.checked_add(3) {
                        Some(n3) => (n3 / 4) * 4,
                        None => {
                            return Err(Error::CapabilitySpaceFull(total_len));
                        },
                    },
                    None => {
                        return Err(Error::CapabilitySpaceFull(total_len));
                    },
                };
                let tail = match offset.checked_add(1) {
                    Some(t) => t,
                    None => {
                        return Err(Error::CapabilitySpaceFull(total_len));
                    },
                };
                (next, tail)
            },
            None => (FIRST_CAPABILITY_OFFSET, CAPABILITY_LIST_HEAD_OFFSET),
        };
        let end_offset = match cap_offset.checked_add(total_len) {
            Some(e) => e,
            None => {
                return Err(Error::CapabilitySpaceFull(total_len));
            },
        };
        if end_offset > CAPABILITY_MAX_OFFSET {
            return Err(Error::CapabilitySpaceFull(total_len));
        }
        let status = self.registers[STATUS_REG];
        self.do_write(STATUS_REG, status | STATUS_REG_CAPABILITIES_USED_MASK);
        self.write_byte_internal(tail_offset, cap_offset as u8, false);
        self.write_byte_internal(cap_offset, capability_id_byte(cap_data.id()), false);
        self.write_byte_internal(cap_offset + 1, 0, false);  // Next pointer.
        let ghost regs4 = self.spec_regs();
        let mut i: usize = 2;
        while i < total_len
            invariant
                self.wf(),
                2 <= i,
                i <= total_len || i == 2,
                total_len == cap_bytes@.len(),
                cap_bytes@ == cap_data.spec_bytes(),
                cap_offset + total_len <= CAPABILITY_MAX_OFFSET,
                spec_write_bytes_raw(regs4, cap_offset as int, cap_bytes@, 2)
                    == spec_write_bytes_raw(self.spec_regs(), cap_offset as int, cap_bytes@, i as int),
                self.spec_writable() == old(self).spec_writable(),
                self.spec_bar_used() == old(self).spec_bar_used(),
                self.spec_bar_configs() == old(self).spec_bar_configs(),
                self.spec_last_capability() == old(self).spec_last_capability(),
                self.spec_cap_keys() == old(self).spec_cap_keys(),
                self.spec_cap_cfgs() == old(self).spec_cap_cfgs(),
            decreases total_len - i,
        {
            self.write_byte_internal(cap_offset + i, cap_bytes[i], false);
            i = i + 1;
        }
        let reg_idx = cap_offset / 4;
        let cap_writable = cap_data.writable_bits();
        let ghost wr0 = self.spec_writable();
        let mut k: usize = 0;
        while k < cap_writable.len()
            invariant
                self.wf(),
                k <= cap_writable@.len(),
                cap_writable@ == cap_data.spec_writable_bits(),
                4 * cap_writable@.len() <= total_len + 3,
                reg_idx == cap_offset / 4,
                cap_offset + total_len <= CAPABILITY_MAX_OFFSET,
                wr0.len() == NUM_CONFIGURATION_REGISTERS,
                self.spec_writable().len() == NUM_CONFIGURATION_REGISTERS,
                forall|m: int|
                    0 <= m < NUM_CONFIGURATION_REGISTERS ==> #[trigger] self.spec_writable()[m]
                        == (if reg_idx <= m < reg_idx + k {
                        cap_writable@[m - reg_idx]
                    } else {
                        wr0[m]
                    }),
                self.spec_regs() == spec_write_bytes_raw(
                    regs4,
                    cap_offset as int,
                    cap_data.spec_bytes(),
                    2,
                ),
                self.spec_bar_used() == old(self).spec_bar_used(),
                self.spec_bar_configs() == old(self).spec_bar_configs(),
                self.spec_last_capability() == old(self).spec_last_capability(),
                self.spec_cap_keys() == old(self).spec_cap_keys(),
                self.spec_cap_cfgs() == old(self).spec_cap_cfgs(),
            decreases cap_writable@.len() - k,
        {
            proof {
                assert(4 * (reg_idx + k) <= cap_offset + 4 * k <= cap_offset + total_len - 1);
            }
            self.writable_bits.set(reg_idx + k, cap_writable[k]);
            k = k + 1;
        }
        proof {
            assert(self.spec_writable() =~= spec_copy_writable(
                wr0,
                reg_idx as int,
                cap_data.spec_writable_bits(),
            ));
        }
        self.last_capability = Some((cap_offset, total_len));
        if let Some(cap_cfg) = cap_config {
            // Keep the capability-config list sorted by first register
            // index; a config at an existing index replaces the old one.
            let key = reg_idx;
            let mut pos: usize = 0;
            while pos < self.cap_keys.len() && self.cap_keys[pos] < key
                invariant
                    pos <= self.cap_keys@.len(),
                    forall|m: int| 0 <= m < pos ==> (#[trigger] self.cap_keys@[m]) < key,
                decreases self.cap_keys@.len() - pos, (if pos < self.cap_keys@.len()
                    && self.cap_keys@[pos as int] < key {
                    1int
                } else {
                    0int
                }),
            {
                pos = pos + 1;
            }
            if pos < self.cap_keys.len() && *vstd::slice::slice_index_get(
                self.cap_keys.as_slice(),
                pos,
            ) == key {
                self.cap_cfgs.set(pos, cap_cfg);
            } else {
                self.cap_keys.insert(pos, key);
                self.cap_cfgs.insert(pos, cap_cfg);
            }
        }
        Ok(())
    }

    /// Captures the registers, writable masks, BAR state and capability
    /// tail as a plain serializable value.
    pub fn snapshot(&self) -> (r: PciConfigurationSerialized)
        ensures
            r.registers@ == self.spec_regs(),
            r.writable_bits@ == self.spec_writable(),
            r.bar_used@ == self.spec_bar_used(),
            r.bar_configs@ == self.spec_bar_configs(),
            r.last_capability == self.spec_last_capability(),
    {
        PciConfigurationSerialized {
            registers: clone_vec_copy(&self.registers),
            writable_bits: clone_vec_copy(&self.writable_bits),
            bar_used: clone_vec_copy(&self.bar_used),
            bar_configs: clone_vec_copy(&self.bar_configs),
            last_capability: self.last_capability,
        }
    }

    /// Whether a snapshot can be replayed into this configuration: its
    /// fixed shapes match this register file.
    pub open spec fn spec_restorable(&self, data: PciConfigurationSerialized) -> bool {
        &&& data.registers@.len() == NUM_CONFIGURATION_REGISTERS
        &&& data.writable_bits@.len() == NUM_CONFIGURATION_REGISTERS
        &&& data.bar_used@.len() == NUM_BAR_REGS
        &&& data.bar_configs@.len() == NUM_BAR_REGS
    }

    /// Replays a snapshot. Every register goes back in through `do_write`
    /// so that the header-type byte exclusion is honored and any mirror
    /// stays consistent. It succeeds exactly when the snapshot's shapes
    /// match this register file; the recorded capability tail, of any
    /// age, is taken as is, and the installed capability configs are
    /// kept.
    pub fn restore(&mut self, data: PciConfigurationSerialized) -> (r: Result<(), RestoreError>)
        requires
            old(self).wf(),
        ensures
            final(self).wf(),
            final(self).spec_cap_keys() == old(self).spec_cap_keys(),
            final(self).spec_cap_cfgs() == old(self).spec_cap_cfgs(),
            r is Ok <==> old(self).spec_restorable(data),
            match r {
                Ok(()) => {
                    &&& data.registers@.len() == NUM_CONFIGURATION_REGISTERS
                    &&& final(self).spec_regs() == data.registers@
                    &&& final(self).spec_writable() == data.writable_bits@
                    &&& final(self).spec_bar_used() == data.bar_used@
                    &&& final(self).spec_bar_configs() == data.bar_configs@
                    &&& final(self).spec_last_capability() == data.last_capability
                },
                Err(_) => *final(self) == *old(self),
            },
    {
        if data.registers.len() != NUM_CONFIGURATION_REGISTERS {
            return Err(RestoreError::InvalidRegisters);
        }
        if data.writable_bits.len() != NUM_CONFIGURATION_REGISTERS {
            return Err(RestoreError::InvalidWritableBits);
        }
        if data.bar_used.len() != NUM_BAR_REGS {
            return Err(RestoreError::InvalidBarUsed);
        }
        if data.bar_configs.len() != NUM_BAR_REGS {
            return Err(RestoreError::InvalidBarConfigs);
        }
        self.writable_bits = clone_vec_copy(&data.writable_bits);
        self.bar_used = clone_vec_copy(&data.bar_used);
        self.bar_configs = clone_vec_copy(&data.bar_configs);
        self.last_capability = data.last_capability;
        // Restore everything via do_write to avoid writing the header type
        // byte into the mirror and clobbering the multi-function bit, as
        // that bit is managed by the bus above this register file.
        let mut i: usize = 0;
        while i < NUM_CONFIGURATION_REGISTERS
            invariant
                self.wf(),
                i <= NUM_CONFIGURATION_REGISTERS,
                data.registers@.len() == NUM_CONFIGURATION_REGISTERS,
                forall|m: int|
                    0 <= m < i ==> #[trigger] self.spec_regs()[m] == data.registers@[m],
                self.spec_regs().len() == NUM_CONFIGURATION_REGISTERS,
                self.spec_writable() == data.writable_bits@,
                self.spec_bar_used() == data.bar_used@,
                self.spec_bar_configs() == data.bar_configs@,
                self.spec_last_capability() == data.last_capability,
                self.spec_cap_keys() == old(self).spec_cap_keys(),
                self.spec_cap_cfgs() == old(self).spec_cap_cfgs(),
            decreases NUM_CONFIGURATION_REGISTERS - i,
        {
            self.do_write(i, data.registers[i]);
            i = i + 1;
        }
        proof {
            assert(self.spec_regs() =~= data.registers@);
        }
        Ok(())
    }


    /// Folds one installed capability config's current register values
    /// into the register file and, through `do_write`, into the
    /// guest-visible mirror, selected by the capability's read mask.
    /// The capability object cannot hold a handle into the owned mirror,
    /// so internally-triggered updates are made visible by the owner
    /// calling this, for the capability at position `pos` of the
    /// installed list; after `setup_mapping` it is called once per
    /// installed capability to seed their dynamic values.
    pub fn sync_capability(&mut self, pos: usize) -> (r: bool)
        requires
            old(self).wf(),
        ensures
            final(self).wf(),
            final(self).spec_writable() == old(self).spec_writable(),
            final(self).spec_bar_used() == old(self).spec_bar_used(),
            final(self).spec_bar_configs() == old(self).spec_bar_configs(),
            final(self).spec_last_capability() == old(self).spec_last_capability(),
            final(self).spec_cap_keys() == old(self).spec_cap_keys(),
            final(self).spec_cap_cfgs() == old(self).spec_cap_cfgs(),
            pos >= old(self).spec_cap_keys().len() ==> r == false && final(self).spec_regs()
                == old(self).spec_regs(),
            pos < old(self).spec_cap_keys().len() ==> r == true && ({
                let key = old(self).spec_cap_keys()[pos as int] as int;
                let cap = old(self).spec_cap_cfgs()[pos as int];
                let mask = cap.spec_read_mask();
                final(self).spec_regs() == Seq::new(
                    NUM_CONFIGURATION_REGISTERS as nat,
                    |i: int|
                        if key <= i < key + mask.len() {
                            (old(self).spec_regs()[i] & !mask[i - key]) | (cap.spec_read_reg(
                                i - key,
                            ) & mask[i - key])
                        } else {
                            old(self).spec_regs()[i]
                        },
                )
            }),
    {
        if pos >= self.cap_keys.len() {
            return false;
        }
        let key = self.cap_keys[pos];

        // Read the capability's values first; the register writes below
        // need the configuration mutably.
        let n = self.cap_cfgs[pos].num_regs();
        let mut vals: Vec<u32> = Vec::new();
        let mut i: usize = 0;
        while i < n
            invariant
                self.wf(),
                self == old(self),
                pos < self.cap_keys@.len(),
                i <= n,
                n == self.spec_cap_cfgs()[pos as int].spec_read_mask().len(),
                vals@.len() == i,
                forall|m: int|
                    0 <= m < i ==> #[trigger] vals@[m] == self.spec_cap_cfgs()[
                        pos as int].spec_read_reg(m),
            decreases n - i,
        {
            let v = self.cap_cfgs[pos].read_reg(i);
            vals.push(v);
            i = i + 1;
        }
        let mask = self.cap_cfgs[pos].read_mask();

        let mut k: usize = 0;
        while k < n
            invariant
                self.wf(),
                pos < self.cap_keys@.len(),
                k <= n,
                key == old(self).spec_cap_keys()[pos as int],
                n == old(self).spec_cap_cfgs()[pos as int].spec_read_mask().len(),
                mask@ == old(self).spec_cap_cfgs()[pos as int].spec_read_mask(),
                vals@.len() == n,
                forall|m: int|
                    0 <= m < n ==> #[trigger] vals@[m] == old(self).spec_cap_cfgs()[
                        pos as int].spec_read_reg(m),
                self.spec_writable() == old(self).spec_writable(),
                self.spec_bar_used() == old(self).spec_bar_used(),
                self.spec_bar_configs() == old(self).spec_bar_configs(),
                self.spec_last_capability() == old(self).spec_last_capability(),
                self.spec_cap_keys() == old(self).spec_cap_keys(),
                self.spec_cap_cfgs() == old(self).spec_cap_cfgs(),
                self.spec_regs().len() == NUM_CONFIGURATION_REGISTERS,
                forall|i2: int|
                    0 <= i2 < NUM_CONFIGURATION_REGISTERS ==> #[trigger] self.spec_regs()[i2] == (
                    if key <= i2 < key + k {
                        (old(self).spec_regs()[i2] & !mask@[i2 - key]) | (old(
                            self,
                        ).spec_cap_cfgs()[pos as int].spec_read_reg(i2 - key) & mask@[i2 - key])
                    } else {
                        old(self).spec_regs()[i2]
                    }),
            decreases n - k,
        {
            let reg = match key.checked_add(k) {
                Some(x) => x,
                None => {
                    // Unreachable for installed keys, which stay below the
                    // register count; keep the write dropped like set_reg
                    // would.
                    k = k + 1;
                    continue ;
                },
            };
            self.set_reg(reg, vals[k], *vstd::slice::slice_index_get(mask, k));
            k = k + 1;
        }
        proof {
            assert(final(self).spec_regs() =~= Seq::new(
                NUM_CONFIGURATION_REGISTERS as nat,
                |i: int|
                    if key <= i < key + mask@.len() {
                        (old(self).spec_regs()[i] & !mask@[i - key]) | (old(
                            self,
                        ).spec_cap_cfgs()[pos as int].spec_read_reg(i - key) & mask@[i - key])
                    } else {
                        old(self).spec_regs()[i]
                    },
            ));
        }
        true
    }

    /// Installs the guest-visible mirror of this configuration space. The
    /// embedder maps the mirror's bytes into the guest at `base`; `len`
    /// bytes of registers, at most the whole file, are copied in now and
    /// every later register write updates the mirror through `do_write`.
    /// Call `sync_capability` for each installed capability afterwards so
    /// the mirror also carries their dynamic register values.
    pub fn setup_mapping(&mut self, base: usize, len: usize) -> (r: Result<(), Error>)
        requires
            old(self).wf(),
        ensures
            final(self).wf(),
            final(self).spec_regs() == old(self).spec_regs(),
            final(self).spec_writable() == old(self).spec_writable(),
            final(self).spec_bar_used() == old(self).spec_bar_used(),
            final(self).spec_bar_configs() == old(self).spec_bar_configs(),
            final(self).spec_last_capability() == old(self).spec_last_capability(),
            final(self).spec_cap_keys() == old(self).spec_cap_keys(),
            final(self).spec_cap_cfgs() == old(self).spec_cap_cfgs(),
            match old(self).spec_mirror() {
                Some(_) => r is Err && final(self).spec_mirror() == old(self).spec_mirror(),
                None => r == Ok::<(), Error>(()) && final(self).spec_mirror() == Some(
                    (
                        Seq::new(
                            256nat,
                            |k: int|
                                if k / 4 < len / 4 && k / 4 < NUM_CONFIGURATION_REGISTERS {
                                    u32_byte(old(self).spec_regs()[k / 4], k % 4)
                                } else {
                                    0u8
                                },
                        ),
                        base as int,
                    ),
                ),
            },
    {
        if self.mmio_shadow.is_some() {
            return Err(Error::CapabilityLengthInvalid(0));
        }
        let mut bytes: Vec<u8> = vec![0u8; 256];
        let mut i: usize = 0;
        while i < NUM_CONFIGURATION_REGISTERS
            invariant
                self.wf(),
                i <= NUM_CONFIGURATION_REGISTERS,
                bytes@.len() == 256,
                forall|k: int|
                    0 <= k < 256 ==> #[trigger] bytes@[k] == (if k / 4 < i && k / 4 < len / 4 {
                        u32_byte(self.spec_regs()[k / 4], k % 4)
                    } else {
                        0u8
                    }),
            decreases NUM_CONFIGURATION_REGISTERS - i,
        {
            if i < len / 4 {
                let val = self.registers[i];
                bytes.set(i * 4, (val % 256) as u8);
                bytes.set(i * 4 + 1, ((val / 0x100) % 256) as u8);
                bytes.set(i * 4 + 2, ((val / 0x10000) % 256) as u8);
                bytes.set(i * 4 + 3, ((val / 0x1000000) % 256) as u8);
            }
            i = i + 1;
        }
        self.mmio_shadow = Some(MmioShadow { bytes, base });
        proof {
            assert(final(self).spec_mirror()->Some_0.0 =~= Seq::new(
                256nat,
                |k: int|
                    if k / 4 < len / 4 && k / 4 < NUM_CONFIGURATION_REGISTERS {
                        u32_byte(old(self).spec_regs()[k / 4], k % 4)
                    } else {
                        0u8
                    },
            ));
        }
        Ok(())
    }
}

/// The first BAR slot at or after `n` that currently reports a
/// configuration.
pub open spec fn spec_next_bar<C: PciCapConfig>(cfg: &PciConfiguration<C>, n: int) -> Option<
    (int, PciBarConfiguration),
>
    decreases NUM_BAR_REGS - n,
{
    if n < 0 || n >= NUM_BAR_REGS {
        None
    } else {
        match cfg.spec_get_bar_configuration(n) {
            Some(c) => Some((n, c)),
            None => spec_next_bar(cfg, n + 1),
        }
    }
}

/// Walks the configured base address registers of a configuration space.
pub struct PciBarIter<'a, C: PciCapConfig> {
    pub config: &'a PciConfiguration<C>,
    pub bar_num: PciBarIndex,
}

impl<'a, C: PciCapConfig> PciBarIter<'a, C> {
    /// The next configured BAR, skipping empty and disabled slots.
    pub fn next(&mut self) -> (r: Option<PciBarConfiguration>)
        requires
            old(self).config.wf(),
        ensures
            final(self).config == old(self).config,
            match spec_next_bar(old(self).config, old(self).bar_num as int) {
                Some((n, c)) => r == Some(c) && final(self).bar_num == n + 1,
                None => r == None::<PciBarConfiguration> && final(self).bar_num >= NUM_BAR_REGS,
            },
    {
        while self.bar_num < NUM_BAR_REGS
            invariant
                self.config.wf(),
                self.config == old(self).config,
                spec_next_bar(old(self).config, old(self).bar_num as int) == spec_next_bar(
                    self.config,
                    self.bar_num as int,
                ),
            decreases NUM_BAR_REGS - self.bar_num,
        {
            let bar_config = self.config.get_bar_configuration(self.bar_num);
            self.bar_num = self.bar_num + 1;
            if let Some(bar_config) = bar_config {
                return Some(bar_config);
            }
        }

        None
    }
}


/// A read of a configuration register is a pure function of the
/// configuration: calling `read_reg` twice in a row without an
/// intervening write returns identical values, because each result is
/// pinned to `spec_read_reg` of the unchanged configuration.
pub proof fn lemma_read_reg_idempotent<C: PciCapConfig>(
    cfg: &PciConfiguration<C>,
    reg_idx: int,
    r1: u32,
    r2: u32,
)
    requires
        r1 == cfg.spec_read_reg(reg_idx),
        r2 == cfg.spec_read_reg(reg_idx),
    ensures
        r1 == r2,
{
}

proof fn lemma_masked_update_preserves(x: u32, m: u32, s: u32, wm: u32)
    requires
        m & !wm == 0,
        s & !wm == 0,
    ensures
        ((x & !m) | s) & !wm == x & !wm,
{
    assert(((x & !m) | s) & !wm == x & !wm) by (bit_vector)
        requires
            m & !wm == 0,
            s & !wm == 0,
    ;
}

/// Bits outside a register's writable mask are unaffected by a guest
/// write, regardless of the value written: for every register the
/// untouched bits of the new file equal those of the old. A capability
/// config that re-merges its own value through its read mask goes through
/// `set_reg`, outside this passive mechanism.
pub proof fn lemma_guest_write_preserves_readonly_bits(
    regs: Seq<u32>,
    writable: Seq<u32>,
    reg_idx: int,
    offset: int,
    data: Seq<u8>,
    i: int,
)
    requires
        0 <= i < regs.len(),
        writable.len() == regs.len(),
    ensures
        spec_guest_write(regs, writable, reg_idx, offset, data)[i] & !writable[i] == regs[i]
            & !writable[i],
{
    let post = spec_guest_write(regs, writable, reg_idx, offset, data);
    if 0 <= reg_idx < NUM_CONFIGURATION_REGISTERS && 0 <= offset < 0x1_0000 {
        let reg_offset = reg_idx * 4 + offset;
        let tgt = reg_offset / 4;
        let wm = if 0 <= tgt < writable.len() {
            writable[tgt]
        } else {
            0u32
        };
        if data.len() == 1 {
            let sh = byte_shift(reg_offset);
            assert(sh == 0 || sh == 8 || sh == 16 || sh == 24);
            if 0 <= tgt < regs.len() {
                let v0 = data[0];
                assert(((0xffu32 << sh) & wm) & !wm == 0) by (bit_vector);
                assert((((v0 as u32) << sh) & wm) & !wm == 0) by (bit_vector);
                lemma_masked_update_preserves(
                    regs[tgt],
                    (0xffu32 << sh) & wm,
                    ((v0 as u32) << sh) & wm,
                    wm,
                );
            }
        } else if data.len() == 2 {
            if reg_offset % 4 == 0 || reg_offset % 4 == 2 {
                let sh: u32 = if reg_offset % 4 == 0 {
                    0
                } else {
                    16
                };
                let v = (data[0] as u16) | ((data[1] as u16) << 8);
                if 0 <= tgt < regs.len() {
                    assert(((0xffffu32 << sh) & wm) & !wm == 0) by (bit_vector);
                    assert((((v as u32) << sh) & wm) & !wm == 0) by (bit_vector);
                    lemma_masked_update_preserves(
                        regs[tgt],
                        (0xffffu32 << sh) & wm,
                        ((v as u32) << sh) & wm,
                        wm,
                    );
                }
            }
        } else if data.len() == 4 {
            if reg_offset % 4 == 0 && 0 <= tgt < regs.len() {
                let v = (data[0] as u32) | ((data[1] as u32) << 8) | ((data[2] as u32) << 16) | ((
                data[3] as u32) << 24);
                assert((wm & !wm == 0) && ((v & wm) & !wm == 0)) by (bit_vector);
                lemma_masked_update_preserves(regs[tgt], wm, v & wm, wm);
            }
        }
    }
}

} // verus!
