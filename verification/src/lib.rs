//! Device-emulation and guest-transport core of a virtual machine monitor:
//! an AML (ACPI Machine Language) byte-stream encoder, a PCI
//! configuration-space model, the FUSE protocol server core, and the
//! virtio-net wire structures.

pub mod aml;
pub mod fuse;
pub mod pci;
pub mod virtio_net;
