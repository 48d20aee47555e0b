//! The driver's window on the machine: device registers, the PCI
//! configuration space, busy-wait delays and the network-stack callbacks.
//! Every access made through an [`crate::adapter::Adapter`] is recorded in
//! its ghost trace as an [`IoOp`], so contracts can state exactly which
//! registers were read and written, with which values, in which order.
use vstd::prelude::*;

verus! {

/// One interaction with the machine.
#[allow(inconsistent_fields)]
#[derive(Debug, Clone, Copy)]
pub enum IoOp {
    /// A 32-bit memory-mapped register read and the value it returned.
    Read { reg: u32, value: u32 },
    /// A 32-bit memory-mapped register write.
    Write { reg: u32, value: u32 },
    /// A register write through the I/O-port window.
    WriteIo { reg: u32, value: u32 },
    /// A 16-bit flash register read.
    FlashRead16 { reg: u32, value: u16 },
    /// A 16-bit flash register write.
    FlashWrite16 { reg: u32, value: u16 },
    /// A 32-bit flash register read.
    FlashRead { reg: u32, value: u32 },
    /// A 32-bit flash register write.
    FlashWrite { reg: u32, value: u32 },
    /// A busy wait of the given number of microseconds.
    Delay { usecs: usize },
    /// A PCI configuration-space read.
    PciRead { reg: u32, width: u32, value: u32 },
    /// The PCI vendor id of the device, as the bus reports it.
    VendorId { value: u32 },
    /// The PCI device id of the device, as the bus reports it.
    DeviceId { value: u32 },
    /// A read of a register of the PCI Express capability.
    PcieCapRead { reg: u32, value: u16 },
    /// A link-state notification to the network stack.
    LinkState { state: i32, baudrate: u64 },
    /// A request to run the administrative task soon.
    AdminIntr,
    /// The MAC address announced to the network stack.
    SetMac { addr: [u8; 6] },
    /// A request for a bus resource (memory window or I/O ports) behind
    /// the given PCI register, and whether it was granted.
    AllocResource { kind: i32, rid: i32, granted: bool },
}

/// What the machine offers the driver. No method promises anything about
/// what it returns: the driver's contracts hold for every answer.
pub trait Platform {
    fn read_register(&mut self, reg: u32) -> u32;
    fn write_register(&mut self, reg: u32, value: u32);
    fn write_register_io(&mut self, reg: u32, value: u32);
    fn read_flash_register16(&mut self, reg: u32) -> u16;
    fn write_flash_register16(&mut self, reg: u32, value: u16);
    fn read_flash_register(&mut self, reg: u32) -> u32;
    fn write_flash_register(&mut self, reg: u32, value: u32);
    fn usec_delay(&mut self, usecs: usize);
    fn pci_read_config(&mut self, reg: u32, width: u32) -> u32;
    fn read_pcie_cap_reg(&mut self, reg: u32) -> u16;
    fn pci_get_vendor(&mut self) -> u32;
    fn pci_get_device(&mut self) -> u32;
    fn link_state_change(&mut self, state: i32, baudrate: u64);
    fn admin_intr_deferred(&mut self);
    fn set_mac(&mut self, addr: [u8; 6]);
    fn bus_alloc_resource(&mut self, kind: i32, rid: i32) -> bool;
}

/// The value a register read returned (zero for any other operation).
pub open spec fn read_value(op: IoOp) -> u32 {
    match op {
        IoOp::Read { value, .. } => value,
        _ => 0,
    }
}

/// The value a PCI configuration read or a PCI id query returned (zero
/// for any other operation).
pub open spec fn pci_value(op: IoOp) -> u32 {
    match op {
        IoOp::PciRead { value, .. } => value,
        IoOp::VendorId { value } => value,
        IoOp::DeviceId { value } => value,
        _ => 0,
    }
}

/// `op` is a read of register `reg`.
pub open spec fn is_read_of(op: IoOp, reg: u32) -> bool {
    op matches IoOp::Read { reg: r, .. } && r == reg
}

} // verus!
