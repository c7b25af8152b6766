//! AHCI: the SATA host bus adapter and the ports it serves.
pub mod hba;

use hba::port::{Class, Port};
use vstd::prelude::*;

verus! {

/// The task file data bit that marks a failed command (PxIS.TFES).
#[allow(non_upper_case_globals)]
pub const HBA_PxIS_TFES: u32 = 0x4000_0000;

/// The PCI class of mass storage controllers.
pub const MASS_STORAGE_CONTROLLER: u8 = 0x01;

/// The PCI subclass of Serial ATA controllers.
pub const SERIAL_ATA: u8 = 0x06;

/// The ATA commands the driver issues.
#[derive(Debug, Clone, Copy, PartialEq, Eq, Structural)]
pub enum CommandType {
    ReadDMA,
}

impl CommandType {
    /// The command's ATA opcode.
    pub fn opcode(self) -> (r: u8)
        ensures
            r == 0x25,
    {
        match self {
            CommandType::ReadDMA => 0x25,
        }
    }
}

/// Whether a port class is served by the driver.
pub open spec fn is_sata_class(class: Class) -> bool {
    class == Class::SATA || class == Class::SATAPI
}

/// Whether the port's status fields hold defined values and, where a
/// device is up, its signature names a class.
pub open spec fn port_readable(port: Port) -> bool {
    &&& port.sata_status.spec_valid()
    &&& crate::bitfield::u32_bits(port.sata_status.view_bits(), 0, 4) == 3
        && crate::bitfield::u32_bits(port.sata_status.view_bits(), 8, 12) == 1
        ==> Class::spec_from_signature(port.signature) is Some
}

/// The positions, in order, of the ports with a SATA or SATAPI device.
pub open spec fn sata_port_indices(ports: Seq<Port>) -> Seq<usize>
    decreases ports.len(),
{
    if ports.len() == 0 {
        Seq::empty()
    } else {
        let earlier = sata_port_indices(ports.drop_last());
        if is_sata_class(ports.last().spec_class()) {
            earlier.push((ports.len() - 1) as usize)
        } else {
            earlier
        }
    }
}

/// The AHCI driver of one host bus adapter: which of its ports it serves.
pub struct AHCI {
    sata_ports: Vec<usize>,
}

impl AHCI {
    pub closed spec fn spec_sata_ports(&self) -> Seq<usize> {
        self.sata_ports@
    }

    /// Takes a Serial ATA mass storage controller with the ports of its host
    /// bus adapter, and keeps, in order, the ports with a SATA or SATAPI
    /// device; the platform configures each of those. Any other device is
    /// not an AHCI controller.
    pub fn from_pcie_device(device_class: u8, subclass: u8, ports: &Vec<Port>) -> (r: Self)
        requires
            device_class == MASS_STORAGE_CONTROLLER,
            subclass == SERIAL_ATA,
            forall|i: int| 0 <= i < ports.len() ==> port_readable(#[trigger] ports@[i]),
        ensures
            r.spec_sata_ports() == sata_port_indices(ports@),
    {
        let mut sata_ports: Vec<usize> = Vec::new();
        let mut i: usize = 0;
        while i < ports.len()
            invariant
                i <= ports.len(),
                forall|j: int| 0 <= j < ports.len() ==> port_readable(#[trigger] ports@[j]),
                sata_ports@ == sata_port_indices(ports@.take(i as int)),
            decreases ports.len() - i,
        {
            proof {
                assert(ports@.take(i + 1).drop_last() =~= ports@.take(i as int));
                assert(port_readable(ports@[i as int]));
            }
            let class = ports[i].class();
            if class == Class::SATA || class == Class::SATAPI {
                sata_ports.push(i);
            }
            i = i + 1;
        }
        assert(ports@.take(i as int) =~= ports@);
        AHCI { sata_ports }
    }

    /// The positions of the ports the driver serves.
    pub fn sata_ports(&self) -> (r: &Vec<usize>)
        ensures
            r@ == self.spec_sata_ports(),
    {
        &self.sata_ports
    }
}

} // verus!
