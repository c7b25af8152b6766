//! NVMe command and completion entries.
use crate::bitfield::{u16_bit, u16_bits, u16_get_bit, u16_get_bits};
use vstd::prelude::*;

verus! {

/// The data pointer transfer kind for physical region page entries.
pub const PSDT_PRP: u8 = 0;

/// A command that is not fused with another.
pub const FUSE_NORMAL: u8 = 0;

/// The opcode of the admin Identify command.
pub const OPCODE_IDENTIFY: u8 = 0x06;

/// An admin command the driver issues.
#[derive(Debug, Clone, Copy, PartialEq, Eq, Structural)]
pub enum AdminCommand {
    /// Identify the controller `ctrl_id`.
    Identify { ctrl_id: u16 },
}

impl AdminCommand {
    /// The command's opcode.
    pub open spec fn spec_opcode(self) -> u8 {
        match self {
            AdminCommand::Identify { .. } => OPCODE_IDENTIFY,
        }
    }

    /// The command's opcode.
    pub fn get_opcode(&self) -> (r: u8)
        ensures
            r == self.spec_opcode(),
    {
        match self {
            AdminCommand::Identify { .. } => OPCODE_IDENTIFY,
        }
    }
}

/// Where a command's data is: two physical region page entries.
#[derive(Debug, Clone, Copy, PartialEq, Eq, Structural)]
pub struct DataPointer {
    pub prp1: u64,
    pub prp2: u64,
}

impl DataPointer {
    /// A data pointer to the page at `first` and, where given, the page at
    /// `second`.
    pub fn new_prp(first: u64, second: Option<u64>) -> (r: Self)
        ensures
            r.prp1 == first,
            r.prp2 == match second {
                Some(second) => second,
                None => 0,
            },
    {
        let prp2 = match second {
            Some(second) => second,
            None => 0,
        };
        DataPointer { prp1: first, prp2 }
    }
}

/// A submission queue entry.
#[derive(Debug, Clone, Copy, PartialEq, Eq, Structural)]
pub struct Command {
    pub opcode: u8,
    pub fuse_psdt: u8,
    pub command_id: u16,
    pub ns_id: u32,
    pub cdw2: u32,
    pub cdw3: u32,
    pub mdata_ptr: u64,
    pub data_ptr: DataPointer,
    pub cdw10: u32,
    pub cdw11: u32,
    pub cdw12: u32,
    pub cdw13: u32,
    pub cdw14: u32,
    pub cdw15: u32,
}

/// The command submitted for an admin command under identifier `id`, with
/// its data at `data_address`: for Identify, the controller identifier in
/// the high half of the tenth dword and the controller data structure
/// selected in the low bits.
pub open spec fn spec_identify_command(command: AdminCommand, id: u16, data_address: u64) -> Command {
    match command {
        AdminCommand::Identify { ctrl_id } => Command {
            opcode: OPCODE_IDENTIFY,
            fuse_psdt: ((PSDT_PRP << 6u8) | FUSE_NORMAL) as u8,
            command_id: id,
            ns_id: 0,
            cdw2: 0,
            cdw3: 0,
            mdata_ptr: 0,
            data_ptr: DataPointer { prp1: data_address, prp2: 0 },
            cdw10: ((ctrl_id as u32) << 16u32) | 0b1,
            cdw11: 0,
            cdw12: 0,
            cdw13: 0,
            cdw14: 0,
            cdw15: 0,
        },
    }
}

/// A completion queue entry.
#[derive(Debug, Clone, Copy, PartialEq, Eq, Structural)]
pub struct CommandResult {
    pub dw0: u32,
    pub dw1: u32,
    pub sq_head: u16,
    pub sq_id: u16,
    pub command_id: u16,
    /// The phase tag in bit 0, the status code in bits 1..9 and the status
    /// code type in bits 9..12.
    pub status: u16,
}

impl CommandResult {
    /// The entry's phase tag.
    pub open spec fn spec_phase_tag(self) -> bool {
        u16_bit(self.status, 0)
    }

    /// Whether the entry reports generic successful completion: status
    /// code type and status code both zero.
    pub open spec fn spec_successful(self) -> bool {
        u16_bits(self.status, 1, 12) == 0
    }

    /// The entry's phase tag.
    pub fn get_phase_tag(&self) -> (r: bool)
        ensures
            r == self.spec_phase_tag(),
    {
        u16_get_bit(self.status, 0)
    }

    /// The identifier of the command the entry completes.
    pub fn get_command_id(&self) -> (r: u16)
        ensures
            r == self.command_id,
    {
        self.command_id
    }

    /// Whether the entry reports generic successful completion.
    pub fn is_successful(&self) -> (r: bool)
        ensures
            r == self.spec_successful(),
    {
        u16_get_bits(self.status, 1, 12) == 0
    }
}

} // verus!
