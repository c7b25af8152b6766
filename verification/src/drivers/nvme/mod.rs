//! NVM Express controller: the register layouts, the controller's set-up
//! sequence, command identifiers and the admin command flow.
//!
//! The controller's registers live in device memory. Here each register is
//! a value: the platform layer reads the register, hands the value to these
//! types, and writes back what their setters produce.
pub mod command;
pub mod queue;

use crate::bitfield::{
    lemma_u32_bit_range_disjoint, lemma_u32_bits_fit, lemma_u32_bits_of_with_bits, lemma_u32_masks, lemma_u64_bits_fit,
    lemma_u64_masks, u32_bit, u32_bits, u32_get_bit, u32_get_bits, u32_set_bit, u32_set_bits,
    u32_with_bit, u32_with_bits, u64_bit, u64_bits, u64_get_bit, u64_get_bits,
};
use command::{AdminCommand, Command, CommandResult, DataPointer};
use queue::{Completion, Queue, Submission};
use std::collections::BTreeMap;
use vstd::prelude::*;

verus! {

/// The scope of the controller's power state (CAP.CPS).
#[derive(Debug, Clone, Copy, PartialEq, Eq, Structural)]
pub enum ControllerPowerScope {
    NotReported,
    ControllerScope,
    DomainScope,
    NVMSubsystemScope,
}

impl ControllerPowerScope {
    /// The scope a two-bit CAP.CPS field encodes.
    pub open spec fn spec_from_bits(bits: u64) -> ControllerPowerScope {
        if bits == 0 {
            ControllerPowerScope::NotReported
        } else if bits == 1 {
            ControllerPowerScope::ControllerScope
        } else if bits == 2 {
            ControllerPowerScope::DomainScope
        } else {
            ControllerPowerScope::NVMSubsystemScope
        }
    }
}

/// The command sets the controller supports (CAP.CSS).
#[derive(Debug, Clone, Copy, PartialEq, Eq, Structural)]
pub struct CommandSetsSupported {
    bits: u8,
}

impl CommandSetsSupported {
    /// The NVM command set.
    pub const NVM: u8 = 0x01;
    /// I/O command sets.
    pub const IO: u8 = 0x40;
    /// Admin commands only.
    pub const ADMIN: u8 = 0x80;

    pub closed spec fn view_bits(self) -> u8 {
        self.bits
    }

    /// The flags of `bits` that name a command set; the others are dropped.
    pub fn from_bits_truncate(bits: u8) -> (r: Self)
        ensures
            r.view_bits() == bits & 0xC1,
    {
        Self { bits: bits & 0xC1 }
    }

    /// The flags held.
    pub fn bits(&self) -> (r: u8)
        ensures
            r == self.view_bits(),
    {
        self.bits
    }

    /// Whether every flag of `flags` is held.
    pub fn contains(&self, flags: u8) -> (r: bool)
        ensures
            r == (self.view_bits() & flags == flags),
    {
        self.bits & flags == flags
    }

    /// Whether any command set is named.
    pub open spec fn names_a_set(self) -> bool {
        self.view_bits() & Self::ADMIN == Self::ADMIN || self.view_bits() & Self::IO == Self::IO
            || self.view_bits() & Self::NVM == Self::NVM
    }

    /// The command set to configure: admin-only where supported, else the
    /// I/O command sets, else the NVM command set.
    pub open spec fn spec_command_set(self) -> CommandSet {
        if self.view_bits() & Self::ADMIN == Self::ADMIN {
            CommandSet::Admin
        } else if self.view_bits() & Self::IO == Self::IO {
            CommandSet::IO
        } else {
            CommandSet::NVM
        }
    }

    /// The command set to configure, by preference admin-only, then the
    /// I/O command sets, then the NVM command set. A value that names none
    /// is not a valid CAP.CSS.
    pub fn into_command_set(self) -> (r: CommandSet)
        requires
            self.names_a_set(),
        ensures
            r == self.spec_command_set(),
    {
        if self.contains(Self::ADMIN) {
            CommandSet::Admin
        } else if self.contains(Self::IO) {
            CommandSet::IO
        } else {
            CommandSet::NVM
        }
    }
}

/// The controller capabilities register (CAP).
#[derive(Debug, Clone, Copy, PartialEq, Eq, Structural)]
pub struct Capabilities {
    value: u64,
}

impl Capabilities {
    pub closed spec fn view_bits(self) -> u64 {
        self.value
    }

    /// The register holding `value`.
    pub fn new(value: u64) -> (r: Self)
        ensures
            r.view_bits() == value,
    {
        Self { value }
    }

    /// Maximum queue entries supported, less one (bits 0..16).
    pub fn get_mqes(&self) -> (r: u64)
        ensures
            r == u64_bits(self.view_bits(), 0, 16),
    {
        u64_get_bits(self.value, 0, 16)
    }

    /// Whether queues must be physically contiguous (bit 16).
    pub fn get_cqr(&self) -> (r: bool)
        ensures
            r == u64_bit(self.view_bits(), 16),
    {
        u64_get_bit(self.value, 16)
    }

    /// Arbitration mechanisms supported (bits 17..19).
    pub fn get_ams(&self) -> (r: u64)
        ensures
            r == u64_bits(self.view_bits(), 17, 19),
    {
        u64_get_bits(self.value, 17, 19)
    }

    /// Worst-case time to become ready, in 500 ms units (bits 24..32).
    pub fn get_to(&self) -> (r: u64)
        ensures
            r == u64_bits(self.view_bits(), 24, 32),
    {
        u64_get_bits(self.value, 24, 32)
    }

    /// Doorbell stride, as a power of two over four bytes (bits 32..36).
    pub fn get_dstrd(&self) -> (r: u64)
        ensures
            r == u64_bits(self.view_bits(), 32, 36),
    {
        u64_get_bits(self.value, 32, 36)
    }

    /// Whether NVM subsystem resets are supported (bit 36).
    pub fn get_nssrs(&self) -> (r: bool)
        ensures
            r == u64_bit(self.view_bits(), 36),
    {
        u64_get_bit(self.value, 36)
    }

    /// The command sets supported (bits 37..45).
    pub fn get_css(&self) -> (r: CommandSetsSupported)
        ensures
            r.view_bits() == (u64_bits(self.view_bits(), 37, 45) as u8) & 0xC1,
    {
        let bits = u64_get_bits(self.value, 37, 45);
        CommandSetsSupported::from_bits_truncate(bits as u8)
    }

    /// Whether boot partitions are supported (bit 45).
    pub fn get_bps(&self) -> (r: bool)
        ensures
            r == u64_bit(self.view_bits(), 45),
    {
        u64_get_bit(self.value, 45)
    }

    /// The controller power scope (bits 46..48).
    pub fn get_cps(&self) -> (r: ControllerPowerScope)
        ensures
            r == ControllerPowerScope::spec_from_bits(u64_bits(self.view_bits(), 46, 48)),
    {
        let bits = u64_get_bits(self.value, 46, 48);
        if bits == 0 {
            ControllerPowerScope::NotReported
        } else if bits == 1 {
            ControllerPowerScope::ControllerScope
        } else if bits == 2 {
            ControllerPowerScope::DomainScope
        } else {
            ControllerPowerScope::NVMSubsystemScope
        }
    }

    /// Minimum memory page size, as a power of two over 4 KiB (bits 48..52).
    pub fn get_mpsmin(&self) -> (r: u64)
        ensures
            r == u64_bits(self.view_bits(), 48, 52),
    {
        u64_get_bits(self.value, 48, 52)
    }

    /// Maximum memory page size, as a power of two over 4 KiB (bits 52..56).
    pub fn get_mpsmax(&self) -> (r: u64)
        ensures
            r == u64_bits(self.view_bits(), 52, 56),
    {
        u64_get_bits(self.value, 52, 56)
    }

    /// Whether a persistent memory region is supported (bit 56).
    pub fn get_pmrs(&self) -> (r: bool)
        ensures
            r == u64_bit(self.view_bits(), 56),
    {
        u64_get_bit(self.value, 56)
    }

    /// Whether a controller memory buffer is supported (bit 57).
    pub fn get_cmbs(&self) -> (r: bool)
        ensures
            r == u64_bit(self.view_bits(), 57),
    {
        u64_get_bit(self.value, 57)
    }

    /// Whether NVM subsystem shutdown is supported (bit 58).
    pub fn get_nsss(&self) -> (r: bool)
        ensures
            r == u64_bit(self.view_bits(), 58),
    {
        u64_get_bit(self.value, 58)
    }

    /// Whether controller ready with media is supported (bit 59).
    pub fn get_crwms(&self) -> (r: bool)
        ensures
            r == u64_bit(self.view_bits(), 59),
    {
        u64_get_bit(self.value, 59)
    }

    /// Whether controller ready independent of media is supported (bit 60).
    pub fn get_crims(&self) -> (r: bool)
        ensures
            r == u64_bit(self.view_bits(), 60),
    {
        u64_get_bit(self.value, 60)
    }
}

/// The version register (VS).
#[derive(Debug, Clone, Copy, PartialEq, Eq, Structural)]
pub struct Version(u32);

impl Version {
    pub closed spec fn view_bits(self) -> u32 {
        self.0
    }

    /// The register holding `value`.
    pub fn new(value: u32) -> (r: Self)
        ensures
            r.view_bits() == value,
    {
        Version(value)
    }

    /// The major version (bits 16..32).
    pub fn major(&self) -> (r: u16)
        ensures
            r == u32_bits(self.view_bits(), 16, 32),
    {
        let bits = u32_get_bits(self.0, 16, 32);
        proof {
            lemma_u32_bits_fit(self.0, 16, 32);
            lemma_u32_masks();
        }
        bits as u16
    }

    /// The minor version (bits 8..16).
    pub fn minor(&self) -> (r: u8)
        ensures
            r == u32_bits(self.view_bits(), 8, 16),
    {
        let bits = u32_get_bits(self.0, 8, 16);
        proof {
            lemma_u32_bits_fit(self.0, 8, 16);
            lemma_u32_masks();
        }
        bits as u8
    }

    /// The tertiary version (bits 0..8).
    pub fn tertiary(&self) -> (r: u8)
        ensures
            r == u32_bits(self.view_bits(), 0, 8),
    {
        let bits = u32_get_bits(self.0, 0, 8);
        proof {
            lemma_u32_bits_fit(self.0, 0, 8);
            lemma_u32_masks();
        }
        bits as u8
    }
}

/// The I/O command set selected (CC.CSS).
#[derive(Debug, Clone, Copy, PartialEq, Eq, Structural)]
pub enum CommandSet {
    NVM,
    IO,
    Admin,
}

impl CommandSet {
    /// The field value of the command set.
    pub open spec fn spec_bits(self) -> u32 {
        match self {
            CommandSet::NVM => 0b000,
            CommandSet::IO => 0b110,
            CommandSet::Admin => 0b111,
        }
    }

    /// The command set a CC.CSS field value selects, where it is one.
    pub open spec fn spec_from_bits(bits: u32) -> Option<CommandSet> {
        if bits == 0b000 {
            Some(CommandSet::NVM)
        } else if bits == 0b110 {
            Some(CommandSet::IO)
        } else if bits == 0b111 {
            Some(CommandSet::Admin)
        } else {
            None
        }
    }

    /// The field value of the command set.
    pub fn as_u32(self) -> (r: u32)
        ensures
            r == self.spec_bits(),
    {
        match self {
            CommandSet::NVM => 0b000,
            CommandSet::IO => 0b110,
            CommandSet::Admin => 0b111,
        }
    }
}

/// The arbitration mechanism selected (CC.AMS).
#[derive(Debug, Clone, Copy, PartialEq, Eq, Structural)]
pub enum ArbitrationMechanism {
    RoundRobin,
    WeightedRoundRobinWithUrgenPriorityClass,
    VendorSpecific,
}

impl ArbitrationMechanism {
    /// The field value of the mechanism.
    pub open spec fn spec_bits(self) -> u32 {
        match self {
            ArbitrationMechanism::RoundRobin => 0b000,
            ArbitrationMechanism::WeightedRoundRobinWithUrgenPriorityClass => 0b001,
            ArbitrationMechanism::VendorSpecific => 0b111,
        }
    }

    /// The mechanism a CC.AMS field value selects, where it is one.
    pub open spec fn spec_from_bits(bits: u32) -> Option<ArbitrationMechanism> {
        if bits == 0b000 {
            Some(ArbitrationMechanism::RoundRobin)
        } else if bits == 0b001 {
            Some(ArbitrationMechanism::WeightedRoundRobinWithUrgenPriorityClass)
        } else if bits == 0b111 {
            Some(ArbitrationMechanism::VendorSpecific)
        } else {
            None
        }
    }

    /// The field value of the mechanism.
    pub fn as_u32(self) -> (r: u32)
        ensures
            r == self.spec_bits(),
    {
        match self {
            ArbitrationMechanism::RoundRobin => 0b000,
            ArbitrationMechanism::WeightedRoundRobinWithUrgenPriorityClass => 0b001,
            ArbitrationMechanism::VendorSpecific => 0b111,
        }
    }
}

/// The shutdown notification requested (CC.SHN).
#[derive(Debug, Clone, Copy, PartialEq, Eq, Structural)]
pub enum ShutdownNotification {
    NoNotification,
    Normal,
    Abrupt,
}

impl ShutdownNotification {
    /// The field value of the notification.
    pub open spec fn spec_bits(self) -> u32 {
        match self {
            ShutdownNotification::NoNotification => 0b00,
            ShutdownNotification::Normal => 0b01,
            ShutdownNotification::Abrupt => 0b10,
        }
    }

    /// The notification a CC.SHN field value requests, where it is one.
    pub open spec fn spec_from_bits(bits: u32) -> Option<ShutdownNotification> {
        if bits == 0b00 {
            Some(ShutdownNotification::NoNotification)
        } else if bits == 0b01 {
            Some(ShutdownNotification::Normal)
        } else if bits == 0b10 {
            Some(ShutdownNotification::Abrupt)
        } else {
            None
        }
    }

    /// The field value of the notification.
    pub fn as_u32(self) -> (r: u32)
        ensures
            r == self.spec_bits(),
    {
        match self {
            ShutdownNotification::NoNotification => 0b00,
            ShutdownNotification::Normal => 0b01,
            ShutdownNotification::Abrupt => 0b10,
        }
    }
}

/// The controller configuration register (CC).
#[derive(Debug, Clone, Copy, PartialEq, Eq, Structural)]
pub struct ControllerConfiguration {
    value: u32,
}

impl ControllerConfiguration {
    pub closed spec fn view_bits(self) -> u32 {
        self.value
    }

    /// The register holding `value`.
    pub fn new(value: u32) -> (r: Self)
        ensures
            r.view_bits() == value,
    {
        Self { value }
    }

    /// The register's value.
    pub fn value(&self) -> (r: u32)
        ensures
            r == self.view_bits(),
    {
        self.value
    }

    /// Whether the controller is enabled (bit 0).
    pub fn get_en(&self) -> (r: bool)
        ensures
            r == u32_bit(self.view_bits(), 0),
    {
        u32_get_bit(self.value, 0)
    }

    /// Enables or disables the controller (bit 0).
    pub fn set_en(&mut self, enabled: bool)
        ensures
            final(self).view_bits() == u32_with_bit(old(self).view_bits(), 0, enabled),
    {
        self.value = u32_set_bit(self.value, 0, enabled);
    }

    /// The I/O command set selected (bits 4..7); a reserved value is not a
    /// valid configuration.
    pub fn get_css(&self) -> (r: CommandSet)
        requires
            CommandSet::spec_from_bits(u32_bits(self.view_bits(), 4, 7)) is Some,
        ensures
            Some(r) == CommandSet::spec_from_bits(u32_bits(self.view_bits(), 4, 7)),
    {
        let bits = u32_get_bits(self.value, 4, 7);
        if bits == 0b000 {
            CommandSet::NVM
        } else if bits == 0b110 {
            CommandSet::IO
        } else {
            CommandSet::Admin
        }
    }

    /// Selects the I/O command set (bits 4..7).
    pub fn set_css(&mut self, command_set: CommandSet)
        ensures
            final(self).view_bits() == u32_with_bits(
                old(self).view_bits(),
                4,
                7,
                command_set.spec_bits(),
            ),
    {
        proof {
            lemma_u32_masks();
        }
        self.value = u32_set_bits(self.value, 4, 7, command_set.as_u32());
    }

    /// The memory page size, as a power of two over 4 KiB (bits 7..11).
    pub fn get_mps(&self) -> (r: u32)
        ensures
            r == u32_bits(self.view_bits(), 7, 11),
    {
        u32_get_bits(self.value, 7, 11)
    }

    /// Sets the memory page size (bits 7..11). The size must fit in four
    /// bits, and may only be set while the controller is disabled.
    pub fn set_mps(&mut self, mps: u32)
        requires
            mps < 0b10000,
            !u32_bit(old(self).view_bits(), 0),
        ensures
            final(self).view_bits() == u32_with_bits(old(self).view_bits(), 7, 11, mps),
    {
        proof {
            lemma_u32_masks();
        }
        self.value = u32_set_bits(self.value, 7, 11, mps);
    }

    /// The arbitration mechanism selected (bits 11..14); a reserved value is
    /// not a valid configuration.
    pub fn get_ams(&self) -> (r: ArbitrationMechanism)
        requires
            ArbitrationMechanism::spec_from_bits(u32_bits(self.view_bits(), 11, 14)) is Some,
        ensures
            Some(r) == ArbitrationMechanism::spec_from_bits(u32_bits(self.view_bits(), 11, 14)),
    {
        let bits = u32_get_bits(self.value, 11, 14);
        if bits == 0b000 {
            ArbitrationMechanism::RoundRobin
        } else if bits == 0b001 {
            ArbitrationMechanism::WeightedRoundRobinWithUrgenPriorityClass
        } else {
            ArbitrationMechanism::VendorSpecific
        }
    }

    /// Selects the arbitration mechanism (bits 11..14).
    pub fn set_ams(&mut self, ams: ArbitrationMechanism)
        ensures
            final(self).view_bits() == u32_with_bits(old(self).view_bits(), 11, 14, ams.spec_bits()),
    {
        proof {
            lemma_u32_masks();
        }
        self.value = u32_set_bits(self.value, 11, 14, ams.as_u32());
    }

    /// The shutdown notification requested (bits 14..16); a reserved value
    /// is not a valid configuration.
    pub fn get_shn(&self) -> (r: ShutdownNotification)
        requires
            ShutdownNotification::spec_from_bits(u32_bits(self.view_bits(), 14, 16)) is Some,
        ensures
            Some(r) == ShutdownNotification::spec_from_bits(u32_bits(self.view_bits(), 14, 16)),
    {
        let bits = u32_get_bits(self.value, 14, 16);
        if bits == 0b00 {
            ShutdownNotification::NoNotification
        } else if bits == 0b01 {
            ShutdownNotification::Normal
        } else {
            ShutdownNotification::Abrupt
        }
    }

    /// Requests a shutdown notification (bits 14..16).
    pub fn set_shn(&mut self, shn: ShutdownNotification)
        ensures
            final(self).view_bits() == u32_with_bits(old(self).view_bits(), 14, 16, shn.spec_bits()),
    {
        proof {
            lemma_u32_masks();
        }
        self.value = u32_set_bits(self.value, 14, 16, shn.as_u32());
    }

    /// The I/O submission queue entry size, as a power of two (bits 16..20).
    pub fn get_iosqes(&self) -> (r: u32)
        ensures
            r == u32_bits(self.view_bits(), 16, 20),
    {
        u32_get_bits(self.value, 16, 20)
    }

    /// Sets the I/O submission queue entry size (bits 16..20); it must fit
    /// in four bits.
    pub fn set_iosqes(&mut self, iosqes: u32)
        requires
            iosqes < 0b10000,
        ensures
            final(self).view_bits() == u32_with_bits(old(self).view_bits(), 16, 20, iosqes),
    {
        proof {
            lemma_u32_masks();
        }
        self.value = u32_set_bits(self.value, 16, 20, iosqes);
    }

    /// The I/O completion queue entry size, as a power of two (bits 20..24).
    pub fn get_iocqes(&self) -> (r: u32)
        ensures
            r == u32_bits(self.view_bits(), 20, 24),
    {
        u32_get_bits(self.value, 20, 24)
    }

    /// Sets the I/O completion queue entry size (bits 20..24); it must fit
    /// in four bits.
    pub fn set_iocqes(&mut self, iocqes: u32)
        requires
            iocqes < 0b10000,
        ensures
            final(self).view_bits() == u32_with_bits(old(self).view_bits(), 20, 24, iocqes),
    {
        proof {
            lemma_u32_masks();
        }
        self.value = u32_set_bits(self.value, 20, 24, iocqes);
    }
}

/// The shutdown progress the controller reports (CSTS.SHST).
#[derive(Debug, Clone, Copy, PartialEq, Eq, Structural)]
pub enum ShutdownStatus {
    Normal,
    Occurring,
    Complete,
}

impl ShutdownStatus {
    /// The status a CSTS.SHST field value reports, where it is one.
    pub open spec fn spec_from_bits(bits: u32) -> Option<ShutdownStatus> {
        if bits == 0b00 {
            Some(ShutdownStatus::Normal)
        } else if bits == 0b01 {
            Some(ShutdownStatus::Occurring)
        } else if bits == 0b10 {
            Some(ShutdownStatus::Complete)
        } else {
            None
        }
    }
}

/// The controller status register (CSTS).
#[derive(Debug, Clone, Copy, PartialEq, Eq, Structural)]
pub struct ControllerStatus {
    value: u32,
}

impl ControllerStatus {
    pub closed spec fn view_bits(self) -> u32 {
        self.value
    }

    /// The register holding `value`.
    pub fn new(value: u32) -> (r: Self)
        ensures
            r.view_bits() == value,
    {
        Self { value }
    }

    /// Whether the controller is ready (bit 0).
    pub fn get_rdy(&self) -> (r: bool)
        ensures
            r == u32_bit(self.view_bits(), 0),
    {
        u32_get_bit(self.value, 0)
    }

    /// Whether the controller reports a fatal status (bit 1).
    pub fn get_cfs(&self) -> (r: bool)
        ensures
            r == u32_bit(self.view_bits(), 1),
    {
        u32_get_bit(self.value, 1)
    }

    /// The shutdown status (bits 2..4); a reserved value is not a valid
    /// status.
    pub fn get_shst(&self) -> (r: ShutdownStatus)
        requires
            ShutdownStatus::spec_from_bits(u32_bits(self.view_bits(), 2, 4)) is Some,
        ensures
            Some(r) == ShutdownStatus::spec_from_bits(u32_bits(self.view_bits(), 2, 4)),
    {
        let bits = u32_get_bits(self.value, 2, 4);
        if bits == 0b00 {
            ShutdownStatus::Normal
        } else if bits == 0b01 {
            ShutdownStatus::Occurring
        } else {
            ShutdownStatus::Complete
        }
    }

    /// Whether an NVM subsystem reset occurred (bit 4).
    pub fn get_nssro(&self) -> (r: bool)
        ensures
            r == u32_bit(self.view_bits(), 4),
    {
        u32_get_bit(self.value, 4)
    }

    /// Whether processing is paused (bit 5).
    pub fn get_pp(&self) -> (r: bool)
        ensures
            r == u32_bit(self.view_bits(), 5),
    {
        u32_get_bit(self.value, 5)
    }

    /// The shutdown type (bit 6).
    pub fn get_st(&self) -> (r: bool)
        ensures
            r == u32_bit(self.view_bits(), 6),
    {
        u32_get_bit(self.value, 6)
    }
}

/// The interrupt mask set (INTMS) and clear (INTMC) registers.
#[derive(Debug, Clone, Copy, PartialEq, Eq, Structural)]
pub struct InterruptMask {
    set: u32,
    clear: u32,
}

impl InterruptMask {
    pub closed spec fn spec_set(self) -> u32 {
        self.set
    }

    pub closed spec fn spec_clear(self) -> u32 {
        self.clear
    }

    /// The registers holding `set` and `clear`.
    pub fn new(set: u32, clear: u32) -> (r: Self)
        ensures
            r.spec_set() == set,
            r.spec_clear() == clear,
    {
        Self { set, clear }
    }

    /// The value of the mask set register.
    pub fn set_value(&self) -> (r: u32)
        ensures
            r == self.spec_set(),
    {
        self.set
    }

    /// The value of the mask clear register.
    pub fn clear_value(&self) -> (r: u32)
        ensures
            r == self.spec_clear(),
    {
        self.clear
    }

    /// Masks interrupt vector `index`, one of the 32 the register covers.
    pub fn mask_vector(&mut self, index: usize)
        requires
            index < 32,
        ensures
            final(self).spec_set() == u32_with_bit(old(self).spec_set(), index as u32, true),
            final(self).spec_clear() == old(self).spec_clear(),
    {
        self.set = u32_set_bit(self.set, index, true);
    }

    /// Unmasks interrupt vector `index`, one of the 32 the register covers.
    pub fn unmask_vector(&mut self, index: usize)
        requires
            index < 32,
        ensures
            final(self).spec_clear() == u32_with_bit(old(self).spec_clear(), index as u32, true),
            final(self).spec_set() == old(self).spec_set(),
    {
        self.clear = u32_set_bit(self.clear, index, true);
    }
}

/// Why enabling or disabling the controller did not finish.
#[derive(Debug, Clone, Copy, PartialEq, Eq, Structural)]
pub enum ControllerEnableError {
    /// The controller reported a fatal status.
    FatalStatus,
    /// The controller did not reach the requested state in time.
    NoReady,
}

/// The next step of waiting for the controller to reach an enable state.
#[derive(Debug, Clone, Copy)]
pub enum EnableWait {
    /// Sleep for [`ENABLE_WAIT_INTERVAL`] milliseconds and read the status
    /// again.
    Sleep,
    /// Stop waiting, with this outcome.
    Finished(Result<(), ControllerEnableError>),
}

/// How long, in milliseconds, to sleep between two reads of the status.
pub const ENABLE_WAIT_INTERVAL: u64 = 100;

/// The byte offsets of the controller's registers.
pub const CAP: u64 = 0x0;
pub const VER: u64 = 0x8;
pub const INTMS: u64 = 0xC;
pub const INTMC: u64 = 0x10;
pub const CC: u64 = 0x14;
pub const CSTS: u64 = 0x1C;
pub const AQA: u64 = 0x24;
pub const ASQ: u64 = 0x28;
pub const ACQ: u64 = 0x30;

/// The admin queue attributes (AQA): completion queue size in the high
/// half, submission queue size in the low half.
pub open spec fn spec_admin_queue_attributes(sub_entry_count: u16, com_entry_count: u16) -> u32 {
    ((com_entry_count as u32) << 16u32) | (sub_entry_count as u32)
}

/// The longest wait, in milliseconds, for the controller to change state:
/// CAP.TO in 500 ms units.
pub open spec fn spec_max_enable_wait(capabilities: Capabilities) -> u64 {
    (u64_bits(capabilities.view_bits(), 24, 32) * 500) as u64
}

/// The controller configuration the driver writes before enabling: the
/// supported command set, round-robin arbitration, 4 KiB pages, 64-byte
/// submission entries and 16-byte completion entries.
pub open spec fn spec_configured(capabilities: Capabilities, config: u32) -> u32 {
    let css = u32_with_bits(
        config,
        4,
        7,
        CommandSetsSupported::from_bits_spec(
            capabilities,
        ).spec_command_set().spec_bits(),
    );
    let ams = u32_with_bits(css, 11, 14, ArbitrationMechanism::RoundRobin.spec_bits());
    let mps = u32_with_bits(ams, 7, 11, 0);
    let iosqes = u32_with_bits(mps, 16, 20, 6);
    u32_with_bits(iosqes, 20, 24, 4)
}

impl CommandSetsSupported {
    /// The command sets a capabilities register reports.
    pub closed spec fn from_bits_spec(capabilities: Capabilities) -> CommandSetsSupported {
        CommandSetsSupported { bits: (u64_bits(capabilities.view_bits(), 37, 45) as u8) & 0xC1 }
    }
}

/// A command submitted to the controller whose completion is awaited.
#[derive(Debug, Clone, Copy, PartialEq, Eq, Structural)]
pub enum PendingCommand {
    /// An Identify command, whose data lands in the buffer given.
    Identify { command_id: u16 },
    /// Any other command.
    Generic { command_id: u16 },
}

/// An NVMe controller's admin queues and the commands awaiting completion,
/// each with what its completion is reported to.
pub struct Controller<S> {
    next_sub_queue_id: u16,
    next_com_queue_id: u16,
    admin_sub: Queue<Submission>,
    admin_com: Queue<Completion>,
    pending_cmds: BTreeMap<u16, S>,
}

/// Whether some identifier below `u16::MAX` is free.
pub open spec fn has_free_command_id<S>(pending: Map<u16, S>) -> bool {
    exists|id: u16| id < u16::MAX && !pending.contains_key(id)
}

impl<S> Controller<S> {
    /// Which identifiers are held by pending commands, and by what.
    pub closed spec fn pending(&self) -> Map<u16, S> {
        self.pending_cmds@
    }

    /// The identifier the next I/O submission queue is created under.
    pub closed spec fn next_submission_queue_id(&self) -> u16 {
        self.next_sub_queue_id
    }

    /// The identifier the next I/O completion queue is created under.
    pub closed spec fn next_completion_queue_id(&self) -> u16 {
        self.next_com_queue_id
    }

    pub closed spec fn admin_submission(&self) -> Queue<Submission> {
        self.admin_sub
    }

    pub closed spec fn admin_completion(&self) -> Queue<Completion> {
        self.admin_com
    }

    /// Both admin queues are well formed.
    pub open spec fn wf(&self) -> bool {
        &&& self.admin_submission().wf()
        &&& self.admin_completion().wf()
    }

    /// Sets up the controller's admin queues of the given sizes, with the
    /// doorbell stride the capabilities report, and nothing pending. The
    /// platform writes the queues' addresses, the admin queue attributes and
    /// the configuration this returns, around resetting and enabling the
    /// controller. With an empty admin queue the controller is built but
    /// cannot take commands.
    pub fn from_device_and_configure(
        capabilities: &Capabilities,
        config: ControllerConfiguration,
        sub_entry_count: u16,
        com_entry_count: u16,
    ) -> (r: (Self, u32, ControllerConfiguration))
        requires
            CommandSetsSupported::from_bits_spec(*capabilities).names_a_set(),
            !u32_bit(config.view_bits(), 0),
        ensures
            sub_entry_count > 0 && com_entry_count > 0 ==> r.0.wf(),
            r.0.pending() == Map::<u16, S>::empty(),
            r.0.next_submission_queue_id() == 1,
            r.0.next_completion_queue_id() == 1,
            r.0.admin_submission().spec_entry_count() == sub_entry_count,
            r.0.admin_submission().spec_index() == 0,
            r.0.admin_submission().spec_doorbell_offset() == queue::spec_doorbell_offset(
                0,
                0,
                u64_bits(capabilities.view_bits(), 32, 36),
            ),
            r.0.admin_completion().spec_entry_count() == com_entry_count,
            r.0.admin_completion().spec_index() == 0,
            r.0.admin_completion().spec_phase_tag(),
            r.0.admin_completion().spec_doorbell_offset() == queue::spec_doorbell_offset(
                0,
                1,
                u64_bits(capabilities.view_bits(), 32, 36),
            ),
            r.1 == spec_admin_queue_attributes(sub_entry_count, com_entry_count),
            r.2.view_bits() == spec_configured(*capabilities, config.view_bits()),
    {
        let dstrd = capabilities.get_dstrd();
        proof {
            lemma_u64_bits_fit(capabilities.view_bits(), 32, 36);
            lemma_u64_masks();
        }
        let admin_sub = Queue::<Submission>::new(0, sub_entry_count, dstrd);
        let admin_com = Queue::<Completion>::new(0, com_entry_count, dstrd);
        let aqa = ((com_entry_count as u32) << 16u32) | (sub_entry_count as u32);
        let mut cc = config;
        cc.set_css(capabilities.get_css().into_command_set());
        cc.set_ams(ArbitrationMechanism::RoundRobin);
        proof {
            lemma_u32_masks();
            lemma_u32_bit_range_disjoint(
                u32_with_bits(
                    config.view_bits(),
                    4,
                    7,
                    CommandSetsSupported::from_bits_spec(
                        *capabilities,
                    ).spec_command_set().spec_bits(),
                ),
                0,
                false,
                11,
                14,
                0,
            );
            lemma_u32_bit_range_disjoint(
                config.view_bits(),
                0,
                false,
                4,
                7,
                CommandSetsSupported::from_bits_spec(*capabilities).spec_command_set().spec_bits(),
            );
        }
        cc.set_mps(0);
        cc.set_iosqes(6);
        cc.set_iocqes(4);
        let controller = Self {
            next_sub_queue_id: 1,
            next_com_queue_id: 1,
            admin_sub,
            admin_com,
            pending_cmds: BTreeMap::new(),
        };
        (controller, aqa, cc)
    }

    /// The smallest command identifier, below `u16::MAX`, that no pending
    /// command holds. Where every identifier below `u16::MAX` is held there
    /// is none, and no command can be submitted.
    pub fn next_command_id(pending_cmds: &BTreeMap<u16, S>) -> (r: u16)
        requires
            has_free_command_id(pending_cmds@),
        ensures
            r < u16::MAX,
            !pending_cmds@.contains_key(r),
            forall|other: u16| other < r ==> pending_cmds@.contains_key(other),
    {
        broadcast use vstd::std_specs::btree::group_btree_axioms;
        let mut id: u16 = 0;
        while id < u16::MAX
            invariant
                has_free_command_id(pending_cmds@),
                forall|other: u16| other < id ==> pending_cmds@.contains_key(other),
            decreases u16::MAX - id,
        {
            if !pending_cmds.contains_key(&id) {
                return id;
            }
            id = id + 1;
        }
        proof {
            let free = choose|free: u16| free < u16::MAX && !pending_cmds@.contains_key(free);
            assert(pending_cmds@.contains_key(free));
        }
        id
    }

    /// Whether a command with this identifier awaits completion.
    pub fn is_pending(&self, command_id: u16) -> (r: bool)
        ensures
            r == self.pending().contains_key(command_id),
    {
        broadcast use vstd::std_specs::btree::group_btree_axioms;
        self.pending_cmds.contains_key(&command_id)
    }

    /// Submits an admin command under the smallest free identifier: the
    /// command is built with its data pointer at `data_address`, written to
    /// the admin submission queue, and `completion` is held until the
    /// controller completes it.
    pub fn submit_admin_command(&mut self, command: AdminCommand, data_address: u64, completion: S) -> (r: (
        PendingCommand,
        Command,
    ))
        requires
            old(self).wf(),
            has_free_command_id(old(self).pending()),
        ensures
            final(self).wf(),
            ({
                let id = match r.0 {
                    PendingCommand::Identify { command_id } => command_id,
                    PendingCommand::Generic { command_id } => command_id,
                };
                &&& id < u16::MAX
                &&& !old(self).pending().contains_key(id)
                &&& forall|other: u16| other < id ==> old(self).pending().contains_key(other)
                &&& final(self).pending() == old(self).pending().insert(id, completion)
                &&& r.0 == (PendingCommand::Identify { command_id: id })
                &&& r.1 == command::spec_identify_command(command, id, data_address)
                &&& old(self).admin_submission().spec_submitted(final(self).admin_submission(), r.1)
                &&& final(self).admin_completion() == old(self).admin_completion()
            }),
            final(self).next_submission_queue_id() == old(self).next_submission_queue_id(),
            final(self).next_completion_queue_id() == old(self).next_completion_queue_id(),
    {
        broadcast use vstd::std_specs::btree::group_btree_axioms;
        let command_id = Self::next_command_id(&self.pending_cmds);
        let opcode = command.get_opcode();
        match command {
            AdminCommand::Identify { ctrl_id } => {
                let submitted = Command {
                    opcode,
                    fuse_psdt: (command::PSDT_PRP << 6u8) | command::FUSE_NORMAL,
                    command_id,
                    ns_id: 0,
                    cdw2: 0,
                    cdw3: 0,
                    mdata_ptr: 0,
                    data_ptr: DataPointer::new_prp(data_address, None),
                    cdw10: ((ctrl_id as u32) << 16u32) | 0b1,
                    cdw11: 0,
                    cdw12: 0,
                    cdw13: 0,
                    cdw14: 0,
                    cdw15: 0,
                };
                self.pending_cmds.insert(command_id, completion);
                self.admin_sub.submit_command(submitted);
                (PendingCommand::Identify { command_id }, submitted)
            },
        }
    }

    /// Takes the next completion from the admin completion queue, given the
    /// entry that stands at the queue's current slot: when the entry's phase
    /// tag shows it is new, the queue moves on, the command it completes
    /// leaves the pending commands, and what its completion is reported to
    /// comes back with whether it succeeded and the doorbell value to write.
    /// A new entry must complete a pending command.
    pub fn run_step(&mut self, entry: CommandResult) -> (r: Option<(S, bool, u32)>)
        requires
            old(self).wf(),
            entry.spec_phase_tag() != old(self).admin_completion().spec_phase_tag()
                ==> old(self).pending().contains_key(entry.command_id),
        ensures
            final(self).wf(),
            final(self).admin_submission() == old(self).admin_submission(),
            final(self).next_submission_queue_id() == old(self).next_submission_queue_id(),
            final(self).next_completion_queue_id() == old(self).next_completion_queue_id(),
            entry.spec_phase_tag() == old(self).admin_completion().spec_phase_tag() ==> {
                &&& r is None
                &&& final(self).pending() == old(self).pending()
                &&& final(self).admin_completion() == old(self).admin_completion()
            },
            entry.spec_phase_tag() != old(self).admin_completion().spec_phase_tag() ==> {
                &&& r == Some(
                    (
                        old(self).pending()[entry.command_id],
                        entry.spec_successful(),
                        old(self).admin_completion().spec_index() as u32,
                    ),
                )
                &&& final(self).pending() == old(self).pending().remove(entry.command_id)
                &&& old(self).admin_completion().spec_advanced(final(self).admin_completion())
            },
    {
        broadcast use vstd::std_specs::btree::group_btree_axioms;
        match self.admin_com.next_cmd_result(entry) {
            Some((result, doorbell)) => {
                let completion = self.pending_cmds.remove(&result.command_id);
                match completion {
                    Some(completion) => Some((completion, result.is_successful(), doorbell)),
                    None => None,
                }
            },
            None => None,
        }
    }
}

/// The admin queue attributes (AQA) for admin queues of the given sizes.
pub fn admin_queue_attributes(sub_entry_count: u16, com_entry_count: u16) -> (r: u32)
    ensures
        r == spec_admin_queue_attributes(sub_entry_count, com_entry_count),
{
    ((com_entry_count as u32) << 16u32) | (sub_entry_count as u32)
}

/// The longest wait, in milliseconds, for the controller to change state.
pub fn max_enable_wait(capabilities: &Capabilities) -> (r: u64)
    ensures
        r == spec_max_enable_wait(*capabilities),
{
    let to = capabilities.get_to();
    proof {
        lemma_u64_bits_fit(capabilities.view_bits(), 24, 32);
        lemma_u64_masks();
    }
    to * 500
}

/// The decision taken on each read of the controller status while waiting
/// for it to become ready (`enabled`) or not ready: keep sleeping while it
/// has not reached that state, reports no fatal status and the time waited
/// is below the limit; then a fatal status, a state not reached, or success.
pub fn set_enable_and_wait(
    status: &ControllerStatus,
    enabled: bool,
    msec_waited: u64,
    max_wait: u64,
) -> (r: EnableWait)
    ensures
        r == (if u32_bit(status.view_bits(), 0) != enabled && !u32_bit(status.view_bits(), 1)
            && msec_waited < max_wait {
            EnableWait::Sleep
        } else if u32_bit(status.view_bits(), 1) {
            EnableWait::Finished(Err(ControllerEnableError::FatalStatus))
        } else if u32_bit(status.view_bits(), 0) != enabled {
            EnableWait::Finished(Err(ControllerEnableError::NoReady))
        } else {
            EnableWait::Finished(Ok(()))
        }),
{
    let ready = status.get_rdy();
    let fatal = status.get_cfs();
    if ready != enabled && !fatal && msec_waited < max_wait {
        EnableWait::Sleep
    } else if fatal {
        EnableWait::Finished(Err(ControllerEnableError::FatalStatus))
    } else if ready != enabled {
        EnableWait::Finished(Err(ControllerEnableError::NoReady))
    } else {
        EnableWait::Finished(Ok(()))
    }
}


/// The configuration written before enabling keeps the enable bit and the
/// shutdown notification, and holds the supported command set, round-robin
/// arbitration, 4 KiB pages, 64-byte submission entries and 16-byte
/// completion entries.
pub proof fn lemma_configured_fields(capabilities: Capabilities, config: u32)
    ensures
        u32_bit(spec_configured(capabilities, config), 0) == u32_bit(config, 0),
        u32_bits(spec_configured(capabilities, config), 4, 7)
            == CommandSetsSupported::from_bits_spec(capabilities).spec_command_set().spec_bits(),
        u32_bits(spec_configured(capabilities, config), 7, 11) == 0,
        u32_bits(spec_configured(capabilities, config), 11, 14) == 0,
        u32_bits(spec_configured(capabilities, config), 14, 16) == u32_bits(config, 14, 16),
        u32_bits(spec_configured(capabilities, config), 16, 20) == 6,
        u32_bits(spec_configured(capabilities, config), 20, 24) == 4,
{
    lemma_u32_masks();
    let css = CommandSetsSupported::from_bits_spec(capabilities).spec_command_set().spec_bits();
    let x1 = u32_with_bits(config, 4, 7, css);
    let x2 = u32_with_bits(x1, 11, 14, 0);
    let x3 = u32_with_bits(x2, 7, 11, 0);
    let x4 = u32_with_bits(x3, 16, 20, 6);
    // The enable bit.
    lemma_u32_bit_range_disjoint(config, 0, false, 4, 7, css);
    lemma_u32_bit_range_disjoint(x1, 0, false, 11, 14, 0);
    lemma_u32_bit_range_disjoint(x2, 0, false, 7, 11, 0);
    lemma_u32_bit_range_disjoint(x3, 0, false, 16, 20, 6);
    lemma_u32_bit_range_disjoint(x4, 0, false, 20, 24, 4);
    // The command set.
    lemma_u32_bits_of_with_bits(config, 4, 7, css, 4, 7);
    lemma_u32_bits_of_with_bits(x1, 11, 14, 0, 4, 7);
    lemma_u32_bits_of_with_bits(x2, 7, 11, 0, 4, 7);
    lemma_u32_bits_of_with_bits(x3, 16, 20, 6, 4, 7);
    lemma_u32_bits_of_with_bits(x4, 20, 24, 4, 4, 7);
    // The page size.
    lemma_u32_bits_of_with_bits(x2, 7, 11, 0, 7, 11);
    lemma_u32_bits_of_with_bits(x3, 16, 20, 6, 7, 11);
    lemma_u32_bits_of_with_bits(x4, 20, 24, 4, 7, 11);
    // The arbitration mechanism.
    lemma_u32_bits_of_with_bits(x1, 11, 14, 0, 11, 14);
    lemma_u32_bits_of_with_bits(x2, 7, 11, 0, 11, 14);
    lemma_u32_bits_of_with_bits(x3, 16, 20, 6, 11, 14);
    lemma_u32_bits_of_with_bits(x4, 20, 24, 4, 11, 14);
    // The shutdown notification.
    lemma_u32_bits_of_with_bits(config, 4, 7, css, 14, 16);
    lemma_u32_bits_of_with_bits(x1, 11, 14, 0, 14, 16);
    lemma_u32_bits_of_with_bits(x2, 7, 11, 0, 14, 16);
    lemma_u32_bits_of_with_bits(x3, 16, 20, 6, 14, 16);
    lemma_u32_bits_of_with_bits(x4, 20, 24, 4, 14, 16);
    // The entry sizes.
    lemma_u32_bits_of_with_bits(x3, 16, 20, 6, 16, 20);
    lemma_u32_bits_of_with_bits(x4, 20, 24, 4, 16, 20);
    lemma_u32_bits_of_with_bits(x4, 20, 24, 4, 20, 24);
}

/// A command submitted under a free identifier and then completed hands
/// back what its completion is reported to, and leaves the pending
/// commands as they were before the submission.
pub proof fn lemma_submit_then_complete<S>(pending: Map<u16, S>, command_id: u16, completion: S)
    requires
        !pending.contains_key(command_id),
    ensures
        pending.insert(command_id, completion).contains_key(command_id),
        pending.insert(command_id, completion)[command_id] == completion,
        pending.insert(command_id, completion).remove(command_id) == pending,
{
    assert(pending.insert(command_id, completion).remove(command_id) =~= pending);
}

} // verus!
