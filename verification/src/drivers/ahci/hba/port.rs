//! An AHCI port: its registers, what is attached to it, and the steps of
//! issuing a read.
use super::command::{Command, PRDTEntry};
use crate::bitfield::{
    u16_with_bit, u32_bit, u32_bits, u32_get_bit, u32_get_bits, u32_set_bit, u32_with_bit,
    u32_with_bits,
};
use vstd::prelude::*;

verus! {

/// The port command and status register (PxCMD).
#[derive(Debug, Clone, Copy, PartialEq, Eq, Structural)]
pub struct CommandStatus {
    bits: u32,
}

impl CommandStatus {
    pub closed spec fn view_bits(self) -> u32 {
        self.bits
    }

    /// The register holding `bits`.
    pub fn new(bits: u32) -> (r: Self)
        ensures
            r.view_bits() == bits,
    {
        Self { bits }
    }

    /// The register's value.
    pub fn bits(&self) -> (r: u32)
        ensures
            r == self.view_bits(),
    {
        self.bits
    }

    /// Whether the port processes its command list (ST, bit 0).
    pub fn get_st(&self) -> (r: bool)
        ensures
            r == u32_bit(self.view_bits(), 0),
    {
        u32_get_bit(self.bits, 0)
    }

    /// Starts or stops processing the command list (ST, bit 0).
    pub fn set_st(&mut self, set: bool)
        ensures
            final(self).view_bits() == u32_with_bit(old(self).view_bits(), 0, set),
    {
        self.bits = u32_set_bit(self.bits, 0, set);
    }

    /// Whether the device is powered on (POD, bit 2).
    pub fn get_pod(&self) -> (r: bool)
        ensures
            r == u32_bit(self.view_bits(), 2),
    {
        u32_get_bit(self.bits, 2)
    }

    /// Powers the device on or off (POD, bit 2). The bit is only writable
    /// where cold presence detection is supported; otherwise nothing
    /// changes and `Err` is returned.
    pub fn set_pod(&mut self, set: bool) -> (r: Result<(), ()>)
        ensures
            u32_bit(old(self).view_bits(), 20) ==> r is Ok && final(self).view_bits()
                == u32_with_bit(old(self).view_bits(), 2, set),
            !u32_bit(old(self).view_bits(), 20) ==> r is Err && final(self).view_bits()
                == old(self).view_bits(),
    {
        if self.get_cpd() {
            self.bits = u32_set_bit(self.bits, 2, set);
            Ok(())
        } else {
            Err(())
        }
    }

    /// Whether a command list override is requested (CLO, bit 3).
    pub fn get_clo(&self) -> (r: bool)
        ensures
            r == u32_bit(self.view_bits(), 3),
    {
        u32_get_bit(self.bits, 3)
    }

    /// Whether the port receives FISes (FRE, bit 4).
    pub fn get_fre(&self) -> (r: bool)
        ensures
            r == u32_bit(self.view_bits(), 4),
    {
        u32_get_bit(self.bits, 4)
    }

    /// Enables or disables receiving FISes (FRE, bit 4).
    pub fn set_fre(&mut self, set: bool)
        ensures
            final(self).view_bits() == u32_with_bit(old(self).view_bits(), 4, set),
    {
        self.bits = u32_set_bit(self.bits, 4, set);
    }

    /// The command slot being issued (CCS, bits 8..13).
    pub fn get_ccs(&self) -> (r: u32)
        ensures
            r == u32_bits(self.view_bits(), 8, 13),
    {
        u32_get_bits(self.bits, 8, 13)
    }

    /// Whether the FIS receive engine runs (FR, bit 14).
    pub fn get_fr(&self) -> (r: bool)
        ensures
            r == u32_bit(self.view_bits(), 14),
    {
        u32_get_bit(self.bits, 14)
    }

    /// Whether the command list engine runs (CR, bit 15).
    pub fn get_cr(&self) -> (r: bool)
        ensures
            r == u32_bit(self.view_bits(), 15),
    {
        u32_get_bit(self.bits, 15)
    }

    /// Whether cold presence detection is supported (CPD, bit 20).
    pub fn get_cpd(&self) -> (r: bool)
        ensures
            r == u32_bit(self.view_bits(), 20),
    {
        u32_get_bit(self.bits, 20)
    }

    /// Whether the device is an ATAPI device (bit 24).
    pub fn get_atapi(&self) -> (r: bool)
        ensures
            r == u32_bit(self.view_bits(), 24),
    {
        u32_get_bit(self.bits, 24)
    }

    /// The interface communication control (ICC, bits 28..32).
    pub fn get_icc(&self) -> (r: u32)
        ensures
            r == u32_bits(self.view_bits(), 28, 32),
    {
        u32_get_bits(self.bits, 28, 32)
    }
}

/// The port interrupt status register (PxIS).
#[derive(Debug, Clone, Copy, PartialEq, Eq, Structural)]
pub struct InterruptStatus {
    bits: u32,
}

impl InterruptStatus {
    pub closed spec fn view_bits(self) -> u32 {
        self.bits
    }

    /// The register holding `bits`.
    pub fn new(bits: u32) -> (r: Self)
        ensures
            r.view_bits() == bits,
    {
        Self { bits }
    }

    /// The register's value.
    pub fn bits(&self) -> (r: u32)
        ensures
            r == self.view_bits(),
    {
        self.bits
    }

    /// Whether a device-to-host register FIS arrived (DHRS, bit 0).
    pub fn get_dhrs(&self) -> (r: bool)
        ensures
            r == u32_bit(self.view_bits(), 0),
    {
        u32_get_bit(self.bits, 0)
    }

    /// Whether a PIO setup FIS arrived (PSS, bit 1).
    pub fn get_pss(&self) -> (r: bool)
        ensures
            r == u32_bit(self.view_bits(), 1),
    {
        u32_get_bit(self.bits, 1)
    }

    /// Whether a DMA setup FIS arrived (DSS, bit 2).
    pub fn get_dss(&self) -> (r: bool)
        ensures
            r == u32_bit(self.view_bits(), 2),
    {
        u32_get_bit(self.bits, 2)
    }

    /// Whether the device reported a task file error (TFES, bit 30).
    pub fn get_tfes(&self) -> (r: bool)
        ensures
            r == u32_bit(self.view_bits(), 30),
    {
        u32_get_bit(self.bits, 30)
    }

    /// Whether cold port detection changed (CPDS, bit 31).
    pub fn get_cpds(&self) -> (r: bool)
        ensures
            r == u32_bit(self.view_bits(), 31),
    {
        u32_get_bit(self.bits, 31)
    }

    /// Clears every status bit.
    pub fn clear(&mut self)
        ensures
            final(self).view_bits() == 0,
    {
        self.bits = 0;
    }
}

/// The interface power state (SSTS.IPM).
#[derive(Debug, Clone, Copy, PartialEq, Eq, Structural)]
pub enum InterfacePowerManagement {
    NonCommunicate,
    Active,
    Partial,
    Slumber,
    DevSleep,
}

impl InterfacePowerManagement {
    /// The state a field value reports, where it is one.
    pub open spec fn spec_from_bits(bits: u32) -> Option<InterfacePowerManagement> {
        if bits == 0 {
            Some(InterfacePowerManagement::NonCommunicate)
        } else if bits == 1 {
            Some(InterfacePowerManagement::Active)
        } else if bits == 2 {
            Some(InterfacePowerManagement::Partial)
        } else if bits == 6 {
            Some(InterfacePowerManagement::Slumber)
        } else if bits == 8 {
            Some(InterfacePowerManagement::DevSleep)
        } else {
            None
        }
    }
}

/// The negotiated interface speed (SSTS.SPD).
#[derive(Debug, Clone, Copy, PartialEq, Eq, Structural)]
pub enum InterfaceSpeed {
    NonCommunicate,
    Gen1,
    Gen2,
    Gen3,
}

impl InterfaceSpeed {
    /// The speed a field value reports, where it is one.
    pub open spec fn spec_from_bits(bits: u32) -> Option<InterfaceSpeed> {
        if bits == 0 {
            Some(InterfaceSpeed::NonCommunicate)
        } else if bits == 1 {
            Some(InterfaceSpeed::Gen1)
        } else if bits == 2 {
            Some(InterfaceSpeed::Gen2)
        } else if bits == 3 {
            Some(InterfaceSpeed::Gen3)
        } else {
            None
        }
    }
}

/// What is detected on the port (SSTS.DET).
#[derive(Debug, Clone, Copy, PartialEq, Eq, Structural)]
pub enum DeviceDetection {
    NonCommunicate,
    DetectedNoPhy,
    DetectedAndPhy,
    PhyOffline,
}

impl DeviceDetection {
    /// The detection state a field value reports, where it is one.
    pub open spec fn spec_from_bits(bits: u32) -> Option<DeviceDetection> {
        if bits == 0 {
            Some(DeviceDetection::NonCommunicate)
        } else if bits == 1 {
            Some(DeviceDetection::DetectedNoPhy)
        } else if bits == 3 {
            Some(DeviceDetection::DetectedAndPhy)
        } else if bits == 4 {
            Some(DeviceDetection::PhyOffline)
        } else {
            None
        }
    }
}

/// The port SATA status register (PxSSTS).
#[derive(Debug, Clone, Copy, PartialEq, Eq, Structural)]
pub struct SATAStatus {
    status: u32,
}

impl SATAStatus {
    pub closed spec fn view_bits(self) -> u32 {
        self.status
    }

    /// Whether every field holds a defined value.
    pub open spec fn spec_valid(self) -> bool {
        &&& InterfacePowerManagement::spec_from_bits(u32_bits(self.view_bits(), 8, 12)) is Some
        &&& InterfaceSpeed::spec_from_bits(u32_bits(self.view_bits(), 4, 8)) is Some
        &&& DeviceDetection::spec_from_bits(u32_bits(self.view_bits(), 0, 4)) is Some
    }

    /// The register holding `status`.
    pub fn new(status: u32) -> (r: Self)
        ensures
            r.view_bits() == status,
    {
        Self { status }
    }

    /// The interface power state (bits 8..12), which must be a defined one.
    pub fn interface_pwm(&self) -> (r: InterfacePowerManagement)
        requires
            InterfacePowerManagement::spec_from_bits(u32_bits(self.view_bits(), 8, 12)) is Some,
        ensures
            Some(r) == InterfacePowerManagement::spec_from_bits(u32_bits(self.view_bits(), 8, 12)),
    {
        let bits = u32_get_bits(self.status, 8, 12);
        if bits == 0 {
            InterfacePowerManagement::NonCommunicate
        } else if bits == 1 {
            InterfacePowerManagement::Active
        } else if bits == 2 {
            InterfacePowerManagement::Partial
        } else if bits == 6 {
            InterfacePowerManagement::Slumber
        } else {
            InterfacePowerManagement::DevSleep
        }
    }

    /// The interface speed (bits 4..8), which must be a defined one.
    pub fn interface_speed(&self) -> (r: InterfaceSpeed)
        requires
            InterfaceSpeed::spec_from_bits(u32_bits(self.view_bits(), 4, 8)) is Some,
        ensures
            Some(r) == InterfaceSpeed::spec_from_bits(u32_bits(self.view_bits(), 4, 8)),
    {
        let bits = u32_get_bits(self.status, 4, 8);
        if bits == 0 {
            InterfaceSpeed::NonCommunicate
        } else if bits == 1 {
            InterfaceSpeed::Gen1
        } else if bits == 2 {
            InterfaceSpeed::Gen2
        } else {
            InterfaceSpeed::Gen3
        }
    }

    /// The device detection state (bits 0..4), which must be a defined one.
    pub fn device_detection(&self) -> (r: DeviceDetection)
        requires
            DeviceDetection::spec_from_bits(u32_bits(self.view_bits(), 0, 4)) is Some,
        ensures
            Some(r) == DeviceDetection::spec_from_bits(u32_bits(self.view_bits(), 0, 4)),
    {
        let bits = u32_get_bits(self.status, 0, 4);
        if bits == 0 {
            DeviceDetection::NonCommunicate
        } else if bits == 1 {
            DeviceDetection::DetectedNoPhy
        } else if bits == 3 {
            DeviceDetection::DetectedAndPhy
        } else {
            DeviceDetection::PhyOffline
        }
    }
}

/// What a port's signature says is attached.
#[derive(Debug, Clone, Copy, PartialEq, Eq, Structural)]
pub enum Class {
    /// Nothing usable is attached.
    NoDevice,
    SATA,
    SEMB,
    PM,
    SATAPI,
}

impl Class {
    /// The class a signature register value names, where it names one.
    pub open spec fn spec_from_signature(signature: u32) -> Option<Class> {
        if signature == 0x0 {
            Some(Class::NoDevice)
        } else if signature == 0x0000_0101 {
            Some(Class::SATA)
        } else if signature == 0xC33C_0101 {
            Some(Class::SEMB)
        } else if signature == 0x9669_0101 {
            Some(Class::PM)
        } else if signature == 0xEB14_0101 {
            Some(Class::SATAPI)
        } else {
            None
        }
    }

    /// The class a signature register value names, where it names one.
    pub fn from_signature(signature: u32) -> (r: Option<Class>)
        ensures
            r == Class::spec_from_signature(signature),
    {
        if signature == 0x0 {
            Some(Class::NoDevice)
        } else if signature == 0x0000_0101 {
            Some(Class::SATA)
        } else if signature == 0xC33C_0101 {
            Some(Class::SEMB)
        } else if signature == 0x9669_0101 {
            Some(Class::PM)
        } else if signature == 0xEB14_0101 {
            Some(Class::SATAPI)
        } else {
            None
        }
    }
}

/// The device-busy bit of the task file status.
pub const ATA_DEV_BUSY: u8 = 0x80;

/// The data-request bit of the task file status.
pub const ATA_DEV_DRQ: u8 = 0x08;

/// How many times the task file is polled before a read gives up.
pub const MAX_SPIN: u64 = 1000000;

/// The registers of a port that the driver reads and writes, and the
/// addresses of its command list and received-FIS area.
#[derive(Debug, Clone, Copy, PartialEq, Eq, Structural)]
pub struct Port {
    pub cmd_list: u64,
    pub fis_addr: u64,
    pub interrupt_status: InterruptStatus,
    pub command_status: CommandStatus,
    pub task_file_data: u32,
    pub signature: u32,
    pub sata_status: SATAStatus,
    pub command_issue: u32,
}

/// The step after one poll of the task file before a read.
#[derive(Debug, Clone, Copy, PartialEq, Eq, Structural)]
pub enum ReadWait {
    /// The device is busy: poll again.
    Spin,
    /// The device is ready for the command.
    Ready,
    /// The device stayed busy for [`MAX_SPIN`] polls: the read fails.
    GiveUp,
}

/// The step after one poll of a read that was issued.
#[derive(Debug, Clone, Copy, PartialEq, Eq, Structural)]
pub enum ReadProgress {
    /// The command is still issued.
    Pending,
    /// The command finished; the buffer holds the data.
    Complete,
    /// The device reported a task file error while the command was issued.
    Failed,
}

/// Where a read stands.
#[derive(Debug, Clone, Copy, PartialEq, Eq, Structural)]
pub enum ReadPhase {
    /// Waiting for the device; `spin` polls so far found it busy.
    Waiting { spin: u64 },
    /// The read was prepared in slot 0 and issued.
    Issued,
    /// The read finished; the buffer holds the sectors.
    Complete,
    /// The device stayed busy for [`MAX_SPIN`] polls.
    Busy,
    /// The device reported a task file error.
    TaskFileError,
}

/// Where the configuration of a port stands.
#[derive(Debug, Clone, Copy, PartialEq, Eq, Structural)]
pub enum ConfigurePhase {
    /// Nothing done yet.
    Begin,
    /// The engines were told to stop; waiting for both to report stopped.
    Stopping,
    /// The new command list and received-FIS area are in place; waiting for
    /// the command list engine to report stopped before starting.
    Starting,
    /// The port runs on its new command list.
    Configured,
}

impl Port {
    /// What is attached: where a device is detected with its physical
    /// layer up and the interface active, the class its signature names;
    /// otherwise nothing.
    pub open spec fn spec_class(self) -> Class {
        let status = self.sata_status.view_bits();
        if u32_bits(status, 0, 4) == 3 && u32_bits(status, 8, 12) == 1 {
            Class::spec_from_signature(self.signature)->0
        } else {
            Class::NoDevice
        }
    }

    /// What is attached. The status fields must hold defined values, and
    /// where a device is up its signature must name a class.
    pub fn class(&self) -> (r: Class)
        requires
            self.sata_status.spec_valid(),
            u32_bits(self.sata_status.view_bits(), 0, 4) == 3 && u32_bits(
                self.sata_status.view_bits(),
                8,
                12,
            ) == 1 ==> Class::spec_from_signature(self.signature) is Some,
        ensures
            r == self.spec_class(),
    {
        if self.sata_status().device_detection() == DeviceDetection::DetectedAndPhy
            && self.sata_status().interface_pwm() == InterfacePowerManagement::Active {
            match Class::from_signature(self.signature) {
                Some(class) => class,
                None => Class::NoDevice,
            }
        } else {
            Class::NoDevice
        }
    }

    /// The SATA status register.
    pub fn sata_status(&self) -> (r: &SATAStatus)
        ensures
            *r == self.sata_status,
    {
        &self.sata_status
    }

    /// The command and status register.
    pub fn command_status(&self) -> (r: &CommandStatus)
        ensures
            *r == self.command_status,
    {
        &self.command_status
    }

    /// The task file data register.
    pub fn task_file_data(&self) -> (r: u32)
        ensures
            r == self.task_file_data,
    {
        self.task_file_data
    }

    /// The interrupt status register.
    pub fn interrupt_status(&self) -> (r: &InterruptStatus)
        ensures
            *r == self.interrupt_status,
    {
        &self.interrupt_status
    }

    /// The command issue register.
    pub fn command_issue(&self) -> (r: u32)
        ensures
            r == self.command_issue,
    {
        self.command_issue
    }

    /// The command list's address.
    pub fn command_list(&self) -> (r: u64)
        ensures
            r == self.cmd_list,
    {
        self.cmd_list
    }

    /// The port after its command issue register read `command_issue`.
    pub fn refresh_command_issue(&mut self, command_issue: u32)
        ensures
            *final(self) == (Port { command_issue, ..*old(self) }),
    {
        self.command_issue = command_issue;
    }

    /// Issues command slot `cmd_index`, one of the 32 the register covers;
    /// the port must be processing its command list.
    pub fn issue_command_slot(&mut self, cmd_index: usize)
        requires
            cmd_index < 32,
            u32_bit(old(self).command_status.view_bits(), 0),
        ensures
            *final(self) == (Port {
                command_issue: u32_with_bit(old(self).command_issue, cmd_index as u32, true),
                ..*old(self)
            }),
    {
        self.command_issue = u32_set_bit(self.command_issue, cmd_index, true);
    }

    /// Whether command slot `cmd_index`, one of the 32 the register covers,
    /// is still issued.
    pub fn check_command_slot(&self, cmd_index: usize) -> (r: bool)
        requires
            cmd_index < 32,
        ensures
            r == u32_bit(self.command_issue, cmd_index as u32),
    {
        u32_get_bit(self.command_issue, cmd_index)
    }

    /// Starts the port once its command list engine has stopped: enables
    /// receiving FISes, then processing the command list.
    pub fn start_cmd(&mut self)
        requires
            !u32_bit(old(self).command_status.view_bits(), 15),
        ensures
            final(self).command_status.view_bits() == u32_with_bit(
                u32_with_bit(old(self).command_status.view_bits(), 4, true),
                0,
                true,
            ),
            *final(self) == (Port { command_status: final(self).command_status, ..*old(self) }),
    {
        self.command_status.set_fre(true);
        self.command_status.set_st(true);
    }

    /// Stops the port: stops processing the command list, then receiving
    /// FISes. The platform then waits until both engines report stopped.
    pub fn stop_cmd(&mut self)
        ensures
            final(self).command_status.view_bits() == u32_with_bit(
                u32_with_bit(old(self).command_status.view_bits(), 0, false),
                4,
                false,
            ),
            *final(self) == (Port { command_status: final(self).command_status, ..*old(self) }),
    {
        self.command_status.set_st(false);
        self.command_status.set_fre(false);
    }

    /// Whether both engines report stopped: neither FR nor CR is set.
    pub open spec fn spec_engines_stopped(self) -> bool {
        !u32_bit(self.command_status.view_bits(), 14) && !u32_bit(
            self.command_status.view_bits(),
            15,
        )
    }

    /// One step of configuring the port, on the registers as last read:
    /// from `Begin` the engines are told to stop; while stopping, once FR
    /// and CR both read clear, the port is pointed at its new, zeroed
    /// command list `cmd_list` and received-FIS area `fis_addr`; while
    /// starting, once CR reads clear, FIS receiving and then command list
    /// processing are enabled. A step that waits changes nothing.
    pub fn configure(&mut self, phase: ConfigurePhase, cmd_list: u64, fis_addr: u64) -> (r:
        ConfigurePhase)
        ensures
            phase == ConfigurePhase::Begin ==> {
                &&& r == ConfigurePhase::Stopping
                &&& final(self).command_status.view_bits() == u32_with_bit(
                    u32_with_bit(old(self).command_status.view_bits(), 0, false),
                    4,
                    false,
                )
                &&& *final(self) == (Port { command_status: final(self).command_status, ..*old(self) })
            },
            phase == ConfigurePhase::Stopping ==> if old(self).spec_engines_stopped() {
                &&& r == ConfigurePhase::Starting
                &&& *final(self) == (Port { cmd_list, fis_addr, ..*old(self) })
            } else {
                &&& r == ConfigurePhase::Stopping
                &&& *final(self) == *old(self)
            },
            phase == ConfigurePhase::Starting ==> if !u32_bit(
                old(self).command_status.view_bits(),
                15,
            ) {
                &&& r == ConfigurePhase::Configured
                &&& final(self).command_status.view_bits() == u32_with_bit(
                    u32_with_bit(old(self).command_status.view_bits(), 4, true),
                    0,
                    true,
                )
                &&& *final(self) == (Port { command_status: final(self).command_status, ..*old(self) })
            } else {
                &&& r == ConfigurePhase::Starting
                &&& *final(self) == *old(self)
            },
            phase == ConfigurePhase::Configured ==> r == ConfigurePhase::Configured && *final(self)
                == *old(self),
    {
        match phase {
            ConfigurePhase::Begin => {
                self.stop_cmd();
                ConfigurePhase::Stopping
            },
            ConfigurePhase::Stopping => {
                if self.command_status.get_fr() || self.command_status.get_cr() {
                    ConfigurePhase::Stopping
                } else {
                    self.cmd_list = cmd_list;
                    self.fis_addr = fis_addr;
                    ConfigurePhase::Starting
                }
            },
            ConfigurePhase::Starting => {
                if self.command_status.get_cr() {
                    ConfigurePhase::Starting
                } else {
                    self.start_cmd();
                    ConfigurePhase::Configured
                }
            },
            ConfigurePhase::Configured => ConfigurePhase::Configured,
        }
    }

    /// Whether the task file shows the device busy or requesting data.
    pub open spec fn spec_busy(task_file_data: u32) -> bool {
        task_file_data & ((ATA_DEV_BUSY | ATA_DEV_DRQ) as u32) > 0
    }

    /// One poll of the task file before a read, after `spin` polls that
    /// found the device busy: once [`MAX_SPIN`] polls have, the read gives
    /// up; otherwise spin while the device is busy.
    pub fn read_wait_step(&self, spin: u64) -> (r: ReadWait)
        ensures
            r == (if spin >= MAX_SPIN {
                ReadWait::GiveUp
            } else if Self::spec_busy(self.task_file_data) {
                ReadWait::Spin
            } else {
                ReadWait::Ready
            }),
    {
        if spin >= MAX_SPIN {
            ReadWait::GiveUp
        } else if self.task_file_data & ((ATA_DEV_BUSY | ATA_DEV_DRQ) as u32) > 0 {
            ReadWait::Spin
        } else {
            ReadWait::Ready
        }
    }

    /// Prepares slot 0 for reading `sector_count` sectors into the buffer at
    /// `buffer_address`: clears the interrupt status, resets the command
    /// header for a FIS of `fis_size` bytes with one descriptor entry in the
    /// table at `table_address`, marks it a read, and points the entry at
    /// the buffer with the sectors' byte count.
    pub fn prepare_read(
        &mut self,
        command: &mut Command,
        prdt_entry: &mut PRDTEntry,
        sector_count: u16,
        fis_size: u64,
        table_address: u64,
        buffer_address: u64,
    )
        requires
            1 <= sector_count <= 8192,
            fis_size / 4 < 32,
        ensures
            final(self).interrupt_status.view_bits() == 0,
            *final(self) == (Port { interrupt_status: final(self).interrupt_status, ..*old(self) }),
            final(command).spec_bits() == u16_with_bit((fis_size / 4) as u16, 6, false),
            final(command).spec_prdt_len() == 1,
            final(command).spec_prdb_count() == 0,
            final(command).spec_command_table_address() == table_address,
            final(prdt_entry).spec_db_addr_lower() == buffer_address as u32,
            final(prdt_entry).spec_db_addr_upper() == (buffer_address >> 32u64) as u32,
            final(prdt_entry).spec_bits() == u32_with_bits(
                old(prdt_entry).spec_bits(),
                0,
                22,
                (sector_count * 512 - 1) as u32,
            ),
    {
        self.interrupt_status.clear();
        command.reset(1, fis_size, table_address);
        command.set_write(false);
        prdt_entry.set_db_addr(buffer_address);
        prdt_entry.set_sector_count(sector_count as u32);
    }

    /// The length in bytes of the buffer a read of `sector_count` sectors
    /// fills.
    pub fn read_buffer_len(sector_count: u16) -> (r: u64)
        ensures
            r == sector_count * 512,
    {
        (sector_count as u64) * 512
    }

    /// Issues the prepared read in slot 0.
    pub fn issue_read(&mut self)
        requires
            u32_bit(old(self).command_status.view_bits(), 0),
        ensures
            *final(self) == (Port {
                command_issue: u32_with_bit(old(self).command_issue, 0, true),
                ..*old(self)
            }),
    {
        self.issue_command_slot(0);
    }

    /// One poll of an issued read: done once slot 0 is no longer issued.
    /// While it is, a task file error fails the read.
    pub fn read_step(&self) -> (r: ReadProgress)
        ensures
            r == (if !u32_bit(self.command_issue, 0) {
                ReadProgress::Complete
            } else if u32_bit(self.interrupt_status.view_bits(), 30) {
                ReadProgress::Failed
            } else {
                ReadProgress::Pending
            }),
    {
        if self.check_command_slot(0) {
            if self.interrupt_status.get_tfes() {
                ReadProgress::Failed
            } else {
                ReadProgress::Pending
            }
        } else {
            ReadProgress::Complete
        }
    }

    /// One step of reading `sector_count` sectors into the buffer at
    /// `buffer_address`, on the registers as last read. While waiting, the
    /// task file is polled: after [`MAX_SPIN`] polls that found the device
    /// busy the read ends `Busy`; once it is not busy, slot 0 is prepared
    /// (see [`Port::prepare_read`], with the command FIS of `fis_size`
    /// bytes and the command table at `table_address`) and issued. Once
    /// issued, the read ends `Complete` when slot 0 is no longer issued, and
    /// `TaskFileError` when the device reports an error before that. A step
    /// that waits, and one on an ended read, changes nothing.
    pub fn read(
        &mut self,
        phase: ReadPhase,
        command: &mut Command,
        prdt_entry: &mut PRDTEntry,
        sector_count: u16,
        fis_size: u64,
        table_address: u64,
        buffer_address: u64,
    ) -> (r: ReadPhase)
        requires
            1 <= sector_count <= 8192,
            fis_size / 4 < 32,
            phase is Waiting ==> u32_bit(old(self).command_status.view_bits(), 0),
        ensures
            phase is Waiting && phase->spin >= MAX_SPIN ==> r == ReadPhase::Busy && *final(self)
                == *old(self) && *final(command) == *old(command) && *final(prdt_entry)
                == *old(prdt_entry),
            phase is Waiting && phase->spin < MAX_SPIN && Self::spec_busy(old(self).task_file_data)
                ==> r == (ReadPhase::Waiting { spin: (phase->spin + 1) as u64 }) && *final(self)
                == *old(self) && *final(command) == *old(command) && *final(prdt_entry)
                == *old(prdt_entry),
            phase is Waiting && phase->spin < MAX_SPIN && !Self::spec_busy(
                old(self).task_file_data,
            ) ==> {
                &&& r == ReadPhase::Issued
                &&& final(self).interrupt_status.view_bits() == 0
                &&& *final(self) == (Port {
                    interrupt_status: final(self).interrupt_status,
                    command_issue: u32_with_bit(old(self).command_issue, 0, true),
                    ..*old(self)
                })
                &&& final(command).spec_bits() == u16_with_bit((fis_size / 4) as u16, 6, false)
                &&& final(command).spec_prdt_len() == 1
                &&& final(command).spec_prdb_count() == 0
                &&& final(command).spec_command_table_address() == table_address
                &&& final(prdt_entry).spec_db_addr_lower() == buffer_address as u32
                &&& final(prdt_entry).spec_db_addr_upper() == (buffer_address >> 32u64) as u32
                &&& final(prdt_entry).spec_bits() == u32_with_bits(
                    old(prdt_entry).spec_bits(),
                    0,
                    22,
                    (sector_count * 512 - 1) as u32,
                )
            },
            phase == ReadPhase::Issued ==> r == (if !u32_bit(old(self).command_issue, 0) {
                ReadPhase::Complete
            } else if u32_bit(old(self).interrupt_status.view_bits(), 30) {
                ReadPhase::TaskFileError
            } else {
                ReadPhase::Issued
            }) && *final(self) == *old(self) && *final(command) == *old(command)
                && *final(prdt_entry) == *old(prdt_entry),
            !(phase is Waiting) && phase != ReadPhase::Issued ==> r == phase && *final(self)
                == *old(self) && *final(command) == *old(command) && *final(prdt_entry)
                == *old(prdt_entry),
    {
        match phase {
            ReadPhase::Waiting { spin } => match self.read_wait_step(spin) {
                ReadWait::GiveUp => ReadPhase::Busy,
                ReadWait::Spin => ReadPhase::Waiting { spin: spin + 1 },
                ReadWait::Ready => {
                    self.prepare_read(
                        command,
                        prdt_entry,
                        sector_count,
                        fis_size,
                        table_address,
                        buffer_address,
                    );
                    self.issue_read();
                    ReadPhase::Issued
                },
            },
            ReadPhase::Issued => match self.read_step() {
                ReadProgress::Complete => ReadPhase::Complete,
                ReadProgress::Failed => ReadPhase::TaskFileError,
                ReadProgress::Pending => ReadPhase::Issued,
            },
            _ => phase,
        }
    }
}

} // verus!
