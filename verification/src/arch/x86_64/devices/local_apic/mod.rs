//! The local APIC, in either of its two interfaces: the memory-mapped
//! xAPIC interface or the x2APIC model-specific registers.
//!
//! [`LocalApic`] models the controller's 32-bit registers as values and
//! records each register write that its operations make, in order, as a
//! memory or model-specific register write for the platform to carry out.
use crate::bitfield::{
    lemma_u32_bit_of_with_bit, lemma_u32_bits_fit, lemma_u32_masks, u32_bit, u32_bits, u32_get_bit, u32_get_bits, u32_set_bit,
    u32_set_bits, u32_with_bit, u32_with_bits,
};
use vstd::prelude::*;

verus! {

/// Microseconds per second.
pub const US_PER_SEC: u64 = 1000000;

/// Microseconds waited when measuring a frequency.
pub const US_WAIT: u64 = 10000;

/// Factor from a count over [`US_WAIT`] to a count per second.
pub const US_FREQ_FACTOR: u64 = 100;

/// The local APIC registers, by x2APIC model-specific register address.
#[derive(Debug, Clone, Copy, PartialEq, Eq, Structural)]
pub enum Register {
    ID,
    VERSION,
    TASK_PRIORITY,
    PROCESSOR_PRIORITY,
    END_OF_INTERRUPT,
    LOCAL_DESTINATION,
    SPURIOUS_VECTOR,
    ERROR_STATUS,
    LVT_CMCI,
    LVT_TIMER,
    LVT_THERMAL_MONITOR,
    LVT_PERFORMANCE_COUNTER,
    LVT_LINT0,
    LVT_LINT1,
    LVT_ERROR,
    TIMER_INITIAL_COUNT,
    TIMER_CURRENT_COUNT,
    TIMER_DIVIDE_CONFIGURATION,
}

/// Number of local APIC registers.
pub const REGISTER_COUNT: usize = 18;

impl Register {
    /// The x2APIC model-specific register address (`u32::from`).
    pub open spec fn spec_address(self) -> u32 {
        match self {
            Register::ID => 0x802,
            Register::VERSION => 0x803,
            Register::TASK_PRIORITY => 0x808,
            Register::PROCESSOR_PRIORITY => 0x80A,
            Register::END_OF_INTERRUPT => 0x80B,
            Register::LOCAL_DESTINATION => 0x80D,
            Register::SPURIOUS_VECTOR => 0x80F,
            Register::ERROR_STATUS => 0x828,
            Register::LVT_CMCI => 0x82F,
            Register::LVT_TIMER => 0x832,
            Register::LVT_THERMAL_MONITOR => 0x833,
            Register::LVT_PERFORMANCE_COUNTER => 0x834,
            Register::LVT_LINT0 => 0x835,
            Register::LVT_LINT1 => 0x836,
            Register::LVT_ERROR => 0x837,
            Register::TIMER_INITIAL_COUNT => 0x838,
            Register::TIMER_CURRENT_COUNT => 0x839,
            Register::TIMER_DIVIDE_CONFIGURATION => 0x83E,
        }
    }

    /// The register's position among the [`REGISTER_COUNT`] registers.
    pub open spec fn spec_slot(self) -> int {
        match self {
            Register::ID => 0,
            Register::VERSION => 1,
            Register::TASK_PRIORITY => 2,
            Register::PROCESSOR_PRIORITY => 3,
            Register::END_OF_INTERRUPT => 4,
            Register::LOCAL_DESTINATION => 5,
            Register::SPURIOUS_VECTOR => 6,
            Register::ERROR_STATUS => 7,
            Register::LVT_CMCI => 8,
            Register::LVT_TIMER => 9,
            Register::LVT_THERMAL_MONITOR => 10,
            Register::LVT_PERFORMANCE_COUNTER => 11,
            Register::LVT_LINT0 => 12,
            Register::LVT_LINT1 => 13,
            Register::LVT_ERROR => 14,
            Register::TIMER_INITIAL_COUNT => 15,
            Register::TIMER_CURRENT_COUNT => 16,
            Register::TIMER_DIVIDE_CONFIGURATION => 17,
        }
    }

    /// Whether the register is a local vector table entry.
    pub open spec fn is_lvt(self) -> bool {
        self == Register::LVT_CMCI
            || self == Register::LVT_TIMER
            || self == Register::LVT_THERMAL_MONITOR
            || self == Register::LVT_PERFORMANCE_COUNTER
            || self == Register::LVT_LINT0
            || self == Register::LVT_LINT1
            || self == Register::LVT_ERROR
    }

    /// Whether software may read the register (defined for the registers
    /// that are not local vector table entries).
    pub open spec fn spec_readable(self) -> bool {
        self == Register::ID
            || self == Register::VERSION
            || self == Register::PROCESSOR_PRIORITY
            || self == Register::TASK_PRIORITY
            || self == Register::LOCAL_DESTINATION
            || self == Register::SPURIOUS_VECTOR
            || self == Register::ERROR_STATUS
            || self == Register::TIMER_INITIAL_COUNT
            || self == Register::TIMER_CURRENT_COUNT
            || self == Register::TIMER_DIVIDE_CONFIGURATION
    }

    /// Whether software may write the register (defined for the registers
    /// that are not local vector table entries).
    pub open spec fn spec_writable(self) -> bool {
        self == Register::TASK_PRIORITY
            || self == Register::END_OF_INTERRUPT
            || self == Register::LOCAL_DESTINATION
            || self == Register::SPURIOUS_VECTOR
            || self == Register::ERROR_STATUS
            || self == Register::TIMER_INITIAL_COUNT
            || self == Register::TIMER_DIVIDE_CONFIGURATION
    }

    /// The x2APIC model-specific register address (`u32::from`).
    pub fn address(self) -> (r: u32)
        ensures
            r == self.spec_address(),
    {
        match self {
            Register::ID => 0x802,
            Register::VERSION => 0x803,
            Register::TASK_PRIORITY => 0x808,
            Register::PROCESSOR_PRIORITY => 0x80A,
            Register::END_OF_INTERRUPT => 0x80B,
            Register::LOCAL_DESTINATION => 0x80D,
            Register::SPURIOUS_VECTOR => 0x80F,
            Register::ERROR_STATUS => 0x828,
            Register::LVT_CMCI => 0x82F,
            Register::LVT_TIMER => 0x832,
            Register::LVT_THERMAL_MONITOR => 0x833,
            Register::LVT_PERFORMANCE_COUNTER => 0x834,
            Register::LVT_LINT0 => 0x835,
            Register::LVT_LINT1 => 0x836,
            Register::LVT_ERROR => 0x837,
            Register::TIMER_INITIAL_COUNT => 0x838,
            Register::TIMER_CURRENT_COUNT => 0x839,
            Register::TIMER_DIVIDE_CONFIGURATION => 0x83E,
        }
    }

    /// The register's position among the [`REGISTER_COUNT`] registers.
    pub fn slot(self) -> (r: usize)
        ensures
            r == self.spec_slot(),
            r < REGISTER_COUNT,
    {
        match self {
            Register::ID => 0,
            Register::VERSION => 1,
            Register::TASK_PRIORITY => 2,
            Register::PROCESSOR_PRIORITY => 3,
            Register::END_OF_INTERRUPT => 4,
            Register::LOCAL_DESTINATION => 5,
            Register::SPURIOUS_VECTOR => 6,
            Register::ERROR_STATUS => 7,
            Register::LVT_CMCI => 8,
            Register::LVT_TIMER => 9,
            Register::LVT_THERMAL_MONITOR => 10,
            Register::LVT_PERFORMANCE_COUNTER => 11,
            Register::LVT_LINT0 => 12,
            Register::LVT_LINT1 => 13,
            Register::LVT_ERROR => 14,
            Register::TIMER_INITIAL_COUNT => 15,
            Register::TIMER_CURRENT_COUNT => 16,
            Register::TIMER_DIVIDE_CONFIGURATION => 17,
        }
    }

    /// Whether software may read the register. Not yet decided for the
    /// local vector table entries, which must not be asked.
    pub fn is_readable(self) -> (r: bool)
        requires
            !self.is_lvt(),
        ensures
            r == self.spec_readable(),
    {
        match self {
            Register::ID => true,
            Register::VERSION => true,
            Register::TASK_PRIORITY => true,
            Register::PROCESSOR_PRIORITY => true,
            Register::END_OF_INTERRUPT => false,
            Register::LOCAL_DESTINATION => true,
            Register::SPURIOUS_VECTOR => true,
            Register::ERROR_STATUS => true,
            Register::TIMER_INITIAL_COUNT => true,
            Register::TIMER_CURRENT_COUNT => true,
            Register::TIMER_DIVIDE_CONFIGURATION => true,
            _ => false,
        }
    }

    /// Whether software may write the register. Not yet decided for the
    /// local vector table entries, which must not be asked.
    pub fn is_writable(self) -> (r: bool)
        requires
            !self.is_lvt(),
        ensures
            r == self.spec_writable(),
    {
        match self {
            Register::ID => false,
            Register::VERSION => false,
            Register::TASK_PRIORITY => true,
            Register::PROCESSOR_PRIORITY => false,
            Register::END_OF_INTERRUPT => true,
            Register::LOCAL_DESTINATION => true,
            Register::SPURIOUS_VECTOR => true,
            Register::ERROR_STATUS => true,
            Register::TIMER_INITIAL_COUNT => true,
            Register::TIMER_CURRENT_COUNT => false,
            Register::TIMER_DIVIDE_CONFIGURATION => true,
            _ => false,
        }
    }
}

/// The error status register's flags (bits 0 to 7; see
/// [`crate::arch::x86_64::devices::x2apic::ErrorStatus`]).
#[derive(Debug, Clone, Copy, PartialEq, Eq, Structural)]
pub struct ErrorStatus(u32);

impl ErrorStatus {
    pub const SEND_CHECKSUM_ERROR: u32 = 0x1;
    pub const RECEIVE_CHECKSUM_ERROR: u32 = 0x2;
    pub const SEND_ACCEPT_ERROR: u32 = 0x4;
    pub const RECEIVE_ACCEPT_ERROR: u32 = 0x8;
    pub const REDIRECTABLE_IPI: u32 = 0x10;
    pub const SENT_ILLEGAL_VECTOR: u32 = 0x20;
    pub const RECEIVED_ILLEGAL_VECTOR: u32 = 0x40;
    pub const ILLEGAL_REGISTER_ADDRESS: u32 = 0x80;

    pub closed spec fn spec_bits(self) -> u32 {
        self.0
    }

    /// The named flags of `bits` (`ErrorStatus::from_bits_truncate`).
    pub fn from_bits_truncate(bits: u32) -> (r: Self)
        ensures
            r.spec_bits() == bits & 0xFF,
    {
        ErrorStatus(bits & 0xFF)
    }

    /// The raw bits.
    pub fn bits(self) -> (r: u32)
        ensures
            r == self.spec_bits(),
    {
        self.0
    }
}

/// The type of interrupt to send to the processor (see
/// [`crate::arch::x86_64::devices::x2apic::InterruptDeliveryMode`]).
#[derive(Debug, Clone, Copy, PartialEq, Eq, Structural)]
pub enum InterruptDeliveryMode {
    Fixed,
    LowPriority,
    SystemManagement,
    NonMaskable,
    Init,
    StartUp,
    External,
}

impl InterruptDeliveryMode {
    /// The three-bit encoding (`u32::from`).
    pub open spec fn spec_bits(self) -> u32 {
        match self {
            InterruptDeliveryMode::Fixed => 0b000,
            InterruptDeliveryMode::LowPriority => 0b001,
            InterruptDeliveryMode::SystemManagement => 0b010,
            InterruptDeliveryMode::NonMaskable => 0b100,
            InterruptDeliveryMode::Init => 0b101,
            InterruptDeliveryMode::StartUp => 0b110,
            InterruptDeliveryMode::External => 0b111,
        }
    }

    /// The three-bit encoding (`u32::from`).
    pub fn as_u32(self) -> (r: u32)
        ensures
            r == self.spec_bits(),
    {
        match self {
            InterruptDeliveryMode::Fixed => 0b000,
            InterruptDeliveryMode::LowPriority => 0b001,
            InterruptDeliveryMode::SystemManagement => 0b010,
            InterruptDeliveryMode::NonMaskable => 0b100,
            InterruptDeliveryMode::Init => 0b101,
            InterruptDeliveryMode::StartUp => 0b110,
            InterruptDeliveryMode::External => 0b111,
        }
    }
}

impl From<InterruptDeliveryMode> for u32 {
    /// The three-bit encoding of the delivery mode.
    fn from(value: InterruptDeliveryMode) -> (r: u32) {
        value.as_u32()
    }
}

impl vstd::std_specs::convert::FromSpecImpl<InterruptDeliveryMode> for u32 {
    open spec fn obeys_from_spec() -> bool {
        true
    }

    open spec fn from_spec(value: InterruptDeliveryMode) -> u32 {
        value.spec_bits()
    }
}

/// The divisor of the local APIC timer's clock.
#[derive(Debug, Clone, Copy, PartialEq, Eq, Structural)]
pub enum TimerDivideConfiguration {
    DivideBy1,
    DivideBy2,
    DivideBy4,
    DivideBy8,
    DivideBy16,
    DivideBy32,
    DivideBy64,
    DivideBy128,
}

/// Whether `value` is the encoding of some divide configuration.
pub open spec fn is_divide_encoding(value: u32) -> bool {
    value == 0b1011 || value == 0b0000 || value == 0b0001 || value == 0b0010 || value == 0b0011
        || value == 0b1000 || value == 0b1001 || value == 0b1010
}

impl TimerDivideConfiguration {
    /// The register encoding (`u32::from`).
    pub open spec fn spec_bits(self) -> u32 {
        match self {
            TimerDivideConfiguration::DivideBy1 => 0b1011,
            TimerDivideConfiguration::DivideBy2 => 0b0000,
            TimerDivideConfiguration::DivideBy4 => 0b0001,
            TimerDivideConfiguration::DivideBy8 => 0b0010,
            TimerDivideConfiguration::DivideBy16 => 0b0011,
            TimerDivideConfiguration::DivideBy32 => 0b1000,
            TimerDivideConfiguration::DivideBy64 => 0b1001,
            TimerDivideConfiguration::DivideBy128 => 0b1010,
        }
    }

    /// The register encoding (`u32::from`).
    pub fn as_u32(self) -> (r: u32)
        ensures
            r == self.spec_bits(),
    {
        match self {
            TimerDivideConfiguration::DivideBy1 => 0b1011,
            TimerDivideConfiguration::DivideBy2 => 0b0000,
            TimerDivideConfiguration::DivideBy4 => 0b0001,
            TimerDivideConfiguration::DivideBy8 => 0b0010,
            TimerDivideConfiguration::DivideBy16 => 0b0011,
            TimerDivideConfiguration::DivideBy32 => 0b1000,
            TimerDivideConfiguration::DivideBy64 => 0b1001,
            TimerDivideConfiguration::DivideBy128 => 0b1010,
        }
    }

    /// The configuration encoded by `value` (`TryFrom<u32>`); `None` for
    /// other values.
    pub fn try_from_u32(value: u32) -> (r: Option<Self>)
        ensures
            is_divide_encoding(value) <==> r is Some,
            r matches Some(c) ==> c.spec_bits() == value,
    {
        if value == 0b1011 {
            Some(TimerDivideConfiguration::DivideBy1)
        } else if value == 0b0000 {
            Some(TimerDivideConfiguration::DivideBy2)
        } else if value == 0b0001 {
            Some(TimerDivideConfiguration::DivideBy4)
        } else if value == 0b0010 {
            Some(TimerDivideConfiguration::DivideBy8)
        } else if value == 0b0011 {
            Some(TimerDivideConfiguration::DivideBy16)
        } else if value == 0b1000 {
            Some(TimerDivideConfiguration::DivideBy32)
        } else if value == 0b1001 {
            Some(TimerDivideConfiguration::DivideBy64)
        } else if value == 0b1010 {
            Some(TimerDivideConfiguration::DivideBy128)
        } else {
            None
        }
    }
}

/// The interface through which the local APIC is programmed.
#[derive(Debug, Clone, Copy, PartialEq, Eq, Structural)]
pub enum Kind {
    /// Memory-mapped registers at the given (virtual) base address.
    xApic(usize),
    /// Model-specific registers.
    x2Apic,
}

/// A register write for the platform to carry out.
#[derive(Debug, Clone, Copy, PartialEq, Eq, Structural)]
pub enum ApicWrite {
    /// A 32-bit write of `value` to the memory at `address`.
    Mmio { address: usize, value: u32 },
    /// A `wrmsr` of `low` (EAX) and `high` (EDX) to the model-specific
    /// register `register`.
    Msr { register: u32, low: u32, high: u32 },
}

/// Offset of the low half of the interrupt command register in the xAPIC
/// memory.
pub const ICR_LOW: usize = 0x300;

/// Offset of the high half of the interrupt command register in the xAPIC
/// memory.
pub const ICR_HIGH: usize = 0x310;

/// Model-specific register address of the x2APIC interrupt command register.
pub const ICR_MSR: u32 = 0x830;

/// The memory address of `register` for an xAPIC at `base_address`: the
/// base plus sixteen times the register's x2APIC address.
pub open spec fn spec_offset_register(base_address: usize, register: Register) -> int {
    base_address + register.spec_address() * 0x10
}

/// The write that [`LocalApic::write_register`] records for `value` to
/// `register` through interface `kind`.
pub open spec fn register_write(kind: Kind, register: Register, value: u32) -> ApicWrite {
    match kind {
        Kind::xApic(base) => ApicWrite::Mmio {
            address: spec_offset_register(base, register) as usize,
            value,
        },
        Kind::x2Apic => ApicWrite::Msr { register: register.spec_address(), low: value, high: 0 },
    }
}

/// The local APIC: its interface, its register values and the writes made so
/// far.
#[derive(Debug)]
pub struct LocalApic {
    kind: Kind,
    registers: [u32; 18],
    writes: Vec<ApicWrite>,
}

impl LocalApic {
    pub closed spec fn spec_kind(&self) -> Kind {
        self.kind
    }

    /// The register values, by [`Register::spec_slot`].
    pub closed spec fn spec_registers(&self) -> Seq<u32> {
        self.registers@
    }

    /// The writes made so far, in order.
    pub closed spec fn spec_writes(&self) -> Seq<ApicWrite> {
        self.writes@
    }

    /// The value of `register`.
    pub open spec fn reg(&self, register: Register) -> u32 {
        self.spec_registers()[register.spec_slot()]
    }

    /// Whether every register's memory address fits into the address space.
    pub open spec fn addresses_fit(&self) -> bool {
        self.spec_kind() matches Kind::xApic(base) ==> base + 0x83E * 0x10 <= usize::MAX
    }

    /// `self` is `old` after writing `value` to `register`.
    pub open spec fn wrote(&self, old: &LocalApic, register: Register, value: u32) -> bool {
        &&& self.spec_kind() == old.spec_kind()
        &&& self.spec_registers() == old.spec_registers().update(register.spec_slot(), value)
        &&& self.spec_writes() == old.spec_writes().push(register_write(old.spec_kind(), register, value))
    }

    /// A local APIC programmed through `kind` whose registers hold
    /// `registers` (by [`Register::slot`]), with no writes made.
    pub fn new(kind: Kind, registers: [u32; 18]) -> (r: Self)
        ensures
            r.spec_kind() == kind,
            r.spec_registers() == registers@,
            r.spec_writes() == Seq::<ApicWrite>::empty(),
    {
        LocalApic { kind, registers, writes: Vec::new() }
    }

    /// The interface of the local APIC as the `IA32_APIC_BASE` value
    /// `apic_base` describes it: x2APIC mode when bit 10 is set, else the
    /// memory-mapped interface at `mapped_base`. The APIC must be enabled
    /// in hardware (bit 11).
    pub fn kind_from_apic_base(apic_base: u64, mapped_base: usize) -> (r: Kind)
        requires
            crate::bitfield::u64_bit(apic_base, 11),
        ensures
            crate::bitfield::u64_bit(apic_base, 10) ==> r == Kind::x2Apic,
            !crate::bitfield::u64_bit(apic_base, 10) ==> r == Kind::xApic(mapped_base),
    {
        if crate::bitfield::u64_get_bit(apic_base, 10) {
            Kind::x2Apic
        } else {
            Kind::xApic(mapped_base)
        }
    }

    /// Records the value that the platform read from `register`, without a
    /// write.
    pub fn refresh(&mut self, register: Register, value: u32)
        ensures
            final(self).spec_kind() == old(self).spec_kind(),
            final(self).spec_registers() == old(self).spec_registers().update(
                register.spec_slot(),
                value,
            ),
            final(self).spec_writes() == old(self).spec_writes(),
    {
        self.registers[register.slot()] = value;
    }

    /// Hands out the writes made so far and forgets them.
    pub fn take_writes(&mut self) -> (r: Vec<ApicWrite>)
        ensures
            r@ == old(self).spec_writes(),
            final(self).spec_kind() == old(self).spec_kind(),
            final(self).spec_writes() == Seq::<ApicWrite>::empty(),
            final(self).spec_registers() == old(self).spec_registers(),
    {
        let mut taken = Vec::new();
        core::mem::swap(&mut taken, &mut self.writes);
        taken
    }

    /// The memory address of `register` for an xAPIC at `base_address`.
    fn offset_register(base_address: usize, register: Register) -> (r: usize)
        requires
            base_address + 0x83E * 0x10 <= usize::MAX,
        ensures
            r == spec_offset_register(base_address, register),
    {
        let register_index = register.address() as usize;
        let register_offset = register_index * 0x10;
        base_address + register_offset
    }

    /// Reads `register`, which must be readable.
    fn read_register(&self, register: Register) -> (r: u32)
        requires
            !register.is_lvt(),
            register.spec_readable(),
        ensures
            r == self.reg(register),
    {
        self.registers[register.slot()]
    }

    /// Writes `value` to `register`, which must be writable.
    fn write_register(&mut self, register: Register, value: u32)
        requires
            !register.is_lvt(),
            register.spec_writable(),
            old(self).addresses_fit(),
        ensures
            final(self).wrote(old(self), register, value),
    {
        let write = match self.kind {
            Kind::xApic(base_address) => ApicWrite::Mmio {
                address: Self::offset_register(base_address, register),
                value,
            },
            Kind::x2Apic => ApicWrite::Msr { register: register.address(), low: value, high: 0 },
        };
        self.registers[register.slot()] = value;
        self.writes.push(write);
    }

    /// The initial ID of the local APIC device.
    pub fn get_id(&self) -> (r: u32)
        ensures
            r == self.reg(Register::ID),
    {
        self.read_register(Register::ID)
    }

    /// Version of the APIC device (bits 0..8 of the version register).
    pub fn version(&self) -> (r: u8)
        ensures
            r == u32_bits(self.reg(Register::VERSION), 0, 8),
    {
        let bits = u32_get_bits(self.read_register(Register::VERSION), 0, 8);
        proof {
            lemma_u32_bits_fit(self.reg(Register::VERSION), 0, 8);
            lemma_u32_masks();
        }
        bits as u8
    }

    /// Whether software can inhibit end-of-interrupt broadcasts (bit 24 of
    /// the version register).
    pub fn can_suppress_eoi_broadcast(&self) -> (r: bool)
        ensures
            r == u32_bit(self.reg(Register::VERSION), 24),
    {
        u32_get_bit(self.read_register(Register::VERSION), 24)
    }

    /// The number of local vector table entries, less 1 (bits 16..24 of the
    /// version register).
    pub fn max_lvt_entry(&self) -> (r: u8)
        ensures
            r == u32_bits(self.reg(Register::VERSION), 16, 24),
    {
        let bits = u32_get_bits(self.read_register(Register::VERSION), 16, 24);
        proof {
            lemma_u32_bits_fit(self.reg(Register::VERSION), 16, 24);
            lemma_u32_masks();
        }
        bits as u8
    }

    /// The vector delivered for spurious interrupts (bits 0..8 of the
    /// spurious vector register).
    pub fn get_spurious_vector(&self) -> (r: u8)
        ensures
            r == u32_bits(self.reg(Register::SPURIOUS_VECTOR), 0, 8),
    {
        let bits = u32_get_bits(self.read_register(Register::SPURIOUS_VECTOR), 0, 8);
        proof {
            lemma_u32_bits_fit(self.reg(Register::SPURIOUS_VECTOR), 0, 8);
            lemma_u32_masks();
        }
        bits as u8
    }

    /// Sets the vector delivered for spurious interrupts. All eight bits of
    /// the field are programmable on the processors that run 64-bit code;
    /// the P6 family and Pentium processors, whose low four bits are
    /// hard-wired to ones, cannot run this kernel.
    pub fn set_spurious_vector(&mut self, vector: u8)
        requires
            old(self).addresses_fit(),
        ensures
            final(self).wrote(
                old(self),
                Register::SPURIOUS_VECTOR,
                u32_with_bits(old(self).reg(Register::SPURIOUS_VECTOR), 0, 8, vector as u32),
            ),
    {
        proof {
            lemma_u32_masks();
        }
        let value = u32_set_bits(self.read_register(Register::SPURIOUS_VECTOR), 0, 8, vector as u32);
        self.write_register(Register::SPURIOUS_VECTOR, value);
    }

    /// Whether the local APIC is enabled (bit 8 of the spurious vector
    /// register).
    pub fn get_enabled(&self) -> (r: bool)
        ensures
            r == u32_bit(self.reg(Register::SPURIOUS_VECTOR), 8),
    {
        u32_get_bit(self.read_register(Register::SPURIOUS_VECTOR), 8)
    }

    /// Enables or disables the local APIC.
    pub fn set_enabled(&mut self, value: bool)
        requires
            old(self).addresses_fit(),
        ensures
            final(self).wrote(
                old(self),
                Register::SPURIOUS_VECTOR,
                u32_with_bit(old(self).reg(Register::SPURIOUS_VECTOR), 8, value),
            ),
    {
        let bits = u32_set_bit(self.read_register(Register::SPURIOUS_VECTOR), 8, value);
        self.write_register(Register::SPURIOUS_VECTOR, bits);
    }

    /// Whether end-of-interrupt broadcasts are suppressed (bit 12 of the
    /// spurious vector register). The bit is reserved, and reads as clear,
    /// where the processor cannot suppress them (bit 24 of the version
    /// register clear).
    pub fn get_eoi_broadcast_suppression(&self) -> (r: bool)
        ensures
            r == (u32_bit(self.reg(Register::SPURIOUS_VECTOR), 12) && u32_bit(
                self.reg(Register::VERSION),
                24,
            )),
    {
        u32_get_bit(self.read_register(Register::SPURIOUS_VECTOR), 12)
            && self.can_suppress_eoi_broadcast()
    }

    /// Sets whether end-of-interrupt broadcasts are suppressed. Setting the
    /// bit needs processor support (bit 24 of the version register): it is
    /// reserved otherwise, and in x2APIC mode a write of it faults.
    pub fn set_eoi_broadcast_suppression(&mut self, value: bool)
        requires
            old(self).addresses_fit(),
            value ==> u32_bit(old(self).reg(Register::VERSION), 24),
        ensures
            final(self).wrote(
                old(self),
                Register::SPURIOUS_VECTOR,
                u32_with_bit(old(self).reg(Register::SPURIOUS_VECTOR), 12, value),
            ),
    {
        let bits = u32_set_bit(self.read_register(Register::SPURIOUS_VECTOR), 12, value);
        self.write_register(Register::SPURIOUS_VECTOR, bits);
    }

    /// The error status flags.
    pub fn get_error_status(&self) -> (r: ErrorStatus)
        ensures
            r.spec_bits() == self.reg(Register::ERROR_STATUS) & 0xFF,
    {
        ErrorStatus::from_bits_truncate(self.read_register(Register::ERROR_STATUS))
    }

    /// Clears the error status register.
    pub fn clear_error_status(&mut self)
        requires
            old(self).addresses_fit(),
        ensures
            final(self).wrote(old(self), Register::ERROR_STATUS, 0),
    {
        self.write_register(Register::ERROR_STATUS, 0x0);
    }

    /// The timer's initial count.
    pub fn get_timer_initial_count(&self) -> (r: u32)
        ensures
            r == self.reg(Register::TIMER_INITIAL_COUNT),
    {
        self.read_register(Register::TIMER_INITIAL_COUNT)
    }

    /// Sets the timer's initial count.
    pub fn set_timer_initial_count(&mut self, value: u32)
        requires
            old(self).addresses_fit(),
        ensures
            final(self).wrote(old(self), Register::TIMER_INITIAL_COUNT, value),
    {
        self.write_register(Register::TIMER_INITIAL_COUNT, value);
    }

    /// The timer's current count.
    pub fn get_timer_current_count(&self) -> (r: u32)
        ensures
            r == self.reg(Register::TIMER_CURRENT_COUNT),
    {
        self.read_register(Register::TIMER_CURRENT_COUNT)
    }

    /// The timer's divide configuration; the register must hold one of the
    /// eight encodings.
    pub fn get_timer_divide_configuration(&self) -> (r: TimerDivideConfiguration)
        requires
            is_divide_encoding(self.reg(Register::TIMER_DIVIDE_CONFIGURATION)),
        ensures
            r.spec_bits() == self.reg(Register::TIMER_DIVIDE_CONFIGURATION),
    {
        match TimerDivideConfiguration::try_from_u32(
            self.read_register(Register::TIMER_DIVIDE_CONFIGURATION),
        ) {
            Some(configuration) => configuration,
            None => TimerDivideConfiguration::DivideBy1,
        }
    }

    /// Sets the timer's divide configuration.
    pub fn set_timer_divide_configuration(&mut self, value: TimerDivideConfiguration)
        requires
            old(self).addresses_fit(),
        ensures
            final(self).wrote(old(self), Register::TIMER_DIVIDE_CONFIGURATION, value.spec_bits()),
    {
        self.write_register(Register::TIMER_DIVIDE_CONFIGURATION, value.as_u32());
    }

    /// Sends an inter-processor interrupt whose command register halves are
    /// `high_bits` and `low_bits`. Through the memory-mapped interface the
    /// low half is written first, then the high half; through the x2APIC
    /// interface both go in one model-specific register write, and the
    /// low-priority delivery mode (bits 8..11 of the low half equal to 1) is
    /// not supported.
    pub fn send_interrupt_command(&mut self, high_bits: u32, low_bits: u32)
        requires
            old(self).spec_kind() matches Kind::xApic(base) ==> base + ICR_HIGH <= usize::MAX,
            old(self).spec_kind() == Kind::x2Apic ==> u32_bits(low_bits, 8, 11) != 1,
        ensures
            final(self).spec_kind() == old(self).spec_kind(),
            final(self).spec_registers() == old(self).spec_registers(),
            final(self).spec_writes() == old(self).spec_writes() + match old(self).spec_kind() {
                Kind::xApic(base) => seq![
                    ApicWrite::Mmio { address: (base + ICR_LOW) as usize, value: low_bits },
                    ApicWrite::Mmio { address: (base + ICR_HIGH) as usize, value: high_bits },
                ],
                Kind::x2Apic => seq![ApicWrite::Msr { register: ICR_MSR, low: low_bits, high: high_bits }],
            },
    {
        match self.kind {
            Kind::xApic(base_address) => {
                let register_low_address = base_address + ICR_LOW;
                let register_high_address = base_address + ICR_HIGH;
                self.writes.push(ApicWrite::Mmio { address: register_low_address, value: low_bits });
                self.writes.push(ApicWrite::Mmio { address: register_high_address, value: high_bits });
            },
            Kind::x2Apic => {
                self.writes.push(ApicWrite::Msr { register: ICR_MSR, low: low_bits, high: high_bits });
            },
        }
        assert(self.writes@ =~= old(self).writes@ + match old(self).kind {
            Kind::xApic(base) => seq![
                ApicWrite::Mmio { address: (base + ICR_LOW) as usize, value: low_bits },
                ApicWrite::Mmio { address: (base + ICR_HIGH) as usize, value: high_bits },
            ],
            Kind::x2Apic => seq![ApicWrite::Msr { register: ICR_MSR, low: low_bits, high: high_bits }],
        });
    }

    /// Signals the end of an interrupt service routine.
    pub fn end_of_interrupt(&mut self)
        requires
            old(self).addresses_fit(),
        ensures
            final(self).wrote(old(self), Register::END_OF_INTERRUPT, 0),
    {
        self.write_register(Register::END_OF_INTERRUPT, 0x0);
    }
}

/// Every local APIC holds [`REGISTER_COUNT`] register values.
pub proof fn lemma_register_count(apic: &LocalApic)
    ensures
        apic.spec_registers().len() == REGISTER_COUNT,
{
}

/// A read after a write gives the value written, and a write leaves every
/// other register as it was.
pub proof fn lemma_read_after_write(
    before: &LocalApic,
    after: &LocalApic,
    register: Register,
    value: u32,
)
    requires
        after.wrote(before, register, value),
    ensures
        after.reg(register) == value,
        forall|other: Register|
            other != register ==> #[trigger] after.reg(other) == before.reg(other),
{
    lemma_register_count(before);
    assert forall|other: Register| other != register implies #[trigger] after.reg(other)
        == before.reg(other) by {
        assert(other.spec_slot() != register.spec_slot());
    }
}

/// Setting end-of-interrupt broadcast suppression and reading it back gives
/// the value set where the processor supports suppression, and clear where
/// it does not.
pub proof fn lemma_eoi_broadcast_suppression_round_trip(
    before: &LocalApic,
    after: &LocalApic,
    value: bool,
)
    requires
        after.wrote(
            before,
            Register::SPURIOUS_VECTOR,
            u32_with_bit(before.reg(Register::SPURIOUS_VECTOR), 12, value),
        ),
    ensures
        (u32_bit(after.reg(Register::SPURIOUS_VECTOR), 12) && u32_bit(
            after.reg(Register::VERSION),
            24,
        )) == (value && u32_bit(before.reg(Register::VERSION), 24)),
{
    lemma_read_after_write(
        before,
        after,
        Register::SPURIOUS_VECTOR,
        u32_with_bit(before.reg(Register::SPURIOUS_VECTOR), 12, value),
    );
    lemma_u32_bit_of_with_bit(before.reg(Register::SPURIOUS_VECTOR), 12, value, 12);
    assert(Register::VERSION != Register::SPURIOUS_VECTOR);
}

} // verus!
