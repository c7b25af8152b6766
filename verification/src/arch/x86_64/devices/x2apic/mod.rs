//! The x2APIC local interrupt controller, programmed through
//! model-specific registers.
//!
//! [`x2Apic`] models the controller's registers as values: it holds the
//! value of each register as the platform last read it, and records every
//! register write that the library's operations make, in order, for the
//! platform to carry out with `wrmsr`.
pub mod local_vector;

use crate::bitfield::{
    lemma_u32_bit_of_with_bit, lemma_u32_bit_range_disjoint, lemma_u32_bits_of_with_bits,
    lemma_u32_masks, u32_bit, u32_bits, u32_with_bit, u32_with_bits, lemma_u64_bit_of_with_bit, lemma_u64_bit_range_disjoint, lemma_u64_bits_fit,
    lemma_u64_bits_of_with_bits, lemma_u64_masks, u64_bit, u64_bits, u64_get_bit, u64_get_bits,
    u64_set_bit, u64_set_bits, u64_with_bit, u64_with_bits,
};
pub use crate::arch::x86_64::registers::model_specific::MsrWrite;
use vstd::prelude::*;

verus! {

/// Microseconds per second.
pub const US_PER_SEC: u64 = 1000000;

/// Microseconds waited when measuring a frequency.
pub const US_WAIT: u64 = 10000;

/// Factor from a count over [`US_WAIT`] to a count per second.
pub const US_FREQ_FACTOR: u64 = 100;

/// The x2APIC registers, by model-specific register address.
#[derive(Debug, Clone, Copy, PartialEq, Eq, Structural)]
pub enum Register {
    ID,
    VERSION,
    TASK_PRIORITY,
    PROCESSOR_PRIORITY,
    END_OF_INTERRUPT,
    LOCAL_DESTINATION,
    SPURIOUS_VECTOR,
    ERROR_STATUS,
    LVT_CMCI,
    INTERRUPT_COMMAND,
    LVT_TIMER,
    LVT_THERMAL_MONITOR,
    LVT_PERFORMANCE_COUNTER,
    LVT_LINT0,
    LVT_LINT1,
    LVT_ERROR,
    TIMER_INITIAL_COUNT,
    TIMER_CURRENT_COUNT,
    TIMER_DIVIDE_CONFIGURATION,
}

/// Number of x2APIC registers.
pub const REGISTER_COUNT: usize = 19;

impl Register {
    /// The model-specific register address (`u32::from`).
    pub open spec fn spec_address(self) -> u32 {
        match self {
            Register::ID => 0x802,
            Register::VERSION => 0x803,
            Register::TASK_PRIORITY => 0x808,
            Register::PROCESSOR_PRIORITY => 0x80A,
            Register::END_OF_INTERRUPT => 0x80B,
            Register::LOCAL_DESTINATION => 0x80D,
            Register::SPURIOUS_VECTOR => 0x80F,
            Register::ERROR_STATUS => 0x828,
            Register::LVT_CMCI => 0x82F,
            Register::INTERRUPT_COMMAND => 0x830,
            Register::LVT_TIMER => 0x832,
            Register::LVT_THERMAL_MONITOR => 0x833,
            Register::LVT_PERFORMANCE_COUNTER => 0x834,
            Register::LVT_LINT0 => 0x835,
            Register::LVT_LINT1 => 0x836,
            Register::LVT_ERROR => 0x837,
            Register::TIMER_INITIAL_COUNT => 0x838,
            Register::TIMER_CURRENT_COUNT => 0x839,
            Register::TIMER_DIVIDE_CONFIGURATION => 0x83E,
        }
    }

    /// The register's position among the [`REGISTER_COUNT`] registers.
    pub open spec fn spec_slot(self) -> int {
        match self {
            Register::ID => 0,
            Register::VERSION => 1,
            Register::TASK_PRIORITY => 2,
            Register::PROCESSOR_PRIORITY => 3,
            Register::END_OF_INTERRUPT => 4,
            Register::LOCAL_DESTINATION => 5,
            Register::SPURIOUS_VECTOR => 6,
            Register::ERROR_STATUS => 7,
            Register::LVT_CMCI => 8,
            Register::INTERRUPT_COMMAND => 9,
            Register::LVT_TIMER => 10,
            Register::LVT_THERMAL_MONITOR => 11,
            Register::LVT_PERFORMANCE_COUNTER => 12,
            Register::LVT_LINT0 => 13,
            Register::LVT_LINT1 => 14,
            Register::LVT_ERROR => 15,
            Register::TIMER_INITIAL_COUNT => 16,
            Register::TIMER_CURRENT_COUNT => 17,
            Register::TIMER_DIVIDE_CONFIGURATION => 18,
        }
    }

    /// The model-specific register address (`u32::from`).
    pub fn address(self) -> (r: u32)
        ensures
            r == self.spec_address(),
    {
        match self {
            Register::ID => 0x802,
            Register::VERSION => 0x803,
            Register::TASK_PRIORITY => 0x808,
            Register::PROCESSOR_PRIORITY => 0x80A,
            Register::END_OF_INTERRUPT => 0x80B,
            Register::LOCAL_DESTINATION => 0x80D,
            Register::SPURIOUS_VECTOR => 0x80F,
            Register::ERROR_STATUS => 0x828,
            Register::LVT_CMCI => 0x82F,
            Register::INTERRUPT_COMMAND => 0x830,
            Register::LVT_TIMER => 0x832,
            Register::LVT_THERMAL_MONITOR => 0x833,
            Register::LVT_PERFORMANCE_COUNTER => 0x834,
            Register::LVT_LINT0 => 0x835,
            Register::LVT_LINT1 => 0x836,
            Register::LVT_ERROR => 0x837,
            Register::TIMER_INITIAL_COUNT => 0x838,
            Register::TIMER_CURRENT_COUNT => 0x839,
            Register::TIMER_DIVIDE_CONFIGURATION => 0x83E,
        }
    }

    /// The register's position among the [`REGISTER_COUNT`] registers.
    pub fn slot(self) -> (r: usize)
        ensures
            r == self.spec_slot(),
            r < REGISTER_COUNT,
    {
        match self {
            Register::ID => 0,
            Register::VERSION => 1,
            Register::TASK_PRIORITY => 2,
            Register::PROCESSOR_PRIORITY => 3,
            Register::END_OF_INTERRUPT => 4,
            Register::LOCAL_DESTINATION => 5,
            Register::SPURIOUS_VECTOR => 6,
            Register::ERROR_STATUS => 7,
            Register::LVT_CMCI => 8,
            Register::INTERRUPT_COMMAND => 9,
            Register::LVT_TIMER => 10,
            Register::LVT_THERMAL_MONITOR => 11,
            Register::LVT_PERFORMANCE_COUNTER => 12,
            Register::LVT_LINT0 => 13,
            Register::LVT_LINT1 => 14,
            Register::LVT_ERROR => 15,
            Register::TIMER_INITIAL_COUNT => 16,
            Register::TIMER_CURRENT_COUNT => 17,
            Register::TIMER_DIVIDE_CONFIGURATION => 18,
        }
    }
}

/// Every bit that a named error status flag holds (bits 0 to 7).
pub const ERROR_STATUS_ALL: u64 = 0xFF;

/// The error status register's flags: send and receive checksum errors (bits
/// 0, 1), send and receive accept errors (2, 3), redirectable IPI (4), sent
/// and received illegal vector (5, 6), illegal register address (7).
#[derive(Debug, Clone, Copy, PartialEq, Eq, Structural)]
pub struct ErrorStatus(u64);

impl ErrorStatus {
    pub const SEND_CHECKSUM_ERROR: u64 = 0x1;
    pub const RECEIVE_CHECKSUM_ERROR: u64 = 0x2;
    pub const SEND_ACCEPT_ERROR: u64 = 0x4;
    pub const RECEIVE_ACCEPT_ERROR: u64 = 0x8;
    pub const REDIRECTABLE_IPI: u64 = 0x10;
    pub const SENT_ILLEGAL_VECTOR: u64 = 0x20;
    pub const RECEIVED_ILLEGAL_VECTOR: u64 = 0x40;
    pub const ILLEGAL_REGISTER_ADDRESS: u64 = 0x80;

    pub closed spec fn spec_bits(self) -> u64 {
        self.0
    }

    /// The named flags of `bits` (`ErrorStatus::from_bits_truncate`).
    pub fn from_bits_truncate(bits: u64) -> (r: Self)
        ensures
            r.spec_bits() == bits & ERROR_STATUS_ALL,
    {
        ErrorStatus(bits & ERROR_STATUS_ALL)
    }

    /// The raw bits.
    pub fn bits(self) -> (r: u64)
        ensures
            r == self.spec_bits(),
    {
        self.0
    }

    /// Whether every bit of `flags` is set.
    pub fn contains(self, flags: u64) -> (r: bool)
        ensures
            r == (self.spec_bits() & flags == flags),
    {
        self.0 & flags == flags
    }
}

/// The type of interrupt to send to the processor.
#[derive(Debug, Clone, Copy, PartialEq, Eq, Structural)]
pub enum InterruptDeliveryMode {
    /// Delivers the interrupt specified in the vector field.
    Fixed,
    /// Delivers the interrupt to the processor at the lowest priority (only
    /// for inter-processor interrupts; not supported on x2APIC).
    LowPriority,
    /// Delivers a system management interrupt.
    SystemManagement,
    /// Delivers a non-maskable interrupt; the vector is ignored.
    NonMaskable,
    /// Delivers an INIT request.
    Init,
    /// Sends a start-up inter-processor interrupt.
    StartUp,
    /// Responds as if the interrupt came from an external 8259A-compatible
    /// controller.
    External,
}

impl InterruptDeliveryMode {
    /// The three-bit encoding (`u32::from`).
    pub open spec fn spec_bits(self) -> u32 {
        match self {
            InterruptDeliveryMode::Fixed => 0b000,
            InterruptDeliveryMode::LowPriority => 0b001,
            InterruptDeliveryMode::SystemManagement => 0b010,
            InterruptDeliveryMode::NonMaskable => 0b100,
            InterruptDeliveryMode::Init => 0b101,
            InterruptDeliveryMode::StartUp => 0b110,
            InterruptDeliveryMode::External => 0b111,
        }
    }

    /// The three-bit encoding (`u32::from`).
    pub fn as_u32(self) -> (r: u32)
        ensures
            r == self.spec_bits(),
            r < 8,
    {
        match self {
            InterruptDeliveryMode::Fixed => 0b000,
            InterruptDeliveryMode::LowPriority => 0b001,
            InterruptDeliveryMode::SystemManagement => 0b010,
            InterruptDeliveryMode::NonMaskable => 0b100,
            InterruptDeliveryMode::Init => 0b101,
            InterruptDeliveryMode::StartUp => 0b110,
            InterruptDeliveryMode::External => 0b111,
        }
    }
}

impl From<InterruptDeliveryMode> for u32 {
    /// The three-bit encoding of the delivery mode.
    fn from(value: InterruptDeliveryMode) -> (r: u32) {
        value.as_u32()
    }
}

impl vstd::std_specs::convert::FromSpecImpl<InterruptDeliveryMode> for u32 {
    open spec fn obeys_from_spec() -> bool {
        true
    }

    open spec fn from_spec(value: InterruptDeliveryMode) -> u32 {
        value.spec_bits()
    }
}

/// The divisor of the local APIC timer's clock.
#[derive(Debug, Clone, Copy, PartialEq, Eq, Structural)]
pub enum TimerDivideConfiguration {
    DivideBy1,
    DivideBy2,
    DivideBy4,
    DivideBy8,
    DivideBy16,
    DivideBy32,
    DivideBy64,
    DivideBy128,
}

/// Whether `value` is the encoding of some divide configuration.
pub open spec fn is_divide_encoding(value: u64) -> bool {
    value == 0b1011 || value == 0b0000 || value == 0b0001 || value == 0b0010 || value == 0b0011
        || value == 0b1000 || value == 0b1001 || value == 0b1010
}

impl TimerDivideConfiguration {
    /// The register encoding (`u64::from`).
    pub open spec fn spec_bits(self) -> u64 {
        match self {
            TimerDivideConfiguration::DivideBy1 => 0b1011,
            TimerDivideConfiguration::DivideBy2 => 0b0000,
            TimerDivideConfiguration::DivideBy4 => 0b0001,
            TimerDivideConfiguration::DivideBy8 => 0b0010,
            TimerDivideConfiguration::DivideBy16 => 0b0011,
            TimerDivideConfiguration::DivideBy32 => 0b1000,
            TimerDivideConfiguration::DivideBy64 => 0b1001,
            TimerDivideConfiguration::DivideBy128 => 0b1010,
        }
    }

    /// The register encoding (`u64::from`).
    pub fn as_u64(self) -> (r: u64)
        ensures
            r == self.spec_bits(),
    {
        match self {
            TimerDivideConfiguration::DivideBy1 => 0b1011,
            TimerDivideConfiguration::DivideBy2 => 0b0000,
            TimerDivideConfiguration::DivideBy4 => 0b0001,
            TimerDivideConfiguration::DivideBy8 => 0b0010,
            TimerDivideConfiguration::DivideBy16 => 0b0011,
            TimerDivideConfiguration::DivideBy32 => 0b1000,
            TimerDivideConfiguration::DivideBy64 => 0b1001,
            TimerDivideConfiguration::DivideBy128 => 0b1010,
        }
    }

    /// The configuration encoded by `value` (`TryFrom<u64>`); `None` for
    /// other values.
    pub fn try_from_u64(value: u64) -> (r: Option<Self>)
        ensures
            is_divide_encoding(value) <==> r is Some,
            r matches Some(c) ==> c.spec_bits() == value,
    {
        if value == 0b1011 {
            Some(TimerDivideConfiguration::DivideBy1)
        } else if value == 0b0000 {
            Some(TimerDivideConfiguration::DivideBy2)
        } else if value == 0b0001 {
            Some(TimerDivideConfiguration::DivideBy4)
        } else if value == 0b0010 {
            Some(TimerDivideConfiguration::DivideBy8)
        } else if value == 0b0011 {
            Some(TimerDivideConfiguration::DivideBy16)
        } else if value == 0b1000 {
            Some(TimerDivideConfiguration::DivideBy32)
        } else if value == 0b1001 {
            Some(TimerDivideConfiguration::DivideBy64)
        } else if value == 0b1010 {
            Some(TimerDivideConfiguration::DivideBy128)
        } else {
            None
        }
    }
}

/// The x2APIC local interrupt controller: its register values and the
/// register writes made so far.
#[derive(Debug)]
pub struct x2Apic {
    registers: [u64; 19],
    writes: Vec<MsrWrite>,
}

/// The vectors that [`x2Apic::reset`] assigns.
#[derive(Debug, Clone, Copy, PartialEq, Eq, Structural)]
pub struct ResetVectors {
    pub spurious: u8,
    pub error: u8,
    pub timer: u8,
    pub performance_counter: u8,
    pub thermal_sensor: u8,
    pub cmci: u8,
}

impl x2Apic {
    /// The register values, by [`Register::spec_slot`].
    pub closed spec fn spec_registers(&self) -> Seq<u64> {
        self.registers@
    }

    /// The writes made so far, in order.
    pub closed spec fn spec_writes(&self) -> Seq<MsrWrite> {
        self.writes@
    }

    /// The value of `register`.
    pub open spec fn reg(&self, register: Register) -> u64 {
        self.spec_registers()[register.spec_slot()]
    }

    /// `self` is `old` after writing `value` to `register`: the register
    /// holds the value, and the write is recorded.
    pub open spec fn wrote(&self, old: &x2Apic, register: Register, value: u64) -> bool {
        &&& self.spec_registers() == old.spec_registers().update(register.spec_slot(), value)
        &&& self.spec_writes() == old.spec_writes().push(
            MsrWrite { address: register.spec_address(), value },
        )
    }

    /// A controller whose registers hold `registers` (by
    /// [`Register::slot`]) and with no writes made.
    pub fn new(registers: [u64; 19]) -> (r: Self)
        ensures
            r.spec_registers() == registers@,
            r.spec_writes() == Seq::<MsrWrite>::empty(),
    {
        x2Apic { registers, writes: Vec::new() }
    }

    /// Records the value that the platform read from `register`, without a
    /// write.
    pub fn refresh(&mut self, register: Register, value: u64)
        ensures
            final(self).spec_registers() == old(self).spec_registers().update(
                register.spec_slot(),
                value,
            ),
            final(self).spec_writes() == old(self).spec_writes(),
    {
        self.registers[register.slot()] = value;
    }

    /// The writes made so far, in order.
    pub fn writes(&self) -> (r: &Vec<MsrWrite>)
        ensures
            r@ == self.spec_writes(),
    {
        &self.writes
    }

    /// Hands out the writes made so far and forgets them.
    pub fn take_writes(&mut self) -> (r: Vec<MsrWrite>)
        ensures
            r@ == old(self).spec_writes(),
            final(self).spec_writes() == Seq::<MsrWrite>::empty(),
            final(self).spec_registers() == old(self).spec_registers(),
    {
        let mut taken = Vec::new();
        core::mem::swap(&mut taken, &mut self.writes);
        taken
    }

    /// The value of `register` (`rdmsr`).
    pub fn read_register(&self, register: Register) -> (r: u64)
        ensures
            r == self.reg(register),
    {
        self.registers[register.slot()]
    }

    /// Writes `value` to `register` (`wrmsr`).
    pub fn write_register(&mut self, register: Register, value: u64)
        ensures
            final(self).wrote(old(self), register, value),
    {
        self.registers[register.slot()] = value;
        self.writes.push(MsrWrite { address: register.address(), value });
    }

    /// The initial ID of the local APIC device; the ID register must hold a
    /// 32-bit value.
    pub fn get_id(&self) -> (r: u32)
        requires
            self.reg(Register::ID) <= u32::MAX,
        ensures
            r == self.reg(Register::ID),
    {
        self.read_register(Register::ID) as u32
    }

    /// Version of the APIC device (bits 0..8 of the version register).
    pub fn version(&self) -> (r: u8)
        ensures
            r == u64_bits(self.reg(Register::VERSION), 0, 8),
    {
        let bits = u64_get_bits(self.read_register(Register::VERSION), 0, 8);
        proof {
            lemma_u64_bits_fit(self.reg(Register::VERSION), 0, 8);
            lemma_u64_masks();
        }
        bits as u8
    }

    /// Whether software can inhibit the broadcast of end-of-interrupt
    /// messages (bit 24 of the version register).
    pub fn can_suppress_eoi_broadcast(&self) -> (r: bool)
        ensures
            r == u64_bit(self.reg(Register::VERSION), 24),
    {
        u64_get_bit(self.read_register(Register::VERSION), 24)
    }

    /// The number of local vector table entries, less 1 (bits 16..24 of the
    /// version register).
    pub fn max_lvt_entry(&self) -> (r: u8)
        ensures
            r == u64_bits(self.reg(Register::VERSION), 16, 24),
    {
        let bits = u64_get_bits(self.read_register(Register::VERSION), 16, 24);
        proof {
            lemma_u64_bits_fit(self.reg(Register::VERSION), 16, 24);
            lemma_u64_masks();
        }
        bits as u8
    }

    /// The vector delivered for spurious interrupts (bits 0..8 of the
    /// spurious vector register).
    pub fn get_spurious_vector(&self) -> (r: u8)
        ensures
            r == u64_bits(self.reg(Register::SPURIOUS_VECTOR), 0, 8),
    {
        let bits = u64_get_bits(self.read_register(Register::SPURIOUS_VECTOR), 0, 8);
        proof {
            lemma_u64_bits_fit(self.reg(Register::SPURIOUS_VECTOR), 0, 8);
            lemma_u64_masks();
        }
        bits as u8
    }

    /// Sets the vector delivered for spurious interrupts; vectors 0 to 15
    /// are reserved. All eight bits of the field are programmable on the
    /// processors that have an x2APIC (those of the P6 family, whose low four
    /// bits are hard-wired, have none).
    pub fn set_spurious_vector(&mut self, vector: u8)
        requires
            vector > 15,
        ensures
            final(self).wrote(
                old(self),
                Register::SPURIOUS_VECTOR,
                u64_with_bits(old(self).reg(Register::SPURIOUS_VECTOR), 0, 8, vector as u64),
            ),
    {
        proof {
            lemma_u64_masks();
        }
        let value = u64_set_bits(self.read_register(Register::SPURIOUS_VECTOR), 0, 8, vector as u64);
        self.write_register(Register::SPURIOUS_VECTOR, value);
    }

    /// Whether the local APIC is enabled (bit 8 of the spurious vector
    /// register).
    pub fn get_enabled(&self) -> (r: bool)
        ensures
            r == u64_bit(self.reg(Register::SPURIOUS_VECTOR), 8),
    {
        u64_get_bit(self.read_register(Register::SPURIOUS_VECTOR), 8)
    }

    /// Enables or disables the local APIC.
    pub fn set_enabled(&mut self, value: bool)
        ensures
            final(self).wrote(
                old(self),
                Register::SPURIOUS_VECTOR,
                u64_with_bit(old(self).reg(Register::SPURIOUS_VECTOR), 8, value),
            ),
    {
        let bits = u64_set_bit(self.read_register(Register::SPURIOUS_VECTOR), 8, value);
        self.write_register(Register::SPURIOUS_VECTOR, bits);
    }

    /// Whether end-of-interrupt broadcasts to the I/O APICs are suppressed
    /// (bit 12 of the spurious vector register). The bit is reserved, and
    /// reads as clear, where the processor cannot suppress them (bit 24 of
    /// the version register clear).
    pub fn get_eoi_broadcast_suppression(&self) -> (r: bool)
        ensures
            r == (u64_bit(self.reg(Register::SPURIOUS_VECTOR), 12) && u64_bit(
                self.reg(Register::VERSION),
                24,
            )),
    {
        u64_get_bit(self.read_register(Register::SPURIOUS_VECTOR), 12)
            && self.can_suppress_eoi_broadcast()
    }

    /// Sets whether end-of-interrupt broadcasts are suppressed. Setting the
    /// bit needs processor support (bit 24 of the version register): in
    /// x2APIC mode a write of the reserved bit faults.
    pub fn set_eoi_broadcast_suppression(&mut self, value: bool)
        requires
            value ==> u64_bit(old(self).reg(Register::VERSION), 24),
        ensures
            final(self).wrote(
                old(self),
                Register::SPURIOUS_VECTOR,
                u64_with_bit(old(self).reg(Register::SPURIOUS_VECTOR), 12, value),
            ),
    {
        let bits = u64_set_bit(self.read_register(Register::SPURIOUS_VECTOR), 12, value);
        self.write_register(Register::SPURIOUS_VECTOR, bits);
    }

    /// The error status flags.
    pub fn get_error_status(&self) -> (r: ErrorStatus)
        ensures
            r.spec_bits() == self.reg(Register::ERROR_STATUS) & ERROR_STATUS_ALL,
    {
        ErrorStatus::from_bits_truncate(self.read_register(Register::ERROR_STATUS))
    }

    /// Clears the error status register.
    pub fn clear_error_status(&mut self)
        ensures
            final(self).wrote(old(self), Register::ERROR_STATUS, 0),
    {
        self.write_register(Register::ERROR_STATUS, 0x0);
    }

    /// The timer's initial count; the register must hold a 32-bit value.
    pub fn get_timer_initial_count(&self) -> (r: u32)
        requires
            self.reg(Register::TIMER_INITIAL_COUNT) <= u32::MAX,
        ensures
            r == self.reg(Register::TIMER_INITIAL_COUNT),
    {
        self.read_register(Register::TIMER_INITIAL_COUNT) as u32
    }

    /// Sets the timer's initial count.
    pub fn set_timer_initial_count(&mut self, value: u32)
        ensures
            final(self).wrote(old(self), Register::TIMER_INITIAL_COUNT, value as u64),
    {
        self.write_register(Register::TIMER_INITIAL_COUNT, value as u64);
    }

    /// The timer's current count; the register must hold a 32-bit value.
    pub fn get_timer_current_count(&self) -> (r: u32)
        requires
            self.reg(Register::TIMER_CURRENT_COUNT) <= u32::MAX,
        ensures
            r == self.reg(Register::TIMER_CURRENT_COUNT),
    {
        self.read_register(Register::TIMER_CURRENT_COUNT) as u32
    }

    /// The timer's divide configuration; the register must hold one of the
    /// eight encodings.
    pub fn get_timer_divide_configuration(&self) -> (r: TimerDivideConfiguration)
        requires
            is_divide_encoding(self.reg(Register::TIMER_DIVIDE_CONFIGURATION)),
        ensures
            r.spec_bits() == self.reg(Register::TIMER_DIVIDE_CONFIGURATION),
    {
        match TimerDivideConfiguration::try_from_u64(
            self.read_register(Register::TIMER_DIVIDE_CONFIGURATION),
        ) {
            Some(configuration) => configuration,
            None => TimerDivideConfiguration::DivideBy1,
        }
    }

    /// Sets the timer's divide configuration.
    pub fn set_timer_divide_configuration(&mut self, value: TimerDivideConfiguration)
        ensures
            final(self).wrote(old(self), Register::TIMER_DIVIDE_CONFIGURATION, value.spec_bits()),
    {
        self.write_register(Register::TIMER_DIVIDE_CONFIGURATION, value.as_u64());
    }

    /// Sends an inter-processor interrupt whose command register halves are
    /// `high` and `low`. The x2APIC does not support the low-priority
    /// delivery mode (bits 8..11 of `low` equal to 1).
    pub fn send_interrupt_command(&mut self, high: u32, low: u32)
        requires
            u64_bits(low as u64, 8, 11) != 1,
        ensures
            final(self).wrote(
                old(self),
                Register::INTERRUPT_COMMAND,
                ((high as u64) << 32u64) | (low as u64),
            ),
    {
        let high = high as u64;
        let low = low as u64;
        self.write_register(Register::INTERRUPT_COMMAND, (high << 32) | low);
    }

    /// Signals the end of an interrupt.
    pub fn end_of_interrupt(&mut self)
        ensures
            final(self).wrote(old(self), Register::END_OF_INTERRUPT, 0),
    {
        self.write_register(Register::END_OF_INTERRUPT, 0x0);
    }
}

/// A local vector table entry `raw` after its vector is set to `vector` and
/// its mask to `masked`, in this order, as [`x2Apic::reset`] does.
pub open spec fn lvt_programmed(raw: u32, vector: u8, masked: bool) -> u32 {
    u32_with_bit(u32_with_bits(raw, 0, 8, vector as u32), 16, masked)
}

/// The two writes that set the vector and then the mask of the entry in
/// `register`, whose value was `raw`.
pub open spec fn lvt_program_writes(register: Register, raw: u32, vector: u8, masked: bool) -> Seq<
    MsrWrite,
> {
    seq![
        MsrWrite { address: register.spec_address(), value: u32_with_bits(raw, 0, 8, vector as u32) as u64 },
        MsrWrite { address: register.spec_address(), value: lvt_programmed(raw, vector, masked) as u64 },
    ]
}

/// The maximum local vector table entry index of `apic`.
pub open spec fn spec_max_lvt(apic: &x2Apic) -> u64 {
    u64_bits(apic.reg(Register::VERSION), 16, 24)
}

/// The spurious vector register after [`x2Apic::reset`].
pub open spec fn reset_spurious(old: &x2Apic, vectors: ResetVectors) -> u64 {
    u64_with_bits(u64_with_bit(old.reg(Register::SPURIOUS_VECTOR), 8, false), 0, 8, vectors.spurious as u64)
}

/// The registers after [`x2Apic::reset`].
pub open spec fn reset_registers(old: &x2Apic, vectors: ResetVectors) -> Seq<u64> {
    let regs = old.spec_registers().update(
        Register::SPURIOUS_VECTOR.spec_slot(),
        reset_spurious(old, vectors),
    ).update(
        Register::LVT_ERROR.spec_slot(),
        lvt_programmed(old.reg(Register::LVT_ERROR) as u32, vectors.error, false) as u64,
    ).update(
        Register::LVT_TIMER.spec_slot(),
        lvt_programmed(old.reg(Register::LVT_TIMER) as u32, vectors.timer, true) as u64,
    );
    let regs = if spec_max_lvt(old) >= 4 {
        regs.update(
            Register::LVT_PERFORMANCE_COUNTER.spec_slot(),
            lvt_programmed(
                old.reg(Register::LVT_PERFORMANCE_COUNTER) as u32,
                vectors.performance_counter,
                false,
            ) as u64,
        )
    } else {
        regs
    };
    let regs = if spec_max_lvt(old) >= 5 {
        regs.update(
            Register::LVT_THERMAL_MONITOR.spec_slot(),
            lvt_programmed(
                old.reg(Register::LVT_THERMAL_MONITOR) as u32,
                vectors.thermal_sensor,
                false,
            ) as u64,
        )
    } else {
        regs
    };
    if spec_max_lvt(old) >= 6 {
        regs.update(
            Register::LVT_CMCI.spec_slot(),
            lvt_programmed(old.reg(Register::LVT_CMCI) as u32, vectors.cmci, false) as u64,
        )
    } else {
        regs
    }
}

/// The writes that [`x2Apic::reset`] makes, in order.
pub open spec fn reset_writes(old: &x2Apic, vectors: ResetVectors) -> Seq<MsrWrite> {
    seq![
        MsrWrite {
            address: Register::SPURIOUS_VECTOR.spec_address(),
            value: u64_with_bit(old.reg(Register::SPURIOUS_VECTOR), 8, false),
        },
        MsrWrite { address: Register::SPURIOUS_VECTOR.spec_address(), value: reset_spurious(old, vectors) },
    ] + lvt_program_writes(Register::LVT_ERROR, old.reg(Register::LVT_ERROR) as u32, vectors.error, false)
        + lvt_program_writes(Register::LVT_TIMER, old.reg(Register::LVT_TIMER) as u32, vectors.timer, true)
        + (if spec_max_lvt(old) >= 4 {
        lvt_program_writes(
            Register::LVT_PERFORMANCE_COUNTER,
            old.reg(Register::LVT_PERFORMANCE_COUNTER) as u32,
            vectors.performance_counter,
            false,
        )
    } else {
        Seq::empty()
    }) + (if spec_max_lvt(old) >= 5 {
        lvt_program_writes(
            Register::LVT_THERMAL_MONITOR,
            old.reg(Register::LVT_THERMAL_MONITOR) as u32,
            vectors.thermal_sensor,
            false,
        )
    } else {
        Seq::empty()
    }) + (if spec_max_lvt(old) >= 6 {
        lvt_program_writes(Register::LVT_CMCI, old.reg(Register::LVT_CMCI) as u32, vectors.cmci, false)
    } else {
        Seq::empty()
    })
}

/// What [`x2Apic::reset`] needs: the vectors it assigns are not reserved
/// (above 15), and the entries it programs hold 32-bit values.
pub open spec fn reset_requires(apic: &x2Apic, vectors: ResetVectors) -> bool {
    &&& vectors.spurious > 15
    &&& vectors.error > 15
    &&& vectors.timer > 15
    &&& apic.reg(Register::LVT_ERROR) <= u32::MAX
    &&& apic.reg(Register::LVT_TIMER) <= u32::MAX
    &&& spec_max_lvt(apic) >= 4 ==> vectors.performance_counter > 15 && apic.reg(
        Register::LVT_PERFORMANCE_COUNTER,
    ) <= u32::MAX
    &&& spec_max_lvt(apic) >= 5 ==> vectors.thermal_sensor > 15 && apic.reg(
        Register::LVT_THERMAL_MONITOR,
    ) <= u32::MAX
    &&& spec_max_lvt(apic) >= 6 ==> vectors.cmci > 15 && apic.reg(Register::LVT_CMCI) <= u32::MAX
}

impl x2Apic {
    /// Resets the controller: disables it, sets the spurious vector, points
    /// the error entry at its vector unmasked and the timer entry at its
    /// vector masked, and points the performance counter, thermal monitor
    /// and CMCI entries, where the controller has them, at their vectors
    /// unmasked.
    pub fn reset(&mut self, vectors: ResetVectors)
        requires
            reset_requires(old(self), vectors),
        ensures
            final(self).spec_registers() == reset_registers(old(self), vectors),
            final(self).spec_writes() == old(self).spec_writes() + reset_writes(old(self), vectors),
    {
        let ghost start = *old(self);
        self.set_enabled(false);
        self.set_spurious_vector(vectors.spurious);
        let error = Self::lvt_error();
        error.set_vector(self, vectors.error);
        error.set_masked(self, false);
        let timer = Self::lvt_timer();
        timer.set_vector(self, vectors.timer);
        timer.set_masked(self, true);
        let ghost base = *self;
        assert(self.spec_registers() =~= start.spec_registers().update(
            Register::SPURIOUS_VECTOR.spec_slot(),
            reset_spurious(&start, vectors),
        ).update(
            Register::LVT_ERROR.spec_slot(),
            lvt_programmed(start.reg(Register::LVT_ERROR) as u32, vectors.error, false) as u64,
        ).update(
            Register::LVT_TIMER.spec_slot(),
            lvt_programmed(start.reg(Register::LVT_TIMER) as u32, vectors.timer, true) as u64,
        ));
        assert(spec_max_lvt(self) == spec_max_lvt(&start));
        if let Some(performance_counter) = self.lvt_performance_counter() {
            performance_counter.set_vector(self, vectors.performance_counter);
            performance_counter.set_masked(self, false);
        }
        let ghost after_pc = *self;
        assert(spec_max_lvt(self) == spec_max_lvt(&start));
        if let Some(thermal_monitor) = self.lvt_thermal_monitor() {
            thermal_monitor.set_vector(self, vectors.thermal_sensor);
            thermal_monitor.set_masked(self, false);
        }
        let ghost after_thermal = *self;
        assert(spec_max_lvt(self) == spec_max_lvt(&start));
        if let Some(cmci) = self.lvt_cmci() {
            cmci.set_vector(self, vectors.cmci);
            cmci.set_masked(self, false);
        }
        assert(self.spec_registers() =~= reset_registers(&start, vectors));
        assert(self.spec_writes() =~= start.spec_writes() + reset_writes(&start, vectors));
    }
}

/// An entry programmed with `vector` and `masked` reads back `vector` and
/// `masked`, and keeps its delivery mode, delivery status and timer mode.
pub proof fn lemma_lvt_programmed(raw: u32, vector: u8, masked: bool)
    ensures
        u32_bits(lvt_programmed(raw, vector, masked), 0, 8) == vector,
        u32_bit(lvt_programmed(raw, vector, masked), 16) == masked,
        u32_bits(lvt_programmed(raw, vector, masked), 8, 11) == u32_bits(raw, 8, 11),
        u32_bit(lvt_programmed(raw, vector, masked), 12) == u32_bit(raw, 12),
        u32_bits(lvt_programmed(raw, vector, masked), 17, 19) == u32_bits(raw, 17, 19),
{
    lemma_u32_masks();
    let with_vector = u32_with_bits(raw, 0, 8, vector as u32);
    lemma_u32_bits_of_with_bits(raw, 0, 8, vector as u32, 8, 11);
    lemma_u32_bits_of_with_bits(raw, 0, 8, vector as u32, 17, 19);
    lemma_u32_bit_range_disjoint(with_vector, 16, masked, 0, 8, 0);
    lemma_u32_bit_range_disjoint(with_vector, 16, masked, 8, 11, 0);
    lemma_u32_bit_range_disjoint(with_vector, 16, masked, 17, 19, 0);
    lemma_u32_bit_of_with_bit(with_vector, 16, masked, 12);
    lemma_u32_bit_range_disjoint(raw, 12, false, 0, 8, vector as u32);
}

/// After [`x2Apic::reset`] the controller is disabled and delivers the
/// spurious vector; the error entry holds its vector unmasked, the timer
/// entry its vector masked, and each of the performance counter, thermal
/// monitor and CMCI entries that the controller has holds its vector
/// unmasked; every other register keeps its value.
pub proof fn lemma_reset_outcome(before: &x2Apic, after: &x2Apic, vectors: ResetVectors)
    requires
        reset_requires(before, vectors),
        after.spec_registers() == reset_registers(before, vectors),
    ensures
        !u64_bit(after.reg(Register::SPURIOUS_VECTOR), 8),
        u64_bits(after.reg(Register::SPURIOUS_VECTOR), 0, 8) == vectors.spurious,
        u32_bits(after.reg(Register::LVT_ERROR) as u32, 0, 8) == vectors.error,
        !u32_bit(after.reg(Register::LVT_ERROR) as u32, 16),
        u32_bits(after.reg(Register::LVT_TIMER) as u32, 0, 8) == vectors.timer,
        u32_bit(after.reg(Register::LVT_TIMER) as u32, 16),
        spec_max_lvt(before) >= 4 ==> u32_bits(after.reg(Register::LVT_PERFORMANCE_COUNTER) as u32, 0, 8)
            == vectors.performance_counter && !u32_bit(
            after.reg(Register::LVT_PERFORMANCE_COUNTER) as u32,
            16,
        ),
        spec_max_lvt(before) < 4 ==> after.reg(Register::LVT_PERFORMANCE_COUNTER) == before.reg(
            Register::LVT_PERFORMANCE_COUNTER,
        ),
        spec_max_lvt(before) >= 5 ==> u32_bits(after.reg(Register::LVT_THERMAL_MONITOR) as u32, 0, 8)
            == vectors.thermal_sensor && !u32_bit(after.reg(Register::LVT_THERMAL_MONITOR) as u32, 16),
        spec_max_lvt(before) < 5 ==> after.reg(Register::LVT_THERMAL_MONITOR) == before.reg(
            Register::LVT_THERMAL_MONITOR,
        ),
        spec_max_lvt(before) >= 6 ==> u32_bits(after.reg(Register::LVT_CMCI) as u32, 0, 8)
            == vectors.cmci && !u32_bit(after.reg(Register::LVT_CMCI) as u32, 16),
        spec_max_lvt(before) < 6 ==> after.reg(Register::LVT_CMCI) == before.reg(Register::LVT_CMCI),
        forall|r: Register|
            r != Register::SPURIOUS_VECTOR && r != Register::LVT_ERROR && r != Register::LVT_TIMER
                && r != Register::LVT_PERFORMANCE_COUNTER && r != Register::LVT_THERMAL_MONITOR
                && r != Register::LVT_CMCI ==> #[trigger] after.reg(r) == before.reg(r),
{
    lemma_u64_masks();
    let s0 = before.reg(Register::SPURIOUS_VECTOR);
    let s1 = u64_with_bit(s0, 8, false);
    lemma_u64_bit_of_with_bit(s0, 8, false, 8);
    lemma_u64_bits_of_with_bits(s1, 0, 8, vectors.spurious as u64, 0, 8);
    lemma_u64_bit_range_disjoint(s1, 8, false, 0, 8, vectors.spurious as u64);
    lemma_lvt_programmed(before.reg(Register::LVT_ERROR) as u32, vectors.error, false);
    lemma_lvt_programmed(before.reg(Register::LVT_TIMER) as u32, vectors.timer, true);
    lemma_lvt_programmed(
        before.reg(Register::LVT_PERFORMANCE_COUNTER) as u32,
        vectors.performance_counter,
        false,
    );
    lemma_lvt_programmed(
        before.reg(Register::LVT_THERMAL_MONITOR) as u32,
        vectors.thermal_sensor,
        false,
    );
    lemma_lvt_programmed(before.reg(Register::LVT_CMCI) as u32, vectors.cmci, false);
}


/// Every controller holds [`REGISTER_COUNT`] register values.
pub proof fn lemma_register_count(apic: &x2Apic)
    ensures
        apic.spec_registers().len() == REGISTER_COUNT,
{
}

/// A read after a write gives the value written, and a write leaves every
/// other register as it was.
pub proof fn lemma_read_after_write(before: &x2Apic, after: &x2Apic, register: Register, value: u64)
    requires
        after.wrote(before, register, value),
    ensures
        after.reg(register) == value,
        forall|other: Register|
            other != register ==> #[trigger] after.reg(other) == before.reg(other),
{
    lemma_register_count(before);
    assert forall|other: Register| other != register implies #[trigger] after.reg(other)
        == before.reg(other) by {
        assert(other.spec_slot() != register.spec_slot());
    }
}

/// Enabling or disabling the controller and reading the enable bit back
/// gives the value set.
pub proof fn lemma_enabled_round_trip(before: &x2Apic, after: &x2Apic, value: bool)
    requires
        after.wrote(
            before,
            Register::SPURIOUS_VECTOR,
            u64_with_bit(before.reg(Register::SPURIOUS_VECTOR), 8, value),
        ),
    ensures
        u64_bit(after.reg(Register::SPURIOUS_VECTOR), 8) == value,
{
    lemma_read_after_write(
        before,
        after,
        Register::SPURIOUS_VECTOR,
        u64_with_bit(before.reg(Register::SPURIOUS_VECTOR), 8, value),
    );
    lemma_u64_bit_of_with_bit(before.reg(Register::SPURIOUS_VECTOR), 8, value, 8);
}

/// Setting end-of-interrupt broadcast suppression and reading it back gives
/// the value set where the processor supports suppression, and clear where
/// it does not.
pub proof fn lemma_eoi_broadcast_suppression_round_trip(
    before: &x2Apic,
    after: &x2Apic,
    value: bool,
)
    requires
        after.wrote(
            before,
            Register::SPURIOUS_VECTOR,
            u64_with_bit(before.reg(Register::SPURIOUS_VECTOR), 12, value),
        ),
    ensures
        (u64_bit(after.reg(Register::SPURIOUS_VECTOR), 12) && u64_bit(
            after.reg(Register::VERSION),
            24,
        )) == (value && u64_bit(before.reg(Register::VERSION), 24)),
{
    lemma_read_after_write(
        before,
        after,
        Register::SPURIOUS_VECTOR,
        u64_with_bit(before.reg(Register::SPURIOUS_VECTOR), 12, value),
    );
    lemma_u64_bit_of_with_bit(before.reg(Register::SPURIOUS_VECTOR), 12, value, 12);
    assert(Register::VERSION != Register::SPURIOUS_VECTOR);
}

/// Setting the timer's initial count and reading it back gives the count
/// set, and the register then holds a 32-bit value, as the read needs.
pub proof fn lemma_timer_initial_count_round_trip(before: &x2Apic, after: &x2Apic, value: u32)
    requires
        after.wrote(before, Register::TIMER_INITIAL_COUNT, value as u64),
    ensures
        after.reg(Register::TIMER_INITIAL_COUNT) <= u32::MAX,
        after.reg(Register::TIMER_INITIAL_COUNT) == value,
{
    lemma_read_after_write(before, after, Register::TIMER_INITIAL_COUNT, value as u64);
}

/// Setting the spurious vector and reading it back gives the vector set,
/// and leaves the enable bit as it was.
pub proof fn lemma_spurious_vector_round_trip(before: &x2Apic, after: &x2Apic, vector: u8)
    requires
        after.wrote(
            before,
            Register::SPURIOUS_VECTOR,
            u64_with_bits(before.reg(Register::SPURIOUS_VECTOR), 0, 8, vector as u64),
        ),
    ensures
        u64_bits(after.reg(Register::SPURIOUS_VECTOR), 0, 8) == vector,
        u64_bit(after.reg(Register::SPURIOUS_VECTOR), 8) == u64_bit(
            before.reg(Register::SPURIOUS_VECTOR),
            8,
        ),
{
    lemma_u64_masks();
    let s0 = before.reg(Register::SPURIOUS_VECTOR);
    lemma_u64_bits_of_with_bits(s0, 0, 8, vector as u64, 0, 8);
    lemma_u64_bit_range_disjoint(s0, 8, false, 0, 8, vector as u64);
}

} // verus!
