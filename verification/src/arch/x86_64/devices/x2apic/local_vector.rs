//! Local vector table (LVT) entries of the x2APIC: 32-bit registers holding
//! the vector (bits 0..8), the delivery mode (bits 8..11), the delivery
//! status (bit 12), the mask (bit 16) and, for the timer, the timer mode
//! (bits 17..19).
use crate::arch::x86_64::devices::x2apic::{
    lemma_read_after_write, x2Apic, InterruptDeliveryMode, Register,
};
use crate::bitfield::{
    lemma_u32_bit_of_with_bit, lemma_u32_bits_fit, lemma_u32_bits_of_with_bits, lemma_u32_masks, u32_bit, u32_bits, u32_get_bit, u32_get_bits, u32_set_bit,
    u32_set_bits, u32_with_bit, u32_with_bits,
};
use vstd::prelude::*;

verus! {

/// A kind of local vector table entry, naming its register.
pub trait Kind {
    /// The entry's register.
    spec fn spec_register() -> Register;

    /// The entry's register.
    fn register() -> (r: Register)
        ensures
            r == Self::spec_register(),
    ;
}

/// The kinds of entries whose delivery mode can be chosen.
pub trait Deliverable: Kind {

}

/// The timer entry.
#[derive(Debug, Clone, Copy)]
pub struct Timer;

impl Kind for Timer {
    open spec fn spec_register() -> Register {
        Register::LVT_TIMER
    }

    fn register() -> (r: Register) {
        Register::LVT_TIMER
    }
}

/// The corrected machine-check interrupt entry.
#[derive(Debug, Clone, Copy)]
pub struct CMCI;

impl Kind for CMCI {
    open spec fn spec_register() -> Register {
        Register::LVT_CMCI
    }

    fn register() -> (r: Register) {
        Register::LVT_CMCI
    }
}

impl Deliverable for CMCI {

}

/// The local interrupt 0 entry.
#[derive(Debug, Clone, Copy)]
pub struct LINT0;

impl Kind for LINT0 {
    open spec fn spec_register() -> Register {
        Register::LVT_LINT0
    }

    fn register() -> (r: Register) {
        Register::LVT_LINT0
    }
}

/// The local interrupt 1 entry.
#[derive(Debug, Clone, Copy)]
pub struct LINT1;

impl Kind for LINT1 {
    open spec fn spec_register() -> Register {
        Register::LVT_LINT1
    }

    fn register() -> (r: Register) {
        Register::LVT_LINT1
    }
}

/// The error entry.
#[derive(Debug, Clone, Copy)]
pub struct Error;

impl Kind for Error {
    open spec fn spec_register() -> Register {
        Register::LVT_ERROR
    }

    fn register() -> (r: Register) {
        Register::LVT_ERROR
    }
}

/// The performance counter entry.
#[derive(Debug, Clone, Copy)]
pub struct PerformanceCounter;

impl Kind for PerformanceCounter {
    open spec fn spec_register() -> Register {
        Register::LVT_PERFORMANCE_COUNTER
    }

    fn register() -> (r: Register) {
        Register::LVT_PERFORMANCE_COUNTER
    }
}

impl Deliverable for PerformanceCounter {

}

/// The thermal sensor entry.
#[derive(Debug, Clone, Copy)]
pub struct ThermalSensor;

impl Kind for ThermalSensor {
    open spec fn spec_register() -> Register {
        Register::LVT_THERMAL_MONITOR
    }

    fn register() -> (r: Register) {
        Register::LVT_THERMAL_MONITOR
    }
}

impl Deliverable for ThermalSensor {

}

/// A local vector table entry of kind `T`.
#[derive(Debug, Clone, Copy)]
pub struct LocalVector<T>(T);

/// Whether `apic`'s entry register for kind `T` holds a 32-bit value, as
/// every entry register must for its entry to be read.
pub open spec fn lvt_fits<T: Kind>(apic: &x2Apic) -> bool {
    apic.reg(T::spec_register()) <= u32::MAX
}

/// The 32-bit value of `apic`'s entry register for kind `T`.
pub open spec fn lvt_raw<T: Kind>(apic: &x2Apic) -> u32 {
    apic.reg(T::spec_register()) as u32
}

impl<T: Kind> LocalVector<T> {
    /// Reads the raw entry as a `u32`.
    fn read_raw(&self, apic: &x2Apic) -> (r: u32)
        requires
            lvt_fits::<T>(apic),
        ensures
            r == lvt_raw::<T>(apic),
    {
        apic.read_register(T::register()) as u32
    }

    /// Writes `value` as the raw entry.
    fn write_raw(&self, apic: &mut x2Apic, value: u32)
        ensures
            final(apic).wrote(old(apic), T::spec_register(), value as u64),
    {
        apic.write_register(T::register(), value as u64);
    }

    /// Whether an interrupt from this source has been delivered to the
    /// processor core but not yet accepted (bit 12).
    pub fn get_delivery_status(&self, apic: &x2Apic) -> (r: bool)
        requires
            lvt_fits::<T>(apic),
        ensures
            r == u32_bit(lvt_raw::<T>(apic), 12),
    {
        u32_get_bit(self.read_raw(apic), 12)
    }

    /// Whether the interrupt is masked (bit 16).
    pub fn get_masked(&self, apic: &x2Apic) -> (r: bool)
        requires
            lvt_fits::<T>(apic),
        ensures
            r == u32_bit(lvt_raw::<T>(apic), 16),
    {
        u32_get_bit(self.read_raw(apic), 16)
    }

    /// Masks or unmasks the interrupt.
    pub fn set_masked(&self, apic: &mut x2Apic, masked: bool)
        requires
            lvt_fits::<T>(old(apic)),
        ensures
            final(apic).wrote(
                old(apic),
                T::spec_register(),
                u32_with_bit(lvt_raw::<T>(old(apic)), 16, masked) as u64,
            ),
    {
        let value = u32_set_bit(self.read_raw(apic), 16, masked);
        self.write_raw(apic, value);
    }

    /// The interrupt vector number (bits 0..8).
    pub fn get_vector(&self, apic: &x2Apic) -> (r: u8)
        requires
            lvt_fits::<T>(apic),
        ensures
            r == u32_bits(lvt_raw::<T>(apic), 0, 8),
    {
        let vector = u32_get_bits(self.read_raw(apic), 0, 8);
        proof {
            lemma_u32_bits_fit(lvt_raw::<T>(apic), 0, 8);
            lemma_u32_masks();
        }
        vector as u8
    }

    /// Sets the interrupt vector number; vectors 0 to 15 are reserved.
    pub fn set_vector(&self, apic: &mut x2Apic, vector: u8)
        requires
            lvt_fits::<T>(old(apic)),
            vector > 15,
        ensures
            final(apic).wrote(
                old(apic),
                T::spec_register(),
                u32_with_bits(lvt_raw::<T>(old(apic)), 0, 8, vector as u32) as u64,
            ),
    {
        proof {
            lemma_u32_masks();
        }
        let value = u32_set_bits(self.read_raw(apic), 0, 8, vector as u32);
        self.write_raw(apic, value);
    }
}

impl<T: Deliverable> LocalVector<T> {
    /// Specifies the type of interrupt to be sent to the processor (bits
    /// 8..11).
    pub fn set_delivery_mode(&self, apic: &mut x2Apic, mode: InterruptDeliveryMode)
        requires
            lvt_fits::<T>(old(apic)),
        ensures
            final(apic).wrote(
                old(apic),
                T::spec_register(),
                u32_with_bits(lvt_raw::<T>(old(apic)), 8, 11, mode.spec_bits()) as u64,
            ),
    {
        proof {
            lemma_u32_masks();
        }
        let value = u32_set_bits(self.read_raw(apic), 8, 11, mode.as_u32());
        self.write_raw(apic, value);
    }
}

/// Modes of the APIC timer.
#[derive(Debug, Clone, Copy, PartialEq, Eq, Structural)]
pub enum TimerMode {
    /// One-shot, counting down once.
    OneShot,
    /// Periodic, reloading the count.
    Periodic,
    /// Fires when the timestamp counter reaches `IA32_TSC_DEADLINE`.
    TscDeadline,
}

impl TimerMode {
    /// The two-bit encoding (`u32::from`).
    pub open spec fn spec_bits(self) -> u32 {
        match self {
            TimerMode::OneShot => 0b00,
            TimerMode::Periodic => 0b01,
            TimerMode::TscDeadline => 0b10,
        }
    }

    /// The two-bit encoding (`u32::from`): one-shot 0, periodic 1,
    /// timestamp counter deadline 2.
    pub fn as_u32(self) -> (r: u32)
        ensures
            r == self.spec_bits(),
            self == TimerMode::OneShot ==> r == 0,
            self == TimerMode::Periodic ==> r == 1,
            self == TimerMode::TscDeadline ==> r == 2,
    {
        match self {
            TimerMode::OneShot => 0b00,
            TimerMode::Periodic => 0b01,
            TimerMode::TscDeadline => 0b10,
        }
    }

    /// The mode encoded by `bits` (`TryFrom<u32>`); `None` for other values.
    pub fn try_from_u32(bits: u32) -> (r: Option<Self>)
        ensures
            r is Some <==> bits < 3,
            r matches Some(mode) ==> mode.spec_bits() == bits,
            bits == 0 ==> r == Some(TimerMode::OneShot),
            bits == 1 ==> r == Some(TimerMode::Periodic),
            bits == 2 ==> r == Some(TimerMode::TscDeadline),
    {
        if bits == 0b00 {
            Some(TimerMode::OneShot)
        } else if bits == 0b01 {
            Some(TimerMode::Periodic)
        } else if bits == 0b10 {
            Some(TimerMode::TscDeadline)
        } else {
            None
        }
    }
}

impl LocalVector<Timer> {
    /// The mode the timer operates in (bits 17..19); the field must not
    /// hold the reserved value 3.
    pub fn get_mode(&self, apic: &x2Apic) -> (r: TimerMode)
        requires
            lvt_fits::<Timer>(apic),
            u32_bits(lvt_raw::<Timer>(apic), 17, 19) != 3,
        ensures
            r.spec_bits() == u32_bits(lvt_raw::<Timer>(apic), 17, 19),
            u32_bits(lvt_raw::<Timer>(apic), 17, 19) == 0 ==> r == TimerMode::OneShot,
            u32_bits(lvt_raw::<Timer>(apic), 17, 19) == 1 ==> r == TimerMode::Periodic,
            u32_bits(lvt_raw::<Timer>(apic), 17, 19) == 2 ==> r == TimerMode::TscDeadline,
    {
        let bits = u32_get_bits(self.read_raw(apic), 17, 19);
        proof {
            lemma_u32_bits_fit(lvt_raw::<Timer>(apic), 17, 19);
            lemma_u32_masks();
        }
        match TimerMode::try_from_u32(bits) {
            Some(mode) => mode,
            None => TimerMode::OneShot,
        }
    }

    /// Sets the timer's mode. The timestamp counter deadline mode needs
    /// processor support (`has_tsc_deadline`, from CPUID).
    pub fn set_mode(&self, apic: &mut x2Apic, mode: TimerMode, has_tsc_deadline: bool)
        requires
            lvt_fits::<Timer>(old(apic)),
            mode == TimerMode::TscDeadline ==> has_tsc_deadline,
        ensures
            final(apic).wrote(
                old(apic),
                Register::LVT_TIMER,
                u32_with_bits(lvt_raw::<Timer>(old(apic)), 17, 19, mode.spec_bits()) as u64,
            ),
            lvt_fits::<Timer>(final(apic)),
            mode == TimerMode::OneShot ==> u32_bits(lvt_raw::<Timer>(final(apic)), 17, 19) == 0,
            mode == TimerMode::Periodic ==> u32_bits(lvt_raw::<Timer>(final(apic)), 17, 19) == 1,
            mode == TimerMode::TscDeadline ==> u32_bits(lvt_raw::<Timer>(final(apic)), 17, 19)
                == 2,
    {
        proof {
            lemma_u32_masks();
        }
        let ghost before = *apic;
        let value = u32_set_bits(self.read_raw(apic), 17, 19, mode.as_u32());
        self.write_raw(apic, value);
        proof {
            lemma_timer_mode_encoding(&before, apic, mode);
        }
    }
}

/// The timer mode field (bits 17..19 of the timer entry) is encoded as the
/// architecture fixes it: one-shot 0, periodic 1, timestamp counter
/// deadline 2; setting a mode leaves exactly that value in the field, and
/// reading the field back gives the mode set.
pub proof fn lemma_timer_mode_encoding(before: &x2Apic, after: &x2Apic, mode: TimerMode)
    requires
        lvt_fits::<Timer>(before),
        after.wrote(
            before,
            Register::LVT_TIMER,
            u32_with_bits(lvt_raw::<Timer>(before), 17, 19, mode.spec_bits()) as u64,
        ),
    ensures
        mode == TimerMode::OneShot ==> mode.spec_bits() == 0,
        mode == TimerMode::Periodic ==> mode.spec_bits() == 1,
        mode == TimerMode::TscDeadline ==> mode.spec_bits() == 2,
        lvt_fits::<Timer>(after),
        mode == TimerMode::OneShot ==> u32_bits(lvt_raw::<Timer>(after), 17, 19) == 0,
        mode == TimerMode::Periodic ==> u32_bits(lvt_raw::<Timer>(after), 17, 19) == 1,
        mode == TimerMode::TscDeadline ==> u32_bits(lvt_raw::<Timer>(after), 17, 19) == 2,
        u32_bits(lvt_raw::<Timer>(after), 17, 19) != 3,
        u32_bits(lvt_raw::<Timer>(after), 17, 19) == mode.spec_bits(),
{
    lemma_u32_masks();
    lemma_read_after_write(
        before,
        after,
        Register::LVT_TIMER,
        u32_with_bits(lvt_raw::<Timer>(before), 17, 19, mode.spec_bits()) as u64,
    );
    lemma_u32_bits_of_with_bits(lvt_raw::<Timer>(before), 17, 19, mode.spec_bits(), 17, 19);
}

/// Masking or unmasking an entry and reading the mask back gives the value
/// set, and the entry register then still holds a 32-bit value.
pub proof fn lemma_masked_round_trip<T: Kind>(before: &x2Apic, after: &x2Apic, masked: bool)
    requires
        lvt_fits::<T>(before),
        after.wrote(
            before,
            T::spec_register(),
            u32_with_bit(lvt_raw::<T>(before), 16, masked) as u64,
        ),
    ensures
        lvt_fits::<T>(after),
        u32_bit(lvt_raw::<T>(after), 16) == masked,
{
    lemma_read_after_write(
        before,
        after,
        T::spec_register(),
        u32_with_bit(lvt_raw::<T>(before), 16, masked) as u64,
    );
    lemma_u32_bit_of_with_bit(lvt_raw::<T>(before), 16, masked, 16);
}

/// Setting an entry's vector and reading it back gives the vector set, and
/// the entry register then still holds a 32-bit value.
pub proof fn lemma_vector_round_trip<T: Kind>(before: &x2Apic, after: &x2Apic, vector: u8)
    requires
        lvt_fits::<T>(before),
        after.wrote(
            before,
            T::spec_register(),
            u32_with_bits(lvt_raw::<T>(before), 0, 8, vector as u32) as u64,
        ),
    ensures
        lvt_fits::<T>(after),
        u32_bits(lvt_raw::<T>(after), 0, 8) == vector,
{
    lemma_u32_masks();
    lemma_read_after_write(
        before,
        after,
        T::spec_register(),
        u32_with_bits(lvt_raw::<T>(before), 0, 8, vector as u32) as u64,
    );
    lemma_u32_bits_of_with_bits(lvt_raw::<T>(before), 0, 8, vector as u32, 0, 8);
}

impl x2Apic {
    /// The local interrupt 0 entry.
    pub fn lvt_lint0() -> LocalVector<LINT0> {
        LocalVector(LINT0)
    }

    /// The local interrupt 1 entry.
    pub fn lvt_lint1() -> LocalVector<LINT1> {
        LocalVector(LINT1)
    }

    /// The error entry.
    pub fn lvt_error() -> LocalVector<Error> {
        LocalVector(Error)
    }

    /// The timer entry.
    pub fn lvt_timer() -> LocalVector<Timer> {
        LocalVector(Timer)
    }

    /// The performance counter entry, present when the controller has at
    /// least five entries (maximum entry index 4 or more).
    pub fn lvt_performance_counter(&self) -> (r: Option<LocalVector<PerformanceCounter>>)
        ensures
            r is Some <==> crate::bitfield::u64_bits(self.reg(Register::VERSION), 16, 24) >= 4,
    {
        if self.max_lvt_entry() >= 4 {
            Some(LocalVector(PerformanceCounter))
        } else {
            None
        }
    }

    /// The thermal monitor entry, present when the controller has at least
    /// six entries.
    pub fn lvt_thermal_monitor(&self) -> (r: Option<LocalVector<ThermalSensor>>)
        ensures
            r is Some <==> crate::bitfield::u64_bits(self.reg(Register::VERSION), 16, 24) >= 5,
    {
        if self.max_lvt_entry() >= 5 {
            Some(LocalVector(ThermalSensor))
        } else {
            None
        }
    }

    /// The corrected machine-check interrupt entry, present when the
    /// controller has at least seven entries.
    pub fn lvt_cmci(&self) -> (r: Option<LocalVector<CMCI>>)
        ensures
            r is Some <==> crate::bitfield::u64_bits(self.reg(Register::VERSION), 16, 24) >= 6,
    {
        if self.max_lvt_entry() >= 6 {
            Some(LocalVector(CMCI))
        } else {
            None
        }
    }
}

} // verus!
