//! The x86-64 timer source: the timestamp counter when it is usable, the
//! local APIC timer otherwise.
use vstd::prelude::*;

verus! {

/// The source of the system clock.
#[derive(Debug, Clone, Copy, PartialEq, Eq, Structural)]
pub enum ClockSource {
    TimestampCounter,
    LocalApic,
}

/// The processor frequency leaf of CPUID: bus, base and maximum frequency.
#[derive(Debug, Clone, Copy, PartialEq, Eq, Structural)]
pub struct ProcessorFrequencyInfo {
    pub bus_frequency: u16,
    pub processor_base_frequency: u16,
    pub processor_max_frequency: u16,
}

/// The hypervisor leaves of CPUID: the timestamp counter and APIC timer
/// frequencies, where the hypervisor reports them.
#[derive(Debug, Clone, Copy, PartialEq, Eq, Structural)]
pub struct HypervisorInfo {
    pub tsc_frequency: Option<u32>,
    pub apic_frequency: Option<u32>,
}

/// What CPUID reports that decides the clock.
#[derive(Debug, Clone, Copy, PartialEq, Eq, Structural)]
pub struct ClockFeatures {
    pub has_tsc: bool,
    pub has_tsc_deadline: bool,
    pub has_invariant_tsc: bool,
    pub has_hypervisor: bool,
    pub processor_frequency_info: Option<ProcessorFrequencyInfo>,
    pub hypervisor_info: Option<HypervisorInfo>,
}

/// Whether the timestamp counter is usable as the clock: present, with
/// deadline mode, and invariant.
pub open spec fn uses_tsc(features: ClockFeatures) -> bool {
    features.has_tsc && features.has_tsc_deadline && features.has_invariant_tsc
}

/// The timestamp counter frequency that the hypervisor reports, looked at
/// only when CPUID says a hypervisor is present.
pub open spec fn hypervisor_tsc_frequency(features: ClockFeatures) -> Option<u32> {
    if features.has_hypervisor {
        match features.hypervisor_info {
            Some(info) => info.tsc_frequency,
            None => None,
        }
    } else {
        None
    }
}

/// The APIC timer frequency that the hypervisor reports.
pub open spec fn hypervisor_apic_frequency(features: ClockFeatures) -> Option<u32> {
    match features.hypervisor_info {
        Some(info) => info.apic_frequency,
        None => None,
    }
}

/// Whether [`ArchClock::configure`] can choose a frequency: the clock's
/// frequency must be reported, and a reported processor frequency leaf
/// must have nonzero base and maximum frequencies (it is divided by their
/// product). Measuring the frequency against another source is not
/// available.
pub open spec fn configure_requires(features: ClockFeatures) -> bool {
    if uses_tsc(features) {
        match features.processor_frequency_info {
            Some(info) => info.processor_base_frequency != 0 && info.processor_max_frequency != 0,
            None => hypervisor_tsc_frequency(features) is Some,
        }
    } else {
        hypervisor_apic_frequency(features) is Some
    }
}

/// Whether [`ArchClock::configure`] can choose a frequency for `features`
/// (see [`configure_requires`]).
pub fn can_configure(features: &ClockFeatures) -> (r: bool)
    ensures
        r == configure_requires(*features),
        !features.has_tsc_deadline ==> (r == (features.hypervisor_info matches Some(info)
            && info.apic_frequency is Some)),
{
    if features.has_tsc && features.has_tsc_deadline && features.has_invariant_tsc {
        match features.processor_frequency_info {
            Some(info) => info.processor_base_frequency != 0 && info.processor_max_frequency != 0,
            None => features.has_hypervisor && match features.hypervisor_info {
                Some(info) => info.tsc_frequency.is_some(),
                None => false,
            },
        }
    } else {
        match features.hypervisor_info {
            Some(info) => info.apic_frequency.is_some(),
            None => false,
        }
    }
}

/// The frequency and source that [`ArchClock::configure`] chooses.
pub open spec fn configured_frequency(features: ClockFeatures) -> u64 {
    if uses_tsc(features) {
        match features.processor_frequency_info {
            Some(info) => {
                let divisor = info.processor_base_frequency as int
                    * info.processor_max_frequency as int;
                (info.bus_frequency as int / divisor) as u64
            },
            None => hypervisor_tsc_frequency(features)->0 as u64,
        }
    } else {
        hypervisor_apic_frequency(features)->0 as u64
    }
}

/// The clock of the architecture.
#[derive(Debug, Clone, Copy, PartialEq, Eq, Structural)]
pub struct ArchClock {
    frequency: u64,
    source: ClockSource,
}

impl ArchClock {
    pub closed spec fn spec_frequency(&self) -> u64 {
        self.frequency
    }

    pub closed spec fn spec_source(&self) -> ClockSource {
        self.source
    }

    /// Chooses the clock: the timestamp counter when it is present, has
    /// deadline mode and is invariant, with the frequency from the
    /// processor frequency leaf (bus frequency divided by the product of
    /// the base and maximum frequencies) or else from the hypervisor; the
    /// local APIC timer otherwise, with the frequency the hypervisor
    /// reports.
    pub fn configure(features: ClockFeatures) -> (r: Self)
        requires
            configure_requires(features),
        ensures
            r.spec_source() == if uses_tsc(features) {
                ClockSource::TimestampCounter
            } else {
                ClockSource::LocalApic
            },
            r.spec_frequency() == configured_frequency(features),
            (r.spec_source() == ClockSource::TimestampCounter) == (features.has_tsc
                && features.has_tsc_deadline && features.has_invariant_tsc),
            !features.has_tsc_deadline ==> r.spec_source() == ClockSource::LocalApic,
            features.has_tsc && features.has_tsc_deadline && features.has_invariant_tsc ==> (
            features.processor_frequency_info matches Some(info) ==> r.spec_frequency()
                == info.bus_frequency as int / (info.processor_base_frequency as int
                * info.processor_max_frequency as int)),
            !(features.has_tsc && features.has_tsc_deadline && features.has_invariant_tsc) ==> (
            features.hypervisor_info matches Some(info) ==> (info.apic_frequency matches Some(
                f,
            ) ==> r.spec_frequency() == f)),
    {
        if features.has_tsc && features.has_tsc_deadline && features.has_invariant_tsc {
            let frequency = match features.processor_frequency_info {
                Some(info) => {
                    let base = info.processor_base_frequency as u64;
                    let max = info.processor_max_frequency as u64;
                    assert(base * max <= 0xFFFF_FFFF) by (nonlinear_arith)
                        requires
                            base <= 0xFFFF,
                            max <= 0xFFFF,
                    ;
                    let divisor = base * max;
                    assert(divisor != 0) by (nonlinear_arith)
                        requires
                            divisor == base * max,
                            base != 0,
                            max != 0,
                    ;
                    (info.bus_frequency as u64) / divisor
                },
                None => {
                    let reported = if features.has_hypervisor {
                        match features.hypervisor_info {
                            Some(info) => info.tsc_frequency,
                            None => None,
                        }
                    } else {
                        None
                    };
                    match reported {
                        Some(frequency) => frequency as u64,
                        None => 0,
                    }
                },
            };
            Self { frequency, source: ClockSource::TimestampCounter }
        } else {
            let reported = match features.hypervisor_info {
                Some(info) => info.apic_frequency,
                None => None,
            };
            let frequency = match reported {
                Some(frequency) => frequency as u64,
                None => 0,
            };
            Self { frequency, source: ClockSource::LocalApic }
        }
    }

    /// The clock's frequency.
    pub fn frequency(&self) -> (r: u64)
        ensures
            r == self.spec_frequency(),
    {
        self.frequency
    }

    /// The clock's source.
    pub fn source(&self) -> (r: ClockSource)
        ensures
            r == self.spec_source(),
    {
        self.source
    }
}

/// The timestamp counter is the clock exactly when it is present, has
/// deadline mode and is invariant; without deadline mode the local APIC
/// timer is. Its frequency is then the bus frequency over the product of
/// the base and maximum frequencies, where the processor reports them, and
/// the local APIC timer's is the one the hypervisor reports.
pub proof fn lemma_clock_choice(features: ClockFeatures)
    ensures
        uses_tsc(features) == (features.has_tsc && features.has_tsc_deadline
            && features.has_invariant_tsc),
        !features.has_tsc_deadline ==> !uses_tsc(features),
        !features.has_tsc_deadline ==> (configure_requires(features) == (
        features.hypervisor_info matches Some(info) && info.apic_frequency is Some)),
        features.has_tsc && features.has_tsc_deadline && features.has_invariant_tsc ==> (
        features.processor_frequency_info matches Some(info) ==> configured_frequency(features)
            == (info.bus_frequency as int / (info.processor_base_frequency as int
            * info.processor_max_frequency as int)) as u64),
        !(features.has_tsc && features.has_tsc_deadline && features.has_invariant_tsc) ==> (
        features.hypervisor_info matches Some(info) ==> (info.apic_frequency matches Some(f)
            ==> configured_frequency(features) == f)),
{
}

} // verus!
