use pyre_kernel::arch::x86_64::devices::local_apic::{
    ApicWrite, Kind, LocalApic, Register as XRegister,
};
use pyre_kernel::arch::x86_64::devices::x2apic::local_vector::TimerMode;
use pyre_kernel::arch::x86_64::devices::x2apic::{
    x2Apic, ErrorStatus, InterruptDeliveryMode, MsrWrite, Register, ResetVectors,
};

fn x2apic_with(version: u64, spurious: u64) -> x2Apic {
    let mut registers = [0u64; 19];
    registers[Register::VERSION.slot()] = version;
    registers[Register::SPURIOUS_VECTOR.slot()] = spurious;
    x2Apic::new(registers)
}

#[test]
fn x2apic_reset_programs_every_entry_it_has() {
    let mut apic = x2apic_with(0x0006_0014, 0x10F);
    let vectors = ResetVectors {
        spurious: 0xFF,
        error: 0xFE,
        timer: 0x20,
        performance_counter: 0xFD,
        thermal_sensor: 0xFC,
        cmci: 0xFB,
    };
    apic.reset(vectors);
    assert!(!apic.get_enabled());
    assert_eq!(apic.get_spurious_vector(), 0xFF);
    assert_eq!(apic.read_register(Register::LVT_ERROR), 0xFE);
    assert_eq!(apic.read_register(Register::LVT_TIMER), 0x1_0020);
    assert_eq!(apic.read_register(Register::LVT_PERFORMANCE_COUNTER), 0xFD);
    assert_eq!(apic.read_register(Register::LVT_THERMAL_MONITOR), 0xFC);
    assert_eq!(apic.read_register(Register::LVT_CMCI), 0xFB);
    let writes = apic.take_writes();
    assert_eq!(writes.len(), 12);
    assert_eq!(writes[0], MsrWrite { address: 0x80F, value: 0x00F });
    assert_eq!(writes[1], MsrWrite { address: 0x80F, value: 0x0FF });
    assert!(apic.writes().is_empty());
}

#[test]
fn x2apic_reset_skips_entries_it_lacks() {
    let mut apic = x2apic_with(0x0003_0014, 0);
    apic.reset(ResetVectors {
        spurious: 0xFF,
        error: 0xFE,
        timer: 0x20,
        performance_counter: 0xFD,
        thermal_sensor: 0xFC,
        cmci: 0xFB,
    });
    assert_eq!(apic.max_lvt_entry(), 3);
    assert_eq!(apic.read_register(Register::LVT_PERFORMANCE_COUNTER), 0);
    assert_eq!(apic.read_register(Register::LVT_CMCI), 0);
    assert_eq!(apic.take_writes().len(), 6);
}

#[test]
fn x2apic_spurious_vector_round_trip_keeps_enable_bit() {
    let mut apic = x2apic_with(0, 0x100);
    apic.set_spurious_vector(0x42);
    assert_eq!(apic.get_spurious_vector(), 0x42);
    assert!(apic.get_enabled());
    apic.set_enabled(false);
    assert_eq!(apic.get_spurious_vector(), 0x42);
    assert!(!apic.get_enabled());
}

#[test]
fn local_vector_set_vector_keeps_mask() {
    let mut apic = x2apic_with(0x0006_0014, 0);
    let timer = x2Apic::lvt_timer();
    timer.set_masked(&mut apic, true);
    timer.set_vector(&mut apic, 0x30);
    assert_eq!(timer.get_vector(&apic), 0x30);
    assert!(timer.get_masked(&apic));
    timer.set_masked(&mut apic, false);
    assert_eq!(timer.get_vector(&apic), 0x30);
    assert!(!timer.get_masked(&apic));
    timer.set_mode(&mut apic, TimerMode::Periodic, false);
    assert_eq!(timer.get_mode(&apic), TimerMode::Periodic);
}

#[test]
fn x2apic_error_status_flags() {
    let status = ErrorStatus::from_bits_truncate(0x1FF);
    assert_eq!(status.bits(), 0xFF);
    assert!(status.contains(ErrorStatus::ILLEGAL_REGISTER_ADDRESS));
    let mut apic = x2apic_with(0, 0);
    apic.refresh(Register::ERROR_STATUS, 0x21);
    assert_eq!(apic.get_error_status().bits(), 0x21);
}

#[test]
fn delivery_mode_encodings() {
    assert_eq!(u32::from(InterruptDeliveryMode::Fixed), 0b000);
    assert_eq!(u32::from(InterruptDeliveryMode::NonMaskable), 0b100);
    assert_eq!(u32::from(InterruptDeliveryMode::StartUp), 0b110);
    assert_eq!(u32::from(InterruptDeliveryMode::External), 0b111);
}

#[test]
fn xapic_writes_go_to_memory_sixteen_bytes_per_register() {
    let base = 0xFEE0_0000usize;
    let mut apic = LocalApic::new(Kind::xApic(base), [0u32; 18]);
    apic.set_spurious_vector(0xFF);
    assert_eq!(apic.get_spurious_vector(), 0xFF);
    let writes = apic.take_writes();
    assert_eq!(
        writes[0],
        ApicWrite::Mmio {
            address: base + (XRegister::SPURIOUS_VECTOR.address() as usize) * 0x10,
            value: 0xFF
        }
    );
}

#[test]
fn x2apic_kind_writes_model_specific_registers() {
    let mut apic = LocalApic::new(Kind::x2Apic, [0u32; 18]);
    apic.set_enabled(true);
    let writes = apic.take_writes();
    assert_eq!(writes[0], ApicWrite::Msr { register: 0x80F, low: 0x100, high: 0 });
}

#[test]
fn apic_kind_follows_the_x2_mode_bit() {
    assert_eq!(LocalApic::kind_from_apic_base(1 << 10, 0x1000), Kind::x2Apic);
    assert_eq!(LocalApic::kind_from_apic_base(0xFEE0_0900, 0x1000), Kind::xApic(0x1000));
}

#[test]
fn x2apic_timer_initial_count_reads_back_what_was_set() {
    let mut apic = x2apic_with(0, 0);
    apic.set_timer_initial_count(0xDEAD_BEEF);
    assert_eq!(apic.get_timer_initial_count(), 0xDEAD_BEEF);
    apic.set_enabled(true);
    assert_eq!(apic.get_timer_initial_count(), 0xDEAD_BEEF);
    assert!(apic.get_enabled());
}

#[test]
fn local_vector_entries_read_back_what_was_set() {
    let mut apic = x2apic_with(0x0005_0014, 0);
    let lint0 = x2Apic::lvt_lint0();
    let error = x2Apic::lvt_error();
    lint0.set_vector(&mut apic, 0x40);
    error.set_vector(&mut apic, 0x41);
    error.set_masked(&mut apic, true);
    assert_eq!(lint0.get_vector(&apic), 0x40);
    assert!(!lint0.get_masked(&apic));
    assert_eq!(error.get_vector(&apic), 0x41);
    assert!(error.get_masked(&apic));
}

#[test]
fn eoi_broadcast_suppression_reads_clear_without_support() {
    let mut supported = x2apic_with(1 << 24, 0);
    assert!(supported.can_suppress_eoi_broadcast());
    supported.set_eoi_broadcast_suppression(true);
    assert!(supported.get_eoi_broadcast_suppression());
    supported.set_eoi_broadcast_suppression(false);
    assert!(!supported.get_eoi_broadcast_suppression());

    let mut unsupported = x2apic_with(0, 1 << 12);
    assert!(!unsupported.can_suppress_eoi_broadcast());
    assert!(!unsupported.get_eoi_broadcast_suppression());
    unsupported.set_eoi_broadcast_suppression(false);
    assert!(!unsupported.get_eoi_broadcast_suppression());
}
