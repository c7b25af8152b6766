use pyre_kernel::drivers::ahci::hba::command::{Command, PRDTEntry};
use pyre_kernel::drivers::ahci::hba::port::{
    Class, CommandStatus, DeviceDetection, InterfacePowerManagement, InterfaceSpeed,
    ConfigurePhase, InterruptStatus, Port, ReadPhase, ReadProgress, ReadWait, SATAStatus,
    MAX_SPIN,
};
use pyre_kernel::drivers::ahci::{CommandType, AHCI, MASS_STORAGE_CONTROLLER, SERIAL_ATA};
use pyre_kernel::drivers::graphics::framebuffer::{FramebufferDriver, Size};

#[test]
fn prdt_entry_byte_count_is_sectors_times_512_less_one() {
    let mut entry = PRDTEntry::zeroed();
    entry.set_sector_count(1);
    assert_eq!(entry.get_byte_count(), 511);
    entry.set_sector_count(8);
    assert_eq!(entry.get_byte_count(), 4095);
    entry.set_sector_count(8192);
    assert_eq!(entry.get_byte_count(), 0x3F_FFFF);
    assert!(!entry.get_interrupt_on_completion());
    entry.clear();
    assert_eq!(entry.get_byte_count(), 0);
}

#[test]
fn command_header_reset_and_table_size() {
    assert_eq!(Command::total_command_alloc(1), 144);
    assert_eq!(Command::total_command_alloc(8), 256);
    let mut command = Command::zeroed();
    command.reset(1, 20, 0x1_2345_6780);
    assert_eq!(command.get_fis_len(), 5);
    assert_eq!(command.prdt_len(), 1);
    assert_eq!(command.command_table_address(), 0x1_2345_6780);
    command.set_write(true);
    assert!(command.get_write());
    assert_eq!(command.get_fis_len(), 5);
}

fn sata_port(status: u32, signature: u32) -> Port {
    Port {
        cmd_list: 0,
        fis_addr: 0,
        interrupt_status: InterruptStatus::new(0),
        command_status: CommandStatus::new(0),
        task_file_data: 0,
        signature,
        sata_status: SATAStatus::new(status),
        command_issue: 0,
    }
}

#[test]
fn sata_status_fields() {
    let status = SATAStatus::new(0x123);
    assert_eq!(status.device_detection(), DeviceDetection::DetectedAndPhy);
    assert_eq!(status.interface_speed(), InterfaceSpeed::Gen2);
    assert_eq!(status.interface_pwm(), InterfacePowerManagement::Active);
}

#[test]
fn port_class_needs_an_active_device() {
    assert_eq!(sata_port(0x123, 0x0000_0101).class(), Class::SATA);
    assert_eq!(sata_port(0x123, 0xEB14_0101).class(), Class::SATAPI);
    assert_eq!(sata_port(0x623, 0x0000_0101).class(), Class::NoDevice);
    assert_eq!(sata_port(0x121, 0x0000_0101).class(), Class::NoDevice);
}

#[test]
fn ahci_keeps_the_sata_ports() {
    let ports = vec![
        sata_port(0x123, 0x0000_0101),
        sata_port(0x000, 0),
        sata_port(0x123, 0x9669_0101),
        sata_port(0x123, 0xEB14_0101),
    ];
    let ahci = AHCI::from_pcie_device(MASS_STORAGE_CONTROLLER, SERIAL_ATA, &ports);
    assert_eq!(ahci.sata_ports(), &vec![0, 3]);
    assert_eq!(CommandType::ReadDMA.opcode(), 0x25);
}

#[test]
fn port_start_stop_and_issue() {
    let mut port = sata_port(0x123, 0x0000_0101);
    port.start_cmd();
    assert!(port.command_status().get_st());
    assert!(port.command_status().get_fre());
    port.issue_command_slot(5);
    assert!(port.check_command_slot(5));
    assert!(!port.check_command_slot(0));
    port.stop_cmd();
    assert!(!port.command_status().get_st());
    assert!(!port.command_status().get_fre());
    let mut status = CommandStatus::new(0);
    assert_eq!(status.set_pod(true), Err(()));
    let mut status_cpd = CommandStatus::new(1 << 20);
    assert_eq!(status_cpd.set_pod(true), Ok(()));
    assert!(status_cpd.get_pod());
    assert!(!status.get_pod());
}

#[test]
fn port_configure_stops_repoints_then_starts() {
    let mut port = sata_port(0x123, 0x0000_0101);
    port.command_status = CommandStatus::new(0x1 | 0x10 | (1 << 14) | (1 << 15));
    let phase = port.configure(ConfigurePhase::Begin, 0x4000, 0x5000);
    assert_eq!(phase, ConfigurePhase::Stopping);
    assert!(!port.command_status().get_st());
    assert!(!port.command_status().get_fre());
    // The engines still report running: nothing moves.
    let phase = port.configure(phase, 0x4000, 0x5000);
    assert_eq!(phase, ConfigurePhase::Stopping);
    assert_eq!(port.command_list(), 0);
    port.command_status = CommandStatus::new(1 << 15);
    assert_eq!(port.configure(phase, 0x4000, 0x5000), ConfigurePhase::Stopping);
    port.command_status = CommandStatus::new(0);
    let phase = port.configure(phase, 0x4000, 0x5000);
    assert_eq!(phase, ConfigurePhase::Starting);
    assert_eq!(port.command_list(), 0x4000);
    assert_eq!(port.fis_addr, 0x5000);
    assert!(!port.command_status().get_st());
    let phase = port.configure(phase, 0x4000, 0x5000);
    assert_eq!(phase, ConfigurePhase::Configured);
    assert!(port.command_status().get_st());
    assert!(port.command_status().get_fre());
    assert_eq!(port.configure(phase, 0x6000, 0x7000), ConfigurePhase::Configured);
    assert_eq!(port.command_list(), 0x4000);
}

#[test]
fn read_steps() {
    let mut port = sata_port(0x123, 0x0000_0101);
    port.task_file_data = 0x80;
    assert_eq!(port.read_wait_step(0), ReadWait::Spin);
    assert_eq!(port.read_wait_step(MAX_SPIN - 1), ReadWait::Spin);
    assert_eq!(port.read_wait_step(MAX_SPIN), ReadWait::GiveUp);
    port.task_file_data = 0x50;
    assert_eq!(port.read_wait_step(0), ReadWait::Ready);
    assert_eq!(port.read_wait_step(MAX_SPIN), ReadWait::GiveUp);
    port.interrupt_status = InterruptStatus::new(0xFFFF);
    let mut command = Command::zeroed();
    let mut entry = PRDTEntry::zeroed();
    port.prepare_read(&mut command, &mut entry, 2, 20, 0x8000, 0x9000);
    assert_eq!(port.interrupt_status().bits(), 0);
    assert!(!command.get_write());
    assert_eq!(entry.get_byte_count(), 1023);
    assert_eq!(Port::read_buffer_len(2), 1024);
    port.start_cmd();
    port.issue_read();
    assert_eq!(port.read_step(), ReadProgress::Pending);
    port.interrupt_status = InterruptStatus::new(1 << 30);
    assert_eq!(port.read_step(), ReadProgress::Failed);
    port.refresh_command_issue(0);
    assert_eq!(port.read_step(), ReadProgress::Complete);
}

#[test]
fn read_runs_from_waiting_to_complete() {
    let mut port = sata_port(0x123, 0x0000_0101);
    port.start_cmd();
    port.task_file_data = 0x88;
    port.interrupt_status = InterruptStatus::new(0xFF);
    let mut command = Command::zeroed();
    let mut entry = PRDTEntry::zeroed();
    let phase = port.read(ReadPhase::Waiting { spin: 0 }, &mut command, &mut entry, 4, 20, 0x8000, 0x9000);
    assert_eq!(phase, ReadPhase::Waiting { spin: 1 });
    assert_eq!(port.command_issue(), 0);
    port.task_file_data = 0x50;
    let phase = port.read(phase, &mut command, &mut entry, 4, 20, 0x8000, 0x9000);
    assert_eq!(phase, ReadPhase::Issued);
    assert_eq!(port.interrupt_status().bits(), 0);
    assert!(port.check_command_slot(0));
    assert_eq!(entry.get_byte_count(), 4 * 512 - 1);
    assert_eq!(command.command_table_address(), 0x8000);
    let phase = port.read(phase, &mut command, &mut entry, 4, 20, 0x8000, 0x9000);
    assert_eq!(phase, ReadPhase::Issued);
    port.refresh_command_issue(0);
    let phase = port.read(phase, &mut command, &mut entry, 4, 20, 0x8000, 0x9000);
    assert_eq!(phase, ReadPhase::Complete);
    assert_eq!(port.read(phase, &mut command, &mut entry, 4, 20, 0x8000, 0x9000), ReadPhase::Complete);
}

#[test]
fn read_gives_up_on_a_busy_device_and_fails_on_a_task_file_error() {
    let mut port = sata_port(0x123, 0x0000_0101);
    port.start_cmd();
    port.task_file_data = 0x80;
    let mut command = Command::zeroed();
    let mut entry = PRDTEntry::zeroed();
    let mut phase = ReadPhase::Waiting { spin: 0 };
    let mut polls: u64 = 0;
    while let ReadPhase::Waiting { .. } = phase {
        phase = port.read(phase, &mut command, &mut entry, 1, 20, 0x8000, 0x9000);
        polls += 1;
    }
    assert_eq!(phase, ReadPhase::Busy);
    assert_eq!(polls, MAX_SPIN + 1);
    assert_eq!(port.command_issue(), 0);

    port.task_file_data = 0;
    let phase = port.read(ReadPhase::Waiting { spin: 0 }, &mut command, &mut entry, 1, 20, 0x8000, 0x9000);
    assert_eq!(phase, ReadPhase::Issued);
    port.interrupt_status = InterruptStatus::new(1 << 30);
    let phase = port.read(phase, &mut command, &mut entry, 1, 20, 0x8000, 0x9000);
    assert_eq!(phase, ReadPhase::TaskFileError);
}

#[test]
fn framebuffer_draws_into_visible_pixels() {
    let mut framebuffer = FramebufferDriver::new(Size::new(3, 2), 4, 0u32);
    assert!(framebuffer.contains_point((2, 1)));
    assert!(!framebuffer.contains_point((3, 0)));
    assert_eq!(framebuffer.point_to_offset((2, 1)), 6);
    framebuffer.write_pixel((1, 1), 0xFF00FF);
    framebuffer.clear(7);
    framebuffer.write_pixel((0, 0), 9);
    let flushed = framebuffer.flush_pixels(0);
    // The first width * height pixels of the back buffer, rows four apart.
    assert_eq!(flushed, vec![9, 7, 7, 0, 7, 7]);
    let again = framebuffer.flush_pixels(0);
    assert_eq!(again, vec![0, 0, 0, 0, 0, 0]);
    assert_eq!(framebuffer.dimensions().width(), 3);
    assert_eq!(framebuffer.dimensions().height(), 2);
}
