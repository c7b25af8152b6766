use pyre_kernel::drivers::nvme::command::{AdminCommand, CommandResult, OPCODE_IDENTIFY};
use pyre_kernel::drivers::nvme::queue::{calc_doorbell_offset, Completion, Queue, Submission};
use pyre_kernel::drivers::nvme::{
    admin_queue_attributes, max_enable_wait, set_enable_and_wait, ArbitrationMechanism,
    Capabilities, CommandSet, CommandSetsSupported, Controller, ControllerConfiguration,
    ControllerEnableError, ControllerPowerScope, ControllerStatus, EnableWait, InterruptMask,
    PendingCommand, ShutdownNotification, ShutdownStatus, Version,
};
use std::collections::BTreeMap;

#[test]
fn command_set_preference_is_admin_then_io_then_nvm() {
    let all = CommandSetsSupported::from_bits_truncate(0xFF);
    assert_eq!(all.bits(), 0xC1);
    assert_eq!(all.into_command_set(), CommandSet::Admin);
    let io = CommandSetsSupported::from_bits_truncate(0x41);
    assert_eq!(io.into_command_set(), CommandSet::IO);
    let nvm = CommandSetsSupported::from_bits_truncate(0x01);
    assert_eq!(nvm.into_command_set(), CommandSet::NVM);
}

#[test]
fn capabilities_fields() {
    // MQES 0x3FF, TO 0x14, DSTRD 2, CSS NVM + admin, CPS domain, MPSMAX 4.
    let value: u64 = 0x3FF | (0x14 << 24) | (2 << 32) | (0x81 << 37) | (0b10 << 46) | (4 << 52);
    let capabilities = Capabilities::new(value);
    assert_eq!(capabilities.get_mqes(), 0x3FF);
    assert_eq!(capabilities.get_to(), 0x14);
    assert_eq!(capabilities.get_dstrd(), 2);
    assert_eq!(capabilities.get_css().bits(), 0x81);
    assert_eq!(capabilities.get_cps(), ControllerPowerScope::DomainScope);
    assert_eq!(capabilities.get_mpsmin(), 0);
    assert_eq!(capabilities.get_mpsmax(), 4);
    assert!(!capabilities.get_cqr());
    assert_eq!(max_enable_wait(&capabilities), 0x14 * 500);
}

#[test]
fn version_fields() {
    let version = Version::new(0x0001_0400);
    assert_eq!(version.major(), 1);
    assert_eq!(version.minor(), 4);
    assert_eq!(version.tertiary(), 0);
}

#[test]
fn configuration_fields_round_trip() {
    let mut config = ControllerConfiguration::new(0);
    config.set_css(CommandSet::IO);
    assert_eq!(config.get_css(), CommandSet::IO);
    config.set_mps(3);
    assert_eq!(config.get_mps(), 3);
    config.set_ams(ArbitrationMechanism::VendorSpecific);
    assert_eq!(config.get_ams(), ArbitrationMechanism::VendorSpecific);
    config.set_shn(ShutdownNotification::Abrupt);
    assert_eq!(config.get_shn(), ShutdownNotification::Abrupt);
    config.set_iosqes(6);
    config.set_iocqes(4);
    assert_eq!(config.get_iosqes(), 6);
    assert_eq!(config.get_iocqes(), 4);
    config.set_en(true);
    assert!(config.get_en());
    assert_eq!(config.get_css(), CommandSet::IO);
}

#[test]
fn status_fields() {
    let status = ControllerStatus::new(0b1001);
    assert!(status.get_rdy());
    assert!(!status.get_cfs());
    assert_eq!(status.get_shst(), ShutdownStatus::Complete);
}

#[test]
fn interrupt_mask_sets_one_bit() {
    let mut mask = InterruptMask::new(0, 0);
    mask.mask_vector(3);
    mask.unmask_vector(31);
    assert_eq!(mask.set_value(), 0x8);
    assert_eq!(mask.clear_value(), 0x8000_0000);
}

#[test]
fn doorbell_offsets_follow_the_stride() {
    assert_eq!(calc_doorbell_offset(0, 0, 0), 0x1000);
    assert_eq!(calc_doorbell_offset(0, 1, 0), 0x1004);
    assert_eq!(calc_doorbell_offset(1, 0, 0), 0x1008);
    assert_eq!(calc_doorbell_offset(3, 1, 2), 0x1000 + 7 * 16);
}

#[test]
fn admin_queue_attributes_pack_both_sizes() {
    assert_eq!(admin_queue_attributes(4, 4), 0x0004_0004);
    assert_eq!(admin_queue_attributes(0x3F, 0x1F), 0x001F_003F);
}

#[test]
fn enable_wait_decisions() {
    let ready = ControllerStatus::new(0b01);
    let fatal = ControllerStatus::new(0b10);
    let idle = ControllerStatus::new(0);
    assert!(matches!(set_enable_and_wait(&idle, true, 0, 1000), EnableWait::Sleep));
    assert!(matches!(set_enable_and_wait(&ready, true, 0, 1000), EnableWait::Finished(Ok(()))));
    assert!(matches!(set_enable_and_wait(&idle, false, 0, 1000), EnableWait::Finished(Ok(()))));
    assert!(matches!(
        set_enable_and_wait(&fatal, true, 0, 1000),
        EnableWait::Finished(Err(ControllerEnableError::FatalStatus))
    ));
    assert!(matches!(
        set_enable_and_wait(&idle, true, 1000, 1000),
        EnableWait::Finished(Err(ControllerEnableError::NoReady))
    ));
}

#[test]
fn next_command_id_is_the_smallest_free_one() {
    let mut pending: BTreeMap<u16, &str> = BTreeMap::new();
    assert_eq!(Controller::next_command_id(&pending), 0);
    pending.insert(0, "a");
    pending.insert(1, "b");
    pending.insert(3, "c");
    assert_eq!(Controller::next_command_id(&pending), 2);
}

fn controller() -> (Controller<&'static str>, u32, ControllerConfiguration) {
    let capabilities = Capabilities::new((0x01u64 << 37) | (1 << 32));
    Controller::from_device_and_configure(&capabilities, ControllerConfiguration::new(0), 4, 2)
}

#[test]
fn controller_setup_configures_before_enabling() {
    let (controller, aqa, config) = controller();
    assert_eq!(aqa, 0x0002_0004);
    assert_eq!(config.get_css(), CommandSet::NVM);
    assert_eq!(config.get_ams(), ArbitrationMechanism::RoundRobin);
    assert_eq!(config.get_mps(), 0);
    assert_eq!(config.get_iosqes(), 6);
    assert_eq!(config.get_iocqes(), 4);
    assert!(!config.get_en());
    assert!(!controller.is_pending(0));
}

#[test]
fn submitted_identify_is_completed_once() {
    let (mut controller, _, _) = controller();
    let (pending, command) =
        controller.submit_admin_command(AdminCommand::Identify { ctrl_id: 7 }, 0x8000, "identify");
    assert_eq!(pending, PendingCommand::Identify { command_id: 0 });
    assert_eq!(command.opcode, OPCODE_IDENTIFY);
    assert_eq!(command.command_id, 0);
    assert_eq!(command.cdw10, (7 << 16) | 1);
    assert_eq!(command.data_ptr.prp1, 0x8000);
    assert_eq!(command.data_ptr.prp2, 0);
    assert!(controller.is_pending(0));
    let (second, _) =
        controller.submit_admin_command(AdminCommand::Identify { ctrl_id: 0 }, 0x9000, "second");
    assert_eq!(second, PendingCommand::Identify { command_id: 1 });

    // An entry whose phase tag matches the queue's is not new.
    let stale = CommandResult { dw0: 0, dw1: 0, sq_head: 0, sq_id: 0, command_id: 0, status: 1 };
    assert!(controller.run_step(stale).is_none());
    assert!(controller.is_pending(0));

    // A new, successful completion of command 0.
    let done = CommandResult { dw0: 0, dw1: 0, sq_head: 1, sq_id: 0, command_id: 0, status: 0 };
    let (completion, success, doorbell) = controller.run_step(done).unwrap();
    assert_eq!(completion, "identify");
    assert!(success);
    assert_eq!(doorbell, 0);
    assert!(!controller.is_pending(0));
    assert!(controller.is_pending(1));

    // A failed completion of command 1 lands in the next slot.
    let failed = CommandResult { dw0: 0, dw1: 0, sq_head: 2, sq_id: 0, command_id: 1, status: 0x2 << 1 };
    let (completion, success, doorbell) = controller.run_step(failed).unwrap();
    assert_eq!(completion, "second");
    assert!(!success);
    assert_eq!(doorbell, 1);
    assert_eq!(Controller::<&str>::next_command_id(&BTreeMap::new()), 0);
}

#[test]
fn queues_wrap_around() {
    let mut queue = Queue::<Completion>::new(1, 2, 0);
    assert_eq!(queue.doorbell(), 0x100C);
    let entry = CommandResult { dw0: 0, dw1: 0, sq_head: 0, sq_id: 0, command_id: 9, status: 0 };
    assert_eq!(queue.next_cmd_result(entry).map(|(_, doorbell)| doorbell), Some(0));
    assert_eq!(queue.next_cmd_result(entry).map(|(_, doorbell)| doorbell), Some(1));
    assert_eq!(queue.index(), 0);
    queue.invert_phase();
    assert!(queue.next_cmd_result(entry).is_none());

    let mut submissions = Queue::<Submission>::new(0, 2, 0);
    let (_, command) = {
        let (mut controller, _, _) = controller();
        controller.submit_admin_command(AdminCommand::Identify { ctrl_id: 1 }, 0x1000, "x")
    };
    submissions.submit_command(command);
    assert_eq!(submissions.entry(0), Some(command));
    assert_eq!(submissions.entry(1), None);
    assert_eq!(submissions.index(), 1);
}

#[test]
fn empty_admin_queues_are_still_built() {
    let capabilities = Capabilities::new((0x01u64 << 37) | (1 << 32));
    let (_, aqa, _) = Controller::<&'static str>::from_device_and_configure(
        &capabilities,
        ControllerConfiguration::new(0),
        0,
        0,
    );
    assert_eq!(aqa, 0);
}
