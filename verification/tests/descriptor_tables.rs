use pyre_kernel::arch::x64::structures::gdt::{
    gdt_data, kernel_code_selector, kernel_data_selector, user_code_selector, user_data_selector,
};
use pyre_kernel::arch::x64::structures::idt::exceptions::set_exception_handlers;
use pyre_kernel::arch::x86_64::structures::gdt::{
    GenericSegmentDescriptor, GlobalDescriptorTable, PrivilegeLevel, SegmentSelector,
    SystemSegmentDescriptor,
};
use pyre_kernel::arch::x86_64::structures::idt::entry::Entry;
use pyre_kernel::arch::x86_64::structures::idt::InterruptDescriptorTable;
use pyre_kernel::arch::x86_64::structures::tss::{InterruptStackTableIndex, TaskStateSegment};
use pyre_kernel::arch::x86_64::structures::DescriptorTablePointer;

#[test]
fn segment_descriptors_have_the_standard_encodings() {
    assert_eq!(GenericSegmentDescriptor::kernel_code().as_u64(), 0x00AF_9B00_0000_FFFF);
    assert_eq!(GenericSegmentDescriptor::kernel_data().as_u64(), 0x00CF_9300_0000_FFFF);
    assert_eq!(GenericSegmentDescriptor::user_code().as_u64(), 0x00AF_FB00_0000_FFFF);
    assert_eq!(GenericSegmentDescriptor::user_data().as_u64(), 0x00CF_F300_0000_FFFF);
}

#[test]
fn gdt_init_lays_out_segments_for_syscall_and_sysret() {
    let (gdt, selectors) = GlobalDescriptorTable::init();
    assert_eq!(gdt.len(), 5);
    assert_eq!(gdt.entry(0), 0);
    assert_eq!(gdt.entry(1), 0x00AF_9B00_0000_FFFF);
    assert_eq!(gdt.entry(2), 0x00CF_9300_0000_FFFF);
    assert_eq!(gdt.entry(3), 0x00CF_F300_0000_FFFF);
    assert_eq!(gdt.entry(4), 0x00AF_FB00_0000_FFFF);
    assert_eq!(gdt.entry(5), 0);
    assert_eq!(selectors.kernel_code.as_u16(), 0x08);
    assert_eq!(selectors.kernel_data.as_u16(), 0x10);
    assert_eq!(selectors.user_data.as_u16(), 0x1B);
    assert_eq!(selectors.user_code.as_u16(), 0x23);
}

#[test]
fn selector_round_trips_index_and_level() {
    let selector = SegmentSelector::new(5, PrivilegeLevel::Ring3);
    assert_eq!(selector.as_u16(), 0x2B);
    assert_eq!(selector.gdt_index(), 5);
    assert_eq!(selector.privilege_level(), PrivilegeLevel::Ring3);
    let null = SegmentSelector::null();
    assert_eq!(null.as_u16(), 0);
    assert_eq!(null.privilege_level(), PrivilegeLevel::Ring0);
}

#[test]
fn privilege_level_decoding() {
    assert_eq!(PrivilegeLevel::try_from_u16(0), Some(PrivilegeLevel::Ring0));
    assert_eq!(PrivilegeLevel::try_from_u16(3), Some(PrivilegeLevel::Ring3));
    assert_eq!(PrivilegeLevel::try_from_u16(4), None);
}

#[test]
fn tss_descriptor_places_every_base_byte() {
    // Base bits 16..24 go to bits 32..40 and base bits 24..32 to bits 56..64.
    let descriptor = SystemSegmentDescriptor::from_tss(0x1234_5678_9ABC_DEF0);
    assert_eq!(descriptor.as_u128(), (0x1234_5678u128 << 64) | 0x9A8F_89BC_DEF0_FFFF);
}

#[test]
fn load_local_appends_the_tss_descriptor() {
    let (gdt, _) = GlobalDescriptorTable::init();
    let (temporary, selector) = TaskStateSegment::load_local(&gdt, 0x1234_5678_9ABC_DEF0);
    assert_eq!(temporary.len(), 7);
    for index in 0..5 {
        assert_eq!(temporary.entry(index), gdt.entry(index));
    }
    assert_eq!(temporary.entry(5), 0x9A8F_89BC_DEF0_FFFF);
    assert_eq!(temporary.entry(6), 0x1234_5678);
    assert_eq!(selector.as_u16(), 0x28);
    assert_eq!(gdt.len(), 5);
}

#[test]
fn tss_new_local_fills_the_named_stacks() {
    let tss = TaskStateSegment::new_local(0x100, 0x200, 0x300, 0x400, 0x500);
    assert_eq!(tss.privilege_stack(0), 0x100);
    assert_eq!(tss.privilege_stack(1), 0);
    assert_eq!(tss.interrupt_stack(InterruptStackTableIndex::Debug.as_u16() as usize), 0x200);
    assert_eq!(tss.interrupt_stack(1), 0x300);
    assert_eq!(tss.interrupt_stack(2), 0x400);
    assert_eq!(tss.interrupt_stack(3), 0x500);
    assert_eq!(tss.interrupt_stack(4), 0);
    let empty = TaskStateSegment::default();
    assert_eq!(empty.interrupt_stack(0), 0);
}

#[test]
fn descriptor_table_pointer_limit_is_size_less_one() {
    let pointer = DescriptorTablePointer::from_table(4096, 0xFFFF_8000_0000_1000);
    assert_eq!(pointer.limit(), 4095);
    assert_eq!(pointer.base(), 0xFFFF_8000_0000_1000);
}

#[test]
fn idt_entry_splits_and_rejoins_the_handler_address() {
    let entry = Entry::new(0x1234_5678_9ABC_DEF0);
    assert_eq!(entry.handler_addr(), 0x1234_5678_9ABC_DEF0);
    assert_eq!(entry.options().code_selector().as_u16(), 0x08);
    assert_eq!(entry.options().bits(), 0x8E00);
    let missing = Entry::missing();
    assert_eq!(missing.handler_addr(), 0);
}

#[test]
fn idt_init_orders_the_interrupt_stubs() {
    let mut exception_stubs = [0usize; 32];
    for (vector, stub) in exception_stubs.iter_mut().enumerate() {
        *stub = 0x10_0000 + vector * 0x10;
    }
    let mut irq_stubs = [0usize; 224];
    for (index, stub) in irq_stubs.iter_mut().enumerate() {
        *stub = 0x20_0000 + index * 0x10;
    }
    let idt = InterruptDescriptorTable::init(&exception_stubs, &irq_stubs);
    // Vector 32 holds the system call stub (interrupt 128), invocable from ring 3.
    assert_eq!(idt.index(32).handler_addr(), irq_stubs[128 - 32] as u64);
    assert_eq!(idt.index(32).options().bits() & 0x6000, 0x6000);
    assert_eq!(idt.index(33).handler_addr(), irq_stubs[0] as u64);
    assert_eq!(idt.index(39).handler_addr(), irq_stubs[7] as u64);
    assert_eq!(idt.index(40).handler_addr(), irq_stubs[6] as u64);
    assert_eq!(idt.index(41).handler_addr(), irq_stubs[8] as u64);
    assert_eq!(idt.index(255).handler_addr(), irq_stubs[223] as u64);
    // The page fault handler runs on the current stack; the double fault on its own.
    assert_eq!(idt.exception(14).handler_addr(), exception_stubs[14] as u64);
    assert_eq!(idt.exception(14).options().bits() & 0x7, 0);
    assert_eq!(idt.exception(8).options().bits() & 0x7, 3);
    // Vector 9 has no stub.
    assert_eq!(idt.exception(9).handler_addr(), 0);
}

#[test]
fn exception_handlers_get_their_stacks() {
    let exception_stubs = [0usize; 32];
    let irq_stubs = [0usize; 224];
    let mut idt = InterruptDescriptorTable::init(&exception_stubs, &irq_stubs);
    let mut handlers = [0usize; 32];
    for (vector, handler) in handlers.iter_mut().enumerate() {
        *handler = 0x40_0000 + vector * 0x100;
    }
    let cs = SegmentSelector::new(1, PrivilegeLevel::Ring0);
    set_exception_handlers(&mut idt, &handlers, cs);
    assert_eq!(idt.exception(0).handler_addr(), 0x40_0000);
    assert_eq!(idt.exception(14).handler_addr(), 0x40_0E00);
    assert_eq!(idt.exception(30).handler_addr(), 0x40_1E00);
    assert_eq!(idt.exception(1).options().bits() & 0x7, 1);
    assert_eq!(idt.exception(2).options().bits() & 0x7, 2);
    assert_eq!(idt.exception(8).options().bits() & 0x7, 3);
    assert_eq!(idt.exception(18).options().bits() & 0x7, 4);
    assert_eq!(idt.exception(13).options().bits() & 0x8000, 0x8000);
    // Vectors 9, 15 and 21 to 29 and 31 keep their entries.
    assert_eq!(idt.exception(9).handler_addr(), 0);
    assert_eq!(idt.exception(15).handler_addr(), 0);
    assert_eq!(idt.exception(31).handler_addr(), 0);
    assert_eq!(idt.exception(9).options().bits() & 0x8000, 0);
}

#[test]
fn user_selectors_follow_the_sysret_layout() {
    assert_eq!(kernel_code_selector().as_u16(), 0x08);
    assert_eq!(kernel_data_selector().as_u16(), 0x10);
    assert_eq!(user_data_selector().as_u16(), 0x1B);
    assert_eq!(user_code_selector().as_u16(), 0x23);
    let data = gdt_data();
    assert_eq!(data.ucode.as_u16(), 0x23);
    assert_eq!(data.udata.as_u16(), 0x1B);
}
