//! The global descriptor table of the earlier x86-64 layer and its
//! selectors.
use crate::arch::x86_64::structures::gdt::{
    selector_bits, GenericSegmentDescriptor, GlobalDescriptorTable, PrivilegeLevel,
    SegmentSelector,
};
use vstd::prelude::*;

verus! {

/// The table and the selectors of its segments.
pub struct GdtData {
    pub gdt: GlobalDescriptorTable,
    pub kcode: SegmentSelector,
    pub kdata: SegmentSelector,
    pub ucode: SegmentSelector,
    pub udata: SegmentSelector,
}

/// Builds the table: the kernel code, kernel data, user data and user code
/// segments, in this order. The order is the one `sysret` asks of
/// `IA32_STAR`: the user data segment right before the user code segment.
pub fn gdt_data() -> (r: GdtData)
    ensures
        r.gdt.wf(),
        r.gdt.spec_len() == 5,
        r.kcode.view_bits() == selector_bits(1, PrivilegeLevel::Ring0),
        r.kdata.view_bits() == selector_bits(2, PrivilegeLevel::Ring0),
        r.ucode.view_bits() == selector_bits(4, PrivilegeLevel::Ring3),
        r.udata.view_bits() == selector_bits(3, PrivilegeLevel::Ring3),
{
    let (gdt, selectors) = GlobalDescriptorTable::init();
    GdtData {
        gdt,
        kcode: selectors.kernel_code,
        kdata: selectors.kernel_data,
        ucode: selectors.user_code,
        udata: selectors.user_data,
    }
}

/// The kernel code selector.
pub fn kernel_code_selector() -> (r: SegmentSelector)
    ensures
        r.view_bits() == selector_bits(1, PrivilegeLevel::Ring0),
{
    gdt_data().kcode
}

/// The kernel data selector.
pub fn kernel_data_selector() -> (r: SegmentSelector)
    ensures
        r.view_bits() == selector_bits(2, PrivilegeLevel::Ring0),
{
    gdt_data().kdata
}

/// The user code selector: that of the fourth table entry.
pub fn user_code_selector() -> (r: SegmentSelector)
    ensures
        r.view_bits() == selector_bits(4, PrivilegeLevel::Ring3),
{
    gdt_data().ucode
}

/// The user data selector: that of the third table entry.
pub fn user_data_selector() -> (r: SegmentSelector)
    ensures
        r.view_bits() == selector_bits(3, PrivilegeLevel::Ring3),
{
    gdt_data().udata
}

} // verus!
