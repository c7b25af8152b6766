//! The global descriptor table, its segment descriptors and segment
//! selectors.
use crate::bitfield::{u128_bits, u128_get_bits, u128_mask, u128_set_bits, u128_with_bits, lemma_u64_bits_fit, lemma_u64_masks, u64_bits, u64_get_bits, u64_mask, u64_set_bit, u64_set_bits, u64_with_bit, u64_with_bits};
use vstd::prelude::*;

verus! {

/// Represents a protection ring level.
#[derive(Debug, Clone, Copy, PartialEq, Eq, Hash, Structural)]
pub enum PrivilegeLevel {
    /// Privilege-level 0 (most privilege): critical system software such as
    /// memory management and interrupt handlers.
    Ring0,
    /// Privilege-level 1 (moderate privilege): less-critical system software.
    Ring1,
    /// Privilege-level 2 (moderate privilege): less-critical system software.
    Ring2,
    /// Privilege-level 3 (least privilege): application software.
    Ring3,
}

impl PrivilegeLevel {
    /// The two-bit encoding of the ring.
    pub open spec fn spec_bits(self) -> u16 {
        match self {
            PrivilegeLevel::Ring0 => 0,
            PrivilegeLevel::Ring1 => 1,
            PrivilegeLevel::Ring2 => 2,
            PrivilegeLevel::Ring3 => 3,
        }
    }

    /// The ring whose encoding is `bits`, where `bits < 4`.
    pub open spec fn spec_from_bits(bits: u16) -> PrivilegeLevel {
        if bits == 0 {
            PrivilegeLevel::Ring0
        } else if bits == 1 {
            PrivilegeLevel::Ring1
        } else if bits == 2 {
            PrivilegeLevel::Ring2
        } else {
            PrivilegeLevel::Ring3
        }
    }

    /// The two-bit encoding of the ring (`u16::from`).
    pub fn as_u16(self) -> (r: u16)
        ensures
            r == self.spec_bits(),
            r < 4,
    {
        match self {
            PrivilegeLevel::Ring0 => 0,
            PrivilegeLevel::Ring1 => 1,
            PrivilegeLevel::Ring2 => 2,
            PrivilegeLevel::Ring3 => 3,
        }
    }

    /// The ring encoded by `bits` (`PrivilegeLevel::try_from`); `None` when
    /// `bits` is 4 or more.
    pub fn try_from_u16(bits: u16) -> (r: Option<PrivilegeLevel>)
        ensures
            bits < 4 ==> r == Some(PrivilegeLevel::spec_from_bits(bits)),
            bits >= 4 ==> r is None,
    {
        if bits == 0 {
            Some(PrivilegeLevel::Ring0)
        } else if bits == 1 {
            Some(PrivilegeLevel::Ring1)
        } else if bits == 2 {
            Some(PrivilegeLevel::Ring2)
        } else if bits == 3 {
            Some(PrivilegeLevel::Ring3)
        } else {
            None
        }
    }
}

/// Decoding an encoded ring gives the ring back, and encoding a decoded
/// two-bit value gives the value back.
pub proof fn lemma_privilege_level_encoding(pl: PrivilegeLevel, bits: u16)
    ensures
        PrivilegeLevel::spec_from_bits(pl.spec_bits()) == pl,
        bits < 4 ==> PrivilegeLevel::spec_from_bits(bits).spec_bits() == bits,
{
}

/// Selects an entry of a descriptor table, together with the requested
/// privilege level: bits 0..2 hold the level, bits 3..16 the table index.
#[derive(Debug, Clone, Copy, PartialEq, Eq, PartialOrd, Ord, Hash, Structural)]
pub struct SegmentSelector(u16);

/// The raw selector for table index `index` and requested level `rpl`.
pub open spec fn selector_bits(index: u16, rpl: PrivilegeLevel) -> u16 {
    (index << 3u16) | rpl.spec_bits()
}

impl SegmentSelector {
    /// The raw 16-bit selector.
    pub closed spec fn view_bits(self) -> u16 {
        self.0
    }

    /// The selector with raw value `bits`.
    pub closed spec fn spec_raw(bits: u16) -> SegmentSelector {
        SegmentSelector(bits)
    }

    /// A selector is the selector of its raw value.
    pub proof fn lemma_raw(s: SegmentSelector)
        ensures
            s == SegmentSelector::spec_raw(s.view_bits()),
    {
    }

    /// Can be used as a selector into a non-existent segment and assigned to
    /// segment registers, e.g. the data segment registers in ring 0.
    pub fn null() -> (r: SegmentSelector)
        ensures
            r.view_bits() == 0,
            r == SegmentSelector::spec_raw(0),
    {
        SegmentSelector(0)
    }

    /// Creates a new [`SegmentSelector`] (`index << 3 | rpl`).
    pub fn new(index: u16, rpl: PrivilegeLevel) -> (r: SegmentSelector)
        ensures
            r.view_bits() == selector_bits(index, rpl),
    {
        SegmentSelector(index << 3 | rpl.as_u16())
    }

    /// Returns the selector as a raw u16.
    pub fn as_u16(self) -> (r: u16)
        ensures
            r == self.view_bits(),
    {
        self.0
    }

    /// Returns the GDT index.
    pub fn gdt_index(self) -> (r: u16)
        ensures
            r == self.view_bits() >> 3u16,
    {
        self.0 >> 3
    }

    /// Returns the requested privilege level.
    pub fn privilege_level(self) -> (r: PrivilegeLevel)
        ensures
            r.spec_bits() == self.view_bits() & 3u16,
    {
        let raw = self.0;
        let bits = raw & 0b11;
        assert(bits < 4) by (bit_vector)
            requires
                bits == raw & 0b11,
        ;
        match PrivilegeLevel::try_from_u16(bits) {
            Some(pl) => pl,
            None => PrivilegeLevel::Ring0,
        }
    }
}

/// A selector built from an index that fits into 13 bits gives back that
/// index and that privilege level.
pub proof fn lemma_selector_round_trip(index: u16, rpl: PrivilegeLevel)
    requires
        index < 8192,
    ensures
        selector_bits(index, rpl) >> 3u16 == index,
        selector_bits(index, rpl) & 3u16 == rpl.spec_bits(),
{
    let r = rpl.spec_bits();
    assert((((index << 3u16) | r) >> 3u16) == index && (((index << 3u16) | r) & 3u16) == r)
        by (bit_vector)
        requires
            index < 8192,
            r < 4,
    ;
}

/// Common bits of all segment descriptors: the limit (bits 0..16 and
/// 48..52, all ones), Present (bit 47) and Granularity (bit 55).
pub const COMMON_BITS: u64 = 0x008F_8000_0000_FFFF;

/// First bit of the descriptor privilege level field.
pub const PRIVILEGE_LEVEL_BIT_START: usize = 45;

/// End (exclusive) of the descriptor privilege level field.
pub const PRIVILEGE_LEVEL_BIT_END: usize = 47;

/// A kind of segment descriptor that can be appended to a
/// [`GlobalDescriptorTable`].
pub trait SegmentDescriptor: Sized {
    /// The descriptor privilege level encoded in the descriptor.
    spec fn spec_privilege_level(&self) -> PrivilegeLevel;

    /// The 8-byte table entries the descriptor occupies, in order.
    spec fn spec_entries(&self) -> Seq<u64>;

    /// The desired privilege level of the segment.
    fn privilege_level(&self) -> (r: PrivilegeLevel)
        ensures
            r == self.spec_privilege_level(),
    ;

    /// Writes this descriptor's entries into `append_to` from index `at` on,
    /// returning how many entries were written.
    fn append_entries(self, append_to: &mut [u64; 7], at: usize) -> (count: usize)
        requires
            at + self.spec_entries().len() <= 7,
        ensures
            count == self.spec_entries().len(),
            final(append_to)@ == old(append_to)@.subrange(0, at as int) + self.spec_entries()
                + old(append_to)@.subrange(at + count, 7),
    ;
}

/// The raw generic descriptor for a code (`is_code`) or data segment with
/// descriptor privilege level `dpl`: the common bits, Accessed (40),
/// Read/Write (41) and Non-system (44); for code Executable (43) and
/// Long-mode (53), for data Extended-size (54); the level in bits 45..47.
pub open spec fn generic_descriptor_bits(is_code: bool, dpl: u64) -> u64 {
    COMMON_BITS | (1u64 << 40u64) | (1u64 << 41u64) | (1u64 << 44u64) | (if is_code {
        (1u64 << 43u64) | (1u64 << 53u64)
    } else {
        1u64 << 54u64
    }) | (dpl << 45u64)
}

/// A generic (non-system) segment descriptor.
pub struct GenericSegmentDescriptor(u64);

impl GenericSegmentDescriptor {
    /// The raw 64-bit descriptor.
    pub closed spec fn view_bits(self) -> u64 {
        self.0
    }

    /// Set by the processor if this segment has been accessed.
    pub const ACCESSED_BIT_INDEX: usize = 40;

    /// For data segments, writable; for code segments, readable.
    pub const READ_WRITE_BIT_INDEX: usize = 41;

    /// Must be set for all non-system segments.
    pub const NON_SYSTEM_SEGMENT_BIT_INDEX: usize = 44;

    /// Set for code segments, clear for data segments.
    pub const EXECUTABLE_BIT_INDEX: usize = 43;

    /// Set for 64-bit code segments.
    pub const LONG_MODE_CODE_BIT_INDEX: usize = 53;

    /// 32-bit operands; ignored for data segments in 64-bit mode.
    pub const EXTENDED_SIZE_BIT_INDEX: usize = 54;

    fn new(is_code: bool, privilege_level: PrivilegeLevel) -> (r: Self)
        ensures
            r.view_bits() == generic_descriptor_bits(is_code, privilege_level.spec_bits() as u64),
    {
        let mut value = COMMON_BITS;
        value = u64_set_bit(value, Self::ACCESSED_BIT_INDEX, true);
        value = u64_set_bit(value, Self::READ_WRITE_BIT_INDEX, true);
        value = u64_set_bit(value, Self::NON_SYSTEM_SEGMENT_BIT_INDEX, true);
        if is_code {
            value = u64_set_bit(value, Self::EXECUTABLE_BIT_INDEX, true);
            value = u64_set_bit(value, Self::LONG_MODE_CODE_BIT_INDEX, true);
        } else {
            value = u64_set_bit(value, Self::EXTENDED_SIZE_BIT_INDEX, true);
        }
        let dpl = privilege_level.as_u16() as u64;
        proof {
            lemma_u64_masks();
        }
        value = u64_set_bits(value, PRIVILEGE_LEVEL_BIT_START, PRIVILEGE_LEVEL_BIT_END, dpl);
        proof {
            lemma_generic_descriptor_construction(is_code, dpl);
        }
        Self(value)
    }

    /// The kernel (ring 0) 64-bit code segment.
    pub fn kernel_code() -> (r: Self)
        ensures
            r.view_bits() == generic_descriptor_bits(true, 0),
    {
        Self::new(true, PrivilegeLevel::Ring0)
    }

    /// The kernel (ring 0) data segment.
    pub fn kernel_data() -> (r: Self)
        ensures
            r.view_bits() == generic_descriptor_bits(false, 0),
    {
        Self::new(false, PrivilegeLevel::Ring0)
    }

    /// The user (ring 3) 64-bit code segment.
    pub fn user_code() -> (r: Self)
        ensures
            r.view_bits() == generic_descriptor_bits(true, 3),
    {
        Self::new(true, PrivilegeLevel::Ring3)
    }

    /// The user (ring 3) data segment.
    pub fn user_data() -> (r: Self)
        ensures
            r.view_bits() == generic_descriptor_bits(false, 3),
    {
        Self::new(false, PrivilegeLevel::Ring3)
    }

    /// The raw 64-bit descriptor.
    pub fn as_u64(&self) -> (r: u64)
        ensures
            r == self.view_bits(),
    {
        self.0
    }
}

/// The sequence of bit writes in [`GenericSegmentDescriptor::new`] yields
/// [`generic_descriptor_bits`], and the level field of that value is `dpl`.
proof fn lemma_generic_descriptor_construction(is_code: bool, dpl: u64)
    requires
        dpl < 4,
    ensures
        u64_with_bits(
            if is_code {
                u64_with_bit(
                    u64_with_bit(
                        u64_with_bit(
                            u64_with_bit(u64_with_bit(COMMON_BITS, 40, true), 41, true),
                            44,
                            true,
                        ),
                        43,
                        true,
                    ),
                    53,
                    true,
                )
            } else {
                u64_with_bit(
                    u64_with_bit(
                        u64_with_bit(u64_with_bit(COMMON_BITS, 40, true), 41, true),
                        44,
                        true,
                    ),
                    54,
                    true,
                )
            },
            45,
            47,
            dpl,
        ) == generic_descriptor_bits(is_code, dpl),
        u64_bits(generic_descriptor_bits(is_code, dpl), 45, 47) == dpl,
{
    assert(u64_with_bits(
        if is_code {
            u64_with_bit(
                u64_with_bit(
                    u64_with_bit(
                        u64_with_bit(u64_with_bit(0x008F_8000_0000_FFFFu64, 40, true), 41, true),
                        44,
                        true,
                    ),
                    43,
                    true,
                ),
                53,
                true,
            )
        } else {
            u64_with_bit(
                u64_with_bit(
                    u64_with_bit(u64_with_bit(0x008F_8000_0000_FFFFu64, 40, true), 41, true),
                    44,
                    true,
                ),
                54,
                true,
            )
        },
        45,
        47,
        dpl,
    ) == (0x008F_8000_0000_FFFFu64 | (1u64 << 40u64) | (1u64 << 41u64) | (1u64 << 44u64) | (
    if is_code {
        (1u64 << 43u64) | (1u64 << 53u64)
    } else {
        1u64 << 54u64
    }) | (dpl << 45u64)) && u64_bits(
        0x008F_8000_0000_FFFFu64 | (1u64 << 40u64) | (1u64 << 41u64) | (1u64 << 44u64) | (
        if is_code {
            (1u64 << 43u64) | (1u64 << 53u64)
        } else {
            1u64 << 54u64
        }) | (dpl << 45u64),
        45,
        47,
    ) == dpl) by (bit_vector)
        requires
            dpl < 4,
    ;
}

impl SegmentDescriptor for GenericSegmentDescriptor {
    open spec fn spec_privilege_level(&self) -> PrivilegeLevel {
        PrivilegeLevel::spec_from_bits(u64_bits(self.view_bits(), 45, 47) as u16)
    }

    open spec fn spec_entries(&self) -> Seq<u64> {
        seq![self.view_bits()]
    }

    fn privilege_level(&self) -> (r: PrivilegeLevel) {
        let raw_bits = u64_get_bits(self.0, PRIVILEGE_LEVEL_BIT_START, PRIVILEGE_LEVEL_BIT_END);
        proof {
            lemma_u64_bits_fit(self.0, 45, 47);
            lemma_u64_masks();
        }
        let raw_bits_u16 = raw_bits as u16;
        match PrivilegeLevel::try_from_u16(raw_bits_u16) {
            Some(pl) => pl,
            None => PrivilegeLevel::Ring0,
        }
    }

    fn append_entries(self, append_to: &mut [u64; 7], at: usize) -> (count: usize) {
        append_to[at] = self.0;
        assert(append_to@ =~= old(append_to)@.subrange(0, at as int) + self.spec_entries()
            + old(append_to)@.subrange(at + 1, 7));
        1
    }
}

/// The raw 128-bit system descriptor for an available 64-bit task state
/// segment at `base`, as [`SystemSegmentDescriptor::from_tss`] builds it:
/// the common bits, type 0x9 in bits 40..44, level 0, base bits 0..16 in
/// bits 16..32, base bits 16..24 in bits 32..40, base bits 24..32 in bits
/// 56..64 and base bits 32..64 in bits 64..96.
pub open spec fn system_descriptor_bits(base: u64) -> u128 {
    (COMMON_BITS as u128) | (0x9u128 << 40u128) | (((base as u128) & 0xFFFFu128) << 16u128) | ((
    ((base as u128) >> 16u128) & 0xFFu128) << 32u128) | ((((base as u128) >> 24u128) & 0xFFu128)
        << 56u128) | ((((base as u128) >> 32u128) & 0xFFFF_FFFFu128) << 64u128)
}

/// A task state segment descriptor is for ring 0.
pub proof fn lemma_system_descriptor_ring0(base: u64)
    ensures
        u128_bits(system_descriptor_bits(base), 45, 47) == 0,
{
    assert(u128_bits(system_descriptor_bits(base), 45, 47) == 0) by (bit_vector);
}

/// A system segment descriptor (two table entries).
pub struct SystemSegmentDescriptor(u128);

impl SystemSegmentDescriptor {
    /// The raw 128-bit descriptor.
    pub closed spec fn view_bits(self) -> u128 {
        self.0
    }

    /// Bits of the low base field.
    pub const BASE_BIT_START_1: usize = 16;

    /// End of the low base field.
    pub const BASE_BIT_END_1: usize = 32;

    /// Bits of the second base field.
    pub const BASE_BIT_START_2: usize = 32;

    /// End of the second base field.
    pub const BASE_BIT_END_2: usize = 40;

    /// Bits of the third base field.
    pub const BASE_BIT_START_3: usize = 56;

    /// End of the third base field.
    pub const BASE_BIT_END_3: usize = 64;

    /// Bits of the high base field.
    pub const BASE_BIT_START_4: usize = 64;

    /// End of the high base field.
    pub const BASE_BIT_END_4: usize = 96;

    /// Bits of the system segment type.
    pub const SYSTEM_SEGMENT_TYPE_BIT_START: usize = 40;

    /// End of the system segment type.
    pub const SYSTEM_SEGMENT_TYPE_BIT_END: usize = 44;

    /// Type of an available 64-bit task state segment.
    pub const SYSTEM_SEGMENT_TYPE_TSS_AVAILABLE: u128 = 0x9;

    /// Constructs a [`SystemSegmentDescriptor`] for the task state segment
    /// that lies at `tss_address`.
    pub fn from_tss(tss_address: u64) -> (r: Self)
        ensures
            r.view_bits() == system_descriptor_bits(tss_address),
    {
        let mut value = COMMON_BITS as u128;
        proof {
            lemma_u128_masks();
        }
        value = u128_set_bits(
            value,
            Self::SYSTEM_SEGMENT_TYPE_BIT_START,
            Self::SYSTEM_SEGMENT_TYPE_BIT_END,
            Self::SYSTEM_SEGMENT_TYPE_TSS_AVAILABLE,
        );
        let ring0 = PrivilegeLevel::Ring0.as_u16() as u128;
        value = u128_set_bits(value, PRIVILEGE_LEVEL_BIT_START, PRIVILEGE_LEVEL_BIT_END, ring0);
        let base = tss_address as u128;
        let b1 = u128_get_bits(base, 0, 16);
        let b2 = u128_get_bits(base, 16, 24);
        let b3 = u128_get_bits(base, 24, 32);
        let b4 = u128_get_bits(base, 32, 64);
        proof {
            lemma_u128_bits_fit(base, 0, 16);
            lemma_u128_bits_fit(base, 16, 24);
            lemma_u128_bits_fit(base, 24, 32);
            lemma_u128_bits_fit(base, 32, 64);
        }
        value = u128_set_bits(value, Self::BASE_BIT_START_1, Self::BASE_BIT_END_1, b1);
        value = u128_set_bits(value, Self::BASE_BIT_START_2, Self::BASE_BIT_END_2, b2);
        value = u128_set_bits(value, Self::BASE_BIT_START_3, Self::BASE_BIT_END_3, b3);
        value = u128_set_bits(value, Self::BASE_BIT_START_4, Self::BASE_BIT_END_4, b4);
        proof {
            lemma_system_descriptor_construction(tss_address);
        }
        Self(value)
    }

    /// The raw 128-bit descriptor.
    pub fn as_u128(&self) -> (r: u128)
        ensures
            r == self.view_bits(),
    {
        self.0
    }
}

/// Masks of the field widths of a system descriptor.
proof fn lemma_u128_masks()
    ensures
        u128_mask(2) == 3,
        u128_mask(4) == 15,
        u128_mask(8) == 0xFF,
        u128_mask(16) == 0xFFFF,
        u128_mask(32) == 0xFFFF_FFFF,
{
    assert(u128_mask(2) == 3 && u128_mask(4) == 15 && u128_mask(8) == 0xFF && u128_mask(16)
        == 0xFFFF && u128_mask(32) == 0xFFFF_FFFF) by (bit_vector);
}

/// A 128-bit bit range never exceeds the mask of its width.
proof fn lemma_u128_bits_fit(x: u128, lo: u128, hi: u128)
    requires
        lo < hi <= 128,
    ensures
        u128_bits(x, lo, hi) <= u128_mask((hi - lo) as u128),
{
    assert(u128_bits(x, lo, hi) <= u128_mask((hi - lo) as u128)) by (bit_vector)
        requires
            lo < hi <= 128,
    ;
}

/// The sequence of bit writes in [`SystemSegmentDescriptor::from_tss`]
/// yields [`system_descriptor_bits`].
proof fn lemma_system_descriptor_construction(base: u64)
    ensures
        u128_with_bits(
            u128_with_bits(
                u128_with_bits(
                    u128_with_bits(
                        u128_with_bits(
                            u128_with_bits(COMMON_BITS as u128, 40, 44, 9),
                            45,
                            47,
                            0,
                        ),
                        16,
                        32,
                        u128_bits(base as u128, 0, 16),
                    ),
                    32,
                    40,
                    u128_bits(base as u128, 16, 24),
                ),
                56,
                64,
                u128_bits(base as u128, 24, 32),
            ),
            64,
            96,
            u128_bits(base as u128, 32, 64),
        ) == system_descriptor_bits(base),
{
    let b = base as u128;
    assert(b <= 0xFFFF_FFFF_FFFF_FFFFu128);
    assert(u128_with_bits(
        u128_with_bits(
            u128_with_bits(
                u128_with_bits(
                    u128_with_bits(
                        u128_with_bits(0x008F_8000_0000_FFFFu128, 40, 44, 9),
                        45,
                        47,
                        0,
                    ),
                    16,
                    32,
                    u128_bits(b, 0, 16),
                ),
                32,
                40,
                u128_bits(b, 16, 24),
            ),
            56,
            64,
            u128_bits(b, 24, 32),
        ),
        64,
        96,
        u128_bits(b, 32, 64),
    ) == 0x008F_8000_0000_FFFFu128 | (0x9u128 << 40u128) | ((b & 0xFFFFu128) << 16u128) | (((b
        >> 16u128) & 0xFFu128) << 32u128) | (((b >> 24u128) & 0xFFu128) << 56u128) | (((b >> 32u128) & 0xFFFF_FFFFu128) << 64u128))
        by (bit_vector)
        requires
            b <= 0xFFFF_FFFF_FFFF_FFFFu128,
    ;
}

impl SegmentDescriptor for SystemSegmentDescriptor {
    open spec fn spec_privilege_level(&self) -> PrivilegeLevel {
        PrivilegeLevel::spec_from_bits(u128_bits(self.view_bits(), 45, 47) as u16)
    }

    open spec fn spec_entries(&self) -> Seq<u64> {
        seq![self.view_bits() as u64, (self.view_bits() >> 64u128) as u64]
    }

    fn privilege_level(&self) -> (r: PrivilegeLevel) {
        let raw_bits = u128_get_bits(self.0, PRIVILEGE_LEVEL_BIT_START, PRIVILEGE_LEVEL_BIT_END);
        proof {
            lemma_u128_bits_fit(self.0, 45, 47);
            lemma_u128_masks();
        }
        let raw_bits_u16 = raw_bits as u16;
        match PrivilegeLevel::try_from_u16(raw_bits_u16) {
            Some(pl) => pl,
            None => PrivilegeLevel::Ring0,
        }
    }

    fn append_entries(self, append_to: &mut [u64; 7], at: usize) -> (count: usize) {
        append_to[at] = self.0 as u64;
        append_to[at + 1] = (self.0 >> 64u32) as u64;
        assert(append_to@ =~= old(append_to)@.subrange(0, at as int) + self.spec_entries()
            + old(append_to)@.subrange(at + 2, 7));
        2
    }
}

/// Selectors of the four segments that [`GlobalDescriptorTable::init`]
/// appends.
#[derive(Debug, Clone, Copy)]
pub struct GdtSelectors {
    pub kernel_code: SegmentSelector,
    pub kernel_data: SegmentSelector,
    pub user_data: SegmentSelector,
    pub user_code: SegmentSelector,
}

/// The global descriptor table: seven 8-byte entries, of which the first
/// `len` are in use; entry 0 is the null descriptor.
#[derive(Debug, Clone, Copy)]
pub struct GlobalDescriptorTable {
    table: [u64; 7],
    len: usize,
}

impl GlobalDescriptorTable {
    /// All seven entries.
    pub closed spec fn spec_table(&self) -> Seq<u64> {
        self.table@
    }

    /// Number of entries in use.
    pub closed spec fn spec_len(&self) -> nat {
        self.len as nat
    }

    /// Well-formed: the null entry is counted, at most seven entries are in
    /// use, and the entries not in use are zero.
    pub closed spec fn wf(&self) -> bool {
        &&& 1 <= self.len <= 7
        &&& forall|i: int| self.len <= i < 7 ==> #[trigger] self.table@[i] == 0
    }

    /// An empty [`GlobalDescriptorTable`]: all entries zero, and only the
    /// null entry in use.
    pub fn empty() -> (r: Self)
        ensures
            r.wf(),
            r.spec_len() == 1,
            r.spec_table() == Seq::new(7, |i: int| 0u64),
    {
        let r = Self { table: [0; 7], len: 1 };
        assert(r.table@ =~= Seq::new(7, |i: int| 0u64));
        r
    }

    /// Number of entries in use.
    pub fn len(&self) -> (r: usize)
        ensures
            r == self.spec_len(),
    {
        self.len
    }

    /// Entry `index` of the table.
    pub fn entry(&self, index: usize) -> (r: u64)
        requires
            index < 7,
        ensures
            r == self.spec_table()[index as int],
    {
        self.table[index]
    }

    /// Appends a [`SegmentDescriptor`] to the table and returns the selector
    /// for it: the first free index, with the descriptor's privilege level.
    pub fn append_segment<D: SegmentDescriptor>(&mut self, segment_descriptor: D) -> (r:
        SegmentSelector)
        requires
            old(self).wf(),
            old(self).spec_len() + segment_descriptor.spec_entries().len() <= 7,
            segment_descriptor.spec_entries().len() >= 1,
        ensures
            final(self).wf(),
            final(self).spec_len() == old(self).spec_len() + segment_descriptor.spec_entries().len(),
            final(self).spec_table() == old(self).spec_table().subrange(
                0,
                old(self).spec_len() as int,
            ) + segment_descriptor.spec_entries() + old(self).spec_table().subrange(
                final(self).spec_len() as int,
                7,
            ),
            r.view_bits() == selector_bits(
                old(self).spec_len() as u16,
                segment_descriptor.spec_privilege_level(),
            ),
    {
        let current_index = self.len;
        let privilege_level = segment_descriptor.privilege_level();
        let appended_entry_count = segment_descriptor.append_entries(&mut self.table, self.len);
        self.len = self.len + appended_entry_count;
        proof {
            assert forall|i: int| self.len <= i < 7 implies #[trigger] self.table@[i] == 0 by {
                assert(self.table@[i] == old(self).table@[i]);
            }
        }
        SegmentSelector::new(current_index as u16, privilege_level)
    }

    /// Builds the kernel's table: the kernel code, kernel data, user data and
    /// user code segments, in this order (the order that `syscall` and
    /// `sysret` expect), with their selectors.
    pub fn init() -> (r: (Self, GdtSelectors))
        ensures
            r.0.wf(),
            r.0.spec_len() == 5,
            r.0.spec_table() == seq![
                0u64,
                generic_descriptor_bits(true, 0),
                generic_descriptor_bits(false, 0),
                generic_descriptor_bits(false, 3),
                generic_descriptor_bits(true, 3),
                0u64,
                0u64,
            ],
            r.1.kernel_code.view_bits() == selector_bits(1, PrivilegeLevel::Ring0),
            r.1.kernel_data.view_bits() == selector_bits(2, PrivilegeLevel::Ring0),
            r.1.user_data.view_bits() == selector_bits(3, PrivilegeLevel::Ring3),
            r.1.user_code.view_bits() == selector_bits(4, PrivilegeLevel::Ring3),
    {
        let mut gdt = Self::empty();
        proof {
            lemma_generic_descriptor_construction(true, 0);
            lemma_generic_descriptor_construction(false, 0);
            lemma_generic_descriptor_construction(true, 3);
            lemma_generic_descriptor_construction(false, 3);
        }
        let kernel_code = gdt.append_segment(GenericSegmentDescriptor::kernel_code());
        let kernel_data = gdt.append_segment(GenericSegmentDescriptor::kernel_data());
        let user_data = gdt.append_segment(GenericSegmentDescriptor::user_data());
        let user_code = gdt.append_segment(GenericSegmentDescriptor::user_code());
        assert(gdt.spec_table() =~= seq![
            0u64,
            generic_descriptor_bits(true, 0),
            generic_descriptor_bits(false, 0),
            generic_descriptor_bits(false, 3),
            generic_descriptor_bits(true, 3),
            0u64,
            0u64,
        ]);
        (gdt, GdtSelectors { kernel_code, kernel_data, user_data, user_code })
    }
}

/// The kernel code selector that [`GlobalDescriptorTable::init`] assigns
/// (index 1, ring 0).
pub fn kcode_selector() -> (r: SegmentSelector)
    ensures
        r.view_bits() == selector_bits(1, PrivilegeLevel::Ring0),
{
    SegmentSelector::new(1, PrivilegeLevel::Ring0)
}

/// The kernel data selector that [`GlobalDescriptorTable::init`] assigns
/// (index 2, ring 0).
pub fn kdata_selector() -> (r: SegmentSelector)
    ensures
        r.view_bits() == selector_bits(2, PrivilegeLevel::Ring0),
{
    SegmentSelector::new(2, PrivilegeLevel::Ring0)
}

/// The user data selector that [`GlobalDescriptorTable::init`] assigns
/// (index 3, ring 3).
pub fn udata_selector() -> (r: SegmentSelector)
    ensures
        r.view_bits() == selector_bits(3, PrivilegeLevel::Ring3),
{
    SegmentSelector::new(3, PrivilegeLevel::Ring3)
}

/// The user code selector that [`GlobalDescriptorTable::init`] assigns
/// (index 4, ring 3).
pub fn ucode_selector() -> (r: SegmentSelector)
    ensures
        r.view_bits() == selector_bits(4, PrivilegeLevel::Ring3),
{
    SegmentSelector::new(4, PrivilegeLevel::Ring3)
}

} // verus!
