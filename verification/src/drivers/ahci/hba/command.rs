//! AHCI command headers and their physical region descriptor table
//! entries.
use crate::bitfield::{
    lemma_u32_bit_range_disjoint, lemma_u32_bits_of_with_bits, lemma_u32_masks, u16_bit, u16_bits,
    u16_get_bit, u16_get_bits, u16_set_bit, u16_with_bit, u32_bit, u32_bits, u32_get_bit,
    u32_get_bits, u32_set_bits, u32_with_bits,
};
use vstd::prelude::*;

verus! {

/// The size in bytes of a physical region descriptor table entry.
pub const PRDT_ENTRY_SIZE: u64 = 16;

/// The size in bytes of a command table before its descriptor entries.
pub const COMMAND_TABLE_HEADER_SIZE: u64 = 128;

/// An entry of a command table's physical region descriptor table: the
/// data buffer's address and the byte count to transfer, less one.
#[derive(Debug, Clone, Copy, PartialEq, Eq, Structural)]
pub struct PRDTEntry {
    db_addr_lower: u32,
    db_addr_upper: u32,
    rsvd0: u32,
    bits: u32,
}

impl PRDTEntry {
    pub closed spec fn spec_db_addr_lower(self) -> u32 {
        self.db_addr_lower
    }

    pub closed spec fn spec_db_addr_upper(self) -> u32 {
        self.db_addr_upper
    }

    pub closed spec fn spec_bits(self) -> u32 {
        self.bits
    }

    /// An entry of all zeroes.
    pub fn zeroed() -> (r: Self)
        ensures
            r.spec_db_addr_lower() == 0,
            r.spec_db_addr_upper() == 0,
            r.spec_bits() == 0,
    {
        PRDTEntry { db_addr_lower: 0, db_addr_upper: 0, rsvd0: 0, bits: 0 }
    }

    /// The byte count to transfer, less one (bits 0..22).
    pub fn get_byte_count(&self) -> (r: u32)
        ensures
            r == u32_bits(self.spec_bits(), 0, 22),
    {
        u32_get_bits(self.bits, 0, 22)
    }

    /// Sets the byte count to transfer, less one (bits 0..22); it must fit
    /// in 22 bits.
    pub fn set_byte_count(&mut self, byte_count: u32)
        requires
            byte_count < 0x40_0000,
        ensures
            final(self).spec_bits() == u32_with_bits(old(self).spec_bits(), 0, 22, byte_count),
            final(self).spec_db_addr_lower() == old(self).spec_db_addr_lower(),
            final(self).spec_db_addr_upper() == old(self).spec_db_addr_upper(),
    {
        proof {
            lemma_u32_masks();
        }
        self.bits = u32_set_bits(self.bits, 0, 22, byte_count);
    }

    /// Whether completion raises an interrupt (bit 31).
    pub fn get_interrupt_on_completion(&self) -> (r: bool)
        ensures
            r == u32_bit(self.spec_bits(), 31),
    {
        u32_get_bit(self.bits, 31)
    }

    /// Points the entry at the data buffer at `addr`: its low half, then its
    /// high half.
    pub fn set_db_addr(&mut self, addr: u64)
        ensures
            final(self).spec_db_addr_lower() == addr as u32,
            final(self).spec_db_addr_upper() == (addr >> 32u64) as u32,
            final(self).spec_bits() == old(self).spec_bits(),
    {
        self.db_addr_lower = addr as u32;
        self.db_addr_upper = (addr >> 32u64) as u32;
    }

    /// Sets the transfer to `sector_count` sectors of 512 bytes: a byte
    /// count of `sector_count * 512 - 1`. The count must be at least one
    /// sector and fit the 22-bit field.
    pub fn set_sector_count(&mut self, sector_count: u32)
        requires
            1 <= sector_count <= 8192,
        ensures
            final(self).spec_bits() == u32_with_bits(
                old(self).spec_bits(),
                0,
                22,
                (sector_count * 512 - 1) as u32,
            ),
            final(self).spec_db_addr_lower() == old(self).spec_db_addr_lower(),
            final(self).spec_db_addr_upper() == old(self).spec_db_addr_upper(),
    {
        let shifted = sector_count << 9u32;
        assert(shifted == sector_count * 512) by (bit_vector)
            requires
                shifted == sector_count << 9u32,
                1 <= sector_count <= 8192,
        ;
        self.set_byte_count(shifted - 1);
    }

    /// Zeroes the entry's address and byte count.
    pub fn clear(&mut self)
        ensures
            final(self).spec_db_addr_lower() == 0,
            final(self).spec_db_addr_upper() == 0,
            final(self).spec_bits() == 0,
    {
        self.db_addr_lower = 0;
        self.db_addr_upper = 0;
        self.bits = 0;
    }
}

/// A frame information structure that a command can carry.
pub trait CommandFIS {
}

/// A command header of a port's command list.
#[derive(Debug, Clone, Copy, PartialEq, Eq, Structural)]
pub struct Command {
    bits: u16,
    prdt_len: u16,
    prdb_count: u32,
    cmd_tbl_addr_lower: u32,
    cmd_tbl_addr_upper: u32,
}

/// The bytes a command table with `prdt_len` descriptor entries takes.
pub open spec fn spec_total_command_alloc(prdt_len: u16) -> u64 {
    (COMMAND_TABLE_HEADER_SIZE + PRDT_ENTRY_SIZE * prdt_len) as u64
}

impl Command {
    pub closed spec fn spec_bits(self) -> u16 {
        self.bits
    }

    pub closed spec fn spec_prdt_len(self) -> u16 {
        self.prdt_len
    }

    pub closed spec fn spec_prdb_count(self) -> u32 {
        self.prdb_count
    }

    /// The command table's address, from its two halves.
    pub closed spec fn spec_command_table_address(self) -> u64 {
        (self.cmd_tbl_addr_lower as u64) | ((self.cmd_tbl_addr_upper as u64) << 32u64)
    }

    /// A header of all zeroes.
    pub fn zeroed() -> (r: Self)
        ensures
            r.spec_bits() == 0,
            r.spec_prdt_len() == 0,
            r.spec_prdb_count() == 0,
            r.spec_command_table_address() == 0,
    {
        let r = Command {
            bits: 0,
            prdt_len: 0,
            prdb_count: 0,
            cmd_tbl_addr_lower: 0,
            cmd_tbl_addr_upper: 0,
        };
        assert(((0u32 as u64) | ((0u32 as u64) << 32u64)) == 0) by (bit_vector);
        r
    }

    /// The command FIS length in dwords (bits 0..5).
    pub fn get_fis_len(&self) -> (r: u16)
        ensures
            r == u16_bits(self.spec_bits(), 0, 5),
    {
        u16_get_bits(self.bits, 0, 5)
    }

    /// Whether the command is an ATAPI command (bit 5).
    pub fn get_atapi(&self) -> (r: bool)
        ensures
            r == u16_bit(self.spec_bits(), 5),
    {
        u16_get_bit(self.bits, 5)
    }

    /// Whether the command writes to the device (bit 6).
    pub fn get_write(&self) -> (r: bool)
        ensures
            r == u16_bit(self.spec_bits(), 6),
    {
        u16_get_bit(self.bits, 6)
    }

    /// Sets whether the command writes to the device (bit 6).
    pub fn set_write(&mut self, write: bool)
        ensures
            final(self).spec_bits() == u16_with_bit(old(self).spec_bits(), 6, write),
            final(self).spec_prdt_len() == old(self).spec_prdt_len(),
            final(self).spec_prdb_count() == old(self).spec_prdb_count(),
            final(self).spec_command_table_address() == old(self).spec_command_table_address(),
    {
        self.bits = u16_set_bit(self.bits, 6, write);
    }

    /// Whether the descriptor table may be prefetched (bit 7).
    pub fn get_prefetchable(&self) -> (r: bool)
        ensures
            r == u16_bit(self.spec_bits(), 7),
    {
        u16_get_bit(self.bits, 7)
    }

    /// Whether the command is part of a software reset (bit 8).
    pub fn get_reset(&self) -> (r: bool)
        ensures
            r == u16_bit(self.spec_bits(), 8),
    {
        u16_get_bit(self.bits, 8)
    }

    /// Whether the command is a BIST FIS (bit 9).
    pub fn get_bist(&self) -> (r: bool)
        ensures
            r == u16_bit(self.spec_bits(), 9),
    {
        u16_get_bit(self.bits, 9)
    }

    /// Whether busy is cleared on receiving R_OK (bit 10).
    pub fn get_clear_busy_on_rok(&self) -> (r: bool)
        ensures
            r == u16_bit(self.spec_bits(), 10),
    {
        u16_get_bit(self.bits, 10)
    }

    /// The port multiplier port (bits 12..16).
    pub fn get_port_multiplier(&self) -> (r: u16)
        ensures
            r == u16_bits(self.spec_bits(), 12, 16),
    {
        u16_get_bits(self.bits, 12, 16)
    }

    /// The descriptor table length.
    pub fn prdt_len(&self) -> (r: u16)
        ensures
            r == self.spec_prdt_len(),
    {
        self.prdt_len
    }

    /// The bytes a command table with `prdt_len` descriptor entries takes:
    /// the 128-byte header and 16 bytes per entry.
    pub fn total_command_alloc(prdt_len: u16) -> (r: u64)
        ensures
            r == spec_total_command_alloc(prdt_len),
    {
        COMMAND_TABLE_HEADER_SIZE + PRDT_ENTRY_SIZE * (prdt_len as u64)
    }

    /// The command table's address.
    pub fn command_table_address(&self) -> (r: u64)
        ensures
            r == self.spec_command_table_address(),
    {
        (self.cmd_tbl_addr_lower as u64) | ((self.cmd_tbl_addr_upper as u64) << 32u64)
    }

    /// Resets the header for a command whose FIS takes `fis_size` bytes,
    /// with `prdt_len` descriptor entries, in the zeroed command table the
    /// platform allocated at `table_address`: the flags hold only the FIS
    /// length in dwords, and no bytes have been transferred. The FIS must
    /// fit the five-bit length field.
    pub fn reset(&mut self, prdt_len: u16, fis_size: u64, table_address: u64)
        requires
            fis_size / 4 < 32,
        ensures
            final(self).spec_bits() == (fis_size / 4) as u16,
            final(self).spec_prdt_len() == prdt_len,
            final(self).spec_prdb_count() == 0,
            final(self).spec_command_table_address() == table_address,
    {
        self.bits = (fis_size / 4) as u16;
        self.prdt_len = prdt_len;
        self.prdb_count = 0;
        let lower = table_address as u32;
        let upper = (table_address >> 32u64) as u32;
        self.cmd_tbl_addr_lower = lower;
        self.cmd_tbl_addr_upper = upper;
        assert(((lower as u64) | ((upper as u64) << 32u64)) == table_address) by (bit_vector)
            requires
                lower == table_address as u32,
                upper == (table_address >> 32u64) as u32,
        ;
    }
}


/// After setting a sector count, the entry's byte count is that many
/// 512-byte sectors, less one, and its interrupt flag is unchanged.
pub proof fn lemma_sector_count_round_trip(bits: u32, sector_count: u32)
    requires
        1 <= sector_count <= 8192,
    ensures
        u32_bits(u32_with_bits(bits, 0, 22, (sector_count * 512 - 1) as u32), 0, 22) == sector_count
            * 512 - 1,
        u32_bit(u32_with_bits(bits, 0, 22, (sector_count * 512 - 1) as u32), 31) == u32_bit(bits, 31),
{
    lemma_u32_masks();
    lemma_u32_bits_of_with_bits(bits, 0, 22, (sector_count * 512 - 1) as u32, 0, 22);
    lemma_u32_bit_range_disjoint(bits, 31, false, 0, 22, (sector_count * 512 - 1) as u32);
}

} // verus!
