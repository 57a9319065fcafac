use vstd::prelude::*;

use crate::error::{MigError, MigErrorKind};

verus! {

/// Size in bytes of a legacy boot sector, whatever the block size of the disk.
pub const BOOT_SECTOR_SIZE: usize = 512;

/// Byte offset of the partition table inside a boot sector.
pub const PART_TABLE_OFFSET: usize = 446;

/// Size in bytes of one partition table entry.
pub const PART_ENTRY_SIZE: usize = 16;

/// The classes of partition type codes that the walk tells apart.
#[derive(PartialEq, Eq, Structural, Clone, Copy, Debug)]
pub enum PartitionType {
    Container,
    Fat,
    Linux,
    Empty,
    GPT,
    Other,
}

/// One entry of a legacy partition table, decoded field by field.
#[derive(PartialEq, Eq, Structural, Clone, Copy, Debug)]
pub struct PartEntry {
    pub status: u8,
    pub first_head: u8,
    pub first_comb: u8,
    pub first_cyl: u8,
    pub ptype: u8,
    pub last_head: u8,
    pub last_comb: u8,
    pub last_cyl: u8,
    pub first_lba: u32,
    pub num_sectors: u32,
}

/// The class of a partition type code.
pub open spec fn spec_part_type(ptype: u8) -> PartitionType {
    if ptype == 0x00 {
        PartitionType::Empty
    } else if ptype == 0x05 || ptype == 0x0f {
        PartitionType::Container
    } else if ptype == 0xee {
        PartitionType::GPT
    } else if ptype == 0x0c || ptype == 0x0e {
        PartitionType::Fat
    } else if ptype == 0x83 {
        PartitionType::Linux
    } else {
        PartitionType::Other
    }
}

impl PartEntry {
    pub fn part_type(&self) -> (r: PartitionType)
        ensures
            r == spec_part_type(self.ptype),
    {
        match self.ptype {
            0x00 => PartitionType::Empty,
            0x05 | 0x0f => PartitionType::Container,
            0xee => PartitionType::GPT,
            0x0c | 0x0e => PartitionType::Fat,
            0x83 => PartitionType::Linux,
            _ => PartitionType::Other,
        }
    }

    /// Whether the entry describes a partition that holds a file system.
    pub fn is_data(&self) -> (r: bool)
        ensures
            r == is_data_type(spec_part_type(self.ptype)),
    {
        match self.part_type() {
            PartitionType::Fat | PartitionType::Linux => true,
            _ => false,
        }
    }
}

pub open spec fn is_data_type(t: PartitionType) -> bool {
    t == PartitionType::Fat || t == PartitionType::Linux
}

/// A legacy boot sector: its four partition table entries and its signature.
/// The boot code is not kept.
#[derive(Clone, Copy, Debug)]
pub struct BootSector {
    pub part_tbl: [PartEntry; 4],
    pub boot_sig1: u8,
    pub boot_sig2: u8,
}

/// The little-endian value of the four bytes of `b` that start at `at`.
pub open spec fn le_u32(b: Seq<u8>, at: int) -> int {
    b[at] + 256 * b[at + 1] + 65536 * b[at + 2] + 16777216 * b[at + 3]
}

/// The partition table entry held by the sixteen bytes of `b` that start at `at`.
pub open spec fn spec_part_entry(b: Seq<u8>, at: int) -> PartEntry {
    PartEntry {
        status: b[at],
        first_head: b[at + 1],
        first_comb: b[at + 2],
        first_cyl: b[at + 3],
        ptype: b[at + 4],
        last_head: b[at + 5],
        last_comb: b[at + 6],
        last_cyl: b[at + 7],
        first_lba: le_u32(b, at + 8) as u32,
        num_sectors: le_u32(b, at + 12) as u32,
    }
}

/// Entry `i` of the partition table of the boot sector held by `b`.
pub open spec fn table_entry(b: Seq<u8>, i: int) -> PartEntry {
    spec_part_entry(b, 446 + 16 * i)
}

/// The signature bytes that mark a valid legacy boot sector.
pub open spec fn signature_valid(b: Seq<u8>) -> bool {
    b[510] == 0x55 && b[511] == 0xAA
}

/// `bs` holds exactly the entries and signature of the boot sector bytes `b`.
pub open spec fn decodes_to(b: Seq<u8>, bs: BootSector) -> bool {
    &&& bs.part_tbl@ == seq![table_entry(b, 0), table_entry(b, 1), table_entry(b, 2), table_entry(b, 3)]
    &&& bs.boot_sig1 == b[510]
    &&& bs.boot_sig2 == b[511]
}

fn read_le_u32(buf: &[u8], at: usize) -> (r: u32)
    requires
        at + 4 <= buf@.len(),
    ensures
        r == le_u32(buf@, at as int),
{
    let b0 = buf[at] as u32;
    let b1 = buf[at + 1] as u32;
    let b2 = buf[at + 2] as u32;
    let b3 = buf[at + 3] as u32;
    b0 + b1 * 256 + b2 * 65536 + b3 * 16777216
}

fn read_part_entry(buf: &[u8], at: usize) -> (r: PartEntry)
    requires
        at + 16 <= buf@.len(),
    ensures
        r == spec_part_entry(buf@, at as int),
{
    PartEntry {
        status: buf[at],
        first_head: buf[at + 1],
        first_comb: buf[at + 2],
        first_cyl: buf[at + 3],
        ptype: buf[at + 4],
        last_head: buf[at + 5],
        last_comb: buf[at + 6],
        last_cyl: buf[at + 7],
        first_lba: read_le_u32(buf, at + 8),
        num_sectors: read_le_u32(buf, at + 12),
    }
}

/// Decodes a boot sector and checks its signature.
///
/// Fails with `InvParam` exactly when the signature bytes are not `0x55, 0xAA`.
pub fn parse_boot_sector(buf: &[u8]) -> (r: Result<BootSector, MigError>)
    requires
        buf@.len() == BOOT_SECTOR_SIZE,
    ensures
        r is Ok <==> signature_valid(buf@),
        r matches Ok(bs) ==> decodes_to(buf@, bs),
        r matches Err(e) ==> e.kind == MigErrorKind::InvParam,
{
    let boot_sig1 = buf[510];
    let boot_sig2 = buf[511];
    if boot_sig1 != 0x55 || boot_sig2 != 0xAA {
        return Err(MigError::from_remark(
            MigErrorKind::InvParam,
            "Encountered an invalid boot sector signature, expected 0x55, 0xAA",
        ));
    }
    let part_tbl = [
        read_part_entry(buf, PART_TABLE_OFFSET),
        read_part_entry(buf, PART_TABLE_OFFSET + PART_ENTRY_SIZE),
        read_part_entry(buf, PART_TABLE_OFFSET + 2 * PART_ENTRY_SIZE),
        read_part_entry(buf, PART_TABLE_OFFSET + 3 * PART_ENTRY_SIZE),
    ];
    let bs = BootSector { part_tbl, boot_sig1, boot_sig2 };
    assert(bs.part_tbl@ =~= seq![table_entry(buf@, 0), table_entry(buf@, 1), table_entry(buf@, 2), table_entry(buf@, 3)]);
    Ok(bs)
}

/// A boot sector is accepted exactly when its signature is valid, and an
/// accepted one keeps both signature bytes unchanged.
pub proof fn lemma_signature_round_trip(b: Seq<u8>, bs: BootSector)
    requires
        b.len() == BOOT_SECTOR_SIZE,
        decodes_to(b, bs),
    ensures
        signature_valid(b) ==> bs.boot_sig1 == 0x55 && bs.boot_sig2 == 0xAA,
        bs.boot_sig1 == b[510] && bs.boot_sig2 == b[511],
{
}

} // verus!
