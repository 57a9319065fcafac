use vstd::prelude::*;

use crate::disk::{after_fill, fill_error, fill_ok, fill_plan, Disk, FillPlan, SourceKind};
use crate::error::{MigError, MigErrorKind};
use crate::walker::{PartInfo, PartitionIterator};

verus! {

/// A bounded byte stream over one partition: the absolute byte offset of the
/// next read and the number of bytes of the partition not yet handed out.
#[derive(PartialEq, Eq, Structural, Clone, Copy, Debug)]
pub struct PartitionReader {
    pub offset: u64,
    pub bytes_left: u64,
}

/// One accepted read: how many bytes go to the front of the caller's buffer,
/// and how the image is to deliver them.
#[derive(PartialEq, Eq, Structural, Clone, Copy, Debug)]
pub struct ReadChunk {
    pub len: usize,
    pub plan: FillPlan,
}

/// The geometry of `part` in bytes fits in `u64`.
pub open spec fn geometry_fits(part: PartInfo, block_size: u64) -> bool {
    &&& part.start_lba * block_size <= u64::MAX
    &&& part.num_sectors * block_size <= u64::MAX
    &&& part.start_lba * block_size + part.num_sectors * block_size <= u64::MAX
}

pub open spec fn spec_reader(part: PartInfo, block_size: u64) -> PartitionReader {
    PartitionReader {
        offset: (part.start_lba * block_size) as u64,
        bytes_left: (part.num_sectors * block_size) as u64,
    }
}

/// The number of bytes a read into a buffer of `buf_len` bytes hands out.
pub open spec fn chunk_len(r: PartitionReader, buf_len: usize) -> nat {
    if r.bytes_left < buf_len {
        r.bytes_left as nat
    } else {
        buf_len as nat
    }
}

/// The reader after a successful read into a buffer of `buf_len` bytes.
pub open spec fn after_read(r: PartitionReader, buf_len: usize) -> PartitionReader {
    PartitionReader {
        offset: (r.offset + chunk_len(r, buf_len)) as u64,
        bytes_left: (r.bytes_left - chunk_len(r, buf_len)) as u64,
    }
}

fn reader_for(part: &PartInfo, block_size: u64) -> (r: Result<PartitionReader, MigError>)
    ensures
        r is Ok <==> geometry_fits(*part, block_size),
        r matches Ok(rd) ==> rd == spec_reader(*part, block_size),
        r matches Err(e) ==> e.kind == MigErrorKind::InvParam,
{
    let offset = part.start_lba.checked_mul(block_size);
    let bytes = part.num_sectors.checked_mul(block_size);
    match (offset, bytes) {
        (Some(offset), Some(bytes_left)) => {
            if bytes_left <= u64::MAX - offset {
                Ok(PartitionReader { offset, bytes_left })
            } else {
                Err(MigError::from_remark(MigErrorKind::InvParam, "partition extends past the image"))
            }
        },
        _ => Err(MigError::from_remark(MigErrorKind::InvParam, "partition extends past the image")),
    }
}

impl PartitionReader {
    /// A reader over the bytes of `part` on `disk`. Fails with `InvParam`
    /// when the partition's byte range does not fit in `u64`.
    pub fn from_disk(part: &PartInfo, disk: &Disk) -> (r: Result<PartitionReader, MigError>)
        ensures
            r is Ok <==> geometry_fits(*part, disk.block_size),
            r matches Ok(rd) ==> rd == spec_reader(*part, disk.block_size),
            r matches Err(e) ==> e.kind == MigErrorKind::InvParam,
    {
        reader_for(part, disk.block_size)
    }

    /// A reader over the bytes of `part`, with the block size of the disk
    /// that `iterator` walks.
    pub fn from_part_iterator(part: &PartInfo, iterator: &PartitionIterator) -> (r: Result<
        PartitionReader,
        MigError,
    >)
        ensures
            r is Ok <==> geometry_fits(*part, iterator.block_size),
            r matches Ok(rd) ==> rd == spec_reader(*part, iterator.block_size),
            r matches Err(e) ==> e.kind == MigErrorKind::InvParam,
    {
        reader_for(part, iterator.block_size)
    }

    /// Reads the next bytes of the partition into a buffer of `buf_len`
    /// bytes, never past the partition's end. At the end it returns `None`,
    /// a zero-length read, and changes nothing. A request that the image
    /// refuses is passed on and leaves the reader as it was.
    pub fn read(&mut self, disk: &mut Disk, buf_len: usize) -> (r: Result<
        Option<ReadChunk>,
        MigError,
    >)
        ensures
            old(self).bytes_left == 0 ==> r == Ok::<Option<ReadChunk>, MigError>(None) && *final(self)
                == *old(self) && *final(disk) == *old(disk),
            old(self).bytes_left > 0 ==> {
                let n = chunk_len(*old(self), buf_len);
                &&& r is Ok <==> fill_ok(old(disk).disk, old(self).offset, n as usize)
                &&& r matches Ok(c) ==> c == Some(
                    ReadChunk { len: n as usize, plan: fill_plan(old(disk).disk, old(self).offset) },
                ) && *final(self) == after_read(*old(self), buf_len) && *final(disk) == (Disk {
                    disk: after_fill(old(disk).disk, old(self).offset, n as usize),
                    ..*old(disk)
                })
                &&& r matches Err(e) ==> e.kind == fill_error(old(disk).disk, old(self).offset, n as usize)
                    && *final(self) == *old(self) && *final(disk) == *old(disk)
            },
            old(disk).disk.kind == SourceKind::Plain && old(self).offset + old(self).bytes_left
                <= u64::MAX ==> r is Ok,
    {
        if self.bytes_left == 0 {
            return Ok(None);
        }
        let size: usize = if self.bytes_left < buf_len as u64 {
            self.bytes_left as usize
        } else {
            buf_len
        };
        match disk.disk.fill(self.offset, size) {
            Ok(plan) => {
                self.offset = self.offset + size as u64;
                self.bytes_left = self.bytes_left - size as u64;
                Ok(Some(ReadChunk { len: size, plan }))
            },
            Err(why) => Err(why),
        }
    }
}

/// The reader after successful reads into buffers of the given sizes, and
/// the number of bytes those reads handed out.
pub open spec fn reads(r: PartitionReader, lens: Seq<usize>) -> (PartitionReader, nat)
    decreases lens.len(),
{
    if lens.len() == 0 {
        (r, 0)
    } else if r.bytes_left == 0 {
        reads(r, lens.drop_first())
    } else {
        let rest = reads(after_read(r, lens[0]), lens.drop_first());
        (rest.0, (chunk_len(r, lens[0]) + rest.1) as nat)
    }
}

pub open spec fn total_len(lens: Seq<usize>) -> nat
    decreases lens.len(),
{
    if lens.len() == 0 {
        0
    } else {
        (lens[0] + total_len(lens.drop_first())) as nat
    }
}

/// Repeated reads hand out exactly the partition's bytes: as many as the
/// buffers hold, up to the partition's size and never more; once the size
/// is reached, every further read hands out nothing and the reader stays put.
pub proof fn lemma_reads_yield_partition_size(r: PartitionReader, lens: Seq<usize>)
    requires
        r.offset + r.bytes_left <= u64::MAX,
    ensures
        reads(r, lens).1 == if total_len(lens) < r.bytes_left {
            total_len(lens)
        } else {
            r.bytes_left as nat
        },
        reads(r, lens).0.bytes_left == r.bytes_left - reads(r, lens).1,
        reads(r, lens).0.offset + reads(r, lens).0.bytes_left == r.offset + r.bytes_left,
        r.bytes_left == 0 ==> reads(r, lens) == (r, 0nat),
    decreases lens.len(),
{
    if lens.len() > 0 {
        if r.bytes_left == 0 {
            lemma_reads_yield_partition_size(r, lens.drop_first());
        } else {
            lemma_reads_yield_partition_size(after_read(r, lens[0]), lens.drop_first());
        }
    }
}

} // verus!
