use vstd::prelude::*;

use crate::boot_sector::{spec_part_type, BootSector, PartitionType, BOOT_SECTOR_SIZE};
use crate::error::{MigError, MigErrorKind};

verus! {

/// Block size of a disk when none is given.
pub const DEF_BLOCK_SIZE: u64 = 512;

/// The capability of the store behind an image.
#[derive(PartialEq, Eq, Structural, Clone, Copy, Debug)]
pub enum SourceKind {
    /// A plain file: any offset can be read.
    Plain,
    /// A decompressing stream: offsets can only move forward.
    GZip,
}

/// How the bytes of an accepted fill request are to be fetched from the store.
#[derive(PartialEq, Eq, Structural, Clone, Copy, Debug)]
pub enum FillPlan {
    /// Read from this absolute offset of a plain file.
    Seek(u64),
    /// Discard this many bytes of the stream, then read.
    Skip(u64),
}

/// A byte-range reader over an image file. It keeps the path of the file and
/// the position just past the last byte that was handed out.
#[derive(Clone, Debug)]
pub struct ImageFile {
    pub path: String,
    pub kind: SourceKind,
    pub pos: u64,
}

/// A request for `len` bytes at `offset` can be served: the range fits in
/// `u64`, and a stream is not asked to go back.
pub open spec fn fill_ok(src: ImageFile, offset: u64, len: usize) -> bool {
    &&& offset + len <= u64::MAX
    &&& src.kind == SourceKind::GZip ==> src.pos <= offset
}

pub open spec fn fill_plan(src: ImageFile, offset: u64) -> FillPlan {
    match src.kind {
        SourceKind::Plain => FillPlan::Seek(offset),
        SourceKind::GZip => FillPlan::Skip((offset - src.pos) as u64),
    }
}

/// The reader once a request for `len` bytes at `offset` was served.
pub open spec fn after_fill(src: ImageFile, offset: u64, len: usize) -> ImageFile {
    ImageFile { pos: (offset + len) as u64, ..src }
}

/// The kind of error with which a request that cannot be served is refused.
pub open spec fn fill_error(src: ImageFile, offset: u64, len: usize) -> MigErrorKind {
    if offset + len > u64::MAX {
        MigErrorKind::InvParam
    } else {
        MigErrorKind::BackwardRead
    }
}

impl ImageFile {
    pub fn new(path: &str, kind: SourceKind) -> (r: ImageFile)
        ensures
            r.path@ == path@,
            r.kind == kind,
            r.pos == 0,
    {
        ImageFile { path: path.to_owned(), kind, pos: 0 }
    }

    pub fn get_path(&self) -> (r: String)
        ensures
            r@ == self.path@,
    {
        self.path.clone()
    }

    /// Accepts or refuses a request to fill `len` bytes from `offset`, and
    /// says how the bytes are to be fetched. A stream refuses any offset
    /// before its current position instead of reading from the start again.
    pub fn fill(&mut self, offset: u64, len: usize) -> (r: Result<FillPlan, MigError>)
        ensures
            r is Ok <==> fill_ok(*old(self), offset, len),
            r matches Ok(p) ==> p == fill_plan(*old(self), offset) && *final(self) == after_fill(
                *old(self),
                offset,
                len,
            ),
            r matches Err(e) ==> e.kind == fill_error(*old(self), offset, len) && *final(self)
                == *old(self),
    {
        if len as u64 > u64::MAX - offset {
            return Err(MigError::from_remark(MigErrorKind::InvParam, "read range exceeds the image"));
        }
        let plan = match self.kind {
            SourceKind::Plain => FillPlan::Seek(offset),
            SourceKind::GZip => {
                if offset < self.pos {
                    return Err(
                        MigError::from_remark(
                            MigErrorKind::BackwardRead,
                            "a compressed image can only be read forward",
                        ),
                    );
                }
                FillPlan::Skip(offset - self.pos)
            },
        };
        self.pos = offset + len as u64;
        Ok(plan)
    }
}

/// Once a stream served a request at `o1`, any request at an earlier offset
/// `o2` fails: the stream is never read again from its start.
pub proof fn lemma_stream_reads_forward_only(
    src: ImageFile,
    o1: u64,
    len1: usize,
    o2: u64,
    len2: usize,
)
    requires
        src.kind == SourceKind::GZip,
        fill_ok(src, o1, len1),
        o2 < o1,
    ensures
        !fill_ok(after_fill(src, o1, len1), o2, len2),
        fill_error(after_fill(src, o1, len1), o2, len2) == MigErrorKind::BackwardRead
            || o2 + len2 > u64::MAX,
{
}

/// The partition table flavour of a disk.
#[derive(PartialEq, Eq, Structural, Clone, Copy, Debug)]
pub enum LabelType {
    GPT,
    Dos,
    Other,
}

/// A disk image: its reader, whether it may be written, and its block size.
#[derive(Clone, Debug)]
pub struct Disk {
    pub disk: ImageFile,
    pub writable: bool,
    pub block_size: u64,
}

impl Disk {
    /// A read-only disk over a gzip-compressed image.
    pub fn from_gzip_img(image: &str) -> (r: Disk)
        ensures
            r.disk.path@ == image@,
            r.disk.kind == SourceKind::GZip,
            r.disk.pos == 0,
            !r.writable,
            r.block_size == DEF_BLOCK_SIZE,
    {
        Disk { disk: ImageFile::new(image, SourceKind::GZip), writable: false, block_size: DEF_BLOCK_SIZE }
    }

    /// A disk over a plain image file or device, with the given block size or
    /// the default one.
    pub fn from_drive_file(drive: &str, writable: bool, block_size: Option<u64>) -> (r: Disk)
        ensures
            r.disk.path@ == drive@,
            r.disk.kind == SourceKind::Plain,
            r.disk.pos == 0,
            r.writable == writable,
            r.block_size == (match block_size {
                Some(b) => b,
                None => DEF_BLOCK_SIZE,
            }),
    {
        let block_size = match block_size {
            Some(b) => b,
            None => DEF_BLOCK_SIZE,
        };
        Disk { disk: ImageFile::new(drive, SourceKind::Plain), writable, block_size }
    }

    pub fn get_image_file(&self) -> (r: String)
        ensures
            r@ == self.disk.path@,
    {
        self.disk.get_path()
    }

    /// Requests the boot sector at `block_idx`: 512 bytes at `block_idx * 512`,
    /// whatever the block size of the disk.
    pub fn read_boot_sector(&mut self, block_idx: u64) -> (r: Result<FillPlan, MigError>)
        ensures
            block_idx * 512 > u64::MAX ==> (r matches Err(e) && e.kind == MigErrorKind::InvParam
                && *final(self) == *old(self)),
            block_idx * 512 <= u64::MAX ==> {
                let offset = (block_idx * 512) as u64;
                &&& r is Ok <==> fill_ok(old(self).disk, offset, BOOT_SECTOR_SIZE)
                &&& r matches Ok(p) ==> p == fill_plan(old(self).disk, offset) && *final(self) == (Disk {
                    disk: after_fill(old(self).disk, offset, BOOT_SECTOR_SIZE),
                    ..*old(self)
                })
                &&& r matches Err(e) ==> e.kind == fill_error(old(self).disk, offset, BOOT_SECTOR_SIZE)
                    && *final(self) == *old(self)
            },
    {
        if block_idx > u64::MAX / 512 {
            return Err(MigError::from_remark(MigErrorKind::InvParam, "boot sector index out of range"));
        }
        let offset = block_idx * 512;
        self.disk.fill(offset, BOOT_SECTOR_SIZE)
    }

    /// The label type of a disk from the outcome of reading its first boot
    /// sector: a sector with an invalid signature means a foreign or absent
    /// table, any other read failure is passed on.
    pub fn get_label(sector0: Result<BootSector, MigError>) -> (r: Result<LabelType, MigError>)
        ensures
            match sector0 {
                Ok(bs) => r == Ok::<LabelType, MigError>(
                    if spec_part_type(bs.part_tbl@[0].ptype) == PartitionType::GPT {
                        LabelType::GPT
                    } else {
                        LabelType::Dos
                    },
                ),
                Err(e) => if e.kind == MigErrorKind::InvParam {
                    r == Ok::<LabelType, MigError>(LabelType::Other)
                } else {
                    r == Err::<LabelType, MigError>(e)
                },
            },
    {
        match sector0 {
            Ok(bs) => match bs.part_tbl[0].part_type() {
                PartitionType::GPT => Ok(LabelType::GPT),
                _ => Ok(LabelType::Dos),
            },
            Err(why) => {
                if why.kind == MigErrorKind::InvParam {
                    Ok(LabelType::Other)
                } else {
                    Err(why)
                }
            },
        }
    }
}

} // verus!
