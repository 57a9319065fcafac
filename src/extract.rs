use vstd::prelude::*;

use crate::boot_sector::{spec_part_type, PartitionType};
use crate::disk::{Disk, SourceKind, DEF_BLOCK_SIZE};
use crate::error::{MigError, MigErrorKind};
use crate::text::{contains, path_append, spec_contains, spec_path_append, str_eq};
use crate::walker::PartInfo;

verus! {

/// Number of file system partitions of a valid source image.
pub const EXTRACT_PART_COUNT: usize = 5;

/// Name given to the partition at position `i` of a source image.
pub open spec fn spec_part_name(i: int) -> Seq<char> {
    if i == 0 {
        "resin-boot"@
    } else if i == 1 {
        "resin-rootA"@
    } else if i == 2 {
        "resin-rootB"@
    } else if i == 3 {
        "resin-state"@
    } else {
        "resin-data"@
    }
}

/// File system type of the partition at position `i` of a source image.
pub open spec fn spec_part_fstype(i: int) -> Seq<char> {
    if i == 0 {
        "vfat"@
    } else {
        "ext4"@
    }
}

fn part_name(i: usize) -> (r: &'static str)
    ensures
        r@ == spec_part_name(i as int),
{
    if i == 0 {
        "resin-boot"
    } else if i == 1 {
        "resin-rootA"
    } else if i == 2 {
        "resin-rootB"
    } else if i == 3 {
        "resin-state"
    } else {
        "resin-data"
    }
}

fn part_fstype(i: usize) -> (r: &'static str)
    ensures
        r@ == spec_part_fstype(i as int),
{
    if i == 0 {
        "vfat"
    } else {
        "ext4"
    }
}

/// A partition of the source image as extraction handles it.
#[derive(Clone, Debug)]
pub struct Partition {
    pub name: String,
    pub fstype: String,
    pub ptype: u8,
    pub status: u8,
    pub start_lba: u64,
    pub num_sectors: u64,
    /// The archive of the partition's files, once written.
    pub archive: Option<String>,
}

/// The archive of one extracted partition and its size in sectors.
#[derive(Clone, Debug)]
pub struct PartDump {
    pub archive: Option<String>,
    pub blocks: u64,
}

/// The manifest of an extracted image.
#[derive(Clone, Debug)]
pub struct FSDump {
    pub device_slug: String,
    pub check: Option<String>,
    pub boot: PartDump,
    pub root_a: PartDump,
    pub root_b: PartDump,
    pub state: PartDump,
    pub data: PartDump,
}

/// The representation of a target OS image.
#[derive(Clone, Debug)]
pub enum ImageType {
    /// A single flasher image file.
    Flasher(String),
    /// One archive per file system.
    FileSystems(FSDump),
}

/// What probing the configured image file found.
#[derive(PartialEq, Eq, Structural, Clone, Copy, Debug)]
pub enum FileType {
    GZipOSImage,
    OSImage,
    Other,
}

/// The type of an image file from what `file -bz` says of it: a boot sector
/// is an OS image, compressed when gzip data holds it.
pub open spec fn spec_file_type(desc: Seq<char>) -> FileType {
    if !spec_contains(desc, "boot sector"@) {
        FileType::Other
    } else if spec_contains(desc, "gzip compressed data"@) {
        FileType::GZipOSImage
    } else {
        FileType::OSImage
    }
}

impl FileType {
    pub fn from_description(desc: &str) -> (r: FileType)
        ensures
            r == spec_file_type(desc@),
    {
        if !contains(desc, "boot sector") {
            FileType::Other
        } else if contains(desc, "gzip compressed data") {
            FileType::GZipOSImage
        } else {
            FileType::OSImage
        }
    }
}

/// The image file that was found, and its type.
#[derive(Clone, Debug)]
pub struct ImageProbe {
    pub path: String,
    pub file_type: FileType,
}

/// Turns a source image into per-partition archives.
#[derive(Clone, Debug)]
pub struct Extractor {
    pub device_slug: String,
    pub disk: Disk,
}

/// Device types whose images can be extracted.
pub open spec fn supported_extract_device(d: Seq<char>) -> bool {
    d == "beaglebone-black"@ || d == "beaglebone-green"@
}

/// `p` is the partition at position `i` made from the descriptor `raw`, not yet written.
pub open spec fn partition_of(p: Partition, i: int, raw: PartInfo) -> bool {
    &&& p.name@ == spec_part_name(i)
    &&& p.fstype@ == spec_part_fstype(i)
    &&& p.ptype == raw.ptype
    &&& p.status == raw.status
    &&& p.start_lba == raw.start_lba
    &&& p.num_sectors == raw.num_sectors
    &&& p.archive is None
}

pub open spec fn dump_of(d: PartDump, p: Partition) -> bool {
    d.archive == p.archive && d.blocks == p.num_sectors
}

/// `d` is the manifest of the five partitions `ps` of a device of type `slug`.
pub open spec fn manifest_of(d: FSDump, slug: Seq<char>, ps: Seq<Partition>) -> bool {
    &&& d.device_slug@ == slug
    &&& d.check is None
    &&& dump_of(d.boot, ps[0])
    &&& dump_of(d.root_a, ps[1])
    &&& dump_of(d.root_b, ps[2])
    &&& dump_of(d.state, ps[3])
    &&& dump_of(d.data, ps[4])
}

impl Extractor {
    /// Checks the extraction setup: a supported device type, the external
    /// tools present, a flasher image configured and found to be a
    /// compressed or plain OS image. Every refusal is reported to the
    /// operator, so it comes back as `Displayed`.
    pub fn new(
        extract_device: Option<&str>,
        cmds_found: bool,
        image: &ImageType,
        probe: Option<&ImageProbe>,
    ) -> (r: Result<Extractor, MigError>)
        ensures
            r is Ok <==> (extract_device matches Some(d) && supported_extract_device(d@))
                && cmds_found && image is Flasher && (probe matches Some(p) && p.file_type
                != FileType::Other),
            r matches Ok(ex) ==> ex.device_slug@ == extract_device->Some_0@ && ex.disk.disk.path@
                == probe->Some_0.path@ && ex.disk.disk.pos == 0 && !ex.disk.writable
                && ex.disk.block_size == DEF_BLOCK_SIZE && ex.disk.disk.kind == (
            if probe->Some_0.file_type == FileType::GZipOSImage {
                SourceKind::GZip
            } else {
                SourceKind::Plain
            }),
            r matches Err(e) ==> e.kind == MigErrorKind::Displayed,
    {
        let device = match extract_device {
            Some(d) => {
                if !(str_eq(d, "beaglebone-black") || str_eq(d, "beaglebone-green")) {
                    return Err(MigError::displayed());
                }
                d
            },
            None => {
                return Err(MigError::displayed());
            },
        };
        if !cmds_found {
            return Err(MigError::displayed());
        }
        match image {
            ImageType::Flasher(_) => {},
            ImageType::FileSystems(_) => {
                return Err(MigError::displayed());
            },
        }
        let probe = match probe {
            Some(p) => p,
            None => {
                return Err(MigError::displayed());
            },
        };
        let disk = match probe.file_type {
            FileType::GZipOSImage => Disk::from_gzip_img(probe.path.as_str()),
            FileType::OSImage => Disk::from_drive_file(probe.path.as_str(), false, None),
            FileType::Other => {
                return Err(MigError::displayed());
            },
        };
        Ok(Extractor { device_slug: device.to_owned(), disk })
    }
}

impl Extractor {
    /// Where the archive of the partition `name` goes: `<name>.tgz` in the
    /// output directory when one is given, else in the work directory.
    pub fn archive_path(output_path: Option<&str>, work_dir: &str, name: &str) -> (r: String)
        ensures
            r@ == spec_path_append(
                match output_path {
                    Some(o) => o@,
                    None => work_dir@,
                },
                name@ + ".tgz"@,
            ),
    {
        let mut file = String::from_str(name);
        file.append(".tgz");
        match output_path {
            Some(o) => path_append(o, file.as_str()),
            None => path_append(work_dir, file.as_str()),
        }
    }
}

/// How many partitions an extraction has written, and whether it failed.
pub open spec fn session_view(x: Extraction) -> (nat, bool) {
    (x.partitions@.len(), x.failure is Some)
}

/// The progress after the next descriptor of the walk, when its write (if
/// any) succeeds: a failed extraction and a container change nothing, a
/// sixth file system fails the extraction, any other is written.
pub open spec fn step_written(state: (nat, bool), raw: PartInfo) -> (nat, bool) {
    if state.1 || spec_part_type(raw.ptype) == PartitionType::Container {
        state
    } else if state.0 >= EXTRACT_PART_COUNT {
        (state.0, true)
    } else {
        ((state.0 + 1) as nat, false)
    }
}

/// The progress after the descriptors `descs`, every write succeeding.
pub open spec fn run_written(descs: Seq<PartInfo>) -> (nat, bool)
    decreases descs.len(),
{
    if descs.len() == 0 {
        (0, false)
    } else {
        step_written(run_written(descs.drop_last()), descs.last())
    }
}

/// The number of descriptors in `descs` that are not containers.
pub open spec fn data_count(descs: Seq<PartInfo>) -> nat
    decreases descs.len(),
{
    if descs.len() == 0 {
        0
    } else {
        (data_count(descs.drop_last()) + if spec_part_type(descs.last().ptype)
            == PartitionType::Container {
            0int
        } else {
            1int
        }) as nat
    }
}

/// When every write succeeds, an extraction over the walk's descriptors
/// writes all its file systems while there are at most five, and fails past
/// five; so it ends with exactly five archives, and `finish` succeeds,
/// exactly when the image holds five file systems.
pub proof fn lemma_extraction_counts(descs: Seq<PartInfo>)
    ensures
        run_written(descs) == (if data_count(descs) <= EXTRACT_PART_COUNT {
            (data_count(descs), false)
        } else {
            (EXTRACT_PART_COUNT as nat, true)
        }),
        (run_written(descs) == (EXTRACT_PART_COUNT as nat, false)) <==> data_count(descs)
            == EXTRACT_PART_COUNT,
    decreases descs.len(),
{
    if descs.len() > 0 {
        lemma_extraction_counts(descs.drop_last());
    }
}

/// The progress of an extraction: the partitions written so far, and the
/// failure that ended it, if any.
#[derive(Clone, Debug)]
pub struct Extraction {
    pub partitions: Vec<Partition>,
    pub failure: Option<MigError>,
}

fn clone_dump(p: &Partition) -> (r: PartDump)
    ensures
        dump_of(r, *p),
{
    let archive = match &p.archive {
        Some(a) => Some(a.clone()),
        None => None,
    };
    PartDump { archive, blocks: p.num_sectors }
}

impl Extraction {
    pub fn new() -> (r: Extraction)
        ensures
            r.partitions@.len() == 0,
            r.failure is None,
    {
        Extraction { partitions: Vec::new(), failure: None }
    }

    /// Decides what becomes of the next partition the walk found. A
    /// container holds no file system and is passed over; past the five
    /// expected partitions the extraction fails with `InvParam`; otherwise
    /// the partition to write is returned, named by its position.
    pub fn on_partition(&mut self, raw: &PartInfo) -> (r: Option<Partition>)
        ensures
            old(self).failure is Some ==> r is None && *final(self) == *old(self),
            old(self).failure is None && spec_part_type(raw.ptype) == PartitionType::Container
                ==> r is None && *final(self) == *old(self),
            old(self).failure is None && spec_part_type(raw.ptype) != PartitionType::Container
                && old(self).partitions@.len() >= EXTRACT_PART_COUNT ==> r is None
                && final(self).partitions == old(self).partitions && (final(self).failure matches Some(
                e) && e.kind == MigErrorKind::InvParam),
            old(self).failure is None && spec_part_type(raw.ptype) != PartitionType::Container
                && old(self).partitions@.len() < EXTRACT_PART_COUNT ==> *final(self) == *old(self)
                && (r matches Some(p) && partition_of(p, old(self).partitions@.len() as int, *raw)),
            r is None ==> session_view(*final(self)) == step_written(session_view(*old(self)), *raw),
            r is Some ==> step_written(session_view(*old(self)), *raw) == (
            (session_view(*old(self)).0 + 1) as nat,
            false,
            ),
    {
        if self.failure.is_some() {
            return None;
        }
        match raw.ptype_class() {
            PartitionType::Container => {
                return None;
            },
            _ => {},
        }
        let idx = self.partitions.len();
        if idx >= EXTRACT_PART_COUNT {
            self.failure = Some(
                MigError::from_remark(
                    MigErrorKind::InvParam,
                    "Unexpected number of partitions found in image",
                ),
            );
            return None;
        }
        Some(
            Partition {
                name: part_name(idx).to_owned(),
                fstype: part_fstype(idx).to_owned(),
                ptype: raw.ptype,
                status: raw.status,
                start_lba: raw.start_lba,
                num_sectors: raw.num_sectors,
                archive: None,
            },
        )
    }

    /// Records the outcome of writing `part`: its archive path, or the
    /// failure that ends the extraction.
    pub fn on_written(&mut self, part: Partition, archive: Result<String, MigError>)
        ensures
            old(self).failure is Some ==> *final(self) == *old(self),
            old(self).failure is None ==> match archive {
                Ok(a) => final(self).failure is None && final(self).partitions@ == old(
                    self,
                ).partitions@.push(Partition { archive: Some(a), ..part }),
                Err(e) => final(self).partitions == old(self).partitions && final(self).failure
                    == Some(e),
            },
    {
        if self.failure.is_some() {
            return;
        }
        match archive {
            Ok(a) => {
                let mut part = part;
                part.archive = Some(a);
                self.partitions.push(part);
            },
            Err(why) => {
                self.failure = Some(why);
            },
        }
    }

    /// The outcome of the extraction: its failure, a count mismatch
    /// (`InvParam`) unless exactly five partitions were written, or the
    /// manifest of the five archives.
    pub fn finish(self, extractor: &Extractor) -> (r: Result<ImageType, MigError>)
        ensures
            match self.failure {
                Some(e) => r == Err::<ImageType, MigError>(e),
                None => if self.partitions@.len() == EXTRACT_PART_COUNT {
                    r matches Ok(ImageType::FileSystems(d)) && manifest_of(
                        d,
                        extractor.device_slug@,
                        self.partitions@,
                    )
                } else {
                    r matches Err(e) && e.kind == MigErrorKind::InvParam
                },
            },
    {
        match self.failure {
            Some(why) => {
                return Err(why);
            },
            None => {},
        }
        if self.partitions.len() != EXTRACT_PART_COUNT {
            return Err(
                MigError::from_remark(
                    MigErrorKind::InvParam,
                    "Unexpected number of partitions found in image",
                ),
            );
        }
        let ps = &self.partitions;
        Ok(
            ImageType::FileSystems(
                FSDump {
                    device_slug: extractor.device_slug.clone(),
                    check: None,
                    boot: clone_dump(&ps[0]),
                    root_a: clone_dump(&ps[1]),
                    root_b: clone_dump(&ps[2]),
                    state: clone_dump(&ps[3]),
                    data: clone_dump(&ps[4]),
                },
            ),
        )
    }
}

/// A manifest of five written partitions names an archive for every one of
/// them.
pub proof fn lemma_manifest_complete(d: FSDump, slug: Seq<char>, ps: Seq<Partition>)
    requires
        ps.len() == EXTRACT_PART_COUNT,
        forall|i: int| 0 <= i < ps.len() ==> (#[trigger] ps[i]).archive is Some,
        manifest_of(d, slug, ps),
    ensures
        d.boot.archive is Some,
        d.root_a.archive is Some,
        d.root_b.archive is Some,
        d.state.archive is Some,
        d.data.archive is Some,
{
    assert(ps[0].archive is Some);
    assert(ps[1].archive is Some);
    assert(ps[2].archive is Some);
    assert(ps[3].archive is Some);
    assert(ps[4].archive is Some);
}

} // verus!
