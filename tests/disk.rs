use std::io::{Read, Write};

use balena_migrate::boot_sector::{parse_boot_sector, PartitionType, BOOT_SECTOR_SIZE};
use balena_migrate::disk::{Disk, FillPlan, LabelType, SourceKind};
use balena_migrate::error::MigErrorKind;
use balena_migrate::reader::PartitionReader;
use balena_migrate::walker::{PartInfo, PartitionIterator, WalkAction};

/// A boot sector with the given (type, start, size) entries and signature.
fn sector(entries: &[(u8, u32, u32)], sig: (u8, u8)) -> Vec<u8> {
    let mut s = vec![0u8; BOOT_SECTOR_SIZE];
    for (i, (ptype, start, size)) in entries.iter().enumerate() {
        let at = 446 + 16 * i;
        s[at] = 0x80;
        s[at + 4] = *ptype;
        s[at + 8..at + 12].copy_from_slice(&start.to_le_bytes());
        s[at + 12..at + 16].copy_from_slice(&size.to_le_bytes());
    }
    s[510] = sig.0;
    s[511] = sig.1;
    s
}

fn put(image: &mut Vec<u8>, lba: usize, bytes: &[u8]) {
    let at = lba * 512;
    if image.len() < at + bytes.len() {
        image.resize(at + bytes.len(), 0);
    }
    image[at..at + bytes.len()].copy_from_slice(bytes);
}

/// A primary table with three data partitions and a container at sector 100
/// that chains to two more data partitions.
fn six_partition_image() -> Vec<u8> {
    let mut image = Vec::new();
    put(
        &mut image,
        0,
        &sector(&[(0x0e, 1, 8), (0x83, 9, 10), (0x83, 19, 20), (0x05, 100, 60)], (0x55, 0xAA)),
    );
    put(&mut image, 100, &sector(&[(0x83, 2, 16), (0x05, 20, 30)], (0x55, 0xAA)));
    put(&mut image, 120, &sector(&[(0x83, 3, 12)], (0x55, 0xAA)));
    put(&mut image, 140, &[0u8; 512]);
    image
}

/// Serves fill plans from an image held in memory, as a file or as a stream.
struct MemSource {
    data: Vec<u8>,
    stream_pos: usize,
}

impl MemSource {
    fn new(data: Vec<u8>) -> MemSource {
        MemSource { data, stream_pos: 0 }
    }

    fn serve(&mut self, plan: FillPlan, len: usize) -> Vec<u8> {
        let at = match plan {
            FillPlan::Seek(o) => o as usize,
            FillPlan::Skip(n) => {
                let at = self.stream_pos + n as usize;
                self.stream_pos = at + len;
                at
            }
        };
        self.data[at..at + len].to_vec()
    }
}

fn read_sector(disk: &mut Disk, src: &mut MemSource, lba: u64) -> Vec<u8> {
    let plan = disk.read_boot_sector(lba).unwrap();
    src.serve(plan, BOOT_SECTOR_SIZE)
}

fn walk(disk: &mut Disk, src: &mut MemSource) -> Vec<PartInfo> {
    let primary = read_sector(disk, src, 0);
    let mut it = PartitionIterator::new(disk, parse_boot_sector(&primary)).unwrap();
    let mut found = Vec::new();
    loop {
        match it.next() {
            WalkAction::Emit(p) => found.push(p),
            WalkAction::ReadNode(lba) => {
                let node = match disk.read_boot_sector(lba) {
                    Ok(plan) => parse_boot_sector(&src.serve(plan, BOOT_SECTOR_SIZE)),
                    Err(e) => Err(e),
                };
                if let Some(p) = it.on_node(node) {
                    found.push(p);
                }
            }
            WalkAction::Finished => break,
        }
    }
    found
}

fn gzip(data: &[u8]) -> Vec<u8> {
    let mut enc = flate2::write::GzEncoder::new(Vec::new(), flate2::Compression::fast());
    enc.write_all(data).unwrap();
    enc.finish().unwrap()
}

#[test]
fn read_gzipped_part() {
    let compressed = gzip(&six_partition_image());
    let mut plain = Vec::new();
    flate2::read::GzDecoder::new(&compressed[..]).read_to_end(&mut plain).unwrap();
    let mut src = MemSource::new(plain);
    let mut disk = Disk::from_gzip_img("./test_data/part.img.gz");
    let sector0 = read_sector(&mut disk, &mut src, 0);
    let mut disk = Disk::from_gzip_img("./test_data/part.img.gz");
    let mut src = MemSource::new(src.data);
    if let LabelType::Dos = Disk::get_label(parse_boot_sector(&sector0)).unwrap() {
        let mut count = 0;
        for partition in walk(&mut disk, &mut src) {
            match partition.index {
                1 => assert_eq!(partition.ptype, 0x0e),
                4 => assert_eq!(partition.ptype, 0x05),
                _ => assert_eq!(partition.ptype, 0x83),
            }
            count += 1;
        }
        assert_eq!(count, 6);
    } else {
        panic!("Invalid label type - not Dos");
    }
}

#[test]
fn walker_yields_planted_geometry() {
    let mut disk = Disk::from_drive_file("image.img", false, None);
    let mut src = MemSource::new(six_partition_image());
    let parts = walk(&mut disk, &mut src);
    let got: Vec<(usize, u64, u64)> =
        parts.iter().map(|p| (p.index, p.start_lba, p.num_sectors)).collect();
    assert_eq!(
        got,
        vec![(1, 1, 8), (2, 9, 10), (3, 19, 20), (4, 100, 60), (5, 102, 16), (6, 123, 12)]
    );
}

#[test]
fn walker_on_stream_source_matches_plain() {
    let mut disk = Disk::from_gzip_img("image.img.gz");
    let mut src = MemSource::new(six_partition_image());
    let parts = walk(&mut disk, &mut src);
    assert_eq!(parts.len(), 6);
    assert_eq!(parts[5].start_lba, 123);
}

#[test]
fn walk_stops_at_unknown_primary_type() {
    let mut image = Vec::new();
    put(&mut image, 0, &sector(&[(0x83, 1, 8), (0x07, 9, 10), (0x83, 19, 20)], (0x55, 0xAA)));
    let mut disk = Disk::from_drive_file("image.img", false, None);
    let parts = walk(&mut disk, &mut MemSource::new(image));
    assert_eq!(parts.len(), 1);
}

#[test]
fn walk_ends_quietly_on_bad_extended_node() {
    let mut image = Vec::new();
    put(&mut image, 0, &sector(&[(0x83, 1, 8), (0x0f, 50, 10)], (0x55, 0xAA)));
    put(&mut image, 50, &sector(&[(0x83, 1, 8)], (0x00, 0x00)));
    let mut disk = Disk::from_drive_file("image.img", false, None);
    let parts = walk(&mut disk, &mut MemSource::new(image));
    assert_eq!(parts.len(), 2);
    assert_eq!(parts[1].ptype, 0x0f);
}

#[test]
fn bad_signature_is_invalid_parameter() {
    for sig in [(0x00, 0x00), (0x55, 0x00), (0xAA, 0x55), (0x55, 0xAB)] {
        let s = sector(&[(0x83, 1, 8)], sig);
        assert_eq!(parse_boot_sector(&s).unwrap_err().kind, MigErrorKind::InvParam);
    }
    let s = sector(&[(0x83, 1, 8)], (0x55, 0xAA));
    let bs = parse_boot_sector(&s).unwrap();
    assert_eq!((bs.boot_sig1, bs.boot_sig2), (0x55, 0xAA));
    assert_eq!(bs.part_tbl[0].first_lba, 1);
    assert_eq!(bs.part_tbl[0].num_sectors, 8);
    assert_eq!(bs.part_tbl[0].part_type(), PartitionType::Linux);
}

#[test]
fn entries_decode_little_endian() {
    let s = sector(&[(0x0c, 0x0403_0201, 0xFFFF_FFFF)], (0x55, 0xAA));
    let bs = parse_boot_sector(&s).unwrap();
    assert_eq!(bs.part_tbl[0].first_lba, 0x0403_0201);
    assert_eq!(bs.part_tbl[0].num_sectors, u32::MAX);
    assert_eq!(bs.part_tbl[0].status, 0x80);
    assert_eq!(bs.part_tbl[1].part_type(), PartitionType::Empty);
}

#[test]
fn part_types_classify() {
    let s = sector(
        &[(0x05, 0, 0), (0xee, 0, 0), (0x0e, 0, 0), (0x42, 0, 0)],
        (0x55, 0xAA),
    );
    let bs = parse_boot_sector(&s).unwrap();
    assert_eq!(bs.part_tbl[0].part_type(), PartitionType::Container);
    assert_eq!(bs.part_tbl[1].part_type(), PartitionType::GPT);
    assert_eq!(bs.part_tbl[2].part_type(), PartitionType::Fat);
    assert_eq!(bs.part_tbl[3].part_type(), PartitionType::Other);
}

#[test]
fn label_types() {
    let gpt = sector(&[(0xee, 1, 100)], (0x55, 0xAA));
    assert_eq!(Disk::get_label(parse_boot_sector(&gpt)).unwrap(), LabelType::GPT);
    let dos = sector(&[(0x83, 1, 100)], (0x55, 0xAA));
    assert_eq!(Disk::get_label(parse_boot_sector(&dos)).unwrap(), LabelType::Dos);
    let other = sector(&[(0x83, 1, 100)], (0x12, 0x34));
    assert_eq!(Disk::get_label(parse_boot_sector(&other)).unwrap(), LabelType::Other);
    let upstream = balena_migrate::error::MigError::from_remark(MigErrorKind::Upstream, "io");
    assert_eq!(Disk::get_label(Err(upstream)).unwrap_err().kind, MigErrorKind::Upstream);
}

#[test]
fn stream_refuses_backward_fill() {
    let mut disk = Disk::from_gzip_img("image.img.gz");
    assert_eq!(disk.disk.fill(4096, 512).unwrap(), FillPlan::Skip(4096));
    assert_eq!(disk.disk.pos, 4608);
    let err = disk.disk.fill(1024, 512).unwrap_err();
    assert_eq!(err.kind, MigErrorKind::BackwardRead);
    assert_eq!(disk.disk.pos, 4608);
    assert_eq!(disk.disk.fill(5000, 10).unwrap(), FillPlan::Skip(392));
}

#[test]
fn plain_file_fills_anywhere() {
    let mut disk = Disk::from_drive_file("disk.img", true, Some(4096));
    assert_eq!(disk.block_size, 4096);
    assert!(disk.writable);
    assert_eq!(disk.disk.kind, SourceKind::Plain);
    assert_eq!(disk.disk.fill(4096, 512).unwrap(), FillPlan::Seek(4096));
    assert_eq!(disk.disk.fill(0, 512).unwrap(), FillPlan::Seek(0));
    assert_eq!(disk.disk.fill(u64::MAX, 1).unwrap_err().kind, MigErrorKind::InvParam);
    assert_eq!(disk.get_image_file(), "disk.img");
}

#[test]
fn boot_sector_read_ignores_block_size() {
    let mut disk = Disk::from_drive_file("disk.img", false, Some(4096));
    assert_eq!(disk.read_boot_sector(3).unwrap(), FillPlan::Seek(1536));
    assert_eq!(disk.read_boot_sector(u64::MAX).unwrap_err().kind, MigErrorKind::InvParam);
}

#[test]
fn reader_yields_partition_size_then_nothing() {
    let disk = Disk::from_drive_file("disk.img", false, Some(512));
    let part = PartInfo { index: 1, ptype: 0x83, status: 0, start_lba: 10, num_sectors: 3 };
    let mut disk = disk;
    let mut reader = PartitionReader::from_disk(&part, &disk).unwrap();
    assert_eq!(reader.offset, 5120);
    let mut total = 0;
    let mut offsets = Vec::new();
    while let Some(chunk) = reader.read(&mut disk, 700).unwrap() {
        if let FillPlan::Seek(o) = chunk.plan {
            offsets.push(o);
        }
        total += chunk.len;
    }
    assert_eq!(total, 3 * 512);
    assert_eq!(offsets, vec![5120, 5820, 6520]);
    for _ in 0..3 {
        assert!(reader.read(&mut disk, 700).unwrap().is_none());
    }
}

#[test]
fn reader_refuses_geometry_past_u64() {
    let disk = Disk::from_drive_file("disk.img", false, None);
    let part = PartInfo { index: 1, ptype: 0x83, status: 0, start_lba: u64::MAX / 256, num_sectors: 1 };
    assert_eq!(PartitionReader::from_disk(&part, &disk).unwrap_err().kind, MigErrorKind::InvParam);
}

#[test]
fn reader_from_iterator_uses_disk_block_size() {
    let disk = Disk::from_drive_file("disk.img", false, Some(1024));
    let bs = parse_boot_sector(&sector(&[(0x83, 1, 8)], (0x55, 0xAA)));
    let it = PartitionIterator::new(&disk, bs).unwrap();
    let part = PartInfo { index: 1, ptype: 0x83, status: 0, start_lba: 2, num_sectors: 4 };
    let r = PartitionReader::from_part_iterator(&part, &it).unwrap();
    assert_eq!((r.offset, r.bytes_left), (2048, 4096));
}

#[test]
fn stream_reader_refuses_to_go_back() {
    let mut disk = Disk::from_gzip_img("image.img.gz");
    let part = PartInfo { index: 1, ptype: 0x83, status: 0, start_lba: 1, num_sectors: 1 };
    disk.disk.fill(4096, 512).unwrap();
    let mut reader = PartitionReader::from_disk(&part, &disk).unwrap();
    assert_eq!(reader.read(&mut disk, 512).unwrap_err().kind, MigErrorKind::BackwardRead);
    assert_eq!(reader.bytes_left, 512);
}

#[test]
fn primary_container_at_sector_zero_ends_walk() {
    let mut image = Vec::new();
    put(&mut image, 0, &sector(&[(0x83, 1, 8), (0x05, 0, 10)], (0x55, 0xAA)));
    let mut disk = Disk::from_drive_file("image.img", false, None);
    let parts = walk(&mut disk, &mut MemSource::new(image));
    let got: Vec<(usize, u8)> = parts.iter().map(|p| (p.index, p.ptype)).collect();
    assert_eq!(got, vec![(1, 0x83), (2, 0x05)]);
}

#[test]
fn reader_passes_on_the_image_refusal() {
    let mut disk = Disk::from_drive_file("disk.img", false, None);
    let mut reader = PartitionReader { offset: u64::MAX - 10, bytes_left: 100 };
    assert_eq!(reader.read(&mut disk, 50).unwrap_err().kind, MigErrorKind::InvParam);
    assert_eq!(reader.bytes_left, 100);
}
