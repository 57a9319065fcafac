use balena_migrate::debug_config::{DebugConfig, MigMode};
use balena_migrate::disk::SourceKind;
use balena_migrate::error::{MigError, MigErrorKind};
use balena_migrate::extract::{Extraction, Extractor, FileType, ImageProbe, ImageType};
use balena_migrate::lsblk::{LsblkDevice, LsblkInfo, LsblkPartition};
use balena_migrate::stage2::{
    CheckedFSDump, CheckedImageType, CheckedPartDump, FailMode, FlashResult, Phase, Stage2,
    Stage2Config, StageItem, STAGE2_MEM_THRESHOLD,
};
use balena_migrate::walker::PartInfo;

fn extractor() -> Extractor {
    let probe = ImageProbe { path: String::from("/work/image.img.gz"), file_type: FileType::GZipOSImage };
    Extractor::new(
        Some("beaglebone-black"),
        true,
        &ImageType::Flasher(String::from("image.img.gz")),
        Some(&probe),
    )
    .unwrap()
}

fn raw(index: usize, ptype: u8, num_sectors: u64) -> PartInfo {
    PartInfo { index, ptype, status: 0, start_lba: 100 * index as u64, num_sectors }
}

/// Runs an extraction over the given descriptors, writing every partition.
fn extract_all(ex: &Extractor, parts: &[PartInfo]) -> Result<ImageType, MigError> {
    let mut session = Extraction::new();
    for p in parts {
        if let Some(part) = session.on_partition(p) {
            let archive = format!("/work/{}.tgz", part.name);
            session.on_written(part, Ok(archive));
        }
    }
    session.finish(ex)
}

#[test]
fn extractor_opens_gzip_and_plain_images() {
    let ex = extractor();
    assert_eq!(ex.device_slug, "beaglebone-black");
    assert_eq!(ex.disk.disk.kind, SourceKind::GZip);
    let probe = ImageProbe { path: String::from("/work/image.img"), file_type: FileType::OSImage };
    let flasher = ImageType::Flasher(String::from("image.img"));
    let ex = Extractor::new(Some("beaglebone-green"), true, &flasher, Some(&probe)).unwrap();
    assert_eq!(ex.disk.disk.kind, SourceKind::Plain);
    assert_eq!(ex.disk.get_image_file(), "/work/image.img");
}

#[test]
fn extractor_refusals_are_displayed() {
    let probe = ImageProbe { path: String::from("/work/image.img"), file_type: FileType::OSImage };
    let other = ImageProbe { path: String::from("/work/notes.txt"), file_type: FileType::Other };
    let flasher = ImageType::Flasher(String::from("image.img"));
    let cases = [
        Extractor::new(Some("raspberrypi3"), true, &flasher, Some(&probe)),
        Extractor::new(None, true, &flasher, Some(&probe)),
        Extractor::new(Some("beaglebone-black"), false, &flasher, Some(&probe)),
        Extractor::new(Some("beaglebone-black"), true, &flasher, None),
        Extractor::new(Some("beaglebone-black"), true, &flasher, Some(&other)),
    ];
    for c in cases {
        assert_eq!(c.unwrap_err().kind, MigErrorKind::Displayed);
    }
}

#[test]
fn five_partitions_make_a_manifest() {
    let ex = extractor();
    let parts = [raw(1, 0x0c, 8), raw(2, 0x83, 9), raw(3, 0x83, 10), raw(4, 0x05, 60), raw(5, 0x83, 11), raw(6, 0x83, 12)];
    match extract_all(&ex, &parts).unwrap() {
        ImageType::FileSystems(d) => {
            assert_eq!(d.device_slug, "beaglebone-black");
            assert_eq!(d.boot.archive.as_deref(), Some("/work/resin-boot.tgz"));
            assert_eq!(d.root_a.archive.as_deref(), Some("/work/resin-rootA.tgz"));
            assert_eq!(d.root_b.archive.as_deref(), Some("/work/resin-rootB.tgz"));
            assert_eq!(d.state.archive.as_deref(), Some("/work/resin-state.tgz"));
            assert_eq!(d.data.archive.as_deref(), Some("/work/resin-data.tgz"));
            assert_eq!(d.boot.blocks, 8);
            assert_eq!(d.data.blocks, 12);
        }
        ImageType::Flasher(_) => panic!("expected a file system manifest"),
    }
}

#[test]
fn four_or_six_partitions_are_a_count_mismatch() {
    let ex = extractor();
    let four = [raw(1, 0x0c, 8), raw(2, 0x83, 9), raw(3, 0x83, 10), raw(4, 0x83, 11)];
    assert_eq!(extract_all(&ex, &four).unwrap_err().kind, MigErrorKind::InvParam);
    let six = [raw(1, 0x0c, 8), raw(2, 0x83, 9), raw(3, 0x83, 10), raw(4, 0x83, 11), raw(5, 0x83, 12), raw(6, 0x83, 13)];
    assert_eq!(extract_all(&ex, &six).unwrap_err().kind, MigErrorKind::InvParam);
}

#[test]
fn partitions_are_named_by_position() {
    let mut session = Extraction::new();
    let p = session.on_partition(&raw(1, 0x0c, 8)).unwrap();
    assert_eq!((p.name.as_str(), p.fstype.as_str()), ("resin-boot", "vfat"));
    session.on_written(p, Ok(String::from("/a/resin-boot.tgz")));
    assert!(session.on_partition(&raw(2, 0x05, 8)).is_none());
    let p = session.on_partition(&raw(3, 0x83, 8)).unwrap();
    assert_eq!((p.name.as_str(), p.fstype.as_str()), ("resin-rootA", "ext4"));
}

#[test]
fn write_failure_ends_extraction() {
    let ex = extractor();
    let mut session = Extraction::new();
    let p = session.on_partition(&raw(1, 0x0c, 8)).unwrap();
    session.on_written(p, Err(MigError::from_remark(MigErrorKind::ExecProcess, "mount failed")));
    assert!(session.on_partition(&raw(2, 0x83, 8)).is_none());
    assert_eq!(session.finish(&ex).unwrap_err().kind, MigErrorKind::ExecProcess);
}

fn fs_config(fail_mode: FailMode) -> Stage2Config {
    let dump = |a: Option<&str>| CheckedPartDump { archive: a.map(String::from), blocks: 10 };
    Stage2Config {
        fail_mode,
        no_flash: false,
        has_backup: true,
        balena_config: String::from("config.json"),
        image: CheckedImageType::FileSystems(CheckedFSDump {
            boot: dump(Some("boot.tgz")),
            root_a: dump(Some("rootA.tgz")),
            root_b: dump(None),
            state: dump(Some("state.tgz")),
            data: dump(Some("data.tgz")),
        }),
        req_space: 1000,
    }
}

#[test]
fn staging_refused_without_memory() {
    let mut s = Stage2::try_init(Ok(fs_config(FailMode::Reboot))).unwrap();
    let required = 1000 + 10 + 20 + 5 + 6;
    let r = s.stage(false, required + STAGE2_MEM_THRESHOLD - 1, 10, 20, &vec![5, 6], true);
    assert_eq!(r.unwrap_err().kind, MigErrorKind::InvState);
    assert_eq!(s.phase, Phase::Mounted);
    let r = s.stage(false, required + STAGE2_MEM_THRESHOLD, 10, 20, &vec![5, 6], true);
    assert_eq!(r.unwrap_err().kind, MigErrorKind::InvState);
    let r = s.check_staging_space(required + STAGE2_MEM_THRESHOLD + 1, 10, 20, &vec![5, 6]);
    assert_eq!(r.unwrap(), required);
    let r = s.check_staging_space(u64::MAX, 10, 20, &vec![u64::MAX]);
    assert_eq!(r.unwrap_err().kind, MigErrorKind::InvState);
}

#[test]
fn staging_plan_lists_payload() {
    let mut s = Stage2::try_init(Ok(fs_config(FailMode::Reboot))).unwrap();
    let plan = s.stage(false, u64::MAX, 10, 20, &vec![5], true).unwrap();
    assert_eq!(s.phase, Phase::Staged);
    let names: Vec<(String, String)> = plan
        .iter()
        .map(|i| match i {
            StageItem::File { source, target } => (source.clone(), target.clone()),
            StageItem::NetworkConnections => (String::from("*"), String::from("*")),
        })
        .collect();
    let expect = [
        ("boot.tgz", "resin-boot.tgz"),
        ("rootA.tgz", "resin-rootA.tgz"),
        ("state.tgz", "resin-state.tgz"),
        ("data.tgz", "resin-data.tgz"),
        ("config.json", "config.json"),
        ("*", "*"),
        ("backup.tgz", "backup.tgz"),
    ];
    let expect: Vec<(String, String)> =
        expect.iter().map(|(a, b)| (a.to_string(), b.to_string())).collect();
    assert_eq!(names, expect);
}

#[test]
fn staging_in_place_copies_nothing() {
    let mut s = Stage2::try_init(Ok(fs_config(FailMode::Reboot))).unwrap();
    assert!(s.stage(true, 0, 10, 20, &vec![], false).unwrap().is_empty());
}

#[test]
fn staging_needs_boot_root_and_data_archives() {
    let mut cfg = fs_config(FailMode::Reboot);
    if let CheckedImageType::FileSystems(ref mut d) = cfg.image {
        d.data.archive = None;
    }
    let s = Stage2::try_init(Ok(cfg)).unwrap();
    assert_eq!(s.stage_plan(false).unwrap_err().kind, MigErrorKind::Displayed);
}

#[test]
fn non_recoverable_write_goes_to_rescue_shell() {
    let mut s = Stage2::try_init(Ok(fs_config(FailMode::Reboot))).unwrap();
    s.boot_restored(true);
    assert_eq!(s.error_exit(), FailMode::Reboot);
    let r = s.flash_done(FlashResult::FailNonRecoverable);
    assert_eq!(r.unwrap_err().kind, MigErrorKind::Displayed);
    assert!(!s.recoverable_state);
    assert_eq!(s.error_exit(), FailMode::RescueShell);
}

#[test]
fn recoverable_write_uses_configured_fail_mode() {
    let mut s = Stage2::try_init(Ok(fs_config(FailMode::Reboot))).unwrap();
    assert_eq!(s.error_exit(), FailMode::RescueShell);
    assert!(s.flash_done(FlashResult::FailRecoverable).is_err());
    assert_eq!(s.error_exit(), FailMode::Reboot);
}

#[test]
fn successful_write_then_boot_config() {
    let mut s = Stage2::try_init(Ok(fs_config(FailMode::RescueShell))).unwrap();
    assert!(s.flash_done(FlashResult::Success).is_ok());
    assert_eq!(s.phase, Phase::BootRestoring);
    assert!(s.boot_config_copied(true, Ok(())).is_ok());
    assert!(s.recoverable_state);
    assert_eq!(s.phase, Phase::Finalizing);
    assert_eq!(s.finalized(), FailMode::Reboot);
    assert_eq!(Stage2::default_exit(), FailMode::Reboot);
}

#[test]
fn missing_boot_partition_is_not_recoverable() {
    let mut s = Stage2::try_init(Ok(fs_config(FailMode::Reboot))).unwrap();
    s.boot_restored(true);
    assert!(s.boot_config_copied(false, Ok(())).is_err());
    assert_eq!(s.error_exit(), FailMode::RescueShell);
}

#[test]
fn stage2_needs_a_config() {
    let r = Stage2::try_init(Err(MigError::from_remark(MigErrorKind::NotFound, "no config")));
    assert_eq!(r.unwrap_err().kind, MigErrorKind::Displayed);
}

#[test]
fn log_path_choice() {
    let mut cfg = fs_config(FailMode::Reboot);
    let s = Stage2::try_init(Ok(cfg.clone())).unwrap();
    assert_eq!(s.log_path(Some("/mnt/log"), Some("/mnt/work")).unwrap(), "/mnt/log/migrate.log");
    assert!(s.log_path(None, Some("/mnt/work")).is_none());
    cfg.no_flash = true;
    let s = Stage2::try_init(Ok(cfg)).unwrap();
    assert_eq!(s.log_path(None, Some("/mnt/work/")).unwrap(), "/mnt/work/migrate.log");
}

#[test]
fn debug_config_hacks() {
    let cfg = DebugConfig::default();
    assert!(!cfg.is_no_flash());
    assert!(cfg.get_hacks().is_none());
    assert!(cfg.get_hack("dump-efi").is_none());
    assert!(cfg.check(&MigMode::Immediate).is_ok());
    let cfg = DebugConfig {
        force_flash_device: None,
        no_flash: Some(true),
        hacks: Some(vec![
            String::from("dump-efi-x"),
            String::from("dump-efi:yes"),
            String::from("dump-efi"),
        ]),
    };
    assert!(cfg.is_no_flash());
    assert_eq!(cfg.get_hacks().unwrap().len(), 3);
    assert_eq!(cfg.get_hack("dump-efi").unwrap(), "dump-efi:yes");
    assert!(cfg.get_hack("dump").is_none());
}

fn lsblk_part(name: &str) -> LsblkPartition {
    LsblkPartition {
        name: String::from(name),
        kname: String::from(name),
        maj_min: String::from("8:1"),
        ro: String::from("0"),
        uuid: None,
        fstype: None,
        mountpoint: None,
        label: None,
        parttype: None,
        partlabel: None,
        partuuid: None,
        size: None,
    }
}

fn lsblk_info() -> LsblkInfo {
    let dev = |name: &str, children: Option<Vec<LsblkPartition>>| LsblkDevice {
        name: String::from(name),
        kname: String::from(name),
        maj_min: String::from("8:0"),
        uuid: None,
        size: None,
        children,
    };
    LsblkInfo {
        blockdevices: vec![
            dev("sda", Some(vec![lsblk_part("sda1"), lsblk_part("sda2")])),
            dev("sdb", None),
        ],
    }
}

#[test]
fn lsblk_lookups() {
    let info = lsblk_info();
    assert_eq!(info.blockdevices[0].get_path(), "/dev/sda");
    assert_eq!(info.blockdevices[0].get_devinfo_from_part_name("sda2").unwrap().get_path(), "/dev/sda2");
    let missing = info.blockdevices[0].get_devinfo_from_part_name("sda3");
    assert_eq!(missing.unwrap_err().kind, MigErrorKind::NotFound);
    let none = info.blockdevices[1].get_devinfo_from_part_name("sdb1");
    assert_eq!(none.unwrap_err().kind, MigErrorKind::NotFound);
    let (d, p) = info.get_devinfo_from_partition("/dev/sda1").unwrap();
    assert_eq!((d.name.as_str(), p.name.as_str()), ("sda", "sda1"));
    assert_eq!(info.get_devinfo_from_partition("/dev/sdc1").unwrap_err().kind, MigErrorKind::NotFound);
    assert_eq!(info.get_devinfo_from_partition("/").unwrap_err().kind, MigErrorKind::InvParam);
}

#[test]
fn image_types_from_file_descriptions() {
    let gz = "DOS/MBR boot sector; partition 1 : ID=0xc, active (gzip compressed data, from Unix)";
    assert_eq!(FileType::from_description(gz), FileType::GZipOSImage);
    let plain = "DOS/MBR boot sector; partition 1 : ID=0xc, active, start-CHS (0x0,130,3)";
    assert_eq!(FileType::from_description(plain), FileType::OSImage);
    assert_eq!(FileType::from_description("ASCII text"), FileType::Other);
    assert_eq!(FileType::from_description(""), FileType::Other);
}
