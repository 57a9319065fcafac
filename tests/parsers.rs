use balena_migrate::boot_manager::get_file_required_space;
use balena_migrate::device::{
    get_device, is_bb, BeagleboardXM, BeagleboneBlack, BeagleboneGreen, BootType, Device,
    DeviceType, EfiBootManager, MSWinApi, OSArch, RootDevice,
};
use balena_migrate::error::MigErrorKind;
use balena_migrate::extract::Extractor;
use balena_migrate::lsblk::LsblkInfo;
use balena_migrate::mount_point::MountPoint;
use balena_migrate::number::parse_u32;
use balena_migrate::powershell::PSInfo;
use balena_migrate::stage2::{
    CheckedImageType, FailMode, Stage2, Stage2Config, WriteDecision, WriteSource,
};
use balena_migrate::text::{path_append, trim_matches_char};

fn line(name: &str, maj_min: &str, fstype: &str, mountpoint: &str, ty: &str) -> String {
    format!(
        "NAME=\"{}\" KNAME=\"{}\" MAJ:MIN=\"{}\" FSTYPE=\"{}\" MOUNTPOINT=\"{}\" LABEL=\"\" UUID=\"\" RO=\"0\" SIZE=\"1024\" TYPE=\"{}\"",
        name, name, maj_min, fstype, mountpoint, ty
    )
}

fn lsblk_list() -> String {
    [
        line("sda", "8:0", "", "", "disk"),
        line("sda1", "8:1", "vfat", "/boot", "part"),
        line("sda2", "8:2", "ext4", "/", "part"),
        line("loop0", "7:0", "", "", "loop"),
        line("sr0", "11:0", "", "", "disk"),
        line("mmcblk0", "179:0", "", "", "disk"),
        line("mmcblk0p1", "179:1", "ext4", "/mnt/data", "part"),
    ]
    .join("\n")
}

#[test]
fn lsblk_list_parses_devices_and_partitions() {
    let info = LsblkInfo::from_list(&lsblk_list()).unwrap();
    assert_eq!(info.blockdevices.len(), 3);
    let sda = &info.blockdevices[0];
    assert_eq!(sda.name, "sda");
    assert_eq!(sda.maj_min, "8:0");
    assert_eq!(sda.size.as_deref(), Some("1024"));
    assert!(sda.uuid.is_none());
    let parts = sda.children.as_ref().unwrap();
    assert_eq!(parts.len(), 2);
    assert_eq!(parts[0].fstype.as_deref(), Some("vfat"));
    assert_eq!(parts[1].mountpoint.as_deref(), Some("/"));
    assert!(parts[1].label.is_none());
    assert_eq!(parts[1].ro, "0");
    assert!(info.blockdevices[1].children.is_none());
}

#[test]
fn lsblk_list_errors() {
    let short = "NAME=\"sda\" TYPE=\"disk\"";
    assert_eq!(LsblkInfo::from_list(short).unwrap_err().kind, MigErrorKind::InvParam);
    let orphan = line("sda1", "8:1", "vfat", "/boot", "part");
    assert_eq!(LsblkInfo::from_list(&orphan).unwrap_err().kind, MigErrorKind::InvState);
    let swapped = line("sda", "8:0", "", "", "disk").replace("KNAME", "XNAME");
    assert_eq!(LsblkInfo::from_list(&swapped).unwrap_err().kind, MigErrorKind::InvParam);
    assert!(LsblkInfo::from_list("").unwrap().blockdevices.is_empty());
}

#[test]
fn lsblk_keeps_supported_majors() {
    let mut info = LsblkInfo::from_list(&lsblk_list()).unwrap();
    info.retain_supported();
    let names: Vec<&str> = info.blockdevices.iter().map(|d| d.name.as_str()).collect();
    assert_eq!(names, vec!["sda", "mmcblk0"]);
}

#[test]
fn lsblk_path_info() {
    let info = LsblkInfo::from_list(&lsblk_list()).unwrap();
    let (d, p) = info.get_path_info("/boot").unwrap();
    assert_eq!((d.name.as_str(), p.name.as_str()), ("sda", "sda1"));
    let (_, p) = info.get_path_info("/mnt/data").unwrap();
    assert_eq!(p.name, "mmcblk0p1");
    let (_, p) = info.get_path_info("/home/user").unwrap();
    assert_eq!(p.name, "sda2");
    let (_, p) = info.get_path_info("/boot/efi").unwrap();
    assert_eq!(p.name, "sda2");
    let empty = LsblkInfo::from_list(&line("sda", "8:0", "", "", "disk")).unwrap();
    assert_eq!(empty.get_path_info("/").unwrap_err().kind, MigErrorKind::NotFound);
}

#[test]
fn powershell_version_table() {
    let out = "Major  Minor  Build  Revision\n-----  -----  -----  --------\n5      1      17763  1007";
    let mut info = PSInfo::new();
    assert_eq!(info.get_ps_ver(out).unwrap(), (5, 1));
    assert_eq!(info.get_ps_ver("garbage").unwrap(), (5, 1));
    let mut fresh = PSInfo::new();
    assert_eq!(fresh.get_ps_ver("").unwrap(), (1, 0));
    let mut bad = PSInfo::new();
    assert_eq!(bad.get_ps_ver("a\nb").unwrap_err().kind, MigErrorKind::InvParam);
    let mut nonnum = PSInfo::new();
    let out = "Major  Minor\n-----  -----\nfive   1";
    assert_eq!(nonnum.get_ps_ver(out).unwrap_err().kind, MigErrorKind::InvParam);
}

#[test]
fn powershell_cmdlets() {
    let cmdlets = "CommandType  Name             Version  Source\n-----------  ----             -------  ------\nCmdlet       Get-Disk         2.0.0.0  Storage\nCmdlet       Get-Volume       2.0.0.0  Storage\nCmdlet       Get-Disk         2.0.0.0  Storage";
    let version = "Major  Minor  Build  Revision\n-----  -----  -----  --------\n5      1      17763  1007";
    let info = PSInfo::try_init(cmdlets, version).unwrap();
    assert_eq!(info.ps_cmdlets, vec![String::from("Get-Disk"), String::from("Get-Volume")]);
    assert!(info.has_command("Get-Volume"));
    assert!(!info.has_command("Get-Partition"));
    assert_eq!(info.ps_ver, Some((5, 1)));
    let mut info = PSInfo::new();
    assert_eq!(info.get_cmdlets(cmdlets).unwrap(), 2);
    assert_eq!(info.get_cmdlets("").unwrap_err().kind, MigErrorKind::InvParam);
    assert_eq!(info.get_cmdlets("CommandType Source\n---- ----").unwrap_err().kind, MigErrorKind::InvParam);
    assert_eq!(info.get_cmdlets("CommandType Name\n---- ----\nCmdlet").unwrap_err().kind, MigErrorKind::InvParam);
}

#[test]
fn decimal_u32() {
    assert_eq!(parse_u32("0"), Some(0));
    assert_eq!(parse_u32("17763"), Some(17763));
    assert_eq!(parse_u32("+42"), Some(42));
    assert_eq!(parse_u32("4294967295"), Some(u32::MAX));
    assert_eq!(parse_u32("4294967296"), None);
    assert_eq!(parse_u32(""), None);
    assert_eq!(parse_u32("+"), None);
    assert_eq!(parse_u32("-1"), None);
    assert_eq!(parse_u32("12a"), None);
}

#[test]
fn mount_point_properties() {
    let m = MountPoint::from_query(
        "Win32_Directory.Name=\"C:\\\\\\\\\"",
        "Win32_Volume.DeviceID=\"\\\\\\\\?\\\\Volume{927a901b}\\\\\"",
    )
    .unwrap();
    assert_eq!(m.get_directory(), "C:\\\\");
    assert_eq!(m.get_volume(), "\"\\\\\\\\?\\\\Volume{927a901b}\\\\\"");
    let bad = MountPoint::from_query("Win32_Directory.Name", "Win32_Volume.DeviceID=\"x\"");
    assert_eq!(bad.unwrap_err().kind, MigErrorKind::InvParam);
}

#[test]
fn beaglebone_models() {
    let ubuntu = "Ubuntu 18.04.2 LTS";
    let d = is_bb("TI AM335x BeagleBone Black\u{0}", ubuntu).unwrap().unwrap();
    assert_eq!(d.get_device_type(), DeviceType::BeagleboneBlack);
    assert_eq!(d.get_device_slug(), "beaglebone-black");
    let d = is_bb("TI AM335x BeagleBone Green", ubuntu).unwrap().unwrap();
    assert_eq!(d.get_device_slug(), "beaglebone-green");
    let d = is_bb("TI OMAP3 BeagleBoard xM", "Ubuntu 14.04.1 LTS").unwrap().unwrap();
    assert_eq!(d.get_device_type(), DeviceType::BeagleboardXM);
    assert_eq!(d.get_device_slug(), "beaglebone-black");
    assert_eq!(d.get_boot_type(), BootType::UBoot);
    assert!(is_bb("Raspberry Pi 3 Model B", ubuntu).unwrap().is_none());
    assert_eq!(is_bb("TI AM335x BeagleBone Blue", ubuntu).unwrap_err().kind, MigErrorKind::InvParam);
    assert_eq!(is_bb("TI AM335x BeagleBone Black", "Debian 9").unwrap_err().kind, MigErrorKind::InvState);
}

#[test]
fn devices_from_boot_type() {
    assert_eq!(BeagleboneGreen::from_boot_type(&BootType::UBoot).boot_manager.boot_type, BootType::UBoot);
    assert_eq!(BeagleboneBlack::from_boot_type(&BootType::Grub).boot_manager.boot_type, BootType::Grub);
    assert_eq!(BeagleboardXM::from_boot_type(&BootType::Efi).boot_manager.boot_type, BootType::Efi);
    assert_eq!(BeagleboneBlack::from_config("Ubuntu 16.04").unwrap_err().kind, MigErrorKind::InvState);
}

#[test]
fn windows_device() {
    let d = get_device(OSArch::AMD64).unwrap();
    assert!(matches!(d, Device::IntelNuc(_)));
    assert_eq!(d.get_boot_type(), BootType::MSWEfi);
    assert_eq!(get_device(OSArch::I386).unwrap_err().kind, MigErrorKind::InvParam);
    let api = MSWinApi::new(OSArch::AMD64).unwrap();
    assert_eq!(api.get_os_arch().unwrap(), OSArch::AMD64);
}

#[test]
fn file_required_space() {
    assert_eq!(get_file_required_space(Some(100), Some(40)).unwrap(), 60);
    assert_eq!(get_file_required_space(Some(40), Some(100)).unwrap(), 0);
    assert_eq!(get_file_required_space(Some(40), None).unwrap(), 40);
    assert_eq!(get_file_required_space(None, Some(1)).unwrap_err().kind, MigErrorKind::NotFound);
}

#[test]
fn paths_and_text() {
    assert_eq!(path_append("/work", "a.tgz"), "/work/a.tgz");
    assert_eq!(path_append("/work/", "a.tgz"), "/work/a.tgz");
    assert_eq!(path_append("", "a.tgz"), "a.tgz");
    assert_eq!(Extractor::archive_path(Some("/out"), "/work", "resin-boot"), "/out/resin-boot.tgz");
    assert_eq!(Extractor::archive_path(None, "/work", "resin-data"), "/work/resin-data.tgz");
    assert_eq!(trim_matches_char("\"C:\\\"", '"'), "C:\\");
    assert_eq!(trim_matches_char("\u{0}\u{0}", '\u{0}'), "");
}

#[test]
fn write_source_selection() {
    let cfg = Stage2Config {
        fail_mode: FailMode::Reboot,
        no_flash: false,
        has_backup: false,
        balena_config: String::from("config.json"),
        image: CheckedImageType::Flasher(String::from("balena.img.gz")),
        req_space: 10,
    };
    let s = Stage2::try_init(Ok(cfg)).unwrap();
    match s.write_source(false, Some("/mnt/work")) {
        WriteSource::Image(p) => assert_eq!(p, "/migrate_tmp/balenaOS.img.gz"),
        WriteSource::Archives(_) => panic!("expected an image"),
    }
    match s.write_source(true, Some("/mnt/work")) {
        WriteSource::Image(p) => assert_eq!(p, "/mnt/work/balena.img.gz"),
        WriteSource::Archives(_) => panic!("expected an image"),
    }
}

#[test]
fn efi_startup_script() {
    let uuid = RootDevice::PartUuid(String::from("1234-abcd"));
    let script = EfiBootManager::startup_content(
        "C:\\EFI\\balena-migrate\\balena.zImage",
        "C:\\EFI\\balena-migrate\\balena.initramfs",
        &uuid,
        "ext4",
    );
    assert_eq!(
        script,
        "\necho -off\necho Starting balena Migrate Environment\n\\EFI\\balena-migrate\\balena.zImage initrd=\\EFI\\balena-migrate\\balena.initramfs root=PARTUUID=1234-abcd rootfstype=ext4"
    );
    let dev = RootDevice::Device(String::from("/dev/sda2"));
    let script = EfiBootManager::startup_content("\\k", "\\i", &dev, "vfat");
    assert!(script.ends_with("\\k initrd=\\i root=/dev/sda2 rootfstype=vfat"));
    assert!(EfiBootManager::new().msw_device);
}

fn words(line: &str) -> Vec<String> {
    line.split_whitespace().map(String::from).collect()
}

#[test]
fn lsblk_from_params() {
    let pair = |k: &str, v: &str| Some((String::from(k), String::from(v)));
    let disk = vec![
        pair("NAME", "sda"),
        pair("KNAME", "sda"),
        pair("MAJ:MIN", "8:0"),
        pair("FSTYPE", ""),
        pair("MOUNTPOINT", ""),
        pair("LABEL", ""),
        pair("UUID", "abcd"),
        pair("RO", "0"),
        pair("SIZE", "100"),
        pair("TYPE", "disk"),
    ];
    let info = LsblkInfo::from_params(&vec![disk.clone()]).unwrap();
    assert_eq!(info.blockdevices[0].uuid.as_deref(), Some("abcd"));
    let mut broken = disk;
    broken[3] = None;
    broken[9] = pair("TYPE", "part");
    assert_eq!(LsblkInfo::from_params(&vec![broken]).unwrap_err().kind, MigErrorKind::InvState);
}

#[test]
fn powershell_tables_from_words() {
    let rows = vec![words("Major Minor Build"), words("----- ----- -----"), words("7 2 0")];
    assert_eq!(PSInfo::version_from_table(&rows).unwrap(), (7, 2));
    let rows = vec![words("CommandType Name"), words("Cmdlet Get-Disk"), words("Cmdlet Get-Item")];
    assert_eq!(PSInfo::name_column(&rows).unwrap(), vec![String::from("Get-Disk"), String::from("Get-Item")]);
    assert!(PSInfo::name_column(&vec![words("CommandType Source")]).is_none());
    let mut info = PSInfo::new();
    let names = vec![String::from("A"), String::from("B"), String::from("A")];
    assert_eq!(info.add_cmdlets(&names), 2);
    assert_eq!(info.add_cmdlets(&names), 0);
}

#[test]
fn dry_run_writes_nothing() {
    let cfg = Stage2Config {
        fail_mode: FailMode::RescueShell,
        no_flash: true,
        has_backup: false,
        balena_config: String::from("config.json"),
        image: CheckedImageType::Flasher(String::from("balena.img.gz")),
        req_space: 10,
    };
    let mut s = Stage2::try_init(Ok(cfg)).unwrap();
    assert_eq!(s.start_write(false).unwrap_err().kind, MigErrorKind::NotFound);
    assert_eq!(s.start_write(true).unwrap(), WriteDecision::DryRun);
    s.config.no_flash = false;
    assert_eq!(s.start_write(true).unwrap(), WriteDecision::Write);
}
