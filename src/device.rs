use vstd::prelude::*;

use crate::error::{MigError, MigErrorKind};
use crate::pattern::{captures, get_group, group, regex_groups};
use crate::text::{str_eq, trim_char, trim_matches_char};

verus! {

/// The model line of a BeagleBone or BeagleBoard: a vendor prefix, the
/// family, and the model in the fourth group.
pub const BB_MODEL_REGEX: &'static str = "^((\\S+\\s+)*\\S+)\\s+Beagle(Bone|Board)\\s+(\\S+)$";

/// How a device boots.
#[derive(PartialEq, Eq, Structural, Clone, Copy, Debug)]
pub enum BootType {
    UBoot,
    Raspi,
    Efi,
    Grub,
    MSWEfi,
    MSWBootMgr,
}

/// The supported device types.
#[derive(PartialEq, Eq, Structural, Clone, Copy, Debug)]
pub enum DeviceType {
    BeagleboneGreen,
    BeagleboneBlack,
    BeagleboardXM,
    IntelNuc,
}

/// The processor architecture of the running system.
#[derive(PartialEq, Eq, Structural, Clone, Copy, Debug)]
pub enum OSArch {
    AMD64,
    ARMHF,
    I386,
}

/// The boot manager of a device, by the way it boots.
#[derive(PartialEq, Eq, Structural, Clone, Copy, Debug)]
pub struct BootManager {
    pub boot_type: BootType,
}

impl BootManager {
    pub fn from_boot_type(boot_type: &BootType) -> (r: BootManager)
        ensures
            r.boot_type == *boot_type,
    {
        BootManager { boot_type: *boot_type }
    }

    pub fn get_boot_type(&self) -> (r: BootType)
        ensures
            r == self.boot_type,
    {
        self.boot_type
    }
}

/// The head of the EFI shell script that starts the migration kernel.
pub const STARTUP_TEMPLATE: &'static str = "\necho -off\necho Starting balena Migrate Environment\n";

/// A Windows path with a drive letter; the rest of the path in group 1.
pub const DRIVE_LETTER_RE: &'static str = "^[a-z,A-Z]:(.*)$";

/// How the migration kernel finds its root file system.
#[derive(Clone, Debug)]
pub enum RootDevice {
    /// By the partition UUID.
    PartUuid(String),
    /// By the Linux device name of the partition.
    Device(String),
}

/// `path` without its drive letter, as the EFI shell addresses files.
pub open spec fn without_drive(path: Seq<char>) -> Seq<char> {
    match regex_groups(DRIVE_LETTER_RE@, path) {
        Some(g) => match group(g, 1) {
            Some(rest) => rest,
            None => path,
        },
        None => path,
    }
}

pub open spec fn root_arg(root: RootDevice) -> Seq<char> {
    match root {
        RootDevice::PartUuid(u) => "PARTUUID="@ + u@,
        RootDevice::Device(d) => d@,
    }
}

/// The startup script: the template, then the kernel command line with the
/// initramfs, the root file system and its type.
pub open spec fn spec_startup_content(
    kernel_path: Seq<char>,
    initrd_path: Seq<char>,
    root: RootDevice,
    fstype: Seq<char>,
) -> Seq<char> {
    STARTUP_TEMPLATE@ + without_drive(kernel_path) + " initrd="@ + without_drive(initrd_path)
        + " root="@ + root_arg(root) + " rootfstype="@ + fstype
}

fn strip_drive_letter(path: &str) -> (r: String)
    ensures
        r@ == without_drive(path@),
{
    match captures(DRIVE_LETTER_RE, path) {
        Some(g) => match get_group(&g, 1) {
            Some(rest) => rest,
            None => path.to_owned(),
        },
        None => path.to_owned(),
    }
}

/// The EFI boot manager of a Windows device.
#[derive(PartialEq, Eq, Structural, Clone, Copy, Debug)]
pub struct EfiBootManager {
    pub msw_device: bool,
}

impl EfiBootManager {
    pub fn new() -> (r: EfiBootManager)
        ensures
            r.msw_device,
    {
        EfiBootManager { msw_device: true }
    }

    pub fn get_boot_type(&self) -> (r: BootType)
        ensures
            r == BootType::MSWEfi,
    {
        BootType::MSWEfi
    }

    /// The `startup.nsh` script that boots the migration kernel from the
    /// EFI partition.
    pub fn startup_content(kernel_path: &str, initrd_path: &str, root: &RootDevice, fstype: &str) -> (r:
        String)
        ensures
            r@ == spec_startup_content(kernel_path@, initrd_path@, *root, fstype@),
    {
        let mut content = String::from_str(STARTUP_TEMPLATE);
        let kernel = strip_drive_letter(kernel_path);
        content.append(kernel.as_str());
        content.append(" initrd=");
        let initrd = strip_drive_letter(initrd_path);
        content.append(initrd.as_str());
        content.append(" root=");
        match root {
            RootDevice::PartUuid(u) => {
                content.append("PARTUUID=");
                content.append(u.as_str());
            },
            RootDevice::Device(d) => {
                content.append(d.as_str());
            },
        }
        content.append(" rootfstype=");
        content.append(fstype);
        assert(content@ =~= spec_startup_content(kernel_path@, initrd_path@, *root, fstype@));
        content
    }
}

/// Operating systems from which a BeagleBone can be migrated.
pub open spec fn supported_os(os_name: Seq<char>) -> bool {
    os_name == "Ubuntu 18.04.2 LTS"@ || os_name == "Ubuntu 14.04.1 LTS"@
}

fn check_os(os_name: &str) -> (r: Result<(), MigError>)
    ensures
        r is Ok <==> supported_os(os_name@),
        r matches Err(e) ==> e.kind == MigErrorKind::InvState,
{
    if str_eq(os_name, "Ubuntu 18.04.2 LTS") || str_eq(os_name, "Ubuntu 14.04.1 LTS") {
        Ok(())
    } else {
        Err(MigError::from_remark(MigErrorKind::InvState, "The OS is not supported for this device type"))
    }
}

#[derive(PartialEq, Eq, Structural, Clone, Copy, Debug)]
pub struct BeagleboneGreen {
    pub boot_manager: BootManager,
}

#[derive(PartialEq, Eq, Structural, Clone, Copy, Debug)]
pub struct BeagleboneBlack {
    pub boot_manager: BootManager,
}

#[derive(PartialEq, Eq, Structural, Clone, Copy, Debug)]
pub struct BeagleboardXM {
    pub boot_manager: BootManager,
}

impl BeagleboneGreen {
    /// The device when migrating from a supported OS, booting with U-Boot;
    /// `InvState` otherwise.
    pub fn from_config(os_name: &str) -> (r: Result<BeagleboneGreen, MigError>)
        ensures
            r is Ok <==> supported_os(os_name@),
            r matches Ok(d) ==> d.boot_manager.boot_type == BootType::UBoot,
            r matches Err(e) ==> e.kind == MigErrorKind::InvState,
    {
        check_os(os_name)?;
        Ok(BeagleboneGreen { boot_manager: BootManager { boot_type: BootType::UBoot } })
    }

    pub fn from_boot_type(boot_type: &BootType) -> (r: BeagleboneGreen)
        ensures
            r.boot_manager.boot_type == *boot_type,
    {
        BeagleboneGreen { boot_manager: BootManager::from_boot_type(boot_type) }
    }
}

impl BeagleboneBlack {
    /// The device when migrating from a supported OS, booting with U-Boot;
    /// `InvState` otherwise.
    pub fn from_config(os_name: &str) -> (r: Result<BeagleboneBlack, MigError>)
        ensures
            r is Ok <==> supported_os(os_name@),
            r matches Ok(d) ==> d.boot_manager.boot_type == BootType::UBoot,
            r matches Err(e) ==> e.kind == MigErrorKind::InvState,
    {
        check_os(os_name)?;
        Ok(BeagleboneBlack { boot_manager: BootManager { boot_type: BootType::UBoot } })
    }

    pub fn from_boot_type(boot_type: &BootType) -> (r: BeagleboneBlack)
        ensures
            r.boot_manager.boot_type == *boot_type,
    {
        BeagleboneBlack { boot_manager: BootManager::from_boot_type(boot_type) }
    }
}

impl BeagleboardXM {
    /// The device when migrating from a supported OS, booting with U-Boot;
    /// `InvState` otherwise.
    pub fn from_config(os_name: &str) -> (r: Result<BeagleboardXM, MigError>)
        ensures
            r is Ok <==> supported_os(os_name@),
            r matches Ok(d) ==> d.boot_manager.boot_type == BootType::UBoot,
            r matches Err(e) ==> e.kind == MigErrorKind::InvState,
    {
        check_os(os_name)?;
        Ok(BeagleboardXM { boot_manager: BootManager { boot_type: BootType::UBoot } })
    }

    pub fn from_boot_type(boot_type: &BootType) -> (r: BeagleboardXM)
        ensures
            r.boot_manager.boot_type == *boot_type,
    {
        BeagleboardXM { boot_manager: BootManager::from_boot_type(boot_type) }
    }
}

/// A supported device, with its boot manager.
#[derive(PartialEq, Eq, Structural, Clone, Copy, Debug)]
pub enum Device {
    BeagleboneGreen(BeagleboneGreen),
    BeagleboneBlack(BeagleboneBlack),
    BeagleboardXM(BeagleboardXM),
    IntelNuc(EfiBootManager),
}

pub open spec fn spec_device_type(d: Device) -> DeviceType {
    match d {
        Device::BeagleboneGreen(_) => DeviceType::BeagleboneGreen,
        Device::BeagleboneBlack(_) => DeviceType::BeagleboneBlack,
        Device::BeagleboardXM(_) => DeviceType::BeagleboardXM,
        Device::IntelNuc(_) => DeviceType::IntelNuc,
    }
}

pub open spec fn spec_device_slug(t: DeviceType) -> Seq<char> {
    match t {
        DeviceType::BeagleboneGreen => "beaglebone-green"@,
        // the BeagleBoard xM runs the BeagleBone Black image
        DeviceType::BeagleboneBlack | DeviceType::BeagleboardXM => "beaglebone-black"@,
        DeviceType::IntelNuc => "intel-nuc"@,
    }
}

impl Device {
    pub fn get_device_type(&self) -> (r: DeviceType)
        ensures
            r == spec_device_type(*self),
    {
        match self {
            Device::BeagleboneGreen(_) => DeviceType::BeagleboneGreen,
            Device::BeagleboneBlack(_) => DeviceType::BeagleboneBlack,
            Device::BeagleboardXM(_) => DeviceType::BeagleboardXM,
            Device::IntelNuc(_) => DeviceType::IntelNuc,
        }
    }

    pub fn get_device_slug(&self) -> (r: &'static str)
        ensures
            r@ == spec_device_slug(spec_device_type(*self)),
    {
        match self {
            Device::BeagleboneGreen(_) => "beaglebone-green",
            Device::BeagleboneBlack(_) | Device::BeagleboardXM(_) => "beaglebone-black",
            Device::IntelNuc(_) => "intel-nuc",
        }
    }

    pub fn get_boot_type(&self) -> (r: BootType)
        ensures
            r == match *self {
                Device::BeagleboneGreen(d) => d.boot_manager.boot_type,
                Device::BeagleboneBlack(d) => d.boot_manager.boot_type,
                Device::BeagleboardXM(d) => d.boot_manager.boot_type,
                Device::IntelNuc(_) => BootType::MSWEfi,
            },
    {
        match self {
            Device::BeagleboneGreen(d) => d.boot_manager.get_boot_type(),
            Device::BeagleboneBlack(d) => d.boot_manager.get_boot_type(),
            Device::BeagleboardXM(d) => d.boot_manager.get_boot_type(),
            Device::IntelNuc(m) => m.get_boot_type(),
        }
    }
}

/// The BeagleBone model named by the model line `model_string`, without the
/// NUL characters that may end it, if the line names one.
pub open spec fn bb_model(model_string: Seq<char>) -> Option<Seq<char>> {
    match regex_groups(BB_MODEL_REGEX@, model_string) {
        Some(g) => match group(g, 4) {
            Some(m) => Some(trim_char(m, '\0')),
            None => None,
        },
        None => None,
    }
}

/// Recognises a BeagleBone or BeagleBoard from its model line. A line of
/// another device is `None`; an unknown BeagleBone model is `InvParam`; a
/// known one must run a supported OS (`InvState` otherwise).
pub fn is_bb(model_string: &str, os_name: &str) -> (r: Result<Option<Device>, MigError>)
    ensures
        match bb_model(model_string@) {
            None => r == Ok::<Option<Device>, MigError>(None),
            Some(m) => if m == "xM"@ || m == "Green"@ || m == "Black"@ {
                if supported_os(os_name@) {
                    r matches Ok(Some(d)) && spec_device_type(d) == (if m == "xM"@ {
                        DeviceType::BeagleboardXM
                    } else if m == "Green"@ {
                        DeviceType::BeagleboneGreen
                    } else {
                        DeviceType::BeagleboneBlack
                    })
                } else {
                    r matches Err(e) && e.kind == MigErrorKind::InvState
                }
            } else {
                r matches Err(e) && e.kind == MigErrorKind::InvParam
            },
        },
{
    let groups = match captures(BB_MODEL_REGEX, model_string) {
        Some(g) => g,
        None => {
            return Ok(None);
        },
    };
    let model = match get_group(&groups, 4) {
        Some(m) => trim_matches_char(m.as_str(), '\0'),
        None => {
            return Ok(None);
        },
    };
    if str_eq(model.as_str(), "xM") {
        Ok(Some(Device::BeagleboardXM(BeagleboardXM::from_config(os_name)?)))
    } else if str_eq(model.as_str(), "Green") {
        Ok(Some(Device::BeagleboneGreen(BeagleboneGreen::from_config(os_name)?)))
    } else if str_eq(model.as_str(), "Black") {
        Ok(Some(Device::BeagleboneBlack(BeagleboneBlack::from_config(os_name)?)))
    } else {
        Err(MigError::from_remark(MigErrorKind::InvParam, "The beaglebone model reported by your device is not supported"))
    }
}

/// The device of a Windows system: only AMD64 machines are supported, as an
/// Intel NUC with its EFI boot manager; any other architecture is `InvParam`.
pub fn get_device(os_arch: OSArch) -> (r: Result<Device, MigError>)
    ensures
        os_arch == OSArch::AMD64 ==> r == Ok::<Device, MigError>(
            Device::IntelNuc(EfiBootManager { msw_device: true }),
        ),
        os_arch != OSArch::AMD64 ==> (r matches Err(e) && e.kind == MigErrorKind::InvParam),
{
    match os_arch {
        OSArch::AMD64 => Ok(Device::IntelNuc(EfiBootManager::new())),
        _ => Err(
            MigError::from_remark(
                MigErrorKind::InvParam,
                "Only AMD64 architecture devices are currently supported",
            ),
        ),
    }
}

/// The operating system facts that the Windows side reads.
#[derive(PartialEq, Eq, Structural, Clone, Copy, Debug)]
pub struct MSWinApi {
    pub os_arch: OSArch,
}

impl MSWinApi {
    pub fn new(os_arch: OSArch) -> (r: Result<MSWinApi, MigError>)
        ensures
            r == Ok::<MSWinApi, MigError>(MSWinApi { os_arch }),
    {
        Ok(MSWinApi { os_arch })
    }

    pub fn get_os_arch(&self) -> (r: Result<OSArch, MigError>)
        ensures
            r == Ok::<OSArch, MigError>(self.os_arch),
    {
        Ok(self.os_arch)
    }
}

} // verus!
