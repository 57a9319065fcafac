use vstd::prelude::*;

use crate::error::{MigError, MigErrorKind};
use crate::text::{path_append, spec_path_append};

verus! {

/// Memory that must stay free once the migration payload is staged.
pub const STAGE2_MEM_THRESHOLD: u64 = 64 * 1024 * 1024;

/// Directory of the memory-backed staging area.
pub const MIGRATE_TEMP_DIR: &'static str = "/migrate_tmp";

/// Name of the migration log file.
pub const MIGRATE_LOG_FILE: &'static str = "migrate.log";

/// How the process ends after a failure.
#[derive(PartialEq, Eq, Structural, Clone, Copy, Debug)]
pub enum FailMode {
    Reboot,
    RescueShell,
}

impl FailMode {
    pub fn get_default() -> (r: FailMode)
        ensures
            r == FailMode::Reboot,
    {
        FailMode::Reboot
    }
}

/// What a disk-writing strategy reports.
#[derive(PartialEq, Eq, Structural, Clone, Copy, Debug)]
pub enum FlashResult {
    Success,
    /// The write failed, but the restored boot configuration can still start the old system.
    FailRecoverable,
    /// The write failed and left the disk in an unknown state.
    FailNonRecoverable,
}

/// The archive of one file system in the payload, and its size in blocks.
#[derive(Clone, Debug)]
pub struct CheckedPartDump {
    pub archive: Option<String>,
    pub blocks: u64,
}

/// The per-file-system payload.
#[derive(Clone, Debug)]
pub struct CheckedFSDump {
    pub boot: CheckedPartDump,
    pub root_a: CheckedPartDump,
    pub root_b: CheckedPartDump,
    pub state: CheckedPartDump,
    pub data: CheckedPartDump,
}

/// The target image: a flasher image file or a set of file system archives,
/// both named relative to the work directory.
#[derive(Clone, Debug)]
pub enum CheckedImageType {
    Flasher(String),
    FileSystems(CheckedFSDump),
}

/// The settings of the second stage that its decisions depend on.
#[derive(Clone, Debug)]
pub struct Stage2Config {
    pub fail_mode: FailMode,
    pub no_flash: bool,
    pub has_backup: bool,
    /// The target configuration file, relative to the work directory.
    pub balena_config: String,
    pub image: CheckedImageType,
    /// The space that the image takes once staged.
    pub req_space: u64,
}

/// The phases of the second stage.
#[derive(PartialEq, Eq, Structural, Clone, Copy, Debug)]
pub enum Phase {
    Mounted,
    Staged,
    Writing,
    BootRestoring,
    Finalizing,
    Rebooting,
}

/// The second stage: its configuration, its phase, and whether a reboot
/// now has a chance of reaching a working system.
#[derive(Clone, Debug)]
pub struct Stage2 {
    pub config: Stage2Config,
    pub phase: Phase,
    pub recoverable_state: bool,
}

/// Where the writing strategy takes the image from.
#[derive(Clone, Debug)]
pub enum WriteSource {
    /// Flash this image file.
    Image(String),
    /// Write the file systems from the archives in this directory.
    Archives(String),
}

/// What the second stage does once the payload is staged.
#[derive(PartialEq, Eq, Structural, Clone, Copy, Debug)]
pub enum WriteDecision {
    /// Write the new system to the target device.
    Write,
    /// A dry run: write nothing and reboot.
    DryRun,
}

/// One step of staging the payload.
#[derive(Clone, Debug)]
pub enum StageItem {
    /// Copy this file of the work directory to this name in the staging directory.
    File { source: String, target: String },
    /// Copy the network connection files.
    NetworkConnections,
}

pub open spec fn item_view(i: StageItem) -> Option<(Seq<char>, Seq<char>)> {
    match i {
        StageItem::File { source, target } => Some((source@, target@)),
        StageItem::NetworkConnections => None,
    }
}

pub open spec fn file_item(source: Seq<char>, target: Seq<char>) -> Seq<Option<(Seq<char>, Seq<char>)>> {
    seq![Some((source, target))]
}

pub open spec fn optional_item(a: Option<String>, target: Seq<char>) -> Seq<Option<(Seq<char>, Seq<char>)>> {
    match a {
        Some(s) => file_item(s@, target),
        None => seq![],
    }
}

/// The payload names the archives that writing file systems cannot do without.
pub open spec fn payload_complete(image: CheckedImageType) -> bool {
    match image {
        CheckedImageType::Flasher(_) => true,
        CheckedImageType::FileSystems(d) => d.boot.archive is Some && d.root_a.archive is Some
            && d.data.archive is Some,
    }
}

/// The copies that stage the payload, in order: the image or the archives,
/// the configuration file, the network connections when there are any, and
/// the backup when there is one.
pub open spec fn spec_stage_plan(cfg: Stage2Config, has_network: bool) -> Seq<
    Option<(Seq<char>, Seq<char>)>,
> {
    let images = match cfg.image {
        CheckedImageType::Flasher(f) => file_item(f@, "balenaOS.img.gz"@),
        CheckedImageType::FileSystems(d) => optional_item(d.boot.archive, "resin-boot.tgz"@)
            + optional_item(d.root_a.archive, "resin-rootA.tgz"@) + optional_item(
            d.root_b.archive,
            "resin-rootB.tgz"@,
        ) + optional_item(d.state.archive, "resin-state.tgz"@) + optional_item(
            d.data.archive,
            "resin-data.tgz"@,
        ),
    };
    images + file_item(cfg.balena_config@, "config.json"@) + (if has_network {
        seq![None]
    } else {
        seq![]
    }) + (if cfg.has_backup {
        file_item("backup.tgz"@, "backup.tgz"@)
    } else {
        seq![]
    })
}

pub open spec fn seq_sum(s: Seq<u64>) -> int
    decreases s.len(),
{
    if s.len() == 0 {
        0
    } else {
        seq_sum(s.drop_last()) + s.last()
    }
}

/// The space that staging takes: the image, the configuration file, the
/// backup when there is one, and the network connection files.
pub open spec fn required_space(
    cfg: Stage2Config,
    config_size: u64,
    backup_size: u64,
    network_sizes: Seq<u64>,
) -> int {
    cfg.req_space + config_size + (if cfg.has_backup {
        backup_size as int
    } else {
        0
    }) + seq_sum(network_sizes)
}

/// The exit that a failure leads to: the configured one while a reboot can
/// reach a working system, the rescue shell otherwise.
pub open spec fn exit_mode(s: Stage2) -> FailMode {
    if s.recoverable_state {
        s.config.fail_mode
    } else {
        FailMode::RescueShell
    }
}

/// The controller once the writing strategy reported `r`.
pub open spec fn after_flash(s: Stage2, r: FlashResult) -> Stage2 {
    match r {
        FlashResult::Success => Stage2 { phase: Phase::BootRestoring, ..s },
        FlashResult::FailRecoverable => Stage2 { recoverable_state: true, ..s },
        FlashResult::FailNonRecoverable => Stage2 { recoverable_state: false, ..s },
    }
}

proof fn lemma_sum_prefix(s: Seq<u64>, i: int)
    requires
        0 <= i <= s.len(),
    ensures
        seq_sum(s.take(i)) <= seq_sum(s),
    decreases s.len() - i,
{
    if i < s.len() {
        lemma_sum_prefix(s, i + 1);
        assert(s.take(i + 1).drop_last() =~= s.take(i));
    } else {
        assert(s.take(i) =~= s);
    }
}

fn push_file(v: &mut Vec<StageItem>, source: &str, target: &str)
    ensures
        final(v)@.map_values(|i: StageItem| item_view(i)) == old(v)@.map_values(
            |i: StageItem| item_view(i),
        ) + file_item(source@, target@),
{
    v.push(StageItem::File { source: source.to_owned(), target: target.to_owned() });
    assert(final(v)@.map_values(|i: StageItem| item_view(i)) =~= old(v)@.map_values(
        |i: StageItem| item_view(i),
    ) + file_item(source@, target@));
}

fn push_optional(v: &mut Vec<StageItem>, source: &Option<String>, target: &str)
    ensures
        final(v)@.map_values(|i: StageItem| item_view(i)) == old(v)@.map_values(
            |i: StageItem| item_view(i),
        ) + optional_item(*source, target@),
{
    match source {
        Some(s) => push_file(v, s.as_str(), target),
        None => {
            assert(old(v)@.map_values(|i: StageItem| item_view(i)) + optional_item(*source, target@)
                =~= old(v)@.map_values(|i: StageItem| item_view(i)));
        },
    }
}

impl Stage2 {
    /// Starts the second stage once the boot device was mounted and the
    /// configuration read; without a configuration nothing can proceed.
    pub fn try_init(config: Result<Stage2Config, MigError>) -> (r: Result<Stage2, MigError>)
        ensures
            r is Ok <==> config is Ok,
            r matches Ok(s) ==> s.config == config->Ok_0 && s.phase == Phase::Mounted
                && !s.recoverable_state,
            r matches Err(e) ==> e.kind == MigErrorKind::Displayed,
    {
        match config {
            Ok(config) => Ok(Stage2 { config, phase: Phase::Mounted, recoverable_state: false }),
            Err(_) => Err(MigError::displayed()),
        }
    }

    /// Where the log goes once drives are mounted: the log drive if there is
    /// one, else the work drive in a dry run, else nowhere persistent.
    pub fn log_path(&self, log_mount: Option<&str>, work_mount: Option<&str>) -> (r: Option<String>)
        ensures
            match log_mount {
                Some(l) => r matches Some(p) && p@ == spec_path_append(l@, MIGRATE_LOG_FILE@),
                None => if self.config.no_flash && work_mount is Some {
                    r matches Some(p) && p@ == spec_path_append(
                        work_mount->Some_0@,
                        MIGRATE_LOG_FILE@,
                    )
                } else {
                    r is None
                },
            },
    {
        match log_mount {
            Some(l) => Some(path_append(l, MIGRATE_LOG_FILE)),
            None => {
                if self.config.no_flash {
                    match work_mount {
                        Some(w) => Some(path_append(w, MIGRATE_LOG_FILE)),
                        None => None,
                    }
                } else {
                    None
                }
            },
        }
    }

    /// Records the outcome of restoring the previous boot configuration;
    /// once restored, a reboot reaches the old system.
    pub fn boot_restored(&mut self, restored: bool)
        ensures
            final(self).config == old(self).config,
            final(self).phase == old(self).phase,
            final(self).recoverable_state == (old(self).recoverable_state || restored),
    {
        if restored {
            self.recoverable_state = true;
        }
    }

    /// Checks that the payload fits in memory beside the safety threshold
    /// and returns the space it needs; fails with `InvState` otherwise.
    pub fn check_staging_space(
        &self,
        mem_avail: u64,
        config_size: u64,
        backup_size: u64,
        network_sizes: &Vec<u64>,
    ) -> (r: Result<u64, MigError>)
        ensures
            r is Ok <==> mem_avail > required_space(
                self.config,
                config_size,
                backup_size,
                network_sizes@,
            ) + STAGE2_MEM_THRESHOLD,
            r matches Ok(n) ==> n == required_space(
                self.config,
                config_size,
                backup_size,
                network_sizes@,
            ),
            r matches Err(e) ==> e.kind == MigErrorKind::InvState,
    {
        let ghost req = required_space(self.config, config_size, backup_size, network_sizes@);
        proof {
            lemma_sum_prefix(network_sizes@, 0);
            assert(network_sizes@.take(0) =~= Seq::<u64>::empty());
        }
        let backup: u64 = if self.config.has_backup {
            backup_size
        } else {
            0
        };
        if config_size > u64::MAX - self.config.req_space || backup > u64::MAX - (
        self.config.req_space + config_size) {
            return Err(
                MigError::from_remark(
                    MigErrorKind::InvState,
                    "Not enough memory available for copying files",
                ),
            );
        }
        let mut total: u64 = self.config.req_space + config_size + backup;
        let n = network_sizes.len();
        let mut i: usize = 0;
        while i < n
            invariant
                n == network_sizes@.len(),
                i <= n,
                total == self.config.req_space + config_size + backup + seq_sum(
                    network_sizes@.take(i as int),
                ),
                backup == (if self.config.has_backup {
                    backup_size as int
                } else {
                    0
                }),
                req == required_space(self.config, config_size, backup_size, network_sizes@),
            decreases n - i,
        {
            let x = network_sizes[i];
            proof {
                assert(network_sizes@.take(i + 1).drop_last() =~= network_sizes@.take(i as int));
                lemma_sum_prefix(network_sizes@, i + 1);
            }
            if x > u64::MAX - total {
                return Err(
                    MigError::from_remark(
                        MigErrorKind::InvState,
                        "Not enough memory available for copying files",
                    ),
                );
            }
            total = total + x;
            i = i + 1;
        }
        assert(network_sizes@.take(n as int) =~= network_sizes@);
        if total < mem_avail && mem_avail - total > STAGE2_MEM_THRESHOLD {
            Ok(total)
        } else {
            Err(
                MigError::from_remark(
                    MigErrorKind::InvState,
                    "Not enough memory available for copying files",
                ),
            )
        }
    }

    /// The copies that stage the payload. Fails with `Displayed` when a
    /// file-system payload lacks the boot, root A or data archive.
    pub fn stage_plan(&self, has_network: bool) -> (r: Result<Vec<StageItem>, MigError>)
        ensures
            r is Ok <==> payload_complete(self.config.image),
            r matches Ok(v) ==> v@.map_values(|i: StageItem| item_view(i)) == spec_stage_plan(
                self.config,
                has_network,
            ),
            r matches Err(e) ==> e.kind == MigErrorKind::Displayed,
    {
        let mut v: Vec<StageItem> = Vec::new();
        assert(v@.map_values(|i: StageItem| item_view(i)) =~= seq![]);
        match &self.config.image {
            CheckedImageType::Flasher(f) => {
                push_file(&mut v, f.as_str(), "balenaOS.img.gz");
            },
            CheckedImageType::FileSystems(d) => {
                if d.boot.archive.is_none() || d.root_a.archive.is_none()
                    || d.data.archive.is_none() {
                    return Err(MigError::displayed());
                }
                push_optional(&mut v, &d.boot.archive, "resin-boot.tgz");
                push_optional(&mut v, &d.root_a.archive, "resin-rootA.tgz");
                push_optional(&mut v, &d.root_b.archive, "resin-rootB.tgz");
                push_optional(&mut v, &d.state.archive, "resin-state.tgz");
                push_optional(&mut v, &d.data.archive, "resin-data.tgz");
            },
        }
        push_file(&mut v, self.config.balena_config.as_str(), "config.json");
        if has_network {
            let ghost before = v@.map_values(|i: StageItem| item_view(i));
            v.push(StageItem::NetworkConnections);
            assert(v@.map_values(|i: StageItem| item_view(i)) =~= before + seq![None]);
        }
        if self.config.has_backup {
            push_file(&mut v, "backup.tgz", "backup.tgz");
        }
        assert(v@.map_values(|i: StageItem| item_view(i)) =~= spec_stage_plan(
            self.config,
            has_network,
        ));
        Ok(v)
    }

    /// Stages the payload unless the work directory is used in place: first
    /// the space check, then the plan of copies. A refusal yields no copy at
    /// all and leaves the phase as it was.
    pub fn stage(
        &mut self,
        work_no_copy: bool,
        mem_avail: u64,
        config_size: u64,
        backup_size: u64,
        network_sizes: &Vec<u64>,
        has_network: bool,
    ) -> (r: Result<Vec<StageItem>, MigError>)
        ensures
            final(self).config == old(self).config,
            final(self).recoverable_state == old(self).recoverable_state,
            work_no_copy ==> (r matches Ok(v) && v@.len() == 0) && final(self).phase == Phase::Staged,
            !work_no_copy ==> {
                let fits = mem_avail > required_space(
                    old(self).config,
                    config_size,
                    backup_size,
                    network_sizes@,
                ) + STAGE2_MEM_THRESHOLD;
                &&& !fits ==> (r matches Err(e) && e.kind == MigErrorKind::InvState)
                &&& fits && !payload_complete(old(self).config.image) ==> (r matches Err(e) && e.kind
                    == MigErrorKind::Displayed)
                &&& fits && payload_complete(old(self).config.image) ==> (r matches Ok(v)
                    && v@.map_values(|i: StageItem| item_view(i)) == spec_stage_plan(
                    old(self).config,
                    has_network,
                ))
                &&& r is Ok ==> final(self).phase == Phase::Staged
                &&& r is Err ==> final(self).phase == old(self).phase
            },
    {
        if work_no_copy {
            self.phase = Phase::Staged;
            return Ok(Vec::new());
        }
        match self.check_staging_space(mem_avail, config_size, backup_size, network_sizes) {
            Ok(_) => {},
            Err(why) => {
                return Err(why);
            },
        }
        let plan = self.stage_plan(has_network);
        if plan.is_ok() {
            self.phase = Phase::Staged;
        }
        plan
    }

    /// The image or archive directory to write from: the work directory when
    /// it is used in place and mounted, the staging directory otherwise.
    pub fn write_source(&self, work_no_copy: bool, work_path: Option<&str>) -> (r: WriteSource)
        ensures
            match self.config.image {
                CheckedImageType::Flasher(f) => r matches WriteSource::Image(p) && p@ == (
                if work_no_copy && work_path is Some {
                    spec_path_append(work_path->Some_0@, f@)
                } else {
                    spec_path_append(MIGRATE_TEMP_DIR@, "balenaOS.img.gz"@)
                }),
                CheckedImageType::FileSystems(_) => r matches WriteSource::Archives(p) && p@ == (
                if work_no_copy && work_path is Some {
                    work_path->Some_0@
                } else {
                    MIGRATE_TEMP_DIR@
                }),
            },
    {
        match &self.config.image {
            CheckedImageType::Flasher(f) => {
                if work_no_copy {
                    if let Some(w) = work_path {
                        return WriteSource::Image(path_append(w, f.as_str()));
                    }
                }
                WriteSource::Image(path_append(MIGRATE_TEMP_DIR, "balenaOS.img.gz"))
            },
            CheckedImageType::FileSystems(_) => {
                if work_no_copy {
                    if let Some(w) = work_path {
                        return WriteSource::Archives(w.to_owned());
                    }
                }
                WriteSource::Archives(MIGRATE_TEMP_DIR.to_owned())
            },
        }
    }

    /// Decides whether to write, once the payload is staged: a missing
    /// target device is `NotFound`; a dry run ends here with a reboot;
    /// otherwise writing begins.
    pub fn start_write(&mut self, target_exists: bool) -> (r: Result<WriteDecision, MigError>)
        ensures
            final(self).config == old(self).config,
            final(self).recoverable_state == old(self).recoverable_state,
            !target_exists ==> (r matches Err(e) && e.kind == MigErrorKind::NotFound) && final(self).phase
                == old(self).phase,
            target_exists && old(self).config.no_flash ==> r == Ok::<WriteDecision, MigError>(
                WriteDecision::DryRun,
            ) && final(self).phase == Phase::Rebooting,
            target_exists && !old(self).config.no_flash ==> r == Ok::<WriteDecision, MigError>(
                WriteDecision::Write,
            ) && final(self).phase == Phase::Writing,
    {
        if !target_exists {
            return Err(MigError::from_remark(MigErrorKind::NotFound, "Could not locate target device"));
        }
        if self.config.no_flash {
            self.phase = Phase::Rebooting;
            Ok(WriteDecision::DryRun)
        } else {
            self.phase = Phase::Writing;
            Ok(WriteDecision::Write)
        }
    }

    /// Records what the writing strategy reported. A failure ends the
    /// migration with `Displayed` and fixes whether a reboot is still safe.
    pub fn flash_done(&mut self, result: FlashResult) -> (r: Result<(), MigError>)
        ensures
            *final(self) == after_flash(*old(self), result),
            r is Ok <==> result == FlashResult::Success,
            r matches Err(e) ==> e.kind == MigErrorKind::Displayed,
    {
        match result {
            FlashResult::Success => {
                self.phase = Phase::BootRestoring;
                Ok(())
            },
            FlashResult::FailRecoverable => {
                self.recoverable_state = true;
                Err(MigError::displayed())
            },
            FlashResult::FailNonRecoverable => {
                self.recoverable_state = false;
                Err(MigError::displayed())
            },
        }
    }

    /// Records the outcome of copying the configuration and network files to
    /// the new boot partition. Without that partition a reboot is not safe;
    /// once the files are there, it is.
    pub fn boot_config_copied(&mut self, boot_mounted: bool, copied: Result<(), MigError>) -> (r:
        Result<(), MigError>)
        ensures
            final(self).config == old(self).config,
            !boot_mounted ==> (r matches Err(e) && e.kind == MigErrorKind::Displayed)
                && !final(self).recoverable_state && final(self).phase == old(self).phase,
            boot_mounted ==> match copied {
                Ok(_) => r is Ok && final(self).recoverable_state && final(self).phase
                    == Phase::Finalizing,
                Err(e) => r == Err::<(), MigError>(e) && final(self).recoverable_state == old(
                    self,
                ).recoverable_state && final(self).phase == old(self).phase,
            },
    {
        if !boot_mounted {
            self.recoverable_state = false;
            return Err(MigError::displayed());
        }
        match copied {
            Ok(_) => {
                self.recoverable_state = true;
                self.phase = Phase::Finalizing;
                Ok(())
            },
            Err(why) => Err(why),
        }
    }

    /// The migration is done; the controller reboots after a short delay.
    pub fn finalized(&mut self) -> (r: FailMode)
        ensures
            final(self).config == old(self).config,
            final(self).recoverable_state == old(self).recoverable_state,
            final(self).phase == Phase::Rebooting,
            r == FailMode::Reboot,
    {
        self.phase = Phase::Rebooting;
        FailMode::Reboot
    }

    /// The exit after a normal end of the second stage.
    pub fn default_exit() -> (r: FailMode)
        ensures
            r == FailMode::Reboot,
    {
        FailMode::get_default()
    }

    /// The exit after a failure: the configured fail mode while a reboot is
    /// safe, the rescue shell otherwise.
    pub fn error_exit(&self) -> (r: FailMode)
        ensures
            r == exit_mode(*self),
    {
        if self.recoverable_state {
            self.config.fail_mode
        } else {
            FailMode::RescueShell
        }
    }
}

/// A write that fails beyond recovery always leads to the rescue shell,
/// whatever fail mode the configuration asks for.
pub proof fn lemma_non_recoverable_goes_to_rescue(s: Stage2)
    ensures
        !after_flash(s, FlashResult::FailNonRecoverable).recoverable_state,
        exit_mode(after_flash(s, FlashResult::FailNonRecoverable)) == FailMode::RescueShell,
{
}

} // verus!
