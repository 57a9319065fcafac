use vstd::prelude::*;

use crate::error::{MigError, MigErrorKind};
use crate::pattern::{captures, get_group, group, groups_view, regex_groups};
use crate::text::{
    file_name_of, lines_of, path_file_name, path_has_prefix, path_same, path_starts_with,
    paths_equal, spec_starts_with, starts_with, strings_view, str_eq, text_lines, text_words,
    words_of,
};

verus! {

/// A partition as `lsblk` reports it.
#[derive(Clone, Debug)]
pub struct LsblkPartition {
    pub name: String,
    pub kname: String,
    pub maj_min: String,
    pub ro: String,
    pub uuid: Option<String>,
    pub fstype: Option<String>,
    pub mountpoint: Option<String>,
    pub label: Option<String>,
    pub parttype: Option<String>,
    pub partlabel: Option<String>,
    pub partuuid: Option<String>,
    pub size: Option<String>,
}

/// A block device as `lsblk` reports it, with its partitions.
#[derive(Clone, Debug)]
pub struct LsblkDevice {
    pub name: String,
    pub kname: String,
    pub maj_min: String,
    pub uuid: Option<String>,
    pub size: Option<String>,
    pub children: Option<Vec<LsblkPartition>>,
}

/// The block devices that `lsblk` reports.
#[derive(Clone, Debug)]
pub struct LsblkInfo {
    pub blockdevices: Vec<LsblkDevice>,
}

/// The device node of a block device or partition named `name`.
pub open spec fn dev_path(name: Seq<char>) -> Seq<char> {
    "/dev/"@ + name
}

fn dev_path_of(name: &String) -> (r: String)
    ensures
        r@ == dev_path(name@),
{
    let mut r = String::from_str("/dev/");
    r.append(name.as_str());
    r
}

/// No partition before position `n` of `parts` is named `name`.
pub open spec fn no_part_named(parts: Seq<LsblkPartition>, name: Seq<char>, n: int) -> bool {
    forall|j: int| 0 <= j < n ==> (#[trigger] parts[j]).name@ != name
}

/// No device before position `n` of `devs` has a name that starts `name`.
pub open spec fn no_dev_prefix(devs: Seq<LsblkDevice>, name: Seq<char>, n: int) -> bool {
    forall|j: int| 0 <= j < n ==> !spec_starts_with(name, (#[trigger] devs[j]).name@)
}

/// The mount point of partition `j` of device `k`, if there is such a
/// mounted partition.
pub open spec fn mount_at(devs: Seq<LsblkDevice>, k: int, j: int) -> Option<Seq<char>> {
    if 0 <= k < devs.len() && devs[k].children is Some {
        let c = devs[k].children->Some_0@;
        if 0 <= j < c.len() && c[j].mountpoint is Some {
            Some(c[j].mountpoint->Some_0@)
        } else {
            None
        }
    } else {
        None
    }
}

pub open spec fn exact_at(devs: Seq<LsblkDevice>, path: Seq<char>, k: int, j: int) -> bool {
    mount_at(devs, k, j) matches Some(m) && path_same(path, m)
}

pub open spec fn prefix_at(devs: Seq<LsblkDevice>, path: Seq<char>, k: int, j: int) -> bool {
    mount_at(devs, k, j) matches Some(m) && path_has_prefix(path, m)
}

/// Partition `j` of device `k` comes before partition `j2` of device `k2`.
pub open spec fn before(k: int, j: int, k2: int, j2: int) -> bool {
    k < k2 || (k == k2 && j < j2)
}

/// A `major:minor` device number, the major number in group 1.
pub const MAJ_MIN_RE: &'static str = "^(\\d+):\\d+$";

/// Major numbers of the block devices that can hold the system: IDE, SCSI,
/// MD, MFM, I2O, MMC and NVMe disks.
pub const BLOC_DEV_SUPP_MAJ_NUMBERS: [&'static str; 45] = [
    "3", "8", "9", "21", "33", "34", "44", "48", "49", "50", "51", "52", "53", "54", "55", "56",
    "57", "58", "64", "65", "66", "67", "68", "69", "70", "71", "72", "73", "74", "75", "76", "77",
    "78", "79", "80", "81", "82", "83", "84", "85", "86", "87", "179", "180", "259",
];

pub open spec fn supported_major(m: Seq<char>) -> bool {
    exists|i: int| 0 <= i < 45 && (#[trigger] BLOC_DEV_SUPP_MAJ_NUMBERS@[i])@ == m
}

/// The device has a `major:minor` number with a supported major number.
pub open spec fn dev_supported(d: LsblkDevice) -> bool {
    match regex_groups(MAJ_MIN_RE@, d.maj_min@) {
        Some(g) => group(g, 1) matches Some(m) && supported_major(m),
        None => false,
    }
}

fn is_supported_major(m: &String) -> (r: bool)
    ensures
        r == supported_major(m@),
{
    let mut i: usize = 0;
    while i < 45
        invariant
            i <= 45,
            forall|j: int| 0 <= j < i ==> (#[trigger] BLOC_DEV_SUPP_MAJ_NUMBERS@[j])@ != m@,
        decreases 45 - i,
    {
        if str_eq(BLOC_DEV_SUPP_MAJ_NUMBERS[i], m.as_str()) {
            assert(BLOC_DEV_SUPP_MAJ_NUMBERS@[i as int]@ == m@);
            return true;
        }
        i = i + 1;
    }
    false
}

fn is_supported_dev(d: &LsblkDevice) -> (r: bool)
    ensures
        r == dev_supported(*d),
{
    match captures(MAJ_MIN_RE, d.maj_min.as_str()) {
        Some(g) => match get_group(&g, 1) {
            Some(m) => is_supported_major(&m),
            None => false,
        },
        None => false,
    }
}

/// A `KEY="value"` word of `lsblk -P` output.
pub const PARAM_RE: &'static str = "^([^=]+)=\"([^\"]*)\"$";

/// A word of `lsblk -P` output read as a key and a value, or none when it
/// is not a `KEY="value"` pair.
pub type Param = Option<(Seq<char>, Seq<char>)>;

/// The key and value of the word `w`.
pub open spec fn word_param(w: Seq<char>) -> Param {
    match regex_groups(PARAM_RE@, w) {
        Some(g) => match (group(g, 1), group(g, 2)) {
            (Some(k), Some(v)) => Some((k, v)),
            _ => None,
        },
        None => None,
    }
}

/// The value of the pair `p` when its key is `key`.
pub open spec fn param(p: Param, key: Seq<char>) -> Option<Seq<char>> {
    match p {
        Some((k, v)) => if k == key {
            Some(v)
        } else {
            None
        },
        None => None,
    }
}

pub open spec fn pair_view(p: Option<(String, String)>) -> Param {
    match p {
        Some((k, v)) => Some((k@, v@)),
        None => None,
    }
}

/// The pairs of each line.
pub open spec fn params_view(lines: Seq<Vec<Option<(String, String)>>>) -> Seq<Seq<Param>> {
    lines.map_values(|l: Vec<Option<(String, String)>>| l@.map_values(|p: Option<(String, String)>| pair_view(p)))
}

/// The field for the value `v`: none when it is empty.
pub open spec fn opt_field(o: Option<String>, v: Seq<char>) -> bool {
    if v.len() == 0 {
        o is None
    } else {
        o matches Some(s) && s@ == v
    }
}

pub open spec fn has_param(w: Seq<Param>, k: int, key: Seq<char>) -> bool {
    param(w[k], key) is Some
}

/// The fields of a `disk` line all parse.
pub open spec fn disk_fields_ok(w: Seq<Param>) -> bool {
    &&& has_param(w, 0, "NAME"@)
    &&& has_param(w, 1, "KNAME"@)
    &&& has_param(w, 2, "MAJ:MIN"@)
    &&& has_param(w, 6, "UUID"@)
    &&& has_param(w, 8, "SIZE"@)
}

/// The fields of a `part` line all parse.
pub open spec fn part_fields_ok(w: Seq<Param>) -> bool {
    &&& has_param(w, 0, "NAME"@)
    &&& has_param(w, 1, "KNAME"@)
    &&& has_param(w, 2, "MAJ:MIN"@)
    &&& has_param(w, 3, "FSTYPE"@)
    &&& has_param(w, 4, "MOUNTPOINT"@)
    &&& has_param(w, 5, "LABEL"@)
    &&& has_param(w, 6, "UUID"@)
    &&& has_param(w, 7, "RO"@)
    &&& has_param(w, 8, "SIZE"@)
}

pub open spec fn val(w: Seq<Param>, k: int, key: Seq<char>) -> Seq<char> {
    param(w[k], key)->Some_0
}

/// `d` holds the fields of the `disk` line with words `w`.
pub open spec fn disk_of(d: LsblkDevice, w: Seq<Param>) -> bool {
    &&& d.name@ == val(w, 0, "NAME"@)
    &&& d.kname@ == val(w, 1, "KNAME"@)
    &&& d.maj_min@ == val(w, 2, "MAJ:MIN"@)
    &&& opt_field(d.uuid, val(w, 6, "UUID"@))
    &&& opt_field(d.size, val(w, 8, "SIZE"@))
}

/// `p` holds the fields of the `part` line with words `w`.
pub open spec fn part_of(p: LsblkPartition, w: Seq<Param>) -> bool {
    &&& p.name@ == val(w, 0, "NAME"@)
    &&& p.kname@ == val(w, 1, "KNAME"@)
    &&& p.maj_min@ == val(w, 2, "MAJ:MIN"@)
    &&& opt_field(p.fstype, val(w, 3, "FSTYPE"@))
    &&& opt_field(p.mountpoint, val(w, 4, "MOUNTPOINT"@))
    &&& opt_field(p.label, val(w, 5, "LABEL"@))
    &&& opt_field(p.uuid, val(w, 6, "UUID"@))
    &&& p.ro@ == val(w, 7, "RO"@)
    &&& opt_field(p.size, val(w, 8, "SIZE"@))
    &&& p.parttype is None
    &&& p.partlabel is None
    &&& p.partuuid is None
}

/// A device line with the lines of its partitions.
pub type LineGroup = (Seq<Param>, Seq<Seq<Param>>);

/// The groups after one more line, given as its words.
///
/// A line must have ten words, the last its `TYPE`. A `disk` line opens a
/// new device, a `part` line adds a partition to the last device, and lines
/// of other types are passed over. A `part` line before any device is
/// `InvState`; any other malformed line is `InvParam`.
pub open spec fn list_step(gs: Seq<LineGroup>, w: Seq<Param>) -> Result<
    Seq<LineGroup>,
    MigErrorKind,
> {
    if w.len() != 10 {
        Err(MigErrorKind::InvParam)
    } else {
        match param(w[9], "TYPE"@) {
            None => Err(MigErrorKind::InvParam),
            Some(t) => if t == "disk"@ {
                if disk_fields_ok(w) {
                    Ok(gs.push((w, Seq::empty())))
                } else {
                    Err(MigErrorKind::InvParam)
                }
            } else if t == "part"@ {
                if gs.len() == 0 {
                    Err(MigErrorKind::InvState)
                } else if part_fields_ok(w) {
                    Ok(gs.update(gs.len() - 1, (gs.last().0, gs.last().1.push(w))))
                } else {
                    Err(MigErrorKind::InvParam)
                }
            } else {
                Ok(gs)
            },
        }
    }
}

/// The devices of `lsblk -P` output given as the words of its lines.
pub open spec fn parse_list(ls: Seq<Seq<Param>>) -> Result<Seq<LineGroup>, MigErrorKind>
    decreases ls.len(),
{
    if ls.len() == 0 {
        Ok(Seq::empty())
    } else {
        match parse_list(ls.drop_last()) {
            Err(k) => Err(k),
            Ok(gs) => list_step(gs, ls.last()),
        }
    }
}

/// `d` is the device of the group `g`.
pub open spec fn device_of(d: LsblkDevice, g: LineGroup) -> bool {
    &&& disk_of(d, g.0)
    &&& if g.1.len() == 0 {
        d.children is None
    } else {
        d.children matches Some(c) && c@.len() == g.1.len() && forall|j: int|
            0 <= j < c@.len() ==> part_of(#[trigger] c@[j], g.1[j])
    }
}

pub open spec fn devices_of(ds: Seq<LsblkDevice>, gs: Seq<LineGroup>) -> bool {
    ds.len() == gs.len() && forall|k: int| 0 <= k < ds.len() ==> device_of(#[trigger] ds[k], gs[k])
}

pub open spec fn opt_seq(o: Option<LsblkDevice>) -> Seq<LsblkDevice> {
    match o {
        Some(d) => seq![d],
        None => Seq::empty(),
    }
}

/// The pairs of the words of each line of `s`.
pub open spec fn line_params(s: Seq<char>) -> Seq<Seq<Param>> {
    text_lines(s).map_values(|l: Seq<char>| text_words(l).map_values(|w: Seq<char>| word_param(w)))
}

/// Once a prefix of the lines fails to parse, the whole output fails the same way.
proof fn lemma_error_sticks(ls: Seq<Seq<Param>>, i: int)
    requires
        0 <= i <= ls.len(),
        parse_list(ls.take(i)) is Err,
    ensures
        parse_list(ls) == parse_list(ls.take(i)),
    decreases ls.len() - i,
{
    if i < ls.len() {
        assert(ls.take(i + 1).drop_last() =~= ls.take(i));
        lemma_error_sticks(ls, i + 1);
    } else {
        assert(ls.take(i) =~= ls);
    }
}

fn word_param_of(word: &String) -> (r: Option<(String, String)>)
    ensures
        pair_view(r) == word_param(word@),
{
    let g = match captures(PARAM_RE, word.as_str()) {
        Some(g) => g,
        None => {
            return None;
        },
    };
    match (get_group(&g, 1), get_group(&g, 2)) {
        (Some(k), Some(v)) => Some((k, v)),
        _ => None,
    }
}

fn param_of(p: &Option<(String, String)>, expect: &str) -> (r: Result<String, MigError>)
    ensures
        match r {
            Ok(v) => param(pair_view(*p), expect@) == Some(v@),
            Err(e) => param(pair_view(*p), expect@) is None && e.kind == MigErrorKind::InvParam,
        },
{
    match p {
        Some((k, v)) => {
            if str_eq(k.as_str(), expect) {
                Ok(v.clone())
            } else {
                Err(MigError::from_remark(MigErrorKind::InvParam, "Unexpected parameter encountered"))
            }
        },
        None => Err(MigError::from_remark(MigErrorKind::InvParam, "Failed to parse lsblk output param")),
    }
}

fn string_or_none(s: String) -> (r: Option<String>)
    ensures
        opt_field(r, s@),
{
    if s.unicode_len() == 0 {
        None
    } else {
        Some(s)
    }
}

impl LsblkPartition {
    pub fn get_path(&self) -> (r: String)
        ensures
            r@ == dev_path(self.name@),
    {
        dev_path_of(&self.name)
    }
}

impl LsblkDevice {
    pub fn get_path(&self) -> (r: String)
        ensures
            r@ == dev_path(self.name@),
    {
        dev_path_of(&self.name)
    }

    /// The first partition of the device named `part_name`; `NotFound` when
    /// there is none.
    pub fn get_devinfo_from_part_name(&self, part_name: &str) -> (r: Result<
        &LsblkPartition,
        MigError,
    >)
        ensures
            match self.children {
                None => r matches Err(e) && e.kind == MigErrorKind::NotFound,
                Some(children) => match r {
                    Ok(p) => exists|i: int|
                        0 <= i < children@.len() && children@[i] == *p && p.name@ == part_name@
                            && no_part_named(children@, part_name@, i),
                    Err(e) => e.kind == MigErrorKind::NotFound && no_part_named(
                        children@,
                        part_name@,
                        children@.len() as int,
                    ),
                },
            },
    {
        let children = match &self.children {
            Some(children) => children,
            None => {
                return Err(
                    MigError::from_remark(
                        MigErrorKind::NotFound,
                        "The device was not found in lsblk output",
                    ),
                );
            },
        };
        let n = children.len();
        let mut i: usize = 0;
        while i < n
            invariant
                n == children@.len(),
                i <= n,
                self.children == Some(*children),
                no_part_named(children@, part_name@, i as int),
            decreases n - i,
        {
            let part = &children[i];
            if part.name.as_str().to_owned() == part_name.to_owned() {
                assert(children@[i as int] == *part);
                assert(self.children->Some_0 == *children);
                return Ok(part);
            }
            i = i + 1;
        }
        Err(MigError::from_remark(MigErrorKind::NotFound, "The partition was not found in lsblk output"))
    }
}

impl LsblkInfo {
    /// The device and partition mounted at the absolute path `abs_path`:
    /// the first partition (by device, then by partition) whose mount point
    /// is that path, or else, among
    /// those whose mount point begins it, the first with the shortest mount
    /// point (in characters). No such partition is `NotFound`.
    pub fn get_path_info(&self, abs_path: &str) -> (r: Result<(&LsblkDevice, &LsblkPartition), MigError>)
        ensures
            match r {
                Ok((d, p)) => exists|k: int, j: int|
                    #![trigger mount_at(self.blockdevices@, k, j)]
                    mount_at(self.blockdevices@, k, j) is Some && self.blockdevices@[k] == *d
                        && self.blockdevices@[k].children->Some_0@[j] == *p && ((exact_at(
                        self.blockdevices@,
                        abs_path@,
                        k,
                        j,
                    ) && forall|k2: int, j2: int|
                        #![trigger mount_at(self.blockdevices@, k2, j2)]
                        before(k2, j2, k, j) ==> !exact_at(self.blockdevices@, abs_path@, k2, j2)) || (prefix_at(self.blockdevices@, abs_path@, k, j) && forall|k2: int, j2: int|
                        #![trigger mount_at(self.blockdevices@, k2, j2)]
                        !exact_at(self.blockdevices@, abs_path@, k2, j2) && (prefix_at(
                            self.blockdevices@,
                            abs_path@,
                            k2,
                            j2,
                        ) ==> mount_at(self.blockdevices@, k, j)->Some_0.len() <= mount_at(
                            self.blockdevices@,
                            k2,
                            j2,
                        )->Some_0.len()))),
                Err(e) => e.kind == MigErrorKind::NotFound && forall|k: int, j: int|
                    #![trigger mount_at(self.blockdevices@, k, j)]
                    !exact_at(self.blockdevices@, abs_path@, k, j) && !prefix_at(
                        self.blockdevices@,
                        abs_path@,
                        k,
                        j,
                    ),
            },
    {
        let ghost devs = self.blockdevices@;
        let n = self.blockdevices.len();
        let mut best: Option<(usize, usize)> = None;
        let mut best_len: usize = 0;
        let mut k: usize = 0;
        while k < n
            invariant
                n == devs.len(),
                devs == self.blockdevices@,
                k <= n,
                forall|k2: int, j2: int|
                    #![trigger mount_at(devs, k2, j2)]
                    k2 < k ==> !exact_at(devs, abs_path@, k2, j2),
                best is None ==> forall|k2: int, j2: int|
                    #![trigger mount_at(devs, k2, j2)]
                    k2 < k ==> !prefix_at(devs, abs_path@, k2, j2),
                best matches Some((bk, bj)) ==> bk < k && prefix_at(devs, abs_path@, bk as int, bj as int)
                    && mount_at(devs, bk as int, bj as int)->Some_0.len() == best_len && forall|k2: int, j2: int|
                    #![trigger mount_at(devs, k2, j2)]
                    k2 < k && prefix_at(devs, abs_path@, k2, j2) ==> best_len <= mount_at(devs, k2, j2)->Some_0.len(),
            decreases n - k,
        {
            let dev = &self.blockdevices[k];
            match &dev.children {
                Some(children) => {
                    let m = children.len();
                    let mut j: usize = 0;
                    while j < m
                        invariant
                            n == devs.len(),
                            devs == self.blockdevices@,
                            k < n,
                            devs[k as int] == *dev,
                            dev.children == Some(*children),
                            m == children@.len(),
                            j <= m,
                            forall|k2: int, j2: int|
                                #![trigger mount_at(devs, k2, j2)]
                                before(k2, j2, k as int, j as int) ==> !exact_at(devs, abs_path@, k2, j2),
                            best is None ==> forall|k2: int, j2: int|
                                #![trigger mount_at(devs, k2, j2)]
                                before(k2, j2, k as int, j as int) ==> !prefix_at(devs, abs_path@, k2, j2),
                            best matches Some((bk, bj)) ==> before(bk as int, bj as int, k as int, j as int)
                                && prefix_at(devs, abs_path@, bk as int, bj as int)
                                && mount_at(devs, bk as int, bj as int)->Some_0.len() == best_len && forall|k2: int, j2: int|
                                #![trigger mount_at(devs, k2, j2)]
                                before(k2, j2, k as int, j as int) && prefix_at(devs, abs_path@, k2, j2) ==> best_len
                                    <= mount_at(devs, k2, j2)->Some_0.len(),
                        decreases m - j,
                    {
                        let part = &children[j];
                        assert(mount_at(devs, k as int, j as int) == match part.mountpoint {
                            Some(mp) => Some(mp@),
                            None => None::<Seq<char>>,
                        });
                        match &part.mountpoint {
                            Some(mp) => {
                                if paths_equal(abs_path, mp.as_str()) {
                                    assert(exact_at(devs, abs_path@, k as int, j as int));
                                    return Ok((dev, part));
                                }
                                if path_starts_with(abs_path, mp.as_str()) {
                                    let l = mp.unicode_len();
                                    let replace = match best {
                                        None => true,
                                        Some(_) => best_len > l,
                                    };
                                    if replace {
                                        best = Some((k, j));
                                        best_len = l;
                                    }
                                }
                            },
                            None => {},
                        }
                        j = j + 1;
                    }
                    assert forall|k2: int, j2: int| #![trigger mount_at(devs, k2, j2)] k2 == k && j2 >= m implies mount_at(devs, k2, j2) is None by {}
                },
                None => {
                    assert forall|k2: int, j2: int| #![trigger mount_at(devs, k2, j2)] k2 == k implies mount_at(devs, k2, j2) is None by {}
                },
            }
            k = k + 1;
        }
        match best {
            Some((bk, bj)) => {
                let dev = &self.blockdevices[bk];
                match &dev.children {
                    Some(children) => {
                        if bj < children.len() {
                            let part = &children[bj];
                            assert(exists|k: int, j: int|
                                #![trigger mount_at(self.blockdevices@, k, j)]
                                mount_at(self.blockdevices@, k, j) is Some && self.blockdevices@[k] == *dev
                                    && self.blockdevices@[k].children->Some_0@[j] == *part
                                    && prefix_at(self.blockdevices@, abs_path@, k, j) && forall|k2: int, j2: int|
                                    #![trigger mount_at(self.blockdevices@, k2, j2)]
                                    !exact_at(self.blockdevices@, abs_path@, k2, j2) && (prefix_at(
                                        self.blockdevices@,
                                        abs_path@,
                                        k2,
                                        j2,
                                    ) ==> mount_at(self.blockdevices@, k, j)->Some_0.len() <= mount_at(
                                        self.blockdevices@,
                                        k2,
                                        j2,
                                    )->Some_0.len())) by {
                                assert(mount_at(self.blockdevices@, bk as int, bj as int) is Some);
                            }
                            return Ok((dev, part));
                        }
                    },
                    None => {},
                }
                Err(MigError::from_remark(MigErrorKind::NotFound, "A mountpoint could not be found for path"))
            },
            None => Err(MigError::from_remark(MigErrorKind::NotFound, "A mountpoint could not be found for path")),
        }
    }

    /// Keeps the devices whose major number marks a disk that can hold the
    /// system, in their order.
    pub fn retain_supported(&mut self)
        ensures
            final(self).blockdevices@ == old(self).blockdevices@.filter(|d: LsblkDevice| dev_supported(d)),
    {
        let mut devs: Vec<LsblkDevice> = Vec::new();
        std::mem::swap(&mut devs, &mut self.blockdevices);
        let ghost orig = devs@;
        let n = devs.len();
        let mut i: usize = 0;
        proof {
            reveal(Seq::filter);
            assert(orig.take(0) =~= Seq::<LsblkDevice>::empty());
            assert(orig.subrange(0, n as int) =~= orig);
        }
        while i < n
            invariant
                n == orig.len(),
                i <= n,
                devs@ == orig.subrange(i as int, n as int),
                self.blockdevices@ == orig.take(i as int).filter(|d: LsblkDevice| dev_supported(d)),
            decreases n - i,
        {
            let d = devs.remove(0);
            proof {
                reveal(Seq::filter);
                assert(d == orig[i as int]);
                assert(orig.take(i + 1).drop_last() =~= orig.take(i as int));
                assert(orig.take(i + 1).last() == d);
                assert(devs@ =~= orig.subrange(i + 1, n as int));
            }
            if is_supported_dev(&d) {
                self.blockdevices.push(d);
            }
            i = i + 1;
        }
        assert(orig.take(n as int) =~= orig);
    }

    /// Parses the output of `lsblk -b -P -o NAME,KNAME,MAJ:MIN,FSTYPE,MOUNTPOINT,LABEL,UUID,RO,SIZE,TYPE`.
    pub fn from_list(list: &str) -> (r: Result<LsblkInfo, MigError>)
        ensures
            match parse_list(line_params(list@)) {
                Ok(gs) => r matches Ok(info) && devices_of(info.blockdevices@, gs),
                Err(k) => r matches Err(e) && e.kind == k,
            },
    {
        let lines = lines_of(list);
        let ghost ls = line_params(list@);
        let n = lines.len();
        let mut table: Vec<Vec<Option<(String, String)>>> = Vec::new();
        let mut i: usize = 0;
        while i < n
            invariant
                n == lines@.len(),
                ls == line_params(list@),
                strings_view(lines@) == text_lines(list@),
                i <= n,
                params_view(table@) == ls.take(i as int),
            decreases n - i,
        {
            assert(ls[i as int] == text_words(lines@[i as int]@).map_values(|w: Seq<char>| word_param(w)));
            let words = words_of(lines[i].as_str());
            let m = words.len();
            let mut row: Vec<Option<(String, String)>> = Vec::new();
            let mut j: usize = 0;
            while j < m
                invariant
                    m == words@.len(),
                    j <= m,
                    i < n,
                    n == lines@.len(),
                    strings_view(words@) == text_words(lines@[i as int]@),
                    row@.map_values(|p: Option<(String, String)>| pair_view(p)) == strings_view(words@).take(
                        j as int,
                    ).map_values(|w: Seq<char>| word_param(w)),
                decreases m - j,
            {
                let ghost before = row@;
                let x = word_param_of(&words[j]);
                row.push(x);
                assert(strings_view(words@)[j as int] == words@[j as int]@);
                assert(row@.map_values(|p: Option<(String, String)>| pair_view(p)) =~= before.map_values(
                    |p: Option<(String, String)>| pair_view(p),
                ).push(pair_view(x)));
                assert(strings_view(words@).take(j + 1).map_values(|w: Seq<char>| word_param(w)) =~= strings_view(
                    words@,
                ).take(j as int).map_values(|w: Seq<char>| word_param(w)).push(word_param(words@[j as int]@)));
                assert(row@.map_values(|p: Option<(String, String)>| pair_view(p)) =~= strings_view(
                    words@,
                ).take(j + 1).map_values(|w: Seq<char>| word_param(w)));
                j = j + 1;
            }
            assert(strings_view(words@).take(m as int) =~= strings_view(words@));
            let ghost before = table@;
            assert(row@.map_values(|p: Option<(String, String)>| pair_view(p)) == ls[i as int]);
            table.push(row);
            assert(params_view(table@) =~= params_view(before).push(ls[i as int]));
            assert(ls.take(i + 1) =~= ls.take(i as int).push(ls[i as int]));
            assert(params_view(table@) =~= ls.take(i + 1));
            i = i + 1;
        }
        assert(ls.take(n as int) =~= ls);
        LsblkInfo::from_params(&table)
    }

    /// Builds the devices from the lines of `lsblk -P` output, each given as
    /// its words read as `KEY="value"` pairs (none for a word that is not
    /// one). A line must have ten words, the last its `TYPE`; a `disk` line
    /// opens a device, a `part` line adds a partition to the last device, and
    /// lines of other types are passed over.
    pub fn from_params(lines: &Vec<Vec<Option<(String, String)>>>) -> (r: Result<LsblkInfo, MigError>)
        ensures
            match parse_list(params_view(lines@)) {
                Ok(gs) => r matches Ok(info) && devices_of(info.blockdevices@, gs),
                Err(k) => r matches Err(e) && e.kind == k,
            },
    {
        let ghost ls = params_view(lines@);
        let n = lines.len();
        let mut devs: Vec<LsblkDevice> = Vec::new();
        let mut curr: Option<LsblkDevice> = None;
        let mut i: usize = 0;
        proof {
            assert(ls.take(0) =~= Seq::<Seq<Param>>::empty());
        }
        while i < n
            invariant
                n == lines@.len(),
                ls == params_view(lines@),
                i <= n,
                parse_list(ls.take(i as int)) matches Ok(gs) && devices_of(devs@ + opt_seq(curr), gs),
                curr is None ==> devs@.len() == 0,
            decreases n - i,
        {
            let ghost gs = parse_list(ls.take(i as int))->Ok_0;
            let ghost all = devs@ + opt_seq(curr);
            proof {
                assert(ls.take(i + 1).drop_last() =~= ls.take(i as int));
                assert(ls.take(i + 1).last() == ls[i as int]);
            }
            let words = &lines[i];
            let ghost w = words@.map_values(|p: Option<(String, String)>| pair_view(p));
            assert(w == ls[i as int]);
            assert(parse_list(ls.take(i + 1)) == list_step(gs, w));
            proof {
                if list_step(gs, w) is Err {
                    lemma_error_sticks(ls, i + 1);
                }
            }
            assert forall|k: int| 0 <= k < words@.len() implies w[k] == pair_view(#[trigger] words@[k]) by {}
            if words.len() != 10 {
                return Err(MigError::from_remark(MigErrorKind::InvParam, "Failed to parse lsblk output: invalid word count"));
            }
            let dev_type = param_of(&words[9], "TYPE")?;
            proof {
                reveal_strlit("disk");
                reveal_strlit("part");
            }
            if str_eq(dev_type.as_str(), "disk") {
                let name = param_of(&words[0], "NAME")?;
                let kname = param_of(&words[1], "KNAME")?;
                let maj_min = param_of(&words[2], "MAJ:MIN")?;
                let uuid = param_of(&words[6], "UUID")?;
                let size = param_of(&words[8], "SIZE")?;
                let d = LsblkDevice {
                    name,
                    kname,
                    maj_min,
                    uuid: string_or_none(uuid),
                    size: string_or_none(size),
                    children: None,
                };
                match curr {
                    Some(c) => {
                        devs.push(c);
                    },
                    None => {},
                }
                curr = Some(d);
                proof {
                    let gs2 = gs.push((w, Seq::<Seq<Param>>::empty()));
                    let all2 = devs@ + seq![d];
                    assert(all2 =~= all.push(d));
                    assert forall|k: int| 0 <= k < all2.len() implies device_of(#[trigger] all2[k], gs2[k]) by {
                        if k < all.len() {
                            assert(device_of(all[k], gs[k]));
                        }
                    }
                }
            } else if str_eq(dev_type.as_str(), "part") {
                let mut d = match curr {
                    Some(d) => d,
                    None => {
                        return Err(MigError::from_remark(MigErrorKind::InvState, "Invalid state while parsing lsblk output, no device"));
                    },
                };
                let name = param_of(&words[0], "NAME")?;
                let kname = param_of(&words[1], "KNAME")?;
                let maj_min = param_of(&words[2], "MAJ:MIN")?;
                let fstype = param_of(&words[3], "FSTYPE")?;
                let mountpoint = param_of(&words[4], "MOUNTPOINT")?;
                let label = param_of(&words[5], "LABEL")?;
                let uuid = param_of(&words[6], "UUID")?;
                let ro = param_of(&words[7], "RO")?;
                let size = param_of(&words[8], "SIZE")?;
                let p = LsblkPartition {
                    name,
                    kname,
                    maj_min,
                    ro,
                    uuid: string_or_none(uuid),
                    fstype: string_or_none(fstype),
                    mountpoint: string_or_none(mountpoint),
                    label: string_or_none(label),
                    parttype: None,
                    partlabel: None,
                    partuuid: None,
                    size: string_or_none(size),
                };
                let ghost old_d = d;
                let mut children = match d.children {
                    Some(c) => c,
                    None => Vec::new(),
                };
                let ghost old_children = children@;
                children.push(p);
                d.children = Some(children);
                proof {
                    let last = gs.last();
                    let gs2 = gs.update(gs.len() - 1, (last.0, last.1.push(w)));
                    let all2 = devs@ + seq![d];
                    assert(device_of(all[all.len() - 1], gs[gs.len() - 1]));
                    assert(all[all.len() - 1] == old_d);
                    assert(old_children.len() == last.1.len());
                    assert(device_of(d, gs2[gs2.len() - 1])) by {
                        let c = d.children->Some_0;
                        assert forall|j: int| 0 <= j < c@.len() implies part_of(#[trigger] c@[j], gs2[gs2.len() - 1].1[j]) by {
                            if j < old_children.len() {
                                assert(c@[j] == old_children[j]);
                                assert(part_of(old_d.children->Some_0@[j], last.1[j]));
                            }
                        }
                    }
                    assert forall|k: int| 0 <= k < all2.len() implies device_of(#[trigger] all2[k], gs2[k]) by {
                        if k < all.len() - 1 {
                            assert(all2[k] == all[k]);
                            assert(device_of(all[k], gs[k]));
                        }
                    }
                }
                curr = Some(d);
            }
            i = i + 1;
        }
        proof {
            assert(ls.take(n as int) =~= ls);
        }
        let ghost all = devs@ + opt_seq(curr);
        match curr {
            Some(c) => {
                devs.push(c);
            },
            None => {},
        }
        assert(devs@ =~= all);
        Ok(LsblkInfo { blockdevices: devs })
    }

    /// The device and partition for the partition device node `part_path`,
    /// by its file name (as in `sda1` for `/dev/sda1`): the first device
    /// whose name starts the partition name, and that device's partition of
    /// that name. A device path without a file name is `InvParam`; no such
    /// device or partition is `NotFound`.
    pub fn get_devinfo_from_partition(&self, part_path: &str) -> (r: Result<
        (&LsblkDevice, &LsblkPartition),
        MigError,
    >)
        ensures
            path_file_name(part_path@) is None ==> (r matches Err(e) && e.kind
                == MigErrorKind::InvParam),
            path_file_name(part_path@) matches Some(name) ==> match r {
                Ok((d, p)) => exists|i: int|
                    0 <= i < self.blockdevices@.len() && self.blockdevices@[i] == *d
                        && spec_starts_with(name, d.name@) && no_dev_prefix(
                        self.blockdevices@,
                        name,
                        i,
                    ) && p.name@ == name && (d.children matches Some(c) && c@.contains(*p)),
                Err(e) => e.kind == MigErrorKind::NotFound && (no_dev_prefix(
                    self.blockdevices@,
                    name,
                    self.blockdevices@.len() as int,
                ) || exists|i: int|
                    0 <= i < self.blockdevices@.len() && spec_starts_with(
                        name,
                        (#[trigger] self.blockdevices@[i]).name@,
                    ) && no_dev_prefix(self.blockdevices@, name, i) && match self.blockdevices@[i].children {
                        None => true,
                        Some(c) => no_part_named(c@, name, c@.len() as int),
                    }),
            },
    {
        let name = match file_name_of(part_path) {
            Some(name) => name,
            None => {
                return Err(MigError::from_remark(MigErrorKind::InvParam, "The device path is not valid"));
            },
        };
        let n = self.blockdevices.len();
        let mut i: usize = 0;
        while i < n
            invariant
                n == self.blockdevices@.len(),
                i <= n,
                no_dev_prefix(self.blockdevices@, name@, i as int),
                path_file_name(part_path@) == Some(name@),
            decreases n - i,
        {
            let dev = &self.blockdevices[i];
            if starts_with(name.as_str(), dev.name.as_str()) {
                assert(self.blockdevices@[i as int] == *dev);
                match dev.get_devinfo_from_part_name(name.as_str()) {
                    Ok(part) => {
                        proof {
                            let c = dev.children->Some_0;
                            let k = choose|k: int|
                                0 <= k < c@.len() && c@[k] == *part && part.name@ == name@
                                    && no_part_named(c@, name@, k);
                            assert(c@[k] == *part);
                        }
                        return Ok((dev, part));
                    },
                    Err(why) => {
                        assert(spec_starts_with(name@, self.blockdevices@[i as int].name@));
                        return Err(why);
                    },
                }
            }
            i = i + 1;
        }
        Err(MigError::from_remark(MigErrorKind::NotFound, "The device was not found in lsblk output"))
    }
}

} // verus!
