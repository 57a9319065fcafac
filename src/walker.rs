use vstd::prelude::*;

use crate::boot_sector::{is_data_type, spec_part_type, BootSector, PartEntry, PartitionType};
use crate::disk::Disk;
use crate::error::MigError;

verus! {

/// One partition found by the walk: its 1-based position in the walk, its
/// type code and status byte, and its absolute geometry in sectors.
#[derive(PartialEq, Eq, Structural, Clone, Copy, Debug)]
pub struct PartInfo {
    pub index: usize,
    pub ptype: u8,
    pub status: u8,
    pub start_lba: u64,
    pub num_sectors: u64,
}

/// Where the walk stands.
#[derive(Clone, Copy, Debug)]
pub enum WalkState {
    /// Scanning the primary table, at this slot.
    AtPrimary { index: usize },
    /// Waiting for the boot sector of the extended node at this sector.
    AwaitNode { chain_offset: u64 },
    /// The extended node at this sector is loaded and its partition was reported.
    AtNode { chain_offset: u64, node: BootSector },
    /// The walk is over.
    Done,
}

/// What the walk asks of its caller next.
#[derive(PartialEq, Eq, Structural, Clone, Copy, Debug)]
pub enum WalkAction {
    /// A partition was found.
    Emit(PartInfo),
    /// The boot sector at this sector is needed; hand it to `on_node`.
    ReadNode(u64),
    /// No further partitions.
    Finished,
}

/// A lazy walk over the primary partition table and the chain of extended
/// nodes that a container entry leads to. The caller reads the boot sectors
/// that the walk asks for.
#[derive(Clone, Copy, Debug)]
pub struct PartitionIterator {
    pub primary: BootSector,
    pub state: WalkState,
    pub part_idx: usize,
    pub block_size: u64,
}

/// The descriptor of entry `e` as the `idx`-th partition, its start relative to `base`.
pub open spec fn spec_info(idx: int, e: PartEntry, base: u64) -> PartInfo {
    PartInfo {
        index: idx as usize,
        ptype: e.ptype,
        status: e.status,
        start_lba: (base + e.first_lba) as u64,
        num_sectors: e.num_sectors as u64,
    }
}

pub open spec fn finished(it: PartitionIterator) -> (PartitionIterator, WalkAction) {
    (PartitionIterator { state: WalkState::Done, ..it }, WalkAction::Finished)
}

/// One step of the walk.
///
/// On the primary table an empty slot ends the walk, a data partition is
/// reported and the scan moves to the next slot, and a container is reported
/// before the walk follows the chain it leads to; a container that starts at
/// sector 0 would lead back to the primary table, so the walk ends after it. On an extended node, slot 1
/// leads to the next node when it is a container whose relative start is not
/// zero; anything else ends the walk.
pub open spec fn spec_next(it: PartitionIterator) -> (PartitionIterator, WalkAction) {
    match it.state {
        WalkState::AtPrimary { index } => {
            if index > 3 {
                finished(it)
            } else {
                let e = it.primary.part_tbl@[index as int];
                let t = spec_part_type(e.ptype);
                if it.part_idx == usize::MAX {
                    finished(it)
                } else if t == PartitionType::Container {
                    (
                        PartitionIterator {
                            state: if e.first_lba > 0 {
                                WalkState::AwaitNode { chain_offset: e.first_lba as u64 }
                            } else {
                                WalkState::Done
                            },
                            part_idx: (it.part_idx + 1) as usize,
                            ..it
                        },
                        WalkAction::Emit(spec_info(it.part_idx + 1, e, 0)),
                    )
                } else if is_data_type(t) {
                    (
                        PartitionIterator {
                            state: WalkState::AtPrimary { index: (index + 1) as usize },
                            part_idx: (it.part_idx + 1) as usize,
                            ..it
                        },
                        WalkAction::Emit(spec_info(it.part_idx + 1, e, 0)),
                    )
                } else {
                    finished(it)
                }
            }
        },
        WalkState::AwaitNode { chain_offset } => (it, WalkAction::ReadNode(chain_offset)),
        WalkState::AtNode { chain_offset, node } => {
            let e = node.part_tbl@[1];
            if spec_part_type(e.ptype) == PartitionType::Container && e.first_lba > 0
                && chain_offset + e.first_lba <= u64::MAX {
                let next = (chain_offset + e.first_lba) as u64;
                (
                    PartitionIterator { state: WalkState::AwaitNode { chain_offset: next }, ..it },
                    WalkAction::ReadNode(next),
                )
            } else {
                finished(it)
            }
        },
        WalkState::Done => (it, WalkAction::Finished),
    }
}

/// The walk once the boot sector it waited for was read (or failed to be).
///
/// Slot 0 of an extended node must be a data partition; it is reported with
/// its start taken relative to the node. A failed read, or any other slot 0,
/// ends the walk quietly.
pub open spec fn spec_on_node(it: PartitionIterator, node: Result<BootSector, MigError>) -> (
    PartitionIterator,
    Option<PartInfo>,
) {
    match it.state {
        WalkState::AwaitNode { chain_offset } => match node {
            Ok(bs) => {
                let e = bs.part_tbl@[0];
                if is_data_type(spec_part_type(e.ptype)) && it.part_idx < usize::MAX
                    && chain_offset + e.first_lba <= u64::MAX {
                    (
                        PartitionIterator {
                            state: WalkState::AtNode { chain_offset, node: bs },
                            part_idx: (it.part_idx + 1) as usize,
                            ..it
                        },
                        Some(spec_info(it.part_idx + 1, e, chain_offset)),
                    )
                } else {
                    (PartitionIterator { state: WalkState::Done, ..it }, None)
                }
            },
            Err(_) => (PartitionIterator { state: WalkState::Done, ..it }, None),
        },
        _ => (it, None),
    }
}

impl PartInfo {
    /// The class of the partition's type code.
    pub fn ptype_class(&self) -> (r: PartitionType)
        ensures
            r == spec_part_type(self.ptype),
    {
        PartEntry {
            status: 0,
            first_head: 0,
            first_comb: 0,
            first_cyl: 0,
            ptype: self.ptype,
            last_head: 0,
            last_comb: 0,
            last_cyl: 0,
            first_lba: 0,
            num_sectors: 0,
        }.part_type()
    }
}

fn part_info(idx: usize, e: &PartEntry, base: u64) -> (r: PartInfo)
    requires
        base + e.first_lba <= u64::MAX,
    ensures
        r == spec_info(idx as int, *e, base),
{
    PartInfo {
        index: idx,
        ptype: e.ptype,
        status: e.status,
        start_lba: base + e.first_lba as u64,
        num_sectors: e.num_sectors as u64,
    }
}

impl PartitionIterator {
    /// Starts a walk from the outcome of reading the primary boot sector of
    /// `disk`; a failed read is passed on.
    pub fn new(disk: &Disk, primary: Result<BootSector, MigError>) -> (r: Result<
        PartitionIterator,
        MigError,
    >)
        ensures
            match primary {
                Ok(bs) => r matches Ok(it) && it.primary == bs && it.state == (WalkState::AtPrimary {
                    index: 0,
                }) && it.part_idx == 0 && it.block_size == disk.block_size,
                Err(e) => r == Err::<PartitionIterator, MigError>(e),
            },
    {
        match primary {
            Ok(mbr) => Ok(
                PartitionIterator {
                    primary: mbr,
                    state: WalkState::AtPrimary { index: 0 },
                    part_idx: 0,
                    block_size: disk.block_size,
                },
            ),
            Err(why) => Err(why),
        }
    }

    /// Takes one step of the walk.
    pub fn next(&mut self) -> (r: WalkAction)
        ensures
            (*final(self), r) == spec_next(*old(self)),
    {
        match self.state {
            WalkState::AtPrimary { index } => {
                if index > 3 || self.part_idx == usize::MAX {
                    self.state = WalkState::Done;
                    return WalkAction::Finished;
                }
                let e = self.primary.part_tbl[index];
                match e.part_type() {
                    PartitionType::Container => {
                        self.part_idx = self.part_idx + 1;
                        self.state = if e.first_lba > 0 {
                            WalkState::AwaitNode { chain_offset: e.first_lba as u64 }
                        } else {
                            WalkState::Done
                        };
                        WalkAction::Emit(part_info(self.part_idx, &e, 0))
                    },
                    PartitionType::Fat | PartitionType::Linux => {
                        self.part_idx = self.part_idx + 1;
                        self.state = WalkState::AtPrimary { index: index + 1 };
                        WalkAction::Emit(part_info(self.part_idx, &e, 0))
                    },
                    _ => {
                        self.state = WalkState::Done;
                        WalkAction::Finished
                    },
                }
            },
            WalkState::AwaitNode { chain_offset } => WalkAction::ReadNode(chain_offset),
            WalkState::AtNode { chain_offset, node } => {
                let e = node.part_tbl[1];
                let is_container = match e.part_type() {
                    PartitionType::Container => true,
                    _ => false,
                };
                if is_container && e.first_lba > 0 && (e.first_lba as u64) <= u64::MAX
                    - chain_offset {
                    let next = chain_offset + e.first_lba as u64;
                    self.state = WalkState::AwaitNode { chain_offset: next };
                    WalkAction::ReadNode(next)
                } else {
                    self.state = WalkState::Done;
                    WalkAction::Finished
                }
            },
            WalkState::Done => WalkAction::Finished,
        }
    }

    /// Hands the walk the outcome of reading the boot sector that its last
    /// `ReadNode` asked for, and returns the partition of that node, if any.
    pub fn on_node(&mut self, node: Result<BootSector, MigError>) -> (r: Option<PartInfo>)
        ensures
            (*final(self), r) == spec_on_node(*old(self), node),
    {
        match self.state {
            WalkState::AwaitNode { chain_offset } => match node {
                Ok(bs) => {
                    let e = bs.part_tbl[0];
                    if e.is_data() && self.part_idx < usize::MAX && (e.first_lba as u64)
                        <= u64::MAX - chain_offset {
                        self.part_idx = self.part_idx + 1;
                        self.state = WalkState::AtNode { chain_offset, node: bs };
                        Some(part_info(self.part_idx, &e, chain_offset))
                    } else {
                        self.state = WalkState::Done;
                        None
                    }
                },
                Err(_) => {
                    self.state = WalkState::Done;
                    None
                },
            },
            _ => None,
        }
    }
}

/// Every partition the walk reports carries the next sequence number: the
/// numbers start at 1 and grow by one per reported partition.
pub proof fn lemma_indices_consecutive(it: PartitionIterator, node: Result<BootSector, MigError>)
    ensures
        spec_next(it).1 matches WalkAction::Emit(p) ==> p.index == it.part_idx + 1
            && spec_next(it).0.part_idx == p.index,
        !(spec_next(it).1 is Emit) ==> spec_next(it).0.part_idx == it.part_idx,
        spec_on_node(it, node).1 matches Some(p) ==> p.index == it.part_idx + 1
            && spec_on_node(it, node).0.part_idx == p.index,
        spec_on_node(it, node).1 is None ==> spec_on_node(it, node).0.part_idx == it.part_idx,
{
}

/// The walk only moves forward: on the primary table to the next slot, and
/// along the extended chain to a node at a higher sector, so a chain of
/// nodes cannot loop.
pub proof fn lemma_walk_moves_forward(it: PartitionIterator)
    ensures
        it.state matches WalkState::AtPrimary { index } ==> match spec_next(it).0.state {
            WalkState::AtPrimary { index: next } => next == index + 1,
            _ => true,
        },
        it.state matches WalkState::AtNode { chain_offset, .. } ==> (spec_next(it).1 matches WalkAction::ReadNode(
            next,
        ) ==> next > chain_offset),
{
}

/// The extended nodes that a walk has reached or waits for lie after the
/// primary table.
pub open spec fn chain_after_primary(it: PartitionIterator) -> bool {
    match it.state {
        WalkState::AwaitNode { chain_offset } => chain_offset > 0,
        WalkState::AtNode { chain_offset, .. } => chain_offset > 0,
        _ => true,
    }
}

/// From the primary table on, every boot sector the walk asks for lies
/// strictly after the last one it read: the first node after the primary
/// table at sector 0, each further node after the node that links to it.
/// The chain therefore never leads back, and `chain_after_primary` holds in
/// every state the walk reaches.
pub proof fn lemma_chain_strictly_forward(it: PartitionIterator, node: Result<BootSector, MigError>)
    requires
        chain_after_primary(it),
    ensures
        chain_after_primary(spec_next(it).0),
        chain_after_primary(spec_on_node(it, node).0),
        it.state is AtPrimary ==> (spec_next(it).1 matches WalkAction::ReadNode(n) ==> n > 0),
        it.state is AtPrimary ==> (spec_next(it).0.state matches WalkState::AwaitNode { chain_offset }
            ==> chain_offset > 0),
        it.state matches WalkState::AtNode { chain_offset, .. } ==> (spec_next(it).1 matches WalkAction::ReadNode(
            n,
        ) ==> n > chain_offset),
        it.state matches WalkState::AwaitNode { chain_offset } ==> (spec_on_node(it, node).0.state matches WalkState::AtNode {
            chain_offset: c,
            ..
        } ==> c == chain_offset),
{
}

/// A walk that has just started satisfies `chain_after_primary`.
pub proof fn lemma_start_after_primary(it: PartitionIterator)
    requires
        it.state is AtPrimary,
    ensures
        chain_after_primary(it),
{
}

/// A finished walk stays finished.
pub proof fn lemma_done_is_final(it: PartitionIterator, node: Result<BootSector, MigError>)
    requires
        it.state is Done,
    ensures
        spec_next(it) == (it, WalkAction::Finished),
        spec_on_node(it, node) == (it, None::<PartInfo>),
{
}

} // verus!
