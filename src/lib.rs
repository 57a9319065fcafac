//! Partition-level reading of disk images and the decisions of the
//! post-reboot migration stage.
//!
//! Every module keeps its logic free of I/O: reads of an image, mounts,
//! copies and reboots are carried out by the caller, which hands the
//! outcome back to the functions here.

pub mod boot_manager;
pub mod boot_sector;
pub mod debug_config;
pub mod device;
pub mod disk;
pub mod error;
pub mod extract;
pub mod lsblk;
pub mod mount_point;
pub mod number;
pub mod pattern;
pub mod powershell;
pub mod reader;
pub mod stage2;
pub mod text;
pub mod walker;
