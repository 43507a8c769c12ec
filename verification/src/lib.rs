//! Verified core of the Qualcomm SoC information driver and of the kernel abstractions it
//! stands on: DebugFS handles, file handles and file-operation tables, SoC device attributes,
//! and the DebugFS sample's device table.

pub mod data;
pub mod debugfs;
pub mod error;
pub mod export;
pub mod file;
pub mod sample;
pub mod soc;
pub mod socinfo;
pub mod text;
