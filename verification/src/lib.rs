//! Facts about the storage volumes of a machine, brought together from the
//! disk listing and from what the operating system knows, and the report
//! that shows them.
//!
//! `drive_info` builds the list of volumes, `enrich` adds to each volume
//! what the operating system answers, and `report` lays the volumes out as
//! a table with totals. The library does no input or output: its callers
//! make the lookups and print the lines.

pub mod cli_args;
pub mod disk;
pub mod drive_info;
pub mod enrich;
pub mod errors;
pub mod file_metadata;
pub mod format_utils;
pub mod initialization;
pub mod path_order;
pub mod report;
pub mod scan;
pub mod style;
pub mod text;
pub mod time_utils;
pub mod wmi;
