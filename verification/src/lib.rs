//! Reconfiguration logic for an XDS110 debug probe: the device-matching
//! tables, the configuration-image patching rules, the bootloader (DFU)
//! control-transfer protocol engine, and the top-level locate workflow.
//!
//! All USB I/O is performed by the surrounding binary; this crate decides
//! which transfers to issue, in what order, and what every response means.

pub mod application;
pub mod errors;
pub mod image;
pub mod matcher;
pub mod protocol;
pub mod transfer;
pub mod workflow;
