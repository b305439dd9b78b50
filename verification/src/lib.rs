//! Decoder for the SMBIOS/DMI firmware table: entry point, structure
//! reader, table walker and per-type text rendering.

pub mod dmi;
pub mod raw;
