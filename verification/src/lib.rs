//! Hardening inspection of executable files.
//!
//! Given the bytes of a file, the library tells which container format they
//! hold (ELF, PE, Mach-O or a fat Mach-O archive), analyses every
//! architecture slice and reports the mitigations each slice was built with.
//!
//! * [`kind`] tells the format from the magic number.
//! * [`container`] hands the bytes of an ELF or a PE file to its parser.
//! * [`elf`] and [`pe`] read the indicators off what the parser found;
//!   [`macho`] reads a Mach-O file itself, and [`fat`] takes a fat archive
//!   apart.
//! * [`scan`] goes from the bytes of a file to its records, and [`record`]
//!   holds them.
//! * [`document`] and [`render`] write records as a structured document and
//!   as lines of text; [`report`] decides which, and when.
//! * [`cli`] reads the command line.
//!
//! Opening files and walking directories is left to the caller.

pub mod bytes;
pub mod cli;
pub mod container;
pub mod document;
pub mod elf;
pub mod fat;
pub mod kind;
pub mod macho;
pub mod names;
pub mod pe;
pub mod record;
pub mod render;
pub mod report;
pub mod scan;
