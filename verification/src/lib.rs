//! Windows kernel introspection over raw guest memory: locating the kernel image,
//! identifying its build and resolving the structure offsets needed to walk kernel objects.
//!
//! The way from a handle on physical memory to a kernel leads through
//! [`kernel::start_block`], which finds the translation tables that the boot
//! loader left in low memory, [`kernel::ntos`], which finds the kernel image
//! and reads its version and the identifier of its program database,
//! [`kernel::sysproc`], which finds the system process, and [`offsets`],
//! which resolves the offsets of the kernel's structures from that database.
//! [`win32`] strings these stages together. Guest memory, the symbol server
//! with its cache, and the reader of program databases are reached through
//! the traits in [`mem`], [`offsets::symstore`] and [`offsets::pdb`]; nothing
//! is assumed of their implementations.

pub mod architecture;
pub mod bytes;
pub mod error;
pub mod kernel;
pub mod mem;
pub mod offsets;
pub mod plugins;
pub mod text;
pub mod types;
pub mod win32;
