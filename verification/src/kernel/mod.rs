//! Finding and identifying the kernel in guest memory.

pub mod ntos;
pub mod start_block;
pub mod sysproc;

use crate::architecture::Architecture;
use crate::types::Address;
use vstd::prelude::*;

verus! {

/// Where address translation for the kernel starts.
#[derive(Clone, Copy, Debug, PartialEq, Eq, Structural)]
pub struct StartBlock {
    pub arch: Architecture,
    /// A virtual address inside or shortly behind the kernel image, NULL where none is known.
    pub kernel_hint: Address,
    /// Physical address of the top-level translation table.
    pub dtb: Address,
}

/// The version of a Windows NT kernel. Versions are ordered by major, then
/// minor version, then build number.
#[derive(Clone, Copy, Debug, PartialEq, Eq, PartialOrd, Ord, Structural)]
pub struct Win32Version {
    nt_major_version: u32,
    nt_minor_version: u32,
    nt_build_number: u32,
}

impl Win32Version {
    pub closed spec fn major(&self) -> u32 {
        self.nt_major_version
    }

    pub closed spec fn minor(&self) -> u32 {
        self.nt_minor_version
    }

    pub closed spec fn build(&self) -> u32 {
        self.nt_build_number
    }

    /// Whether `self` comes before `other`.
    pub open spec fn precedes(&self, other: &Win32Version) -> bool {
        self.major() < other.major() || (self.major() == other.major() && (self.minor()
            < other.minor() || (self.minor() == other.minor() && self.build() < other.build())))
    }

    pub fn new(nt_major_version: u32, nt_minor_version: u32, nt_build_number: u32) -> (v:
        Win32Version)
        ensures
            v.major() == nt_major_version,
            v.minor() == nt_minor_version,
            v.build() == nt_build_number,
    {
        Win32Version { nt_major_version, nt_minor_version, nt_build_number }
    }

    #[verifier::when_used_as_spec(major)]
    pub fn major_version(&self) -> (r: u32)
        ensures
            r == self.major(),
    {
        self.nt_major_version
    }

    #[verifier::when_used_as_spec(minor)]
    pub fn minor_version(&self) -> (r: u32)
        ensures
            r == self.minor(),
    {
        self.nt_minor_version
    }

    #[verifier::when_used_as_spec(build)]
    pub fn build_number(&self) -> (r: u32)
        ensures
            r == self.build(),
    {
        self.nt_build_number
    }

    /// Whether `self` is an older version than `other`.
    pub fn is_before(&self, other: &Win32Version) -> (r: bool)
        ensures
            r == self.precedes(other),
    {
        if self.nt_major_version != other.nt_major_version {
            self.nt_major_version < other.nt_major_version
        } else if self.nt_minor_version != other.nt_minor_version {
            self.nt_minor_version < other.nt_minor_version
        } else {
            self.nt_build_number < other.nt_build_number
        }
    }
}

/// The two values that select a program database on a symbol server.
#[derive(Debug)]
pub struct Win32Guid {
    /// Name of the database file, such as `ntkrnlmp.pdb`.
    pub file_name: String,
    /// Signature and age as upper-case hexadecimal digits.
    pub guid: String,
}

impl Clone for Win32Guid {
    fn clone(&self) -> (g: Win32Guid)
        ensures
            g.file_name@ == self.file_name@,
            g.guid@ == self.guid@,
    {
        Win32Guid { file_name: self.file_name.clone(), guid: self.guid.clone() }
    }
}

impl Win32Guid {
    pub fn new(file_name: &str, guid: &str) -> (g: Win32Guid)
        ensures
            g.file_name@ == file_name@,
            g.guid@ == guid@,
    {
        Win32Guid { file_name: String::from_str(file_name), guid: String::from_str(guid) }
    }
}

} // verus!
