//! The table of kernel structure offsets and the record it is persisted in.

use crate::architecture::Architecture;
use crate::text::{decimal, push_decimal};
use vstd::prelude::*;
use vstd::std_specs::convert::FromSpecImpl;
use vstd::string::StringExecFns;

verus! {

/// The architecture families that offset tables are kept for.
#[derive(Clone, Copy, Debug, PartialEq, Eq, Structural)]
pub enum Win32OffsetsArchitecture {
    X86,
    X64,
    AArch64,
}

impl Win32OffsetsArchitecture {
    /// The family that `arch` belongs to.
    pub open spec fn of(arch: Architecture) -> Win32OffsetsArchitecture {
        match arch {
            Architecture::X86 | Architecture::X86Pae => Win32OffsetsArchitecture::X86,
            Architecture::X64 => Win32OffsetsArchitecture::X64,
            Architecture::AArch64 => Win32OffsetsArchitecture::AArch64,
        }
    }

    /// The lower-case tag used in file names: `x86`, `x64` or `aarch64`.
    pub fn tag(&self) -> (s: &'static str)
        ensures
            s@ == match *self {
                Win32OffsetsArchitecture::X86 => "x86"@,
                Win32OffsetsArchitecture::X64 => "x64"@,
                Win32OffsetsArchitecture::AArch64 => "aarch64"@,
            },
    {
        match self {
            Win32OffsetsArchitecture::X86 => "x86",
            Win32OffsetsArchitecture::X64 => "x64",
            Win32OffsetsArchitecture::AArch64 => "aarch64",
        }
    }
}

impl From<Architecture> for Win32OffsetsArchitecture {
    fn from(arch: Architecture) -> (r: Win32OffsetsArchitecture) {
        match arch {
            Architecture::X86 | Architecture::X86Pae => Win32OffsetsArchitecture::X86,
            Architecture::X64 => Win32OffsetsArchitecture::X64,
            Architecture::AArch64 => Win32OffsetsArchitecture::AArch64,
        }
    }
}

impl FromSpecImpl<Architecture> for Win32OffsetsArchitecture {
    open spec fn obeys_from_spec() -> bool {
        true
    }

    open spec fn from_spec(arch: Architecture) -> Win32OffsetsArchitecture {
        Win32OffsetsArchitecture::of(arch)
    }
}

/// Offsets inside `_MMVAD_SHORT` and `_MMVAD_FLAGS`.
#[derive(Clone, Copy, Debug, PartialEq, Eq, Structural)]
pub struct MmVadOffsetTable {
    /// `_MMVAD_SHORT::VadNode`, or `LeftChild` where the node is inlined.
    pub vad_node: u32,
    pub starting_vpn: u32,
    pub ending_vpn: u32,
    pub starting_vpn_high: u32,
    pub ending_vpn_high: u32,
    pub u: u32,
    /// `_MMVAD_FLAGS::Protection`, counted in bits.
    pub protection_bit: u32,
}

/// Byte offsets of the kernel structure members that the enumeration of
/// processes, threads and mappings relies on. An optional member that a build
/// lacks is recorded as zero.
#[derive(Clone, Copy, Debug, PartialEq, Eq, Structural)]
pub struct Win32OffsetTable {
    pub list_blink: u32,
    pub eproc_link: u32,
    /// Relative virtual address of `MmPhysicalMemoryBlock`.
    pub phys_mem_block: u32,
    pub kproc_dtb: u32,
    pub eproc_pid: u32,
    pub eproc_name: u32,
    pub eproc_peb: u32,
    pub eproc_section_base: u32,
    pub eproc_exit_status: u32,
    pub eproc_thread_list: u32,
    pub eproc_wow64: u32,
    pub eproc_vad_root: u32,
    pub kthread_teb: u32,
    pub ethread_list_entry: u32,
    pub teb_peb: u32,
    pub teb_peb_x86: u32,
    pub mmvad: MmVadOffsetTable,
}

/// Identifies the kernel build that an offset table was made for.
#[derive(Clone, Debug)]
pub struct Win32OffsetHeader {
    pub pdb_file_name: String,
    pub pdb_guid: String,
    pub nt_major_version: u32,
    pub nt_minor_version: u32,
    pub nt_build_number: u32,
    pub arch: Win32OffsetsArchitecture,
}

/// An offset table together with the build it belongs to, as it is persisted.
#[derive(Clone, Debug)]
pub struct Win32OffsetFile {
    pub header: Win32OffsetHeader,
    pub offsets: Win32OffsetTable,
}

/// The name of the file that the table of a build is kept in: major
/// version, minor version, build number, architecture tag and database
/// identifier, joined by underscores, with the extension `.toml`.
pub open spec fn offset_file_name(header: Win32OffsetHeader) -> Seq<char> {
    decimal(header.nt_major_version as nat) + "_"@ + decimal(header.nt_minor_version as nat) + "_"@
        + decimal(header.nt_build_number as nat) + "_"@ + (match header.arch {
        Win32OffsetsArchitecture::X86 => "x86"@,
        Win32OffsetsArchitecture::X64 => "x64"@,
        Win32OffsetsArchitecture::AArch64 => "aarch64"@,
    }) + "_"@ + header.pdb_guid@ + ".toml"@
}

impl Win32OffsetFile {
    /// The name of the file that this table is kept in.
    pub fn file_name(&self) -> (r: String)
        ensures
            r@ == offset_file_name(self.header),
    {
        let mut name = String::new();
        push_decimal(&mut name, self.header.nt_major_version as u64);
        name.append("_");
        push_decimal(&mut name, self.header.nt_minor_version as u64);
        name.append("_");
        push_decimal(&mut name, self.header.nt_build_number as u64);
        name.append("_");
        name.append(self.header.arch.tag());
        name.append("_");
        name.append(self.header.pdb_guid.as_str());
        name.append(".toml");
        assert(name@ =~= offset_file_name(self.header));
        name
    }
}

} // verus!
