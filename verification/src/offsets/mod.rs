//! Structure offsets of the Windows kernel and how they are obtained.

pub mod builder;
pub mod entries;
pub mod offset_table;
pub mod pdb;
pub mod symstore;

pub use crate::kernel::Win32Guid;
pub use builder::Win32OffsetBuilder;
pub use offset_table::{
    MmVadOffsetTable, Win32OffsetFile, Win32OffsetHeader, Win32OffsetTable,
    Win32OffsetsArchitecture,
};
pub use pdb::{PdbField, PdbReader, PdbStruct, PdbSymbols};
pub use symstore::{SymbolBackend, SymbolStore};

use crate::architecture::Architecture;
use crate::error::{Error, ErrorKind};
use crate::offsets::pdb::{
    lookup, members_inside, struct_layout, struct_size, symbols_of, PdbSymbolStream,
    PdbTypeRecord,
};
use vstd::prelude::*;
use vstd::std_specs::convert::FromSpecImpl;

verus! {

/// Offsets inside the user-mode structures `_PEB`, `_PEB_LDR_DATA`,
/// `_LDR_DATA_TABLE_ENTRY` and `_RTL_USER_PROCESS_PARAMETERS`. They depend on
/// the pointer width alone.
#[derive(Clone, Copy, Debug, PartialEq, Eq, Structural)]
pub struct Win32ArchOffsets {
    pub peb_ldr: usize,
    pub peb_process_params: usize,
    pub ldr_list: usize,
    pub ldr_data_base: usize,
    pub ldr_data_size: usize,
    pub ldr_data_full_name: usize,
    pub ldr_data_base_name: usize,
    pub ppm_image_path_name: usize,
    pub ppm_command_line: usize,
}

impl Win32ArchOffsets {
    /// The layout on 32-bit x86.
    pub open spec fn spec_x86() -> Win32ArchOffsets {
        Win32ArchOffsets {
            peb_ldr: 0xc,
            peb_process_params: 0x10,
            ldr_list: 0xc,
            ldr_data_base: 0x18,
            ldr_data_size: 0x20,
            ldr_data_full_name: 0x24,
            ldr_data_base_name: 0x2c,
            ppm_image_path_name: 0x38,
            ppm_command_line: 0x40,
        }
    }

    /// The layout on 32-bit x86.
    #[verifier::when_used_as_spec(spec_x86)]
    pub fn x86() -> (r: Win32ArchOffsets)
        ensures
            r == Win32ArchOffsets::spec_x86(),
    {
        Win32ArchOffsets {
            peb_ldr: 0xc,
            peb_process_params: 0x10,
            ldr_list: 0xc,
            ldr_data_base: 0x18,
            ldr_data_size: 0x20,
            ldr_data_full_name: 0x24,
            ldr_data_base_name: 0x2c,
            ppm_image_path_name: 0x38,
            ppm_command_line: 0x40,
        }
    }

    /// The layout on 64-bit x86.
    pub open spec fn spec_x64() -> Win32ArchOffsets {
        Win32ArchOffsets {
            peb_ldr: 0x18,
            peb_process_params: 0x20,
            ldr_list: 0x10,
            ldr_data_base: 0x30,
            ldr_data_size: 0x40,
            ldr_data_full_name: 0x48,
            ldr_data_base_name: 0x58,
            ppm_image_path_name: 0x60,
            ppm_command_line: 0x70,
        }
    }

    /// The layout on 64-bit x86.
    #[verifier::when_used_as_spec(spec_x64)]
    pub fn x64() -> (r: Win32ArchOffsets)
        ensures
            r == Win32ArchOffsets::spec_x64(),
    {
        Win32ArchOffsets {
            peb_ldr: 0x18,
            peb_process_params: 0x20,
            ldr_list: 0x10,
            ldr_data_base: 0x30,
            ldr_data_size: 0x40,
            ldr_data_full_name: 0x48,
            ldr_data_base_name: 0x58,
            ppm_image_path_name: 0x60,
            ppm_command_line: 0x70,
        }
    }

    /// The layout on 64-bit ARM.
    pub open spec fn spec_aarch64() -> Win32ArchOffsets {
        Win32ArchOffsets {
            peb_ldr: 0x18,
            peb_process_params: 0x20,
            ldr_list: 0x10,
            ldr_data_base: 0x30,
            ldr_data_size: 0x40,
            ldr_data_full_name: 0x48,
            ldr_data_base_name: 0x58,
            ppm_image_path_name: 0x60,
            ppm_command_line: 0x70,
        }
    }

    /// The layout on 64-bit ARM.
    #[verifier::when_used_as_spec(spec_aarch64)]
    pub fn aarch64() -> (r: Win32ArchOffsets)
        ensures
            r == Win32ArchOffsets::spec_aarch64(),
    {
        Win32ArchOffsets {
            peb_ldr: 0x18,
            peb_process_params: 0x20,
            ldr_list: 0x10,
            ldr_data_base: 0x30,
            ldr_data_size: 0x40,
            ldr_data_full_name: 0x48,
            ldr_data_base_name: 0x58,
            ppm_image_path_name: 0x60,
            ppm_command_line: 0x70,
        }
    }
}

impl Win32OffsetsArchitecture {
    /// The user-mode offsets of this architecture family.
    pub fn offsets(&self) -> (r: Win32ArchOffsets)
        ensures
            r == match *self {
                Win32OffsetsArchitecture::X64 => Win32ArchOffsets::x64(),
                Win32OffsetsArchitecture::X86 => Win32ArchOffsets::x86(),
                Win32OffsetsArchitecture::AArch64 => Win32ArchOffsets::aarch64(),
            },
    {
        match self {
            Win32OffsetsArchitecture::X64 => Win32ArchOffsets::x64(),
            Win32OffsetsArchitecture::X86 => Win32ArchOffsets::x86(),
            Win32OffsetsArchitecture::AArch64 => Win32ArchOffsets::aarch64(),
        }
    }
}

impl From<Architecture> for Win32ArchOffsets {
    fn from(arch: Architecture) -> (r: Win32ArchOffsets) {
        Win32OffsetsArchitecture::from(arch).offsets()
    }
}

impl FromSpecImpl<Architecture> for Win32ArchOffsets {
    open spec fn obeys_from_spec() -> bool {
        true
    }

    open spec fn from_spec(arch: Architecture) -> Win32ArchOffsets {
        match Win32OffsetsArchitecture::of(arch) {
            Win32OffsetsArchitecture::X64 => Win32ArchOffsets::x64(),
            Win32OffsetsArchitecture::X86 => Win32ArchOffsets::x86(),
            Win32OffsetsArchitecture::AArch64 => Win32ArchOffsets::aarch64(),
        }
    }
}

/// The kernel offsets of one Windows build.
#[derive(Clone, Copy, Debug, PartialEq, Eq, Structural)]
pub struct Win32Offsets(pub Win32OffsetTable);

impl From<Win32OffsetTable> for Win32Offsets {
    fn from(other: Win32OffsetTable) -> (r: Win32Offsets) {
        Win32Offsets(other)
    }
}

impl FromSpecImpl<Win32OffsetTable> for Win32Offsets {
    open spec fn obeys_from_spec() -> bool {
        true
    }

    open spec fn from_spec(other: Win32OffsetTable) -> Win32Offsets {
        Win32Offsets(other)
    }
}

impl From<Win32Offsets> for Win32OffsetTable {
    fn from(other: Win32Offsets) -> (r: Win32OffsetTable) {
        other.0
    }
}

impl FromSpecImpl<Win32Offsets> for Win32OffsetTable {
    open spec fn obeys_from_spec() -> bool {
        true
    }

    open spec fn from_spec(other: Win32Offsets) -> Win32OffsetTable {
        other.0
    }
}

/// The layouts of the kernel structures that offsets are taken from.
#[derive(Clone, Debug)]
pub struct KernelStructs {
    /// `_LIST_ENTRY`
    pub list_entry: PdbStruct,
    /// `_KPROCESS`
    pub kprocess: PdbStruct,
    /// `_EPROCESS`
    pub eprocess: PdbStruct,
    /// `_ETHREAD`
    pub ethread: PdbStruct,
    /// `_KTHREAD`
    pub kthread: PdbStruct,
    /// `_TEB`
    pub teb: PdbStruct,
    /// `_TEB32`, which not every build describes.
    pub teb32: Option<PdbStruct>,
    /// `_MMVAD_SHORT`
    pub mmvad_short: PdbStruct,
    /// `_MMVAD_FLAGS`
    pub mmvad_flags: PdbStruct,
}

/// Byte offset of the member `name`, zero where the structure has none.
pub open spec fn offset_or_zero(s: Map<Seq<char>, PdbField>, name: Seq<char>) -> u32 {
    match lookup(s, name) {
        Some(f) => f.offset,
        None => 0,
    }
}

/// Byte offset of the member `first`, else of `second`, else zero.
pub open spec fn offset_of_either(
    s: Map<Seq<char>, PdbField>,
    first: Seq<char>,
    second: Seq<char>,
) -> u32 {
    match lookup(s, first) {
        Some(f) => f.offset,
        None => offset_or_zero(s, second),
    }
}

/// Bit position of the member `name`, zero where the structure has none.
pub open spec fn bit_or_zero(s: Map<Seq<char>, PdbField>, name: Seq<char>) -> u32 {
    match lookup(s, name) {
        Some(f) => f.bit_offset as u32,
        None => 0,
    }
}

/// Address of the symbol `first`, else of `second`, else zero.
pub open spec fn rva_of_either(
    symbols: Map<Seq<char>, u32>,
    first: Seq<char>,
    second: Seq<char>,
) -> u32 {
    match lookup(symbols, first) {
        Some(rva) => rva,
        None => match lookup(symbols, second) {
            Some(rva) => rva,
            None => 0,
        },
    }
}

/// The layouts of the kernel structures as maps from member names.
pub struct KernelLayouts {
    pub list_entry: Map<Seq<char>, PdbField>,
    pub kprocess: Map<Seq<char>, PdbField>,
    pub eprocess: Map<Seq<char>, PdbField>,
    pub ethread: Map<Seq<char>, PdbField>,
    pub kthread: Map<Seq<char>, PdbField>,
    pub teb: Map<Seq<char>, PdbField>,
    pub teb32: Option<Map<Seq<char>, PdbField>>,
    pub mmvad_short: Map<Seq<char>, PdbField>,
    pub mmvad_flags: Map<Seq<char>, PdbField>,
}

impl View for KernelStructs {
    type V = KernelLayouts;

    open spec fn view(&self) -> KernelLayouts {
        KernelLayouts {
            list_entry: self.list_entry@,
            kprocess: self.kprocess@,
            eprocess: self.eprocess@,
            ethread: self.ethread@,
            kthread: self.kthread@,
            teb: self.teb@,
            teb32: match self.teb32 {
                Some(teb32) => Some(teb32@),
                None => None,
            },
            mmvad_short: self.mmvad_short@,
            mmvad_flags: self.mmvad_flags@,
        }
    }
}

impl KernelLayouts {
    /// The diagnostic for the first required member that is absent, in the
    /// order in which the members are resolved; `None` where all are present.
    pub open spec fn first_missing(self) -> Option<Seq<char>> {
        if lookup(self.list_entry, "Blink"@) is None {
            Some("_LIST_ENTRY::Blink not found"@)
        } else if lookup(self.eprocess, "ActiveProcessLinks"@) is None {
            Some("_EPROCESS::ActiveProcessLinks not found"@)
        } else if lookup(self.kprocess, "DirectoryTableBase"@) is None {
            Some("_KPROCESS::DirectoryTableBase not found"@)
        } else if lookup(self.eprocess, "UniqueProcessId"@) is None {
            Some("_EPROCESS::UniqueProcessId not found"@)
        } else if lookup(self.eprocess, "ImageFileName"@) is None {
            Some("_EPROCESS::ImageFileName not found"@)
        } else if lookup(self.eprocess, "Peb"@) is None {
            Some("_EPROCESS::Peb not found"@)
        } else if lookup(self.eprocess, "SectionBaseAddress"@) is None {
            Some("_EPROCESS::SectionBaseAddress not found"@)
        } else if lookup(self.eprocess, "ExitStatus"@) is None {
            Some("_EPROCESS::ExitStatus not found"@)
        } else if lookup(self.eprocess, "ThreadListHead"@) is None {
            Some("_EPROCESS::ThreadListHead not found"@)
        } else if lookup(self.kthread, "Teb"@) is None {
            Some("_KTHREAD::Teb not found"@)
        } else if lookup(self.ethread, "ThreadListEntry"@) is None {
            Some("_ETHREAD::ThreadListEntry not found"@)
        } else if lookup(self.teb, "ProcessEnvironmentBlock"@) is None {
            Some("_TEB::ProcessEnvironmentBlock not found"@)
        } else if self.teb32 matches Some(teb32) && lookup(teb32, "ProcessEnvironmentBlock"@) is None {
            Some("_TEB32::ProcessEnvironmentBlock not found"@)
        } else if lookup(self.eprocess, "VadRoot"@) is None {
            Some("_EPROCESS::VadRoot not found"@)
        } else {
            None
        }
    }

    /// The offsets that these layouts and `symbols` give. An absent member counts as zero.
    pub open spec fn table(self, symbols: Map<Seq<char>, u32>) -> Win32OffsetTable {
        Win32OffsetTable {
            list_blink: offset_or_zero(self.list_entry, "Blink"@),
            eproc_link: offset_or_zero(self.eprocess, "ActiveProcessLinks"@),
            phys_mem_block: rva_of_either(symbols, "MmPhysicalMemoryBlock"@, "_MmPhysicalMemoryBlock"@),
            kproc_dtb: offset_or_zero(self.kprocess, "DirectoryTableBase"@),
            eproc_pid: offset_or_zero(self.eprocess, "UniqueProcessId"@),
            eproc_name: offset_or_zero(self.eprocess, "ImageFileName"@),
            eproc_peb: offset_or_zero(self.eprocess, "Peb"@),
            eproc_section_base: offset_or_zero(self.eprocess, "SectionBaseAddress"@),
            eproc_exit_status: offset_or_zero(self.eprocess, "ExitStatus"@),
            eproc_thread_list: offset_or_zero(self.eprocess, "ThreadListHead"@),
            eproc_wow64: offset_of_either(self.eprocess, "WoW64Process"@, "Wow64Process"@),
            eproc_vad_root: offset_or_zero(self.eprocess, "VadRoot"@),
            kthread_teb: offset_or_zero(self.kthread, "Teb"@),
            ethread_list_entry: offset_or_zero(self.ethread, "ThreadListEntry"@),
            teb_peb: offset_or_zero(self.teb, "ProcessEnvironmentBlock"@),
            teb_peb_x86: match self.teb32 {
                Some(teb32) => offset_or_zero(teb32, "ProcessEnvironmentBlock"@),
                None => 0,
            },
            mmvad: MmVadOffsetTable {
                vad_node: offset_of_either(self.mmvad_short, "VadNode"@, "LeftChild"@),
                starting_vpn: offset_or_zero(self.mmvad_short, "StartingVpn"@),
                ending_vpn: offset_or_zero(self.mmvad_short, "EndingVpn"@),
                starting_vpn_high: offset_or_zero(self.mmvad_short, "StartingVpnHigh"@),
                ending_vpn_high: offset_or_zero(self.mmvad_short, "EndingVpnHigh"@),
                u: offset_or_zero(self.mmvad_short, "u"@),
                protection_bit: bit_or_zero(self.mmvad_flags, "Protection"@),
            },
        }
    }
}

/// The diagnostic for the first of the required structures that the
/// records `types` do not define; `None` where all are defined.
pub open spec fn missing_struct(types: Seq<PdbTypeRecord>) -> Option<Seq<char>> {
    if struct_layout(types, "_LIST_ENTRY"@) is None {
        Some("_LIST_ENTRY not found"@)
    } else if struct_layout(types, "_KPROCESS"@) is None {
        Some("_KPROCESS not found"@)
    } else if struct_layout(types, "_EPROCESS"@) is None {
        Some("_EPROCESS not found"@)
    } else if struct_layout(types, "_ETHREAD"@) is None {
        Some("_ETHREAD not found"@)
    } else if struct_layout(types, "_KTHREAD"@) is None {
        Some("_KTHREAD not found"@)
    } else if struct_layout(types, "_TEB"@) is None {
        Some("_TEB not found"@)
    } else if struct_layout(types, "_MMVAD_SHORT"@) is None {
        Some("_MMVAD_SHORT not found"@)
    } else if struct_layout(types, "_MMVAD_FLAGS"@) is None {
        Some("_MMVAD_FLAGS not found"@)
    } else {
        None
    }
}

/// The layouts of the kernel structures as the records `types` describe
/// them. `_TEB32` is the only one that may be absent.
pub open spec fn layouts_of(types: Seq<PdbTypeRecord>) -> KernelLayouts {
    KernelLayouts {
        list_entry: struct_layout(types, "_LIST_ENTRY"@)->0,
        kprocess: struct_layout(types, "_KPROCESS"@)->0,
        eprocess: struct_layout(types, "_EPROCESS"@)->0,
        ethread: struct_layout(types, "_ETHREAD"@)->0,
        kthread: struct_layout(types, "_KTHREAD"@)->0,
        teb: struct_layout(types, "_TEB"@)->0,
        teb32: struct_layout(types, "_TEB32"@),
        mmvad_short: struct_layout(types, "_MMVAD_SHORT"@)->0,
        mmvad_flags: struct_layout(types, "_MMVAD_FLAGS"@)->0,
    }
}

/// The offsets that the symbol records and type records of a program
/// database give, or the diagnostic for what is missing: the symbols, one
/// of the structures, or a member that every build has.
pub open spec fn offsets_of(
    symbols: Option<PdbSymbolStream>,
    types: Option<Seq<PdbTypeRecord>>,
) -> Result<Win32OffsetTable, Seq<char>> {
    if symbols is None {
        Err("Symbols not found"@)
    } else if types is None {
        Err("_LIST_ENTRY not found"@)
    } else if missing_struct(types->0) is Some {
        Err(missing_struct(types->0)->0)
    } else if layouts_of(types->0).first_missing() is Some {
        Err(layouts_of(types->0).first_missing()->0)
    } else {
        Ok(layouts_of(types->0).table(symbols_of(symbols->0)))
    }
}

/// Whether `r` is what the symbol stream `symbols` and the type records
/// `types` resolve to: the offsets, or an error of the kind
/// [`ErrorKind::Offset`] with the diagnostic for what is missing.
pub open spec fn resolves(
    symbols: Option<PdbSymbolStream>,
    types: Option<Seq<PdbTypeRecord>>,
    r: Result<Win32Offsets, Error>,
) -> bool {
    match r {
        Ok(offsets) => offsets_of(symbols, types) == Ok::<_, Seq<char>>(offsets.0),
        Err(e) => e.kind == ErrorKind::Offset && offsets_of(symbols, types) == Err::<
            Win32OffsetTable,
            _,
        >(e.message@),
    }
}

impl KernelStructs {
    /// Reads the layouts of the kernel structures out of the records of a
    /// type stream. Fails with [`ErrorKind::Offset`] and the name of the
    /// first structure that the records do not define.
    pub fn from_types(types: &Vec<PdbTypeRecord>) -> (r: Result<KernelStructs, Error>)
        ensures
            match r {
                Ok(structs) => missing_struct(types@) is None && structs@ == layouts_of(types@),
                Err(e) => e.kind == ErrorKind::Offset && missing_struct(types@) == Some(
                    e.message@,
                ),
            },
    {
        let list_entry = match PdbStruct::from_types(types, "_LIST_ENTRY") {
            Some(layout) => layout,
            None => {
                return Err(Error::new(ErrorKind::Offset, "_LIST_ENTRY not found"));
            },
        };
        let kprocess = match PdbStruct::from_types(types, "_KPROCESS") {
            Some(layout) => layout,
            None => {
                return Err(Error::new(ErrorKind::Offset, "_KPROCESS not found"));
            },
        };
        let eprocess = match PdbStruct::from_types(types, "_EPROCESS") {
            Some(layout) => layout,
            None => {
                return Err(Error::new(ErrorKind::Offset, "_EPROCESS not found"));
            },
        };
        let ethread = match PdbStruct::from_types(types, "_ETHREAD") {
            Some(layout) => layout,
            None => {
                return Err(Error::new(ErrorKind::Offset, "_ETHREAD not found"));
            },
        };
        let kthread = match PdbStruct::from_types(types, "_KTHREAD") {
            Some(layout) => layout,
            None => {
                return Err(Error::new(ErrorKind::Offset, "_KTHREAD not found"));
            },
        };
        let teb = match PdbStruct::from_types(types, "_TEB") {
            Some(layout) => layout,
            None => {
                return Err(Error::new(ErrorKind::Offset, "_TEB not found"));
            },
        };
        let mmvad_short = match PdbStruct::from_types(types, "_MMVAD_SHORT") {
            Some(layout) => layout,
            None => {
                return Err(Error::new(ErrorKind::Offset, "_MMVAD_SHORT not found"));
            },
        };
        let mmvad_flags = match PdbStruct::from_types(types, "_MMVAD_FLAGS") {
            Some(layout) => layout,
            None => {
                return Err(Error::new(ErrorKind::Offset, "_MMVAD_FLAGS not found"));
            },
        };
        let teb32 = PdbStruct::from_types(types, "_TEB32");
        let structs = KernelStructs {
            list_entry,
            kprocess,
            eprocess,
            ethread,
            kthread,
            teb,
            teb32,
            mmvad_short,
            mmvad_flags,
        };
        Ok(structs)
    }
}

/// The offset of a member that every build has.
fn required(s: &PdbStruct, name: &str, message: &'static str) -> (r: Result<u32, Error>)
    ensures
        match r {
            Ok(offset) => lookup(s@, name@) is Some && offset == offset_or_zero(s@, name@),
            Err(e) => lookup(s@, name@) is None && e.kind == ErrorKind::Offset && e.message@
                == message@,
        },
{
    match s.find_field(name) {
        Some(f) => Ok(f.offset),
        None => Err(Error::new(ErrorKind::Offset, message)),
    }
}

/// The offset of a member that older builds lack.
fn optional(s: &PdbStruct, name: &str) -> (r: u32)
    ensures
        r == offset_or_zero(s@, name@),
{
    match s.find_field(name) {
        Some(f) => f.offset,
        None => 0,
    }
}

/// The offset of a member that was renamed between builds.
fn either(s: &PdbStruct, first: &str, second: &str) -> (r: u32)
    ensures
        r == offset_of_either(s@, first@, second@),
{
    match s.find_field(first) {
        Some(f) => f.offset,
        None => optional(s, second),
    }
}

impl Win32Offsets {
    /// Resolves the kernel offsets from the program database `pdb_slice`.
    /// Fails with [`ErrorKind::Offset`] where the database cannot be read or
    /// lacks a structure or a member that every build has; the diagnostic
    /// names what is missing. The result is the one that
    /// [`Win32Offsets::from_pdb_records`] gives for the records that
    /// `reader` hands out.
    pub fn from_pdb_slice<R: PdbReader>(reader: &mut R, pdb_slice: &[u8]) -> (r: Result<
        Win32Offsets,
        Error,
    >)
        ensures
            r matches Err(e) ==> e.kind == ErrorKind::Offset,
    {
        let symbols = reader.read_symbols(pdb_slice);
        let types = reader.read_types(pdb_slice);
        Win32Offsets::from_pdb_records(symbols, types)
    }

    /// Resolves the kernel offsets from the symbol stream and the type
    /// records of a program database; `None` stands for a stream that could
    /// not be read.
    pub fn from_pdb_records(symbols: Option<PdbSymbolStream>, types: Option<Vec<PdbTypeRecord>>) -> (r:
        Result<Win32Offsets, Error>)
        ensures
            resolves(
                symbols,
                match types {
                    Some(records) => Some(records@),
                    None => None,
                },
                r,
            ),
    {
        let symbols = match &symbols {
            Some(records) => PdbSymbols::from_records(records),
            None => {
                return Err(Error::new(ErrorKind::Offset, "Symbols not found"));
            },
        };
        let structs = match &types {
            Some(records) => KernelStructs::from_types(records)?,
            None => {
                return Err(Error::new(ErrorKind::Offset, "_LIST_ENTRY not found"));
            },
        };
        Win32Offsets::from_structs(&symbols, &structs)
    }

    /// Resolves every kernel offset from the layouts in `structs` and the
    /// public symbols. A required member that is absent fails with
    /// [`ErrorKind::Offset`] and names the member; an optional one gives zero.
    pub fn from_structs(symbols: &PdbSymbols, structs: &KernelStructs) -> (r: Result<
        Win32Offsets,
        Error,
    >)
        ensures
            match r {
                Ok(offsets) => structs@.first_missing() is None && offsets.0 == structs@.table(
                    symbols@,
                ),
                Err(e) => e.kind == ErrorKind::Offset && structs@.first_missing() == Some(
                    e.message@,
                ),
            },
    {
        let phys_mem_block = match symbols.find_symbol("MmPhysicalMemoryBlock") {
            Some(rva) => rva,
            None => match symbols.find_symbol("_MmPhysicalMemoryBlock") {
                Some(rva) => rva,
                None => 0,
            },
        };
        let list_blink = required(&structs.list_entry, "Blink", "_LIST_ENTRY::Blink not found")?;
        let eproc_link = required(&structs.eprocess, "ActiveProcessLinks", "_EPROCESS::ActiveProcessLinks not found")?;
        let kproc_dtb = required(&structs.kprocess, "DirectoryTableBase", "_KPROCESS::DirectoryTableBase not found")?;
        let eproc_pid = required(&structs.eprocess, "UniqueProcessId", "_EPROCESS::UniqueProcessId not found")?;
        let eproc_name = required(&structs.eprocess, "ImageFileName", "_EPROCESS::ImageFileName not found")?;
        let eproc_peb = required(&structs.eprocess, "Peb", "_EPROCESS::Peb not found")?;
        let eproc_section_base = required(&structs.eprocess, "SectionBaseAddress", "_EPROCESS::SectionBaseAddress not found")?;
        let eproc_exit_status = required(&structs.eprocess, "ExitStatus", "_EPROCESS::ExitStatus not found")?;
        let eproc_thread_list = required(&structs.eprocess, "ThreadListHead", "_EPROCESS::ThreadListHead not found")?;
        let eproc_wow64 = either(&structs.eprocess, "WoW64Process", "Wow64Process");
        let kthread_teb = required(&structs.kthread, "Teb", "_KTHREAD::Teb not found")?;
        let ethread_list_entry = required(&structs.ethread, "ThreadListEntry", "_ETHREAD::ThreadListEntry not found")?;
        let teb_peb = required(&structs.teb, "ProcessEnvironmentBlock", "_TEB::ProcessEnvironmentBlock not found")?;
        let teb_peb_x86 = match &structs.teb32 {
            Some(teb32) => required(
                teb32,
                "ProcessEnvironmentBlock",
                "_TEB32::ProcessEnvironmentBlock not found",
            )?,
            None => 0,
        };
        let eproc_vad_root = required(&structs.eprocess, "VadRoot", "_EPROCESS::VadRoot not found")?;

        // On older builds the node is inlined and starts with its left child.
        let vad_node = either(&structs.mmvad_short, "VadNode", "LeftChild");
        let starting_vpn = optional(&structs.mmvad_short, "StartingVpn");
        let ending_vpn = optional(&structs.mmvad_short, "EndingVpn");
        let starting_vpn_high = optional(&structs.mmvad_short, "StartingVpnHigh");
        let ending_vpn_high = optional(&structs.mmvad_short, "EndingVpnHigh");
        let u = optional(&structs.mmvad_short, "u");
        let protection_bit = match structs.mmvad_flags.find_field("Protection") {
            Some(f) => f.bit_offset as u32,
            None => 0,
        };

        Ok(
            Win32Offsets(
                Win32OffsetTable {
                    list_blink,
                    eproc_link,
                    phys_mem_block,
                    kproc_dtb,
                    eproc_pid,
                    eproc_name,
                    eproc_peb,
                    eproc_section_base,
                    eproc_exit_status,
                    eproc_thread_list,
                    eproc_wow64,
                    eproc_vad_root,
                    kthread_teb,
                    ethread_list_entry,
                    teb_peb,
                    teb_peb_x86,
                    mmvad: MmVadOffsetTable {
                        vad_node,
                        starting_vpn,
                        ending_vpn,
                        starting_vpn_high,
                        ending_vpn_high,
                        u,
                        protection_bit,
                    },
                },
            ),
        )
    }

    /// `_LIST_ENTRY::Blink`
    pub fn list_blink(&self) -> (r: usize)
        ensures
            r == self.0.list_blink,
    {
        self.0.list_blink as usize
    }

    /// `_EPROCESS::ActiveProcessLinks`
    pub fn eproc_link(&self) -> (r: usize)
        ensures
            r == self.0.eproc_link,
    {
        self.0.eproc_link as usize
    }

    /// Address of `MmPhysicalMemoryBlock` relative to the kernel base
    pub fn phys_mem_block(&self) -> (r: usize)
        ensures
            r == self.0.phys_mem_block,
    {
        self.0.phys_mem_block as usize
    }

    /// `_KPROCESS::DirectoryTableBase`
    pub fn kproc_dtb(&self) -> (r: usize)
        ensures
            r == self.0.kproc_dtb,
    {
        self.0.kproc_dtb as usize
    }

    /// `_EPROCESS::UniqueProcessId`
    pub fn eproc_pid(&self) -> (r: usize)
        ensures
            r == self.0.eproc_pid,
    {
        self.0.eproc_pid as usize
    }

    /// `_EPROCESS::ImageFileName`
    pub fn eproc_name(&self) -> (r: usize)
        ensures
            r == self.0.eproc_name,
    {
        self.0.eproc_name as usize
    }

    /// `_EPROCESS::Peb`
    pub fn eproc_peb(&self) -> (r: usize)
        ensures
            r == self.0.eproc_peb,
    {
        self.0.eproc_peb as usize
    }

    /// `_EPROCESS::SectionBaseAddress`
    pub fn eproc_section_base(&self) -> (r: usize)
        ensures
            r == self.0.eproc_section_base,
    {
        self.0.eproc_section_base as usize
    }

    /// `_EPROCESS::ExitStatus`
    pub fn eproc_exit_status(&self) -> (r: usize)
        ensures
            r == self.0.eproc_exit_status,
    {
        self.0.eproc_exit_status as usize
    }

    /// `_EPROCESS::ThreadListHead`
    pub fn eproc_thread_list(&self) -> (r: usize)
        ensures
            r == self.0.eproc_thread_list,
    {
        self.0.eproc_thread_list as usize
    }

    /// `_EPROCESS::WoW64Process`, zero where the build has none
    pub fn eproc_wow64(&self) -> (r: usize)
        ensures
            r == self.0.eproc_wow64,
    {
        self.0.eproc_wow64 as usize
    }

    /// `_EPROCESS::VadRoot`
    pub fn eproc_vad_root(&self) -> (r: usize)
        ensures
            r == self.0.eproc_vad_root,
    {
        self.0.eproc_vad_root as usize
    }

    /// `_KTHREAD::Teb`
    pub fn kthread_teb(&self) -> (r: usize)
        ensures
            r == self.0.kthread_teb,
    {
        self.0.kthread_teb as usize
    }

    /// `_ETHREAD::ThreadListEntry`
    pub fn ethread_list_entry(&self) -> (r: usize)
        ensures
            r == self.0.ethread_list_entry,
    {
        self.0.ethread_list_entry as usize
    }

    /// `_TEB::ProcessEnvironmentBlock`
    pub fn teb_peb(&self) -> (r: usize)
        ensures
            r == self.0.teb_peb,
    {
        self.0.teb_peb as usize
    }

    /// `_TEB32::ProcessEnvironmentBlock`, zero where the build has no `_TEB32`
    pub fn teb_peb_x86(&self) -> (r: usize)
        ensures
            r == self.0.teb_peb_x86,
    {
        self.0.teb_peb_x86 as usize
    }

    /// A builder that knows nothing yet and asks the default symbol store.
    pub fn builder<'a>() -> (r: Win32OffsetBuilder<'a>)
        ensures
            r.store() matches Some(store) && crate::offsets::symstore::is_default_store(store),
            r.spec_guid() is None,
            r.spec_winver() is None,
            r.spec_arch() is None,
            r.list() is None,
    {
        Win32OffsetBuilder::default()
    }

    /// Offsets inside `_MMVAD_SHORT` and `_MMVAD_FLAGS`.
    pub fn mm_vad(&self) -> (r: MmVadOffsetTable)
        ensures
            r == self.0.mmvad,
    {
        self.0.mmvad
    }
}

/// Whether the offsets that every build has are all different from zero.
pub open spec fn required_populated(table: Win32OffsetTable) -> bool {
    &&& table.list_blink != 0
    &&& table.eproc_link != 0
    &&& table.kproc_dtb != 0
    &&& table.eproc_pid != 0
    &&& table.eproc_name != 0
    &&& table.eproc_peb != 0
    &&& table.eproc_section_base != 0
    &&& table.eproc_exit_status != 0
    &&& table.eproc_thread_list != 0
    &&& table.eproc_vad_root != 0
    &&& table.kthread_teb != 0
    &&& table.ethread_list_entry != 0
    &&& table.teb_peb != 0
}

/// Whether the member `name` of `layout` lies behind the start of its structure.
pub open spec fn behind_start(layout: Map<Seq<char>, PdbField>, name: Seq<char>) -> bool {
    lookup(layout, name) matches Some(field) && field.offset != 0
}

/// Whether the members that every build has all lie behind the start of their structures.
pub open spec fn required_behind_start(layouts: KernelLayouts) -> bool {
    &&& behind_start(layouts.list_entry, "Blink"@)
    &&& behind_start(layouts.eprocess, "ActiveProcessLinks"@)
    &&& behind_start(layouts.kprocess, "DirectoryTableBase"@)
    &&& behind_start(layouts.eprocess, "UniqueProcessId"@)
    &&& behind_start(layouts.eprocess, "ImageFileName"@)
    &&& behind_start(layouts.eprocess, "Peb"@)
    &&& behind_start(layouts.eprocess, "SectionBaseAddress"@)
    &&& behind_start(layouts.eprocess, "ExitStatus"@)
    &&& behind_start(layouts.eprocess, "ThreadListHead"@)
    &&& behind_start(layouts.eprocess, "VadRoot"@)
    &&& behind_start(layouts.kthread, "Teb"@)
    &&& behind_start(layouts.ethread, "ThreadListEntry"@)
    &&& behind_start(layouts.teb, "ProcessEnvironmentBlock"@)
}

/// Where no member that every build has is the first of its structure, the
/// offsets that every build has are all different from zero, and no member
/// is reported missing.
pub proof fn lemma_required_offsets_populated(layouts: KernelLayouts, symbols: Map<Seq<char>, u32>)
    requires
        required_behind_start(layouts),
        layouts.teb32 matches Some(teb32) ==> lookup(teb32, "ProcessEnvironmentBlock"@) is Some,
    ensures
        layouts.first_missing() is None,
        required_populated(layouts.table(symbols)),
{
}

/// The sizes in bytes of the kernel structures that hold a member which every build has.
pub struct KernelSizes {
    pub list_entry: u64,
    pub kprocess: u64,
    pub eprocess: u64,
    pub ethread: u64,
    pub kthread: u64,
    pub teb: u64,
}

/// The sizes of the kernel structures as the records `types` give them;
/// zero for a structure that they do not define.
pub open spec fn sizes_of(types: Seq<PdbTypeRecord>) -> KernelSizes {
    KernelSizes {
        list_entry: size_or_zero(types, "_LIST_ENTRY"@),
        kprocess: size_or_zero(types, "_KPROCESS"@),
        eprocess: size_or_zero(types, "_EPROCESS"@),
        ethread: size_or_zero(types, "_ETHREAD"@),
        kthread: size_or_zero(types, "_KTHREAD"@),
        teb: size_or_zero(types, "_TEB"@),
    }
}

/// The size of the structure called `name`, zero where `types` do not define it.
pub open spec fn size_or_zero(types: Seq<PdbTypeRecord>, name: Seq<char>) -> u64 {
    match struct_size(types, name) {
        Some(size) => size,
        None => 0,
    }
}

/// Whether every member of these structures starts inside its structure.
pub open spec fn laid_out_inside(layouts: KernelLayouts, sizes: KernelSizes) -> bool {
    &&& members_inside(layouts.list_entry, sizes.list_entry)
    &&& members_inside(layouts.kprocess, sizes.kprocess)
    &&& members_inside(layouts.eprocess, sizes.eprocess)
    &&& members_inside(layouts.ethread, sizes.ethread)
    &&& members_inside(layouts.kthread, sizes.kthread)
    &&& members_inside(layouts.teb, sizes.teb)
}

/// Whether each offset that every build has is smaller than the size of its structure.
pub open spec fn required_inside(table: Win32OffsetTable, sizes: KernelSizes) -> bool {
    &&& table.list_blink < sizes.list_entry
    &&& table.eproc_link < sizes.eprocess
    &&& table.kproc_dtb < sizes.kprocess
    &&& table.eproc_pid < sizes.eprocess
    &&& table.eproc_name < sizes.eprocess
    &&& table.eproc_peb < sizes.eprocess
    &&& table.eproc_section_base < sizes.eprocess
    &&& table.eproc_exit_status < sizes.eprocess
    &&& table.eproc_thread_list < sizes.eprocess
    &&& table.eproc_vad_root < sizes.eprocess
    &&& table.kthread_teb < sizes.kthread
    &&& table.ethread_list_entry < sizes.ethread
    &&& table.teb_peb < sizes.teb
}

/// Where a database lays the members of each structure out inside the
/// structure, every offset that is resolved from it and that every build
/// has is smaller than the size of its structure.
pub proof fn lemma_required_offsets_inside(
    symbols: PdbSymbolStream,
    types: Seq<PdbTypeRecord>,
    table: Win32OffsetTable,
)
    requires
        offsets_of(Some(symbols), Some(types)) == Ok::<_, Seq<char>>(table),
        laid_out_inside(layouts_of(types), sizes_of(types)),
    ensures
        required_inside(table, sizes_of(types)),
{
    let layouts = layouts_of(types);
    assert(layouts.first_missing() is None);
    assert(layouts.list_entry.contains_key("Blink"@));
    assert(layouts.eprocess.contains_key("ActiveProcessLinks"@));
    assert(layouts.kprocess.contains_key("DirectoryTableBase"@));
    assert(layouts.eprocess.contains_key("UniqueProcessId"@));
    assert(layouts.eprocess.contains_key("ImageFileName"@));
    assert(layouts.eprocess.contains_key("Peb"@));
    assert(layouts.eprocess.contains_key("SectionBaseAddress"@));
    assert(layouts.eprocess.contains_key("ExitStatus"@));
    assert(layouts.eprocess.contains_key("ThreadListHead"@));
    assert(layouts.eprocess.contains_key("VadRoot"@));
    assert(layouts.kthread.contains_key("Teb"@));
    assert(layouts.ethread.contains_key("ThreadListEntry"@));
    assert(layouts.teb.contains_key("ProcessEnvironmentBlock"@));
}

/// A member that older builds lack, and a symbol that a build lacks, is never
/// reported missing: whether a table results depends on the required members alone.
pub proof fn lemma_optional_members_never_fail(layouts: KernelLayouts, other: KernelLayouts)
    requires
        other == (KernelLayouts { mmvad_short: other.mmvad_short, mmvad_flags: other.mmvad_flags, ..layouts }),
    ensures
        other.first_missing() == layouts.first_missing(),
{
}

} // verus!
