//! The persisted form of an offset table: a flat mapping from the names of
//! its fields to their values.

use crate::error::{Error, ErrorKind};
use crate::offsets::offset_table::{
    MmVadOffsetTable, Win32OffsetFile, Win32OffsetHeader, Win32OffsetTable,
    Win32OffsetsArchitecture,
};
use vstd::prelude::*;

verus! {

/// The fields of an offset file. The fields of the header come first, then
/// those of the table, then those of the nested table.
#[derive(Clone, Copy, Debug, PartialEq, Eq, Structural)]
pub enum OffsetKey {
    /// `header.pdb_file_name`
    PdbFileName,
    /// `header.pdb_guid`
    PdbGuid,
    /// `header.nt_major_version`
    NtMajorVersion,
    /// `header.nt_minor_version`
    NtMinorVersion,
    /// `header.nt_build_number`
    NtBuildNumber,
    /// `header.arch`
    Arch,
    /// `offsets.list_blink`
    ListBlink,
    /// `offsets.eproc_link`
    EprocLink,
    /// `offsets.phys_mem_block`
    PhysMemBlock,
    /// `offsets.kproc_dtb`
    KprocDtb,
    /// `offsets.eproc_pid`
    EprocPid,
    /// `offsets.eproc_name`
    EprocName,
    /// `offsets.eproc_peb`
    EprocPeb,
    /// `offsets.eproc_section_base`
    EprocSectionBase,
    /// `offsets.eproc_exit_status`
    EprocExitStatus,
    /// `offsets.eproc_thread_list`
    EprocThreadList,
    /// `offsets.eproc_wow64`
    EprocWow64,
    /// `offsets.eproc_vad_root`
    EprocVadRoot,
    /// `offsets.kthread_teb`
    KthreadTeb,
    /// `offsets.ethread_list_entry`
    EthreadListEntry,
    /// `offsets.teb_peb`
    TebPeb,
    /// `offsets.teb_peb_x86`
    TebPebX86,
    /// `offsets.mmvad.vad_node`
    MmvadVadNode,
    /// `offsets.mmvad.starting_vpn`
    MmvadStartingVpn,
    /// `offsets.mmvad.ending_vpn`
    MmvadEndingVpn,
    /// `offsets.mmvad.starting_vpn_high`
    MmvadStartingVpnHigh,
    /// `offsets.mmvad.ending_vpn_high`
    MmvadEndingVpnHigh,
    /// `offsets.mmvad.u`
    MmvadU,
    /// `offsets.mmvad.protection_bit`
    MmvadProtectionBit,
}

impl OffsetKey {
    /// The name under which the field is written.
    pub fn name(&self) -> (r: &'static str)
        ensures
            r@ == self.spec_name(),
    {
        match self {
            OffsetKey::PdbFileName => "header.pdb_file_name",
            OffsetKey::PdbGuid => "header.pdb_guid",
            OffsetKey::NtMajorVersion => "header.nt_major_version",
            OffsetKey::NtMinorVersion => "header.nt_minor_version",
            OffsetKey::NtBuildNumber => "header.nt_build_number",
            OffsetKey::Arch => "header.arch",
            OffsetKey::ListBlink => "offsets.list_blink",
            OffsetKey::EprocLink => "offsets.eproc_link",
            OffsetKey::PhysMemBlock => "offsets.phys_mem_block",
            OffsetKey::KprocDtb => "offsets.kproc_dtb",
            OffsetKey::EprocPid => "offsets.eproc_pid",
            OffsetKey::EprocName => "offsets.eproc_name",
            OffsetKey::EprocPeb => "offsets.eproc_peb",
            OffsetKey::EprocSectionBase => "offsets.eproc_section_base",
            OffsetKey::EprocExitStatus => "offsets.eproc_exit_status",
            OffsetKey::EprocThreadList => "offsets.eproc_thread_list",
            OffsetKey::EprocWow64 => "offsets.eproc_wow64",
            OffsetKey::EprocVadRoot => "offsets.eproc_vad_root",
            OffsetKey::KthreadTeb => "offsets.kthread_teb",
            OffsetKey::EthreadListEntry => "offsets.ethread_list_entry",
            OffsetKey::TebPeb => "offsets.teb_peb",
            OffsetKey::TebPebX86 => "offsets.teb_peb_x86",
            OffsetKey::MmvadVadNode => "offsets.mmvad.vad_node",
            OffsetKey::MmvadStartingVpn => "offsets.mmvad.starting_vpn",
            OffsetKey::MmvadEndingVpn => "offsets.mmvad.ending_vpn",
            OffsetKey::MmvadStartingVpnHigh => "offsets.mmvad.starting_vpn_high",
            OffsetKey::MmvadEndingVpnHigh => "offsets.mmvad.ending_vpn_high",
            OffsetKey::MmvadU => "offsets.mmvad.u",
            OffsetKey::MmvadProtectionBit => "offsets.mmvad.protection_bit",
        }
    }

    /// The name under which the field is written.
    pub open spec fn spec_name(&self) -> Seq<char> {
        match *self {
            OffsetKey::PdbFileName => "header.pdb_file_name"@,
            OffsetKey::PdbGuid => "header.pdb_guid"@,
            OffsetKey::NtMajorVersion => "header.nt_major_version"@,
            OffsetKey::NtMinorVersion => "header.nt_minor_version"@,
            OffsetKey::NtBuildNumber => "header.nt_build_number"@,
            OffsetKey::Arch => "header.arch"@,
            OffsetKey::ListBlink => "offsets.list_blink"@,
            OffsetKey::EprocLink => "offsets.eproc_link"@,
            OffsetKey::PhysMemBlock => "offsets.phys_mem_block"@,
            OffsetKey::KprocDtb => "offsets.kproc_dtb"@,
            OffsetKey::EprocPid => "offsets.eproc_pid"@,
            OffsetKey::EprocName => "offsets.eproc_name"@,
            OffsetKey::EprocPeb => "offsets.eproc_peb"@,
            OffsetKey::EprocSectionBase => "offsets.eproc_section_base"@,
            OffsetKey::EprocExitStatus => "offsets.eproc_exit_status"@,
            OffsetKey::EprocThreadList => "offsets.eproc_thread_list"@,
            OffsetKey::EprocWow64 => "offsets.eproc_wow64"@,
            OffsetKey::EprocVadRoot => "offsets.eproc_vad_root"@,
            OffsetKey::KthreadTeb => "offsets.kthread_teb"@,
            OffsetKey::EthreadListEntry => "offsets.ethread_list_entry"@,
            OffsetKey::TebPeb => "offsets.teb_peb"@,
            OffsetKey::TebPebX86 => "offsets.teb_peb_x86"@,
            OffsetKey::MmvadVadNode => "offsets.mmvad.vad_node"@,
            OffsetKey::MmvadStartingVpn => "offsets.mmvad.starting_vpn"@,
            OffsetKey::MmvadEndingVpn => "offsets.mmvad.ending_vpn"@,
            OffsetKey::MmvadStartingVpnHigh => "offsets.mmvad.starting_vpn_high"@,
            OffsetKey::MmvadEndingVpnHigh => "offsets.mmvad.ending_vpn_high"@,
            OffsetKey::MmvadU => "offsets.mmvad.u"@,
            OffsetKey::MmvadProtectionBit => "offsets.mmvad.protection_bit"@,
        }
    }
}

/// The value of a field.
#[derive(Debug)]
pub enum OffsetValue {
    Number(u32),
    Text(String),
    Arch(Win32OffsetsArchitecture),
}

/// What an offset file says, with its texts as sequences of characters.
pub struct OffsetFileView {
    pub pdb_file_name: Seq<char>,
    pub pdb_guid: Seq<char>,
    pub nt_major_version: u32,
    pub nt_minor_version: u32,
    pub nt_build_number: u32,
    pub arch: Win32OffsetsArchitecture,
    pub offsets: Win32OffsetTable,
}

impl View for Win32OffsetFile {
    type V = OffsetFileView;

    open spec fn view(&self) -> OffsetFileView {
        OffsetFileView {
            pdb_file_name: self.header.pdb_file_name@,
            pdb_guid: self.header.pdb_guid@,
            nt_major_version: self.header.nt_major_version,
            nt_minor_version: self.header.nt_minor_version,
            nt_build_number: self.header.nt_build_number,
            arch: self.header.arch,
            offsets: self.offsets,
        }
    }
}

/// The value of the first of `entries` from `from` on that belongs to `key`.
pub open spec fn value_at(entries: Seq<(OffsetKey, OffsetValue)>, key: OffsetKey, from: int) -> Option<
    OffsetValue,
>
    decreases entries.len() - from,
{
    if from < 0 || from >= entries.len() {
        None
    } else if entries[from].0 == key {
        Some(entries[from].1)
    } else {
        value_at(entries, key, from + 1)
    }
}

/// The number that `entries` give for `key`.
pub open spec fn number_at(entries: Seq<(OffsetKey, OffsetValue)>, key: OffsetKey) -> Option<u32> {
    match value_at(entries, key, 0) {
        Some(OffsetValue::Number(n)) => Some(n),
        _ => None,
    }
}

/// The text that `entries` give for `key`.
pub open spec fn text_at(entries: Seq<(OffsetKey, OffsetValue)>, key: OffsetKey) -> Option<
    Seq<char>,
> {
    match value_at(entries, key, 0) {
        Some(OffsetValue::Text(text)) => Some(text@),
        _ => None,
    }
}

/// The architecture that `entries` give for `key`.
pub open spec fn arch_at(entries: Seq<(OffsetKey, OffsetValue)>, key: OffsetKey) -> Option<
    Win32OffsetsArchitecture,
> {
    match value_at(entries, key, 0) {
        Some(OffsetValue::Arch(arch)) => Some(arch),
        _ => None,
    }
}

/// Whether `entries` are the fields of `file` in their order.
pub open spec fn encodes(entries: Seq<(OffsetKey, OffsetValue)>, file: OffsetFileView) -> bool {
    &&& entries.len() == 29
    &&& entries[0].0 == OffsetKey::PdbFileName
    &&& (entries[0].1 matches OffsetValue::Text(text) && text@ == file.pdb_file_name)
    &&& entries[1].0 == OffsetKey::PdbGuid
    &&& (entries[1].1 matches OffsetValue::Text(text) && text@ == file.pdb_guid)
    &&& entries[2] == (OffsetKey::NtMajorVersion, OffsetValue::Number(file.nt_major_version))
    &&& entries[3] == (OffsetKey::NtMinorVersion, OffsetValue::Number(file.nt_minor_version))
    &&& entries[4] == (OffsetKey::NtBuildNumber, OffsetValue::Number(file.nt_build_number))
    &&& entries[5] == (OffsetKey::Arch, OffsetValue::Arch(file.arch))
    &&& entries[6] == (OffsetKey::ListBlink, OffsetValue::Number(file.offsets.list_blink))
    &&& entries[7] == (OffsetKey::EprocLink, OffsetValue::Number(file.offsets.eproc_link))
    &&& entries[8] == (OffsetKey::PhysMemBlock, OffsetValue::Number(file.offsets.phys_mem_block))
    &&& entries[9] == (OffsetKey::KprocDtb, OffsetValue::Number(file.offsets.kproc_dtb))
    &&& entries[10] == (OffsetKey::EprocPid, OffsetValue::Number(file.offsets.eproc_pid))
    &&& entries[11] == (OffsetKey::EprocName, OffsetValue::Number(file.offsets.eproc_name))
    &&& entries[12] == (OffsetKey::EprocPeb, OffsetValue::Number(file.offsets.eproc_peb))
    &&& entries[13] == (OffsetKey::EprocSectionBase, OffsetValue::Number(file.offsets.eproc_section_base))
    &&& entries[14] == (OffsetKey::EprocExitStatus, OffsetValue::Number(file.offsets.eproc_exit_status))
    &&& entries[15] == (OffsetKey::EprocThreadList, OffsetValue::Number(file.offsets.eproc_thread_list))
    &&& entries[16] == (OffsetKey::EprocWow64, OffsetValue::Number(file.offsets.eproc_wow64))
    &&& entries[17] == (OffsetKey::EprocVadRoot, OffsetValue::Number(file.offsets.eproc_vad_root))
    &&& entries[18] == (OffsetKey::KthreadTeb, OffsetValue::Number(file.offsets.kthread_teb))
    &&& entries[19] == (OffsetKey::EthreadListEntry, OffsetValue::Number(file.offsets.ethread_list_entry))
    &&& entries[20] == (OffsetKey::TebPeb, OffsetValue::Number(file.offsets.teb_peb))
    &&& entries[21] == (OffsetKey::TebPebX86, OffsetValue::Number(file.offsets.teb_peb_x86))
    &&& entries[22] == (OffsetKey::MmvadVadNode, OffsetValue::Number(file.offsets.mmvad.vad_node))
    &&& entries[23] == (OffsetKey::MmvadStartingVpn, OffsetValue::Number(file.offsets.mmvad.starting_vpn))
    &&& entries[24] == (OffsetKey::MmvadEndingVpn, OffsetValue::Number(file.offsets.mmvad.ending_vpn))
    &&& entries[25] == (OffsetKey::MmvadStartingVpnHigh, OffsetValue::Number(file.offsets.mmvad.starting_vpn_high))
    &&& entries[26] == (OffsetKey::MmvadEndingVpnHigh, OffsetValue::Number(file.offsets.mmvad.ending_vpn_high))
    &&& entries[27] == (OffsetKey::MmvadU, OffsetValue::Number(file.offsets.mmvad.u))
    &&& entries[28] == (OffsetKey::MmvadProtectionBit, OffsetValue::Number(file.offsets.mmvad.protection_bit))
}

/// The offset file that `entries` describe: every field has to be there
/// with a value of its kind. Where a field comes twice, the first one counts.
pub open spec fn decode(entries: Seq<(OffsetKey, OffsetValue)>) -> Option<OffsetFileView> {
    if {
        &&& text_at(entries, OffsetKey::PdbFileName) is Some
        &&& text_at(entries, OffsetKey::PdbGuid) is Some
        &&& number_at(entries, OffsetKey::NtMajorVersion) is Some
        &&& number_at(entries, OffsetKey::NtMinorVersion) is Some
        &&& number_at(entries, OffsetKey::NtBuildNumber) is Some
        &&& arch_at(entries, OffsetKey::Arch) is Some
        &&& number_at(entries, OffsetKey::ListBlink) is Some
        &&& number_at(entries, OffsetKey::EprocLink) is Some
        &&& number_at(entries, OffsetKey::PhysMemBlock) is Some
        &&& number_at(entries, OffsetKey::KprocDtb) is Some
        &&& number_at(entries, OffsetKey::EprocPid) is Some
        &&& number_at(entries, OffsetKey::EprocName) is Some
        &&& number_at(entries, OffsetKey::EprocPeb) is Some
        &&& number_at(entries, OffsetKey::EprocSectionBase) is Some
        &&& number_at(entries, OffsetKey::EprocExitStatus) is Some
        &&& number_at(entries, OffsetKey::EprocThreadList) is Some
        &&& number_at(entries, OffsetKey::EprocWow64) is Some
        &&& number_at(entries, OffsetKey::EprocVadRoot) is Some
        &&& number_at(entries, OffsetKey::KthreadTeb) is Some
        &&& number_at(entries, OffsetKey::EthreadListEntry) is Some
        &&& number_at(entries, OffsetKey::TebPeb) is Some
        &&& number_at(entries, OffsetKey::TebPebX86) is Some
        &&& number_at(entries, OffsetKey::MmvadVadNode) is Some
        &&& number_at(entries, OffsetKey::MmvadStartingVpn) is Some
        &&& number_at(entries, OffsetKey::MmvadEndingVpn) is Some
        &&& number_at(entries, OffsetKey::MmvadStartingVpnHigh) is Some
        &&& number_at(entries, OffsetKey::MmvadEndingVpnHigh) is Some
        &&& number_at(entries, OffsetKey::MmvadU) is Some
        &&& number_at(entries, OffsetKey::MmvadProtectionBit) is Some
    } {
        Some(
            OffsetFileView {
            pdb_file_name: text_at(entries, OffsetKey::PdbFileName)->0,
            pdb_guid: text_at(entries, OffsetKey::PdbGuid)->0,
            nt_major_version: number_at(entries, OffsetKey::NtMajorVersion)->0,
            nt_minor_version: number_at(entries, OffsetKey::NtMinorVersion)->0,
            nt_build_number: number_at(entries, OffsetKey::NtBuildNumber)->0,
            arch: arch_at(entries, OffsetKey::Arch)->0,
                offsets: Win32OffsetTable {
                list_blink: number_at(entries, OffsetKey::ListBlink)->0,
                eproc_link: number_at(entries, OffsetKey::EprocLink)->0,
                phys_mem_block: number_at(entries, OffsetKey::PhysMemBlock)->0,
                kproc_dtb: number_at(entries, OffsetKey::KprocDtb)->0,
                eproc_pid: number_at(entries, OffsetKey::EprocPid)->0,
                eproc_name: number_at(entries, OffsetKey::EprocName)->0,
                eproc_peb: number_at(entries, OffsetKey::EprocPeb)->0,
                eproc_section_base: number_at(entries, OffsetKey::EprocSectionBase)->0,
                eproc_exit_status: number_at(entries, OffsetKey::EprocExitStatus)->0,
                eproc_thread_list: number_at(entries, OffsetKey::EprocThreadList)->0,
                eproc_wow64: number_at(entries, OffsetKey::EprocWow64)->0,
                eproc_vad_root: number_at(entries, OffsetKey::EprocVadRoot)->0,
                kthread_teb: number_at(entries, OffsetKey::KthreadTeb)->0,
                ethread_list_entry: number_at(entries, OffsetKey::EthreadListEntry)->0,
                teb_peb: number_at(entries, OffsetKey::TebPeb)->0,
                teb_peb_x86: number_at(entries, OffsetKey::TebPebX86)->0,
                    mmvad: MmVadOffsetTable {
                    vad_node: number_at(entries, OffsetKey::MmvadVadNode)->0,
                    starting_vpn: number_at(entries, OffsetKey::MmvadStartingVpn)->0,
                    ending_vpn: number_at(entries, OffsetKey::MmvadEndingVpn)->0,
                    starting_vpn_high: number_at(entries, OffsetKey::MmvadStartingVpnHigh)->0,
                    ending_vpn_high: number_at(entries, OffsetKey::MmvadEndingVpnHigh)->0,
                    u: number_at(entries, OffsetKey::MmvadU)->0,
                    protection_bit: number_at(entries, OffsetKey::MmvadProtectionBit)->0,
                    },
                },
            },
        )
    } else {
        None
    }
}

fn find(entries: &Vec<(OffsetKey, OffsetValue)>, key: OffsetKey) -> (r: Option<usize>)
    ensures
        match r {
            Some(i) => i < entries@.len() && value_at(entries@, key, 0) == Some(entries@[i as int].1),
            None => value_at(entries@, key, 0) is None,
        },
{
    let mut i: usize = 0;
    while i < entries.len()
        invariant
            i <= entries.len(),
            value_at(entries@, key, 0) == value_at(entries@, key, i as int),
        decreases entries.len() - i,
    {
        if entries[i].0 == key {
            return Some(i);
        }
        i = i + 1;
    }
    None
}

fn number(entries: &Vec<(OffsetKey, OffsetValue)>, key: OffsetKey) -> (r: Result<u32, Error>)
    ensures
        match r {
            Ok(n) => number_at(entries@, key) == Some(n),
            Err(e) => e.kind == ErrorKind::Offset && number_at(entries@, key) is None,
        },
{
    match find(entries, key) {
        Some(i) => match &entries[i].1 {
            OffsetValue::Number(n) => Ok(*n),
            _ => Err(Error::new(ErrorKind::Offset, "a field of the offset file is no number")),
        },
        None => Err(Error::new(ErrorKind::Offset, "a field of the offset file is missing")),
    }
}

fn text(entries: &Vec<(OffsetKey, OffsetValue)>, key: OffsetKey) -> (r: Result<String, Error>)
    ensures
        match r {
            Ok(t) => text_at(entries@, key) == Some(t@),
            Err(e) => e.kind == ErrorKind::Offset && text_at(entries@, key) is None,
        },
{
    match find(entries, key) {
        Some(i) => match &entries[i].1 {
            OffsetValue::Text(t) => Ok(t.clone()),
            _ => Err(Error::new(ErrorKind::Offset, "a field of the offset file is no text")),
        },
        None => Err(Error::new(ErrorKind::Offset, "a field of the offset file is missing")),
    }
}

fn arch(entries: &Vec<(OffsetKey, OffsetValue)>, key: OffsetKey) -> (r: Result<
    Win32OffsetsArchitecture,
    Error,
>)
    ensures
        match r {
            Ok(a) => arch_at(entries@, key) == Some(a),
            Err(e) => e.kind == ErrorKind::Offset && arch_at(entries@, key) is None,
        },
{
    match find(entries, key) {
        Some(i) => match &entries[i].1 {
            OffsetValue::Arch(a) => Ok(*a),
            _ => Err(Error::new(ErrorKind::Offset, "a field of the offset file is no architecture")),
        },
        None => Err(Error::new(ErrorKind::Offset, "a field of the offset file is missing")),
    }
}

impl Win32OffsetFile {
    /// The fields of the file with their values, in the order in which they are written.
    pub fn to_entries(&self) -> (entries: Vec<(OffsetKey, OffsetValue)>)
        ensures
            encodes(entries@, self@),
    {
        let mut entries: Vec<(OffsetKey, OffsetValue)> = Vec::new();
        entries.push((OffsetKey::PdbFileName, OffsetValue::Text(self.header.pdb_file_name.clone())));
        entries.push((OffsetKey::PdbGuid, OffsetValue::Text(self.header.pdb_guid.clone())));
        entries.push((OffsetKey::NtMajorVersion, OffsetValue::Number(self.header.nt_major_version)));
        entries.push((OffsetKey::NtMinorVersion, OffsetValue::Number(self.header.nt_minor_version)));
        entries.push((OffsetKey::NtBuildNumber, OffsetValue::Number(self.header.nt_build_number)));
        entries.push((OffsetKey::Arch, OffsetValue::Arch(self.header.arch)));
        entries.push((OffsetKey::ListBlink, OffsetValue::Number(self.offsets.list_blink)));
        entries.push((OffsetKey::EprocLink, OffsetValue::Number(self.offsets.eproc_link)));
        entries.push((OffsetKey::PhysMemBlock, OffsetValue::Number(self.offsets.phys_mem_block)));
        entries.push((OffsetKey::KprocDtb, OffsetValue::Number(self.offsets.kproc_dtb)));
        entries.push((OffsetKey::EprocPid, OffsetValue::Number(self.offsets.eproc_pid)));
        entries.push((OffsetKey::EprocName, OffsetValue::Number(self.offsets.eproc_name)));
        entries.push((OffsetKey::EprocPeb, OffsetValue::Number(self.offsets.eproc_peb)));
        entries.push((OffsetKey::EprocSectionBase, OffsetValue::Number(self.offsets.eproc_section_base)));
        entries.push((OffsetKey::EprocExitStatus, OffsetValue::Number(self.offsets.eproc_exit_status)));
        entries.push((OffsetKey::EprocThreadList, OffsetValue::Number(self.offsets.eproc_thread_list)));
        entries.push((OffsetKey::EprocWow64, OffsetValue::Number(self.offsets.eproc_wow64)));
        entries.push((OffsetKey::EprocVadRoot, OffsetValue::Number(self.offsets.eproc_vad_root)));
        entries.push((OffsetKey::KthreadTeb, OffsetValue::Number(self.offsets.kthread_teb)));
        entries.push((OffsetKey::EthreadListEntry, OffsetValue::Number(self.offsets.ethread_list_entry)));
        entries.push((OffsetKey::TebPeb, OffsetValue::Number(self.offsets.teb_peb)));
        entries.push((OffsetKey::TebPebX86, OffsetValue::Number(self.offsets.teb_peb_x86)));
        entries.push((OffsetKey::MmvadVadNode, OffsetValue::Number(self.offsets.mmvad.vad_node)));
        entries.push((OffsetKey::MmvadStartingVpn, OffsetValue::Number(self.offsets.mmvad.starting_vpn)));
        entries.push((OffsetKey::MmvadEndingVpn, OffsetValue::Number(self.offsets.mmvad.ending_vpn)));
        entries.push((OffsetKey::MmvadStartingVpnHigh, OffsetValue::Number(self.offsets.mmvad.starting_vpn_high)));
        entries.push((OffsetKey::MmvadEndingVpnHigh, OffsetValue::Number(self.offsets.mmvad.ending_vpn_high)));
        entries.push((OffsetKey::MmvadU, OffsetValue::Number(self.offsets.mmvad.u)));
        entries.push((OffsetKey::MmvadProtectionBit, OffsetValue::Number(self.offsets.mmvad.protection_bit)));
        entries
    }

    /// The file that `entries` describe. Fails with [`ErrorKind::Offset`]
    /// where a field is missing or has a value of another kind.
    pub fn from_entries(entries: &Vec<(OffsetKey, OffsetValue)>) -> (r: Result<
        Win32OffsetFile,
        Error,
    >)
        ensures
            match r {
                Ok(file) => decode(entries@) == Some(file@),
                Err(e) => e.kind == ErrorKind::Offset && decode(entries@) is None,
            },
    {
        let pdb_file_name = text(entries, OffsetKey::PdbFileName)?;
        let pdb_guid = text(entries, OffsetKey::PdbGuid)?;
        let nt_major_version = number(entries, OffsetKey::NtMajorVersion)?;
        let nt_minor_version = number(entries, OffsetKey::NtMinorVersion)?;
        let nt_build_number = number(entries, OffsetKey::NtBuildNumber)?;
        let arch = arch(entries, OffsetKey::Arch)?;
        let list_blink = number(entries, OffsetKey::ListBlink)?;
        let eproc_link = number(entries, OffsetKey::EprocLink)?;
        let phys_mem_block = number(entries, OffsetKey::PhysMemBlock)?;
        let kproc_dtb = number(entries, OffsetKey::KprocDtb)?;
        let eproc_pid = number(entries, OffsetKey::EprocPid)?;
        let eproc_name = number(entries, OffsetKey::EprocName)?;
        let eproc_peb = number(entries, OffsetKey::EprocPeb)?;
        let eproc_section_base = number(entries, OffsetKey::EprocSectionBase)?;
        let eproc_exit_status = number(entries, OffsetKey::EprocExitStatus)?;
        let eproc_thread_list = number(entries, OffsetKey::EprocThreadList)?;
        let eproc_wow64 = number(entries, OffsetKey::EprocWow64)?;
        let eproc_vad_root = number(entries, OffsetKey::EprocVadRoot)?;
        let kthread_teb = number(entries, OffsetKey::KthreadTeb)?;
        let ethread_list_entry = number(entries, OffsetKey::EthreadListEntry)?;
        let teb_peb = number(entries, OffsetKey::TebPeb)?;
        let teb_peb_x86 = number(entries, OffsetKey::TebPebX86)?;
        let mmvad_vad_node = number(entries, OffsetKey::MmvadVadNode)?;
        let mmvad_starting_vpn = number(entries, OffsetKey::MmvadStartingVpn)?;
        let mmvad_ending_vpn = number(entries, OffsetKey::MmvadEndingVpn)?;
        let mmvad_starting_vpn_high = number(entries, OffsetKey::MmvadStartingVpnHigh)?;
        let mmvad_ending_vpn_high = number(entries, OffsetKey::MmvadEndingVpnHigh)?;
        let mmvad_u = number(entries, OffsetKey::MmvadU)?;
        let mmvad_protection_bit = number(entries, OffsetKey::MmvadProtectionBit)?;
        Ok(
            Win32OffsetFile {
                header: Win32OffsetHeader {
                    pdb_file_name,
                    pdb_guid,
                    nt_major_version,
                    nt_minor_version,
                    nt_build_number,
                    arch,
                },
                offsets: Win32OffsetTable {
                    list_blink,
                    eproc_link,
                    phys_mem_block,
                    kproc_dtb,
                    eproc_pid,
                    eproc_name,
                    eproc_peb,
                    eproc_section_base,
                    eproc_exit_status,
                    eproc_thread_list,
                    eproc_wow64,
                    eproc_vad_root,
                    kthread_teb,
                    ethread_list_entry,
                    teb_peb,
                    teb_peb_x86,
                    mmvad: MmVadOffsetTable {
                    vad_node: mmvad_vad_node,
                    starting_vpn: mmvad_starting_vpn,
                    ending_vpn: mmvad_ending_vpn,
                    starting_vpn_high: mmvad_starting_vpn_high,
                    ending_vpn_high: mmvad_ending_vpn_high,
                    u: mmvad_u,
                    protection_bit: mmvad_protection_bit,
                    },
                },
            },
        )
    }
}

/// The entry at position `at` is the one that a lookup of its key finds,
/// where no entry in front of it has the same key.
proof fn lemma_found_at(entries: Seq<(OffsetKey, OffsetValue)>, key: OffsetKey, at: int)
    requires
        0 <= at < entries.len(),
        entries[at].0 == key,
        forall|j: int| 0 <= j < at ==> entries[j].0 != key,
    ensures
        value_at(entries, key, 0) == Some(entries[at].1),
{
    lemma_found_from(entries, key, at, 0);
}

proof fn lemma_found_from(entries: Seq<(OffsetKey, OffsetValue)>, key: OffsetKey, at: int, from: int)
    requires
        0 <= from <= at < entries.len(),
        entries[at].0 == key,
        forall|j: int| from <= j < at ==> entries[j].0 != key,
    ensures
        value_at(entries, key, from) == Some(entries[at].1),
    decreases at - from,
{
    if from < at {
        lemma_found_from(entries, key, at, from + 1);
    }
}

/// Reading back what was written gives the file that was written: the
/// fields of a file, in their order, describe that file and no other.
pub proof fn lemma_entries_round_trip(entries: Seq<(OffsetKey, OffsetValue)>, file: OffsetFileView)
    requires
        encodes(entries, file),
    ensures
        decode(entries) == Some(file),
{
    lemma_found_at(entries, OffsetKey::PdbFileName, 0);
    lemma_found_at(entries, OffsetKey::PdbGuid, 1);
    lemma_found_at(entries, OffsetKey::NtMajorVersion, 2);
    lemma_found_at(entries, OffsetKey::NtMinorVersion, 3);
    lemma_found_at(entries, OffsetKey::NtBuildNumber, 4);
    lemma_found_at(entries, OffsetKey::Arch, 5);
    lemma_found_at(entries, OffsetKey::ListBlink, 6);
    lemma_found_at(entries, OffsetKey::EprocLink, 7);
    lemma_found_at(entries, OffsetKey::PhysMemBlock, 8);
    lemma_found_at(entries, OffsetKey::KprocDtb, 9);
    lemma_found_at(entries, OffsetKey::EprocPid, 10);
    lemma_found_at(entries, OffsetKey::EprocName, 11);
    lemma_found_at(entries, OffsetKey::EprocPeb, 12);
    lemma_found_at(entries, OffsetKey::EprocSectionBase, 13);
    lemma_found_at(entries, OffsetKey::EprocExitStatus, 14);
    lemma_found_at(entries, OffsetKey::EprocThreadList, 15);
    lemma_found_at(entries, OffsetKey::EprocWow64, 16);
    lemma_found_at(entries, OffsetKey::EprocVadRoot, 17);
    lemma_found_at(entries, OffsetKey::KthreadTeb, 18);
    lemma_found_at(entries, OffsetKey::EthreadListEntry, 19);
    lemma_found_at(entries, OffsetKey::TebPeb, 20);
    lemma_found_at(entries, OffsetKey::TebPebX86, 21);
    lemma_found_at(entries, OffsetKey::MmvadVadNode, 22);
    lemma_found_at(entries, OffsetKey::MmvadStartingVpn, 23);
    lemma_found_at(entries, OffsetKey::MmvadEndingVpn, 24);
    lemma_found_at(entries, OffsetKey::MmvadStartingVpnHigh, 25);
    lemma_found_at(entries, OffsetKey::MmvadEndingVpnHigh, 26);
    lemma_found_at(entries, OffsetKey::MmvadU, 27);
    lemma_found_at(entries, OffsetKey::MmvadProtectionBit, 28);
}

} // verus!
