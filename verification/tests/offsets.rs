use memflow_win32::architecture::Architecture;
use memflow_win32::error::ErrorKind;
use memflow_win32::kernel::{Win32Guid, Win32Version};
use memflow_win32::offsets::builder::{find_listed, Win32OffsetBuilder};
use memflow_win32::offsets::offset_table::{
    MmVadOffsetTable, Win32OffsetFile, Win32OffsetHeader, Win32OffsetTable,
    Win32OffsetsArchitecture,
};
use memflow_win32::offsets::pdb::{
    resolve_section_address, struct_byte_size, PdbField, PdbMember, PdbPublicSymbol, PdbReader, PdbStruct,
    PdbSymbolStream, PdbSymbols, PdbType, PdbTypeRecord,
};
use memflow_win32::offsets::symstore::{CacheRead, Download, SymbolBackend, SymbolStore};
use memflow_win32::offsets::{KernelStructs, Win32ArchOffsets, Win32Offsets};

fn layout(fields: &[(&str, u32)]) -> PdbStruct {
    let mut s = PdbStruct::empty();
    for (name, offset) in fields {
        s.insert(name, PdbField { offset: *offset, bit_offset: 0 });
    }
    s
}

fn eprocess_win7_x64() -> PdbStruct {
    layout(&[
        ("Pcb", 0),
        ("UniqueProcessId", 0x180),
        ("ActiveProcessLinks", 0x188),
        ("ExitStatus", 0x444),
        ("SectionBaseAddress", 0x270),
        ("ImageFileName", 0x2e0),
        ("ThreadListHead", 0x308),
        ("Wow64Process", 0x320),
        ("Peb", 0x338),
        ("VadRoot", 0x448),
    ])
}

fn win7_x64() -> KernelStructs {
    let mut flags = PdbStruct::empty();
    flags.insert("CommitCharge", PdbField { offset: 0, bit_offset: 0 });
    flags.insert("Protection", PdbField { offset: 0, bit_offset: 56 });
    KernelStructs {
        list_entry: layout(&[("Flink", 0), ("Blink", 8)]),
        kprocess: layout(&[("Header", 0), ("DirectoryTableBase", 0x28)]),
        eprocess: eprocess_win7_x64(),
        ethread: layout(&[("Tcb", 0), ("ThreadListEntry", 0x420)]),
        kthread: layout(&[("Header", 0), ("Teb", 0xb8)]),
        teb: layout(&[("NtTib", 0), ("ProcessEnvironmentBlock", 0x60)]),
        teb32: Some(layout(&[("NtTib", 0), ("ProcessEnvironmentBlock", 0x30)])),
        mmvad_short: layout(&[
            ("u1", 0),
            ("LeftChild", 8),
            ("RightChild", 0x10),
            ("StartingVpn", 0x18),
            ("EndingVpn", 0x20),
            ("u", 0x28),
        ]),
        mmvad_flags: flags,
    }
}

fn symbols() -> PdbSymbols {
    let mut s = PdbSymbols::empty();
    s.insert("PsInitialSystemProcess", 0x2210a0);
    s.insert("MmPhysicalMemoryBlock", 0x2bb2c8);
    s
}

fn win7_table() -> Win32OffsetTable {
    Win32OffsetTable {
        list_blink: 8,
        eproc_link: 0x188,
        phys_mem_block: 0x2bb2c8,
        kproc_dtb: 0x28,
        eproc_pid: 0x180,
        eproc_name: 0x2e0,
        eproc_peb: 0x338,
        eproc_section_base: 0x270,
        eproc_exit_status: 0x444,
        eproc_thread_list: 0x308,
        eproc_wow64: 0x320,
        eproc_vad_root: 0x448,
        kthread_teb: 0xb8,
        ethread_list_entry: 0x420,
        teb_peb: 0x60,
        teb_peb_x86: 0x30,
        mmvad: MmVadOffsetTable {
            vad_node: 8,
            starting_vpn: 0x18,
            ending_vpn: 0x20,
            starting_vpn_high: 0,
            ending_vpn_high: 0,
            u: 0x28,
            protection_bit: 56,
        },
    }
}

fn file(arch: Win32OffsetsArchitecture, version: (u32, u32, u32), guid: &str, pid: u32) -> Win32OffsetFile {
    let mut offsets = win7_table();
    offsets.eproc_pid = pid;
    Win32OffsetFile {
        header: Win32OffsetHeader {
            pdb_file_name: "ntkrnlmp.pdb".to_string(),
            pdb_guid: guid.to_string(),
            nt_major_version: version.0,
            nt_minor_version: version.1,
            nt_build_number: version.2,
            arch,
        },
        offsets,
    }
}

struct Offline;

impl SymbolBackend for Offline {
    fn cache_read(&mut self, _location: &Vec<String>) -> CacheRead {
        CacheRead::Miss
    }
    fn cache_write(&mut self, _location: &Vec<String>, _data: &Vec<u8>) -> bool {
        false
    }
    fn get(&mut self, _url: &str) -> Option<Download> {
        None
    }
}

impl PdbReader for Offline {
    fn read_symbols(&mut self, _pdb_slice: &[u8]) -> Option<PdbSymbolStream> {
        None
    }
    fn read_types(&mut self, _pdb_slice: &[u8]) -> Option<Vec<PdbTypeRecord>> {
        None
    }
}

/// A reader that finds the same records in whatever it is given.
struct Records;

impl PdbReader for Records {
    fn read_symbols(&mut self, _pdb_slice: &[u8]) -> Option<PdbSymbolStream> {
        Some(symbol_stream())
    }
    fn read_types(&mut self, _pdb_slice: &[u8]) -> Option<Vec<PdbTypeRecord>> {
        Some(type_stream())
    }
}

struct Garbage;

impl PdbReader for Garbage {
    fn read_symbols(&mut self, pdb_slice: &[u8]) -> Option<PdbSymbolStream> {
        assert_eq!(pdb_slice, &[1, 2, 3, 4]);
        None
    }
    fn read_types(&mut self, pdb_slice: &[u8]) -> Option<Vec<PdbTypeRecord>> {
        assert_eq!(pdb_slice, &[1, 2, 3, 4]);
        None
    }
}

impl SymbolBackend for Garbage {
    fn cache_read(&mut self, _location: &Vec<String>) -> CacheRead {
        CacheRead::Hit(vec![1, 2, 3, 4])
    }
    fn cache_write(&mut self, _location: &Vec<String>, _data: &Vec<u8>) -> bool {
        true
    }
    fn get(&mut self, _url: &str) -> Option<Download> {
        Some(Download { content_length: Some("4".to_string()), body: Some(vec![1, 2, 3, 4]) })
    }
}

#[test]
fn lookup_finds_members_and_symbols() {
    let s = eprocess_win7_x64();
    assert_eq!(s.find_field("UniqueProcessId"), Some(PdbField { offset: 0x180, bit_offset: 0 }));
    assert_eq!(s.find_field("Pcb"), Some(PdbField { offset: 0, bit_offset: 0 }));
    assert_eq!(s.find_field("uniqueprocessid"), None);
    assert_eq!(s.find_field(""), None);
    assert_eq!(PdbStruct::empty().find_field("Pcb"), None);
    let syms = symbols();
    assert_eq!(syms.find_symbol("MmPhysicalMemoryBlock"), Some(0x2bb2c8));
    assert_eq!(syms.find_symbol("_MmPhysicalMemoryBlock"), None);
    assert_eq!(PdbSymbols::empty().find_symbol("x"), None);
}

#[test]
fn a_later_entry_replaces_an_earlier_one() {
    let mut s = layout(&[("a", 1), ("b", 2)]);
    s.insert("a", PdbField { offset: 9, bit_offset: 3 });
    assert_eq!(s.find_field("a"), Some(PdbField { offset: 9, bit_offset: 3 }));
    assert_eq!(s.find_field("b"), Some(PdbField { offset: 2, bit_offset: 0 }));
    let mut syms = PdbSymbols::empty();
    syms.insert("x", 1);
    syms.insert("x", 2);
    assert_eq!(syms.find_symbol("x"), Some(2));
}

#[test]
fn win7_x64_offsets_are_resolved() {
    let offsets = Win32Offsets::from_structs(&symbols(), &win7_x64()).unwrap();
    assert_eq!(offsets.0, win7_table());
    assert_eq!(offsets.eproc_pid(), 0x180);
    assert_eq!(offsets.kproc_dtb(), 0x28);
}

#[test]
fn required_offsets_of_a_real_layout_are_populated() {
    let t = Win32Offsets::from_structs(&symbols(), &win7_x64()).unwrap().0;
    let required = [
        t.list_blink,
        t.eproc_link,
        t.kproc_dtb,
        t.eproc_pid,
        t.eproc_name,
        t.eproc_peb,
        t.eproc_section_base,
        t.eproc_exit_status,
        t.eproc_thread_list,
        t.eproc_vad_root,
        t.kthread_teb,
        t.ethread_list_entry,
        t.teb_peb,
    ];
    assert!(required.iter().all(|offset| *offset != 0));
    // A member at the start of its structure is resolved to zero, and that is no error.
    let mut structs = win7_x64();
    structs.kprocess = layout(&[("DirectoryTableBase", 0)]);
    assert_eq!(Win32Offsets::from_structs(&symbols(), &structs).unwrap().kproc_dtb(), 0);
}

#[test]
fn getters_return_the_fields() {
    let o = Win32Offsets(win7_table());
    assert_eq!(o.list_blink(), 8);
    assert_eq!(o.eproc_link(), 0x188);
    assert_eq!(o.phys_mem_block(), 0x2bb2c8);
    assert_eq!(o.kproc_dtb(), 0x28);
    assert_eq!(o.eproc_pid(), 0x180);
    assert_eq!(o.eproc_name(), 0x2e0);
    assert_eq!(o.eproc_peb(), 0x338);
    assert_eq!(o.eproc_section_base(), 0x270);
    assert_eq!(o.eproc_exit_status(), 0x444);
    assert_eq!(o.eproc_thread_list(), 0x308);
    assert_eq!(o.eproc_wow64(), 0x320);
    assert_eq!(o.eproc_vad_root(), 0x448);
    assert_eq!(o.kthread_teb(), 0xb8);
    assert_eq!(o.ethread_list_entry(), 0x420);
    assert_eq!(o.teb_peb(), 0x60);
    assert_eq!(o.teb_peb_x86(), 0x30);
    assert_eq!(o.mm_vad(), win7_table().mmvad);
    assert_eq!(Win32OffsetTable::from(o), win7_table());
    assert_eq!(Win32Offsets::from(win7_table()), o);
}

#[test]
fn a_32_bit_kernel_has_no_wow64_and_no_teb32() {
    let mut structs = win7_x64();
    structs.eprocess = layout(&[
        ("UniqueProcessId", 0xb4),
        ("ActiveProcessLinks", 0xb8),
        ("ExitStatus", 0x274),
        ("SectionBaseAddress", 0x12c),
        ("ImageFileName", 0x16c),
        ("ThreadListHead", 0x188),
        ("Peb", 0x1a8),
        ("VadRoot", 0x278),
    ]);
    structs.teb32 = None;
    structs.list_entry = layout(&[("Flink", 0), ("Blink", 4)]);
    let offsets = Win32Offsets::from_structs(&PdbSymbols::empty(), &structs).unwrap();
    assert_eq!(offsets.0.eproc_wow64, 0);
    assert_eq!(offsets.0.teb_peb_x86, 0);
    assert_eq!(offsets.0.phys_mem_block, 0);
    assert_eq!(offsets.0.list_blink, 4);
    assert_eq!(offsets.0.eproc_pid, 0xb4);
}

#[test]
fn renamed_members_are_found_under_either_name() {
    // Newer builds spell the member with a capital W and keep the node in a member of its own.
    let mut structs = win7_x64();
    structs.eprocess.insert("WoW64Process", PdbField { offset: 0x428, bit_offset: 0 });
    structs.mmvad_short = layout(&[
        ("LeftChild", 8),
        ("VadNode", 0x10),
        ("StartingVpn", 0x18),
        ("EndingVpn", 0x1c),
        ("StartingVpnHigh", 0x20),
        ("EndingVpnHigh", 0x21),
    ]);
    let offsets = Win32Offsets::from_structs(&symbols(), &structs).unwrap();
    assert_eq!(offsets.0.eproc_wow64, 0x428);
    assert_eq!(offsets.0.mmvad.vad_node, 0x10);
    assert_eq!(offsets.0.mmvad.starting_vpn_high, 0x20);
    assert_eq!(offsets.0.mmvad.ending_vpn_high, 0x21);
    assert_eq!(offsets.0.mmvad.u, 0);
    // The older spelling alone is found as well.
    let offsets = Win32Offsets::from_structs(&symbols(), &win7_x64()).unwrap();
    assert_eq!(offsets.0.eproc_wow64, 0x320);
    assert_eq!(offsets.0.mmvad.vad_node, 8);
}

#[test]
fn the_symbol_may_carry_an_underscore() {
    let mut syms = PdbSymbols::empty();
    syms.insert("_MmPhysicalMemoryBlock", 0x1234);
    let offsets = Win32Offsets::from_structs(&syms, &win7_x64()).unwrap();
    assert_eq!(offsets.0.phys_mem_block, 0x1234);
    syms.insert("MmPhysicalMemoryBlock", 0x5678);
    let offsets = Win32Offsets::from_structs(&syms, &win7_x64()).unwrap();
    assert_eq!(offsets.0.phys_mem_block, 0x5678);
}

#[test]
fn optional_members_default_to_zero() {
    let mut structs = win7_x64();
    structs.mmvad_short = PdbStruct::empty();
    structs.mmvad_flags = PdbStruct::empty();
    let offsets = Win32Offsets::from_structs(&symbols(), &structs).unwrap();
    assert_eq!(
        offsets.0.mmvad,
        MmVadOffsetTable {
            vad_node: 0,
            starting_vpn: 0,
            ending_vpn: 0,
            starting_vpn_high: 0,
            ending_vpn_high: 0,
            u: 0,
            protection_bit: 0,
        }
    );
}

fn without(base: &[(&str, u32)], name: &str) -> PdbStruct {
    let kept: Vec<(&str, u32)> = base.iter().copied().filter(|(n, _)| *n != name).collect();
    layout(&kept)
}

#[test]
fn each_required_member_is_named_when_missing() {
    let eproc: Vec<(&str, u32)> = vec![
        ("UniqueProcessId", 0x180),
        ("ActiveProcessLinks", 0x188),
        ("ExitStatus", 0x444),
        ("SectionBaseAddress", 0x270),
        ("ImageFileName", 0x2e0),
        ("ThreadListHead", 0x308),
        ("Peb", 0x338),
        ("VadRoot", 0x448),
    ];
    for (member, _) in eproc.iter() {
        let mut structs = win7_x64();
        structs.eprocess = without(&eproc, member);
        let err = Win32Offsets::from_structs(&symbols(), &structs).unwrap_err();
        assert_eq!(err.kind, ErrorKind::Offset);
        assert_eq!(err.message, format!("_EPROCESS::{} not found", member));
        assert_eq!(err.to_string(), format!("_EPROCESS::{} not found", member));
    }
    let mut structs = win7_x64();
    structs.list_entry = PdbStruct::empty();
    let err = Win32Offsets::from_structs(&symbols(), &structs).unwrap_err();
    assert_eq!((err.kind, err.message), (ErrorKind::Offset, "_LIST_ENTRY::Blink not found"));
    let mut structs = win7_x64();
    structs.kprocess = PdbStruct::empty();
    let err = Win32Offsets::from_structs(&symbols(), &structs).unwrap_err();
    assert_eq!(err.message, "_KPROCESS::DirectoryTableBase not found");
    let mut structs = win7_x64();
    structs.kthread = PdbStruct::empty();
    assert_eq!(
        Win32Offsets::from_structs(&symbols(), &structs).unwrap_err().message,
        "_KTHREAD::Teb not found"
    );
    let mut structs = win7_x64();
    structs.ethread = PdbStruct::empty();
    assert_eq!(
        Win32Offsets::from_structs(&symbols(), &structs).unwrap_err().message,
        "_ETHREAD::ThreadListEntry not found"
    );
    let mut structs = win7_x64();
    structs.teb = PdbStruct::empty();
    assert_eq!(
        Win32Offsets::from_structs(&symbols(), &structs).unwrap_err().message,
        "_TEB::ProcessEnvironmentBlock not found"
    );
    let mut structs = win7_x64();
    structs.teb32 = Some(PdbStruct::empty());
    assert_eq!(
        Win32Offsets::from_structs(&symbols(), &structs).unwrap_err().message,
        "_TEB32::ProcessEnvironmentBlock not found"
    );
}

#[test]
fn the_first_missing_member_is_reported() {
    let mut structs = win7_x64();
    structs.list_entry = PdbStruct::empty();
    structs.eprocess = PdbStruct::empty();
    structs.teb = PdbStruct::empty();
    let err = Win32Offsets::from_structs(&symbols(), &structs).unwrap_err();
    assert_eq!(err.message, "_LIST_ENTRY::Blink not found");
    let mut structs = win7_x64();
    structs.eprocess = PdbStruct::empty();
    structs.kprocess = PdbStruct::empty();
    let err = Win32Offsets::from_structs(&symbols(), &structs).unwrap_err();
    assert_eq!(err.message, "_EPROCESS::ActiveProcessLinks not found");
}

fn class(index: u32, name: &str, forward_reference: bool, fields: Option<u32>) -> PdbTypeRecord {
    PdbTypeRecord {
        index,
        data: PdbType::Class { name: name.to_string(), forward_reference, fields, size: 0x4d0 },
    }
}

fn member(name: &str, offset: u64, field_type: u32) -> Option<PdbMember> {
    Some(PdbMember { name: name.to_string(), offset, field_type })
}

fn list(index: u32, entries: Vec<Option<PdbMember>>, continuation: Option<u32>) -> PdbTypeRecord {
    PdbTypeRecord { index, data: PdbType::FieldList { entries, continuation } }
}

fn type_stream() -> Vec<PdbTypeRecord> {
    let mut types = vec![
        class(0x1000, "_EPROCESS", true, None),
        PdbTypeRecord { index: 0x1001, data: PdbType::Bitfield { position: 56 } },
        list(0x1002, vec![member("Flink", 0, 0x1000), None, member("Blink", 8, 0x1000)], None),
        class(0x1003, "_LIST_ENTRY", false, Some(0x1002)),
        list(
            0x1004,
            vec![
                member("UniqueProcessId", 0x180, 0x603),
                member("ActiveProcessLinks", 0x188, 0x1003),
                member("ExitStatus", 0x444, 0x74),
                member("SectionBaseAddress", 0x270, 0x603),
            ],
            Some(0x1005),
        ),
        list(
            0x1005,
            vec![
                member("ImageFileName", 0x2e0, 0x20),
                member("ThreadListHead", 0x308, 0x1003),
                member("Wow64Process", 0x320, 0x603),
                member("Peb", 0x338, 0x603),
                member("VadRoot", 0x448, 0x603),
            ],
            None,
        ),
        class(0x1006, "_EPROCESS", false, Some(0x1004)),
        list(0x1007, vec![member("DirectoryTableBase", 0x28, 0x23)], None),
        class(0x1008, "_KPROCESS", false, Some(0x1007)),
        list(0x1009, vec![member("ThreadListEntry", 0x420, 0x1003)], None),
        class(0x100a, "_ETHREAD", false, Some(0x1009)),
        list(0x100b, vec![member("Teb", 0xb8, 0x603)], None),
        class(0x100c, "_KTHREAD", false, Some(0x100b)),
        list(0x100d, vec![member("ProcessEnvironmentBlock", 0x60, 0x603)], None),
        class(0x100e, "_TEB", false, Some(0x100d)),
        list(
            0x100f,
            vec![member("LeftChild", 8, 0x603), member("StartingVpn", 0x18, 0x75), member("u", 0x28, 0x75)],
            None,
        ),
        class(0x1010, "_MMVAD_SHORT", false, Some(0x100f)),
        list(0x1011, vec![member("CommitCharge", 0, 0x1012), member("Protection", 0, 0x1001)], None),
        PdbTypeRecord { index: 0x1012, data: PdbType::Bitfield { position: 0 } },
        class(0x1013, "_MMVAD_FLAGS", false, Some(0x1011)),
    ];
    types.push(PdbTypeRecord { index: 0x1014, data: PdbType::Other });
    types
}

fn public(name: &str, section: u16, offset: u32) -> Option<PdbPublicSymbol> {
    Some(PdbPublicSymbol { name: name.to_string(), section, offset })
}

fn symbol_stream() -> PdbSymbolStream {
    PdbSymbolStream {
        sections: vec![0x1000, 0x2b_b000, 0xffff_f000],
        symbols: vec![
            None,
            public("KeBugCheck", 1, 0),
            public("MmPhysicalMemoryBlock", 2, 0x2c8),
            public("Unmapped", 5, 0x10),
            public("Nowhere", 0, 0x10),
            public("Beyond", 3, 0x1000),
            public("Last", 3, 0xfff),
            None,
        ],
    }
}

fn no_symbols() -> PdbSymbolStream {
    PdbSymbolStream { sections: vec![], symbols: vec![] }
}

#[test]
fn layouts_are_read_from_type_records() {
    let types = type_stream();
    let eproc = PdbStruct::from_types(&types, "_EPROCESS").unwrap();
    assert_eq!(eproc.find_field("UniqueProcessId").unwrap().offset, 0x180);
    assert_eq!(eproc.find_field("VadRoot").unwrap().offset, 0x448);
    assert_eq!(eproc.find_field("Blink"), None);
    let flags = PdbStruct::from_types(&types, "_MMVAD_FLAGS").unwrap();
    assert_eq!(flags.find_field("Protection"), Some(PdbField { offset: 0, bit_offset: 56 }));
    assert_eq!(flags.find_field("CommitCharge"), Some(PdbField { offset: 0, bit_offset: 0 }));
    assert!(PdbStruct::from_types(&types, "_TEB32").is_none());
    assert!(PdbStruct::from_types(&types, "").is_none());
    assert!(PdbStruct::from_types(&Vec::new(), "_EPROCESS").is_none());
}

#[test]
fn a_forward_reference_defines_nothing() {
    let types = vec![class(0x1000, "_TEB", true, None)];
    assert!(PdbStruct::from_types(&types, "_TEB").is_none());
    let types = vec![
        class(0x1000, "_TEB", true, None),
        list(0x1001, vec![member("ProcessEnvironmentBlock", 0x60, 0)], None),
        class(0x1002, "_TEB", false, Some(0x1001)),
    ];
    let teb = PdbStruct::from_types(&types, "_TEB").unwrap();
    assert_eq!(teb.find_field("ProcessEnvironmentBlock").unwrap().offset, 0x60);
}

#[test]
fn broken_references_give_an_empty_layout() {
    // The field list is missing, is no field list, or the numbering has a gap.
    let types = vec![class(0x1000, "_TEB", false, Some(0x2000))];
    assert_eq!(PdbStruct::from_types(&types, "_TEB").unwrap().find_field("x"), None);
    let types = vec![class(0x1000, "_TEB", false, Some(0x1000))];
    assert_eq!(PdbStruct::from_types(&types, "_TEB").unwrap().find_field("x"), None);
    let types = vec![
        class(0x1000, "_TEB", false, Some(0x1001)),
        list(0x1005, vec![member("x", 4, 0)], None),
    ];
    assert_eq!(PdbStruct::from_types(&types, "_TEB").unwrap().find_field("x"), None);
    // A list that continues itself is read once for every record and then left.
    let types = vec![
        class(0x1000, "_TEB", false, Some(0x1001)),
        list(0x1001, vec![member("x", 4, 0)], Some(0x1001)),
    ];
    assert_eq!(PdbStruct::from_types(&types, "_TEB").unwrap().find_field("x").unwrap().offset, 4);
    // A class without a field list has no members.
    let types = vec![class(0x1000, "_TEB", false, None)];
    assert_eq!(PdbStruct::from_types(&types, "_TEB").unwrap().find_field("x"), None);
}

#[test]
fn offsets_are_kept_in_32_bits() {
    let types = vec![
        class(7, "S", false, Some(8)),
        list(8, vec![member("far", 0x1_0000_0010, 0)], None),
    ];
    let s = PdbStruct::from_types(&types, "S").unwrap();
    assert_eq!(s.find_field("far"), Some(PdbField { offset: 0x10, bit_offset: 0 }));
}

#[test]
fn symbols_are_collected_from_records() {
    let syms = PdbSymbols::from_records(&symbol_stream());
    assert_eq!(syms.find_symbol("MmPhysicalMemoryBlock"), Some(0x2bb2c8));
    assert_eq!(syms.find_symbol("KeBugCheck"), Some(0x1000));
    assert_eq!(syms.find_symbol("Last"), Some(0xffff_ffff));
    assert_eq!(syms.find_symbol("Other"), None);
    // A symbol whose section is not in the table, or whose address leaves
    // 32 bits, is kept with the address zero.
    assert_eq!(syms.find_symbol("Unmapped"), Some(0));
    assert_eq!(syms.find_symbol("Nowhere"), Some(0));
    assert_eq!(syms.find_symbol("Beyond"), Some(0));
    let block = PdbSymbolStream {
        sections: vec![],
        symbols: vec![public("MmPhysicalMemoryBlock", 1, 0x2c8)],
    };
    let offsets = Win32Offsets::from_pdb_records(Some(block), Some(type_stream())).unwrap();
    assert_eq!(offsets.phys_mem_block(), 0);
    // Where a name comes twice, the last one counts.
    let twice = PdbSymbolStream {
        sections: vec![0x1000],
        symbols: vec![public("a", 1, 1), public("a", 1, 2)],
    };
    assert_eq!(PdbSymbols::from_records(&twice).find_symbol("a"), Some(0x1002));
}

#[test]
fn the_size_of_a_structure_is_that_of_its_first_definition() {
    let sized = |index: u32, name: &str, forward_reference: bool, size: u64| PdbTypeRecord {
        index,
        data: PdbType::Class { name: name.to_string(), forward_reference, fields: None, size },
    };
    let types = vec![
        sized(0x1000, "_TEB", true, 0),
        sized(0x1001, "_KPROCESS", false, 0x160),
        sized(0x1002, "_TEB", false, 0x1818),
        sized(0x1003, "_TEB", false, 0x2000),
    ];
    assert_eq!(struct_byte_size(&types, "_TEB"), Some(0x1818));
    assert_eq!(struct_byte_size(&types, "_KPROCESS"), Some(0x160));
    assert_eq!(struct_byte_size(&types, "_EPROCESS"), None);
    assert_eq!(struct_byte_size(&Vec::new(), "_TEB"), None);
}

#[test]
fn required_offsets_lie_inside_their_structures() {
    let types = type_stream();
    let offsets = Win32Offsets::from_pdb_records(Some(symbol_stream()), Some(type_stream())).unwrap();
    let size = |name: &str| struct_byte_size(&types, name).unwrap();
    assert_eq!(size("_EPROCESS"), 0x4d0);
    assert!((offsets.list_blink() as u64) < size("_LIST_ENTRY"));
    assert!((offsets.kproc_dtb() as u64) < size("_KPROCESS"));
    for offset in [
        offsets.eproc_link(),
        offsets.eproc_pid(),
        offsets.eproc_name(),
        offsets.eproc_peb(),
        offsets.eproc_section_base(),
        offsets.eproc_exit_status(),
        offsets.eproc_thread_list(),
        offsets.eproc_vad_root(),
    ] {
        assert!(offset != 0 && (offset as u64) < size("_EPROCESS"));
    }
    assert!((offsets.kthread_teb() as u64) < size("_KTHREAD"));
    assert!((offsets.ethread_list_entry() as u64) < size("_ETHREAD"));
    assert!((offsets.teb_peb() as u64) < size("_TEB"));
}

#[test]
fn an_address_is_a_section_start_and_an_offset() {
    let sections = vec![0x1000, 0xffff_f000];
    assert_eq!(resolve_section_address(&sections, 1, 0), Some(0x1000));
    assert_eq!(resolve_section_address(&sections, 1, 0xffff_efff), Some(0xffff_ffff));
    assert_eq!(resolve_section_address(&sections, 1, 0xffff_f000), None);
    assert_eq!(resolve_section_address(&sections, 2, 0xfff), Some(0xffff_ffff));
    assert_eq!(resolve_section_address(&sections, 2, 0x1000), None);
    assert_eq!(resolve_section_address(&sections, 0, 0), None);
    assert_eq!(resolve_section_address(&sections, 3, 0), None);
    assert_eq!(resolve_section_address(&Vec::new(), 1, 0), None);
}

#[test]
fn offsets_come_out_of_the_records_of_a_database() {
    let offsets = Win32Offsets::from_pdb_records(Some(symbol_stream()), Some(type_stream())).unwrap();
    let mut expected = win7_table();
    expected.teb_peb_x86 = 0;
    expected.ethread_list_entry = 0x420;
    expected.mmvad.ending_vpn = 0;
    assert_eq!(offsets.0, expected);
}

#[test]
fn missing_streams_and_structures_are_named() {
    let err = Win32Offsets::from_pdb_records(None, Some(type_stream())).unwrap_err();
    assert_eq!((err.kind, err.message), (ErrorKind::Offset, "Symbols not found"));
    let err = Win32Offsets::from_pdb_records(Some(no_symbols()), None).unwrap_err();
    assert_eq!((err.kind, err.message), (ErrorKind::Offset, "_LIST_ENTRY not found"));
    for (name, message) in [
        ("_LIST_ENTRY", "_LIST_ENTRY not found"),
        ("_KPROCESS", "_KPROCESS not found"),
        ("_EPROCESS", "_EPROCESS not found"),
        ("_ETHREAD", "_ETHREAD not found"),
        ("_KTHREAD", "_KTHREAD not found"),
        ("_TEB", "_TEB not found"),
        ("_MMVAD_SHORT", "_MMVAD_SHORT not found"),
        ("_MMVAD_FLAGS", "_MMVAD_FLAGS not found"),
    ] {
        let types: Vec<PdbTypeRecord> = type_stream()
            .into_iter()
            .map(|record| match record.data {
                PdbType::Class { name: n, fields, size, .. } if n == name => PdbTypeRecord {
                    index: record.index,
                    data: PdbType::Class { name: n, forward_reference: true, fields, size },
                },
                data => PdbTypeRecord { index: record.index, data },
            })
            .collect();
        let err = KernelStructs::from_types(&types).unwrap_err();
        assert_eq!((err.kind, err.message), (ErrorKind::Offset, message));
        let err = Win32Offsets::from_pdb_records(Some(no_symbols()), Some(types)).unwrap_err();
        assert_eq!((err.kind, err.message), (ErrorKind::Offset, message));
    }
}

#[test]
fn a_database_that_cannot_be_read_gives_no_offsets() {
    let err = Win32Offsets::from_pdb_slice(&mut Offline, b"some bytes").unwrap_err();
    assert_eq!((err.kind, err.message), (ErrorKind::Offset, "Symbols not found"));
    let err = PdbStruct::new(&mut Offline, b"some bytes", "_EPROCESS").unwrap_err();
    assert_eq!(err.kind, ErrorKind::Offset);
    let err = PdbSymbols::new(&mut Offline, b"some bytes").unwrap_err();
    assert_eq!(err.kind, ErrorKind::Offset);
    // What the reader hands out is resolved.
    let offsets = Win32Offsets::from_pdb_slice(&mut Records, b"some bytes").unwrap();
    assert_eq!(offsets.eproc_pid(), 0x180);
    assert_eq!(offsets.phys_mem_block(), 0x2bb2c8);
    let eprocess = PdbStruct::new(&mut Records, &[], "_EPROCESS").unwrap();
    assert_eq!(eprocess.find_field("VadRoot").unwrap().offset, 0x448);
    assert_eq!(PdbStruct::new(&mut Records, &[], "_TEB32").unwrap_err().kind, ErrorKind::Offset);
    let symbols = PdbSymbols::new(&mut Records, &[]).unwrap();
    assert_eq!(symbols.find_symbol("KeBugCheck"), Some(0x1000));
}

#[test]
fn user_mode_offsets_depend_on_the_pointer_width() {
    let x86 = Win32ArchOffsets::x86();
    assert_eq!(
        (x86.peb_ldr, x86.peb_process_params, x86.ldr_list, x86.ldr_data_base, x86.ldr_data_size),
        (0xc, 0x10, 0xc, 0x18, 0x20)
    );
    assert_eq!(
        (x86.ldr_data_full_name, x86.ldr_data_base_name, x86.ppm_image_path_name, x86.ppm_command_line),
        (0x24, 0x2c, 0x38, 0x40)
    );
    let x64 = Win32ArchOffsets::x64();
    assert_eq!(
        (x64.peb_ldr, x64.peb_process_params, x64.ldr_list, x64.ldr_data_base, x64.ldr_data_size),
        (0x18, 0x20, 0x10, 0x30, 0x40)
    );
    assert_eq!(
        (x64.ldr_data_full_name, x64.ldr_data_base_name, x64.ppm_image_path_name, x64.ppm_command_line),
        (0x48, 0x58, 0x60, 0x70)
    );
    assert_eq!(Win32ArchOffsets::aarch64(), x64);
    assert_eq!(Win32OffsetsArchitecture::X86.offsets(), x86);
    assert_eq!(Win32OffsetsArchitecture::X64.offsets(), x64);
    assert_eq!(Win32OffsetsArchitecture::AArch64.offsets(), x64);
    assert_eq!(Win32ArchOffsets::from(Architecture::X86Pae), x86);
    assert_eq!(Win32ArchOffsets::from(Architecture::X86), x86);
    assert_eq!(Win32ArchOffsets::from(Architecture::X64), x64);
    assert_eq!(Win32ArchOffsets::from(Architecture::AArch64), x64);
}

#[test]
fn architectures_fall_into_three_families() {
    assert_eq!(Win32OffsetsArchitecture::from(Architecture::X86), Win32OffsetsArchitecture::X86);
    assert_eq!(Win32OffsetsArchitecture::from(Architecture::X86Pae), Win32OffsetsArchitecture::X86);
    assert_eq!(Win32OffsetsArchitecture::from(Architecture::X64), Win32OffsetsArchitecture::X64);
    assert_eq!(
        Win32OffsetsArchitecture::from(Architecture::AArch64),
        Win32OffsetsArchitecture::AArch64
    );
    assert_eq!(Win32OffsetsArchitecture::X86.tag(), "x86");
    assert_eq!(Win32OffsetsArchitecture::X64.tag(), "x64");
    assert_eq!(Win32OffsetsArchitecture::AArch64.tag(), "aarch64");
}

#[test]
fn architectures_know_their_sizes() {
    assert_eq!(Architecture::X86.bits(), 32);
    assert_eq!(Architecture::X86Pae.bits(), 32);
    assert_eq!(Architecture::X64.bits(), 64);
    assert_eq!(Architecture::AArch64.bits(), 64);
    assert_eq!(Architecture::X86.address_space_bits(), 32);
    assert_eq!(Architecture::X86Pae.address_space_bits(), 36);
    assert_eq!(Architecture::X64.address_space_bits(), 52);
    assert_eq!(Architecture::AArch64.address_space_bits(), 48);
    for arch in [Architecture::X86, Architecture::X86Pae, Architecture::X64, Architecture::AArch64] {
        assert_eq!(arch.page_size(), 0x1000);
    }
}

#[test]
fn offset_files_are_named_after_their_build() {
    let f = file(Win32OffsetsArchitecture::X64, (6, 1, 7601), "ECE191A20CFF4465AE46DF96C22638451", 0x180);
    assert_eq!(f.file_name(), "6_1_7601_x64_ECE191A20CFF4465AE46DF96C22638451.toml");
    let f = file(Win32OffsetsArchitecture::X86, (10, 0, 4026553840), "55678BC384F099B6ED05E9E39046924A1", 0);
    assert_eq!(f.file_name(), "10_0_4026553840_x86_55678BC384F099B6ED05E9E39046924A1.toml");
    let f = file(Win32OffsetsArchitecture::AArch64, (0, 0, 0), "", 0);
    assert_eq!(f.file_name(), "0_0_0_aarch64_.toml");
}

#[test]
fn known_builds_are_found_by_database_then_by_version() {
    let x64 = Win32OffsetsArchitecture::X64;
    let list = vec![
        file(Win32OffsetsArchitecture::X86, (6, 1, 7601), "AAAA1", 1),
        file(x64, (6, 1, 7601), "BBBB1", 2),
        file(x64, (10, 0, 18362), "CCCC1", 3),
        file(x64, (6, 1, 7601), "DDDD1", 4),
    ];
    let guid = |g: &str| Some(Win32Guid::new("ntkrnlmp.pdb", g));
    let version = |b: u32| Some(Win32Version::new(if b > 10000 { 10 } else { 6 }, if b > 10000 { 0 } else { 1 }, b));
    let pid = |r: Option<Win32OffsetTable>| r.map(|t| t.eproc_pid);
    assert_eq!(pid(find_listed(&list, x64, &guid("DDDD1"), &None)), Some(4));
    assert_eq!(pid(find_listed(&list, x64, &guid("DDDD1"), &version(18362))), Some(4));
    assert_eq!(pid(find_listed(&list, x64, &guid("EEEE1"), &version(18362))), Some(3));
    assert_eq!(pid(find_listed(&list, x64, &None, &version(7601))), Some(2));
    assert_eq!(pid(find_listed(&list, x64, &guid("AAAA1"), &None)), None);
    assert_eq!(pid(find_listed(&list, Win32OffsetsArchitecture::X86, &guid("AAAA1"), &None)), Some(1));
    assert_eq!(pid(find_listed(&list, x64, &None, &None)), None);
    assert_eq!(pid(find_listed(&list, x64, &None, &version(7600))), None);
    assert_eq!(pid(find_listed(&[], x64, &guid("BBBB1"), &version(7601))), None);
    let other_file = Some(Win32Guid::new("ntkrpamp.pdb", "BBBB1"));
    assert_eq!(pid(find_listed(&list, x64, &other_file, &None)), None);
}

#[test]
fn a_builder_needs_a_database_or_a_version() {
    let err = Win32Offsets::builder().build(&mut Offline).unwrap_err();
    assert_eq!(err.kind, ErrorKind::Configuration);
    let err = Win32OffsetBuilder::new().arch(Win32OffsetsArchitecture::X64).build(&mut Offline).unwrap_err();
    assert_eq!(err.kind, ErrorKind::Configuration);
}

#[test]
fn a_builder_prefers_the_list_of_known_builds() {
    let list = vec![file(Win32OffsetsArchitecture::X64, (6, 1, 7601), "BBBB1", 0x180)];
    let builder = Win32Offsets::builder()
        .offset_list(&list)
        .arch(Win32OffsetsArchitecture::X64)
        .winver(Win32Version::new(6, 1, 7601));
    assert_eq!(builder.get_winver(), &Some(Win32Version::new(6, 1, 7601)));
    assert_eq!(builder.get_arch(), &Some(Win32OffsetsArchitecture::X64));
    assert!(builder.get_guid().is_none());
    // The backend would fail; it is not asked.
    assert_eq!(builder.build(&mut Offline).unwrap().eproc_pid(), 0x180);
}

#[test]
fn a_builder_asks_the_symbol_store_for_an_unlisted_build() {
    let guid = Win32Guid::new("ntkrnlmp.pdb", "BBBB1");
    let builder = Win32Offsets::builder().symbol_store(SymbolStore::new().no_cache()).guid(guid.clone());
    assert_eq!(builder.get_guid().as_ref().unwrap().guid, "BBBB1");
    assert_eq!(builder.build(&mut Offline).unwrap_err().kind, ErrorKind::Http);
    // What the store delivers has to be a program database.
    let builder = Win32Offsets::builder().symbol_store(SymbolStore::new().no_cache()).guid(guid.clone());
    assert_eq!(builder.build(&mut Garbage).unwrap_err().kind, ErrorKind::Offset);
    // Without a store, or with a version alone, nothing can be asked.
    let builder = Win32Offsets::builder().no_symbol_store().guid(guid);
    assert_eq!(builder.build(&mut Garbage).unwrap_err().kind, ErrorKind::Configuration);
    let builder = Win32Offsets::builder().winver(Win32Version::new(6, 1, 7601));
    assert_eq!(builder.build(&mut Garbage).unwrap_err().kind, ErrorKind::Configuration);
}

#[test]
fn versions_are_ordered_by_major_minor_build() {
    let v = Win32Version::new;
    assert!(v(6, 1, 7601).is_before(&v(10, 0, 18362)));
    assert!(v(6, 1, 7601).is_before(&v(6, 2, 0)));
    assert!(v(6, 1, 7600).is_before(&v(6, 1, 7601)));
    assert!(!v(6, 1, 7601).is_before(&v(6, 1, 7601)));
    assert!(!v(10, 0, 0).is_before(&v(6, 3, 9600)));
    assert!(v(3, 10, 511) < v(6, 1, 7601));
    assert!(v(6, 1, 7601) < v(6, 1, 7602));
    assert_eq!(v(6, 1, 7601).major_version(), 6);
    assert_eq!(v(6, 1, 7601).minor_version(), 1);
    assert_eq!(v(6, 1, 7601).build_number(), 7601);
    for (a, b) in [(v(1, 2, 3), v(1, 2, 4)), (v(1, 9, 9), v(2, 0, 0)), (v(5, 5, 5), v(5, 5, 5))] {
        assert_eq!(a.is_before(&b), a < b);
        assert_eq!(b.is_before(&a), b < a);
    }
}
