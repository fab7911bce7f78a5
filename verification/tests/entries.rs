use memflow_win32::error::ErrorKind;
use memflow_win32::offsets::entries::{OffsetKey, OffsetValue};
use toml::{Table, Value};
use memflow_win32::offsets::offset_table::{
    MmVadOffsetTable, Win32OffsetFile, Win32OffsetHeader, Win32OffsetTable,
    Win32OffsetsArchitecture,
};

fn sample() -> Win32OffsetFile {
    Win32OffsetFile {
        header: Win32OffsetHeader {
            pdb_file_name: "ntkrnlmp.pdb".to_string(),
            pdb_guid: "ECE191A20CFF4465AE46DF96C22638451".to_string(),
            nt_major_version: 6,
            nt_minor_version: 1,
            nt_build_number: 7601,
            arch: Win32OffsetsArchitecture::X64,
        },
        offsets: Win32OffsetTable {
            list_blink: 1,
            eproc_link: 2,
            phys_mem_block: 3,
            kproc_dtb: 4,
            eproc_pid: 5,
            eproc_name: 6,
            eproc_peb: 7,
            eproc_section_base: 8,
            eproc_exit_status: 9,
            eproc_thread_list: 10,
            eproc_wow64: 11,
            eproc_vad_root: 12,
            kthread_teb: 13,
            ethread_list_entry: 14,
            teb_peb: 15,
            teb_peb_x86: 16,
            mmvad: MmVadOffsetTable {
                vad_node: 17,
                starting_vpn: 18,
                ending_vpn: 19,
                starting_vpn_high: 20,
                ending_vpn_high: 21,
                u: 22,
                protection_bit: 23,
            },
        },
    }
}

fn same(a: &Win32OffsetFile, b: &Win32OffsetFile) -> bool {
    a.header.pdb_file_name == b.header.pdb_file_name
        && a.header.pdb_guid == b.header.pdb_guid
        && a.header.nt_major_version == b.header.nt_major_version
        && a.header.nt_minor_version == b.header.nt_minor_version
        && a.header.nt_build_number == b.header.nt_build_number
        && a.header.arch == b.header.arch
        && a.offsets == b.offsets
}

#[test]
fn fields_are_written_in_their_order() {
    let entries = sample().to_entries();
    assert_eq!(entries.len(), 29);
    let names: Vec<&str> = entries.iter().map(|(key, _)| key.name()).collect();
    assert_eq!(
        &names[..7],
        &[
            "header.pdb_file_name",
            "header.pdb_guid",
            "header.nt_major_version",
            "header.nt_minor_version",
            "header.nt_build_number",
            "header.arch",
            "offsets.list_blink"
        ]
    );
    assert_eq!(names[21], "offsets.teb_peb_x86");
    assert_eq!(names[22], "offsets.mmvad.vad_node");
    assert_eq!(names[28], "offsets.mmvad.protection_bit");
    let mut unique = names.clone();
    unique.sort();
    unique.dedup();
    assert_eq!(unique.len(), 29);
    match &entries[0].1 {
        OffsetValue::Text(t) => assert_eq!(t, "ntkrnlmp.pdb"),
        other => panic!("unexpected value {:?}", other),
    }
    match &entries[5].1 {
        OffsetValue::Arch(a) => assert_eq!(*a, Win32OffsetsArchitecture::X64),
        other => panic!("unexpected value {:?}", other),
    }
    for (i, (_, value)) in entries.iter().enumerate().skip(6) {
        match value {
            OffsetValue::Number(n) => assert_eq!(*n as usize, i - 5),
            other => panic!("unexpected value {:?}", other),
        }
    }
}

#[test]
fn reading_back_gives_the_file_that_was_written() {
    for arch in [Win32OffsetsArchitecture::X86, Win32OffsetsArchitecture::X64, Win32OffsetsArchitecture::AArch64] {
        let mut file = sample();
        file.header.arch = arch;
        file.offsets.eproc_wow64 = 0;
        file.offsets.mmvad.u = u32::MAX;
        let back = Win32OffsetFile::from_entries(&file.to_entries()).unwrap();
        assert!(same(&file, &back));
    }
    let mut empty = sample();
    empty.header.pdb_file_name = String::new();
    empty.header.pdb_guid = "\"quoted\" and\nbroken".to_string();
    let back = Win32OffsetFile::from_entries(&empty.to_entries()).unwrap();
    assert!(same(&empty, &back));
}

#[test]
fn the_order_of_the_fields_does_not_matter_when_reading() {
    let mut entries = sample().to_entries();
    entries.reverse();
    let back = Win32OffsetFile::from_entries(&entries).unwrap();
    assert!(same(&sample(), &back));
    // Where a field comes twice, the first one counts.
    let mut entries = sample().to_entries();
    entries.push((OffsetKey::EprocPid, OffsetValue::Number(99)));
    assert_eq!(Win32OffsetFile::from_entries(&entries).unwrap().offsets.eproc_pid, 5);
    entries.insert(0, (OffsetKey::EprocPid, OffsetValue::Number(77)));
    assert_eq!(Win32OffsetFile::from_entries(&entries).unwrap().offsets.eproc_pid, 77);
}

#[test]
fn every_field_has_to_be_there_with_its_kind_of_value() {
    let all = sample().to_entries().len();
    for missing in 0..all {
        let mut entries = sample().to_entries();
        entries.remove(missing);
        let err = Win32OffsetFile::from_entries(&entries).unwrap_err();
        assert_eq!(err.kind, ErrorKind::Offset);
    }
    for wrong in 0..all {
        let mut entries = sample().to_entries();
        entries[wrong].1 = match entries[wrong].1 {
            OffsetValue::Number(_) => OffsetValue::Text("1".to_string()),
            OffsetValue::Text(_) => OffsetValue::Number(1),
            OffsetValue::Arch(_) => OffsetValue::Text("X64".to_string()),
        };
        let err = Win32OffsetFile::from_entries(&entries).unwrap_err();
        assert_eq!(err.kind, ErrorKind::Offset);
    }
    assert_eq!(Win32OffsetFile::from_entries(&Vec::new()).unwrap_err().kind, ErrorKind::Offset);
}

fn to_text(file: &Win32OffsetFile) -> String {
    let mut root = Table::new();
    for (key, value) in file.to_entries() {
        let value = match value {
            OffsetValue::Number(n) => Value::Integer(i64::from(n)),
            OffsetValue::Text(text) => Value::String(text),
            OffsetValue::Arch(arch) => Value::String(arch.tag().to_string()),
        };
        let path: Vec<&str> = key.name().split('.').collect();
        let mut table = &mut root;
        for part in &path[..path.len() - 1] {
            if !table.contains_key(*part) {
                table.insert(part.to_string(), Value::Table(Table::new()));
            }
            table = table.get_mut(*part).unwrap().as_table_mut().unwrap();
        }
        table.insert(path[path.len() - 1].to_string(), value);
    }
    toml::to_string_pretty(&root).unwrap()
}

fn from_text(text: &str) -> Win32OffsetFile {
    let root: Table = text.parse().unwrap();
    let keys: Vec<OffsetKey> = sample().to_entries().into_iter().map(|(key, _)| key).collect();
    let mut entries = Vec::new();
    for key in keys {
        let mut value = &Value::Table(root.clone());
        for part in key.name().split('.') {
            value = value.as_table().unwrap().get(part).unwrap();
        }
        let value = match (key, value) {
            (OffsetKey::Arch, Value::String(tag)) => OffsetValue::Arch(match tag.as_str() {
                "x86" => Win32OffsetsArchitecture::X86,
                "x64" => Win32OffsetsArchitecture::X64,
                _ => Win32OffsetsArchitecture::AArch64,
            }),
            (_, Value::String(text)) => OffsetValue::Text(text.clone()),
            (_, Value::Integer(n)) => OffsetValue::Number(*n as u32),
            (_, other) => panic!("unexpected value {:?}", other),
        };
        entries.push((key, value));
    }
    Win32OffsetFile::from_entries(&entries).unwrap()
}

#[test]
fn an_offset_file_survives_being_written_as_text() {
    let mut file = sample();
    file.offsets.phys_mem_block = u32::MAX;
    file.header.pdb_guid = "a \"quoted\" name\twith\\odd characters".to_string();
    let text = to_text(&file);
    assert!(text.contains("[header]"));
    assert!(text.contains("[offsets.mmvad]"));
    assert!(text.contains("nt_build_number = 7601"));
    assert!(text.contains("pdb_file_name = \"ntkrnlmp.pdb\""));
    assert!(same(&file, &from_text(&text)));
    for arch in [Win32OffsetsArchitecture::X86, Win32OffsetsArchitecture::AArch64] {
        let mut file = sample();
        file.header.arch = arch;
        assert!(same(&file, &from_text(&to_text(&file))));
    }
}
