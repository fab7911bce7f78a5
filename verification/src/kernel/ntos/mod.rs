//! Locating `ntoskrnl.exe` in the guest's virtual memory and identifying its build.

pub mod pehelper;
pub mod x64;
pub mod x86;

use crate::bytes::{read_u16_le, read_u32_le, u16_le, u32_le};
use crate::error::{Error, ErrorKind};
use crate::kernel::ntos::pehelper::{CodeViewInfo, Guid};
use crate::kernel::{StartBlock, Win32Guid, Win32Version};
use crate::mem::{
    complete_part, data_part, AddressSpace, MemoryView, MemoryRead, VirtualTranslate,
};
use crate::text::{hex_fixed, hex_upper, push_hex_fixed, push_hex_upper};
use crate::types::Address;
use vstd::prelude::*;

verus! {

/// Finds the base address and the size of the kernel image in the address
/// space that `start_block` describes. On 64-bit guests the neighbourhood of
/// the kernel hint is searched first, then the mapped upper half; on 32-bit
/// guests only the mapped upper half.
pub fn find<T: MemoryView + VirtualTranslate>(virt_mem: &mut T, start_block: &StartBlock) -> (r: Result<
    (Address, u64),
    Error,
>)
    ensures
        match r {
            Ok((base, size)) => base.0 % 0x1000 == 0 && 0 < size <= u32::MAX,
            Err(e) => e.kind == ErrorKind::NotFound,
        },
{
    if start_block.arch.bits() == 64 {
        if !start_block.kernel_hint.is_null() {
            match x64::find_with_va_hint(virt_mem, start_block) {
                Ok(found) => {
                    return Ok(found);
                },
                Err(_) => {},
            }
        }
        match x64::find(virt_mem, start_block) {
            Ok(found) => {
                return Ok(found);
            },
            Err(_) => {},
        }
    } else {
        match x86::find(virt_mem, start_block) {
            Ok(found) => {
                return Ok(found);
            },
            Err(_) => {},
        }
    }
    Err(Error::new(ErrorKind::NotFound, "unable to find ntoskrnl.exe"))
}

/// The identifier under which a symbol server files the database with this
/// signature and age: the signature in 32 upper-case hexadecimal digits,
/// then the age in as many digits as it needs, with nothing between them.
pub open spec fn guid_text(signature: Guid, age: u32) -> Seq<char> {
    hex_fixed(signature.data1 as nat, 8) + hex_fixed(signature.data2 as nat, 4) + hex_fixed(
        signature.data3 as nat,
        4,
    ) + hex_fixed(signature.data4[0] as nat, 2) + hex_fixed(signature.data4[1] as nat, 2)
        + hex_fixed(signature.data4[2] as nat, 2) + hex_fixed(signature.data4[3] as nat, 2)
        + hex_fixed(signature.data4[4] as nat, 2) + hex_fixed(signature.data4[5] as nat, 2)
        + hex_fixed(signature.data4[6] as nat, 2) + hex_fixed(signature.data4[7] as nat, 2)
        + hex_upper(age as nat)
}

/// Whether `text` identifies a database: it is the rendering of some signature and age.
pub open spec fn is_guid_text(text: Seq<char>) -> bool {
    exists|signature: Guid, age: u32| text == #[trigger] guid_text(signature, age)
}

/// Whether `c` is an upper-case hexadecimal digit.
pub open spec fn is_upper_hex(c: char) -> bool {
    ('0' <= c <= '9') || ('A' <= c <= 'F')
}

proof fn lemma_hex_fixed_digits(value: nat, digits: nat)
    ensures
        hex_fixed(value, digits).len() == digits,
        forall|i: int| 0 <= i < digits ==> is_upper_hex(#[trigger] hex_fixed(value, digits)[i]),
    decreases digits,
{
    if digits > 0 {
        lemma_hex_fixed_digits(value / 16, (digits - 1) as nat);
    }
}

proof fn lemma_hex_upper_digits(value: nat)
    ensures
        hex_upper(value).len() >= 1,
        forall|i: int| 0 <= i < hex_upper(value).len() ==> is_upper_hex(#[trigger] hex_upper(value)[i]),
    decreases value,
{
    if value >= 16 {
        lemma_hex_upper_digits(value / 16);
    }
}

/// The identifier of a database consists of the 32 digits of the signature
/// and at least one digit of the age, all of them upper-case hexadecimal
/// digits: nothing separates the groups.
pub proof fn lemma_guid_text_is_hex(signature: Guid, age: u32)
    ensures
        guid_text(signature, age).len() == 32 + hex_upper(age as nat).len(),
        guid_text(signature, age).len() >= 33,
        guid_text(signature, age).subrange(32, guid_text(signature, age).len() as int)
            == hex_upper(age as nat),
        forall|i: int|
            0 <= i < guid_text(signature, age).len() ==> is_upper_hex(
                #[trigger] guid_text(signature, age)[i],
            ),
{
    lemma_hex_fixed_digits(signature.data1 as nat, 8);
    lemma_hex_fixed_digits(signature.data2 as nat, 4);
    lemma_hex_fixed_digits(signature.data3 as nat, 4);
    lemma_hex_fixed_digits(signature.data4[0] as nat, 2);
    lemma_hex_fixed_digits(signature.data4[1] as nat, 2);
    lemma_hex_fixed_digits(signature.data4[2] as nat, 2);
    lemma_hex_fixed_digits(signature.data4[3] as nat, 2);
    lemma_hex_fixed_digits(signature.data4[4] as nat, 2);
    lemma_hex_fixed_digits(signature.data4[5] as nat, 2);
    lemma_hex_fixed_digits(signature.data4[6] as nat, 2);
    lemma_hex_fixed_digits(signature.data4[7] as nat, 2);
    lemma_hex_upper_digits(age as nat);
    let text = guid_text(signature, age);
    assert(text.subrange(32, text.len() as int) =~= hex_upper(age as nat));
}

/// Renders signature and age as a symbol server expects them.
pub fn guid_string(signature: &Guid, age: u32) -> (s: String)
    ensures
        s@ == guid_text(*signature, age),
{
    let mut s = String::new();
    push_hex_fixed(&mut s, signature.data1 as u64, 8);
    push_hex_fixed(&mut s, signature.data2 as u64, 4);
    push_hex_fixed(&mut s, signature.data3 as u64, 4);
    push_hex_fixed(&mut s, signature.data4[0] as u64, 2);
    push_hex_fixed(&mut s, signature.data4[1] as u64, 2);
    push_hex_fixed(&mut s, signature.data4[2] as u64, 2);
    push_hex_fixed(&mut s, signature.data4[3] as u64, 2);
    push_hex_fixed(&mut s, signature.data4[4] as u64, 2);
    push_hex_fixed(&mut s, signature.data4[5] as u64, 2);
    push_hex_fixed(&mut s, signature.data4[6] as u64, 2);
    push_hex_fixed(&mut s, signature.data4[7] as u64, 2);
    push_hex_upper(&mut s, age as u64);
    assert(s@ =~= guid_text(*signature, age));
    s
}

/// What the CodeView records of an image say about its program database.
/// The first record decides: it has to be in the 7.0 format and name its file in UTF-8.
pub open spec fn guid_of(records: Seq<CodeViewInfo>) -> Result<(Seq<char>, Seq<char>), ErrorKind> {
    if records.len() == 0 {
        Err(ErrorKind::InvalidExeFile)
    } else {
        match records[0] {
            CodeViewInfo::Cv20 { .. } => Err(ErrorKind::InvalidExeFile),
            CodeViewInfo::Cv70 { signature, age, pdb_file_name } => match pdb_file_name {
                Some(name) => Ok((name@, guid_text(signature, age))),
                None => Err(ErrorKind::Encoding),
            },
        }
    }
}

/// Picks the database identifier out of the CodeView records of an image.
pub fn guid_from_code_views(records: &Vec<CodeViewInfo>) -> (r: Result<Win32Guid, Error>)
    ensures
        match r {
            Ok(guid) => guid_of(records@) == Ok::<_, ErrorKind>((guid.file_name@, guid.guid@)),
            Err(e) => guid_of(records@) == Err::<(Seq<char>, Seq<char>), _>(e.kind),
        },
{
    if records.len() == 0 {
        return Err(
            Error::new(ErrorKind::InvalidExeFile, "unable to find codeview debug_data entry"),
        );
    }
    match &records[0] {
        CodeViewInfo::Cv20 { .. } => Err(
            Error::new(
                ErrorKind::InvalidExeFile,
                "invalid code_view entry version 2 found, expected 7",
            ),
        ),
        CodeViewInfo::Cv70 { signature, age, pdb_file_name } => match pdb_file_name {
            Some(name) => {
                let guid = guid_string(signature, *age);
                Ok(Win32Guid { file_name: name.clone(), guid })
            },
            None => Err(
                Error::new(ErrorKind::Encoding, "unable to convert pdb file name to string"),
            ),
        },
    }
}

/// Reads the kernel image at `kernel_base` and returns the identifier of its program database.
pub fn find_guid<T: MemoryView>(mem: &mut T, space: AddressSpace, kernel_base: Address) -> (r:
    Result<Win32Guid, Error>)
    ensures
        match r {
            Ok(guid) => is_guid_text(guid.guid@),
            Err(e) => e.kind == ErrorKind::InvalidExeFile || e.kind == ErrorKind::NotFound || e.kind
                == ErrorKind::Encoding,
        },
{
    let image = pehelper::try_get_pe_image(mem, space, kernel_base)?;
    let records = pehelper::code_views(image.as_slice())?;
    let r = guid_from_code_views(&records);
    proof {
        if r is Ok {
            if let CodeViewInfo::Cv70 { signature, age, .. } = records@[0] {
                assert(r->Ok_0.guid@ == guid_text(signature, age));
            }
        }
    }
    r
}

/// Virtual address of the page that the kernel shares with every process.
pub const KUSER_SHARED_DATA: u64 = 0x7ffe_0000;

/// Offset of the major version in the shared page.
pub const KUSER_NT_MAJOR_VERSION: u64 = 0x026c;

/// Offset of the minor version in the shared page.
pub const KUSER_NT_MINOR_VERSION: u64 = 0x0270;

/// Number of bytes of `RtlGetVersion` that are read.
pub const PROLOGUE_SIZE: usize = 0x100;

/// Number of positions of `RtlGetVersion` at which an instruction is looked for.
pub const PROLOGUE_SCAN: usize = 0xf0;

/// The version numbers after looking at position `i` of the code in `buf`.
/// Three instructions that store a constant into the version structure are
/// recognised: a 64-bit store of both numbers at once, and 32-bit stores to
/// the major and to the minor field. The last one sets the major number too.
pub open spec fn prologue_step(buf: Seq<u8>, i: int, version: (u32, u32)) -> (u32, u32) {
    let word = u32_le(buf, i);
    let (major, minor) = version;
    let (major, minor) = if major == 0 && minor == 0 && word == 0x0441_c748 {
        (u16_le(buf, i + 4) as u32, (buf[i + 5] & 0xf) as u32)
    } else {
        (major, minor)
    };
    let major = if major == 0 && (word & 0xf_ffff) == 0x4_41c7 {
        buf[i + 3] as u32
    } else {
        major
    };
    let major = if minor == 0 && (word & 0xf_ffff) == 0x8_41c7 {
        buf[i + 3] as u32
    } else {
        major
    };
    (major, minor)
}

/// The version numbers after looking at the positions below `upto`, starting from zero for both.
pub open spec fn prologue_version(buf: Seq<u8>, upto: int) -> (u32, u32)
    decreases upto,
{
    if upto <= 0 {
        (0, 0)
    } else {
        prologue_step(buf, upto - 1, prologue_version(buf, upto - 1))
    }
}

/// Reads major and minor version out of the first bytes of `RtlGetVersion`.
pub fn version_from_prologue(buf: &[u8]) -> (r: (u32, u32))
    requires
        buf@.len() == PROLOGUE_SIZE,
    ensures
        r == prologue_version(buf@, PROLOGUE_SCAN as int),
{
    let mut nt_major_version: u32 = 0;
    let mut nt_minor_version: u32 = 0;
    let mut i: usize = 0;
    while i < PROLOGUE_SCAN
        invariant
            i <= PROLOGUE_SCAN,
            buf@.len() == PROLOGUE_SIZE,
            (nt_major_version, nt_minor_version) == prologue_version(buf@, i as int),
        decreases PROLOGUE_SCAN - i,
    {
        let word: u32 = read_u32_le(buf, i);
        if nt_major_version == 0 && nt_minor_version == 0 && word == 0x0441_c748 {
            nt_major_version = read_u16_le(buf, i + 4) as u32;
            nt_minor_version = (buf[i + 5] & 0xf) as u32;
        }
        if nt_major_version == 0 && (word & 0xf_ffff) == 0x4_41c7 {
            nt_major_version = buf[i + 3] as u32;
        }
        if nt_minor_version == 0 && (word & 0xf_ffff) == 0x8_41c7 {
            nt_major_version = buf[i + 3] as u32;
        }
        i = i + 1;
    }
    (nt_major_version, nt_minor_version)
}

/// What is known of the code of `RtlGetVersion`.
#[derive(Debug)]
pub enum VersionCode {
    /// There is no code to look at: the kernel does not export the function.
    NotExported,
    /// The kernel exports the function, but its code cannot be read.
    Unreadable,
    /// The first bytes of the function.
    Code(Vec<u8>),
}

/// The version that the three sources give together: the build number that
/// the kernel exports, the numbers in the shared page and, where the shared
/// page has no major version, the numbers from the code of `RtlGetVersion`.
/// A build number of zero means that the kernel could not be read. Code
/// that is needed and cannot be read is an error; a kernel that does not
/// export the function keeps the major version zero.
pub open spec fn merged_version(build: u32, shared: (u32, u32), code: VersionCode) -> Result<
    (u32, u32, u32),
    ErrorKind,
> {
    if build == 0 {
        Err(ErrorKind::InvalidExeFile)
    } else if shared.0 != 0 {
        Ok((shared.0, shared.1, build))
    } else {
        match code {
            VersionCode::NotExported => Ok((shared.0, shared.1, build)),
            VersionCode::Unreadable => Err(ErrorKind::NotFound),
            VersionCode::Code(bytes) => {
                let (major, minor) = prologue_version(bytes@, PROLOGUE_SCAN as int);
                Ok((major, minor, build))
            },
        }
    }
}

/// Merges the three sources of the kernel version.
pub fn merge_version(build: u32, shared: (u32, u32), code: &VersionCode) -> (r: Result<
    Win32Version,
    Error,
>)
    requires
        code matches VersionCode::Code(bytes) ==> bytes@.len() == PROLOGUE_SIZE,
    ensures
        match merged_version(build, shared, *code) {
            Ok(version) => r matches Ok(v) && (v.major(), v.minor(), v.build()) == version,
            Err(kind) => r matches Err(e) && e.kind == kind,
        },
{
    if build == 0 {
        return Err(Error::new(ErrorKind::InvalidExeFile, "unable to fetch nt build number"));
    }
    if shared.0 != 0 {
        return Ok(Win32Version::new(shared.0, shared.1, build));
    }
    match code {
        VersionCode::NotExported => Ok(Win32Version::new(shared.0, shared.1, build)),
        VersionCode::Unreadable => Err(
            Error::new(ErrorKind::NotFound, "unable to read the code of RtlGetVersion"),
        ),
        VersionCode::Code(bytes) => {
            let (major, minor) = version_from_prologue(bytes.as_slice());
            Ok(Win32Version::new(major, minor, build))
        },
    }
}

/// What a read of the code of `RtlGetVersion` delivered, the export being
/// there. A read with holes counts; its missing bytes are zero.
pub fn version_code(read: MemoryRead) -> (r: VersionCode)
    ensures
        match data_part(read, PROLOGUE_SIZE) {
            Some(bytes) => r matches VersionCode::Code(code) && code@ == bytes,
            None => r is Unreadable,
        },
{
    match read.into_data(PROLOGUE_SIZE) {
        Some(bytes) => VersionCode::Code(bytes),
        None => VersionCode::Unreadable,
    }
}

/// The 32-bit value that a read of four bytes delivered. A read with holes
/// counts only where `tolerant` says so; its missing bytes are zero.
pub open spec fn u32_of_read(read: MemoryRead, tolerant: bool) -> Option<u32> {
    let data = if tolerant {
        data_part(read, 4)
    } else {
        complete_part(read, 4)
    };
    match data {
        Some(bytes) => Some(u32_le(bytes, 0)),
        None => None,
    }
}

/// Takes the 32-bit value out of a read of four bytes.
pub fn u32_from_read(read: MemoryRead, tolerant: bool) -> (r: Option<u32>)
    ensures
        r == u32_of_read(read, tolerant),
{
    let data = if tolerant {
        read.into_data(4)
    } else {
        read.into_complete(4)
    };
    match data {
        Some(bytes) => Some(read_u32_le(bytes.as_slice(), 0)),
        None => None,
    }
}

/// Reads a 32-bit value; with `tolerant`, bytes that cannot be read count as
/// zero. What comes back is what [`u32_from_read`] makes of the read.
fn read_u32<T: MemoryView>(mem: &mut T, space: AddressSpace, addr: Address, tolerant: bool) -> (r:
    Option<u32>) {
    u32_from_read(mem.read_raw(space, addr, 4), tolerant)
}

/// Reads the version of the kernel at `kernel_base`.
pub fn find_winver<T: MemoryView>(mem: &mut T, space: AddressSpace, kernel_base: Address) -> (r:
    Result<Win32Version, Error>)
    ensures
        match r {
            Ok(v) => v.build() != 0,
            Err(e) => e.kind == ErrorKind::InvalidExeFile || e.kind == ErrorKind::NotFound,
        },
{
    let image = pehelper::try_get_pe_image(mem, space, kernel_base)?;
    let nt_build_number_ref = pehelper::get_export(image.as_slice(), "NtBuildNumber")?;
    let rtl_get_version_ref = pehelper::get_export(image.as_slice(), "RtlGetVersion");

    let nt_build_number = match kernel_base.checked_add(nt_build_number_ref) {
        Some(addr) => match read_u32(mem, space, addr, false) {
            Some(value) => value,
            None => {
                return Err(Error::new(ErrorKind::NotFound, "unable to read nt build number"));
            },
        },
        None => {
            return Err(Error::new(ErrorKind::NotFound, "unable to read nt build number"));
        },
    };

    // These fields exist since NT 4.0; a page that cannot be read counts as zero.
    let shared_major = match read_u32(
        mem,
        space,
        Address(KUSER_SHARED_DATA + KUSER_NT_MAJOR_VERSION),
        true,
    ) {
        Some(value) => value,
        None => 0,
    };
    let shared_minor = match read_u32(
        mem,
        space,
        Address(KUSER_SHARED_DATA + KUSER_NT_MINOR_VERSION),
        true,
    ) {
        Some(value) => value,
        None => 0,
    };

    // The code is looked at only where the shared page has no major version.
    let mut code = VersionCode::NotExported;
    if shared_major == 0 {
        if let Ok(rva) = rtl_get_version_ref {
            code = match kernel_base.checked_add(rva) {
                Some(addr) => version_code(mem.read_raw(space, addr, PROLOGUE_SIZE)),
                None => VersionCode::Unreadable,
            };
        }
    }
    merge_version(nt_build_number, (shared_major, shared_minor), &code)
}

} // verus!
