//! Reading the kernel's PE image out of guest memory.
//!
//! Images are parsed by the `pelite` crate. Before an export is looked up,
//! the export directory that the headers declare is held to 32 bits here,
//! because the lookup adds its address and its size.

use crate::bytes::{read_u16_le, read_u32_le, u16_le, u32_le};
use crate::error::{Error, ErrorKind};
use crate::mem::{complete_part, data_part, AddressSpace, MemoryView};
use crate::types::Address;
use vstd::prelude::*;

verus! {

/// `pelite::Wrap`, which holds either the 32-bit or the 64-bit form of a value.
#[verifier::external_type_specification]
#[verifier::external_body]
#[verifier::reject_recursive_types(T32)]
#[verifier::reject_recursive_types(T64)]
pub struct ExWrap<T32, T64>(pelite::Wrap<T32, T64>);

/// `pelite::pe32::PeView`, a checked view of a mapped 32-bit image.
#[verifier::external_type_specification]
#[verifier::external_body]
pub struct ExPeView32<'a>(pelite::pe32::PeView<'a>);

/// `pelite::pe64::PeView`, a checked view of a mapped 64-bit image.
#[verifier::external_type_specification]
#[verifier::external_body]
pub struct ExPeView64<'a>(pelite::pe64::PeView<'a>);

/// `pelite`'s `CodeView`, a CodeView record inside an image.
#[verifier::external_type_specification]
#[verifier::external_body]
pub struct ExCodeView<'a>(pelite::pe64::debug::CodeView<'a>);

/// What an image exports under a name.
#[derive(Clone, Copy, Debug, PartialEq, Eq, Structural)]
pub enum PeExport {
    /// An address relative to the image base.
    Symbol(u32),
    /// The export is forwarded to another image.
    Forward,
    /// The image has no such export, or its export table cannot be read.
    Missing,
    /// The headers of the image were refused.
    Unreadable,
}

/// A globally unique identifier in its four groups.
#[derive(Clone, Copy, Debug, PartialEq, Eq)]
pub struct Guid {
    pub data1: u32,
    pub data2: u16,
    pub data3: u16,
    pub data4: [u8; 8],
}

/// The content of a CodeView debug record, which names a program database.
#[derive(Clone, Debug)]
pub enum CodeViewInfo {
    /// PDB 2.0, identified by a time stamp.
    Cv20 {
        age: u32,
        /// File name of the database, `None` where it is not valid UTF-8.
        pdb_file_name: Option<String>,
    },
    /// PDB 7.0, identified by a GUID.
    Cv70 {
        signature: Guid,
        /// Number of times the database was rewritten.
        age: u32,
        /// File name of the database, `None` where it is not valid UTF-8.
        pdb_file_name: Option<String>,
    },
}

/// Calls `pelite::PeView::from_bytes`, which checks the headers of a mapped
/// image. Nothing is claimed of the outcome: it depends on the bytes and on
/// where the buffer lies in memory.
#[verifier::external_body]
fn pe_view<'a>(image: &'a [u8]) -> (r: Option<pelite::PeView<'a>>) {
    pelite::PeView::from_bytes(image).ok()
}

/// Reads `SizeOfImage` from what `pelite`'s `optional_header` returns.
#[verifier::external_body]
fn pe_size_of_image(pe: &pelite::PeView) -> (r: u32) {
    match pe.optional_header() {
        pelite::Wrap::T32(header) => header.SizeOfImage,
        pelite::Wrap::T64(header) => header.SizeOfImage,
    }
}

/// Calls `pelite`'s `exports` and `dll_name`: the name that the export
/// directory gives the image, `None` where there is none or it is not UTF-8.
#[verifier::external_body]
fn pe_dll_name(pe: &pelite::PeView) -> (r: Option<String>) {
    let name = pe.exports().ok()?.dll_name().ok()?;
    name.to_str().ok().map(String::from)
}

/// Calls `pelite::PeView::from_bytes` and `get_export_by_name` and tells
/// the outcomes apart. The lookup adds the address and the size of the export directory, so images
/// in which that sum leaves 32 bits are kept out.
#[verifier::external_body]
fn pe_export(image: &[u8], name: &str) -> (r: PeExport)
    requires
        export_directory_fits(image@),
{
    match pelite::PeView::from_bytes(image) {
        Ok(pe) => match pe.get_export_by_name(name) {
            Ok(pelite::pe64::exports::Export::Symbol(rva)) => PeExport::Symbol(*rva),
            Ok(pelite::pe64::exports::Export::Forward(_)) => PeExport::Forward,
            Err(_) => PeExport::Missing,
        },
        Err(_) => PeExport::Unreadable,
    }
}

/// Calls `pelite`'s `debug`: the number of entries in the debug directory,
/// `None` where the image has no readable debug directory.
#[verifier::external_body]
fn pe_debug_len(pe: &pelite::PeView) -> (r: Option<usize>) {
    pe.debug().ok().map(|debug| debug.image().len())
}

/// Calls `pelite`'s `entry` and `as_code_view` on entry `index` of the debug
/// directory: its CodeView record, `None` where it holds something else or
/// cannot be read.
#[verifier::external_body]
fn pe_code_view<'a>(pe: &pelite::PeView<'a>, index: usize) -> (r: Option<
    pelite::pe64::debug::CodeView<'a>,
>) {
    pe.debug().ok()?.iter().nth(index)?.entry().ok()?.as_code_view()
}

/// Moves the fields of `pelite`'s `CodeView` into a [`CodeViewInfo`]; the
/// file name goes through `pelite`'s `CStr::to_str`.
#[verifier::external_body]
fn code_view_info(cv: &pelite::pe64::debug::CodeView) -> (r: CodeViewInfo) {
    let pdb_file_name = cv.pdb_file_name().to_str().ok().map(String::from);
    match cv {
        pelite::pe64::debug::CodeView::Cv20 { image, .. } => CodeViewInfo::Cv20 {
            age: image.Age,
            pdb_file_name,
        },
        pelite::pe64::debug::CodeView::Cv70 { image, .. } => {
            let g = image.Signature;
            let signature = Guid { data1: g.Data1, data2: g.Data2, data3: g.Data3, data4: g.Data4 };
            CodeViewInfo::Cv70 { signature, age: image.Age, pdb_file_name }
        },
    }
}

/// Size of the buffer in which the headers of an image are probed.
pub const PROBE_SIZE: usize = 0x1000;

/// Whether `page` starts like an image that the loader could have mapped:
/// it begins with the letters `MZ`, and the PE header follows within the first 0x800 bytes.
pub open spec fn dos_header_ok(page: Seq<u8>) -> bool {
    &&& page.len() >= 0x40
    &&& u16_le(page, 0) == 0x5a4d
    &&& u32_le(page, 0x3c) <= 0x800
}

/// Tells whether `page` starts like a mapped image.
pub fn check_dos_header(page: &[u8]) -> (r: bool)
    ensures
        r == dos_header_ok(page@),
{
    page.len() >= 0x40 && read_u16_le(page, 0) == 0x5a4d && read_u32_le(page, 0x3c) <= 0x800
}

/// The size that a header declares has to be positive.
pub fn checked_image_size(size_of_image: Option<u32>) -> (r: Result<u64, Error>)
    ensures
        match r {
            Ok(size) => size_of_image == Some(size as u32) && 0 < size <= u32::MAX,
            Err(e) => e.kind == ErrorKind::InvalidExeFile && (size_of_image is None
                || size_of_image == Some(0u32)),
        },
{
    match size_of_image {
        Some(size) => {
            if size > 0 {
                Ok(size as u64)
            } else {
                Err(Error::new(ErrorKind::InvalidExeFile, "unable to read size_of_image"))
            }
        },
        None => Err(Error::new(ErrorKind::InvalidExeFile, "unable to probe pe header")),
    }
}

/// The size of the image whose first page is `header`, as its optional header declares it.
pub fn image_size(header: &[u8]) -> (r: Result<u64, Error>)
    ensures
        match r {
            Ok(size) => dos_header_ok(header@) && 0 < size <= u32::MAX,
            Err(e) => e.kind == ErrorKind::InvalidExeFile,
        },
        !dos_header_ok(header@) ==> r is Err,
{
    if !check_dos_header(header) {
        return Err(Error::new(ErrorKind::InvalidExeFile, "not a mapped pe image"));
    }
    let size_of_image = match pe_view(header) {
        Some(pe) => Some(pe_size_of_image(&pe)),
        None => None,
    };
    checked_image_size(size_of_image)
}

/// The name that the export directory of `image` gives it. An image that
/// does not start like a mapped image is refused before anything is read
/// from it; of one that does, the name is what `pelite` reads.
pub fn image_name(image: &[u8]) -> (r: Result<String, Error>)
    ensures
        match r {
            Ok(_) => dos_header_ok(image@),
            Err(e) => e.kind == ErrorKind::InvalidExeFile,
        },
        !dos_header_ok(image@) ==> r is Err,
{
    if !check_dos_header(image) {
        return Err(Error::new(ErrorKind::InvalidExeFile, "not a mapped pe image"));
    }
    match pe_view(image) {
        Some(pe) => match pe_dll_name(&pe) {
            Some(name) => Ok(name),
            None => Err(Error::new(ErrorKind::InvalidExeFile, "unable to read the export name")),
        },
        None => Err(Error::new(ErrorKind::InvalidExeFile, "unable to probe pe header")),
    }
}

/// Where the headers of `image` keep the entry of the export directory, its
/// address followed by its size: behind the optional header's fixed part,
/// whose length goes by its magic number. `None` where the headers are cut
/// short or the magic number is neither that of a 32-bit nor of a 64-bit image.
pub open spec fn export_entry_at(image: Seq<u8>) -> Option<int> {
    if image.len() < 0x40 {
        None
    } else if u32_le(image, 0x3c) + 26 > image.len() {
        None
    } else if u16_le(image, u32_le(image, 0x3c) + 24) == 0x20b {
        Some(u32_le(image, 0x3c) + 136)
    } else if u16_le(image, u32_le(image, 0x3c) + 24) == 0x10b {
        Some(u32_le(image, 0x3c) + 120)
    } else {
        None
    }
}

/// Whether the export directory that `image` declares ends inside 32 bits.
/// An image without a readable entry declares none.
pub open spec fn export_directory_fits(image: Seq<u8>) -> bool {
    match export_entry_at(image) {
        Some(at) => at + 8 <= image.len() ==> u32_le(image, at) + u32_le(image, at + 4)
            <= u32::MAX,
        None => true,
    }
}

/// Tells whether the export directory that `image` declares ends inside 32 bits.
pub fn check_export_directory(image: &[u8]) -> (r: bool)
    ensures
        r == export_directory_fits(image@),
{
    if image.len() < 0x40 {
        return true;
    }
    let nt: u64 = read_u32_le(image, 0x3c) as u64;
    let len: u64 = image.len() as u64;
    if nt + 26 > len {
        return true;
    }
    let magic: u16 = read_u16_le(image, (nt + 24) as usize);
    let at: u64 = if magic == 0x20b {
        nt + 136
    } else if magic == 0x10b {
        nt + 120
    } else {
        return true;
    };
    if at + 8 > len {
        return true;
    }
    let address: u32 = read_u32_le(image, at as usize);
    let size: u32 = read_u32_le(image, (at + 4) as usize);
    address.checked_add(size).is_some()
}

/// The address of the export `name` of `image`, relative to the image base.
/// A forwarded export has no address. An image that does not start like a
/// mapped image, or whose export directory does not end inside 32 bits, is
/// refused with [`ErrorKind::InvalidExeFile`] before anything is looked up
/// in it.
pub fn get_export(image: &[u8], name: &str) -> (r: Result<u64, Error>)
    ensures
        match r {
            Ok(rva) => dos_header_ok(image@) && export_directory_fits(image@) && rva <= u32::MAX,
            Err(e) => e.kind == ErrorKind::InvalidExeFile || (e.kind == ErrorKind::NotFound
                && dos_header_ok(image@) && export_directory_fits(image@)),
        },
        !(dos_header_ok(image@) && export_directory_fits(image@)) ==> (r matches Err(e) && e.kind
            == ErrorKind::InvalidExeFile),
{
    if !check_dos_header(image) {
        return Err(Error::new(ErrorKind::InvalidExeFile, "not a mapped pe image"));
    }
    if !check_export_directory(image) {
        return Err(Error::new(ErrorKind::InvalidExeFile, "export directory out of range"));
    }
    export_address(pe_export(image, name))
}

/// The address that a looked-up export stands for. An image whose headers
/// were refused fails with [`ErrorKind::InvalidExeFile`], an export that is
/// forwarded or missing with [`ErrorKind::NotFound`].
pub fn export_address(export: PeExport) -> (r: Result<u64, Error>)
    ensures
        match r {
            Ok(rva) => export == PeExport::Symbol(rva as u32) && rva <= u32::MAX,
            Err(e) => !(export is Symbol) && e.kind == (if export is Unreadable {
                ErrorKind::InvalidExeFile
            } else {
                ErrorKind::NotFound
            }),
        },
{
    match export {
        PeExport::Symbol(rva) => Ok(rva as u64),
        PeExport::Forward => Err(
            Error::new(ErrorKind::NotFound, "Export found but it was a forwarded export"),
        ),
        PeExport::Missing => Err(Error::new(ErrorKind::NotFound, "export not found")),
        PeExport::Unreadable => Err(
            Error::new(ErrorKind::InvalidExeFile, "unable to probe pe header"),
        ),
    }
}

/// The CodeView records of the debug directory of `image`, in directory
/// order. Entries of another kind and entries that cannot be read are left
/// out. An image that does not start like a mapped image is refused before
/// its debug directory is looked for.
pub fn code_views(image: &[u8]) -> (r: Result<Vec<CodeViewInfo>, Error>)
    ensures
        match r {
            Ok(_) => dos_header_ok(image@),
            Err(e) => e.kind == ErrorKind::InvalidExeFile,
        },
        !dos_header_ok(image@) ==> r is Err,
{
    if !check_dos_header(image) {
        return Err(Error::new(ErrorKind::InvalidExeFile, "not a mapped pe image"));
    }
    let pe = match pe_view(image) {
        Some(pe) => pe,
        None => {
            return Err(Error::new(ErrorKind::InvalidExeFile, "unable to probe pe header"));
        },
    };
    let len = match pe_debug_len(&pe) {
        Some(len) => len,
        None => {
            return Err(
                Error::new(ErrorKind::InvalidExeFile, "unable to read debug_data in pe header"),
            );
        },
    };
    let mut records: Vec<CodeViewInfo> = Vec::new();
    let mut i: usize = 0;
    while i < len
        invariant
            i <= len,
        decreases len - i,
    {
        match pe_code_view(&pe, i) {
            Some(cv) => {
                records.push(code_view_info(&cv));
            },
            None => {},
        }
        i = i + 1;
    }
    Ok(records)
}

/// Reads the size of the image at `probe_addr` from its headers.
pub fn try_get_pe_size<T: MemoryView>(
    mem: &mut T,
    space: AddressSpace,
    probe_addr: Address,
) -> (r: Result<u64, Error>)
    ensures
        match r {
            Ok(size) => 0 < size <= u32::MAX,
            Err(e) => e.kind == ErrorKind::InvalidExeFile || e.kind == ErrorKind::NotFound,
        },
{
    match mem.read_raw(space, probe_addr, PROBE_SIZE).into_complete(PROBE_SIZE) {
        Some(probe) => image_size(probe.as_slice()),
        None => Err(Error::new(ErrorKind::NotFound, "unable to read pe header")),
    }
}

/// Reads the image at `probe_addr` in the size that its headers declare.
/// Pages that cannot be read are zero.
pub fn try_get_pe_image<T: MemoryView>(
    mem: &mut T,
    space: AddressSpace,
    probe_addr: Address,
) -> (r: Result<Vec<u8>, Error>)
    ensures
        match r {
            Ok(image) => 0 < image@.len() <= u32::MAX,
            Err(e) => e.kind == ErrorKind::InvalidExeFile || e.kind == ErrorKind::NotFound,
        },
{
    let size = try_get_pe_size(mem, space, probe_addr)?;
    let len: usize = size as usize;
    match mem.read_raw(space, probe_addr, len).into_data(len) {
        Some(image) => Ok(image),
        None => Err(Error::new(ErrorKind::NotFound, "unable to read pe image")),
    }
}

/// Reads the name that the image at `probe_addr` exports itself under.
pub fn try_get_pe_name<T: MemoryView>(
    mem: &mut T,
    space: AddressSpace,
    probe_addr: Address,
) -> (r: Result<String, Error>)
    ensures
        r matches Err(e) ==> e.kind == ErrorKind::InvalidExeFile || e.kind == ErrorKind::NotFound,
{
    let image = try_get_pe_image(mem, space, probe_addr)?;
    image_name(image.as_slice())
}

} // verus!
