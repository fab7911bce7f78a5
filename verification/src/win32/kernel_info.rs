//! What is found out about the kernel before anything can be read through it.

use crate::architecture::Architecture;
use crate::error::{Error, ErrorKind};
use crate::kernel::ntos::is_guid_text;
use crate::kernel::{ntos, start_block, sysproc, StartBlock, Win32Guid, Win32Version};
use crate::mem::{AddressSpace, MemoryView, PhysicalMemory, VirtualTranslate};
use crate::offsets::builder::Win32OffsetBuilder;
use crate::offsets::offset_table::Win32OffsetsArchitecture;
use crate::types::Address;
use vstd::prelude::*;

verus! {

/// Where the kernel image lies and what it runs on.
#[derive(Clone, Copy, Debug, PartialEq, Eq, Structural)]
pub struct OsInfo {
    /// Virtual address of the kernel image.
    pub base: Address,
    /// Size of the kernel image in bytes.
    pub size: u64,
    pub arch: Architecture,
}

/// What a scan of the guest's memory found out about its kernel.
#[derive(Clone, Debug)]
pub struct Win32KernelInfo {
    pub os_info: OsInfo,
    /// Physical address of the kernel's top-level translation table.
    pub dtb: Address,
    /// The kernel's program database, where the image names one.
    pub kernel_guid: Option<Win32Guid>,
    pub kernel_winver: Win32Version,
    /// Virtual address of the process object of the system process.
    pub eprocess_base: Address,
}

/// The version that stands in for one that cannot be read: NT 3.10, build 511.
pub open spec fn floor_winver(v: Win32Version) -> bool {
    v.major() == 3 && v.minor() == 10 && v.build() == 511
}

/// The version that a best-effort read gave, or the floor where it gave none.
pub fn winver_or_floor(found: Option<Win32Version>) -> (r: Win32Version)
    ensures
        match found {
            Some(v) => r == v,
            None => floor_winver(r),
        },
{
    match found {
        Some(v) => v,
        None => Win32Version::new(3, 10, 511),
    }
}

/// What is known of a kernel once its image and the system process were
/// found: where the image lies, the table of the start block, the program
/// database where it could be read and none where it could not, the version
/// where it could be read and the floor where it could not.
pub fn assemble(
    start_block: StartBlock,
    image: (Address, u64),
    guid: Result<Win32Guid, Error>,
    winver: Result<Win32Version, Error>,
    eprocess_base: Address,
) -> (info: Win32KernelInfo)
    ensures
        info.os_info == (OsInfo { base: image.0, size: image.1, arch: start_block.arch }),
        info.dtb == start_block.dtb,
        info.kernel_guid == match guid {
            Ok(found) => Some(found),
            Err(_) => None,
        },
        match winver {
            Ok(found) => info.kernel_winver == found,
            Err(_) => floor_winver(info.kernel_winver),
        },
        info.eprocess_base == eprocess_base,
{
    let kernel_guid = match guid {
        Ok(found) => Some(found),
        Err(_) => None,
    };
    let kernel_winver = winver_or_floor(
        match winver {
            Ok(found) => Some(found),
            Err(_) => None,
        },
    );
    Win32KernelInfo {
        os_info: OsInfo { base: image.0, size: image.1, arch: start_block.arch },
        dtb: start_block.dtb,
        kernel_guid,
        kernel_winver,
        eprocess_base,
    }
}

/// The start block that the caller supplied, which takes all three of
/// architecture, translation table and kernel hint.
pub fn supplied_block(arch: Option<Architecture>, dtb: Option<Address>, kernel_hint: Option<Address>)
    -> (r: Option<StartBlock>)
    ensures
        r == match (arch, dtb, kernel_hint) {
            (Some(arch), Some(dtb), Some(kernel_hint)) => Some(StartBlock { arch, kernel_hint, dtb }),
            _ => None,
        },
{
    match (arch, dtb, kernel_hint) {
        (Some(arch), Some(dtb), Some(kernel_hint)) => Some(StartBlock { arch, kernel_hint, dtb }),
        _ => None,
    }
}

/// The start block `found` with the caller's kernel hint where the search found none.
pub fn with_hint(found: StartBlock, kernel_hint: Option<Address>) -> (r: StartBlock)
    ensures
        r.arch == found.arch,
        r.dtb == found.dtb,
        r.kernel_hint == match kernel_hint {
            Some(hint) => if found.kernel_hint.0 == 0 {
                hint
            } else {
                found.kernel_hint
            },
            None => found.kernel_hint,
        },
{
    let mut block = found;
    match kernel_hint {
        Some(hint) => {
            if block.kernel_hint.is_null() {
                block.kernel_hint = hint;
            }
        },
        None => {},
    }
    block
}

/// What a kernel that was found from `start_block` is known to satisfy.
pub open spec fn scanned_from(info: Win32KernelInfo, start_block: StartBlock) -> bool {
    &&& info.os_info.arch == start_block.arch
    &&& info.dtb == start_block.dtb
    &&& info.os_info.base.0 % 0x1000 == 0
    &&& 0 < info.os_info.size <= u32::MAX
    &&& info.eprocess_base.0 != 0
    &&& floor_winver(info.kernel_winver) || info.kernel_winver.build() != 0
    &&& info.kernel_guid matches Some(guid) ==> is_guid_text(guid.guid@)
}

impl Win32KernelInfo {
    /// A scanner that searches `mem` for the kernel.
    pub fn scanner<T: PhysicalMemory + MemoryView + VirtualTranslate>(mem: T) -> (r: KernelInfoScanner<T>)
        ensures
            r.arch is None,
            r.kernel_hint is None,
            r.dtb is None,
    {
        KernelInfoScanner::new(mem)
    }

    /// Tells `offsets` what the scan found out, without overriding what it already knows.
    pub fn into_offset_builder<'a>(&self, offsets: Win32OffsetBuilder<'a>) -> (r:
        Win32OffsetBuilder<'a>)
        ensures
            r.store() == offsets.store(),
            r.list() == offsets.list(),
            offsets.spec_guid() is Some ==> r.spec_guid() == offsets.spec_guid(),
            offsets.spec_guid() is None ==> match self.kernel_guid {
                Some(found) => r.spec_guid() matches Some(guid) && guid.file_name@
                    == found.file_name@ && guid.guid@ == found.guid@,
                None => r.spec_guid() is None,
            },
            r.spec_winver() == match offsets.spec_winver() {
                Some(winver) => Some(winver),
                None => Some(self.kernel_winver),
            },
            r.spec_arch() == match offsets.spec_arch() {
                Some(arch) => Some(arch),
                None => Some(Win32OffsetsArchitecture::of(self.os_info.arch)),
            },
    {
        let mut offsets = offsets;
        if offsets.get_guid().is_none() {
            match &self.kernel_guid {
                Some(guid) => {
                    offsets = offsets.guid(guid.clone());
                },
                None => {},
            }
        }
        if offsets.get_winver().is_none() {
            offsets = offsets.winver(self.kernel_winver);
        }
        if offsets.get_arch().is_none() {
            offsets = offsets.arch(Win32OffsetsArchitecture::from(self.os_info.arch));
        }
        offsets
    }
}

/// Searches the memory of a guest for its kernel.
pub struct KernelInfoScanner<T> {
    pub mem: T,
    pub arch: Option<Architecture>,
    pub kernel_hint: Option<Address>,
    pub dtb: Option<Address>,
}

impl<T: PhysicalMemory + MemoryView + VirtualTranslate> KernelInfoScanner<T> {
    pub fn new(mem: T) -> (r: KernelInfoScanner<T>)
        ensures
            r.arch is None,
            r.kernel_hint is None,
            r.dtb is None,
    {
        KernelInfoScanner { mem, arch: None, kernel_hint: None, dtb: None }
    }

    /// Searches for the kernel. Where the caller supplied architecture,
    /// translation table and kernel hint, the search for a start block is
    /// left out. Where the kernel is not found from the first start block,
    /// another start block of the same architecture is tried once.
    pub fn scan(self) -> (r: Result<Win32KernelInfo, Error>)
        ensures
            match r {
                Ok(info) => scanned(info, self.arch, self.dtb, self.kernel_hint),
                Err(e) => e.kind == ErrorKind::NotFound || e.kind == ErrorKind::InvalidExeFile,
            },
    {
        let mut scanner = self;
        scanner.scan_in_place()
    }

    /// Does what [`KernelInfoScanner::scan`] does and leaves the scanner, with its memory, in place.
    pub fn scan_in_place(&mut self) -> (r: Result<Win32KernelInfo, Error>)
        ensures
            final(self).arch == old(self).arch,
            final(self).kernel_hint == old(self).kernel_hint,
            final(self).dtb == old(self).dtb,
            match r {
                Ok(info) => scanned(info, old(self).arch, old(self).dtb, old(self).kernel_hint),
                Err(e) => e.kind == ErrorKind::NotFound || e.kind == ErrorKind::InvalidExeFile,
            },
    {
        let start_block = match supplied_block(self.arch, self.dtb, self.kernel_hint) {
            Some(block) => block,
            None => {
                let found = start_block::find(&mut self.mem, self.arch)?;
                with_hint(found, self.kernel_hint)
            },
        };
        match self.scan_block(start_block) {
            Ok(info) => Ok(info),
            Err(_) => {
                let fallback = start_block::find_fallback(&mut self.mem, &start_block)?;
                self.scan_block(fallback)
            },
        }
    }

    /// Finds the kernel in the address space that `start_block` describes:
    /// its image, its program database and version as far as they can be
    /// read, and the system process.
    fn scan_block(&mut self, start_block: StartBlock) -> (r: Result<Win32KernelInfo, Error>)
        ensures
            final(self).arch == old(self).arch,
            final(self).kernel_hint == old(self).kernel_hint,
            final(self).dtb == old(self).dtb,
            match r {
                Ok(info) => scanned_from(info, start_block),
                Err(e) => e.kind == ErrorKind::NotFound || e.kind == ErrorKind::InvalidExeFile,
            },
    {
        let space = AddressSpace { arch: start_block.arch, dtb: start_block.dtb };
        let image = ntos::find(&mut self.mem, &start_block)?;
        let guid = ntos::find_guid(&mut self.mem, space, image.0);
        let winver = ntos::find_winver(&mut self.mem, space, image.0);
        let eprocess_base = sysproc::find(&mut self.mem, &start_block, image.0)?;

        // The table of the start block is the loader's; the kernel may have
        // switched to another one by now.
        Ok(assemble(start_block, image, guid, winver, eprocess_base))
    }

    /// The guest runs on `arch`.
    pub fn arch(self, arch: Architecture) -> (r: KernelInfoScanner<T>)
        ensures
            r.arch == Some(arch),
            r.kernel_hint == self.kernel_hint,
            r.dtb == self.dtb,
            r.mem == self.mem,
    {
        let mut scanner = self;
        scanner.arch = Some(arch);
        scanner
    }

    /// The kernel lies at or shortly below `kernel_hint`.
    pub fn kernel_hint(self, kernel_hint: Address) -> (r: KernelInfoScanner<T>)
        ensures
            r.arch == self.arch,
            r.kernel_hint == Some(kernel_hint),
            r.dtb == self.dtb,
            r.mem == self.mem,
    {
        let mut scanner = self;
        scanner.kernel_hint = Some(kernel_hint);
        scanner
    }

    /// The kernel's top-level translation table is at `dtb`.
    pub fn dtb(self, dtb: Address) -> (r: KernelInfoScanner<T>)
        ensures
            r.arch == self.arch,
            r.kernel_hint == self.kernel_hint,
            r.dtb == Some(dtb),
            r.mem == self.mem,
    {
        let mut scanner = self;
        scanner.dtb = Some(dtb);
        scanner
    }
}

/// What a kernel that a scan with these settings found is known to satisfy.
pub open spec fn scanned(
    info: Win32KernelInfo,
    arch: Option<Architecture>,
    dtb: Option<Address>,
    kernel_hint: Option<Address>,
) -> bool {
    &&& info.os_info.base.0 % 0x1000 == 0
    &&& 0 < info.os_info.size <= u32::MAX
    &&& info.eprocess_base.0 != 0
    &&& floor_winver(info.kernel_winver) || info.kernel_winver.build() != 0
    &&& info.kernel_guid matches Some(guid) ==> is_guid_text(guid.guid@)
    &&& (arch is Some && dtb is Some && kernel_hint is Some) ==> info.os_info.arch == arch->0
}

} // verus!
