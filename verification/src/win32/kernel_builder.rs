//! Setting up the kernel of a guest from its memory.

use crate::architecture::Architecture;
use crate::error::{Error, ErrorKind};
use crate::mem::{MemoryView, PhysicalMemory, VirtualTranslate};
use crate::offsets::builder::{lemma_listed_by_texts, listed_offsets, Win32OffsetBuilder};
use crate::offsets::offset_table::{Win32OffsetFile, Win32OffsetTable, Win32OffsetsArchitecture};
use crate::offsets::symstore::{is_default_store, SymbolBackend, SymbolStore};
use crate::offsets::pdb::PdbReader;
use crate::offsets::Win32Offsets;
use crate::types::Address;
use crate::win32::kernel_info::{scanned, KernelInfoScanner, Win32KernelInfo};
use vstd::prelude::*;

verus! {

/// Whether pages of physical memory are kept after they were read.
#[derive(Clone, Copy, Debug, PartialEq, Eq, Structural)]
pub enum PageCache {
    Disabled,
    /// A cache with the usual size and lifetime.
    Default,
}

/// Whether address translations are kept after they were made.
#[derive(Clone, Copy, Debug, PartialEq, Eq, Structural)]
pub enum VatCache {
    Disabled,
    /// A cache with the usual size and lifetime.
    Default,
    /// A cache of `entries` translations that are valid for `time_ms`
    /// milliseconds; a time of zero stands for the usual lifetime.
    Sized { entries: usize, time_ms: u64 },
}

/// The kernel of a Windows guest: what was found out about it, the offsets
/// of its structures and the memory through which it is read.
#[derive(Debug)]
pub struct Win32Kernel<T> {
    pub mem: T,
    pub kernel_info: Win32KernelInfo,
    pub offsets: Win32Offsets,
    pub page_cache: PageCache,
    pub vat_cache: VatCache,
}

impl<T> Win32Kernel<T> {
    pub fn new(
        mem: T,
        page_cache: PageCache,
        vat_cache: VatCache,
        offsets: Win32Offsets,
        kernel_info: Win32KernelInfo,
    ) -> (r: Win32Kernel<T>)
        ensures
            r.mem == mem,
            r.page_cache == page_cache,
            r.vat_cache == vat_cache,
            r.offsets == offsets,
            r.kernel_info == kernel_info,
    {
        Win32Kernel { mem, kernel_info, offsets, page_cache, vat_cache }
    }

    /// A builder that sets the kernel up from the memory `connector`.
    pub fn builder(connector: T) -> (r: Win32KernelBuilder<T>)
        ensures
            r.connector == connector,
            r.arch is None,
            r.kernel_hint is None,
            r.dtb is None,
            r.symbol_store matches Some(store) && is_default_store(store),
            r.offset_list is None,
            r.page_cache == PageCache::Disabled,
            r.vat_cache == VatCache::Disabled,
    {
        Win32KernelBuilder::new(connector)
    }
}

/// A builder for offsets that knows what the scan `kernel_info` found out.
pub fn offset_builder_with_kernel_info<'a>(kernel_info: &Win32KernelInfo) -> (r: Win32OffsetBuilder<
    'a,
>)
    ensures
        r.store() matches Some(store) && is_default_store(store),
        r.list() is None,
        match kernel_info.kernel_guid {
            Some(found) => r.spec_guid() matches Some(guid) && guid.file_name@ == found.file_name@
                && guid.guid@ == found.guid@,
            None => r.spec_guid() is None,
        },
        r.spec_winver() == Some(kernel_info.kernel_winver),
        r.spec_arch() == Some(Win32OffsetsArchitecture::of(kernel_info.os_info.arch)),
{
    kernel_info.into_offset_builder(Win32Offsets::builder())
}

/// Collects the settings for setting a kernel up and then does it: it scans
/// the memory for the kernel, obtains the offsets for its build and hands
/// out the kernel with the caches that were asked for.
pub struct Win32KernelBuilder<T> {
    pub connector: T,
    pub arch: Option<Architecture>,
    pub kernel_hint: Option<Address>,
    pub dtb: Option<Address>,
    pub symbol_store: Option<SymbolStore>,
    /// Known builds with their offsets; they are consulted before any symbol store.
    pub offset_list: Option<Vec<Win32OffsetFile>>,
    pub page_cache: PageCache,
    pub vat_cache: VatCache,
}

/// The offsets that a list of known builds holds for the kernel `info`.
pub open spec fn known_offsets(
    offset_list: Option<Vec<Win32OffsetFile>>,
    info: Win32KernelInfo,
) -> Option<Win32OffsetTable> {
    match offset_list {
        Some(list) => listed_offsets(
            list@,
            Win32OffsetsArchitecture::of(info.os_info.arch),
            info.kernel_guid,
            Some(info.kernel_winver),
        ),
        None => None,
    }
}

impl<T> Win32KernelBuilder<T> {
    /// A builder without hints and caches that asks the default symbol store.
    pub fn new(connector: T) -> (r: Win32KernelBuilder<T>)
        ensures
            r.connector == connector,
            r.arch is None,
            r.kernel_hint is None,
            r.dtb is None,
            r.symbol_store matches Some(store) && is_default_store(store),
            r.offset_list is None,
            r.page_cache == PageCache::Disabled,
            r.vat_cache == VatCache::Disabled,
    {
        Win32KernelBuilder {
            connector,
            arch: None,
            kernel_hint: None,
            dtb: None,
            symbol_store: Some(SymbolStore::default()),
            offset_list: None,
            page_cache: PageCache::Disabled,
            vat_cache: VatCache::Disabled,
        }
    }

    /// The guest runs on `arch`.
    pub fn arch(self, arch: Architecture) -> (r: Win32KernelBuilder<T>)
        ensures
            r == (Win32KernelBuilder { arch: Some(arch), ..self }),
    {
        let mut builder = self;
        builder.arch = Some(arch);
        builder
    }

    /// The kernel lies at or shortly below `kernel_hint`.
    pub fn kernel_hint(self, kernel_hint: Address) -> (r: Win32KernelBuilder<T>)
        ensures
            r == (Win32KernelBuilder { kernel_hint: Some(kernel_hint), ..self }),
    {
        let mut builder = self;
        builder.kernel_hint = Some(kernel_hint);
        builder
    }

    /// The kernel's top-level translation table is at `dtb`.
    pub fn dtb(self, dtb: Address) -> (r: Win32KernelBuilder<T>)
        ensures
            r == (Win32KernelBuilder { dtb: Some(dtb), ..self }),
    {
        let mut builder = self;
        builder.dtb = Some(dtb);
        builder
    }

    /// Asks `symbol_store` for the kernel's program database.
    pub fn symbol_store(self, symbol_store: SymbolStore) -> (r: Win32KernelBuilder<T>)
        ensures
            r == (Win32KernelBuilder { symbol_store: Some(symbol_store), ..self }),
    {
        let mut builder = self;
        builder.symbol_store = Some(symbol_store);
        builder
    }

    /// Asks no symbol store; the offsets have to come from a list of known builds.
    pub fn no_symbol_store(self) -> (r: Win32KernelBuilder<T>)
        ensures
            r == (Win32KernelBuilder { symbol_store: None, ..self }),
    {
        let mut builder = self;
        builder.symbol_store = None;
        builder
    }

    /// Consults `offset_list`, a list of known builds, before any symbol
    /// store. With such a list a kernel can be set up without a symbol
    /// store and without knowing its program database.
    pub fn offset_list(self, offset_list: Vec<Win32OffsetFile>) -> (r: Win32KernelBuilder<T>)
        ensures
            r == (Win32KernelBuilder { offset_list: Some(offset_list), ..self }),
    {
        let mut builder = self;
        builder.offset_list = Some(offset_list);
        builder
    }

    /// Caches pages and translations with the usual settings.
    pub fn build_default_caches(self) -> (r: Win32KernelBuilder<T>)
        ensures
            r == (Win32KernelBuilder {
                page_cache: PageCache::Default,
                vat_cache: VatCache::Default,
                ..self
            }),
    {
        let mut builder = self;
        builder.page_cache = PageCache::Default;
        builder.vat_cache = VatCache::Default;
        builder
    }

    /// Caches pages as `page_cache` says.
    pub fn build_page_cache(self, page_cache: PageCache) -> (r: Win32KernelBuilder<T>)
        ensures
            r == (Win32KernelBuilder { page_cache, ..self }),
    {
        let mut builder = self;
        builder.page_cache = page_cache;
        builder
    }

    /// Caches translations as `vat_cache` says.
    pub fn build_vat_cache(self, vat_cache: VatCache) -> (r: Win32KernelBuilder<T>)
        ensures
            r == (Win32KernelBuilder { vat_cache, ..self }),
    {
        let mut builder = self;
        builder.vat_cache = vat_cache;
        builder
    }
}

impl<T: PhysicalMemory + MemoryView + VirtualTranslate> Win32KernelBuilder<T> {
    /// Sets the kernel up. Any stage may fail; nothing is handed out then.
    /// The offsets of the kernel are those that the list of known builds
    /// holds for it, where it holds any, and else those of the program
    /// database that the symbol store delivers.
    pub fn build<B: SymbolBackend + PdbReader>(self, backend: &mut B) -> (r: Result<Win32Kernel<T>, Error>)
        ensures
            match r {
                Ok(kernel) => {
                    &&& scanned(kernel.kernel_info, self.arch, self.dtb, self.kernel_hint)
                    &&& kernel.page_cache == self.page_cache
                    &&& kernel.vat_cache == self.vat_cache
                    &&& known_offsets(self.offset_list, kernel.kernel_info) matches Some(table)
                        ==> kernel.offsets.0 == table
                },
                Err(e) => e.kind == ErrorKind::NotFound || e.kind == ErrorKind::InvalidExeFile
                    || e.kind == ErrorKind::Configuration || e.kind == ErrorKind::Http || e.kind
                    == ErrorKind::Io || e.kind == ErrorKind::Offset,
            },
    {
        let Win32KernelBuilder {
            connector,
            arch,
            kernel_hint,
            dtb,
            symbol_store,
            offset_list,
            page_cache,
            vat_cache,
        } = self;
        let mut kernel_scanner = KernelInfoScanner { mem: connector, arch, kernel_hint, dtb };
        let kernel_info = kernel_scanner.scan_in_place()?;
        let offsets = build_offsets(&symbol_store, &offset_list, &kernel_info, backend)?;
        Ok(Win32Kernel::new(kernel_scanner.mem, page_cache, vat_cache, offsets, kernel_info))
    }
}

/// Obtains the offsets for the kernel `kernel_info`: those that the list of
/// known builds holds for it, where it holds any, and else those of its
/// program database, which `symbol_store` is asked for. Where the list does
/// not hold the kernel, a missing symbol store and a kernel whose database
/// is not known give [`ErrorKind::Configuration`], and nothing is asked for.
fn build_offsets<B: SymbolBackend + PdbReader>(
    symbol_store: &Option<SymbolStore>,
    offset_list: &Option<Vec<Win32OffsetFile>>,
    kernel_info: &Win32KernelInfo,
    backend: &mut B,
) -> (r: Result<Win32Offsets, Error>)
    ensures
        known_offsets(*offset_list, *kernel_info) matches Some(table) ==> r == Ok::<
            Win32Offsets,
            Error,
        >(Win32Offsets(table)),
        known_offsets(*offset_list, *kernel_info) is None && (*symbol_store is None
            || kernel_info.kernel_guid is None) ==> (r matches Err(e) && e.kind
            == ErrorKind::Configuration),
        r matches Err(e) ==> e.kind == ErrorKind::Configuration || e.kind == ErrorKind::Http
            || e.kind == ErrorKind::Io || e.kind == ErrorKind::Offset,
        r matches Err(e) && e.kind != ErrorKind::Configuration ==> *symbol_store is Some
            && kernel_info.kernel_guid is Some,
{
    let mut builder = offset_builder_with_kernel_info(kernel_info);
    match symbol_store {
        Some(store) => {
            builder = builder.symbol_store(store.clone());
        },
        None => {
            builder = builder.no_symbol_store();
        },
    }
    match offset_list {
        Some(list) => {
            builder = builder.offset_list(list.as_slice());
            proof {
                lemma_listed_by_texts(
                    list@,
                    Win32OffsetsArchitecture::of(kernel_info.os_info.arch),
                    builder.spec_guid(),
                    kernel_info.kernel_guid,
                    Some(kernel_info.kernel_winver),
                );
            }
        },
        None => {},
    }
    builder.build(backend)
}

} // verus!
