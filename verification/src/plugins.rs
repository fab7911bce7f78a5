//! Setting a kernel up from the textual arguments of a plugin loader.

use crate::architecture::Architecture;
use crate::error::{Error, ErrorKind};
use crate::mem::{MemoryView, PhysicalMemory, VirtualTranslate};
use crate::offsets::pdb::PdbReader;
use crate::offsets::symstore::{default_base_url, SymbolBackend, SymbolStore};
use crate::text::{parse_u64, parsed_u64};
use crate::types::Address;
use crate::win32::kernel_builder::{VatCache, Win32Kernel, Win32KernelBuilder};
use vstd::prelude::*;

verus! {

/// Named arguments in the order in which they were given.
#[derive(Debug)]
pub struct Args {
    entries: Vec<(String, String)>,
}

/// The value of the first of `entries` that is called `key`.
pub open spec fn first_value(entries: Seq<(String, String)>, key: Seq<char>, from: int) -> Option<
    Seq<char>,
>
    decreases entries.len() - from,
{
    if from < 0 || from >= entries.len() {
        None
    } else if entries[from].0@ == key {
        Some(entries[from].1@)
    } else {
        first_value(entries, key, from + 1)
    }
}

impl Args {
    /// The arguments as pairs of name and value.
    pub closed spec fn entries(&self) -> Seq<(String, String)> {
        self.entries@
    }

    /// The value of the argument called `key`.
    pub open spec fn value(&self, key: Seq<char>) -> Option<Seq<char>> {
        first_value(self.entries(), key, 0)
    }

    /// No arguments.
    pub fn new() -> (r: Args)
        ensures
            r.entries().len() == 0,
    {
        Args { entries: Vec::new() }
    }

    /// The same arguments and then `key` with `value`.
    pub fn insert(self, key: &str, value: &str) -> (r: Args)
        ensures
            r.entries().len() == self.entries().len() + 1,
            r.entries().drop_last() == self.entries(),
            r.entries().last().0@ == key@,
            r.entries().last().1@ == value@,
    {
        let mut args = self;
        args.entries.push((String::from_str(key), String::from_str(value)));
        assert(args.entries@.drop_last() =~= self.entries@);
        args
    }

    /// The value of the argument called `key`; the first one where several are.
    pub fn get(&self, key: &str) -> (r: Option<&String>)
        ensures
            match r {
                Some(value) => self.value(key@) == Some(value@),
                None => self.value(key@) is None,
            },
    {
        let wanted = String::from_str(key);
        let mut i: usize = 0;
        while i < self.entries.len()
            invariant
                i <= self.entries.len(),
                wanted@ == key@,
                first_value(self.entries@, key@, 0) == first_value(self.entries@, key@, i as int),
            decreases self.entries.len() - i,
        {
            if self.entries[i].0 == wanted {
                return Some(&self.entries[i].1);
            }
            i = i + 1;
        }
        None
    }
}

/// The character `c` with upper-case Latin letters made lower-case.
pub open spec fn lower(c: char) -> char {
    if 'A' <= c <= 'Z' {
        ((c as u8) + 32) as char
    } else {
        c
    }
}

/// Whether `a` and `b` are the same text when the case of Latin letters is ignored.
pub open spec fn same_ignoring_case(a: Seq<char>, b: Seq<char>) -> bool {
    a.len() == b.len() && forall|i: int| 0 <= i < a.len() ==> lower(a[i]) == lower(b[i])
}

/// Tells whether `a` and `b` are the same text when the case of Latin letters is ignored.
pub fn eq_ignoring_case(a: &str, b: &str) -> (r: bool)
    ensures
        r == same_ignoring_case(a@, b@),
{
    let len: usize = a.unicode_len();
    if b.unicode_len() != len {
        return false;
    }
    let mut i: usize = 0;
    while i < len
        invariant
            i <= len,
            len == a@.len(),
            len == b@.len(),
            forall|j: int| 0 <= j < i ==> lower(a@[j]) == lower(b@[j]),
        decreases len - i,
    {
        let x = a.get_char(i);
        let y = b.get_char(i);
        let lx = if 'A' <= x && x <= 'Z' {
            ((x as u8) + 32) as char
        } else {
            x
        };
        let ly = if 'A' <= y && y <= 'Z' {
            ((y as u8) + 32) as char
        } else {
            y
        };
        if lx != ly {
            return false;
        }
        i = i + 1;
    }
    true
}

/// The architecture that the argument `arch` names: `x64`, `x32`,
/// `x32_pae` or `aarch64`, in any case of the letters.
pub open spec fn named_arch(value: Seq<char>) -> Option<Architecture> {
    if same_ignoring_case(value, "x64"@) {
        Some(Architecture::X64)
    } else if same_ignoring_case(value, "x32"@) {
        Some(Architecture::X86)
    } else if same_ignoring_case(value, "x32_pae"@) {
        Some(Architecture::X86Pae)
    } else if same_ignoring_case(value, "aarch64"@) {
        Some(Architecture::AArch64)
    } else {
        None
    }
}

/// Reads the name of an architecture.
pub fn parse_arch(value: &str) -> (r: Option<Architecture>)
    ensures
        r == named_arch(value@),
{
    if eq_ignoring_case(value, "x64") {
        Some(Architecture::X64)
    } else if eq_ignoring_case(value, "x32") {
        Some(Architecture::X86)
    } else if eq_ignoring_case(value, "x32_pae") {
        Some(Architecture::X86Pae)
    } else if eq_ignoring_case(value, "aarch64") {
        Some(Architecture::AArch64)
    } else {
        None
    }
}

/// Position of the first semicolon in `s` from `from` on.
pub open spec fn first_semicolon(s: Seq<char>, from: int) -> Option<int>
    decreases s.len() - from,
{
    if from < 0 || from >= s.len() {
        None
    } else if s[from] == ';' {
        Some(from)
    } else {
        first_semicolon(s, from + 1)
    }
}

/// The cache that the argument `vatcache` asks for. `default`, or no
/// argument, asks for the usual cache and `none` for no change. Anything
/// else is the number of entries in hexadecimal digits, which the lifetime
/// in milliseconds in decimal digits may follow after a semicolon; zero
/// entries ask for the usual cache. `Err` stands for text of no such form.
pub open spec fn vatcache_setting(value: Option<Seq<char>>) -> Result<Option<VatCache>, ()> {
    match value {
        None => Ok(Some(VatCache::Default)),
        Some(text) => {
            if text == "default"@ {
                Ok(Some(VatCache::Default))
            } else if text == "none"@ {
                Ok(None)
            } else {
                let (entries, time) = match first_semicolon(text, 0) {
                    Some(i) => (
                        parsed_u64(text.subrange(0, i), 16),
                        parsed_u64(text.subrange(i + 1, text.len() as int), 10),
                    ),
                    None => (parsed_u64(text, 16), Some(0u64)),
                };
                match (entries, time) {
                    (Some(entries), Some(time_ms)) => if entries > usize::MAX {
                        Err(())
                    } else if entries == 0 {
                        Ok(Some(VatCache::Default))
                    } else {
                        Ok(Some(VatCache::Sized { entries: entries as usize, time_ms }))
                    },
                    _ => Err(()),
                }
            }
        },
    }
}

/// Reads the argument `vatcache`.
pub fn parse_vatcache(value: Option<&String>) -> (r: Result<Option<VatCache>, Error>)
    ensures
        match r {
            Ok(setting) => vatcache_setting(
                match value {
                    Some(text) => Some(text@),
                    None => None,
                },
            ) == Ok::<_, ()>(setting),
            Err(e) => e.kind == ErrorKind::Configuration && vatcache_setting(
                match value {
                    Some(text) => Some(text@),
                    None => None,
                },
            ) is Err,
        },
{
    let text = match value {
        Some(text) => text,
        None => {
            return Ok(Some(VatCache::Default));
        },
    };
    if *text == String::from_str("default") {
        return Ok(Some(VatCache::Default));
    }
    if *text == String::from_str("none") {
        return Ok(None);
    }
    let len: usize = text.as_str().unicode_len();
    let mut i: usize = 0;
    while i < len && text.as_str().get_char(i) != ';'
        invariant
            i <= len,
            len == text@.len(),
            first_semicolon(text@, 0) == first_semicolon(text@, i as int),
        decreases len - i,
    {
        i = i + 1;
    }
    let (entries, time) = if i < len {
        (
            parse_u64(text.as_str().substring_char(0, i), 16),
            parse_u64(text.as_str().substring_char(i + 1, len), 10),
        )
    } else {
        assert(text@.subrange(0, len as int) =~= text@);
        (parse_u64(text.as_str(), 16), Some(0u64))
    };
    match (entries, time) {
        (Some(entries), Some(time_ms)) => {
            if entries > usize::MAX as u64 {
                Err(Error::new(ErrorKind::Configuration, "Failed to parse VAT size"))
            } else if entries == 0 {
                Ok(Some(VatCache::Default))
            } else {
                Ok(Some(VatCache::Sized { entries: entries as usize, time_ms }))
            }
        },
        (None, _) => Err(Error::new(ErrorKind::Configuration, "Failed to parse VAT size")),
        (_, None) => Err(Error::new(ErrorKind::Configuration, "Failed to parse VAT validity time")),
    }
}

/// The address that an argument gives in hexadecimal digits, or `current`
/// where there is no such argument or it is no number.
pub open spec fn address_setting(value: Option<Seq<char>>, current: Option<Address>) -> Option<
    Address,
> {
    match value {
        Some(text) => match parsed_u64(text, 16) {
            Some(address) => Some(Address(address)),
            None => current,
        },
        None => current,
    }
}

/// Reads an argument that gives an address.
pub fn parse_address(value: Option<&String>, current: Option<Address>) -> (r: Option<Address>)
    ensures
        r == address_setting(
            match value {
                Some(text) => Some(text@),
                None => None,
            },
            current,
        ),
{
    match value {
        Some(text) => match parse_u64(text.as_str(), 16) {
            Some(address) => Some(Address(address)),
            None => current,
        },
        None => current,
    }
}

/// What the arguments make of the settings `before`: `dtb` and
/// `kernel_hint` give addresses, `vatcache` the cache for translations,
/// `arch` the architecture, and `symstore` turns the symbol store off
/// (`none`) or its cache (`uncached`).
pub open spec fn configured<T>(
    before: Win32KernelBuilder<T>,
    args: Args,
    after: Win32KernelBuilder<T>,
) -> bool {
    &&& after.connector == before.connector
    &&& after.page_cache == before.page_cache
    &&& after.offset_list == before.offset_list
    &&& after.dtb == address_setting(args.value("dtb"@), before.dtb)
    &&& after.kernel_hint == address_setting(args.value("kernel_hint"@), before.kernel_hint)
    &&& vatcache_setting(args.value("vatcache"@)) matches Ok(setting) && after.vat_cache == match setting {
        Some(cache) => cache,
        None => before.vat_cache,
    }
    &&& after.arch == match args.value("arch"@) {
        Some(text) => match named_arch(text) {
            Some(arch) => Some(arch),
            None => before.arch,
        },
        None => before.arch,
    }
    &&& if args.value("symstore"@) == Some("uncached"@) {
        after.symbol_store matches Some(store) && store.url() == default_base_url() && store.cache()
            is None
    } else if args.value("symstore"@) == Some("none"@) {
        after.symbol_store is None
    } else {
        after.symbol_store == before.symbol_store
    }
}

/// Applies the arguments to the settings of `builder`. Fails with
/// [`ErrorKind::Configuration`] where `vatcache` cannot be read.
pub fn configure<T>(builder: Win32KernelBuilder<T>, args: &Args) -> (r: Result<
    Win32KernelBuilder<T>,
    Error,
>)
    ensures
        match r {
            Ok(after) => configured(builder, *args, after),
            Err(e) => e.kind == ErrorKind::Configuration && vatcache_setting(
                args.value("vatcache"@),
            ) is Err,
        },
{
    let mut after = builder;
    after.dtb = parse_address(args.get("dtb"), after.dtb);
    match parse_vatcache(args.get("vatcache"))? {
        Some(cache) => {
            after.vat_cache = cache;
        },
        None => {},
    }
    after.kernel_hint = parse_address(args.get("kernel_hint"), after.kernel_hint);
    match args.get("symstore") {
        Some(text) => {
            if *text == String::from_str("uncached") {
                after.symbol_store = Some(SymbolStore::new().no_cache());
            } else if *text == String::from_str("none") {
                after.symbol_store = None;
            }
        },
        None => {},
    }
    match args.get("arch") {
        Some(text) => match parse_arch(text.as_str()) {
            Some(arch) => {
                after.arch = Some(arch);
            },
            None => {},
        },
        None => {},
    }
    Ok(after)
}

/// Sets the kernel of the guest with the memory `mem` up as `args` say.
/// Fails with [`ErrorKind::Configuration`] where no memory is given.
pub fn create_os<T: PhysicalMemory + MemoryView + VirtualTranslate, B: SymbolBackend + PdbReader>(
    args: &Args,
    mem: Option<T>,
    backend: &mut B,
) -> (r: Result<Win32Kernel<T>, Error>)
    ensures
        mem is None ==> (r matches Err(e) && e.kind == ErrorKind::Configuration),
        vatcache_setting(args.value("vatcache"@)) is Err ==> (r matches Err(e) && e.kind
            == ErrorKind::Configuration),
        r matches Ok(kernel) ==> 0 < kernel.kernel_info.os_info.size <= u32::MAX
            && kernel.kernel_info.eprocess_base.0 != 0,
{
    let mem = match mem {
        Some(mem) => mem,
        None => {
            return Err(Error::new(ErrorKind::Configuration, "Must provide memory!"));
        },
    };
    let builder = configure(Win32Kernel::builder(mem), args)?;
    builder.build(backend)
}

} // verus!
