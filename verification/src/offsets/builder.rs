//! Choosing where the kernel offsets come from.

use crate::error::{Error, ErrorKind};
use crate::kernel::{Win32Guid, Win32Version};
use crate::offsets::offset_table::{Win32OffsetFile, Win32OffsetTable, Win32OffsetsArchitecture};
use crate::offsets::symstore::{is_default_store, SymbolBackend, SymbolStore};
use crate::offsets::pdb::PdbReader;
use crate::offsets::Win32Offsets;
use vstd::prelude::*;

verus! {

/// Whether `entry` was made for the database `guid` on `arch`.
pub open spec fn matches_guid(
    entry: Win32OffsetFile,
    arch: Win32OffsetsArchitecture,
    guid: Win32Guid,
) -> bool {
    &&& entry.header.arch == arch
    &&& entry.header.pdb_file_name@ == guid.file_name@
    &&& entry.header.pdb_guid@ == guid.guid@
}

/// Whether `entry` was made for the kernel version `winver` on `arch`.
pub open spec fn matches_winver(
    entry: Win32OffsetFile,
    arch: Win32OffsetsArchitecture,
    winver: Win32Version,
) -> bool {
    &&& entry.header.arch == arch
    &&& entry.header.nt_major_version == winver.major()
    &&& entry.header.nt_minor_version == winver.minor()
    &&& entry.header.nt_build_number == winver.build()
}

/// Position of the first entry of `list` below `upto` that was made for the database `guid`.
pub open spec fn first_by_guid(
    list: Seq<Win32OffsetFile>,
    arch: Win32OffsetsArchitecture,
    guid: Win32Guid,
    upto: int,
) -> Option<int>
    decreases upto,
{
    if upto <= 0 {
        None
    } else {
        match first_by_guid(list, arch, guid, upto - 1) {
            Some(i) => Some(i),
            None => if matches_guid(list[upto - 1], arch, guid) {
                Some(upto - 1)
            } else {
                None
            },
        }
    }
}

/// Position of the first entry of `list` below `upto` that was made for the version `winver`.
pub open spec fn first_by_winver(
    list: Seq<Win32OffsetFile>,
    arch: Win32OffsetsArchitecture,
    winver: Win32Version,
    upto: int,
) -> Option<int>
    decreases upto,
{
    if upto <= 0 {
        None
    } else {
        match first_by_winver(list, arch, winver, upto - 1) {
            Some(i) => Some(i),
            None => if matches_winver(list[upto - 1], arch, winver) {
                Some(upto - 1)
            } else {
                None
            },
        }
    }
}

/// The table that a list of known builds holds for the kernel at hand: the
/// first entry for its database where the database is known and listed,
/// else the first entry for its version where the version is known.
pub open spec fn listed_offsets(
    list: Seq<Win32OffsetFile>,
    arch: Win32OffsetsArchitecture,
    guid: Option<Win32Guid>,
    winver: Option<Win32Version>,
) -> Option<Win32OffsetTable> {
    let by_guid = match guid {
        Some(guid) => first_by_guid(list, arch, guid, list.len() as int),
        None => None,
    };
    let by_winver = match winver {
        Some(winver) => first_by_winver(list, arch, winver, list.len() as int),
        None => None,
    };
    match by_guid {
        Some(i) => Some(list[i].offsets),
        None => match by_winver {
            Some(i) => Some(list[i].offsets),
            None => None,
        },
    }
}

/// Looks the kernel at hand up in a list of known builds.
pub fn find_listed(
    list: &[Win32OffsetFile],
    arch: Win32OffsetsArchitecture,
    guid: &Option<Win32Guid>,
    winver: &Option<Win32Version>,
) -> (r: Option<Win32OffsetTable>)
    ensures
        r == listed_offsets(list@, arch, *guid, *winver),
{
    match guid {
        Some(g) => {
            let mut i: usize = 0;
            while i < list.len()
                invariant
                    i <= list.len(),
                    *guid == Some(*g),
                    first_by_guid(list@, arch, *g, i as int) is None,
                decreases list.len() - i,
            {
                let header = &list[i].header;
                if header.arch == arch && header.pdb_file_name == g.file_name && header.pdb_guid
                    == g.guid {
                    proof {
                        assert(matches_guid(list@[i as int], arch, *g));
                        assert(first_by_guid(list@, arch, *g, i + 1) == Some(i as int));
                        lemma_first_by_guid_stays(list@, arch, *g, i + 1, list@.len() as int);
                    }
                    return Some(list[i].offsets);
                }
                assert(!matches_guid(list@[i as int], arch, *g));
                i = i + 1;
            }
        },
        None => {},
    }
    match winver {
        Some(v) => {
            let mut i: usize = 0;
            while i < list.len()
                invariant
                    i <= list.len(),
                    *winver == Some(*v),
                    *guid matches Some(g) ==> first_by_guid(list@, arch, g, list@.len() as int)
                        is None,
                    first_by_winver(list@, arch, *v, i as int) is None,
                decreases list.len() - i,
            {
                let header = &list[i].header;
                if header.arch == arch && header.nt_major_version == v.major_version()
                    && header.nt_minor_version == v.minor_version() && header.nt_build_number
                    == v.build_number() {
                    proof {
                        assert(matches_winver(list@[i as int], arch, *v));
                        assert(first_by_winver(list@, arch, *v, i + 1) == Some(i as int));
                        lemma_first_by_winver_stays(list@, arch, *v, i + 1, list@.len() as int);
                    }
                    return Some(list[i].offsets);
                }
                assert(!matches_winver(list@[i as int], arch, *v));
                i = i + 1;
            }
        },
        None => {},
    }
    None
}

/// An entry that is the first one stays the first one when more entries are looked at.
proof fn lemma_first_by_guid_stays(
    list: Seq<Win32OffsetFile>,
    arch: Win32OffsetsArchitecture,
    guid: Win32Guid,
    from: int,
    upto: int,
)
    requires
        from <= upto,
        first_by_guid(list, arch, guid, from) is Some,
    ensures
        first_by_guid(list, arch, guid, upto) == first_by_guid(list, arch, guid, from),
    decreases upto - from,
{
    if from < upto {
        lemma_first_by_guid_stays(list, arch, guid, from, upto - 1);
    }
}

/// An entry that is the first one stays the first one when more entries are looked at.
proof fn lemma_first_by_winver_stays(
    list: Seq<Win32OffsetFile>,
    arch: Win32OffsetsArchitecture,
    winver: Win32Version,
    from: int,
    upto: int,
)
    requires
        from <= upto,
        first_by_winver(list, arch, winver, from) is Some,
    ensures
        first_by_winver(list, arch, winver, upto) == first_by_winver(list, arch, winver, from),
    decreases upto - from,
{
    if from < upto {
        lemma_first_by_winver_stays(list, arch, winver, from, upto - 1);
    }
}

/// What a list holds for a database depends on the texts of its identifier alone.
pub proof fn lemma_listed_by_texts(
    list: Seq<Win32OffsetFile>,
    arch: Win32OffsetsArchitecture,
    a: Option<Win32Guid>,
    b: Option<Win32Guid>,
    winver: Option<Win32Version>,
)
    requires
        match (a, b) {
            (Some(x), Some(y)) => x.file_name@ == y.file_name@ && x.guid@ == y.guid@,
            (None, None) => true,
            _ => false,
        },
    ensures
        listed_offsets(list, arch, a, winver) == listed_offsets(list, arch, b, winver),
{
    if a is Some {
        lemma_first_by_guid_texts(list, arch, a->0, b->0, list.len() as int);
    }
}

proof fn lemma_first_by_guid_texts(
    list: Seq<Win32OffsetFile>,
    arch: Win32OffsetsArchitecture,
    a: Win32Guid,
    b: Win32Guid,
    upto: int,
)
    requires
        a.file_name@ == b.file_name@,
        a.guid@ == b.guid@,
    ensures
        first_by_guid(list, arch, a, upto) == first_by_guid(list, arch, b, upto),
    decreases upto,
{
    if upto > 0 {
        lemma_first_by_guid_texts(list, arch, a, b, upto - 1);
    }
}

/// Collects what is known of a kernel and obtains its offsets.
#[derive(Debug)]
pub struct Win32OffsetBuilder<'a> {
    symbol_store: Option<SymbolStore>,
    guid: Option<Win32Guid>,
    winver: Option<Win32Version>,
    arch: Option<Win32OffsetsArchitecture>,
    offset_list: Option<&'a [Win32OffsetFile]>,
}

impl<'a> Default for Win32OffsetBuilder<'a> {
    fn default() -> (r: Win32OffsetBuilder<'a>)
        ensures
            r.store() matches Some(store) && is_default_store(store),
            r.spec_guid() is None,
            r.spec_winver() is None,
            r.spec_arch() is None,
            r.list() is None,
    {
        Win32OffsetBuilder {
            symbol_store: Some(SymbolStore::default()),
            guid: None,
            winver: None,
            arch: None,
            offset_list: None,
        }
    }
}

impl<'a> Win32OffsetBuilder<'a> {
    pub closed spec fn store(&self) -> Option<SymbolStore> {
        self.symbol_store
    }

    pub closed spec fn spec_guid(&self) -> Option<Win32Guid> {
        self.guid
    }

    pub closed spec fn spec_winver(&self) -> Option<Win32Version> {
        self.winver
    }

    pub closed spec fn spec_arch(&self) -> Option<Win32OffsetsArchitecture> {
        self.arch
    }

    pub closed spec fn list(&self) -> Option<Seq<Win32OffsetFile>> {
        match self.offset_list {
            Some(list) => Some(list@),
            None => None,
        }
    }

    /// The table that the list of known builds gives, where the builder has
    /// a list and knows the architecture.
    pub open spec fn listed(&self) -> Option<Win32OffsetTable> {
        match (self.list(), self.spec_arch()) {
            (Some(list), Some(arch)) => listed_offsets(
                list,
                arch,
                self.spec_guid(),
                self.spec_winver(),
            ),
            _ => None,
        }
    }

    /// A builder that knows nothing yet and asks the default symbol store.
    pub fn new() -> (r: Win32OffsetBuilder<'a>)
        ensures
            r.store() matches Some(store) && is_default_store(store),
            r.spec_guid() is None,
            r.spec_winver() is None,
            r.spec_arch() is None,
            r.list() is None,
    {
        Win32OffsetBuilder::default()
    }

    /// Asks `symbol_store` for program databases.
    pub fn symbol_store(self, symbol_store: SymbolStore) -> (r: Win32OffsetBuilder<'a>)
        ensures
            r.store() == Some(symbol_store),
            r.spec_guid() == self.spec_guid(),
            r.spec_winver() == self.spec_winver(),
            r.spec_arch() == self.spec_arch(),
            r.list() == self.list(),
    {
        let mut builder = self;
        builder.symbol_store = Some(symbol_store);
        builder
    }

    /// Asks no symbol store.
    pub fn no_symbol_store(self) -> (r: Win32OffsetBuilder<'a>)
        ensures
            r.store() is None,
            r.spec_guid() == self.spec_guid(),
            r.spec_winver() == self.spec_winver(),
            r.spec_arch() == self.spec_arch(),
            r.list() == self.list(),
    {
        let mut builder = self;
        builder.symbol_store = None;
        builder
    }

    /// The kernel's program database is `guid`.
    pub fn guid(self, guid: Win32Guid) -> (r: Win32OffsetBuilder<'a>)
        ensures
            r.store() == self.store(),
            r.spec_guid() == Some(guid),
            r.spec_winver() == self.spec_winver(),
            r.spec_arch() == self.spec_arch(),
            r.list() == self.list(),
    {
        let mut builder = self;
        builder.guid = Some(guid);
        builder
    }

    #[verifier::when_used_as_spec(spec_guid_ref)]
    pub fn get_guid(&self) -> (r: &Option<Win32Guid>)
        ensures
            *r == self.spec_guid(),
    {
        &self.guid
    }

    pub closed spec fn spec_guid_ref(&self) -> &Option<Win32Guid> {
        &self.guid
    }

    /// The kernel's version is `winver`.
    pub fn winver(self, winver: Win32Version) -> (r: Win32OffsetBuilder<'a>)
        ensures
            r.store() == self.store(),
            r.spec_guid() == self.spec_guid(),
            r.spec_winver() == Some(winver),
            r.spec_arch() == self.spec_arch(),
            r.list() == self.list(),
    {
        let mut builder = self;
        builder.winver = Some(winver);
        builder
    }

    #[verifier::when_used_as_spec(spec_winver_ref)]
    pub fn get_winver(&self) -> (r: &Option<Win32Version>)
        ensures
            *r == self.spec_winver(),
    {
        &self.winver
    }

    pub closed spec fn spec_winver_ref(&self) -> &Option<Win32Version> {
        &self.winver
    }

    /// The kernel runs on `arch`.
    pub fn arch(self, arch: Win32OffsetsArchitecture) -> (r: Win32OffsetBuilder<'a>)
        ensures
            r.store() == self.store(),
            r.spec_guid() == self.spec_guid(),
            r.spec_winver() == self.spec_winver(),
            r.spec_arch() == Some(arch),
            r.list() == self.list(),
    {
        let mut builder = self;
        builder.arch = Some(arch);
        builder
    }

    #[verifier::when_used_as_spec(spec_arch_ref)]
    pub fn get_arch(&self) -> (r: &Option<Win32OffsetsArchitecture>)
        ensures
            *r == self.spec_arch(),
    {
        &self.arch
    }

    pub closed spec fn spec_arch_ref(&self) -> &Option<Win32OffsetsArchitecture> {
        &self.arch
    }

    /// Consults `offset_list`, a list of known builds, before any symbol store.
    pub fn offset_list(self, offset_list: &'a [Win32OffsetFile]) -> (r: Win32OffsetBuilder<'a>)
        ensures
            r.store() == self.store(),
            r.spec_guid() == self.spec_guid(),
            r.spec_winver() == self.spec_winver(),
            r.spec_arch() == self.spec_arch(),
            r.list() == Some(offset_list@),
    {
        let mut builder = self;
        builder.offset_list = Some(offset_list);
        builder
    }

    /// Obtains the offsets: from the list of known builds where it holds the
    /// kernel, else from the program database that the symbol store
    /// delivers and `backend` reads. Fails with [`ErrorKind::Configuration`] where neither the
    /// database nor the version of the kernel is known, and where the list
    /// does not hold the kernel and no symbol store can be asked for its database.
    pub fn build<B: SymbolBackend + PdbReader>(self, backend: &mut B) -> (r: Result<Win32Offsets, Error>)
        ensures
            self.spec_guid() is None && self.spec_winver() is None ==> (r matches Err(e) && e.kind
                == ErrorKind::Configuration),
            (self.spec_guid() is Some || self.spec_winver() is Some) && self.listed() is Some
                ==> r == Ok::<Win32Offsets, Error>(Win32Offsets(self.listed()->0)),
            self.listed() is None && (self.store() is None || self.spec_guid() is None) ==> (
            r matches Err(e) && e.kind == ErrorKind::Configuration),
            r matches Err(e) ==> e.kind == ErrorKind::Configuration || e.kind == ErrorKind::Http
                || e.kind == ErrorKind::Io || e.kind == ErrorKind::Offset,
    {
        if self.guid.is_none() && self.winver.is_none() {
            return Err(
                Error::new(
                    ErrorKind::Configuration,
                    "building win32 offsets requires either a guid or winver",
                ),
            );
        }
        match (self.offset_list, self.arch) {
            (Some(list), Some(arch)) => {
                match find_listed(list, arch, &self.guid, &self.winver) {
                    Some(table) => {
                        return Ok(Win32Offsets(table));
                    },
                    None => {},
                }
            },
            _ => {},
        }
        match (&self.symbol_store, &self.guid) {
            (Some(store), Some(guid)) => {
                let pdb = store.load(backend, guid)?;
                Win32Offsets::from_pdb_slice(backend, pdb.as_slice())
            },
            _ => Err(
                Error::new(
                    ErrorKind::Configuration,
                    "no valid offset configuration found while building win32",
                ),
            ),
        }
    }
}

} // verus!
