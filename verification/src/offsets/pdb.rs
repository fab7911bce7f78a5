//! Structure layouts and public symbols as found in a program database.
//!
//! The records of a database are read by whoever implements [`PdbReader`];
//! what they mean is decided here: which record defines a structure, which
//! field lists belong to it, where its members sit, and at which address a
//! symbol lies.
//!
//! A database comes from a server or from a cache on disk and may hold
//! anything. Parsers of the format tend to stop the program on records that
//! no compiler writes; behind the trait such a parser cannot break what the
//! functions of this module promise for every input, and the sums that
//! give an address are made here, with their overflow checked.

use crate::error::{Error, ErrorKind};
use vstd::prelude::*;

verus! {

/// Where a member sits inside its structure.
#[derive(Clone, Copy, Debug, PartialEq, Eq, Structural)]
pub struct PdbField {
    /// Byte offset from the start of the structure.
    pub offset: u32,
    /// Position of the first bit for a bit-field member, zero otherwise.
    pub bit_offset: u8,
}

/// The map that results from inserting `entries` one after the other.
pub open spec fn entries_to_map<V>(entries: Seq<(String, V)>) -> Map<Seq<char>, V>
    decreases entries.len(),
{
    if entries.len() == 0 {
        Map::empty()
    } else {
        entries_to_map(entries.drop_last()).insert(entries.last().0@, entries.last().1)
    }
}

/// The value stored under `name`, if there is one.
pub open spec fn lookup<V>(m: Map<Seq<char>, V>, name: Seq<char>) -> Option<V> {
    if m.contains_key(name) {
        Some(m[name])
    } else {
        None
    }
}

proof fn lemma_lookup_last<V>(entries: Seq<(String, V)>, name: Seq<char>, i: int)
    requires
        0 <= i < entries.len(),
        entries[i].0@ == name,
        forall|j: int| i < j < entries.len() ==> entries[j].0@ != name,
    ensures
        lookup(entries_to_map(entries), name) == Some(entries[i].1),
    decreases entries.len(),
{
    if i < entries.len() - 1 {
        lemma_lookup_last(entries.drop_last(), name, i);
    }
}

proof fn lemma_lookup_absent<V>(entries: Seq<(String, V)>, name: Seq<char>)
    requires
        forall|j: int| 0 <= j < entries.len() ==> entries[j].0@ != name,
    ensures
        lookup(entries_to_map(entries), name) == None::<V>,
    decreases entries.len(),
{
    if entries.len() > 0 {
        lemma_lookup_absent(entries.drop_last(), name);
    }
}

/// The members of one structure, by name.
#[derive(Clone, Debug)]
pub struct PdbStruct {
    fields: Vec<(String, PdbField)>,
}

impl View for PdbStruct {
    type V = Map<Seq<char>, PdbField>;

    closed spec fn view(&self) -> Map<Seq<char>, PdbField> {
        entries_to_map(self.fields@)
    }
}

impl PdbStruct {
    /// A structure without members.
    pub fn empty() -> (s: PdbStruct)
        ensures
            s@ == Map::<Seq<char>, PdbField>::empty(),
    {
        PdbStruct { fields: Vec::new() }
    }

    /// Records `field` under `name`, replacing what was there.
    pub fn insert(&mut self, name: &str, field: PdbField)
        ensures
            final(self)@ == old(self)@.insert(name@, field),
    {
        let key = String::from_str(name);
        self.fields.push((key, field));
        assert(self.fields@.drop_last() =~= old(self).fields@);
    }

    /// The member called `name`.
    pub fn find_field(&self, name: &str) -> (r: Option<PdbField>)
        ensures
            r == lookup(self@, name@),
    {
        let key = String::from_str(name);
        let mut i: usize = self.fields.len();
        while i > 0
            invariant
                i <= self.fields.len(),
                key@ == name@,
                forall|j: int| i <= j < self.fields.len() ==> self.fields[j].0@ != name@,
            decreases i,
        {
            i = i - 1;
            if self.fields[i].0 == key {
                proof {
                    lemma_lookup_last(self.fields@, name@, i as int);
                }
                return Some(self.fields[i].1);
            }
        }
        proof {
            lemma_lookup_absent(self.fields@, name@);
        }
        None
    }
}

/// The public symbols of an image with their relative virtual addresses.
#[derive(Clone, Debug)]
pub struct PdbSymbols {
    symbols: Vec<(String, u32)>,
}

impl View for PdbSymbols {
    type V = Map<Seq<char>, u32>;

    closed spec fn view(&self) -> Map<Seq<char>, u32> {
        entries_to_map(self.symbols@)
    }
}

impl PdbSymbols {
    /// A table without symbols.
    pub fn empty() -> (s: PdbSymbols)
        ensures
            s@ == Map::<Seq<char>, u32>::empty(),
    {
        PdbSymbols { symbols: Vec::new() }
    }

    /// Records `rva` under `name`, replacing what was there.
    pub fn insert(&mut self, name: &str, rva: u32)
        ensures
            final(self)@ == old(self)@.insert(name@, rva),
    {
        let key = String::from_str(name);
        self.symbols.push((key, rva));
        assert(self.symbols@.drop_last() =~= old(self).symbols@);
    }

    /// The relative virtual address of the symbol called `name`.
    pub fn find_symbol(&self, name: &str) -> (r: Option<u32>)
        ensures
            r == lookup(self@, name@),
    {
        let key = String::from_str(name);
        let mut i: usize = self.symbols.len();
        while i > 0
            invariant
                i <= self.symbols.len(),
                key@ == name@,
                forall|j: int| i <= j < self.symbols.len() ==> self.symbols[j].0@ != name@,
            decreases i,
        {
            i = i - 1;
            if self.symbols[i].0 == key {
                proof {
                    lemma_lookup_last(self.symbols@, name@, i as int);
                }
                return Some(self.symbols[i].1);
            }
        }
        proof {
            lemma_lookup_absent(self.symbols@, name@);
        }
        None
    }
}

/// A data member as a field list names it.
#[derive(Debug)]
pub struct PdbMember {
    pub name: String,
    /// Byte offset from the start of the structure.
    pub offset: u64,
    /// Index of the record that describes the member's type.
    pub field_type: u32,
}

/// What a record of the type stream describes, as far as structure layouts need it.
#[derive(Debug)]
pub enum PdbType {
    /// A class or structure.
    Class {
        name: String,
        /// The record only announces the type; another one defines it.
        forward_reference: bool,
        /// Index of the field list with the members.
        fields: Option<u32>,
        /// Number of bytes that a value of the type takes.
        size: u64,
    },
    /// A list of the members of a type; `None` stands for an entry that is no data member.
    FieldList {
        entries: Vec<Option<PdbMember>>,
        /// Index of the field list that continues this one.
        continuation: Option<u32>,
    },
    /// The type of a bit field.
    Bitfield {
        /// Position of its first bit in the underlying integer.
        position: u8,
    },
    /// Anything else, and records that cannot be read.
    Other,
}

/// A record of the type stream with the index by which other records refer to it.
#[derive(Debug)]
pub struct PdbTypeRecord {
    pub index: u32,
    pub data: PdbType,
}

/// A public symbol as the symbol stream names it: by its section and its
/// offset in that section.
#[derive(Debug)]
pub struct PdbPublicSymbol {
    pub name: String,
    /// Number of the section, counted from one.
    pub section: u16,
    /// Offset from the start of the section.
    pub offset: u32,
}

/// The symbol stream of a database together with its section table.
#[derive(Debug)]
pub struct PdbSymbolStream {
    /// The relative virtual addresses at which the sections of the image start.
    pub sections: Vec<u32>,
    /// The records in stream order; `None` stands for a record that is no public symbol.
    pub symbols: Vec<Option<PdbPublicSymbol>>,
}

/// Reads the records of a program database. Nothing is assumed of what an
/// implementation returns.
pub trait PdbReader {
    /// The symbol stream and the section table of the database `pdb_slice`,
    /// `None` where they cannot be read.
    fn read_symbols(&mut self, pdb_slice: &[u8]) -> Option<PdbSymbolStream>;

    /// The records of the type stream of the database `pdb_slice` in stream
    /// order, `None` where they cannot be read.
    fn read_types(&mut self, pdb_slice: &[u8]) -> Option<Vec<PdbTypeRecord>>;
}

/// The record that other records refer to as `index`. Records are numbered
/// consecutively from the index of the first one.
pub open spec fn record_at(types: Seq<PdbTypeRecord>, index: u32) -> Option<PdbTypeRecord> {
    if types.len() > 0 && index >= types[0].index && index - types[0].index < types.len()
        && types[index - types[0].index].index == index {
        Some(types[index - types[0].index])
    } else {
        None
    }
}

/// Position of the first bit of a member of type `field_type`: that of the
/// bit field where the type is one, zero otherwise.
pub open spec fn bit_position(types: Seq<PdbTypeRecord>, field_type: u32) -> u8 {
    match record_at(types, field_type) {
        Some(PdbTypeRecord { data: PdbType::Bitfield { position }, .. }) => position,
        _ => 0,
    }
}

/// Where `member` sits. Offsets are kept in 32 bits.
pub open spec fn member_field(types: Seq<PdbTypeRecord>, member: PdbMember) -> PdbField {
    PdbField {
        offset: (member.offset & 0xffff_ffff) as u32,
        bit_offset: bit_position(types, member.field_type),
    }
}

/// The data members among `entries`, in order.
pub open spec fn list_fields(types: Seq<PdbTypeRecord>, entries: Seq<Option<PdbMember>>) -> Seq<
    (String, PdbField),
>
    decreases entries.len(),
{
    if entries.len() == 0 {
        Seq::empty()
    } else {
        let before = list_fields(types, entries.drop_last());
        match entries.last() {
            Some(member) => before.push((member.name, member_field(types, member))),
            None => before,
        }
    }
}

/// The data members of the field list `index` and of the lists that
/// continue it, following at most `fuel` lists.
pub open spec fn chain_fields(types: Seq<PdbTypeRecord>, index: Option<u32>, fuel: nat) -> Seq<
    (String, PdbField),
>
    decreases fuel,
{
    if fuel == 0 || index is None {
        Seq::empty()
    } else {
        match record_at(types, index->0) {
            Some(PdbTypeRecord { data: PdbType::FieldList { entries, continuation }, .. }) => {
                list_fields(types, entries@) + chain_fields(types, continuation, (fuel - 1) as nat)
            },
            _ => Seq::empty(),
        }
    }
}

/// Whether `record` defines the structure called `name`.
pub open spec fn defines(record: PdbTypeRecord, name: Seq<char>) -> bool {
    record.data matches PdbType::Class { name: n, forward_reference, .. } && n@ == name
        && !forward_reference
}

/// Position of the first record from `from` on that defines the structure called `name`.
pub open spec fn definition_from(types: Seq<PdbTypeRecord>, name: Seq<char>, from: int) -> Option<
    int,
>
    decreases types.len() - from,
{
    if from < 0 || from >= types.len() {
        None
    } else if defines(types[from], name) {
        Some(from)
    } else {
        definition_from(types, name, from + 1)
    }
}

/// The members of the structure called `name` as the records `types`
/// describe it: those of the field list of its first definition and of the
/// lists that continue it. Where a member is named twice, the last one counts.
pub open spec fn struct_layout(types: Seq<PdbTypeRecord>, name: Seq<char>) -> Option<
    Map<Seq<char>, PdbField>,
> {
    match definition_from(types, name, 0) {
        Some(k) => Some(
            entries_to_map(
                chain_fields(
                    types,
                    match types[k].data {
                        PdbType::Class { fields, .. } => fields,
                        _ => None,
                    },
                    types.len(),
                ),
            ),
        ),
        None => None,
    }
}

/// The size in bytes of the structure called `name` as its first
/// definition among the records `types` gives it.
pub open spec fn struct_size(types: Seq<PdbTypeRecord>, name: Seq<char>) -> Option<u64> {
    match definition_from(types, name, 0) {
        Some(k) => Some(
            match types[k].data {
                PdbType::Class { size, .. } => size,
                _ => 0,
            },
        ),
        None => None,
    }
}

/// Whether every member of `layout` starts inside a structure of `size` bytes.
pub open spec fn members_inside(layout: Map<Seq<char>, PdbField>, size: u64) -> bool {
    forall|name: Seq<char>| #[trigger] layout.contains_key(name) ==> layout[name].offset < size
}

/// The relative virtual address of the place `offset` bytes into section
/// number `section`; `None` where there is no such section or the address
/// leaves 32 bits.
pub open spec fn section_address(sections: Seq<u32>, section: u16, offset: u32) -> Option<u32> {
    if 1 <= section <= sections.len() && sections[section - 1] + offset <= u32::MAX {
        Some((sections[section - 1] + offset) as u32)
    } else {
        None
    }
}

/// The address that is kept for a symbol: zero where it has none.
pub open spec fn symbol_rva(sections: Seq<u32>, symbol: PdbPublicSymbol) -> u32 {
    match section_address(sections, symbol.section, symbol.offset) {
        Some(rva) => rva,
        None => 0,
    }
}

/// The symbols among `records` by name, with their addresses. Where a name
/// comes twice, the last one counts.
pub open spec fn symbol_entries(sections: Seq<u32>, records: Seq<Option<PdbPublicSymbol>>) -> Seq<
    (String, u32),
>
    decreases records.len(),
{
    if records.len() == 0 {
        Seq::empty()
    } else {
        let before = symbol_entries(sections, records.drop_last());
        match records.last() {
            Some(symbol) => before.push((symbol.name, symbol_rva(sections, symbol))),
            None => before,
        }
    }
}

/// The public symbols that a symbol stream holds; none where there is no stream.
pub open spec fn symbols_of(stream: PdbSymbolStream) -> Map<Seq<char>, u32> {
    entries_to_map(symbol_entries(stream.sections@, stream.symbols@))
}

/// Computes the relative virtual address of a place in a section.
pub fn resolve_section_address(sections: &Vec<u32>, section: u16, offset: u32) -> (r: Option<u32>)
    ensures
        r == section_address(sections@, section, offset),
{
    if section >= 1 && (section as usize) <= sections.len() {
        sections[(section - 1) as usize].checked_add(offset)
    } else {
        None
    }
}

/// Finds the record that other records refer to as `index`.
fn find_record(types: &Vec<PdbTypeRecord>, index: u32) -> (r: Option<usize>)
    ensures
        match r {
            Some(k) => k < types@.len() && record_at(types@, index) == Some(types@[k as int]),
            None => record_at(types@, index) is None,
        },
{
    if types.len() == 0 {
        return None;
    }
    let first: u32 = types[0].index;
    if index < first {
        return None;
    }
    let k: u32 = index - first;
    if (k as u64) < (types.len() as u64) && types[k as usize].index == index {
        Some(k as usize)
    } else {
        None
    }
}

/// Finds the first record that defines the structure called `name`.
fn find_definition(types: &Vec<PdbTypeRecord>, name: &str) -> (r: Option<usize>)
    ensures
        match r {
            Some(k) => k < types@.len() && definition_from(types@, name@, 0) == Some(k as int),
            None => definition_from(types@, name@, 0) is None,
        },
{
    let key = String::from_str(name);
    let mut k: usize = 0;
    while k < types.len()
        invariant
            k <= types.len(),
            key@ == name@,
            definition_from(types@, name@, 0) == definition_from(types@, name@, k as int),
        decreases types.len() - k,
    {
        match &types[k].data {
            PdbType::Class { name: n, forward_reference, .. } => {
                if *n == key && !*forward_reference {
                    return Some(k);
                }
            },
            _ => {},
        }
        k = k + 1;
    }
    None
}

/// The size in bytes of the structure called `name`, `None` where the
/// records do not define it.
pub fn struct_byte_size(types: &Vec<PdbTypeRecord>, name: &str) -> (r: Option<u64>)
    ensures
        r == struct_size(types@, name@),
{
    match find_definition(types, name) {
        Some(k) => match &types[k].data {
            PdbType::Class { size, .. } => Some(*size),
            _ => Some(0),
        },
        None => None,
    }
}

/// Looks up the position of the first bit of a member of type `field_type`.
fn find_bit_position(types: &Vec<PdbTypeRecord>, field_type: u32) -> (r: u8)
    ensures
        r == bit_position(types@, field_type),
{
    match find_record(types, field_type) {
        Some(k) => match &types[k].data {
            PdbType::Bitfield { position } => *position,
            _ => 0,
        },
        None => 0,
    }
}

impl PdbStruct {
    /// Reads the layout of the structure called `class_name` out of the
    /// program database `pdb_slice`. Fails with [`ErrorKind::Offset`] where
    /// the database cannot be read or does not define the structure. The
    /// layout is what [`PdbStruct::from_types`] makes of the records that
    /// `reader` hands out.
    pub fn new<R: PdbReader>(reader: &mut R, pdb_slice: &[u8], class_name: &str) -> (r: Result<
        PdbStruct,
        Error,
    >)
        ensures
            r matches Err(e) ==> e.kind == ErrorKind::Offset,
    {
        match reader.read_types(pdb_slice) {
            Some(types) => match PdbStruct::from_types(&types, class_name) {
                Some(layout) => Ok(layout),
                None => Err(Error::new(ErrorKind::Offset, "structure not found")),
            },
            None => Err(Error::new(ErrorKind::Offset, "unable to read the type stream")),
        }
    }

    /// Reads the layout of the structure called `name` out of the records of a type stream.
    pub fn from_types(types: &Vec<PdbTypeRecord>, name: &str) -> (r: Option<PdbStruct>)
        ensures
            match r {
                Some(layout) => struct_layout(types@, name@) == Some(layout@),
                None => struct_layout(types@, name@) is None,
            },
    {
        let first = match find_definition(types, name) {
            Some(k) => match &types[k].data {
                PdbType::Class { fields, .. } => *fields,
                _ => None,
            },
            None => {
                return None;
            },
        };
        let ghost all = chain_fields(types@, first, types@.len());
        let mut fields: Vec<(String, PdbField)> = Vec::new();
        let mut current: Option<u32> = first;
        let mut fuel: usize = types.len();
        while fuel > 0 && current.is_some()
            invariant
                fuel <= types.len(),
                fields@ + chain_fields(types@, current, fuel as nat) == all,
            decreases fuel,
        {
            let index: u32 = current.unwrap();
            let ghost done = fields@;
            let ghost rest = chain_fields(types@, current, fuel as nat);
            match find_record(types, index) {
                Some(position) => match &types[position].data {
                    PdbType::FieldList { entries, continuation } => {
                        let mut j: usize = 0;
                        while j < entries.len()
                            invariant
                                j <= entries.len(),
                                fields@ == done + list_fields(types@, entries@.subrange(0, j as int)),
                            decreases entries.len() - j,
                        {
                            proof {
                                assert(entries@.subrange(0, j + 1).drop_last() =~= entries@.subrange(
                                    0,
                                    j as int,
                                ));
                            }
                            match &entries[j] {
                                Some(member) => {
                                    let field = PdbField {
                                        offset: (member.offset & 0xffff_ffff) as u32,
                                        bit_offset: find_bit_position(types, member.field_type),
                                    };
                                    fields.push((member.name.clone(), field));
                                },
                                None => {},
                            }
                            j = j + 1;
                        }
                        proof {
                            assert(entries@.subrange(0, entries@.len() as int) =~= entries@);
                            assert(fields@ + chain_fields(
                                types@,
                                *continuation,
                                (fuel - 1) as nat,
                            ) =~= done + rest);
                        }
                        current = *continuation;
                    },
                    _ => {
                        current = None;
                    },
                },
                None => {
                    current = None;
                },
            }
            fuel = fuel - 1;
        }
        assert(fields@ =~= all);
        Some(PdbStruct { fields })
    }
}

impl PdbSymbols {
    /// Reads the public symbols out of the program database `pdb_slice`.
    /// Fails with [`ErrorKind::Offset`] where the database cannot be read.
    /// The symbols are what [`PdbSymbols::from_records`] makes of the stream
    /// that `reader` hands out.
    pub fn new<R: PdbReader>(reader: &mut R, pdb_slice: &[u8]) -> (r: Result<PdbSymbols, Error>)
        ensures
            r matches Err(e) ==> e.kind == ErrorKind::Offset,
    {
        match reader.read_symbols(pdb_slice) {
            Some(stream) => Ok(PdbSymbols::from_records(&stream)),
            None => Err(Error::new(ErrorKind::Offset, "Symbols not found")),
        }
    }

    /// Collects the public symbols of a symbol stream with their addresses.
    /// A symbol whose section is not in the table, or whose address leaves
    /// 32 bits, is kept with the address zero.
    pub fn from_records(stream: &PdbSymbolStream) -> (r: PdbSymbols)
        ensures
            r@ == symbols_of(*stream),
    {
        let mut symbols: Vec<(String, u32)> = Vec::new();
        let mut i: usize = 0;
        while i < stream.symbols.len()
            invariant
                i <= stream.symbols.len(),
                symbols@ == symbol_entries(
                    stream.sections@,
                    stream.symbols@.subrange(0, i as int),
                ),
            decreases stream.symbols.len() - i,
        {
            proof {
                assert(stream.symbols@.subrange(0, i + 1).drop_last() =~= stream.symbols@.subrange(
                    0,
                    i as int,
                ));
            }
            match &stream.symbols[i] {
                Some(symbol) => {
                    let rva: u32 = match resolve_section_address(
                        &stream.sections,
                        symbol.section,
                        symbol.offset,
                    ) {
                        Some(rva) => rva,
                        None => 0,
                    };
                    symbols.push((symbol.name.clone(), rva));
                },
                None => {},
            }
            i = i + 1;
        }
        proof {
            assert(stream.symbols@.subrange(0, stream.symbols@.len() as int) =~= stream.symbols@);
        }
        PdbSymbols { symbols }
    }
}

} // verus!
