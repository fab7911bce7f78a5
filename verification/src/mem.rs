//! The interfaces through which guest memory is reached. The library reads
//! memory and never writes it; how physical memory is obtained and how
//! virtual addresses are translated is the business of whoever implements
//! these traits. Nothing is assumed of what an implementation returns.

use crate::architecture::Architecture;
use crate::types::Address;
use vstd::prelude::*;

verus! {

/// Byte-granular access to the physical memory of the guest.
pub trait PhysicalMemory {
    /// Reads `len` bytes starting at the physical address `addr`.
    fn phys_read(&mut self, addr: Address, len: usize) -> MemoryRead;
}

/// A virtual address space of the guest.
#[derive(Clone, Copy, Debug, PartialEq, Eq, Structural)]
pub struct AddressSpace {
    pub arch: Architecture,
    /// Physical address of the top-level translation table.
    pub dtb: Address,
}

/// What a read of guest memory gave.
#[derive(Debug)]
pub enum MemoryRead {
    /// Every byte of the range was read.
    Complete(Vec<u8>),
    /// Some of the range could not be translated or read; its bytes are zero.
    Partial(Vec<u8>),
    /// Nothing could be read.
    Failed,
}

/// A run of mapped virtual memory.
#[derive(Clone, Copy, Debug, PartialEq, Eq, Structural)]
pub struct MemoryRange {
    pub address: Address,
    pub size: u64,
}

/// Byte-granular access to the virtual memory of the guest.
pub trait MemoryView {
    /// Reads `len` bytes starting at the virtual address `addr` of `space`.
    fn read_raw(&mut self, space: AddressSpace, addr: Address, len: usize) -> MemoryRead;
}

/// The translation of the virtual addresses of the guest.
pub trait VirtualTranslate {
    /// The mapped ranges of `space` between `start` and `end`, both included,
    /// in ascending order. Ranges that are less than `gap_size` bytes apart
    /// are reported as one.
    fn virt_page_map_range(
        &mut self,
        space: AddressSpace,
        gap_size: u64,
        start: Address,
        end: Address,
    ) -> Vec<MemoryRange>;
}

/// The bytes of a read that delivered `len` bytes, holes allowed.
pub open spec fn data_part(read: MemoryRead, len: usize) -> Option<Seq<u8>> {
    match read {
        MemoryRead::Complete(data) | MemoryRead::Partial(data) => if data@.len() == len {
            Some(data@)
        } else {
            None
        },
        MemoryRead::Failed => None,
    }
}

/// The bytes of a read that delivered all `len` bytes.
pub open spec fn complete_part(read: MemoryRead, len: usize) -> Option<Seq<u8>> {
    match read {
        MemoryRead::Complete(data) => if data@.len() == len {
            Some(data@)
        } else {
            None
        },
        _ => None,
    }
}

impl MemoryRead {
    /// The buffer of a read of `len` bytes, accepting holes. A buffer of
    /// another length counts as a failed read.
    pub fn into_data(self, len: usize) -> (r: Option<Vec<u8>>)
        ensures
            match r {
                Some(data) => data_part(self, len) == Some(data@),
                None => data_part(self, len) is None,
            },
    {
        match self {
            MemoryRead::Complete(data) | MemoryRead::Partial(data) => if data.len() == len {
                Some(data)
            } else {
                None
            },
            MemoryRead::Failed => None,
        }
    }

    /// The buffer of a read of `len` bytes that has no holes. A buffer of
    /// another length counts as a failed read.
    pub fn into_complete(self, len: usize) -> (r: Option<Vec<u8>>)
        ensures
            match r {
                Some(data) => complete_part(self, len) == Some(data@),
                None => complete_part(self, len) is None,
            },
    {
        match self {
            MemoryRead::Complete(data) => if data.len() == len {
                Some(data)
            } else {
                None
            },
            _ => None,
        }
    }
}

} // verus!
