//! The start block of 32-bit x86 without physical address extension.

use crate::architecture::Architecture;
use crate::bytes::{read_u32_le, u32_le};
use crate::error::{Error, ErrorKind};
use crate::kernel::start_block::{excluded, page_at, whole_page_count};
use crate::kernel::StartBlock;
use crate::types::Address;
use vstd::prelude::*;
use vstd::slice::slice_subrange;

verus! {

/// Offset of the directory entry through which the kernel maps its own page directory.
pub const SELF_MAP: usize = 0xc00;

/// Whether the page `page` at `addr` is a page directory as the loader sets
/// it up. The match predicate is: the first byte is `0x67` (the first entry
/// is present, writable, accessed and dirty), and the entry at [`SELF_MAP`],
/// reduced to its address and its two lowest bits, is `addr + 3`: it names
/// the page itself, present and writable.
pub open spec fn is_page_directory(addr: u64, page: Seq<u8>) -> bool {
    &&& page[0] == 0x67
    &&& (u32_le(page, 0xc00) & 0xffff_f003) == addr + 3
}

/// Whether whole page `i` of `mem` is a candidate. The page at address
/// zero is none: the table of a start block is never at the NULL address.
pub open spec fn matches_at(mem: Seq<u8>, exclude: Option<Address>, i: int) -> bool {
    &&& i != 0
    &&& is_page_directory((i * 0x1000) as u64, page_at(mem, i))
    &&& !excluded(exclude, (i * 0x1000) as u64)
}

/// What a search of `mem` has to return.
pub open spec fn search_result(
    mem: Seq<u8>,
    exclude: Option<Address>,
    r: Result<StartBlock, Error>,
) -> bool {
    match r {
        Ok(block) => {
            let i = block.dtb.0 as int / 0x1000;
            &&& block.arch == Architecture::X86
            &&& block.kernel_hint.0 == 0
            &&& block.dtb.0 == i * 0x1000
            &&& block.dtb.0 != 0
            &&& 0 < i < whole_page_count(mem.len())
            &&& matches_at(mem, exclude, i)
            &&& forall|j: int| 0 <= j < i ==> !matches_at(mem, exclude, j)
        },
        Err(e) => {
            &&& e.kind == ErrorKind::NotFound
            &&& forall|j: int| 0 <= j < whole_page_count(mem.len()) ==> !matches_at(mem, exclude, j)
        },
    }
}

/// Tells whether `mem`, the page found at `addr`, is a page directory.
pub fn check_page(addr: Address, mem: &[u8]) -> (r: bool)
    requires
        mem@.len() == 0x1000,
    ensures
        r == is_page_directory(addr.0, mem@),
{
    if mem[0] != 0x67 {
        return false;
    }
    let entry: u32 = read_u32_le(mem, SELF_MAP) & 0xffff_f003;
    addr.0 <= 0xffff_fffc && (entry as u64) == addr.0 + 3
}

/// Searches the whole pages of `mem`, which starts at physical address zero,
/// in ascending order and returns the first page directory other than
/// `exclude`. The page at address zero is passed over.
pub fn find_excluding(mem: &[u8], exclude: Option<Address>) -> (r: Result<StartBlock, Error>)
    ensures
        search_result(mem@, exclude, r),
{
    let len: usize = mem.len();
    let pages: usize = len / 0x1000;
    let mut i: usize = 1;
    while i < pages
        invariant
            1 <= i,
            len == mem@.len(),
            pages == whole_page_count(mem@.len()),
            forall|j: int| 0 <= j < i && j < pages ==> !matches_at(mem@, exclude, j),
        decreases pages - i,
    {
        let page = slice_subrange(mem, i * 0x1000, i * 0x1000 + 0x1000);
        assert(page@ == page_at(mem@, i as int));
        let addr = Address((i * 0x1000) as u64);
        let skip = match exclude {
            Some(a) => a.0 == addr.0,
            None => false,
        };
        if !skip && check_page(addr, page) {
            return Ok(StartBlock { arch: Architecture::X86, kernel_hint: Address(0), dtb: addr });
        }
        i = i + 1;
    }
    Err(Error::new(ErrorKind::NotFound, "unable to find x86 dtb in lowstub < 16M"))
}

/// Searches the whole pages of `mem`, which starts at physical address zero,
/// and returns the first page directory.
pub fn find(mem: &[u8]) -> (r: Result<StartBlock, Error>)
    ensures
        search_result(mem@, None, r),
{
    find_excluding(mem, None)
}

} // verus!
