//! The start block of 32-bit x86 with physical address extension.

use crate::architecture::Architecture;
use crate::bytes::{read_u64_le, u64_le};
use crate::error::{Error, ErrorKind};
use crate::kernel::start_block::{excluded, page_at, whole_page_count};
use crate::kernel::StartBlock;
use crate::types::Address;
use vstd::prelude::*;
use vstd::slice::slice_subrange;

verus! {

/// Whether `entry` is what slot `i` of a page-directory-pointer table at
/// `addr` holds when the loader has just set it up: the four page directories
/// follow the table page by page, present and with the low mapping bit set,
/// and every other slot is empty.
pub open spec fn pdpt_entry_ok(addr: u64, i: int, entry: u64) -> bool {
    if i < 4 {
        entry == addr + i * 0x1000 + 0x1001
    } else {
        entry == 0
    }
}

/// Whether `page` is a whole page of 512 entries, each of them as
/// [`pdpt_entry_ok`] wants it: the four entries of the table, then nothing.
pub open spec fn is_pdpt(addr: u64, page: Seq<u8>) -> bool {
    &&& page.len() == 0x1000
    &&& forall|i: int| 0 <= i < 512 ==> #[trigger] pdpt_entry_ok(addr, i, u64_le(page, 8 * i))
}

/// Whether whole page `i` of `mem` is a candidate. The page at address
/// zero is none: the table of a start block is never at the NULL address.
pub open spec fn matches_at(mem: Seq<u8>, exclude: Option<Address>, i: int) -> bool {
    &&& i != 0
    &&& is_pdpt((i * 0x1000) as u64, page_at(mem, i))
    &&& !excluded(exclude, (i * 0x1000) as u64)
}

/// What a search of `mem` has to return.
pub open spec fn search_result(
    mem: Seq<u8>,
    exclude: Option<Address>,
    r: Result<StartBlock, Error>,
) -> bool {
    match r {
        Ok(block) => {
            let i = block.dtb.0 as int / 0x1000;
            &&& block.arch == Architecture::X86Pae
            &&& block.kernel_hint.0 == 0
            &&& block.dtb.0 == i * 0x1000
            &&& block.dtb.0 != 0
            &&& 0 < i < whole_page_count(mem.len())
            &&& matches_at(mem, exclude, i)
            &&& forall|j: int| 0 <= j < i ==> !matches_at(mem, exclude, j)
        },
        Err(e) => {
            &&& e.kind == ErrorKind::NotFound
            &&& forall|j: int| 0 <= j < whole_page_count(mem.len()) ==> !matches_at(mem, exclude, j)
        },
    }
}

/// Tells whether `mem`, the page found at `addr`, is a page-directory-pointer
/// table. A buffer that is no whole page is none.
pub fn check_page(addr: Address, mem: &[u8]) -> (r: bool)
    ensures
        r == is_pdpt(addr.0, mem@),
{
    if mem.len() != 0x1000 {
        return false;
    }
    let mut i: usize = 0;
    while i < 512
        invariant
            i <= 512,
            mem@.len() == 0x1000,
            forall|j: int| 0 <= j < i ==> #[trigger] pdpt_entry_ok(addr.0, j, u64_le(mem@, 8 * j)),
        decreases 512 - i,
    {
        let qword: u64 = read_u64_le(mem, i * 8);
        let ok = if i < 4 {
            let offset: u64 = (i as u64) * 0x1000 + 0x1001;
            qword >= offset && qword - offset == addr.0
        } else {
            qword == 0
        };
        if !ok {
            assert(!pdpt_entry_ok(addr.0, i as int, u64_le(mem@, 8 * i)));
            return false;
        }
        i = i + 1;
    }
    true
}

/// Searches the whole pages of `mem`, which starts at physical address
/// zero, in ascending order and returns the first page-directory-pointer
/// table other than `exclude`. The page at address zero is passed over.
pub fn find_excluding(mem: &[u8], exclude: Option<Address>) -> (r: Result<StartBlock, Error>)
    ensures
        search_result(mem@, exclude, r),
{
    let len: usize = mem.len();
    let pages: usize = len / 0x1000;
    let mut i: usize = 1;
    while i < pages
        invariant
            1 <= i,
            len == mem@.len(),
            pages == whole_page_count(mem@.len()),
            forall|j: int| 0 <= j < i && j < pages ==> !matches_at(mem@, exclude, j),
        decreases pages - i,
    {
        let page = slice_subrange(mem, i * 0x1000, i * 0x1000 + 0x1000);
        assert(page@ == page_at(mem@, i as int));
        let addr = Address((i * 0x1000) as u64);
        let skip = match exclude {
            Some(a) => a.0 == addr.0,
            None => false,
        };
        if !skip && check_page(addr, page) {
            return Ok(StartBlock { arch: Architecture::X86Pae, kernel_hint: Address(0), dtb: addr });
        }
        i = i + 1;
    }
    Err(Error::new(ErrorKind::NotFound, "unable to find x86_pae dtb in lowstub < 16M"))
}

/// Searches the whole pages of `mem`, which starts at physical address
/// zero, and returns the first page-directory-pointer table.
pub fn find(mem: &[u8]) -> (r: Result<StartBlock, Error>)
    ensures
        search_result(mem@, None, r),
{
    find_excluding(mem, None)
}

} // verus!
