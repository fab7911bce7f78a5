//! The start block of 64-bit x86.

use crate::architecture::Architecture;
use crate::bytes::{read_u64_le, u64_le};
use crate::error::{Error, ErrorKind};
use crate::kernel::start_block::{excluded, page_at, whole_page_count};
use crate::kernel::StartBlock;
use crate::types::Address;
use vstd::prelude::*;
use vstd::slice::slice_subrange;

verus! {

/// Offset of the physical address of the kernel's top-level table in the low stub.
pub const LOW_STUB_DTB: usize = 0xa0;

/// Offset of a virtual address inside the kernel in the low stub.
pub const LOW_STUB_KERNEL_HINT: usize = 0x278;

/// Whether `page` is the low stub that the loader leaves in the first
/// megabyte for starting further processors. The match predicate is: the
/// upper four of the first eight bytes, read as one little-endian 64-bit
/// value, are `0x0000_0001`, and the table address stored at
/// [`LOW_STUB_DTB`] is not zero.
pub open spec fn is_low_stub(page: Seq<u8>) -> bool {
    &&& (u64_le(page, 0) & 0xffff_ffff_0000_0000) == 0x0000_0001_0000_0000
    &&& u64_le(page, 0xa0) != 0
}

/// Whether whole page `i` of `mem` is a candidate.
pub open spec fn matches_at(mem: Seq<u8>, exclude: Option<Address>, i: int) -> bool {
    is_low_stub(page_at(mem, i)) && !excluded(exclude, u64_le(page_at(mem, i), 0xa0))
}

/// What a search of `mem` has to return.
pub open spec fn search_result(
    mem: Seq<u8>,
    exclude: Option<Address>,
    r: Result<StartBlock, Error>,
) -> bool {
    match r {
        Ok(block) => exists|i: int|
            {
                &&& 0 <= i < whole_page_count(mem.len())
                &&& #[trigger] matches_at(mem, exclude, i)
                &&& forall|j: int| 0 <= j < i ==> !matches_at(mem, exclude, j)
                &&& block.arch == Architecture::X64
                &&& block.dtb.0 == u64_le(page_at(mem, i), 0xa0)
                &&& block.kernel_hint.0 == u64_le(page_at(mem, i), 0x278)
            },
        Err(e) => {
            &&& e.kind == ErrorKind::NotFound
            &&& forall|j: int| 0 <= j < whole_page_count(mem.len()) ==> !matches_at(mem, exclude, j)
        },
    }
}

/// Tells whether `mem`, one page, is the low stub.
pub fn check_page(mem: &[u8]) -> (r: bool)
    requires
        mem@.len() == 0x1000,
    ensures
        r == is_low_stub(mem@),
{
    (read_u64_le(mem, 0) & 0xffff_ffff_0000_0000) == 0x0000_0001_0000_0000 && read_u64_le(
        mem,
        LOW_STUB_DTB,
    ) != 0
}

/// Searches the whole pages of `mem`, which starts at physical address zero,
/// and returns the start block that the first low stub describes, leaving out
/// one that names the table `exclude`.
pub fn find_excluding(mem: &[u8], exclude: Option<Address>) -> (r: Result<StartBlock, Error>)
    ensures
        search_result(mem@, exclude, r),
{
    let len: usize = mem.len();
    let pages: usize = len / 0x1000;
    let mut i: usize = 0;
    while i < pages
        invariant
            i <= pages,
            len == mem@.len(),
            pages == whole_page_count(mem@.len()),
            forall|j: int| 0 <= j < i ==> !matches_at(mem@, exclude, j),
        decreases pages - i,
    {
        let page = slice_subrange(mem, i * 0x1000, i * 0x1000 + 0x1000);
        assert(page@ == page_at(mem@, i as int));
        if check_page(page) {
            let dtb: u64 = read_u64_le(page, LOW_STUB_DTB);
            let skip = match exclude {
                Some(a) => a.0 == dtb,
                None => false,
            };
            if !skip {
                let kernel_hint: u64 = read_u64_le(page, LOW_STUB_KERNEL_HINT);
                assert(matches_at(mem@, exclude, i as int));
                return Ok(
                    StartBlock {
                        arch: Architecture::X64,
                        kernel_hint: Address(kernel_hint),
                        dtb: Address(dtb),
                    },
                );
            }
        }
        i = i + 1;
    }
    Err(Error::new(ErrorKind::NotFound, "unable to find x64 dtb in lowstub < 1M"))
}

/// Searches the whole pages of `mem`, which starts at physical address zero,
/// and returns the start block that the first low stub describes.
pub fn find(mem: &[u8]) -> (r: Result<StartBlock, Error>)
    ensures
        search_result(mem@, None, r),
{
    find_excluding(mem, None)
}

} // verus!
