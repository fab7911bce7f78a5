//! The start block of 64-bit ARM.

use crate::architecture::Architecture;
use crate::bytes::{read_u64_le, u64_le};
use crate::error::{Error, ErrorKind};
use crate::kernel::start_block::{excluded, page_at, whole_page_count};
use crate::kernel::StartBlock;
use crate::types::Address;
use vstd::prelude::*;
use vstd::slice::slice_subrange;

verus! {

/// Physical address at which guest memory starts on these machines. The scan
/// window begins here.
pub const PHYS_BASE: u64 = 0x4000_0000;

/// Whether the first entry of a table is a valid table descriptor whose
/// target lies below 512 GiB.
pub open spec fn first_entry_ok(entry: u64) -> bool {
    (entry & 0xfff) == 0xf03 && (entry & 0x0000_ffff_ffff_f000) < 0x80_0000_0000
}

/// Whether `entry` points back at the table at `addr` that holds it.
pub open spec fn is_self_ref(addr: u64, entry: u64) -> bool {
    (entry ^ 0xf03) & !0xfffu64 == addr
}

/// Whether `entry` maps kernel memory.
pub open spec fn is_kernel_entry(entry: u64) -> bool {
    (entry & 0xfff) == 0x703
}

/// Whether one of the entries `256 .. upto` of `page` points back at `addr`.
pub open spec fn has_self_ref(addr: u64, page: Seq<u8>, upto: int) -> bool {
    exists|k: int| 256 <= k < upto && is_self_ref(addr, #[trigger] u64_le(page, 8 * k))
}

/// How many of the entries `256 .. upto` of `page` map kernel memory.
pub open spec fn kernel_entries(page: Seq<u8>, upto: int) -> nat
    decreases upto,
{
    if upto <= 256 {
        0
    } else {
        kernel_entries(page, upto - 1) + if is_kernel_entry(u64_le(page, 8 * (upto - 1))) {
            1nat
        } else {
            0nat
        }
    }
}

/// Whether the page `page` at `addr` is a top-level translation table of a
/// running kernel: its first entry is a table descriptor, its upper half
/// refers to the page itself and maps kernel memory in at least six places.
pub open spec fn is_table(addr: u64, page: Seq<u8>) -> bool {
    &&& first_entry_ok(u64_le(page, 0))
    &&& has_self_ref(addr, page, 512)
    &&& kernel_entries(page, 512) >= 6
}

/// Whether whole page `i` of `mem` is a candidate.
pub open spec fn matches_at(mem: Seq<u8>, exclude: Option<Address>, i: int) -> bool {
    &&& PHYS_BASE + i * 0x1000 <= u64::MAX
    &&& is_table((PHYS_BASE + i * 0x1000) as u64, page_at(mem, i))
    &&& !excluded(exclude, (PHYS_BASE + i * 0x1000) as u64)
}

/// What a search of `mem` has to return.
pub open spec fn search_result(mem: Seq<u8>, exclude: Option<Address>, r: Result<StartBlock, Error>) -> bool {
    match r {
        Ok(block) => {
            let i = (block.dtb.0 - PHYS_BASE) / 0x1000;
            &&& block.arch == Architecture::AArch64
            &&& block.kernel_hint.0 == 0
            &&& block.dtb.0 == PHYS_BASE + i * 0x1000
            &&& 0 <= i < whole_page_count(mem.len())
            &&& matches_at(mem, exclude, i)
            &&& forall|j: int| 0 <= j < i ==> !matches_at(mem, exclude, j)
        },
        Err(e) => {
            &&& e.kind == ErrorKind::NotFound
            &&& forall|j: int| 0 <= j < whole_page_count(mem.len()) ==> !matches_at(mem, exclude, j)
        },
    }
}

/// Tells whether `mem`, one page found at `addr`, is a top-level translation table.
pub fn find_pt(addr: Address, mem: &[u8]) -> (r: Option<Address>)
    requires
        mem@.len() == 0x1000,
    ensures
        r == if is_table(addr.0, mem@) {
            Some(addr)
        } else {
            None
        },
{
    let pte: u64 = read_u64_le(mem, 0);
    if (pte & 0xfff) != 0xf03 || (pte & 0x0000_ffff_ffff_f000) >= 0x80_0000_0000 {
        return None;
    }
    // The upper half has to refer to the table itself.
    let mut k: usize = 256;
    let mut self_ref = false;
    while k < 512 && !self_ref
        invariant
            256 <= k <= 512,
            mem@.len() == 0x1000,
            self_ref == has_self_ref(addr.0, mem@, k as int),
        decreases 512 - k,
    {
        let entry: u64 = read_u64_le(mem, 8 * k);
        if (entry ^ 0xf03) & !0xfffu64 == addr.0 {
            self_ref = true;
        }
        k = k + 1;
    }
    if !self_ref {
        return None;
    }
    assert(has_self_ref(addr.0, mem@, 512));
    // A kernel's table maps kernel memory.
    let mut count: usize = 0;
    let mut m: usize = 256;
    while m < 512
        invariant
            256 <= m <= 512,
            mem@.len() == 0x1000,
            count == kernel_entries(mem@, m as int),
            count <= m - 256,
        decreases 512 - m,
    {
        let entry: u64 = read_u64_le(mem, 8 * m);
        if (entry & 0xfff) == 0x703 {
            count = count + 1;
        }
        m = m + 1;
    }
    if count >= 6 {
        Some(addr)
    } else {
        None
    }
}

/// Searches the whole pages of `mem`, which starts at [`PHYS_BASE`], and
/// returns the first top-level translation table other than `exclude`.
pub fn find_excluding(mem: &[u8], exclude: Option<Address>) -> (r: Result<StartBlock, Error>)
    ensures
        search_result(mem@, exclude, r),
{
    let len: usize = mem.len();
    let pages: usize = len / 0x1000;
    let mut i: usize = 0;
    while i < pages
        invariant
            i <= pages,
            len == mem@.len(),
            pages == whole_page_count(mem@.len()),
            forall|j: int| 0 <= j < i ==> !matches_at(mem@, exclude, j),
        decreases pages - i,
    {
        let page = slice_subrange(mem, i * 0x1000, i * 0x1000 + 0x1000);
        assert(page@ == page_at(mem@, i as int));
        match PHYS_BASE.checked_add((i as u64) * 0x1000) {
            Some(value) => {
                let addr = Address(value);
                let skip = match exclude {
                    Some(a) => a.0 == value,
                    None => false,
                };
                if !skip && find_pt(addr, page).is_some() {
                    return Ok(
                        StartBlock { arch: Architecture::AArch64, kernel_hint: Address(0), dtb: addr },
                    );
                }
            },
            None => {},
        }
        i = i + 1;
    }
    Err(Error::new(ErrorKind::NotFound, "unable to find aarch64 dtb in lowstub < 16M"))
}

/// Searches the whole pages of `mem`, which starts at [`PHYS_BASE`], and
/// returns the first top-level translation table.
pub fn find(mem: &[u8]) -> (r: Result<StartBlock, Error>)
    ensures
        search_result(mem@, None, r),
{
    find_excluding(mem, None)
}

} // verus!
