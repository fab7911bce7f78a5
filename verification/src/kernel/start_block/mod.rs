//! Scanning low physical memory for the page tables that the boot loader set up.

pub mod aarch64;
pub mod x64;
pub mod x86;
pub mod x86pae;

use crate::architecture::Architecture;
use crate::error::{Error, ErrorKind};
use crate::kernel::StartBlock;
use crate::mem::PhysicalMemory;
use crate::types::Address;
use vstd::prelude::*;

verus! {

/// Number of whole pages in a buffer of `len` bytes.
pub open spec fn whole_page_count(len: nat) -> int {
    len as int / 0x1000
}

/// The bytes of page `i`; they are fewer than a page where the buffer ends early.
pub open spec fn page_at(mem: Seq<u8>, i: int) -> Seq<u8> {
    mem.subrange(
        i * 0x1000,
        if (i + 1) * 0x1000 <= mem.len() {
            (i + 1) * 0x1000
        } else {
            mem.len() as int
        },
    )
}

/// Whether a candidate table is left out of the search.
pub open spec fn excluded(exclude: Option<Address>, dtb: u64) -> bool {
    exclude matches Some(a) && a.0 == dtb
}

/// The order in which the architectures are tried without a hint.
pub open spec fn default_order() -> Seq<Architecture> {
    seq![Architecture::X64, Architecture::X86Pae, Architecture::X86, Architecture::AArch64]
}

/// The order in which the architectures are tried: the hinted one first,
/// then the others in their usual order.
pub open spec fn spec_search_order(hint: Option<Architecture>) -> Seq<Architecture> {
    match hint {
        Some(arch) => seq![arch] + default_order().filter(|a: Architecture| a != arch),
        None => default_order(),
    }
}

/// The order in which the architectures are tried: the hinted one first,
/// then the others in their usual order.
pub fn search_order(hint: Option<Architecture>) -> (r: Vec<Architecture>)
    ensures
        r@ == spec_search_order(hint),
{
    let mut order: Vec<Architecture> = Vec::new();
    match hint {
        Some(arch) => {
            order.push(arch);
            if arch != Architecture::X64 {
                order.push(Architecture::X64);
            }
            if arch != Architecture::X86Pae {
                order.push(Architecture::X86Pae);
            }
            if arch != Architecture::X86 {
                order.push(Architecture::X86);
            }
            if arch != Architecture::AArch64 {
                order.push(Architecture::AArch64);
            }
            proof {
                lemma_filter_default(arch);
            }
        },
        None => {
            order.push(Architecture::X64);
            order.push(Architecture::X86Pae);
            order.push(Architecture::X86);
            order.push(Architecture::AArch64);
        },
    }
    order
}

proof fn lemma_filter_default(arch: Architecture)
    ensures
        default_order().filter(|a: Architecture| a != arch) == match arch {
            Architecture::X64 => seq![
                Architecture::X86Pae,
                Architecture::X86,
                Architecture::AArch64,
            ],
            Architecture::X86Pae => seq![
                Architecture::X64,
                Architecture::X86,
                Architecture::AArch64,
            ],
            Architecture::X86 => seq![
                Architecture::X64,
                Architecture::X86Pae,
                Architecture::AArch64,
            ],
            Architecture::AArch64 => seq![Architecture::X64, Architecture::X86Pae, Architecture::X86],
        },
{
    let pred = |a: Architecture| a != arch;
    let s4 = default_order();
    let s3 = s4.drop_last();
    let s2 = s3.drop_last();
    let s1 = s2.drop_last();
    let s0 = s1.drop_last();
    reveal_with_fuel(Seq::filter, 5);
    assert(s0.len() == 0);
    assert(s3 =~= seq![Architecture::X64, Architecture::X86Pae, Architecture::X86]);
    assert(s2 =~= seq![Architecture::X64, Architecture::X86Pae]);
    assert(s1 =~= seq![Architecture::X64]);
    assert(s4.filter(pred) =~= if pred(Architecture::AArch64) {
        s3.filter(pred).push(Architecture::AArch64)
    } else {
        s3.filter(pred)
    });
}

/// First physical address of the memory that is searched for `arch`.
pub open spec fn spec_window_start(arch: Architecture) -> u64 {
    match arch {
        Architecture::AArch64 => aarch64::PHYS_BASE,
        _ => 0,
    }
}

/// Number of bytes that are searched for `arch`: the first megabyte for the
/// low stub of 64-bit x86, sixteen megabytes for the others.
pub open spec fn spec_window_len(arch: Architecture) -> usize {
    match arch {
        Architecture::X64 => 0x10_0000,
        _ => 0x100_0000,
    }
}

/// The physical memory that is searched for `arch`: where it starts and how long it is.
pub fn window(arch: Architecture) -> (r: (Address, usize))
    ensures
        r.0.0 == spec_window_start(arch),
        r.1 == spec_window_len(arch),
{
    match arch {
        Architecture::X64 => (Address(0), 0x10_0000),
        Architecture::X86 | Architecture::X86Pae => (Address(0), 0x100_0000),
        Architecture::AArch64 => (Address(aarch64::PHYS_BASE), 0x100_0000),
    }
}

/// What a search of the window `mem` for `arch` has to return.
pub open spec fn scan_result(
    arch: Architecture,
    mem: Seq<u8>,
    exclude: Option<Address>,
    r: Result<StartBlock, Error>,
) -> bool {
    match arch {
        Architecture::X64 => x64::search_result(mem, exclude, r),
        Architecture::X86 => x86::search_result(mem, exclude, r),
        Architecture::X86Pae => x86pae::search_result(mem, exclude, r),
        Architecture::AArch64 => aarch64::search_result(mem, exclude, r),
    }
}

/// Searches `mem`, the window of `arch`, for the first start block whose
/// table is not `exclude`.
pub fn scan(arch: Architecture, mem: &[u8], exclude: Option<Address>) -> (r: Result<
    StartBlock,
    Error,
>)
    ensures
        scan_result(arch, mem@, exclude, r),
        r matches Ok(block) ==> block.arch == arch && block.dtb.0 != 0,
        r matches Err(e) ==> e.kind == ErrorKind::NotFound,
{
    let r = match arch {
        Architecture::X64 => x64::find_excluding(mem, exclude),
        Architecture::X86 => x86::find_excluding(mem, exclude),
        Architecture::X86Pae => x86pae::find_excluding(mem, exclude),
        Architecture::AArch64 => aarch64::find_excluding(mem, exclude),
    };
    proof {
        if r is Ok {
            lemma_start_block_not_null(arch, mem@, exclude, r->Ok_0);
        }
    }
    r
}

/// The table of a start block is never at the NULL address.
pub proof fn lemma_start_block_not_null(
    arch: Architecture,
    mem: Seq<u8>,
    exclude: Option<Address>,
    block: StartBlock,
)
    requires
        scan_result(arch, mem, exclude, Ok(block)),
    ensures
        block.dtb.0 != 0,
{
    match arch {
        Architecture::X64 => {
            let i = choose|i: int|
                {
                    &&& 0 <= i < whole_page_count(mem.len())
                    &&& #[trigger] x64::matches_at(mem, exclude, i)
                    &&& block.dtb.0 == crate::bytes::u64_le(page_at(mem, i), 0xa0)
                };
        },
        _ => {},
    }
}

/// Reads the window of `arch` and searches it. Parts of the window that
/// cannot be read count as zero; a window of which nothing can be read holds
/// no start block.
fn probe<M: PhysicalMemory>(mem: &mut M, arch: Architecture, exclude: Option<Address>) -> (r:
    Result<StartBlock, Error>)
    ensures
        match r {
            Ok(block) => exists|bytes: Seq<u8>|
                bytes.len() == spec_window_len(arch) && #[trigger] scan_result(
                    arch,
                    bytes,
                    exclude,
                    Ok(block),
                ) && block.arch == arch && block.dtb.0 != 0,
            Err(e) => e.kind == ErrorKind::NotFound,
        },
{
    let (start, len) = window(arch);
    match mem.phys_read(start, len).into_data(len) {
        Some(bytes) => scan(arch, bytes.as_slice(), exclude),
        None => Err(Error::new(ErrorKind::NotFound, "unable to read low memory")),
    }
}

/// Finds the start block of the guest. The architecture `hint` is tried
/// first, then the others; the first one whose window holds a start block
/// decides. Fails with [`ErrorKind::NotFound`] where none does.
pub fn find<M: PhysicalMemory>(mem: &mut M, hint: Option<Architecture>) -> (r: Result<
    StartBlock,
    Error,
>)
    ensures
        match r {
            Ok(block) => block.dtb.0 != 0 && exists|bytes: Seq<u8>|
                bytes.len() == spec_window_len(block.arch) && #[trigger] scan_result(
                    block.arch,
                    bytes,
                    None,
                    Ok(block),
                ),
            Err(e) => e.kind == ErrorKind::NotFound,
        },
{
    let order = search_order(hint);
    let mut i: usize = 0;
    while i < order.len()
        invariant
            i <= order.len(),
        decreases order.len() - i,
    {
        match probe(mem, order[i], None) {
            Ok(block) => {
                return Ok(block);
            },
            Err(_) => {},
        }
        i = i + 1;
    }
    Err(Error::new(ErrorKind::NotFound, "unable to find dtb"))
}

/// Searches the window of the architecture of `previous` once more and
/// returns the first start block with another table than `previous` has.
pub fn find_fallback<M: PhysicalMemory>(mem: &mut M, previous: &StartBlock) -> (r: Result<
    StartBlock,
    Error,
>)
    ensures
        match r {
            Ok(block) => block.arch == previous.arch && block.dtb != previous.dtb && block.dtb.0
                != 0 && exists|
                bytes: Seq<u8>,
            |
                bytes.len() == spec_window_len(block.arch) && #[trigger] scan_result(
                    block.arch,
                    bytes,
                    Some(previous.dtb),
                    Ok(block),
                ),
            Err(e) => e.kind == ErrorKind::NotFound,
        },
{
    let r = probe(mem, previous.arch, Some(previous.dtb));
    proof {
        if let Ok(block) = r {
            let bytes = choose|bytes: Seq<u8>|
                bytes.len() == spec_window_len(previous.arch) && #[trigger] scan_result(
                    previous.arch,
                    bytes,
                    Some(previous.dtb),
                    Ok(block),
                ) && block.arch == previous.arch;
            lemma_scan_respects_exclusion(previous.arch, bytes, previous.dtb, block);
        }
    }
    r
}

/// A search never returns the table that it was told to leave out.
pub proof fn lemma_scan_respects_exclusion(
    arch: Architecture,
    mem: Seq<u8>,
    exclude: Address,
    block: StartBlock,
)
    requires
        scan_result(arch, mem, Some(exclude), Ok(block)),
    ensures
        block.dtb != exclude,
{
    match arch {
        Architecture::X64 => {
            let i = choose|i: int|
                {
                    &&& 0 <= i < whole_page_count(mem.len())
                    &&& #[trigger] x64::matches_at(mem, Some(exclude), i)
                    &&& block.dtb.0 == crate::bytes::u64_le(page_at(mem, i), 0xa0)
                };
        },
        _ => {},
    }
}

/// Every architecture is tried exactly once, and the hinted one first.
pub proof fn lemma_search_order_complete(hint: Option<Architecture>)
    ensures
        spec_search_order(hint).len() == 4,
        spec_search_order(hint).no_duplicates(),
        forall|arch: Architecture| spec_search_order(hint).contains(arch),
        hint matches Some(arch) ==> spec_search_order(hint)[0] == arch,
{
    let order = spec_search_order(hint);
    match hint {
        Some(arch) => {
            lemma_filter_default(arch);
        },
        None => {},
    }
    assert forall|arch: Architecture| order.contains(arch) by {
        assert(order[0] == arch || order[1] == arch || order[2] == arch || order[3] == arch);
    }
}

/// Little-endian values read from zeroed memory are zero.
proof fn lemma_zero_reads(page: Seq<u8>, at: int)
    requires
        0 <= at,
        at + 8 <= page.len(),
        forall|i: int| 0 <= i < page.len() ==> page[i] == 0,
    ensures
        crate::bytes::u32_le(page, at) == 0,
        crate::bytes::u64_le(page, at) == 0,
{
    assert(((0u8 as u32) | ((0u8 as u32) << 8) | ((0u8 as u32) << 16) | ((0u8 as u32) << 24)) == 0)
        by (bit_vector);
    assert(((0u32 as u64) | ((0u32 as u64) << 32)) == 0) by (bit_vector);
}

/// Memory that holds nothing but zeroes holds no start block, whatever the
/// architecture and however long it is.
pub proof fn lemma_zeroed_memory_has_no_start_block(
    arch: Architecture,
    mem: Seq<u8>,
    exclude: Option<Address>,
    r: Result<StartBlock, Error>,
)
    requires
        forall|i: int| 0 <= i < mem.len() ==> mem[i] == 0,
        scan_result(arch, mem, exclude, r),
    ensures
        r is Err,
{
    if let Ok(block) = r {
        let i = match arch {
            Architecture::X64 => choose|i: int|
                0 <= i < whole_page_count(mem.len()) && #[trigger] x64::matches_at(mem, exclude, i),
            Architecture::X86 | Architecture::X86Pae => block.dtb.0 as int / 0x1000,
            Architecture::AArch64 => (block.dtb.0 - aarch64::PHYS_BASE) / 0x1000,
        };
        let page = page_at(mem, i);
        assert(page.len() == 0x1000);
        lemma_zero_reads(page, 0);
        match arch {
            Architecture::X64 => {
                assert((0u64 & 0xffff_ffff_0000_0000) != 0x0000_0001_0000_0000) by (bit_vector);
            },
            Architecture::X86 => {},
            Architecture::X86Pae => {
                assert(x86pae::pdpt_entry_ok(
                    (i * 0x1000) as u64,
                    0,
                    crate::bytes::u64_le(page, 8 * 0int),
                ));
            },
            Architecture::AArch64 => {
                assert((0u64 & 0xfff) != 0xf03) by (bit_vector);
            },
        }
    }
}

} // verus!
