//! Finding the kernel image of a 64-bit guest.

use crate::error::{Error, ErrorKind};
use crate::kernel::ntos::pehelper;
use crate::kernel::StartBlock;
use crate::mem::{AddressSpace, MemoryRange, MemoryView, VirtualTranslate};
use crate::types::Address;
use memflow::iter::PageChunks;
use vstd::prelude::*;
use vstd::slice::slice_subrange;

verus! {

/// Size of a large page, the unit in which memory is probed.
pub const CHUNK: u64 = 0x20_0000;

/// Number of bytes below the hint over which the probe extends.
pub const HINT_REACH: u64 = 0x100_0000;

/// Size below which a mapped chunk cannot hold the kernel.
pub const MIN_CHUNK: u64 = 0x4_0000;

/// The name under which the kernel exports itself.
pub open spec fn kernel_name() -> Seq<char> {
    "ntoskrnl.exe"@
}

/// Tells whether `name` is the kernel's.
pub fn is_kernel_name(name: &String) -> (r: bool)
    ensures
        r == (name@ == kernel_name()),
{
    let expected = String::from_str("ntoskrnl.exe");
    *name == expected
}

/// The first address that the probe around `kernel_hint` looks at: the hint
/// with its lowest 17 bits cleared.
pub open spec fn hint_base(kernel_hint: u64) -> u64 {
    kernel_hint & !0x1_ffffu64
}

/// The addresses that the probe around `kernel_hint` looks at, in order:
/// from [`hint_base`] downwards in steps of 2 MiB for as long as the address
/// lies less than 16 MiB below the hint and is not negative.
pub open spec fn probe_bases(kernel_hint: u64, count: nat) -> Seq<u64>
    decreases count,
{
    if count == 0 {
        Seq::empty()
    } else {
        let k = (count - 1) as nat;
        let base = hint_base(kernel_hint) - k * CHUNK;
        if base >= 0 && base + HINT_REACH > kernel_hint {
            probe_bases(kernel_hint, k).push(base as u64)
        } else {
            probe_bases(kernel_hint, k)
        }
    }
}

/// The addresses that the probe around `kernel_hint` looks at, in order.
pub fn hint_probe_bases(kernel_hint: u64) -> (r: Vec<u64>)
    ensures
        r@ == probe_bases(kernel_hint, 8),
        forall|i: int| 0 <= i < r@.len() ==> r@[i] % 0x1000 == 0,
{
    let start: u64 = kernel_hint & !0x1_ffffu64;
    assert(start <= kernel_hint && kernel_hint - start < 0x2_0000 && start % 0x1000 == 0) by (bit_vector)
        requires
            start == kernel_hint & !0x1_ffffu64,
    ;
    let mut bases: Vec<u64> = Vec::new();
    let mut k: u64 = 0;
    while k < 8
        invariant
            k <= 8,
            start == hint_base(kernel_hint),
            start <= kernel_hint,
            kernel_hint - start < 0x2_0000,
            start % 0x1000 == 0,
            bases@ == probe_bases(kernel_hint, k as nat),
            forall|i: int| 0 <= i < bases@.len() ==> bases@[i] % 0x1000 == 0,
        decreases 8 - k,
    {
        let step: u64 = k * CHUNK;
        if start >= step && kernel_hint - (start - step) < HINT_REACH {
            bases.push(start - step);
        }
        k = k + 1;
    }
    bases
}

/// Whether `addr` is the address of a whole page inside the 2 MiB at `va_base`.
pub open spec fn page_in_window(va_base: u64, addr: u64) -> bool {
    &&& va_base <= addr
    &&& addr - va_base + 0x1000 <= CHUNK
    &&& addr % 0x1000 == 0
}

/// The page of `buf` that stands at the address `addr`, where `buf` holds
/// what stands at `va_base`.
pub open spec fn page_at(buf: Seq<u8>, va_base: u64, addr: u64) -> Seq<u8> {
    buf.subrange(addr - va_base, addr - va_base + 0x1000)
}

/// The addresses of the pages in `buf`, the 2 MiB read at `va_base`, that
/// start like a mapped image: each of them and no other, in rising order.
/// Only whole pages on page boundaries count.
pub fn candidate_pages(buf: &[u8], va_base: u64) -> (r: Vec<u64>)
    requires
        buf@.len() == CHUNK,
    ensures
        forall|k: int|
            0 <= k < r@.len() ==> page_in_window(va_base, r@[k]) && pehelper::dos_header_ok(
                page_at(buf@, va_base, r@[k]),
            ),
        forall|a: u64|
            page_in_window(va_base, a) && pehelper::dos_header_ok(page_at(buf@, va_base, a))
                ==> r@.contains(a),
        forall|i: int, j: int| 0 <= i < j < r@.len() ==> r@[i] < r@[j],
{
    let len: usize = CHUNK as usize;
    let room: u64 = u64::MAX - va_base;
    let mut pages: Vec<u64> = Vec::new();
    // The first page boundary at or behind the start of the buffer.
    let mut at: usize = ((0x1000 - va_base % 0x1000) % 0x1000) as usize;
    while at + 0x1000 <= len && at as u64 <= room
        invariant
            len == CHUNK,
            buf@.len() == CHUNK,
            room == u64::MAX - va_base,
            at <= len,
            (va_base + at) % 0x1000 == 0,
            forall|k: int|
                0 <= k < pages@.len() ==> page_in_window(va_base, pages@[k])
                    && pehelper::dos_header_ok(page_at(buf@, va_base, pages@[k]))
                    && pages@[k] < va_base + at,
            forall|a: u64|
                page_in_window(va_base, a) && a < va_base + at && pehelper::dos_header_ok(
                    page_at(buf@, va_base, a),
                ) ==> pages@.contains(a),
            forall|i: int, j: int| 0 <= i < j < pages@.len() ==> pages@[i] < pages@[j],
        decreases len - at,
    {
        let addr: u64 = va_base + at as u64;
        let page = slice_subrange(buf, at, at + 0x1000);
        let found = pehelper::check_dos_header(page);
        let ghost before = pages@;
        if found {
            pages.push(addr);
        }
        proof {
            assert(page@ == page_at(buf@, va_base, addr));
            assert forall|a: u64|
                page_in_window(va_base, a) && a < va_base + at + 0x1000
                    && pehelper::dos_header_ok(page_at(buf@, va_base, a)) implies pages@.contains(
                a,
            ) by {
                if a < va_base + at {
                    let k = choose|k: int| 0 <= k < before.len() && before[k] == a;
                    assert(pages@[k] == a);
                } else {
                    assert(a == addr);
                    assert(pages@[before.len() as int] == a);
                }
            }
        }
        at = at + 0x1000;
    }
    pages
}

/// Reads the 2 MiB at `va_base` and returns the address of the first of
/// their [`candidate_pages`] that belongs to an image which exports itself
/// as the kernel.
pub fn find_with_va<T: MemoryView>(virt_mem: &mut T, space: AddressSpace, va_base: u64) -> (r:
    Result<u64, Error>)
    ensures
        match r {
            Ok(addr) => page_in_window(va_base, addr),
            Err(e) => e.kind == ErrorKind::NotFound,
        },
{
    let len: usize = CHUNK as usize;
    let buf = match virt_mem.read_raw(space, Address(va_base), len).into_data(len) {
        Some(buf) => buf,
        None => {
            return Err(Error::new(ErrorKind::NotFound, "unable to read memory"));
        },
    };
    let pages = candidate_pages(buf.as_slice(), va_base);
    let mut i: usize = 0;
    while i < pages.len()
        invariant
            i <= pages.len(),
            forall|k: int| 0 <= k < pages@.len() ==> page_in_window(va_base, pages@[k]),
        decreases pages.len() - i,
    {
        let probe_addr: u64 = pages[i];
        match pehelper::try_get_pe_name(virt_mem, space, Address(probe_addr)) {
            Ok(name) => {
                if is_kernel_name(&name) {
                    return Ok(probe_addr);
                }
            },
            Err(_) => {},
        }
        i = i + 1;
    }
    Err(Error::new(ErrorKind::NotFound, "unable to locate ntoskrnl.exe"))
}

/// Probes the neighbourhood of the kernel hint of `start_block` for the kernel image.
pub fn find_with_va_hint<T: MemoryView>(virt_mem: &mut T, start_block: &StartBlock) -> (r:
    Result<(Address, u64), Error>)
    ensures
        match r {
            Ok((base, size)) => {
                &&& base.0 % 0x1000 == 0
                &&& base.0 < hint_base(start_block.kernel_hint.0) + CHUNK
                &&& base.0 + HINT_REACH > start_block.kernel_hint.0
                &&& 0 < size <= u32::MAX
            },
            Err(e) => e.kind == ErrorKind::NotFound || e.kind == ErrorKind::InvalidExeFile,
        },
{
    let space = AddressSpace { arch: start_block.arch, dtb: start_block.dtb };
    let hint: u64 = start_block.kernel_hint.to_umem();
    let bases = hint_probe_bases(hint);
    let mut i: usize = 0;
    while i < bases.len()
        invariant
            i <= bases.len(),
            hint == start_block.kernel_hint.0,
            bases@ == probe_bases(hint, 8),
            forall|j: int| 0 <= j < bases@.len() ==> bases@[j] % 0x1000 == 0,
        decreases bases.len() - i,
    {
        let va_base: u64 = bases[i];
        match find_with_va(virt_mem, space, va_base) {
            Ok(addr) => {
                proof {
                    lemma_probe_bases_near(hint, 8, i as int);
                }
                let size_of_image = pehelper::try_get_pe_size(virt_mem, space, Address(addr))?;
                return Ok((Address(addr), size_of_image));
            },
            Err(_) => {},
        }
        i = i + 1;
    }
    Err(Error::new(ErrorKind::NotFound, "unable to locate ntoskrnl.exe via va hint"))
}

/// Every probed address lies at most at the hint with its lowest 17 bits
/// cleared and less than 16 MiB below the hint.
pub proof fn lemma_probe_bases_near(kernel_hint: u64, count: nat, i: int)
    requires
        0 <= i < probe_bases(kernel_hint, count).len(),
    ensures
        probe_bases(kernel_hint, count)[i] <= hint_base(kernel_hint),
        hint_base(kernel_hint) <= kernel_hint,
        probe_bases(kernel_hint, count)[i] + HINT_REACH > kernel_hint,
    decreases count,
{
    let start = hint_base(kernel_hint);
    assert(start <= kernel_hint) by (bit_vector)
        requires
            start == kernel_hint & !0x1_ffffu64,
    ;
    if count > 0 {
        let k = (count - 1) as nat;
        let before = probe_bases(kernel_hint, k);
        if i < before.len() {
            lemma_probe_bases_near(kernel_hint, k, i);
        }
    }
}

/// The first piece of the range of `size` bytes at `address` when the range
/// is cut at every multiple of `chunk`: it ends at the next such multiple or
/// with the range.
pub open spec fn first_piece_len(address: u64, size: u64, chunk: usize) -> u64 {
    let to_boundary = chunk - address % (chunk as u64);
    if size <= to_boundary {
        size
    } else {
        to_boundary as u64
    }
}

/// The first piece of the range of `size` bytes at `address` when the range
/// is cut at every multiple of 2 MiB.
pub open spec fn first_chunk_len(address: u64, size: u64) -> u64 {
    first_piece_len(address, size, 0x20_0000)
}

/// Calls `memflow`'s `PageChunks::page_chunks` on a range of `size` bytes
/// that starts at `address`, asking for pieces that end on multiples of
/// `chunk`, and returns the first piece. As `memflow` documents and its
/// iterator computes, the piece starts at `address` and ends at the next
/// multiple of `chunk` or with the range. The iterator computes with
/// wrapping arithmetic, which gives the multiples of `chunk` up to the end of
/// the address space where `chunk` divides 2^64.
#[verifier::external_body]
fn first_chunk(address: u64, size: u64, chunk: usize) -> (r: (u64, u64))
    requires
        size > 0,
        chunk > 0,
        0x1_0000_0000_0000_0000int % (chunk as int) == 0,
    ensures
        r.0 == address,
        r.1 == first_piece_len(address, size, chunk),
{
    let (a, s) = size.page_chunks(memflow::types::Address::from(address), chunk).next().unwrap();
    (a.to_umem(), s)
}

/// Whether a piece of `range` starts at `p` when the range is cut at every
/// multiple of 2 MiB, and whether that piece is large enough to hold the
/// kernel: pieces start where the range starts and at the multiples inside it,
/// and only pieces of more than 256 KiB are searched.
pub open spec fn searched_piece(range: MemoryRange, p: u64) -> bool {
    &&& range.address.0 <= p
    &&& p - range.address.0 < range.size
    &&& p == range.address.0 || p % CHUNK == 0
    &&& first_chunk_len(p, (range.size - (p - range.address.0)) as u64) > MIN_CHUNK
}

/// Whether `addr` is the address of a page in the 2 MiB that are read for a
/// searched piece of `range`.
pub open spec fn in_searched_piece(range: MemoryRange, addr: u64) -> bool {
    exists|p: u64| #[trigger] searched_piece(range, p) && page_in_window(p, addr)
}

/// Searches one mapped range, cut at multiples of 2 MiB, for the kernel
/// image. The pieces are looked at in ascending order, those of 256 KiB or
/// less are passed over, and what is found lies in the 2 MiB that were read
/// for one of the others. A range without such a piece holds no kernel.
fn find_in_range<T: MemoryView>(virt_mem: &mut T, space: AddressSpace, range: MemoryRange) -> (r:
    Option<u64>)
    ensures
        r matches Some(addr) ==> in_searched_piece(range, addr),
        range.size <= MIN_CHUNK ==> r is None,
        (forall|p: u64| !searched_piece(range, p)) ==> r is None,
{
    let mut address: u64 = range.address.0;
    let mut size: u64 = range.size;
    while size > 0
        invariant
            range.address.0 <= address,
            address - range.address.0 + size == range.size,
            address == range.address.0 || address % CHUNK == 0 || size == 0,
        decreases size,
    {
        let (va, len) = first_chunk(address, size, CHUNK as usize);
        assert(0 < len <= size) by {
            assert(address % CHUNK < CHUNK);
        }
        if len > MIN_CHUNK {
            assert(searched_piece(range, va));
            match find_with_va(virt_mem, space, va) {
                Ok(addr) => {
                    return Some(addr);
                },
                Err(_) => {},
            }
        }
        assert(len == size || (address + len) % (CHUNK as int) == 0) by {
            if len != size {
                assert(len == CHUNK - address % CHUNK);
            }
        }
        size = size - len;
        match address.checked_add(len) {
            Some(next) => {
                address = next;
            },
            None => {
                return None;
            },
        }
    }
    None
}

/// Searches the mapped ranges between `start` and `end` for the kernel image.
pub fn find_with_page_map<T: MemoryView + VirtualTranslate>(
    virt_mem: &mut T,
    space: AddressSpace,
    start: Address,
    end: Address,
) -> (r: Result<(Address, u64), Error>)
    ensures
        match r {
            Ok((base, size)) => base.0 % 0x1000 == 0 && 0 < size <= u32::MAX,
            Err(e) => e.kind == ErrorKind::NotFound || e.kind == ErrorKind::InvalidExeFile,
        },
{
    let page_map = virt_mem.virt_page_map_range(space, CHUNK, start, end);
    let mut i: usize = 0;
    while i < page_map.len()
        invariant
            i <= page_map.len(),
        decreases page_map.len() - i,
    {
        match find_in_range(virt_mem, space, page_map[i]) {
            Some(addr) => {
                let size_of_image = pehelper::try_get_pe_size(virt_mem, space, Address(addr))?;
                return Ok((Address(addr), size_of_image));
            },
            None => {},
        }
        i = i + 1;
    }
    Err(Error::new(ErrorKind::NotFound, "unable to locate ntoskrnl.exe with a page map"))
}

/// Searches the mapped upper half of the address space of `start_block` for
/// the kernel image: the addresses from `2^64 - 1 - 2^(n - 1)` to `2^64 - 1`,
/// where `n` is the number of address bits of the architecture.
pub fn find<T: MemoryView + VirtualTranslate>(virt_mem: &mut T, start_block: &StartBlock) -> (r: Result<
    (Address, u64),
    Error,
>)
    ensures
        match r {
            Ok((base, size)) => base.0 % 0x1000 == 0 && 0 < size <= u32::MAX,
            Err(e) => e.kind == ErrorKind::NotFound || e.kind == ErrorKind::InvalidExeFile,
        },
{
    let space = AddressSpace { arch: start_block.arch, dtb: start_block.dtb };
    let bits: u8 = start_block.arch.address_space_bits();
    let half: u64 = 1u64 << ((bits - 1) as u64);
    find_with_page_map(virt_mem, space, Address(u64::MAX - half), Address(u64::MAX))
}

} // verus!
