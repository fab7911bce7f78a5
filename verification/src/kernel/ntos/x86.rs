//! Finding the kernel image of a 32-bit guest.

use crate::error::{Error, ErrorKind};
use crate::kernel::ntos::x64::find_with_page_map;
use crate::kernel::StartBlock;
use crate::mem::{AddressSpace, MemoryView, VirtualTranslate};
use crate::types::Address;
use vstd::prelude::*;

verus! {

/// The lowest address of the upper half of a 32-bit address space.
pub const UPPER_HALF: u64 = 0x7fff_ffff;

/// The highest address of a 32-bit address space.
pub const TOP: u64 = 0xffff_ffff;

/// Searches the mapped upper half of the address space of `start_block` for the kernel image.
pub fn find<T: MemoryView + VirtualTranslate>(virt_mem: &mut T, start_block: &StartBlock) -> (r: Result<
    (Address, u64),
    Error,
>)
    ensures
        match r {
            Ok((base, size)) => base.0 % 0x1000 == 0 && 0 < size <= u32::MAX,
            Err(e) => e.kind == ErrorKind::NotFound || e.kind == ErrorKind::InvalidExeFile,
        },
{
    let space = AddressSpace { arch: start_block.arch, dtb: start_block.dtb };
    find_with_page_map(virt_mem, space, Address(UPPER_HALF), Address(TOP))
}

} // verus!
