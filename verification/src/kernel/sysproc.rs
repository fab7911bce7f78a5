//! Finding the process object of the system process.

use crate::bytes::{read_u32_le, read_u64_le, u32_le, u64_le};
use crate::error::{Error, ErrorKind};
use crate::kernel::ntos::pehelper;
use crate::kernel::StartBlock;
use crate::mem::{AddressSpace, MemoryView};
use crate::types::Address;
use vstd::prelude::*;

verus! {

/// The address through which the kernel exports the system process: that of
/// `PsInitialSystemProcess` where the lookup `initial` found it, else that
/// of the list head `PsActiveProcessHead`.
pub fn pick_export(initial: Result<u64, Error>, head: Result<u64, Error>) -> (r: Result<u64, Error>)
    ensures
        match r {
            Ok(rva) => initial == Ok::<u64, Error>(rva) || (initial is Err && head == Ok::<
                u64,
                Error,
            >(rva)),
            Err(e) => e.kind == ErrorKind::NotFound && initial is Err && head is Err,
        },
{
    match initial {
        Ok(rva) => Ok(rva),
        Err(_) => match head {
            Ok(rva) => Ok(rva),
            Err(_) => Err(
                Error::new(ErrorKind::NotFound, "unable to find the system process export"),
            ),
        },
    }
}

/// The pointer that `bytes` hold: eight bytes on a 64-bit guest, four on a 32-bit one.
pub open spec fn pointer_value(bytes: Seq<u8>, bits: u8) -> u64 {
    if bits == 64 {
        u64_le(bytes, 0)
    } else {
        u32_le(bytes, 0) as u64
    }
}

/// The address that the pointer in `bytes` holds; a NULL pointer names no process.
pub fn pointer_target(bytes: &[u8], bits: u8) -> (r: Result<Address, Error>)
    requires
        bits == 64 || bits == 32,
        bytes@.len() == bits / 8,
    ensures
        match r {
            Ok(addr) => addr.0 == pointer_value(bytes@, bits) && addr.0 != 0,
            Err(e) => e.kind == ErrorKind::NotFound && pointer_value(bytes@, bits) == 0,
        },
{
    let value: u64 = if bits == 64 {
        read_u64_le(bytes, 0)
    } else {
        read_u32_le(bytes, 0) as u64
    };
    if value == 0 {
        Err(Error::new(ErrorKind::NotFound, "the system process pointer is null"))
    } else {
        Ok(Address(value))
    }
}

/// Finds the process object of the system process through the exports of the kernel at `ntos`.
pub fn find<T: MemoryView>(virt_mem: &mut T, start_block: &StartBlock, ntos: Address) -> (r:
    Result<Address, Error>)
    ensures
        match r {
            Ok(addr) => addr.0 != 0,
            Err(e) => e.kind == ErrorKind::NotFound || e.kind == ErrorKind::InvalidExeFile,
        },
{
    let space = AddressSpace { arch: start_block.arch, dtb: start_block.dtb };
    let image = pehelper::try_get_pe_image(virt_mem, space, ntos)?;
    let initial = pehelper::get_export(image.as_slice(), "PsInitialSystemProcess");
    let head = pehelper::get_export(image.as_slice(), "PsActiveProcessHead");
    let rva = pick_export(initial, head)?;
    let bits: u8 = start_block.arch.bits();
    let width: usize = (bits / 8) as usize;
    let addr = match ntos.checked_add(rva) {
        Some(addr) => addr,
        None => {
            return Err(Error::new(ErrorKind::NotFound, "unable to read the system process pointer"));
        },
    };
    match virt_mem.read_raw(space, addr, width).into_complete(width) {
        Some(bytes) => pointer_target(bytes.as_slice(), bits),
        None => Err(Error::new(ErrorKind::NotFound, "unable to read the system process pointer")),
    }
}

} // verus!
