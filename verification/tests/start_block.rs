use memflow_win32::architecture::Architecture;
use memflow_win32::error::ErrorKind;
use memflow_win32::kernel::start_block::{
    aarch64, find, find_fallback, scan, search_order, window, x64, x86, x86pae,
};
use memflow_win32::kernel::StartBlock;
use memflow_win32::mem::{MemoryRead, PhysicalMemory};
use memflow_win32::types::Address;

fn put_u32(mem: &mut [u8], at: usize, value: u32) {
    mem[at..at + 4].copy_from_slice(&value.to_le_bytes());
}

fn put_u64(mem: &mut [u8], at: usize, value: u64) {
    mem[at..at + 8].copy_from_slice(&value.to_le_bytes());
}

fn pae_page(mem: &mut [u8], addr: usize) {
    for i in 0..4u64 {
        put_u64(mem, addr + 8 * i as usize, addr as u64 + i * 0x1000 + 0x1001);
    }
}

fn aarch64_page(mem: &mut [u8], at: usize, addr: u64) {
    put_u64(mem, at, 0x4020_0f03);
    put_u64(mem, at + 0x800, addr | 0xf03);
    for k in 1..7 {
        put_u64(mem, at + 0x800 + 8 * k, 0x5000_0000 + 0x1000 * k as u64 + 0x703);
    }
}

fn low_stub(mem: &mut [u8], at: usize, dtb: u64, kernel_hint: u64) {
    put_u64(mem, at, 0x0000_0001_0006_00e9);
    put_u64(mem, at + 0xa0, dtb);
    put_u64(mem, at + 0x278, kernel_hint);
}

fn x86_page(mem: &mut [u8], addr: usize) {
    mem[addr] = 0x67;
    put_u32(mem, addr + 0xc00, addr as u32 + 0x63);
}

/// A pseudo-random byte stream.
fn noise(len: usize, seed: u64) -> Vec<u8> {
    let mut state = seed;
    let mut out = Vec::with_capacity(len);
    for _ in 0..len {
        state = state.wrapping_mul(6364136223846793005).wrapping_add(1442695040888963407);
        out.push((state >> 33) as u8);
    }
    out
}

struct Ram {
    base: u64,
    bytes: Vec<u8>,
    reads: usize,
}

impl PhysicalMemory for Ram {
    fn phys_read(&mut self, addr: Address, len: usize) -> MemoryRead {
        self.reads += 1;
        let start = match addr.0.checked_sub(self.base) {
            Some(start) => start as usize,
            None => return MemoryRead::Failed,
        };
        let mut out = vec![0u8; len];
        if start >= self.bytes.len() {
            return MemoryRead::Partial(out);
        }
        let n = len.min(self.bytes.len() - start);
        out[..n].copy_from_slice(&self.bytes[start..start + n]);
        if n == len {
            MemoryRead::Complete(out)
        } else {
            MemoryRead::Partial(out)
        }
    }
}

struct Unreadable;

impl PhysicalMemory for Unreadable {
    fn phys_read(&mut self, _addr: Address, _len: usize) -> MemoryRead {
        MemoryRead::Failed
    }
}

#[test]
fn x86pae_finds_table_at_0x10000() {
    let mut mem = vec![0u8; 0x20000];
    pae_page(&mut mem, 0x10000);
    assert_eq!(&mem[0x10000..0x10008], &0x11001u64.to_le_bytes());
    let block = x86pae::find(&mem).unwrap();
    assert_eq!(block.arch, Architecture::X86Pae);
    assert_eq!(block.dtb, Address(0x10000));
    assert_eq!(block.kernel_hint, Address(0));
}

#[test]
fn x86pae_empty_memory_has_no_table() {
    let mem = vec![0u8; 0x4000];
    let err = x86pae::find(&mem).unwrap_err();
    assert_eq!(err.kind, ErrorKind::NotFound);
    assert_eq!(x86pae::find(&[]).unwrap_err().kind, ErrorKind::NotFound);
}

#[test]
fn x86pae_check_page_wants_every_entry() {
    let mut page = vec![0u8; 0x1000];
    pae_page(&mut page, 0);
    // The page was filled for address 0; at any other address it is no table.
    assert!(x86pae::check_page(Address(0), &page));
    assert!(!x86pae::check_page(Address(0x1000), &page));
    let mut spoiled = page.clone();
    spoiled[0x20] = 1;
    assert!(!x86pae::check_page(Address(0), &spoiled));
    let mut moved = vec![0u8; 0x1000];
    for i in 0..4u64 {
        put_u64(&mut moved, 8 * i as usize, 0x7000 + i * 0x1000 + 0x1001);
    }
    assert!(x86pae::check_page(Address(0x7000), &moved));
    moved[9] ^= 0x10;
    assert!(!x86pae::check_page(Address(0x7000), &moved));
}

#[test]
fn x86pae_returns_first_of_two_tables() {
    let mut mem = vec![0u8; 0x8000];
    pae_page(&mut mem, 0x5000);
    pae_page(&mut mem, 0x2000);
    assert_eq!(x86pae::find(&mem).unwrap().dtb, Address(0x2000));
    let second = x86pae::find_excluding(&mem, Some(Address(0x2000))).unwrap();
    assert_eq!(second.dtb, Address(0x5000));
}

#[test]
fn x86pae_wants_a_whole_page() {
    // Two entries of a table at the end of a buffer are no table.
    let mut mem = vec![0u8; 0x1010];
    mem[0] = 1;
    put_u64(&mut mem, 0x1000, 0x1000 + 0x1001);
    put_u64(&mut mem, 0x1008, 0x1000 + 0x1000 + 0x1001);
    assert_eq!(x86pae::find(&mem).unwrap_err().kind, ErrorKind::NotFound);
    // Neither is a buffer that holds no entry at all.
    assert_eq!(x86pae::find(&[0u8]).unwrap_err().kind, ErrorKind::NotFound);
    assert_eq!(x86pae::find(&vec![0u8; 0x1007]).unwrap_err().kind, ErrorKind::NotFound);
    assert!(!x86pae::check_page(Address(0x1000), &mem[0x1000..]));
    assert!(!x86pae::check_page(Address(0), &[]));
    // A whole page with two of the four entries is none either.
    mem.resize(0x2000, 0);
    assert_eq!(x86pae::find(&mem).unwrap_err().kind, ErrorKind::NotFound);
    // With all four entries and the rest of the page the table is found.
    pae_page(&mut mem, 0x1000);
    assert_eq!(x86pae::find(&mem[..0x1fff]).unwrap_err().kind, ErrorKind::NotFound);
    assert_eq!(x86pae::find(&mem).unwrap().dtb, Address(0x1000));
    mem.push(0);
    assert_eq!(x86pae::find(&mem).unwrap().dtb, Address(0x1000));
}

#[test]
fn a_table_at_address_zero_is_no_start_block() {
    let mut mem = vec![0u8; 0x3000];
    pae_page(&mut mem, 0);
    assert!(x86pae::check_page(Address(0), &mem[..0x1000]));
    assert_eq!(x86pae::find(&mem).unwrap_err().kind, ErrorKind::NotFound);
    pae_page(&mut mem, 0x2000);
    assert_eq!(x86pae::find(&mem).unwrap().dtb, Address(0x2000));
    let mut mem = vec![0u8; 0x3000];
    x86_page(&mut mem, 0);
    assert!(x86::check_page(Address(0), &mem[..0x1000]));
    assert_eq!(x86::find(&mem).unwrap_err().kind, ErrorKind::NotFound);
    x86_page(&mut mem, 0x1000);
    assert_eq!(x86::find(&mem).unwrap().dtb, Address(0x1000));
    // Whatever is found, its table is not at the NULL address.
    let mut ram = Ram { base: 0, bytes: mem, reads: 0 };
    for hint in [None, Some(Architecture::X86), Some(Architecture::X86Pae)] {
        assert_ne!(find(&mut ram, hint).unwrap().dtb, Address(0));
    }
}

#[test]
fn aarch64_finds_table_above_phys_base() {
    let mut mem = vec![0u8; 0x4000];
    aarch64_page(&mut mem, 0x2000, aarch64::PHYS_BASE + 0x2000);
    let block = aarch64::find(&mem).unwrap();
    assert_eq!(block.arch, Architecture::AArch64);
    assert_eq!(block.dtb, Address(0x4000_2000));
    assert_eq!(block.kernel_hint, Address(0));
}

#[test]
fn aarch64_page_rules() {
    let addr = Address(0x4000_3000);
    let mut page = vec![0u8; 0x1000];
    aarch64_page(&mut page, 0, addr.0);
    assert_eq!(aarch64::find_pt(addr, &page), Some(addr));

    // The first entry has to be a table descriptor.
    let mut bad = page.clone();
    put_u64(&mut bad, 0, 0x4020_0703);
    assert_eq!(aarch64::find_pt(addr, &bad), None);

    // Its target has to lie below 512 GiB.
    let mut far = page.clone();
    put_u64(&mut far, 0, 0x80_0000_0000 | 0xf03);
    assert_eq!(aarch64::find_pt(addr, &far), None);
    put_u64(&mut far, 0, 0x7f_ffff_f000 | 0xf03);
    assert_eq!(aarch64::find_pt(addr, &far), Some(addr));

    // The upper half has to refer to the page itself.
    let mut other = page.clone();
    put_u64(&mut other, 0x800, (addr.0 + 0x1000) | 0xf03);
    assert_eq!(aarch64::find_pt(addr, &other), None);

    // Five kernel mappings are too few, six are enough.
    let mut few = page.clone();
    put_u64(&mut few, 0x800 + 8 * 6, 0);
    assert_eq!(aarch64::find_pt(addr, &few), None);
    put_u64(&mut few, 0xff8, 0x703);
    assert_eq!(aarch64::find_pt(addr, &few), Some(addr));

    // A reference to the page in the lower half does not count.
    let mut low = page.clone();
    put_u64(&mut low, 0x800, 0);
    put_u64(&mut low, 0x7f8, addr.0 | 0xf03);
    put_u64(&mut low, 0x800 + 8 * 7, 0x703);
    assert_eq!(aarch64::find_pt(addr, &low), None);
}

#[test]
fn aarch64_ignores_a_short_last_page() {
    let mut mem = vec![0u8; 0x1800];
    aarch64_page(&mut mem, 0x1000 - 0x800, 0);
    assert_eq!(aarch64::find(&mem).unwrap_err().kind, ErrorKind::NotFound);
}

#[test]
fn x64_reads_the_low_stub() {
    let mut mem = vec![0u8; 0x10_0000];
    low_stub(&mut mem, 0x13000, 0x1ab000, 0xffff_f800_02a1_0000);
    let block = x64::find(&mem).unwrap();
    assert_eq!(
        block,
        StartBlock {
            arch: Architecture::X64,
            kernel_hint: Address(0xffff_f800_02a1_0000),
            dtb: Address(0x1ab000),
        }
    );
}

#[test]
fn x64_low_stub_rules() {
    let mut page = vec![0u8; 0x1000];
    low_stub(&mut page, 0, 0x1ab000, 0);
    assert!(x64::check_page(&page));
    // Only the upper half of the first eight bytes is compared.
    put_u64(&mut page, 0, 0x0000_0001_0000_0000);
    assert!(x64::check_page(&page));
    put_u64(&mut page, 0, 0x0000_0001_ffff_ffff);
    assert!(x64::check_page(&page));
    put_u64(&mut page, 0, 0x0000_0002_0006_00e9);
    assert!(!x64::check_page(&page));
    // A stub without a table is none.
    low_stub(&mut page, 0, 0, 0x1234);
    assert!(!x64::check_page(&page));
}

#[test]
fn x64_skips_the_excluded_table() {
    let mut mem = vec![0u8; 0x8000];
    low_stub(&mut mem, 0x1000, 0x1ab000, 0x10);
    low_stub(&mut mem, 0x4000, 0x1ad000, 0x20);
    assert_eq!(x64::find(&mem).unwrap().dtb, Address(0x1ab000));
    let second = x64::find_excluding(&mem, Some(Address(0x1ab000))).unwrap();
    assert_eq!(second.dtb, Address(0x1ad000));
    assert_eq!(second.kernel_hint, Address(0x20));
    let mut one = vec![0u8; 0x2000];
    low_stub(&mut one, 0x1000, 0x1ab000, 0x10);
    let err = x64::find_excluding(&one, Some(Address(0x1ab000))).unwrap_err();
    assert_eq!(err.kind, ErrorKind::NotFound);
}

#[test]
fn x86_finds_the_page_directory() {
    let mut mem = vec![0u8; 0x40000];
    x86_page(&mut mem, 0x39000);
    let block = x86::find(&mem).unwrap();
    assert_eq!(block.arch, Architecture::X86);
    assert_eq!(block.dtb, Address(0x39000));
    assert_eq!(block.kernel_hint, Address(0));
}

#[test]
fn x86_page_directory_rules() {
    let mut page = vec![0u8; 0x1000];
    x86_page(&mut page, 0);
    assert!(x86::check_page(Address(0), &page));
    assert!(!x86::check_page(Address(0x1000), &page));
    page[0] = 0x63;
    assert!(!x86::check_page(Address(0), &page));
    page[0] = 0x67;
    put_u32(&mut page, 0xc00, 0x1);
    assert!(!x86::check_page(Address(0), &page));
    // An address beyond 32 bits never matches.
    put_u32(&mut page, 0xc00, 0x3);
    assert!(!x86::check_page(Address(0x1_0000_0000), &page));
}

#[test]
fn random_bytes_hold_no_start_block() {
    for seed in 1..5u64 {
        let mem = noise(0x40000, seed);
        assert_eq!(x64::find(&mem).unwrap_err().kind, ErrorKind::NotFound);
        assert_eq!(x86::find(&mem).unwrap_err().kind, ErrorKind::NotFound);
        assert_eq!(x86pae::find(&mem).unwrap_err().kind, ErrorKind::NotFound);
        assert_eq!(aarch64::find(&mem).unwrap_err().kind, ErrorKind::NotFound);
        let mut ram = Ram { base: 0, bytes: mem, reads: 0 };
        assert_eq!(find(&mut ram, None).unwrap_err().kind, ErrorKind::NotFound);
    }
}

#[test]
fn search_order_puts_the_hint_first() {
    let (x64, pae, x86, arm) =
        (Architecture::X64, Architecture::X86Pae, Architecture::X86, Architecture::AArch64);
    assert_eq!(search_order(None), vec![x64, pae, x86, arm]);
    assert_eq!(search_order(Some(x64)), vec![x64, pae, x86, arm]);
    assert_eq!(search_order(Some(pae)), vec![pae, x64, x86, arm]);
    assert_eq!(search_order(Some(x86)), vec![x86, x64, pae, arm]);
    assert_eq!(search_order(Some(arm)), vec![arm, x64, pae, x86]);
}

#[test]
fn windows_of_the_architectures() {
    assert_eq!(window(Architecture::X64), (Address(0), 0x10_0000));
    assert_eq!(window(Architecture::X86), (Address(0), 0x100_0000));
    assert_eq!(window(Architecture::X86Pae), (Address(0), 0x100_0000));
    assert_eq!(window(Architecture::AArch64), (Address(0x4000_0000), 0x100_0000));
}

#[test]
fn scan_dispatches_on_the_architecture() {
    let mut mem = vec![0u8; 0x8000];
    pae_page(&mut mem, 0x3000);
    assert_eq!(scan(Architecture::X86Pae, &mem, None).unwrap().dtb, Address(0x3000));
    assert_eq!(scan(Architecture::X64, &mem, None).unwrap_err().kind, ErrorKind::NotFound);
    assert_eq!(scan(Architecture::X86, &mem, None).unwrap_err().kind, ErrorKind::NotFound);
    assert_eq!(scan(Architecture::AArch64, &mem, None).unwrap_err().kind, ErrorKind::NotFound);
}

#[test]
fn find_tries_the_hinted_architecture_first() {
    let mut bytes = vec![0u8; 0x20000];
    low_stub(&mut bytes, 0x1000, 0x1ab000, 0x77);
    pae_page(&mut bytes, 0x10000);
    let mut ram = Ram { base: 0, bytes, reads: 0 };
    assert_eq!(find(&mut ram, None).unwrap().arch, Architecture::X64);
    assert_eq!(ram.reads, 1);
    let block = find(&mut ram, Some(Architecture::X86Pae)).unwrap();
    assert_eq!(block.arch, Architecture::X86Pae);
    assert_eq!(block.dtb, Address(0x10000));
    // A hint that leads nowhere falls through to the others.
    let block = find(&mut ram, Some(Architecture::AArch64)).unwrap();
    assert_eq!(block.arch, Architecture::X64);
    assert_eq!(block.dtb, Address(0x1ab000));
}

#[test]
fn find_reads_aarch64_at_its_base() {
    let mut bytes = vec![0u8; 0x4000];
    aarch64_page(&mut bytes, 0x1000, 0x4000_1000);
    let mut ram = Ram { base: 0x4000_0000, bytes, reads: 0 };
    let block = find(&mut ram, None).unwrap();
    assert_eq!(block.arch, Architecture::AArch64);
    assert_eq!(block.dtb, Address(0x4000_1000));
    assert_eq!(ram.reads, 4);
}

/// Memory that answers every read with sixteen bytes.
struct Short;

impl PhysicalMemory for Short {
    fn phys_read(&mut self, _addr: Address, _len: usize) -> MemoryRead {
        MemoryRead::Complete(vec![0u8; 16])
    }
}

#[test]
fn a_window_with_holes_is_searched() {
    // Only the first pages of the window can be read.
    let mut bytes = vec![0u8; 0x20000];
    pae_page(&mut bytes, 0x4000);
    let mut ram = Ram { base: 0, bytes, reads: 0 };
    assert!(matches!(ram.phys_read(Address(0), 0x100_0000), MemoryRead::Partial(_)));
    assert_eq!(find(&mut ram, Some(Architecture::X86Pae)).unwrap().dtb, Address(0x4000));
    // A read that delivers another length than was asked for counts as failed.
    assert_eq!(find(&mut Short, None).unwrap_err().kind, ErrorKind::NotFound);
}

#[test]
fn find_fails_without_memory() {
    assert_eq!(find(&mut Unreadable, None).unwrap_err().kind, ErrorKind::NotFound);
    assert_eq!(
        find(&mut Unreadable, Some(Architecture::X86)).unwrap_err().kind,
        ErrorKind::NotFound
    );
}

#[test]
fn fallback_leaves_the_previous_table_out() {
    let mut bytes = vec![0u8; 0x20000];
    pae_page(&mut bytes, 0x4000);
    pae_page(&mut bytes, 0x9000);
    let mut ram = Ram { base: 0, bytes, reads: 0 };
    let first = find(&mut ram, Some(Architecture::X86Pae)).unwrap();
    assert_eq!(first.dtb, Address(0x4000));
    let second = find_fallback(&mut ram, &first).unwrap();
    assert_eq!(second.arch, Architecture::X86Pae);
    assert_eq!(second.dtb, Address(0x9000));
    let third = find_fallback(&mut ram, &second).unwrap();
    assert_eq!(third.dtb, Address(0x4000));
    let mut single = vec![0u8; 0x8000];
    pae_page(&mut single, 0x4000);
    let mut ram = Ram { base: 0, bytes: single, reads: 0 };
    assert_eq!(find_fallback(&mut ram, &first).unwrap_err().kind, ErrorKind::NotFound);
}
