//! The processor architectures a Windows guest can run on.

use vstd::prelude::*;

verus! {

/// A supported guest architecture, with its paging mode.
#[derive(Clone, Copy, Debug, PartialEq, Eq, Structural)]
pub enum Architecture {
    /// 32-bit x86 with two-level paging.
    X86,
    /// 32-bit x86 with physical address extension.
    X86Pae,
    /// 64-bit x86 with four-level paging.
    X64,
    /// 64-bit ARM with 4 KiB pages.
    AArch64,
}

impl Architecture {
    /// Width of a pointer in bits.
    pub open spec fn spec_bits(self) -> u8 {
        match self {
            Architecture::X86 | Architecture::X86Pae => 32,
            Architecture::X64 | Architecture::AArch64 => 64,
        }
    }

    /// Width of a pointer in bits.
    #[verifier::when_used_as_spec(spec_bits)]
    pub fn bits(self) -> (r: u8)
        ensures
            r == self.spec_bits(),
    {
        match self {
            Architecture::X86 | Architecture::X86Pae => 32,
            Architecture::X64 | Architecture::AArch64 => 64,
        }
    }

    /// Size of the smallest page in bytes.
    pub open spec fn spec_page_size(self) -> usize {
        0x1000
    }

    /// Size of the smallest page in bytes.
    #[verifier::when_used_as_spec(spec_page_size)]
    pub fn page_size(self) -> (r: usize)
        ensures
            r == self.spec_page_size(),
    {
        0x1000
    }

    /// Number of address bits that the translation tables cover.
    pub open spec fn spec_address_space_bits(self) -> u8 {
        match self {
            Architecture::X86 => 32,
            Architecture::X86Pae => 36,
            Architecture::X64 => 52,
            Architecture::AArch64 => 48,
        }
    }

    /// Number of address bits that the translation tables cover.
    #[verifier::when_used_as_spec(spec_address_space_bits)]
    pub fn address_space_bits(self) -> (r: u8)
        ensures
            r == self.spec_address_space_bits(),
    {
        match self {
            Architecture::X86 => 32,
            Architecture::X86Pae => 36,
            Architecture::X64 => 52,
            Architecture::AArch64 => 48,
        }
    }
}

} // verus!
