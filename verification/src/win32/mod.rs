//! The kernel of a Windows guest and how it is set up.

pub mod kernel_builder;
pub mod kernel_info;

pub use kernel_builder::{
    offset_builder_with_kernel_info, PageCache, VatCache, Win32Kernel, Win32KernelBuilder,
};
pub use kernel_info::{KernelInfoScanner, OsInfo, Win32KernelInfo};
