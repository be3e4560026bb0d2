//! What the multiboot loader hands the kernel.

use vstd::prelude::*;
use crate::exit::QemuExitCode;

verus! {

/// The value a multiboot-compliant loader leaves in `eax`.
pub const MULTIBOOT_BOOTLOADER_MAGIC: u32 = 0x2BADB002;

/// The fields of the multiboot information structure the kernel reads.
#[derive(Clone, Copy, Debug, PartialEq, Eq, Structural)]
pub struct MultibootHeader {
    pub flags: u32,
    pub framebuffer_addr: u64,
    pub framebuffer_pitch: u32,
    pub framebuffer_width: u32,
    pub framebuffer_height: u32,
    pub framebuffer_bpp: u8,
}

/// Why the kernel refused to boot.
#[derive(Clone, Copy, Debug, PartialEq, Eq, Structural)]
pub enum BootError {
    /// The loader's signature was not the multiboot one.
    BadMagic(u32),
}

/// The diagnostic line for a bad loader signature.
pub open spec fn bad_magic_line() -> Seq<char> {
    "PANIC: invalid multiboot magic"@
}

impl BootError {
    /// The line written to the serial sink before the machine halts.
    pub fn diagnostic(&self) -> (r: &'static str)
        ensures
            r@ == bad_magic_line(),
    {
        "PANIC: invalid multiboot magic"
    }

    /// A refused boot stops the machine as a failure.
    pub fn exit_code(&self) -> (r: QemuExitCode)
        ensures
            r == QemuExitCode::Failed,
    {
        QemuExitCode::Failed
    }
}

/// Checks the loader's signature.
pub fn verify_multiboot_magic(magic: u32) -> (r: Result<(), BootError>)
    ensures
        r is Ok <==> magic == MULTIBOOT_BOOTLOADER_MAGIC,
        r is Err ==> r->Err_0 == BootError::BadMagic(magic),
{
    if magic == MULTIBOOT_BOOTLOADER_MAGIC {
        Ok(())
    } else {
        Err(BootError::BadMagic(magic))
    }
}

} // verus!
