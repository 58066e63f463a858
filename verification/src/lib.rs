//! Verified core of a PSP homebrew support library: VRAM bump allocation,
//! texture sizing, colour packing, module-info naming, screenshot encoding and
//! the plain data layouts exchanged with the PSP system libraries.
#![allow(non_snake_case)]
#![allow(non_camel_case_types)]

pub mod framebuf_gfx;
pub mod screenshot;
pub mod sys;
pub mod vram_alloc;

use vstd::prelude::*;
use vstd::string::StringSliceAdditionalSpecFns;
use crate::sys::macros::zero_padded;

verus! {

/// A value meant to be placed at a 16-byte aligned address.
pub struct Align16<T>(pub T);

/// The module information record that the PSP loader reads.
pub struct SceModuleInfo {
    pub mod_attribute: u16,
    pub mod_version: [u8; 2],
    pub mod_name: [u8; 27],
    pub terminal: u8,
    /// Address of the global pointer.
    pub gp_value: u32,
    /// Address of the first library entry.
    pub ent_top: u32,
    /// Address just past the library entries.
    pub ent_end: u32,
    /// Address of the first library stub.
    pub stub_top: u32,
    /// Address just past the library stubs.
    pub stub_end: u32,
}

impl SceModuleInfo {
    /// The module-name field for `s`: its bytes, then zeroes up to 27 bytes.
    pub fn name(s: &str) -> (result: [u8; 27])
        requires
            s.spec_bytes().len() <= 27,
        ensures
            result@ == zero_padded(s.spec_bytes(), 27),
    {
        let bytes = s.as_bytes();
        let mut result = [0u8; 27];
        let mut i: usize = 0;
        while i < bytes.len()
            invariant
                bytes@ == s.spec_bytes(),
                bytes@.len() <= 27,
                i <= bytes@.len(),
                result@.len() == 27,
                forall|j: int| 0 <= j < i ==> result@[j] == bytes@[j],
                forall|j: int| i <= j < 27 ==> result@[j] == 0u8,
            decreases bytes@.len() - i,
        {
            result[i] = bytes[i];
            i += 1;
        }
        assert(result@ =~= zero_padded(s.spec_bytes(), 27));
        result
    }
}

/// Attributes of an exported library.
#[derive(Clone, Copy, Debug, PartialEq, Eq, Structural)]
pub struct SceLibAttr {
    pub bits: u16,
}

impl SceLibAttr {
    pub const SCE_LIB_NO_SPECIAL_ATTR: u16 = 0;
    pub const SCE_LIB_AUTO_EXPORT: u16 = 0x1;
    pub const SCE_LIB_WEAK_EXPORT: u16 = 0x2;
    pub const SCE_LIB_NOLINK_EXPORT: u16 = 0x4;
    pub const SCE_LIB_WEAK_IMPORT: u16 = 0x8;
    pub const SCE_LIB_SYSCALL_EXPORT: u16 = 0x4000;
    pub const SCE_LIB_IS_SYSLIB: u16 = 0x8000;
}

/// An exported library, as listed in the module's entry section.
pub struct SceLibraryEntry {
    /// Address of the library name.
    pub name: u32,
    pub version: (u8, u8),
    pub attribute: SceLibAttr,
    pub entry_len: u8,
    pub var_count: u8,
    pub func_count: u16,
    /// Address of the library's entry table.
    pub entry_table: u32,
}

/// The resident entry table: the identifiers and addresses of the module's
/// start function and module information.
pub struct LibraryEntryTable {
    pub module_start_nid: u32,
    pub module_info_nid: u32,
    /// Address of the module start function.
    pub module_start: u32,
    /// Address of the module information.
    pub module_info: u32,
}

} // verus!
