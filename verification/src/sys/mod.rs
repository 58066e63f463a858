//! Data layouts and pure helpers of the PSP system libraries.

pub mod atrac;
pub mod ctrl;
pub mod display;
pub mod ge;
pub mod gu;
pub mod gu_laws;
pub mod gum;
pub mod kernel;
pub mod macros;
pub mod mp3;
pub mod openpsid;
pub mod power;
pub mod rtc;
pub mod types;
pub mod usb;
pub mod utils;

pub use display::DisplayMode;
pub use ge::{GeBreakParam, GeContext, GeListArgs, GeListState, GeMatrixType, GeStack};
pub use gu::TexturePixelFormat;
pub use kernel::{SceSysMemBlockTypes, SceSysMemPartitionId, SceUid};

use vstd::prelude::*;

verus! {

/// An imported library, as listed in the module's stub section. Addresses
/// are kept as integers.
pub struct SceStubLibraryEntry {
    /// Address of the library name.
    pub name: u32,
    pub version: [u8; 2],
    pub flags: u16,
    pub len: u8,
    pub v_stub_count: u8,
    pub stub_count: u16,
    /// Address of the table of function identifiers.
    pub nid_table: u32,
    /// Address of the stub table.
    pub stub_table: u32,
}

} // verus!
