//! Display modes, framebuffer pixel formats and buffer-switch timing.

use vstd::prelude::*;

verus! {

/// Display mode.
///
/// Display modes other than LCD are unknown.
#[derive(Clone, Copy, Debug, PartialEq, Eq, Structural)]
pub enum DisplayMode {
    Lcd,
}

impl DisplayMode {
    /// The value of this variant in the system interface.
    pub open spec fn spec_to_u32(self) -> u32 {
        match self {
            DisplayMode::Lcd => 0,
        }
    }

    /// The value of this variant in the system interface.
    pub fn to_u32(self) -> (v: u32)
        ensures
            v == self.spec_to_u32(),
    {
        match self {
            DisplayMode::Lcd => 0,
        }
    }
}

/// Framebuffer pixel formats.
#[derive(Clone, Copy, Debug, PartialEq, Eq, Structural)]
pub enum DisplayPixelFormat {
    /// 16-bit RGB 5:6:5
    _565,
    /// 16-bit RGBA 5:5:5:1
    _5551,
    /// 16-bit RGBA 4:4:4:4
    _4444,
    /// 32-bit RGBA 8:8:8:8
    _8888,
}

impl DisplayPixelFormat {
    /// The value of this variant in the system interface.
    pub open spec fn spec_to_u32(self) -> u32 {
        match self {
            DisplayPixelFormat::_565 => 0,
            DisplayPixelFormat::_5551 => 1,
            DisplayPixelFormat::_4444 => 2,
            DisplayPixelFormat::_8888 => 3,
        }
    }

    /// The value of this variant in the system interface.
    pub fn to_u32(self) -> (v: u32)
        ensures
            v == self.spec_to_u32(),
    {
        match self {
            DisplayPixelFormat::_565 => 0,
            DisplayPixelFormat::_5551 => 1,
            DisplayPixelFormat::_4444 => 2,
            DisplayPixelFormat::_8888 => 3,
        }
    }
}

#[derive(Clone, Copy, Debug, PartialEq, Eq, Structural)]
pub enum DisplaySetBufSync {
    /// Buffer change effective immediately
    Immediate,
    /// Buffer change effective next frame
    NextFrame,
}

impl DisplaySetBufSync {
    /// The value of this variant in the system interface.
    pub open spec fn spec_to_u32(self) -> u32 {
        match self {
            DisplaySetBufSync::Immediate => 0,
            DisplaySetBufSync::NextFrame => 1,
        }
    }

    /// The value of this variant in the system interface.
    pub fn to_u32(self) -> (v: u32)
        ensures
            v == self.spec_to_u32(),
    {
        match self {
            DisplaySetBufSync::Immediate => 0,
            DisplaySetBufSync::NextFrame => 1,
        }
    }
}

} // verus!
