//! Camera setup parameters of the USB camera library.

use vstd::prelude::*;

verus! {

/// Flip and mirror flags of a still-image capture: bit 0 flips the image,
/// bit 8 mirrors it.
#[derive(Debug, Copy, Clone)]
pub struct CamReverseFlags(pub i32);

/// Structure for `sce_usb_cam_setup_still`
#[derive(Debug, Copy, Clone)]
pub struct CamSetupStillParam {
    /// Size of the `CamSetupStillParam` structure
    pub size: i32,
    /// Resolution.
    pub resolution: CamResolution,
    /// Size of the jpeg image
    pub jpegsize: i32,
    /// Reverse effect to apply. Zero or more of `CamReverseFlags`
    pub reverseflags: CamReverseFlags,
    /// Delay to apply to take the picture.
    pub delay: CamDelay,
    /// JPEG compression level, a value from 1-63.
    ///
    /// 1 -> less compression, better quality; 63 -> max compression, worse quality
    pub complevel: i32,
}

/// Structure for sceUsbCamSetupStillEx
#[derive(Debug, Copy, Clone)]
pub struct CamSetupStillExParam {
    /// Size of the `CamSetupStillExParam` structure
    pub size: i32,
    /// Unknown, set it to 9 at the moment.
    pub unk: u32,
    /// Resolution.
    pub resolution: CamResolutionEx,
    /// Size of the jpeg image
    pub jpegsize: i32,
    /// JPEG compression level, a value from 1-63.
    ///
    /// 1 -> less compression, better quality; 63 -> max compression, worse quality
    pub complevel: i32,
    /// Unknown, set it to 0 at the moment
    pub unk2: u32,
    /// Unknown, set it to 1 at the moment
    pub unk3: u32,
    /// Flag that indicates whether to flip the image
    pub flip: i32,
    /// Flag that indicates whether to mirror the image
    pub mirror: i32,
    /// Delay to apply to take the picture.
    pub delay: CamDelay,
    /// Unknown, set it to 0 at the moment
    pub unk4: [u32; 5],
}

#[derive(Debug, Copy, Clone)]
pub struct CamSetupVideoParam {
    /// Size of the `CamSetupVideoParam` structure
    pub size: i32,
    /// Resolution.
    pub resolution: CamResolution,
    /// Framerate.
    pub framerate: CamFrameRate,
    /// White balance.
    pub wb: CamWb,
    /// Saturarion (0-255)
    pub saturation: i32,
    /// Brightness (0-255)
    pub brightness: i32,
    /// Contrast (0-255)
    pub contrast: i32,
    /// Sharpness (0-255)
    pub sharpness: i32,
    /// Effect mode.
    pub effectmode: CamEffectMode,
    /// Size of jpeg video frame
    pub framesize: i32,
    /// Unknown. Set it to 0 at the moment.
    pub unk: u32,
    /// Exposure value.
    pub evlevel: CamEvLevel,
}

#[derive(Debug, Copy, Clone)]
pub struct CamSetupVideoExParam {
    /// Size of the ::CamSetupVideoParam structure
    pub size: i32,
    pub unk: u32,
    /// Resolution.
    pub resolution: CamResolutionEx,
    /// Framerate.
    pub framerate: CamFrameRate,
    /// Unknown. Set it to 2 at the moment
    pub unk2: u32,
    /// Unknown. Set it to 3 at the moment
    pub unk3: u32,
    /// White balance.
    pub wb: CamWb,
    /// Saturation (0-255)
    pub saturation: i32,
    /// Brightness (0-255)
    pub brightness: i32,
    /// Contrast (0-255)
    pub contrast: i32,
    /// Sharpness (0-255)
    pub sharpness: i32,
    /// Unknown. Set it to 0 at the moment
    pub unk4: u32,
    /// Unknown. Set it to 1 at the moment
    pub unk5: u32,
    /// Unknown. Set it to 0 at the moment
    pub unk6: [u32; 3],
    /// Effect mode.
    pub effectmode: CamEffectMode,
    /// Unknown. Set it to 1 at the moment
    pub unk7: u32,
    /// Unknown. Set it to 10 at the moment
    pub unk8: u32,
    /// Unknown. Set it to 2 at the moment
    pub unk9: u32,
    /// Unknown. Set it to 500 at the moment
    pub unk10: u32,
    /// Unknown. Set it to 1000 at the moment
    pub unk11: u32,
    /// Size of jpeg video frame
    pub framesize: i32,
    /// Unknown. Set it to 0 at the moment
    pub unk12: u32,
    /// Exposure value.
    pub evlevel: CamEvLevel,
}

/// Resolutions for `sce_usb_cam_setup_still` & `sce_usb_cam_setup_video`
///
/// DO NOT use on `sce_usb_cam_setup_still_ex` & `sce_usb_cam_setup_video_ex`
#[derive(Clone, Copy, Debug, PartialEq, Eq, Structural)]
pub enum CamResolution {
    _160_120,
    _176_144,
    _320_240,
    _352_288,
    _640_480,
    _1024_768,
    _1280_960,
    _480_272,
    _360_272,
}

impl CamResolution {
    /// The value of this variant in the system interface.
    pub open spec fn spec_to_i32(self) -> i32 {
        match self {
            CamResolution::_160_120 => 0,
            CamResolution::_176_144 => 1,
            CamResolution::_320_240 => 2,
            CamResolution::_352_288 => 3,
            CamResolution::_640_480 => 4,
            CamResolution::_1024_768 => 5,
            CamResolution::_1280_960 => 6,
            CamResolution::_480_272 => 7,
            CamResolution::_360_272 => 8,
        }
    }

    /// The value of this variant in the system interface.
    pub fn to_i32(self) -> (v: i32)
        ensures
            v == self.spec_to_i32(),
    {
        match self {
            CamResolution::_160_120 => 0,
            CamResolution::_176_144 => 1,
            CamResolution::_320_240 => 2,
            CamResolution::_352_288 => 3,
            CamResolution::_640_480 => 4,
            CamResolution::_1024_768 => 5,
            CamResolution::_1280_960 => 6,
            CamResolution::_480_272 => 7,
            CamResolution::_360_272 => 8,
        }
    }
}

/// Resolutions for `sce_usb_cam_setup_still_ex` & `sce_usb_cam_setup_video_ex`
///
/// DO NOT use on `sce_usb_cam_setup_still` & `sce_usb_cam_setup_video`
#[derive(Clone, Copy, Debug, PartialEq, Eq, Structural)]
pub enum CamResolutionEx {
    _160_120,
    _176_144,
    _320_240,
    _352_288,
    _360_272,
    _480_272,
    _640_480,
    _1024_768,
    _1280_960,
}

impl CamResolutionEx {
    /// The value of this variant in the system interface.
    pub open spec fn spec_to_i32(self) -> i32 {
        match self {
            CamResolutionEx::_160_120 => 0,
            CamResolutionEx::_176_144 => 1,
            CamResolutionEx::_320_240 => 2,
            CamResolutionEx::_352_288 => 3,
            CamResolutionEx::_360_272 => 4,
            CamResolutionEx::_480_272 => 5,
            CamResolutionEx::_640_480 => 6,
            CamResolutionEx::_1024_768 => 7,
            CamResolutionEx::_1280_960 => 8,
        }
    }

    /// The value of this variant in the system interface.
    pub fn to_i32(self) -> (v: i32)
        ensures
            v == self.spec_to_i32(),
    {
        match self {
            CamResolutionEx::_160_120 => 0,
            CamResolutionEx::_176_144 => 1,
            CamResolutionEx::_320_240 => 2,
            CamResolutionEx::_352_288 => 3,
            CamResolutionEx::_360_272 => 4,
            CamResolutionEx::_480_272 => 5,
            CamResolutionEx::_640_480 => 6,
            CamResolutionEx::_1024_768 => 7,
            CamResolutionEx::_1280_960 => 8,
        }
    }
}

/// Delay to take pictures
#[derive(Clone, Copy, Debug, PartialEq, Eq, Structural)]
pub enum CamDelay {
    NoDelay,
    Delay10Sec,
    Delay20Sec,
    Delay30Sec,
}

impl CamDelay {
    /// The value of this variant in the system interface.
    pub open spec fn spec_to_i32(self) -> i32 {
        match self {
            CamDelay::NoDelay => 0,
            CamDelay::Delay10Sec => 1,
            CamDelay::Delay20Sec => 2,
            CamDelay::Delay30Sec => 3,
        }
    }

    /// The value of this variant in the system interface.
    pub fn to_i32(self) -> (v: i32)
        ensures
            v == self.spec_to_i32(),
    {
        match self {
            CamDelay::NoDelay => 0,
            CamDelay::Delay10Sec => 1,
            CamDelay::Delay20Sec => 2,
            CamDelay::Delay30Sec => 3,
        }
    }
}

/// Usbcam framerates
#[derive(Clone, Copy, Debug, PartialEq, Eq, Structural)]
pub enum CamFrameRate {
    /// 3.75 FPS
    Fps3_75,
    /// 5 FPS
    Fps5,
    /// 7.5 FPS
    Fps7_5,
    /// 10 FPS
    Fps10,
    /// 15 FPS
    Fps15,
    /// 20 FPS
    Fps20,
    /// 30 FPS
    Fps30,
    /// 60 FPS
    Fps60,
}

impl CamFrameRate {
    /// The value of this variant in the system interface.
    pub open spec fn spec_to_i32(self) -> i32 {
        match self {
            CamFrameRate::Fps3_75 => 0,
            CamFrameRate::Fps5 => 1,
            CamFrameRate::Fps7_5 => 2,
            CamFrameRate::Fps10 => 3,
            CamFrameRate::Fps15 => 4,
            CamFrameRate::Fps20 => 5,
            CamFrameRate::Fps30 => 6,
            CamFrameRate::Fps60 => 7,
        }
    }

    /// The value of this variant in the system interface.
    pub fn to_i32(self) -> (v: i32)
        ensures
            v == self.spec_to_i32(),
    {
        match self {
            CamFrameRate::Fps3_75 => 0,
            CamFrameRate::Fps5 => 1,
            CamFrameRate::Fps7_5 => 2,
            CamFrameRate::Fps10 => 3,
            CamFrameRate::Fps15 => 4,
            CamFrameRate::Fps20 => 5,
            CamFrameRate::Fps30 => 6,
            CamFrameRate::Fps60 => 7,
        }
    }
}

/// White balance values
#[derive(Clone, Copy, Debug, PartialEq, Eq, Structural)]
pub enum CamWb {
    Auto,
    Daylight,
    Fluorescent,
    Incadescent,
}

impl CamWb {
    /// The value of this variant in the system interface.
    pub open spec fn spec_to_i32(self) -> i32 {
        match self {
            CamWb::Auto => 0,
            CamWb::Daylight => 1,
            CamWb::Fluorescent => 2,
            CamWb::Incadescent => 3,
        }
    }

    /// The value of this variant in the system interface.
    pub fn to_i32(self) -> (v: i32)
        ensures
            v == self.spec_to_i32(),
    {
        match self {
            CamWb::Auto => 0,
            CamWb::Daylight => 1,
            CamWb::Fluorescent => 2,
            CamWb::Incadescent => 3,
        }
    }
}

/// Effect modes
#[derive(Clone, Copy, Debug, PartialEq, Eq, Structural)]
pub enum CamEffectMode {
    Normal,
    Negative,
    Blackwhite,
    Sepia,
    Blue,
    Red,
    Green,
}

impl CamEffectMode {
    /// The value of this variant in the system interface.
    pub open spec fn spec_to_i32(self) -> i32 {
        match self {
            CamEffectMode::Normal => 0,
            CamEffectMode::Negative => 1,
            CamEffectMode::Blackwhite => 2,
            CamEffectMode::Sepia => 3,
            CamEffectMode::Blue => 4,
            CamEffectMode::Red => 5,
            CamEffectMode::Green => 6,
        }
    }

    /// The value of this variant in the system interface.
    pub fn to_i32(self) -> (v: i32)
        ensures
            v == self.spec_to_i32(),
    {
        match self {
            CamEffectMode::Normal => 0,
            CamEffectMode::Negative => 1,
            CamEffectMode::Blackwhite => 2,
            CamEffectMode::Sepia => 3,
            CamEffectMode::Blue => 4,
            CamEffectMode::Red => 5,
            CamEffectMode::Green => 6,
        }
    }
}

/// Exposure levels
#[derive(Clone, Copy, Debug, PartialEq, Eq, Structural)]
pub enum CamEvLevel {
    /// +2.0
    Pos2_0,
    /// +1.7
    Pos1_7,
    /// +1.5
    Pos1_5,
    /// +1.3
    Pos1_3,
    /// +1.0
    Pos1_0,
    /// +0.7
    Pos0_7,
    /// +0.5
    Pos0_5,
    /// +0.3
    Pos0_3,
    /// 0.0
    Zero,
    /// -0.3
    Neg0_3,
    /// -0.5
    Neg0_5,
    /// -0.7
    Neg0_7,
    /// -1.0
    Neg1_0,
    /// -1.3
    Neg1_3,
    /// -1.5
    Neg1_5,
    /// -1.7
    Neg1_7,
    /// -2.0
    Neg2_0,
}

impl CamEvLevel {
    /// The value of this variant in the system interface.
    pub open spec fn spec_to_i32(self) -> i32 {
        match self {
            CamEvLevel::Pos2_0 => 0,
            CamEvLevel::Pos1_7 => 1,
            CamEvLevel::Pos1_5 => 2,
            CamEvLevel::Pos1_3 => 3,
            CamEvLevel::Pos1_0 => 4,
            CamEvLevel::Pos0_7 => 5,
            CamEvLevel::Pos0_5 => 6,
            CamEvLevel::Pos0_3 => 7,
            CamEvLevel::Zero => 8,
            CamEvLevel::Neg0_3 => 9,
            CamEvLevel::Neg0_5 => 10,
            CamEvLevel::Neg0_7 => 11,
            CamEvLevel::Neg1_0 => 12,
            CamEvLevel::Neg1_3 => 13,
            CamEvLevel::Neg1_5 => 14,
            CamEvLevel::Neg1_7 => 15,
            CamEvLevel::Neg2_0 => 16,
        }
    }

    /// The value of this variant in the system interface.
    pub fn to_i32(self) -> (v: i32)
        ensures
            v == self.spec_to_i32(),
    {
        match self {
            CamEvLevel::Pos2_0 => 0,
            CamEvLevel::Pos1_7 => 1,
            CamEvLevel::Pos1_5 => 2,
            CamEvLevel::Pos1_3 => 3,
            CamEvLevel::Pos1_0 => 4,
            CamEvLevel::Pos0_7 => 5,
            CamEvLevel::Pos0_5 => 6,
            CamEvLevel::Pos0_3 => 7,
            CamEvLevel::Zero => 8,
            CamEvLevel::Neg0_3 => 9,
            CamEvLevel::Neg0_5 => 10,
            CamEvLevel::Neg0_7 => 11,
            CamEvLevel::Neg1_0 => 12,
            CamEvLevel::Neg1_3 => 13,
            CamEvLevel::Neg1_5 => 14,
            CamEvLevel::Neg1_7 => 15,
            CamEvLevel::Neg2_0 => 16,
        }
    }
}

} // verus!
