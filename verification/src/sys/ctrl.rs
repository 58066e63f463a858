//! Controller buttons, modes and the data the controller library returns.

use vstd::prelude::*;

verus! {

/// Enumeration for the digital controller buttons.
/// NOTE: Home, Note, Screen, VolUp, VolDown, Disc, WlanUp, Remote, MS can only be read in kernel mode
#[derive(Clone, Copy, Debug, PartialEq, Eq, Structural)]
pub enum PspCtrlButtons {
    /// Select button.
    Select,
    /// Start button.
    Start,
    /// Up D-Pad button.
    Up,
    /// Right D-Pad button.
    Right,
    /// Down D-Pad button.
    Down,
    /// Left D-Pad button.
    Left,
    /// Left trigger.
    LTrigger,
    /// Right trigger.
    RTrigger,
    /// Triangle button.
    Triangle,
    /// Circle button.
    Circle,
    /// Cross button.
    Cross,
    /// Square button.
    Square,
    /// Home button. In user mode this bit is set if the exit dialog is visible.
    Home,
    /// Hold button.
    Hold,
    /// Music Note button.
    Note,
    /// Screen button.
    Screen,
    /// Volume up button.
    VolUp,
    /// Volume down button.
    VolDown,
    /// Wlan switch up.
    WlanUp,
    /// Remote hold position.
    Remote,
    /// Disc present.
    Disc,
    /// Memory stick present.
    MS,
}

impl PspCtrlButtons {
    /// The value of this variant in the system interface.
    pub open spec fn spec_to_u32(self) -> u32 {
        match self {
            PspCtrlButtons::Select => 1,
            PspCtrlButtons::Start => 8,
            PspCtrlButtons::Up => 16,
            PspCtrlButtons::Right => 32,
            PspCtrlButtons::Down => 64,
            PspCtrlButtons::Left => 128,
            PspCtrlButtons::LTrigger => 256,
            PspCtrlButtons::RTrigger => 512,
            PspCtrlButtons::Triangle => 0x1000,
            PspCtrlButtons::Circle => 0x2000,
            PspCtrlButtons::Cross => 0x4000,
            PspCtrlButtons::Square => 0x8000,
            PspCtrlButtons::Home => 0x10000,
            PspCtrlButtons::Hold => 0x20000,
            PspCtrlButtons::Note => 0x800000,
            PspCtrlButtons::Screen => 0x400000,
            PspCtrlButtons::VolUp => 0x100000,
            PspCtrlButtons::VolDown => 0x200000,
            PspCtrlButtons::WlanUp => 0x40000,
            PspCtrlButtons::Remote => 0x80000,
            PspCtrlButtons::Disc => 0x1000000,
            PspCtrlButtons::MS => 0x2000000,
        }
    }

    /// The value of this variant in the system interface.
    pub fn to_u32(self) -> (v: u32)
        ensures
            v == self.spec_to_u32(),
    {
        match self {
            PspCtrlButtons::Select => 1,
            PspCtrlButtons::Start => 8,
            PspCtrlButtons::Up => 16,
            PspCtrlButtons::Right => 32,
            PspCtrlButtons::Down => 64,
            PspCtrlButtons::Left => 128,
            PspCtrlButtons::LTrigger => 256,
            PspCtrlButtons::RTrigger => 512,
            PspCtrlButtons::Triangle => 0x1000,
            PspCtrlButtons::Circle => 0x2000,
            PspCtrlButtons::Cross => 0x4000,
            PspCtrlButtons::Square => 0x8000,
            PspCtrlButtons::Home => 0x10000,
            PspCtrlButtons::Hold => 0x20000,
            PspCtrlButtons::Note => 0x800000,
            PspCtrlButtons::Screen => 0x400000,
            PspCtrlButtons::VolUp => 0x100000,
            PspCtrlButtons::VolDown => 0x200000,
            PspCtrlButtons::WlanUp => 0x40000,
            PspCtrlButtons::Remote => 0x80000,
            PspCtrlButtons::Disc => 0x1000000,
            PspCtrlButtons::MS => 0x2000000,
        }
    }
}

/// Controller mode.
#[derive(Clone, Copy, Debug, PartialEq, Eq, Structural)]
pub enum PspCtrlMode {
    /// Digital.
    Digital,
    /// Analog.
    Analaog,
}

impl PspCtrlMode {
    /// The value of this variant in the system interface.
    pub open spec fn spec_to_u32(self) -> u32 {
        match self {
            PspCtrlMode::Digital => 0,
            PspCtrlMode::Analaog => 1,
        }
    }

    /// The value of this variant in the system interface.
    pub fn to_u32(self) -> (v: u32)
        ensures
            v == self.spec_to_u32(),
    {
        match self {
            PspCtrlMode::Digital => 0,
            PspCtrlMode::Analaog => 1,
        }
    }
}

/// Returned controller data
pub struct SceCtrlData {
    /// The current read frame.
    pub TimeStamp: u32,
    /// Bit mask containing zero or more of ::PspCtrlButtons.
    pub Buttons: u32,
    /// Analogue stick, X axis.
    pub Lx: u8,
    /// Analogue stick, Y axis.
    pub Ly: u8,
    /// Reserved.
    pub Rsrv: [u8; 6],
}

pub struct SceCtrlLatch {
    pub uiMake: u32,
    pub uiBreak: u32,
    pub uiPress: u32,
    pub uiRelease: u32,
}

} // verus!
