//! Power callback and tick flags.

use vstd::prelude::*;

verus! {

///Power callback flags
#[derive(Clone, Copy, Debug, PartialEq, Eq, Structural)]
pub enum Callback {
    ///Indicates the power switch it pushed, putting the unit into suspend mode
    PowerSwitch,
    ///Indicates the hold switch is on
    HoldSwitch,
    ///Indicates the PSP has gone to standby (screen off)
    Standby,
    ///Indicates the resume process is complete. (Only triggered when another even happens)
    ResumeComplete,
    ///Indicates the unit is resuming from suspend mode.
    Resuming,
    ///Indicates the unit is suspending - occurs due to inactivity
    Suspending,
    ///Indicates the unit is plugged into an AC outlet
    ACPower,
    ///Indicates the battery charge level is low
    BatteryLow,
    ///Indicates there is a battery present
    BatteryExist,
    ///Indicates the unit is relying on a battery for power (instead of AC adapter)
    BatteryPower,
}

impl Callback {
    /// The value of this variant in the system interface.
    pub open spec fn spec_to_u32(self) -> u32 {
        match self {
            Callback::PowerSwitch => 0x80000000,
            Callback::HoldSwitch => 0x40000000,
            Callback::Standby => 0x80000,
            Callback::ResumeComplete => 0x40000,
            Callback::Resuming => 0x20000,
            Callback::Suspending => 0x10000,
            Callback::ACPower => 0x1000,
            Callback::BatteryLow => 256,
            Callback::BatteryExist => 128,
            Callback::BatteryPower => 127,
        }
    }

    /// The value of this variant in the system interface.
    pub fn to_u32(self) -> (v: u32)
        ensures
            v == self.spec_to_u32(),
    {
        match self {
            Callback::PowerSwitch => 0x80000000,
            Callback::HoldSwitch => 0x40000000,
            Callback::Standby => 0x80000,
            Callback::ResumeComplete => 0x40000,
            Callback::Resuming => 0x20000,
            Callback::Suspending => 0x10000,
            Callback::ACPower => 0x1000,
            Callback::BatteryLow => 256,
            Callback::BatteryExist => 128,
            Callback::BatteryPower => 127,
        }
    }
}

///Power tick flags
#[derive(Clone, Copy, Debug, PartialEq, Eq, Structural)]
pub enum Tick {
    ///All
    All,
    ///Suspend
    Suspend,
    ///Display
    Display,
}

impl Tick {
    /// The value of this variant in the system interface.
    pub open spec fn spec_to_u32(self) -> u32 {
        match self {
            Tick::All => 0,
            Tick::Suspend => 1,
            Tick::Display => 6,
        }
    }

    /// The value of this variant in the system interface.
    pub fn to_u32(self) -> (v: u32)
        ensures
            v == self.spec_to_u32(),
    {
        match self {
            Tick::All => 0,
            Tick::Suspend => 1,
            Tick::Display => 6,
        }
    }
}

} // verus!
