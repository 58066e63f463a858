//! Time values and the contexts of the kernel utility library.

use vstd::prelude::*;

verus! {

pub type ClockType = u32;
pub type TimeType = i32;
pub type SusecondsType = i32;

#[derive(Debug, Copy, Clone)]
pub struct TimeVal {
    pub tv_sec: TimeType,
    pub tv_usec: SusecondsType,
}

#[derive(Debug, Copy, Clone)]
pub struct Timezone {
    pub tz_minuteswest: i32,
    pub tz_dsttime: i32,
}

/// Type to hold a sha1 context
#[derive(Copy, Clone)]
pub struct SceKernelUtilsSha1Context {
    pub h: [u32; 5],
    pub us_remains: u16,
    pub us_computed: u16,
    pub ull_total_len: u64,
    pub buf: [u8; 64],
}

/// Structure for holding a mersenne twister context
#[derive(Copy, Clone)]
pub struct SceKernelUtilsMt19937Context {
    pub count: u32,
    pub state: [u32; 624],
}

/// Structure to hold the MD5 context
#[derive(Copy, Clone)]
pub struct SceKernelUtilsMd5Context {
    pub h: [u32; 4],
    pub pad: u32,
    pub us_remains: u16,
    pub us_computed: u16,
    pub ull_total_len: u64,
    pub buf: [u8; 64],
}

} // verus!
