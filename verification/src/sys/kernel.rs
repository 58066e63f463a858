//! Kernel identifiers, memory partitions and the contexts of the kernel utilities.

use vstd::prelude::*;

pub mod thread;

verus! {

#[derive(Debug, Copy, Clone)]
pub struct SceKernelEventFlagOptParam {
    pub size: usize,
}

#[derive(Copy, Clone, Debug, PartialEq, Eq, Structural)]
pub struct SceUid(pub i32);

#[derive(Clone, Copy, Debug, PartialEq, Eq, Structural)]
pub enum SceSysMemPartitionId {
    SceKernelUnknownPartition,
    SceKernelPrimaryKernelPartition,
    SceKernelPrimaryUserPartition,
    SceKernelOtherKernelPartition1,
    SceKernelOtherKernelPartition2,
    SceKernelVshellPARTITION,
    SceKernelScUserPartition,
    SceKernelMeUserPartition,
    SceKernelExtendedScKernelPartition,
    SceKernelExtendedSc2KernelPartition,
    SceKernelExtendedMeKernelPartition,
    SceKernelVshellKernelPartition,
    SceKernelExtendedKernelPartition,
}

impl SceSysMemPartitionId {
    /// The value of this variant in the system interface.
    pub open spec fn spec_to_i32(self) -> i32 {
        match self {
            SceSysMemPartitionId::SceKernelUnknownPartition => 0,
            SceSysMemPartitionId::SceKernelPrimaryKernelPartition => 1,
            SceSysMemPartitionId::SceKernelPrimaryUserPartition => 2,
            SceSysMemPartitionId::SceKernelOtherKernelPartition1 => 3,
            SceSysMemPartitionId::SceKernelOtherKernelPartition2 => 4,
            SceSysMemPartitionId::SceKernelVshellPARTITION => 5,
            SceSysMemPartitionId::SceKernelScUserPartition => 6,
            SceSysMemPartitionId::SceKernelMeUserPartition => 7,
            SceSysMemPartitionId::SceKernelExtendedScKernelPartition => 8,
            SceSysMemPartitionId::SceKernelExtendedSc2KernelPartition => 9,
            SceSysMemPartitionId::SceKernelExtendedMeKernelPartition => 10,
            SceSysMemPartitionId::SceKernelVshellKernelPartition => 11,
            SceSysMemPartitionId::SceKernelExtendedKernelPartition => 12,
        }
    }

    /// The value of this variant in the system interface.
    pub fn to_i32(self) -> (v: i32)
        ensures
            v == self.spec_to_i32(),
    {
        match self {
            SceSysMemPartitionId::SceKernelUnknownPartition => 0,
            SceSysMemPartitionId::SceKernelPrimaryKernelPartition => 1,
            SceSysMemPartitionId::SceKernelPrimaryUserPartition => 2,
            SceSysMemPartitionId::SceKernelOtherKernelPartition1 => 3,
            SceSysMemPartitionId::SceKernelOtherKernelPartition2 => 4,
            SceSysMemPartitionId::SceKernelVshellPARTITION => 5,
            SceSysMemPartitionId::SceKernelScUserPartition => 6,
            SceSysMemPartitionId::SceKernelMeUserPartition => 7,
            SceSysMemPartitionId::SceKernelExtendedScKernelPartition => 8,
            SceSysMemPartitionId::SceKernelExtendedSc2KernelPartition => 9,
            SceSysMemPartitionId::SceKernelExtendedMeKernelPartition => 10,
            SceSysMemPartitionId::SceKernelVshellKernelPartition => 11,
            SceSysMemPartitionId::SceKernelExtendedKernelPartition => 12,
        }
    }
}

/// Specifies the type of allocation used for memory blocks.
#[derive(Clone, Copy, Debug, PartialEq, Eq, Structural)]
pub enum SceSysMemBlockTypes {
    /// Allocate from the lowest available address.
    Low,
    /// Allocate from the highest available address.
    High,
    /// Allocate from the specified address.
    Addr,
}

impl SceSysMemBlockTypes {
    /// The value of this variant in the system interface.
    pub open spec fn spec_to_i32(self) -> i32 {
        match self {
            SceSysMemBlockTypes::Low => 0,
            SceSysMemBlockTypes::High => 1,
            SceSysMemBlockTypes::Addr => 2,
        }
    }

    /// The value of this variant in the system interface.
    pub fn to_i32(self) -> (v: i32)
        ensures
            v == self.spec_to_i32(),
    {
        match self {
            SceSysMemBlockTypes::Low => 0,
            SceSysMemBlockTypes::High => 1,
            SceSysMemBlockTypes::Addr => 2,
        }
    }
}

#[derive(Debug, Copy, Clone)]
pub struct TimeVal {
    pub tv_sec: i32,
    pub tv_usec: i32,
}

#[derive(Debug, Copy, Clone)]
pub struct Timezone {
    pub tz_minutes_west: i32,
    pub tz_dst_time: i32,
}

/// Type to hold a sha1 context
#[derive(Copy, Clone)]
pub struct Sha1Context {
    pub h: [u32; 5],
    pub us_remains: u16,
    pub us_computed: u16,
    pub ull_total_len: u64,
    pub buf: [u8; 64],
}

/// Structure for holding a mersenne twister context
#[derive(Copy, Clone)]
pub struct Mt19937Context {
    pub count: u32,
    pub state: [u32; 624],
}

/// Structure to hold the MD5 context
#[derive(Copy, Clone)]
pub struct Md5Context {
    pub h: [u32; 4],
    pub pad: u32,
    pub us_remains: u16,
    pub us_computed: u16,
    pub ull_total_len: u64,
    pub buf: [u8; 64],
}

} // verus!
