//! Parameter and status layouts of the thread manager.

use vstd::prelude::*;
use crate::sys::kernel::SceUid;

verus! {

/// Structure to hold the psp profiler register values
#[derive(Debug, Copy, Clone)]
pub struct DebugProfilerRegs {
    pub enable: u32,
    pub systemck: u32,
    pub cpuck: u32,
    pub internal: u32,
    pub memory: u32,
    pub copz: u32,
    pub vfpu: u32,
    pub sleep: u32,
    pub bus_access: u32,
    pub uncached_load: u32,
    pub uncached_store: u32,
    pub cached_load: u32,
    pub cached_store: u32,
    pub i_miss: u32,
    pub d_miss: u32,
    pub d_writeback: u32,
    pub cop0_inst: u32,
    pub fpu_inst: u32,
    pub vfpu_inst: u32,
    pub local_bus: u32,
}

/// 64-bit system clock type.
#[derive(Debug, Copy, Clone)]
pub struct SceKernelSysClock {
    pub low: u32,
    pub hi: u32,
}

/// Additional options used when creating threads.
#[derive(Debug, Copy, Clone)]
pub struct SceKernelThreadOptParam {
    /// Size of the `SceKernelThreadOptParam` structure.
    pub size: usize,
    /// UID of the memory block (?) allocated for the thread's stack.
    pub stack_mpid: SceUid,
}

/// Statistics about a running thread. See `sce_kernel_refer_thread_run_status`.
#[derive(Debug, Copy, Clone)]
pub struct SceKernelThreadRunStatus {
    pub size: usize,
    pub status: i32,
    pub current_priority: i32,
    pub wait_type: i32,
    pub wait_id: i32,
    pub wakeup_count: i32,
    pub run_clocks: SceKernelSysClock,
    pub intr_preempt_count: u32,
    pub thread_preempt_count: u32,
    pub release_count: u32,
}

/// Additional options used when creating semaphores.
#[derive(Debug, Copy, Clone)]
pub struct SceKernelSemaOptParam {
    /// Size of the `SceKernelSemaOptParam` structure.
    pub size: usize,
}

/// Current state of a semaphore. See `sce_kernel_refer_sema_status`.
#[derive(Debug, Copy, Clone)]
pub struct SceKernelSemaInfo {
    /// Size of the `SceKernelSemaInfo` structure.
    pub size: usize,
    /// Null terminated name of the semaphore.
    pub name: [u8; 32],
    /// Attributes.
    pub attr: u32,
    /// The initial count the semaphore was created with.
    pub init_count: i32,
    /// The current count.
    pub current_count: i32,
    /// The maximum count.
    pub max_count: i32,
    /// The number of threads waiting on the semaphore.
    pub num_wait_threads: i32,
}

/// Structure to hold the event flag information.
#[derive(Debug, Copy, Clone)]
pub struct SceKernelEventFlagInfo {
    pub size: usize,
    pub name: [u8; 32],
    pub attr: u32,
    pub init_pattern: u32,
    pub current_pattern: u32,
    pub num_wait_threads: i32,
}

#[derive(Debug, Copy, Clone)]
pub struct EventFlagOptParam {
    /// Size of the `EventFlagOptParam` structure?
    pub size: usize,
}

/// Additional options used when creating messageboxes.
#[derive(Debug, Copy, Clone)]
pub struct SceKernelMbxOptParam {
    /// Size of the `SceKernelMbxOptParam` structure.
    pub size: usize,
}

/// Threadman types.
#[derive(Clone, Copy, Debug, PartialEq, Eq, Structural)]
pub enum SceKernelIdListType {
    Thread,
    Semaphore,
    EventFlag,
    Mbox,
    Vpl,
    Fpl,
    Mpipe,
    Callback,
    ThreadEventHandler,
    Alarm,
    VTimer,
    SleepThread,
    DelayThread,
    SuspendThread,
    DormantThread,
}

impl SceKernelIdListType {
    /// The value of this variant in the system interface.
    pub open spec fn spec_to_u32(self) -> u32 {
        match self {
            SceKernelIdListType::Thread => 1,
            SceKernelIdListType::Semaphore => 2,
            SceKernelIdListType::EventFlag => 3,
            SceKernelIdListType::Mbox => 4,
            SceKernelIdListType::Vpl => 5,
            SceKernelIdListType::Fpl => 6,
            SceKernelIdListType::Mpipe => 7,
            SceKernelIdListType::Callback => 8,
            SceKernelIdListType::ThreadEventHandler => 9,
            SceKernelIdListType::Alarm => 10,
            SceKernelIdListType::VTimer => 11,
            SceKernelIdListType::SleepThread => 64,
            SceKernelIdListType::DelayThread => 65,
            SceKernelIdListType::SuspendThread => 66,
            SceKernelIdListType::DormantThread => 67,
        }
    }

    /// The value of this variant in the system interface.
    pub fn to_u32(self) -> (v: u32)
        ensures
            v == self.spec_to_u32(),
    {
        match self {
            SceKernelIdListType::Thread => 1,
            SceKernelIdListType::Semaphore => 2,
            SceKernelIdListType::EventFlag => 3,
            SceKernelIdListType::Mbox => 4,
            SceKernelIdListType::Vpl => 5,
            SceKernelIdListType::Fpl => 6,
            SceKernelIdListType::Mpipe => 7,
            SceKernelIdListType::Callback => 8,
            SceKernelIdListType::ThreadEventHandler => 9,
            SceKernelIdListType::Alarm => 10,
            SceKernelIdListType::VTimer => 11,
            SceKernelIdListType::SleepThread => 64,
            SceKernelIdListType::DelayThread => 65,
            SceKernelIdListType::SuspendThread => 66,
            SceKernelIdListType::DormantThread => 67,
        }
    }
}

/// Structure to contain the system status returned by `sce_kernel_refer_system_status`.
#[derive(Debug, Copy, Clone)]
pub struct SceKernelSystemStatus {
    /// Size of the structure (should be set prior to the call).
    pub size: usize,
    /// The status ?
    pub status: u32,
    /// The number of cpu clocks in the idle thread
    pub idle_clocks: SceKernelSysClock,
    /// Number of times we resumed from idle
    pub comes_out_of_idle_count: u32,
    /// Number of thread context switches
    pub thread_switch_count: u32,
    /// Number of vfpu switches ?
    pub vfpu_switch_count: u32,
}

/// Message Pipe status info
#[derive(Debug, Copy, Clone)]
pub struct SceKernelMppInfo {
    pub size: usize,
    pub name: [u8; 32],
    pub attr: u32,
    pub buf_size: i32,
    pub free_size: i32,
    pub num_send_wait_threads: i32,
    pub num_receive_wait_threads: i32,
}

#[derive(Debug, Copy, Clone)]
pub struct SceKernelVplOptParam {
    /// Size of the `SceKernelVplOptParam` structure?
    pub size: usize,
}

/// Variable pool status info
#[derive(Debug, Copy, Clone)]
pub struct SceKernelVplInfo {
    /// Size of the `SceKernelVplInfo` structure?
    pub size: usize,
    pub name: [u8; 32],
    pub attr: u32,
    pub pool_size: i32,
    pub free_size: i32,
    pub num_wait_threads: i32,
}

#[derive(Debug, Copy, Clone)]
pub struct SceKernelFplOptParam {
    /// Size of the `SceKernelFplOptParam` structure?
    pub size: usize,
}

/// Fixed pool status information
#[derive(Debug, Copy, Clone)]
pub struct SceKernelFplInfo {
    pub size: usize,
    pub name: [u8; 32],
    pub attr: u32,
    pub block_size: i32,
    pub num_blocks: i32,
    pub free_blocks: i32,
    pub num_wait_threads: i32,
}

#[derive(Debug, Copy, Clone)]
pub struct SceKernelVTimerOptParam {
    /// Size of the `SceKernelVTimerOptParam` structure?
    pub size: usize,
}

/// Structure to hold the status information for a thread
/// (see `sceKernelReferThreadStatus`). Addresses are kept as integers.
#[derive(Debug, Copy, Clone)]
pub struct SceKernelThreadInfo {
    /// Size of the structure
    pub size: usize,
    /// Null terminated name of the thread
    pub name: [u8; 32],
    /// Thread attributes
    pub attr: u32,
    /// Thread status
    pub status: i32,
    /// Address of the thread entry point
    pub entry: u32,
    /// Thread stack pointer
    pub stack: u32,
    /// Thread stack size
    pub stack_size: i32,
    /// Pointer to the gp
    pub gp_reg: u32,
    /// Initial priority
    pub init_priority: i32,
    /// Current priority
    pub current_priority: i32,
    /// Wait type
    pub wait_type: i32,
    /// Wait ID
    pub wait_id: SceUid,
    /// Wakeup count
    pub wakeup_count: i32,
    /// Exit status of the thread
    pub exit_status: i32,
    /// Number of clock cycles run
    pub run_clocks: SceKernelSysClock,
    /// Interrupt preemption count
    pub intr_preempt_count: u32,
    /// Thread preemption count
    pub thread_preempt_count: u32,
    /// Release count
    pub release_count: u32,
}

/// Current state of a messagebox (see `sce_kernel_refer_mbx_status`).
#[derive(Debug, Copy, Clone)]
pub struct SceKernelMbxInfo {
    /// Size of the `SceKernelMbxInfo` structure.
    pub size: usize,
    /// Null terminated name of the messagebox.
    pub name: [u8; 32],
    /// Attributes.
    pub attr: u32,
    /// The number of threads waiting on the messagebox.
    pub num_wait_threads: i32,
    /// Number of messages currently in the messagebox.
    pub num_messages: i32,
    /// Address of the message currently at the head of the queue.
    pub first_message: u32,
}

/// Status of a virtual timer.
#[derive(Debug, Copy, Clone)]
pub struct SceKernelVTimerInfo {
    pub size: usize,
    pub name: [u8; 32],
    pub active: i32,
    pub base: SceKernelSysClock,
    pub current: SceKernelSysClock,
    pub schedule: SceKernelSysClock,
    /// Address of the handler.
    pub handler: u32,
    /// Address of the handler's argument.
    pub common: u32,
}

/// Status of a thread event handler.
#[derive(Debug, Copy, Clone)]
pub struct SceKernelThreadEventHandlerInfo {
    pub size: usize,
    pub name: [u8; 32],
    pub thread_id: SceUid,
    pub mask: i32,
    /// Address of the handler.
    pub handler: u32,
    /// Address of the handler's argument.
    pub common: u32,
}

/// Status of an alarm.
#[derive(Debug, Copy, Clone)]
pub struct SceKernelAlarmInfo {
    /// Size of the structure (should be set before calling `sce_kernel_refer_alarm_status`)
    pub size: usize,
    pub schedule: SceKernelSysClock,
    /// Address of the alarm handler.
    pub handler: u32,
    /// Address of the handler's argument.
    pub common: u32,
}

/// Status of a callback.
#[derive(Debug, Copy, Clone)]
pub struct SceKernelCallbackInfo {
    /// Size of the structure
    pub size: usize,
    /// The name given to the callback
    pub name: [u8; 32],
    /// The thread id associated with the callback
    pub thread_id: SceUid,
    /// Address of the callback function
    pub callback: u32,
    /// Address of the user supplied argument for the callback
    pub common: u32,
    /// Unknown
    pub notify_count: i32,
    /// Unknown
    pub notify_arg: i32,
}

} // verus!
