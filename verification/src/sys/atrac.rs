//! Buffer information of the Atrac3+ decoder.

use vstd::prelude::*;

verus! {

#[derive(Debug, Copy, Clone)]
pub struct PspBufferInfo {
    /// Address (a pointer in the system interface).
    pub puc_write_position_first_buf: u32,
    pub ui_writable_byte_first_buf: u32,
    pub ui_min_write_byte_first_buf: u32,
    pub ui_read_position_first_buf: u32,
    /// Address (a pointer in the system interface).
    pub puc_write_position_second_buf: u32,
    pub ui_writable_byte_second_buf: u32,
    pub ui_min_write_byte_second_buf: u32,
    pub ui_read_position_second_buf: u32,
}

} // verus!
