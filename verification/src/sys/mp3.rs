//! Handles of the MP3 decoder.

use vstd::prelude::*;

verus! {

/// A structure used for initializing a handle in `sce_mp3_reserve_mp3_handle`.
/// Buffer addresses are kept as integers.
#[derive(Debug, Copy, Clone)]
pub struct InitArg {
    /// Stream start position
    pub mp3_stream_start: u32,
    /// Unknown - set to 0
    pub unk1: u32,
    /// Stream end position
    pub mp3_stream_end: u32,
    /// Unknown - set to 0
    pub unk2: u32,
    /// Address of a buffer to contain raw mp3 stream data (+1472 bytes workspace)
    pub mp3_buf: u32,
    /// Size of mp3Buf buffer (must be >= 8192)
    pub mp3_buf_size: i32,
    /// Address of the decoded pcm samples buffer
    pub pcm_buf: u32,
    /// Size of pcmBuf buffer (must be >= 9216)
    pub pcm_buf_size: i32,
}

#[derive(Copy, Clone, Debug)]
pub struct Handle(pub i32);

} // verus!
