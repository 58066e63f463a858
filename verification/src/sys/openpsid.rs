//! The console identifier.

use vstd::prelude::*;

verus! {

#[derive(Debug, Copy, Clone)]
pub struct OpenPSID {
    pub data: [u8; 16],
}

} // verus!
