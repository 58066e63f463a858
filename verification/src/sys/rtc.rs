//! Real-time clock date and time, and the errors of its validity check.

use vstd::prelude::*;

verus! {

///PSP Time Structure
#[derive(Debug, Copy, Clone)]
pub struct Time {
    year: u16,
    month: u16,
    day: u16,
    hour: u16,
    minutes: u16,
    seconds: u16,
    microseconds: u32,
}

///Errors
#[derive(Clone, Copy, Debug, PartialEq, Eq, Structural)]
pub enum CheckValidError {
    InvalidYear,
    InvalidMonth,
    InvalidDay,
    InvalidHour,
    InvalidMinutes,
    InvalidSeconds,
    InvalidMicroseconds,
}

impl CheckValidError {
    /// The value of this variant in the system interface.
    pub open spec fn spec_to_i32(self) -> i32 {
        match self {
            CheckValidError::InvalidYear => -1i32,
            CheckValidError::InvalidMonth => -2i32,
            CheckValidError::InvalidDay => -3i32,
            CheckValidError::InvalidHour => -4i32,
            CheckValidError::InvalidMinutes => -5i32,
            CheckValidError::InvalidSeconds => -6i32,
            CheckValidError::InvalidMicroseconds => -7i32,
        }
    }

    /// The value of this variant in the system interface.
    pub fn to_i32(self) -> (v: i32)
        ensures
            v == self.spec_to_i32(),
    {
        match self {
            CheckValidError::InvalidYear => -1i32,
            CheckValidError::InvalidMonth => -2i32,
            CheckValidError::InvalidDay => -3i32,
            CheckValidError::InvalidHour => -4i32,
            CheckValidError::InvalidMinutes => -5i32,
            CheckValidError::InvalidSeconds => -6i32,
            CheckValidError::InvalidMicroseconds => -7i32,
        }
    }
}

impl CheckValidError {
    /// The error whose value in the system interface is `value`, if any.
    pub fn from_i32(value: i32) -> (e: Option<CheckValidError>)
        ensures
            match e {
                Some(err) => err.spec_to_i32() == value,
                None => forall|err: CheckValidError| err.spec_to_i32() != value,
            },
    {
        match value {
            -1 => Some(CheckValidError::InvalidYear),
            -2 => Some(CheckValidError::InvalidMonth),
            -3 => Some(CheckValidError::InvalidDay),
            -4 => Some(CheckValidError::InvalidHour),
            -5 => Some(CheckValidError::InvalidMinutes),
            -6 => Some(CheckValidError::InvalidSeconds),
            -7 => Some(CheckValidError::InvalidMicroseconds),
            _ => None,
        }
    }
}

/// Distinct errors have distinct values, so decoding an error's value gives
/// the error back.
pub proof fn lemma_check_valid_error_value_injective(e1: CheckValidError, e2: CheckValidError)
    requires
        e1.spec_to_i32() == e2.spec_to_i32(),
    ensures
        e1 == e2,
{
}

} // verus!
