//! Status codes returned across the boundary.
//!
//! Every code-returning boundary operation reports one of a small closed set
//! of outcomes. The numeric values are part of the stable foreign interface;
//! they are stated by [`ZenohError::code`] rather than as enum discriminants.

use vstd::prelude::*;

verus! {

/// Outcome of a boundary operation.
///
/// `Okay` reports success. `InvalidConfig` through `NullPointer` report
/// recoverable failures (rejected input or an operation the engine refused).
/// `Panic` reports an internal fault that was caught at the boundary, and
/// `Unknown` any other engine-side failure.
#[derive(Clone, Copy, PartialEq, Eq, Structural, Debug)]
pub enum ZenohError {
    Okay,
    InvalidConfig,
    SessionClosed,
    InvalidKeyExpr,
    PutFailed,
    NullPointer,
    Panic,
    Unknown,
}

impl ZenohError {
    /// The numeric value of this status in the foreign interface.
    pub fn code(self) -> (c: u32)
        ensures
            c == self.spec_code(),
    {
        match self {
            ZenohError::Okay => 0,
            ZenohError::InvalidConfig => 1,
            ZenohError::SessionClosed => 2,
            ZenohError::InvalidKeyExpr => 3,
            ZenohError::PutFailed => 4,
            ZenohError::NullPointer => 5,
            ZenohError::Panic => 254,
            ZenohError::Unknown => 255,
        }
    }

    /// The numeric value of each status.
    pub open spec fn spec_code(self) -> u32 {
        match self {
            ZenohError::Okay => 0,
            ZenohError::InvalidConfig => 1,
            ZenohError::SessionClosed => 2,
            ZenohError::InvalidKeyExpr => 3,
            ZenohError::PutFailed => 4,
            ZenohError::NullPointer => 5,
            ZenohError::Panic => 254,
            ZenohError::Unknown => 255,
        }
    }
}

/// Distinct statuses carry distinct numeric values, so a foreign caller can
/// branch on the code alone.
pub proof fn lemma_status_codes_distinct(a: ZenohError, b: ZenohError)
    ensures
        a.spec_code() == b.spec_code() ==> a == b,
{
}

/// Status of a data-put operation, from whether the engine accepted it.
pub fn put_result_status(accepted: bool) -> (s: ZenohError)
    ensures
        s == (if accepted {
            ZenohError::Okay
        } else {
            ZenohError::PutFailed
        }),
{
    if accepted {
        ZenohError::Okay
    } else {
        ZenohError::PutFailed
    }
}

/// Status of any other engine-side operation, from whether it succeeded.
pub fn operation_result_status(succeeded: bool) -> (s: ZenohError)
    ensures
        s == (if succeeded {
            ZenohError::Okay
        } else {
            ZenohError::Unknown
        }),
{
    if succeeded {
        ZenohError::Okay
    } else {
        ZenohError::Unknown
    }
}

} // verus!
