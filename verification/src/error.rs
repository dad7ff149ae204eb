//! Decode faults.
//!
//! A decode fault means a raw value read from the bus does not match any
//! declared variant of a closed enumeration: wire corruption or a catalog /
//! device-revision mismatch, never a valid device state. It is surfaced as a
//! typed, recoverable error so callers can react without halting.

use vstd::prelude::*;

verus! {

/// A raw field value did not match any declared variant of the named
/// closed enumeration.
#[derive(Clone, Copy, Debug, PartialEq, Eq, Structural)]
pub enum DecodeError {
    InvalidChannel,
    InvalidDelay,
    InvalidMode,
    InvalidClockSource,
    InvalidCrc,
    InvalidDataRegisterLength,
    InvalidSyncErrorPinMode,
    InvalidSetup,
    InvalidInput,
    InvalidOutputCoding,
    InvalidReferenceSource,
    InvalidEnhancedFilterRate,
    InvalidFilterOrder,
    InvalidOutputDataRate,
}

} // verus!
