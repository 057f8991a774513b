//! Protocol engine for the Datex-Ohmeda Record Interface (DRI), the serial
//! record protocol spoken by GE Healthcare patient monitors (S/5 family,
//! CARESCAPE B650/B850).
//!
//! The engine turns a raw byte stream into frames, frames into record
//! headers, and records into typed physiological and waveform data. In the
//! other direction it builds the transmission requests a monitor honours.
//! Every function carries a contract over a mathematical model of the wire
//! format, and the engine performs no I/O of its own.

use vstd::prelude::*;

pub mod constants;
pub mod decode;
pub mod device;
pub mod protocol;
pub mod simulator;

pub use constants::{DriLevel, DriMainType, SpecialValue};
pub use decode::{PhysiologicalData, WaveformData};
pub use protocol::{DriFrame, DriHeader};

verus! {

/// What can be wrong with a frame or a record.
#[derive(Debug, Clone, Copy, PartialEq, Eq, Structural)]
pub enum DriError {
    /// The checksum byte of a frame does not match its payload.
    ChecksumError,
    /// A frame or a record ends before the data it has to hold.
    IncompleteFrame,
    /// The byte stream violates the framing rules.
    FramingError,
    /// The interface level of a record is not one of 2 to 10.
    UnsupportedDriLevel(u8),
    /// A subrecord type, or the index of a subrecord, is not valid.
    InvalidSubrecordType(u8),
    /// The main type of a record is not one the protocol defines.
    UnknownMainType(u16),
    /// A physiological record has no subrecord.
    NoSubrecords,
    /// A physiological subrecord ends before its time stamp.
    ShortSubrecord,
    /// The class of a physiological subrecord is not one of 0 to 3.
    InvalidClass(u8),
}

} // verus!
