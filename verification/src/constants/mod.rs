//! Constants and codebooks of the DRI protocol.

use vstd::prelude::*;

pub mod dri_types;
pub mod physiological;
pub mod scaling;
pub mod special_values;
pub mod waveforms;

pub use dri_types::{DriLevel, DriMainType, PhdbClass, PhdbSubrecordType};
pub use physiological::{EcgLeadType, InvasivePressureLabel, ParameterGroup};
pub use special_values::SpecialValue;
pub use waveforms::{WaveformInfo, WaveformType};

verus! {

/// Frame delimiter.
pub const FRAME_CHAR: u8 = 0x7E;

/// Escape byte announcing a stuffed byte.
pub const CTRL_CHAR: u8 = 0x7D;

/// Bit cleared in a stuffed byte and set again when it is unstuffed.
pub const BIT5: u8 = 0x20;

/// Complement of `BIT5` within seven bits.
pub const BIT5_COMPL: u8 = 0x5F;

/// Largest record, header included.
pub const MAX_RECORD_SIZE: usize = 1490;

/// Size of the record header.
pub const HEADER_SIZE: usize = 40;

/// Largest data region of a record.
pub const MAX_DATA_SIZE: usize = 1450;

/// Number of slots in the subrecord descriptor table.
pub const MAX_SUBRECORDS: usize = 8;

/// Type byte that terminates the subrecord descriptor table.
pub const EOL_SUBRECORD_LIST: u8 = 0xFF;

} // verus!
