//! Interface levels, record types and physiological record classes.

use vstd::prelude::*;

verus! {

/// Interface level of a monitor: the revision of the protocol it speaks.
#[derive(Debug, Clone, Copy, PartialEq, Eq, Structural)]
pub enum DriLevel {
    Level95,
    Level97,
    Level98,
    Level99,
    Level00,
    Level01,
    Level02,
    Level03,
    Level04,
}

impl DriLevel {
    /// The byte that stands for this level on the wire.
    pub open spec fn spec_code(&self) -> u8 {
        match self {
            DriLevel::Level95 => 2,
            DriLevel::Level97 => 3,
            DriLevel::Level98 => 4,
            DriLevel::Level99 => 5,
            DriLevel::Level00 => 6,
            DriLevel::Level01 => 7,
            DriLevel::Level02 => 8,
            DriLevel::Level03 => 9,
            DriLevel::Level04 => 10,
        }
    }

    /// The year a level was introduced, as it is displayed.
    pub open spec fn spec_year_str(&self) -> Seq<char> {
        match self {
            DriLevel::Level95 => "'95"@,
            DriLevel::Level97 => "'97"@,
            DriLevel::Level98 => "'98"@,
            DriLevel::Level99 => "'99"@,
            DriLevel::Level00 => "'01"@,
            DriLevel::Level01 => "'02"@,
            DriLevel::Level02 => "'03"@,
            DriLevel::Level03 => "'05"@,
            DriLevel::Level04 => "'09"@,
        }
    }

    /// The byte that stands for this level on the wire.
    #[verifier::when_used_as_spec(spec_code)]
    pub fn code(&self) -> (r: u8)
        ensures
            r == self.spec_code(),
            2 <= r <= 10,
    {
        match self {
            DriLevel::Level95 => 2,
            DriLevel::Level97 => 3,
            DriLevel::Level98 => 4,
            DriLevel::Level99 => 5,
            DriLevel::Level00 => 6,
            DriLevel::Level01 => 7,
            DriLevel::Level02 => 8,
            DriLevel::Level03 => 9,
            DriLevel::Level04 => 10,
        }
    }

    /// The level that a byte stands for: one exists exactly for 2 to 10.
    pub open spec fn spec_from_u8(value: u8) -> Option<Self> {
        if value == 2 {
            Some(DriLevel::Level95)
        } else if value == 3 {
            Some(DriLevel::Level97)
        } else if value == 4 {
            Some(DriLevel::Level98)
        } else if value == 5 {
            Some(DriLevel::Level99)
        } else if value == 6 {
            Some(DriLevel::Level00)
        } else if value == 7 {
            Some(DriLevel::Level01)
        } else if value == 8 {
            Some(DriLevel::Level02)
        } else if value == 9 {
            Some(DriLevel::Level03)
        } else if value == 10 {
            Some(DriLevel::Level04)
        } else {
            None
        }
    }

    /// The level that a byte stands for: one exists exactly for 2 to 10.
    pub fn from_u8(value: u8) -> (r: Option<Self>)
        ensures
            r == Self::spec_from_u8(value),
            r is Some <==> 2 <= value <= 10,
            r matches Some(level) ==> level.spec_code() == value,
    {
        match value {
            2 => Some(DriLevel::Level95),
            3 => Some(DriLevel::Level97),
            4 => Some(DriLevel::Level98),
            5 => Some(DriLevel::Level99),
            6 => Some(DriLevel::Level00),
            7 => Some(DriLevel::Level01),
            8 => Some(DriLevel::Level02),
            9 => Some(DriLevel::Level03),
            10 => Some(DriLevel::Level04),
            _ => None,
        }
    }

    /// The year a level was introduced, as it is displayed.
    pub fn year_str(&self) -> (r: &'static str)
        ensures
            r@ == self.spec_year_str(),
    {
        match self {
            DriLevel::Level95 => "'95",
            DriLevel::Level97 => "'97",
            DriLevel::Level98 => "'98",
            DriLevel::Level99 => "'99",
            DriLevel::Level00 => "'01",
            DriLevel::Level01 => "'02",
            DriLevel::Level02 => "'03",
            DriLevel::Level03 => "'05",
            DriLevel::Level04 => "'09",
        }
    }
}

/// Main type of a record.
#[derive(Debug, Clone, Copy, PartialEq, Eq, Structural)]
pub enum DriMainType {
    /// Physiological data and the requests for it.
    Phdb,
    /// Waveform data and the requests for it.
    Wave,
    /// Alarm data (network interface only).
    Alarm,
    /// Network management data (network interface only).
    Network,
    /// Anesthesia record keeping events (network interface only).
    Fo,
}

impl DriMainType {
    /// The word that stands for this main type on the wire.
    pub open spec fn spec_code(&self) -> u16 {
        match self {
            DriMainType::Phdb => 0,
            DriMainType::Wave => 1,
            DriMainType::Alarm => 4,
            DriMainType::Network => 5,
            DriMainType::Fo => 8,
        }
    }

    /// Whether a word stands for a main type.
    pub open spec fn is_code(value: u16) -> bool {
        value == 0 || value == 1 || value == 4 || value == 5 || value == 8
    }

    /// The word that stands for this main type on the wire.
    #[verifier::when_used_as_spec(spec_code)]
    pub fn code(&self) -> (r: u16)
        ensures
            r == self.spec_code(),
            Self::is_code(r),
    {
        match self {
            DriMainType::Phdb => 0,
            DriMainType::Wave => 1,
            DriMainType::Alarm => 4,
            DriMainType::Network => 5,
            DriMainType::Fo => 8,
        }
    }

    /// The main type that a word stands for, if any.
    pub open spec fn spec_from_u16(value: u16) -> Option<Self> {
        if value == 0 {
            Some(DriMainType::Phdb)
        } else if value == 1 {
            Some(DriMainType::Wave)
        } else if value == 4 {
            Some(DriMainType::Alarm)
        } else if value == 5 {
            Some(DriMainType::Network)
        } else if value == 8 {
            Some(DriMainType::Fo)
        } else {
            None
        }
    }

    /// The main type that a word stands for, if any.
    pub fn from_u16(value: u16) -> (r: Option<Self>)
        ensures
            r == Self::spec_from_u16(value),
            r is Some <==> Self::is_code(value),
            r matches Some(main_type) ==> main_type.spec_code() == value,
    {
        match value {
            0 => Some(DriMainType::Phdb),
            1 => Some(DriMainType::Wave),
            4 => Some(DriMainType::Alarm),
            5 => Some(DriMainType::Network),
            8 => Some(DriMainType::Fo),
            _ => None,
        }
    }
}

/// Subrecord types of a physiological record.
#[derive(Debug, Clone, Copy, PartialEq, Eq, Structural)]
pub enum PhdbSubrecordType {
    /// Transmission request.
    XmitReq,
    /// Displayed values.
    Displ,
    /// 10 second trended values.
    Trend10s,
    /// 60 second trended values.
    Trend60s,
    /// Auxiliary data.
    Aux,
}

impl PhdbSubrecordType {
    /// The byte that stands for this subrecord type on the wire.
    pub open spec fn spec_code(&self) -> u8 {
        match self {
            PhdbSubrecordType::XmitReq => 0,
            PhdbSubrecordType::Displ => 1,
            PhdbSubrecordType::Trend10s => 2,
            PhdbSubrecordType::Trend60s => 3,
            PhdbSubrecordType::Aux => 4,
        }
    }

    /// The byte that stands for this subrecord type on the wire.
    #[verifier::when_used_as_spec(spec_code)]
    pub fn code(&self) -> (r: u8)
        ensures
            r == self.spec_code(),
            r <= 4,
    {
        match self {
            PhdbSubrecordType::XmitReq => 0,
            PhdbSubrecordType::Displ => 1,
            PhdbSubrecordType::Trend10s => 2,
            PhdbSubrecordType::Trend60s => 3,
            PhdbSubrecordType::Aux => 4,
        }
    }

    /// The subrecord type that a byte stands for: one exists exactly for 0 to 4.
    pub open spec fn spec_from_u8(value: u8) -> Option<Self> {
        if value == 0 {
            Some(PhdbSubrecordType::XmitReq)
        } else if value == 1 {
            Some(PhdbSubrecordType::Displ)
        } else if value == 2 {
            Some(PhdbSubrecordType::Trend10s)
        } else if value == 3 {
            Some(PhdbSubrecordType::Trend60s)
        } else if value == 4 {
            Some(PhdbSubrecordType::Aux)
        } else {
            None
        }
    }

    /// The subrecord type that a byte stands for: one exists exactly for 0 to 4.
    pub fn from_u8(value: u8) -> (r: Option<Self>)
        ensures
            r == Self::spec_from_u8(value),
            r is Some <==> value <= 4,
            r matches Some(subtype) ==> subtype.spec_code() == value,
    {
        match value {
            0 => Some(PhdbSubrecordType::XmitReq),
            1 => Some(PhdbSubrecordType::Displ),
            2 => Some(PhdbSubrecordType::Trend10s),
            3 => Some(PhdbSubrecordType::Trend60s),
            4 => Some(PhdbSubrecordType::Aux),
            _ => None,
        }
    }
}

/// Classes of physiological data.
#[derive(Debug, Clone, Copy, PartialEq, Eq, Structural)]
pub enum PhdbClass {
    /// Basic physiological data.
    Basic,
    /// Extended class 1 (arrhythmia, 12-lead ECG).
    Ext1,
    /// Extended class 2 (NMT2, EEG, entropy, BIS).
    Ext2,
    /// Extended class 3 (gas exchange, more spirometry, tonometry).
    Ext3,
}

impl PhdbClass {
    /// The number that stands for this class on the wire.
    pub open spec fn spec_code(&self) -> u8 {
        match self {
            PhdbClass::Basic => 0,
            PhdbClass::Ext1 => 1,
            PhdbClass::Ext2 => 2,
            PhdbClass::Ext3 => 3,
        }
    }

    /// The number that stands for this class on the wire.
    #[verifier::when_used_as_spec(spec_code)]
    pub fn code(&self) -> (r: u8)
        ensures
            r == self.spec_code(),
            r <= 3,
    {
        match self {
            PhdbClass::Basic => 0,
            PhdbClass::Ext1 => 1,
            PhdbClass::Ext2 => 2,
            PhdbClass::Ext3 => 3,
        }
    }

    /// The class that a number stands for: one exists exactly for 0 to 3.
    pub open spec fn spec_from_u8(value: u8) -> Option<Self> {
        if value == 0 {
            Some(PhdbClass::Basic)
        } else if value == 1 {
            Some(PhdbClass::Ext1)
        } else if value == 2 {
            Some(PhdbClass::Ext2)
        } else if value == 3 {
            Some(PhdbClass::Ext3)
        } else {
            None
        }
    }

    /// The class that a number stands for: one exists exactly for 0 to 3.
    pub fn from_u8(value: u8) -> (r: Option<Self>)
        ensures
            r == Self::spec_from_u8(value),
            r is Some <==> value <= 3,
            r matches Some(class) ==> class.spec_code() == value,
    {
        match value {
            0 => Some(PhdbClass::Basic),
            1 => Some(PhdbClass::Ext1),
            2 => Some(PhdbClass::Ext2),
            3 => Some(PhdbClass::Ext3),
            _ => None,
        }
    }
}

/// Class mask bit: the Basic class is requested when it is clear.
pub const PHDBCL_REQ_BASIC_MASK: u32 = 0x0000;

/// Class mask bit: deny the Basic class.
pub const PHDBCL_DENY_BASIC_MASK: u32 = 0x0001;

/// Class mask bit: request extended class 1.
pub const PHDBCL_REQ_EXT1_MASK: u32 = 0x0002;

/// Class mask bit: request extended class 2.
pub const PHDBCL_REQ_EXT2_MASK: u32 = 0x0004;

/// Class mask bit: request extended class 3.
pub const PHDBCL_REQ_EXT3_MASK: u32 = 0x0008;

/// Class mask that requests every class.
pub const PHDBCL_REQ_ALL: u32 = 0x000E;

} // verus!
