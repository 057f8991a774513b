//! Codebooks of the physiological parameter groups.

use vstd::prelude::*;

verus! {

/// ECG leads.
#[derive(Debug, Clone, Copy, PartialEq, Eq, Structural)]
pub enum EcgLeadType {
    NotSelected,
    I,
    II,
    III,
    Avr,
    Avl,
    Avf,
    V,
}

impl EcgLeadType {
    /// The number that stands for this lead on the wire.
    pub open spec fn spec_code(&self) -> u8 {
        match self {
            EcgLeadType::NotSelected => 0,
            EcgLeadType::I => 1,
            EcgLeadType::II => 2,
            EcgLeadType::III => 3,
            EcgLeadType::Avr => 4,
            EcgLeadType::Avl => 5,
            EcgLeadType::Avf => 6,
            EcgLeadType::V => 7,
        }
    }

    /// The name under which this lead is displayed.
    pub open spec fn spec_name(&self) -> Seq<char> {
        match self {
            EcgLeadType::NotSelected => "NOT_SELECTED"@,
            EcgLeadType::I => "I"@,
            EcgLeadType::II => "II"@,
            EcgLeadType::III => "III"@,
            EcgLeadType::Avr => "AVR"@,
            EcgLeadType::Avl => "AVL"@,
            EcgLeadType::Avf => "AVF"@,
            EcgLeadType::V => "V"@,
        }
    }

    /// The number that stands for this lead on the wire.
    #[verifier::when_used_as_spec(spec_code)]
    pub fn code(&self) -> (r: u8)
        ensures
            r == self.spec_code(),
            r <= 7,
    {
        match self {
            EcgLeadType::NotSelected => 0,
            EcgLeadType::I => 1,
            EcgLeadType::II => 2,
            EcgLeadType::III => 3,
            EcgLeadType::Avr => 4,
            EcgLeadType::Avl => 5,
            EcgLeadType::Avf => 6,
            EcgLeadType::V => 7,
        }
    }

    /// The lead that a number stands for: one exists exactly for 0 to 7.
    pub open spec fn spec_from_u8(value: u8) -> Option<Self> {
        if value == 0 {
            Some(EcgLeadType::NotSelected)
        } else if value == 1 {
            Some(EcgLeadType::I)
        } else if value == 2 {
            Some(EcgLeadType::II)
        } else if value == 3 {
            Some(EcgLeadType::III)
        } else if value == 4 {
            Some(EcgLeadType::Avr)
        } else if value == 5 {
            Some(EcgLeadType::Avl)
        } else if value == 6 {
            Some(EcgLeadType::Avf)
        } else if value == 7 {
            Some(EcgLeadType::V)
        } else {
            None
        }
    }

    /// The lead that a number stands for: one exists exactly for 0 to 7.
    pub fn from_u8(value: u8) -> (r: Option<Self>)
        ensures
            r == Self::spec_from_u8(value),
            r is Some <==> value <= 7,
            r matches Some(v) ==> v.spec_code() == value,
    {
        match value {
            0 => Some(EcgLeadType::NotSelected),
            1 => Some(EcgLeadType::I),
            2 => Some(EcgLeadType::II),
            3 => Some(EcgLeadType::III),
            4 => Some(EcgLeadType::Avr),
            5 => Some(EcgLeadType::Avl),
            6 => Some(EcgLeadType::Avf),
            7 => Some(EcgLeadType::V),
            _ => None,
        }
    }

    /// The name under which this lead is displayed.
    pub fn name(&self) -> (r: &'static str)
        ensures
            r@ == self.spec_name(),
    {
        match self {
            EcgLeadType::NotSelected => "NOT_SELECTED",
            EcgLeadType::I => "I",
            EcgLeadType::II => "II",
            EcgLeadType::III => "III",
            EcgLeadType::Avr => "AVR",
            EcgLeadType::Avl => "AVL",
            EcgLeadType::Avf => "AVF",
            EcgLeadType::V => "V",
        }
    }
}

/// Source from which the heart rate is derived.
#[derive(Debug, Clone, Copy, PartialEq, Eq, Structural)]
pub enum HrSource {
    Unknown,
    Ecg,
    Bp1,
    Bp2,
    Bp3,
    Bp4,
    Pleth,
    Bp5,
    Bp6,
    EcgMortara,
    Bp7,
    Bp8,
    Pleth2,
}

impl HrSource {
    /// The number that stands for this source on the wire.
    pub open spec fn spec_code(&self) -> u8 {
        match self {
            HrSource::Unknown => 0,
            HrSource::Ecg => 1,
            HrSource::Bp1 => 2,
            HrSource::Bp2 => 3,
            HrSource::Bp3 => 4,
            HrSource::Bp4 => 5,
            HrSource::Pleth => 6,
            HrSource::Bp5 => 7,
            HrSource::Bp6 => 8,
            HrSource::EcgMortara => 9,
            HrSource::Bp7 => 10,
            HrSource::Bp8 => 11,
            HrSource::Pleth2 => 12,
        }
    }

    /// The number that stands for this source on the wire.
    #[verifier::when_used_as_spec(spec_code)]
    pub fn code(&self) -> (r: u8)
        ensures
            r == self.spec_code(),
            r <= 12,
    {
        match self {
            HrSource::Unknown => 0,
            HrSource::Ecg => 1,
            HrSource::Bp1 => 2,
            HrSource::Bp2 => 3,
            HrSource::Bp3 => 4,
            HrSource::Bp4 => 5,
            HrSource::Pleth => 6,
            HrSource::Bp5 => 7,
            HrSource::Bp6 => 8,
            HrSource::EcgMortara => 9,
            HrSource::Bp7 => 10,
            HrSource::Bp8 => 11,
            HrSource::Pleth2 => 12,
        }
    }

    /// The source that a number stands for: one exists exactly for 0 to 12.
    pub open spec fn spec_from_u8(value: u8) -> Option<Self> {
        if value == 0 {
            Some(HrSource::Unknown)
        } else if value == 1 {
            Some(HrSource::Ecg)
        } else if value == 2 {
            Some(HrSource::Bp1)
        } else if value == 3 {
            Some(HrSource::Bp2)
        } else if value == 4 {
            Some(HrSource::Bp3)
        } else if value == 5 {
            Some(HrSource::Bp4)
        } else if value == 6 {
            Some(HrSource::Pleth)
        } else if value == 7 {
            Some(HrSource::Bp5)
        } else if value == 8 {
            Some(HrSource::Bp6)
        } else if value == 9 {
            Some(HrSource::EcgMortara)
        } else if value == 10 {
            Some(HrSource::Bp7)
        } else if value == 11 {
            Some(HrSource::Bp8)
        } else if value == 12 {
            Some(HrSource::Pleth2)
        } else {
            None
        }
    }

    /// The source that a number stands for: one exists exactly for 0 to 12.
    pub fn from_u8(value: u8) -> (r: Option<Self>)
        ensures
            r == Self::spec_from_u8(value),
            r is Some <==> value <= 12,
            r matches Some(v) ==> v.spec_code() == value,
    {
        match value {
            0 => Some(HrSource::Unknown),
            1 => Some(HrSource::Ecg),
            2 => Some(HrSource::Bp1),
            3 => Some(HrSource::Bp2),
            4 => Some(HrSource::Bp3),
            5 => Some(HrSource::Bp4),
            6 => Some(HrSource::Pleth),
            7 => Some(HrSource::Bp5),
            8 => Some(HrSource::Bp6),
            9 => Some(HrSource::EcgMortara),
            10 => Some(HrSource::Bp7),
            11 => Some(HrSource::Bp8),
            12 => Some(HrSource::Pleth2),
            _ => None,
        }
    }
}

/// Sites of an invasive pressure channel.
#[derive(Debug, Clone, Copy, PartialEq, Eq, Structural)]
pub enum InvasivePressureLabel {
    NotDefined,
    Art,
    Cvp,
    Pa,
    Rap,
    Rvp,
    Lap,
    Icp,
    Abp,
    P1,
    P2,
    P3,
    P4,
    P5,
    P6,
    Sp,
    Fem,
    Uac,
    Uvc,
    Icp2,
    P7,
    P8,
    Femv,
}

impl InvasivePressureLabel {
    /// The number that stands for this site on the wire.
    pub open spec fn spec_code(&self) -> u16 {
        match self {
            InvasivePressureLabel::NotDefined => 0,
            InvasivePressureLabel::Art => 1,
            InvasivePressureLabel::Cvp => 2,
            InvasivePressureLabel::Pa => 3,
            InvasivePressureLabel::Rap => 4,
            InvasivePressureLabel::Rvp => 5,
            InvasivePressureLabel::Lap => 6,
            InvasivePressureLabel::Icp => 7,
            InvasivePressureLabel::Abp => 8,
            InvasivePressureLabel::P1 => 9,
            InvasivePressureLabel::P2 => 10,
            InvasivePressureLabel::P3 => 11,
            InvasivePressureLabel::P4 => 12,
            InvasivePressureLabel::P5 => 13,
            InvasivePressureLabel::P6 => 14,
            InvasivePressureLabel::Sp => 15,
            InvasivePressureLabel::Fem => 16,
            InvasivePressureLabel::Uac => 17,
            InvasivePressureLabel::Uvc => 18,
            InvasivePressureLabel::Icp2 => 19,
            InvasivePressureLabel::P7 => 20,
            InvasivePressureLabel::P8 => 21,
            InvasivePressureLabel::Femv => 22,
        }
    }

    /// The name under which this site is displayed.
    pub open spec fn spec_name(&self) -> Seq<char> {
        match self {
            InvasivePressureLabel::NotDefined => "NOT_DEFINED"@,
            InvasivePressureLabel::Art => "ART"@,
            InvasivePressureLabel::Cvp => "CVP"@,
            InvasivePressureLabel::Pa => "PA"@,
            InvasivePressureLabel::Rap => "RAP"@,
            InvasivePressureLabel::Rvp => "RVP"@,
            InvasivePressureLabel::Lap => "LAP"@,
            InvasivePressureLabel::Icp => "ICP"@,
            InvasivePressureLabel::Abp => "ABP"@,
            InvasivePressureLabel::P1 => "P1"@,
            InvasivePressureLabel::P2 => "P2"@,
            InvasivePressureLabel::P3 => "P3"@,
            InvasivePressureLabel::P4 => "P4"@,
            InvasivePressureLabel::P5 => "P5"@,
            InvasivePressureLabel::P6 => "P6"@,
            InvasivePressureLabel::Sp => "SP"@,
            InvasivePressureLabel::Fem => "FEM"@,
            InvasivePressureLabel::Uac => "UAC"@,
            InvasivePressureLabel::Uvc => "UVC"@,
            InvasivePressureLabel::Icp2 => "ICP2"@,
            InvasivePressureLabel::P7 => "P7"@,
            InvasivePressureLabel::P8 => "P8"@,
            InvasivePressureLabel::Femv => "FEMV"@,
        }
    }

    /// The number that stands for this site on the wire.
    #[verifier::when_used_as_spec(spec_code)]
    pub fn code(&self) -> (r: u16)
        ensures
            r == self.spec_code(),
            r <= 22,
    {
        match self {
            InvasivePressureLabel::NotDefined => 0,
            InvasivePressureLabel::Art => 1,
            InvasivePressureLabel::Cvp => 2,
            InvasivePressureLabel::Pa => 3,
            InvasivePressureLabel::Rap => 4,
            InvasivePressureLabel::Rvp => 5,
            InvasivePressureLabel::Lap => 6,
            InvasivePressureLabel::Icp => 7,
            InvasivePressureLabel::Abp => 8,
            InvasivePressureLabel::P1 => 9,
            InvasivePressureLabel::P2 => 10,
            InvasivePressureLabel::P3 => 11,
            InvasivePressureLabel::P4 => 12,
            InvasivePressureLabel::P5 => 13,
            InvasivePressureLabel::P6 => 14,
            InvasivePressureLabel::Sp => 15,
            InvasivePressureLabel::Fem => 16,
            InvasivePressureLabel::Uac => 17,
            InvasivePressureLabel::Uvc => 18,
            InvasivePressureLabel::Icp2 => 19,
            InvasivePressureLabel::P7 => 20,
            InvasivePressureLabel::P8 => 21,
            InvasivePressureLabel::Femv => 22,
        }
    }

    /// The site that a number stands for: one exists exactly for 0 to 22.
    pub open spec fn spec_from_u16(value: u16) -> Option<Self> {
        if value == 0 {
            Some(InvasivePressureLabel::NotDefined)
        } else if value == 1 {
            Some(InvasivePressureLabel::Art)
        } else if value == 2 {
            Some(InvasivePressureLabel::Cvp)
        } else if value == 3 {
            Some(InvasivePressureLabel::Pa)
        } else if value == 4 {
            Some(InvasivePressureLabel::Rap)
        } else if value == 5 {
            Some(InvasivePressureLabel::Rvp)
        } else if value == 6 {
            Some(InvasivePressureLabel::Lap)
        } else if value == 7 {
            Some(InvasivePressureLabel::Icp)
        } else if value == 8 {
            Some(InvasivePressureLabel::Abp)
        } else if value == 9 {
            Some(InvasivePressureLabel::P1)
        } else if value == 10 {
            Some(InvasivePressureLabel::P2)
        } else if value == 11 {
            Some(InvasivePressureLabel::P3)
        } else if value == 12 {
            Some(InvasivePressureLabel::P4)
        } else if value == 13 {
            Some(InvasivePressureLabel::P5)
        } else if value == 14 {
            Some(InvasivePressureLabel::P6)
        } else if value == 15 {
            Some(InvasivePressureLabel::Sp)
        } else if value == 16 {
            Some(InvasivePressureLabel::Fem)
        } else if value == 17 {
            Some(InvasivePressureLabel::Uac)
        } else if value == 18 {
            Some(InvasivePressureLabel::Uvc)
        } else if value == 19 {
            Some(InvasivePressureLabel::Icp2)
        } else if value == 20 {
            Some(InvasivePressureLabel::P7)
        } else if value == 21 {
            Some(InvasivePressureLabel::P8)
        } else if value == 22 {
            Some(InvasivePressureLabel::Femv)
        } else {
            None
        }
    }

    /// The site that a number stands for: one exists exactly for 0 to 22.
    pub fn from_u16(value: u16) -> (r: Option<Self>)
        ensures
            r == Self::spec_from_u16(value),
            r is Some <==> value <= 22,
            r matches Some(v) ==> v.spec_code() == value,
    {
        match value {
            0 => Some(InvasivePressureLabel::NotDefined),
            1 => Some(InvasivePressureLabel::Art),
            2 => Some(InvasivePressureLabel::Cvp),
            3 => Some(InvasivePressureLabel::Pa),
            4 => Some(InvasivePressureLabel::Rap),
            5 => Some(InvasivePressureLabel::Rvp),
            6 => Some(InvasivePressureLabel::Lap),
            7 => Some(InvasivePressureLabel::Icp),
            8 => Some(InvasivePressureLabel::Abp),
            9 => Some(InvasivePressureLabel::P1),
            10 => Some(InvasivePressureLabel::P2),
            11 => Some(InvasivePressureLabel::P3),
            12 => Some(InvasivePressureLabel::P4),
            13 => Some(InvasivePressureLabel::P5),
            14 => Some(InvasivePressureLabel::P6),
            15 => Some(InvasivePressureLabel::Sp),
            16 => Some(InvasivePressureLabel::Fem),
            17 => Some(InvasivePressureLabel::Uac),
            18 => Some(InvasivePressureLabel::Uvc),
            19 => Some(InvasivePressureLabel::Icp2),
            20 => Some(InvasivePressureLabel::P7),
            21 => Some(InvasivePressureLabel::P8),
            22 => Some(InvasivePressureLabel::Femv),
            _ => None,
        }
    }

    /// The name under which this site is displayed.
    pub fn name(&self) -> (r: &'static str)
        ensures
            r@ == self.spec_name(),
    {
        match self {
            InvasivePressureLabel::NotDefined => "NOT_DEFINED",
            InvasivePressureLabel::Art => "ART",
            InvasivePressureLabel::Cvp => "CVP",
            InvasivePressureLabel::Pa => "PA",
            InvasivePressureLabel::Rap => "RAP",
            InvasivePressureLabel::Rvp => "RVP",
            InvasivePressureLabel::Lap => "LAP",
            InvasivePressureLabel::Icp => "ICP",
            InvasivePressureLabel::Abp => "ABP",
            InvasivePressureLabel::P1 => "P1",
            InvasivePressureLabel::P2 => "P2",
            InvasivePressureLabel::P3 => "P3",
            InvasivePressureLabel::P4 => "P4",
            InvasivePressureLabel::P5 => "P5",
            InvasivePressureLabel::P6 => "P6",
            InvasivePressureLabel::Sp => "SP",
            InvasivePressureLabel::Fem => "FEM",
            InvasivePressureLabel::Uac => "UAC",
            InvasivePressureLabel::Uvc => "UVC",
            InvasivePressureLabel::Icp2 => "ICP2",
            InvasivePressureLabel::P7 => "P7",
            InvasivePressureLabel::P8 => "P8",
            InvasivePressureLabel::Femv => "FEMV",
        }
    }
}

/// Sites of a temperature channel.
#[derive(Debug, Clone, Copy, PartialEq, Eq, Structural)]
pub enum TemperatureLabel {
    NotUsed,
    Eso,
    Naso,
    Tymp,
    Rect,
    Blad,
    Axil,
    Skin,
    Airw,
    Room,
    Myo,
    T1,
    T2,
    T3,
    T4,
    Core,
    Surf,
    T5,
    T6,
}

impl TemperatureLabel {
    /// The number that stands for this site on the wire.
    pub open spec fn spec_code(&self) -> u16 {
        match self {
            TemperatureLabel::NotUsed => 0,
            TemperatureLabel::Eso => 1,
            TemperatureLabel::Naso => 2,
            TemperatureLabel::Tymp => 3,
            TemperatureLabel::Rect => 4,
            TemperatureLabel::Blad => 5,
            TemperatureLabel::Axil => 6,
            TemperatureLabel::Skin => 7,
            TemperatureLabel::Airw => 8,
            TemperatureLabel::Room => 9,
            TemperatureLabel::Myo => 10,
            TemperatureLabel::T1 => 11,
            TemperatureLabel::T2 => 12,
            TemperatureLabel::T3 => 13,
            TemperatureLabel::T4 => 14,
            TemperatureLabel::Core => 15,
            TemperatureLabel::Surf => 16,
            TemperatureLabel::T5 => 17,
            TemperatureLabel::T6 => 18,
        }
    }

    /// The name under which this site is displayed.
    pub open spec fn spec_name(&self) -> Seq<char> {
        match self {
            TemperatureLabel::NotUsed => "NOT_USED"@,
            TemperatureLabel::Eso => "ESO"@,
            TemperatureLabel::Naso => "NASO"@,
            TemperatureLabel::Tymp => "TYMP"@,
            TemperatureLabel::Rect => "RECT"@,
            TemperatureLabel::Blad => "BLAD"@,
            TemperatureLabel::Axil => "AXIL"@,
            TemperatureLabel::Skin => "SKIN"@,
            TemperatureLabel::Airw => "AIRW"@,
            TemperatureLabel::Room => "ROOM"@,
            TemperatureLabel::Myo => "MYO"@,
            TemperatureLabel::T1 => "T1"@,
            TemperatureLabel::T2 => "T2"@,
            TemperatureLabel::T3 => "T3"@,
            TemperatureLabel::T4 => "T4"@,
            TemperatureLabel::Core => "CORE"@,
            TemperatureLabel::Surf => "SURF"@,
            TemperatureLabel::T5 => "T5"@,
            TemperatureLabel::T6 => "T6"@,
        }
    }

    /// The number that stands for this site on the wire.
    #[verifier::when_used_as_spec(spec_code)]
    pub fn code(&self) -> (r: u16)
        ensures
            r == self.spec_code(),
            r <= 18,
    {
        match self {
            TemperatureLabel::NotUsed => 0,
            TemperatureLabel::Eso => 1,
            TemperatureLabel::Naso => 2,
            TemperatureLabel::Tymp => 3,
            TemperatureLabel::Rect => 4,
            TemperatureLabel::Blad => 5,
            TemperatureLabel::Axil => 6,
            TemperatureLabel::Skin => 7,
            TemperatureLabel::Airw => 8,
            TemperatureLabel::Room => 9,
            TemperatureLabel::Myo => 10,
            TemperatureLabel::T1 => 11,
            TemperatureLabel::T2 => 12,
            TemperatureLabel::T3 => 13,
            TemperatureLabel::T4 => 14,
            TemperatureLabel::Core => 15,
            TemperatureLabel::Surf => 16,
            TemperatureLabel::T5 => 17,
            TemperatureLabel::T6 => 18,
        }
    }

    /// The site that a number stands for: one exists exactly for 0 to 18.
    pub open spec fn spec_from_u16(value: u16) -> Option<Self> {
        if value == 0 {
            Some(TemperatureLabel::NotUsed)
        } else if value == 1 {
            Some(TemperatureLabel::Eso)
        } else if value == 2 {
            Some(TemperatureLabel::Naso)
        } else if value == 3 {
            Some(TemperatureLabel::Tymp)
        } else if value == 4 {
            Some(TemperatureLabel::Rect)
        } else if value == 5 {
            Some(TemperatureLabel::Blad)
        } else if value == 6 {
            Some(TemperatureLabel::Axil)
        } else if value == 7 {
            Some(TemperatureLabel::Skin)
        } else if value == 8 {
            Some(TemperatureLabel::Airw)
        } else if value == 9 {
            Some(TemperatureLabel::Room)
        } else if value == 10 {
            Some(TemperatureLabel::Myo)
        } else if value == 11 {
            Some(TemperatureLabel::T1)
        } else if value == 12 {
            Some(TemperatureLabel::T2)
        } else if value == 13 {
            Some(TemperatureLabel::T3)
        } else if value == 14 {
            Some(TemperatureLabel::T4)
        } else if value == 15 {
            Some(TemperatureLabel::Core)
        } else if value == 16 {
            Some(TemperatureLabel::Surf)
        } else if value == 17 {
            Some(TemperatureLabel::T5)
        } else if value == 18 {
            Some(TemperatureLabel::T6)
        } else {
            None
        }
    }

    /// The site that a number stands for: one exists exactly for 0 to 18.
    pub fn from_u16(value: u16) -> (r: Option<Self>)
        ensures
            r == Self::spec_from_u16(value),
            r is Some <==> value <= 18,
            r matches Some(v) ==> v.spec_code() == value,
    {
        match value {
            0 => Some(TemperatureLabel::NotUsed),
            1 => Some(TemperatureLabel::Eso),
            2 => Some(TemperatureLabel::Naso),
            3 => Some(TemperatureLabel::Tymp),
            4 => Some(TemperatureLabel::Rect),
            5 => Some(TemperatureLabel::Blad),
            6 => Some(TemperatureLabel::Axil),
            7 => Some(TemperatureLabel::Skin),
            8 => Some(TemperatureLabel::Airw),
            9 => Some(TemperatureLabel::Room),
            10 => Some(TemperatureLabel::Myo),
            11 => Some(TemperatureLabel::T1),
            12 => Some(TemperatureLabel::T2),
            13 => Some(TemperatureLabel::T3),
            14 => Some(TemperatureLabel::T4),
            15 => Some(TemperatureLabel::Core),
            16 => Some(TemperatureLabel::Surf),
            17 => Some(TemperatureLabel::T5),
            18 => Some(TemperatureLabel::T6),
            _ => None,
        }
    }

    /// The name under which this site is displayed.
    pub fn name(&self) -> (r: &'static str)
        ensures
            r@ == self.spec_name(),
    {
        match self {
            TemperatureLabel::NotUsed => "NOT_USED",
            TemperatureLabel::Eso => "ESO",
            TemperatureLabel::Naso => "NASO",
            TemperatureLabel::Tymp => "TYMP",
            TemperatureLabel::Rect => "RECT",
            TemperatureLabel::Blad => "BLAD",
            TemperatureLabel::Axil => "AXIL",
            TemperatureLabel::Skin => "SKIN",
            TemperatureLabel::Airw => "AIRW",
            TemperatureLabel::Room => "ROOM",
            TemperatureLabel::Myo => "MYO",
            TemperatureLabel::T1 => "T1",
            TemperatureLabel::T2 => "T2",
            TemperatureLabel::T3 => "T3",
            TemperatureLabel::T4 => "T4",
            TemperatureLabel::Core => "CORE",
            TemperatureLabel::Surf => "SURF",
            TemperatureLabel::T5 => "T5",
            TemperatureLabel::T6 => "T6",
        }
    }
}

/// Anesthesia agents.
#[derive(Debug, Clone, Copy, PartialEq, Eq, Structural)]
pub enum AnesthesiaAgent {
    Unknown,
    /// No agent in use.
    NoAgent,
    /// Halothane.
    Hal,
    /// Enflurane.
    Enf,
    /// Isoflurane.
    Iso,
    /// Desflurane.
    Des,
    /// Sevoflurane.
    Sev,
}

impl AnesthesiaAgent {
    /// The number that stands for this agent on the wire.
    pub open spec fn spec_code(&self) -> u16 {
        match self {
            AnesthesiaAgent::Unknown => 0,
            AnesthesiaAgent::NoAgent => 1,
            AnesthesiaAgent::Hal => 2,
            AnesthesiaAgent::Enf => 3,
            AnesthesiaAgent::Iso => 4,
            AnesthesiaAgent::Des => 5,
            AnesthesiaAgent::Sev => 6,
        }
    }

    /// The name under which this agent is displayed.
    pub open spec fn spec_name(&self) -> Seq<char> {
        match self {
            AnesthesiaAgent::Unknown => "UNKNOWN"@,
            AnesthesiaAgent::NoAgent => "NONE"@,
            AnesthesiaAgent::Hal => "HAL"@,
            AnesthesiaAgent::Enf => "ENF"@,
            AnesthesiaAgent::Iso => "ISO"@,
            AnesthesiaAgent::Des => "DES"@,
            AnesthesiaAgent::Sev => "SEV"@,
        }
    }

    /// The number that stands for this agent on the wire.
    #[verifier::when_used_as_spec(spec_code)]
    pub fn code(&self) -> (r: u16)
        ensures
            r == self.spec_code(),
            r <= 6,
    {
        match self {
            AnesthesiaAgent::Unknown => 0,
            AnesthesiaAgent::NoAgent => 1,
            AnesthesiaAgent::Hal => 2,
            AnesthesiaAgent::Enf => 3,
            AnesthesiaAgent::Iso => 4,
            AnesthesiaAgent::Des => 5,
            AnesthesiaAgent::Sev => 6,
        }
    }

    /// The agent that a number stands for: one exists exactly for 0 to 6.
    pub open spec fn spec_from_u16(value: u16) -> Option<Self> {
        if value == 0 {
            Some(AnesthesiaAgent::Unknown)
        } else if value == 1 {
            Some(AnesthesiaAgent::NoAgent)
        } else if value == 2 {
            Some(AnesthesiaAgent::Hal)
        } else if value == 3 {
            Some(AnesthesiaAgent::Enf)
        } else if value == 4 {
            Some(AnesthesiaAgent::Iso)
        } else if value == 5 {
            Some(AnesthesiaAgent::Des)
        } else if value == 6 {
            Some(AnesthesiaAgent::Sev)
        } else {
            None
        }
    }

    /// The agent that a number stands for: one exists exactly for 0 to 6.
    pub fn from_u16(value: u16) -> (r: Option<Self>)
        ensures
            r == Self::spec_from_u16(value),
            r is Some <==> value <= 6,
            r matches Some(v) ==> v.spec_code() == value,
    {
        match value {
            0 => Some(AnesthesiaAgent::Unknown),
            1 => Some(AnesthesiaAgent::NoAgent),
            2 => Some(AnesthesiaAgent::Hal),
            3 => Some(AnesthesiaAgent::Enf),
            4 => Some(AnesthesiaAgent::Iso),
            5 => Some(AnesthesiaAgent::Des),
            6 => Some(AnesthesiaAgent::Sev),
            _ => None,
        }
    }

    /// The name under which this agent is displayed.
    pub fn name(&self) -> (r: &'static str)
        ensures
            r@ == self.spec_name(),
    {
        match self {
            AnesthesiaAgent::Unknown => "UNKNOWN",
            AnesthesiaAgent::NoAgent => "NONE",
            AnesthesiaAgent::Hal => "HAL",
            AnesthesiaAgent::Enf => "ENF",
            AnesthesiaAgent::Iso => "ISO",
            AnesthesiaAgent::Des => "DES",
            AnesthesiaAgent::Sev => "SEV",
        }
    }
}

/// Parameter groups of physiological data.
#[derive(Debug, Clone, Copy, PartialEq, Eq, Structural)]
pub enum ParameterGroup {
    Ecg,
    InvasivePressure,
    Nibp,
    Temperature,
    Spo2,
    Co2,
    O2,
    N2o,
    AnesthesiaAgent,
    FlowVolume,
    CardiacOutput,
    Nmt,
    EcgExtra,
    Svo2,
}

} // verus!
