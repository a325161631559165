//! Radar configuration settings and their parameter values.
use vstd::prelude::*;

verus! {

/// A parameter value that names no setting.
#[derive(Debug, Clone, Copy, PartialEq, Eq, Structural)]
pub enum Error {
    InvalidCenterFrequency(u32),
    InvalidFrequencySweep(u32),
    InvalidRangeToggle(u32),
    InvalidDetectionSensitivity(u32),
}

/// The center frequency of the radar.  Ultra-short range is only supported
/// with the low center frequency.
#[derive(Debug, Clone, Copy, PartialEq, Eq, Structural)]
pub enum CenterFrequency {
    Low,
    Medium,
    High,
}

impl CenterFrequency {
    pub open spec fn spec_code(self) -> u32 {
        match self {
            CenterFrequency::Low => 0,
            CenterFrequency::Medium => 1,
            CenterFrequency::High => 2,
        }
    }

    /// The parameter value of the setting.
    pub fn code(&self) -> (r: u32)
        ensures
            r == self.spec_code(),
    {
        match self {
            CenterFrequency::Low => 0,
            CenterFrequency::Medium => 1,
            CenterFrequency::High => 2,
        }
    }

    /// The setting with parameter value `value`.
    pub fn try_from_code(value: u32) -> (r: Result<CenterFrequency, Error>)
        ensures
            r matches Ok(s) ==> s.spec_code() == value,
            r is Err <==> value > 2,
            r matches Err(e) ==> e == Error::InvalidCenterFrequency(value),
    {
        match value {
            0 => Ok(CenterFrequency::Low),
            1 => Ok(CenterFrequency::Medium),
            2 => Ok(CenterFrequency::High),
            _ => Err(Error::InvalidCenterFrequency(value)),
        }
    }

    pub open spec fn spec_label(self) -> Seq<char> {
        match self {
            CenterFrequency::Low => "low"@,
            CenterFrequency::Medium => "medium"@,
            CenterFrequency::High => "high"@,
        }
    }

    /// The name of the setting, as published in the radar info.
    pub fn label(&self) -> (r: &'static str)
        ensures
            r@ == self.spec_label(),
    {
        match self {
            CenterFrequency::Low => "low",
            CenterFrequency::Medium => "medium",
            CenterFrequency::High => "high",
        }
    }
}

/// The frequency sweep, which sets the range of the radar.
#[derive(Debug, Clone, Copy, PartialEq, Eq, Structural)]
pub enum FrequencySweep {
    Long,
    Medium,
    Short,
    UltraShort,
}

impl FrequencySweep {
    pub open spec fn spec_code(self) -> u32 {
        match self {
            FrequencySweep::Long => 0,
            FrequencySweep::Medium => 1,
            FrequencySweep::Short => 2,
            FrequencySweep::UltraShort => 3,
        }
    }

    /// The parameter value of the setting.
    pub fn code(&self) -> (r: u32)
        ensures
            r == self.spec_code(),
    {
        match self {
            FrequencySweep::Long => 0,
            FrequencySweep::Medium => 1,
            FrequencySweep::Short => 2,
            FrequencySweep::UltraShort => 3,
        }
    }

    /// The setting with parameter value `value`.
    pub fn try_from_code(value: u32) -> (r: Result<FrequencySweep, Error>)
        ensures
            r matches Ok(s) ==> s.spec_code() == value,
            r is Err <==> value > 3,
            r matches Err(e) ==> e == Error::InvalidFrequencySweep(value),
    {
        match value {
            0 => Ok(FrequencySweep::Long),
            1 => Ok(FrequencySweep::Medium),
            2 => Ok(FrequencySweep::Short),
            3 => Ok(FrequencySweep::UltraShort),
            _ => Err(Error::InvalidFrequencySweep(value)),
        }
    }

    pub open spec fn spec_label(self) -> Seq<char> {
        match self {
            FrequencySweep::Long => "long"@,
            FrequencySweep::Medium => "medium"@,
            FrequencySweep::Short => "short"@,
            FrequencySweep::UltraShort => "ultra-short"@,
        }
    }

    /// The name of the setting, as published in the radar info.
    pub fn label(&self) -> (r: &'static str)
        ensures
            r@ == self.spec_label(),
    {
        match self {
            FrequencySweep::Long => "long",
            FrequencySweep::Medium => "medium",
            FrequencySweep::Short => "short",
            FrequencySweep::UltraShort => "ultra-short",
        }
    }
}

/// The range toggle mode, which alternates between frequency sweeps at run
/// time.
#[derive(Debug, Clone, Copy, PartialEq, Eq, Structural)]
pub enum RangeToggle {
    Off,
    ShortMedium,
    ShortLong,
    MediumLong,
    LongUltraShort,
    MediumUltraShort,
    ShortUltraShort,
}

impl RangeToggle {
    pub open spec fn spec_code(self) -> u32 {
        match self {
            RangeToggle::Off => 0,
            RangeToggle::ShortMedium => 1,
            RangeToggle::ShortLong => 2,
            RangeToggle::MediumLong => 3,
            RangeToggle::LongUltraShort => 4,
            RangeToggle::MediumUltraShort => 5,
            RangeToggle::ShortUltraShort => 6,
        }
    }

    /// The parameter value of the setting.
    pub fn code(&self) -> (r: u32)
        ensures
            r == self.spec_code(),
    {
        match self {
            RangeToggle::Off => 0,
            RangeToggle::ShortMedium => 1,
            RangeToggle::ShortLong => 2,
            RangeToggle::MediumLong => 3,
            RangeToggle::LongUltraShort => 4,
            RangeToggle::MediumUltraShort => 5,
            RangeToggle::ShortUltraShort => 6,
        }
    }

    /// The setting with parameter value `value`.
    pub fn try_from_code(value: u32) -> (r: Result<RangeToggle, Error>)
        ensures
            r matches Ok(s) ==> s.spec_code() == value,
            r is Err <==> value > 6,
            r matches Err(e) ==> e == Error::InvalidRangeToggle(value),
    {
        match value {
            0 => Ok(RangeToggle::Off),
            1 => Ok(RangeToggle::ShortMedium),
            2 => Ok(RangeToggle::ShortLong),
            3 => Ok(RangeToggle::MediumLong),
            4 => Ok(RangeToggle::LongUltraShort),
            5 => Ok(RangeToggle::MediumUltraShort),
            6 => Ok(RangeToggle::ShortUltraShort),
            _ => Err(Error::InvalidRangeToggle(value)),
        }
    }

    pub open spec fn spec_label(self) -> Seq<char> {
        match self {
            RangeToggle::Off => "off"@,
            RangeToggle::ShortMedium => "short-medium"@,
            RangeToggle::ShortLong => "short-long"@,
            RangeToggle::MediumLong => "medium-long"@,
            RangeToggle::LongUltraShort => "long-ultra-short"@,
            RangeToggle::MediumUltraShort => "medium-ultra-short"@,
            RangeToggle::ShortUltraShort => "short-ultra-short"@,
        }
    }

    /// The name of the setting, as published in the radar info.
    pub fn label(&self) -> (r: &'static str)
        ensures
            r@ == self.spec_label(),
    {
        match self {
            RangeToggle::Off => "off",
            RangeToggle::ShortMedium => "short-medium",
            RangeToggle::ShortLong => "short-long",
            RangeToggle::MediumLong => "medium-long",
            RangeToggle::LongUltraShort => "long-ultra-short",
            RangeToggle::MediumUltraShort => "medium-ultra-short",
            RangeToggle::ShortUltraShort => "short-ultra-short",
        }
    }
}

/// The detection sensitivity of the radar.
#[derive(Debug, Clone, Copy, PartialEq, Eq, Structural)]
pub enum DetectionSensitivity {
    Low,
    Medium,
    High,
}

impl DetectionSensitivity {
    pub open spec fn spec_code(self) -> u32 {
        match self {
            DetectionSensitivity::Low => 0,
            DetectionSensitivity::Medium => 1,
            DetectionSensitivity::High => 2,
        }
    }

    /// The parameter value of the setting.
    pub fn code(&self) -> (r: u32)
        ensures
            r == self.spec_code(),
    {
        match self {
            DetectionSensitivity::Low => 0,
            DetectionSensitivity::Medium => 1,
            DetectionSensitivity::High => 2,
        }
    }

    /// The setting with parameter value `value`.
    pub fn try_from_code(value: u32) -> (r: Result<DetectionSensitivity, Error>)
        ensures
            r matches Ok(s) ==> s.spec_code() == value,
            r is Err <==> value > 2,
            r matches Err(e) ==> e == Error::InvalidDetectionSensitivity(value),
    {
        match value {
            0 => Ok(DetectionSensitivity::Low),
            1 => Ok(DetectionSensitivity::Medium),
            2 => Ok(DetectionSensitivity::High),
            _ => Err(Error::InvalidDetectionSensitivity(value)),
        }
    }

    pub open spec fn spec_label(self) -> Seq<char> {
        match self {
            DetectionSensitivity::Low => "low"@,
            DetectionSensitivity::Medium => "medium"@,
            DetectionSensitivity::High => "high"@,
        }
    }

    /// The name of the setting, as published in the radar info.
    pub fn label(&self) -> (r: &'static str)
        ensures
            r@ == self.spec_label(),
    {
        match self {
            DetectionSensitivity::Low => "low",
            DetectionSensitivity::Medium => "medium",
            DetectionSensitivity::High => "high",
        }
    }
}

} // verus!
