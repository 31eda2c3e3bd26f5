//! User-facing encoder settings and their correspondence with the vendor
//! enumeration types.
//!
//! The codec, profile and preset selections are also identified on the vendor
//! side by GUIDs; that lookup table is part of the external vendor surface
//! and stays with the collaborator that talks to the driver.

use vstd::prelude::*;

use crate::sys::NV_ENC_MULTI_PASS;
use crate::sys::NV_ENC_TUNING_INFO;

verus! {

/// Compression standard the encoder produces.
#[derive(Debug, Copy, Clone, PartialEq, Eq, Hash, Structural)]
#[non_exhaustive]
pub enum Codec {
    H264,
    Hevc,
}

/// Profile of the selected codec, or `Autoselect` to let the encoder pick.
#[derive(Debug, Copy, Clone, PartialEq, Eq, Hash, Structural)]
#[non_exhaustive]
pub enum CodecProfile {
    Autoselect,
    H264Baseline,
    H264Main,
    H264High,
    H264High444,
    H264Stereo,
    H264ProgressiveHigh,
    H264ConstrainedHigh,
    HevcMain,
    HevcMain10,
    HevcFrext,
}

/// Quality/performance preset of the encoder.
#[derive(Debug, Copy, Clone, PartialEq, Eq, Hash, Structural)]
#[non_exhaustive]
pub enum EncodePreset {
    DefaultPreset,
    Hp,
    Hq,
    Bd,
    LowLatencyDefault,
    LowLatencyHq,
    LowLatencyHp,
    LosslessDefault,
    LosslessHp,
    Streaming,
    P1,
    P2,
    P3,
    P4,
    P5,
    P6,
    P7,
}

/// Latency/quality tuning target.
#[derive(Debug, Copy, Clone, PartialEq, Eq, Hash, Structural)]
#[non_exhaustive]
pub enum TuningInfo {
    Undefined,
    HighQuality,
    LowLatency,
    UltraLowLatency,
    Lossless,
}

/// Multi-pass rate-control selection.
#[derive(Debug, Copy, Clone, PartialEq, Eq, Hash, Structural)]
#[non_exhaustive]
pub enum MultiPassSetting {
    Disabled,
    QuarterResolution,
    FullResolution,
}

/// The vendor value a tuning selection stands for.
pub open spec fn tuning_info_sys_of(t: TuningInfo) -> NV_ENC_TUNING_INFO {
    match t {
        TuningInfo::Undefined => NV_ENC_TUNING_INFO::NV_ENC_TUNING_INFO_UNDEFINED,
        TuningInfo::HighQuality => NV_ENC_TUNING_INFO::NV_ENC_TUNING_INFO_HIGH_QUALITY,
        TuningInfo::LowLatency => NV_ENC_TUNING_INFO::NV_ENC_TUNING_INFO_LOW_LATENCY,
        TuningInfo::UltraLowLatency => NV_ENC_TUNING_INFO::NV_ENC_TUNING_INFO_ULTRA_LOW_LATENCY,
        TuningInfo::Lossless => NV_ENC_TUNING_INFO::NV_ENC_TUNING_INFO_LOSSLESS,
    }
}

impl TuningInfo {
    /// Convert into the vendor tuning value.
    pub fn into(self) -> (r: NV_ENC_TUNING_INFO)
        ensures
            r == tuning_info_sys_of(self),
    {
        match self {
            TuningInfo::Undefined => NV_ENC_TUNING_INFO::NV_ENC_TUNING_INFO_UNDEFINED,
            TuningInfo::HighQuality => NV_ENC_TUNING_INFO::NV_ENC_TUNING_INFO_HIGH_QUALITY,
            TuningInfo::LowLatency => NV_ENC_TUNING_INFO::NV_ENC_TUNING_INFO_LOW_LATENCY,
            TuningInfo::UltraLowLatency => NV_ENC_TUNING_INFO::NV_ENC_TUNING_INFO_ULTRA_LOW_LATENCY,
            TuningInfo::Lossless => NV_ENC_TUNING_INFO::NV_ENC_TUNING_INFO_LOSSLESS,
        }
    }

    /// Convert from the vendor tuning value. The count marker is not a
    /// tuning selection and is excluded.
    pub fn from(tuning_info: NV_ENC_TUNING_INFO) -> (r: Self)
        requires
            tuning_info != NV_ENC_TUNING_INFO::NV_ENC_TUNING_INFO_COUNT,
        ensures
            tuning_info_sys_of(r) == tuning_info,
    {
        match tuning_info {
            NV_ENC_TUNING_INFO::NV_ENC_TUNING_INFO_UNDEFINED => TuningInfo::Undefined,
            NV_ENC_TUNING_INFO::NV_ENC_TUNING_INFO_HIGH_QUALITY => TuningInfo::HighQuality,
            NV_ENC_TUNING_INFO::NV_ENC_TUNING_INFO_LOW_LATENCY => TuningInfo::LowLatency,
            NV_ENC_TUNING_INFO::NV_ENC_TUNING_INFO_ULTRA_LOW_LATENCY => TuningInfo::UltraLowLatency,
            NV_ENC_TUNING_INFO::NV_ENC_TUNING_INFO_LOSSLESS => TuningInfo::Lossless,
            NV_ENC_TUNING_INFO::NV_ENC_TUNING_INFO_COUNT => TuningInfo::Undefined,
        }
    }
}

/// The vendor value a multi-pass selection stands for.
pub open spec fn multi_pass_sys_of(m: MultiPassSetting) -> NV_ENC_MULTI_PASS {
    match m {
        MultiPassSetting::Disabled => NV_ENC_MULTI_PASS::NV_ENC_MULTI_PASS_DISABLED,
        MultiPassSetting::QuarterResolution => NV_ENC_MULTI_PASS::NV_ENC_TWO_PASS_QUARTER_RESOLUTION,
        MultiPassSetting::FullResolution => NV_ENC_MULTI_PASS::NV_ENC_TWO_PASS_FULL_RESOLUTION,
    }
}

impl MultiPassSetting {
    /// Convert into the vendor multi-pass value.
    pub fn into(self) -> (r: NV_ENC_MULTI_PASS)
        ensures
            r == multi_pass_sys_of(self),
    {
        match self {
            MultiPassSetting::Disabled => NV_ENC_MULTI_PASS::NV_ENC_MULTI_PASS_DISABLED,
            MultiPassSetting::QuarterResolution => NV_ENC_MULTI_PASS::NV_ENC_TWO_PASS_QUARTER_RESOLUTION,
            MultiPassSetting::FullResolution => NV_ENC_MULTI_PASS::NV_ENC_TWO_PASS_FULL_RESOLUTION,
        }
    }

    /// Convert from the vendor multi-pass value.
    pub fn from(multi_pass: NV_ENC_MULTI_PASS) -> (r: Self)
        ensures
            multi_pass_sys_of(r) == multi_pass,
    {
        match multi_pass {
            NV_ENC_MULTI_PASS::NV_ENC_MULTI_PASS_DISABLED => MultiPassSetting::Disabled,
            NV_ENC_MULTI_PASS::NV_ENC_TWO_PASS_QUARTER_RESOLUTION => MultiPassSetting::QuarterResolution,
            NV_ENC_MULTI_PASS::NV_ENC_TWO_PASS_FULL_RESOLUTION => MultiPassSetting::FullResolution,
        }
    }
}

} // verus!
