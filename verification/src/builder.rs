//! Building an encoding session: validating the user's selections against
//! what the device reports as supported, assembling the session parameters,
//! and creating the dispatch ring with its two handles.
//!
//! The device queries themselves (which codecs, profiles and presets the
//! hardware offers) are external collaborator calls; their results come into
//! the builder as plain lists.

use vstd::prelude::*;

use crate::config::EncodeConfig;
use crate::config::EncodeParams;
use crate::config::ExtraOptions;
use crate::config::spec_built_config;
use crate::config::spec_init_params;
use crate::encoder_input::EncoderInput;
use crate::encoder_output::EncoderOutput;
use crate::error::NvEncError;
use crate::ring::DispatchRing;
use crate::settings::Codec;
use crate::settings::CodecProfile;
use crate::settings::EncodePreset;
use crate::settings::MultiPassSetting;
use crate::settings::TuningInfo;
use crate::sys::NV_ENC_BUFFER_FORMAT;
use crate::sys::NVENCAPI_MAJOR_VERSION;
use crate::sys::NVENCAPI_MINOR_VERSION;

verus! {

/// Size of the ring buffer that is shared between the input and output.
pub const BUFFER_SIZE: usize = 8;

/// The version threshold this crate requires of the installed driver.
pub open spec fn spec_version_supported(version: u32) -> bool {
    version >= (NVENCAPI_MAJOR_VERSION << 4 | NVENCAPI_MINOR_VERSION)
}

/// Checks if the driver's reported maximum API version covers the version
/// this crate is written against.
pub fn is_version_supported(version: u32) -> (r: bool)
    ensures
        r == spec_version_supported(version),
{
    let this_version = NVENCAPI_MAJOR_VERSION << 4 | NVENCAPI_MINOR_VERSION;
    version >= this_version
}

/// Whether `list` holds `value`.
fn contains_codec(list: &Vec<Codec>, value: Codec) -> (r: bool)
    ensures
        r == list@.contains(value),
{
    let mut k: usize = 0;
    while k < list.len()
        invariant
            k <= list@.len(),
            forall|j: int| 0 <= j < k ==> list@[j] != value,
        decreases list@.len() - k,
    {
        if list[k] == value {
            return true;
        }
        k = k + 1;
    }
    false
}

/// Whether `list` holds `value`.
fn contains_profile(list: &Vec<CodecProfile>, value: CodecProfile) -> (r: bool)
    ensures
        r == list@.contains(value),
{
    let mut k: usize = 0;
    while k < list.len()
        invariant
            k <= list@.len(),
            forall|j: int| 0 <= j < k ==> list@[j] != value,
        decreases list@.len() - k,
    {
        if list[k] == value {
            return true;
        }
        k = k + 1;
    }
    false
}

/// Whether `list` holds `value`.
fn contains_preset(list: &Vec<EncodePreset>, value: EncodePreset) -> (r: bool)
    ensures
        r == list@.contains(value),
{
    let mut k: usize = 0;
    while k < list.len()
        invariant
            k <= list@.len(),
            forall|j: int| 0 <= j < k ==> list@[j] != value,
        decreases list@.len() - k,
    {
        if list[k] == value {
            return true;
        }
        k = k + 1;
    }
    false
}

/// Builder for an encoding session. The device's capability lists are passed
/// into the `with_*` selectors; the device handle itself stays with the
/// embedder.
#[derive(Debug, Copy, Clone, PartialEq, Eq)]
pub struct EncoderBuilder {
    pub max_supported_version: u32,
    pub codec: Option<Codec>,
    pub profile: CodecProfile,
    pub preset: Option<EncodePreset>,
    pub tuning_info: TuningInfo,
    pub extra_options: ExtraOptions,
}

impl EncoderBuilder {
    /// Start building a session, given the maximum API version the installed
    /// driver reports. A driver older than the version this crate is written
    /// against is rejected.
    pub fn new(max_supported_version: u32) -> (r: Result<EncoderBuilder, NvEncError>)
        ensures
            match r {
                Ok(b) => {
                    &&& spec_version_supported(max_supported_version)
                    &&& b.max_supported_version == max_supported_version
                    &&& b.codec is None
                    &&& b.profile == CodecProfile::Autoselect
                    &&& b.preset is None
                    &&& b.tuning_info == TuningInfo::Undefined
                    &&& b.extra_options == (ExtraOptions {
                        inband_csd_disabled: 0u32,
                        csd_should_repeat: 0u32,
                        spatial_aq_enabled: 0u32,
                        zero_reorder_delay_enabled: 0u32,
                        multi_pass: MultiPassSetting::Disabled,
                        filler_data_frame_rate: None::<(u32, u32)>,
                        filler_data_enabled: 0u32,
                        display_aspect_ratio: None::<(u32, u32)>,
                    })
                },
                Err(e) => e == NvEncError::UnsupportedVersion && !spec_version_supported(
                    max_supported_version,
                ),
            },
    {
        if !is_version_supported(max_supported_version) {
            return Err(NvEncError::UnsupportedVersion);
        }
        Ok(
            EncoderBuilder {
                max_supported_version,
                codec: None,
                profile: CodecProfile::Autoselect,
                preset: None,
                tuning_info: TuningInfo::Undefined,
                extra_options: Default::default(),
            },
        )
    }

    /// Select the codec, checked against the device's supported codecs.
    pub fn with_codec(&mut self, codec: Codec, supported_codecs: &Vec<Codec>) -> (r: Result<
        (),
        NvEncError,
    >)
        ensures
            if supported_codecs@.contains(codec) {
                r is Ok && *final(self) == (EncoderBuilder { codec: Some(codec), ..*old(self) })
            } else {
                r == Err::<(), NvEncError>(NvEncError::UnsupportedCodec) && *final(self) == *old(
                    self,
                )
            },
    {
        if contains_codec(supported_codecs, codec) {
            self.codec = Some(codec);
            Ok(())
        } else {
            Err(NvEncError::UnsupportedCodec)
        }
    }

    /// Select the codec profile, checked against the profiles the device
    /// supports for the already-selected codec.
    pub fn with_codec_profile(
        &mut self,
        profile: CodecProfile,
        supported_profiles: &Vec<CodecProfile>,
    ) -> (r: Result<(), NvEncError>)
        ensures
            if old(self).codec is None {
                r == Err::<(), NvEncError>(NvEncError::CodecNotSet) && *final(self) == *old(self)
            } else if supported_profiles@.contains(profile) {
                r is Ok && *final(self) == (EncoderBuilder { profile: profile, ..*old(self) })
            } else {
                r == Err::<(), NvEncError>(NvEncError::CodecProfileNotSupported) && *final(self)
                    == *old(self)
            },
    {
        if self.codec.is_none() {
            return Err(NvEncError::CodecNotSet);
        }
        if contains_profile(supported_profiles, profile) {
            self.profile = profile;
            Ok(())
        } else {
            Err(NvEncError::CodecProfileNotSupported)
        }
    }

    /// Select the encode preset, checked against the presets the device
    /// supports for the already-selected codec.
    pub fn with_encode_preset(
        &mut self,
        preset: EncodePreset,
        supported_presets: &Vec<EncodePreset>,
    ) -> (r: Result<(), NvEncError>)
        ensures
            if old(self).codec is None {
                r == Err::<(), NvEncError>(NvEncError::CodecNotSet) && *final(self) == *old(self)
            } else if supported_presets@.contains(preset) {
                r is Ok && *final(self) == (EncoderBuilder { preset: Some(preset), ..*old(self) })
            } else {
                r == Err::<(), NvEncError>(NvEncError::CodecProfileNotSupported) && *final(self)
                    == *old(self)
            },
    {
        if self.codec.is_none() {
            return Err(NvEncError::CodecNotSet);
        }
        if contains_preset(supported_presets, preset) {
            self.preset = Some(preset);
            Ok(())
        } else {
            Err(NvEncError::CodecProfileNotSupported)
        }
    }

    /// Select the tuning target.
    pub fn with_tuning_info(&mut self, tuning_info: TuningInfo) -> (r: Result<(), NvEncError>)
        ensures
            r is Ok,
            *final(self) == (EncoderBuilder { tuning_info: tuning_info, ..*old(self) }),
    {
        self.tuning_info = tuning_info;
        Ok(())
    }

    /// Write codec headers in the bitstream. Default is enabled.
    pub fn inband_csd(&mut self, enable: bool) -> (r: Result<(), NvEncError>)
        ensures
            r is Ok,
            final(self).codec == old(self).codec,
            final(self).profile == old(self).profile,
            final(self).preset == old(self).preset,
            final(self).tuning_info == old(self).tuning_info,
            final(self).max_supported_version == old(self).max_supported_version,
            final(self).extra_options == (ExtraOptions {
                inband_csd_disabled: if enable {
                    0u32
                } else {
                    1u32
                },
                ..old(self).extra_options
            }),
    {
        self.extra_options.inband_csd(enable);
        Ok(())
    }

    /// Repeat the codec headers on every IDR frame. Default is disabled.
    pub fn repeat_csd(&mut self, enable: bool) -> (r: Result<(), NvEncError>)
        ensures
            r is Ok,
            final(self).codec == old(self).codec,
            final(self).profile == old(self).profile,
            final(self).preset == old(self).preset,
            final(self).tuning_info == old(self).tuning_info,
            final(self).max_supported_version == old(self).max_supported_version,
            final(self).extra_options == (ExtraOptions {
                csd_should_repeat: if enable {
                    1u32
                } else {
                    0u32
                },
                ..old(self).extra_options
            }),
    {
        self.extra_options.repeat_csd(enable);
        Ok(())
    }

    /// Spatial adaptive quantization. Default is disabled.
    pub fn spatial_aq(&mut self, enable: bool) -> (r: Result<(), NvEncError>)
        ensures
            r is Ok,
            final(self).codec == old(self).codec,
            final(self).profile == old(self).profile,
            final(self).preset == old(self).preset,
            final(self).tuning_info == old(self).tuning_info,
            final(self).max_supported_version == old(self).max_supported_version,
            final(self).extra_options == (ExtraOptions {
                spatial_aq_enabled: if enable {
                    1u32
                } else {
                    0u32
                },
                ..old(self).extra_options
            }),
    {
        self.extra_options.spatial_aq(enable);
        Ok(())
    }

    /// Zero reorder delay. Default is disabled.
    pub fn zero_reorder_delay(&mut self, enable: bool) -> (r: Result<(), NvEncError>)
        ensures
            r is Ok,
            final(self).codec == old(self).codec,
            final(self).profile == old(self).profile,
            final(self).preset == old(self).preset,
            final(self).tuning_info == old(self).tuning_info,
            final(self).max_supported_version == old(self).max_supported_version,
            final(self).extra_options == (ExtraOptions {
                zero_reorder_delay_enabled: if enable {
                    1u32
                } else {
                    0u32
                },
                ..old(self).extra_options
            }),
    {
        self.extra_options.zero_reorder_delay(enable);
        Ok(())
    }

    /// Multi-pass rate control.
    pub fn set_multi_pass(&mut self, multi_pass: MultiPassSetting) -> (r: Result<(), NvEncError>)
        ensures
            r is Ok,
            final(self).codec == old(self).codec,
            final(self).profile == old(self).profile,
            final(self).preset == old(self).preset,
            final(self).tuning_info == old(self).tuning_info,
            final(self).max_supported_version == old(self).max_supported_version,
            final(self).extra_options == (ExtraOptions {
                multi_pass: multi_pass,
                ..old(self).extra_options
            }),
    {
        self.extra_options.set_multi_pass(multi_pass);
        Ok(())
    }

    /// Filler data insertion, paced by the given frame rate; `None` disables
    /// it. Default is disabled.
    pub fn filler_data_insertion(&mut self, frame_rate: Option<(u32, u32)>) -> (r: Result<
        (),
        NvEncError,
    >)
        ensures
            r is Ok,
            final(self).codec == old(self).codec,
            final(self).profile == old(self).profile,
            final(self).preset == old(self).preset,
            final(self).tuning_info == old(self).tuning_info,
            final(self).max_supported_version == old(self).max_supported_version,
            final(self).extra_options == (ExtraOptions {
                filler_data_frame_rate: frame_rate,
                filler_data_enabled: if frame_rate is Some {
                    1u32
                } else {
                    0u32
                },
                ..old(self).extra_options
            }),
    {
        self.extra_options.filler_data_insertion(frame_rate);
        Ok(())
    }

    /// Display aspect ratio, for non-square pixel ratios only.
    pub fn display_aspect_ratio(&mut self, display_aspect_ratio: Option<(u32, u32)>) -> (r: Result<
        (),
        NvEncError,
    >)
        ensures
            r is Ok,
            final(self).codec == old(self).codec,
            final(self).profile == old(self).profile,
            final(self).preset == old(self).preset,
            final(self).tuning_info == old(self).tuning_info,
            final(self).max_supported_version == old(self).max_supported_version,
            final(self).extra_options == (ExtraOptions {
                display_aspect_ratio: display_aspect_ratio,
                ..old(self).extra_options
            }),
    {
        self.extra_options.display_aspect_ratio(display_aspect_ratio);
        Ok(())
    }

    /// Build the session: a codec and a preset must have been selected; the
    /// session parameters are assembled from the selections and the
    /// hardware's preset defaults (`preset_config`, from the external preset
    /// lookup), and the dispatch ring is created with `BUFFER_SIZE` slots
    /// together with its producer and consumer handles.
    pub fn build(
        self,
        width: u32,
        height: u32,
        texture_format: NV_ENC_BUFFER_FORMAT,
        params_require_buffer_format: bool,
        preset_config: EncodeConfig,
    ) -> (r: Result<(EncoderInput, EncoderOutput, DispatchRing), NvEncError>)
        requires
            match self.codec {
                Some(c) => preset_config.codec_config.matches_codec(c),
                None => true,
            },
            self.extra_options.display_aspect_ratio is None ==> width > 0 || height > 0,
        ensures
            match r {
                Ok(parts) => {
                    let c = self.codec->Some_0;
                    &&& self.codec is Some
                    &&& self.preset is Some
                    &&& parts.0.encode_params.init == spec_init_params(
                        width,
                        height,
                        texture_format,
                        c,
                        self.preset->Some_0,
                        self.tuning_info,
                        self.extra_options,
                        params_require_buffer_format,
                    )
                    &&& parts.0.encode_params.config == spec_built_config(
                        preset_config,
                        texture_format,
                        self.profile,
                        self.extra_options,
                    )
                    &&& parts.0.encode_pic_params.encode_pic_flags == 0
                    &&& parts.0.encode_pic_params.buffer_format == texture_format
                    &&& parts.2.wf()
                    &&& parts.2.capacity_spec() == BUFFER_SIZE
                    &&& parts.2.submitted@.len() == 0
                    &&& parts.2.delivered@.len() == 0
                    &&& !parts.2.stalled
                },
                Err(e) => {
                    &&& (e == NvEncError::CodecNotSet <==> self.codec is None)
                    &&& (self.codec is Some ==> e == NvEncError::EncodePresetNotSet
                        && self.preset is None)
                },
            },
    {
        let codec = match self.codec {
            Some(c) => c,
            None => {
                return Err(NvEncError::CodecNotSet);
            },
        };
        let preset = match self.preset {
            Some(p) => p,
            None => {
                return Err(NvEncError::EncodePresetNotSet);
            },
        };

        let encode_params = EncodeParams::new(
            width,
            height,
            &texture_format,
            codec,
            self.profile,
            preset,
            self.tuning_info,
            &self.extra_options,
            params_require_buffer_format,
            preset_config,
        );

        let ring = DispatchRing::new(BUFFER_SIZE);
        let encoder_input = EncoderInput::new(encode_params, texture_format);
        let encoder_output = EncoderOutput::new();
        Ok((encoder_input, encoder_output, ring))
    }
}

} // verus!
