//! Plain-value models of the encoder configuration records, and the logic
//! that populates them. The hardware's own defaults for a preset are obtained
//! by an external call; that result comes in here as a value and everything
//! done to it afterwards is spelled out below.

use vstd::prelude::*;

use crate::settings::Codec;
use crate::settings::CodecProfile;
use crate::settings::EncodePreset;
use crate::settings::MultiPassSetting;
use crate::settings::TuningInfo;
use crate::settings::multi_pass_sys_of;
use crate::settings::tuning_info_sys_of;
use crate::sys::NV_ENC_BUFFER_FORMAT;
use crate::sys::NV_ENC_MULTI_PASS;
use crate::util::gcd;
use crate::util::lemma_gcd_pos;
use crate::util::spec_gcd;

verus! {

/// Rate-control fields of the encode configuration that this crate touches.
#[derive(Debug, Copy, Clone, PartialEq, Eq, Structural)]
pub struct RateControlParams {
    pub average_bitrate: u32,
    pub max_bitrate: u32,
    pub vbv_buffer_size: u32,
    pub vbv_initial_delay: u32,
    pub enable_aq: u32,
    pub zero_reorder_delay: u32,
    pub multi_pass: NV_ENC_MULTI_PASS,
}

/// H.264-specific configuration fields that this crate touches.
#[derive(Debug, Copy, Clone, PartialEq, Eq, Structural)]
pub struct H264Config {
    pub disable_spspps: u32,
    pub repeat_spspps: u32,
    pub enable_filler_data_insertion: u32,
    pub chroma_format_idc: u32,
    pub output_buffering_period_sei: u32,
    pub output_picture_timing_sei: u32,
    pub output_aud: u32,
    pub output_frame_packing_sei: u32,
    pub output_recovery_point_sei: u32,
    pub enable_scalability_info_sei: u32,
    pub disable_svc_prefix_nalu: u32,
}

/// HEVC-specific configuration fields that this crate touches.
#[derive(Debug, Copy, Clone, PartialEq, Eq, Structural)]
pub struct HevcConfig {
    pub disable_spspps: u32,
    pub repeat_spspps: u32,
    pub enable_filler_data_insertion: u32,
    pub chroma_format_idc: u32,
    pub pixel_bit_depth_minus_8: u32,
    pub output_buffering_period_sei: u32,
    pub output_picture_timing_sei: u32,
    pub output_aud: u32,
    pub enable_alpha_layer_encoding: u32,
}

/// Codec-specific half of the encode configuration, discriminated by codec.
#[derive(Debug, Copy, Clone, PartialEq, Eq, Structural)]
pub enum CodecConfig {
    H264(H264Config),
    Hevc(HevcConfig),
}

impl CodecConfig {
    /// Whether this codec-specific configuration belongs to `codec`.
    pub open spec fn matches_codec(self, codec: Codec) -> bool {
        match self {
            CodecConfig::H264(_) => codec == Codec::H264,
            CodecConfig::Hevc(_) => codec == Codec::Hevc,
        }
    }
}

/// The encode configuration: profile selection, rate control, and the
/// codec-specific half.
#[derive(Debug, Copy, Clone, PartialEq, Eq, Structural)]
pub struct EncodeConfig {
    pub profile: CodecProfile,
    pub rc_params: RateControlParams,
    pub codec_config: CodecConfig,
}

/// The session initialization record: what the encoder is told once, at
/// session start, about sizes, codec, preset, tuning and timing.
#[derive(Debug, Copy, Clone, PartialEq, Eq, Structural)]
pub struct InitializeParams {
    pub codec: Codec,
    pub preset: EncodePreset,
    pub encode_width: u32,
    pub encode_height: u32,
    pub enable_ptd: u32,
    pub tuning_info: crate::sys::NV_ENC_TUNING_INFO,
    pub enable_encode_async: u32,
    pub enable_output_in_vidmem: u32,
    /// Set only when the device kind requires the buffer format up front.
    pub buffer_format: NV_ENC_BUFFER_FORMAT,
    pub frame_rate_num: u32,
    pub frame_rate_den: u32,
    pub dar_width: u32,
    pub dar_height: u32,
}

/// Ten-bit formats carry their samples with two extra bits of depth.
pub fn pixel_bit_depth_minus_8(nvenc_format: &NV_ENC_BUFFER_FORMAT) -> (r: u32)
    ensures
        r == (if *nvenc_format == NV_ENC_BUFFER_FORMAT::NV_ENC_BUFFER_FORMAT_YUV420_10BIT
            || *nvenc_format == NV_ENC_BUFFER_FORMAT::NV_ENC_BUFFER_FORMAT_YUV444_10BIT {
            2u32
        } else {
            0u32
        }),
{
    match nvenc_format {
        NV_ENC_BUFFER_FORMAT::NV_ENC_BUFFER_FORMAT_YUV420_10BIT
        | NV_ENC_BUFFER_FORMAT::NV_ENC_BUFFER_FORMAT_YUV444_10BIT => 2,
        _ => 0,
    }
}

/// Chroma sampling indication: 3 for the 4:4:4 formats, 1 for everything
/// else (including non-YUV formats, where the encoder expects 1).
pub fn chroma_format_idc(nvenc_format: &NV_ENC_BUFFER_FORMAT) -> (r: u32)
    ensures
        r == (if *nvenc_format == NV_ENC_BUFFER_FORMAT::NV_ENC_BUFFER_FORMAT_YUV444
            || *nvenc_format == NV_ENC_BUFFER_FORMAT::NV_ENC_BUFFER_FORMAT_YUV444_10BIT {
            3u32
        } else {
            1u32
        }),
{
    match nvenc_format {
        NV_ENC_BUFFER_FORMAT::NV_ENC_BUFFER_FORMAT_YUV444
        | NV_ENC_BUFFER_FORMAT::NV_ENC_BUFFER_FORMAT_YUV444_10BIT => 3,
        _ => 1,
    }
}

/// Optional knobs applied on top of the preset defaults.
#[derive(Debug, Copy, Clone, PartialEq, Eq)]
pub struct ExtraOptions {
    pub inband_csd_disabled: u32,
    pub csd_should_repeat: u32,
    pub spatial_aq_enabled: u32,
    pub zero_reorder_delay_enabled: u32,
    pub multi_pass: MultiPassSetting,
    pub filler_data_frame_rate: Option<(u32, u32)>,
    pub filler_data_enabled: u32,
    pub display_aspect_ratio: Option<(u32, u32)>,
}

impl Default for ExtraOptions {
    /// Everything off: the preset defaults are left alone.
    fn default() -> (r: Self)
        ensures
            r == (ExtraOptions {
                inband_csd_disabled: 0u32,
                csd_should_repeat: 0u32,
                spatial_aq_enabled: 0u32,
                zero_reorder_delay_enabled: 0u32,
                multi_pass: MultiPassSetting::Disabled,
                filler_data_frame_rate: None::<(u32, u32)>,
                filler_data_enabled: 0u32,
                display_aspect_ratio: None::<(u32, u32)>,
            }),
    {
        ExtraOptions {
            inband_csd_disabled: 0,
            csd_should_repeat: 0,
            spatial_aq_enabled: 0,
            zero_reorder_delay_enabled: 0,
            multi_pass: MultiPassSetting::Disabled,
            filler_data_frame_rate: None,
            filler_data_enabled: 0,
            display_aspect_ratio: None,
        }
    }
}

impl ExtraOptions {
    /// Write codec headers (SPS/PPS, and VPS for HEVC) in the bitstream.
    /// Enabled means the disable flag is 0.
    pub fn inband_csd(&mut self, enable: bool)
        ensures
            *final(self) == (ExtraOptions {
                inband_csd_disabled: if enable {
                    0u32
                } else {
                    1u32
                },
                ..*old(self)
            }),
    {
        self.inband_csd_disabled = if enable {
            0
        } else {
            1
        };
    }

    /// Repeat the codec headers on every IDR frame.
    pub fn repeat_csd(&mut self, enable: bool)
        ensures
            *final(self) == (ExtraOptions {
                csd_should_repeat: if enable {
                    1u32
                } else {
                    0u32
                },
                ..*old(self)
            }),
    {
        self.csd_should_repeat = if enable {
            1
        } else {
            0
        };
    }

    /// Spatial adaptive quantization.
    pub fn spatial_aq(&mut self, enable: bool)
        ensures
            *final(self) == (ExtraOptions {
                spatial_aq_enabled: if enable {
                    1u32
                } else {
                    0u32
                },
                ..*old(self)
            }),
    {
        self.spatial_aq_enabled = if enable {
            1
        } else {
            0
        };
    }

    /// Zero reorder delay.
    pub fn zero_reorder_delay(&mut self, enable: bool)
        ensures
            *final(self) == (ExtraOptions {
                zero_reorder_delay_enabled: if enable {
                    1u32
                } else {
                    0u32
                },
                ..*old(self)
            }),
    {
        self.zero_reorder_delay_enabled = if enable {
            1
        } else {
            0
        };
    }

    /// Multi-pass rate-control selection.
    pub fn set_multi_pass(&mut self, multi_pass: MultiPassSetting)
        ensures
            *final(self) == (ExtraOptions { multi_pass: multi_pass, ..*old(self) }),
    {
        self.multi_pass = multi_pass;
    }

    /// Filler data insertion; needs the frame rate to pace the filler.
    /// `None` disables it.
    pub fn filler_data_insertion(&mut self, frame_rate: Option<(u32, u32)>)
        ensures
            *final(self) == (ExtraOptions {
                filler_data_frame_rate: frame_rate,
                filler_data_enabled: if frame_rate is Some {
                    1u32
                } else {
                    0u32
                },
                ..*old(self)
            }),
    {
        self.filler_data_frame_rate = frame_rate;
        self.filler_data_enabled = match frame_rate {
            Some(_) => 1,
            None => 0,
        };
    }

    /// Display aspect ratio for non-square pixels; `None` means square
    /// pixels, derived from the encoded size.
    pub fn display_aspect_ratio(&mut self, display_aspect_ratio: Option<(u32, u32)>)
        ensures
            *final(self) == (ExtraOptions {
                display_aspect_ratio: display_aspect_ratio,
                ..*old(self)
            }),
    {
        self.display_aspect_ratio = display_aspect_ratio;
    }

    /// Apply these options to the initialization record: the frame rate when
    /// filler data needs it, and the display aspect ratio — given, or reduced
    /// from the encoded size assuming square pixels.
    pub fn modify_init_params(&self, init_params: &mut InitializeParams)
        requires
            self.display_aspect_ratio is None ==> old(init_params).encode_width > 0 || old(
                init_params,
            ).encode_height > 0,
        ensures
            ({
                let g = spec_gcd(
                    old(init_params).encode_width as nat,
                    old(init_params).encode_height as nat,
                );
                let (dw, dh): (u32, u32) = match self.display_aspect_ratio {
                    Some(pair) => pair,
                    None => (
                        (old(init_params).encode_width as nat / g) as u32,
                        (old(init_params).encode_height as nat / g) as u32,
                    ),
                };
                *final(init_params) == (InitializeParams {
                    frame_rate_num: match self.filler_data_frame_rate {
                        Some(pair) => pair.0,
                        None => old(init_params).frame_rate_num,
                    },
                    frame_rate_den: match self.filler_data_frame_rate {
                        Some(pair) => pair.1,
                        None => old(init_params).frame_rate_den,
                    },
                    dar_width: dw,
                    dar_height: dh,
                    ..*old(init_params)
                })
            }),
    {
        if let Some((frame_rate_num, frame_rate_den)) = self.filler_data_frame_rate {
            init_params.frame_rate_num = frame_rate_num;
            init_params.frame_rate_den = frame_rate_den;
        }

        let (dar_width, dar_height): (u32, u32) = match self.display_aspect_ratio {
            Some(pair) => pair,
            None => {
                // assume square pixels
                let width = init_params.encode_width;
                let height = init_params.encode_height;
                proof {
                    lemma_gcd_pos(width as nat, height as nat);
                }
                let g = gcd(width, height);
                (width / g, height / g)
            },
        };
        init_params.dar_width = dar_width;
        init_params.dar_height = dar_height;
    }

    /// Apply these options to the codec-independent configuration.
    pub fn modify_encode_config(&self, config: &mut EncodeConfig)
        ensures
            *final(config) == (EncodeConfig {
                rc_params: RateControlParams {
                    enable_aq: self.spatial_aq_enabled,
                    zero_reorder_delay: self.zero_reorder_delay_enabled,
                    multi_pass: multi_pass_sys_of(self.multi_pass),
                    ..old(config).rc_params
                },
                ..*old(config)
            }),
    {
        config.rc_params.enable_aq = self.spatial_aq_enabled;
        config.rc_params.zero_reorder_delay = self.zero_reorder_delay_enabled;
        config.rc_params.multi_pass = self.multi_pass.into();
    }

    /// Apply these options to an H.264 configuration.
    pub fn modify_h264_encode_config(&self, h264_config: &mut H264Config)
        ensures
            *final(h264_config) == (H264Config {
                disable_spspps: self.inband_csd_disabled,
                repeat_spspps: self.csd_should_repeat,
                enable_filler_data_insertion: self.filler_data_enabled,
                ..*old(h264_config)
            }),
    {
        h264_config.disable_spspps = self.inband_csd_disabled;
        h264_config.repeat_spspps = self.csd_should_repeat;
        h264_config.enable_filler_data_insertion = self.filler_data_enabled;
    }

    /// Apply these options to an HEVC configuration.
    pub fn modify_hevc_encode_config(&self, hevc_config: &mut HevcConfig)
        ensures
            *final(hevc_config) == (HevcConfig {
                disable_spspps: self.inband_csd_disabled,
                repeat_spspps: self.csd_should_repeat,
                enable_filler_data_insertion: self.filler_data_enabled,
                ..*old(hevc_config)
            }),
    {
        hevc_config.disable_spspps = self.inband_csd_disabled;
        hevc_config.repeat_spspps = self.csd_should_repeat;
        hevc_config.enable_filler_data_insertion = self.filler_data_enabled;
    }
}

/// What the initialization record holds for a new session: sizes, codec,
/// preset and tuning as given; picture-type decision left to the encoder
/// (`enable_ptd`); asynchronous completion (the ring blocks on completion
/// signals, it never polls); output in system memory; the buffer format only
/// when the device kind requires it up front; the frame rate only when
/// filler data needs it; and the display aspect ratio as given, or reduced
/// from the encoded size assuming square pixels.
pub open spec fn spec_init_params(
    width: u32,
    height: u32,
    texture_format: NV_ENC_BUFFER_FORMAT,
    codec: Codec,
    preset: EncodePreset,
    tuning_info: TuningInfo,
    extra_options: ExtraOptions,
    params_require_buffer_format: bool,
) -> InitializeParams {
    let g = spec_gcd(width as nat, height as nat);
    let (dw, dh): (u32, u32) = match extra_options.display_aspect_ratio {
        Some(pair) => pair,
        None => ((width as nat / g) as u32, (height as nat / g) as u32),
    };
    InitializeParams {
        codec: codec,
        preset: preset,
        encode_width: width,
        encode_height: height,
        enable_ptd: 1u32,
        tuning_info: tuning_info_sys_of(tuning_info),
        enable_encode_async: 1u32,
        enable_output_in_vidmem: 0u32,
        buffer_format: if params_require_buffer_format {
            texture_format
        } else {
            NV_ENC_BUFFER_FORMAT::NV_ENC_BUFFER_FORMAT_UNDEFINED
        },
        frame_rate_num: match extra_options.filler_data_frame_rate {
            Some(pair) => pair.0,
            None => 0u32,
        },
        frame_rate_den: match extra_options.filler_data_frame_rate {
            Some(pair) => pair.1,
            None => 0u32,
        },
        dar_width: dw,
        dar_height: dh,
    }
}

/// The session parameters handed to the encoder at initialization and kept
/// for later reconfiguration: the initialization record plus the encode
/// configuration it points at.
#[derive(Debug, Copy, Clone, PartialEq, Eq, Structural)]
pub struct EncodeParams {
    pub init: InitializeParams,
    pub config: EncodeConfig,
}

impl EncodeParams {
    /// Assemble the session parameters. `preset_config` is the hardware's
    /// defaults for this codec, preset and tuning, obtained by the external
    /// preset lookup; everything else is computed here.
    pub fn new(
        width: u32,
        height: u32,
        texture_format: &NV_ENC_BUFFER_FORMAT,
        codec: Codec,
        profile: CodecProfile,
        preset: EncodePreset,
        tuning_info: TuningInfo,
        extra_options: &ExtraOptions,
        params_require_buffer_format: bool,
        preset_config: EncodeConfig,
    ) -> (r: EncodeParams)
        requires
            preset_config.codec_config.matches_codec(codec),
            extra_options.display_aspect_ratio is None ==> width > 0 || height > 0,
        ensures
            r.init == spec_init_params(
                width,
                height,
                *texture_format,
                codec,
                preset,
                tuning_info,
                *extra_options,
                params_require_buffer_format,
            ),
            r.config == spec_built_config(preset_config, *texture_format, profile, *extra_options),
            r.config.codec_config.matches_codec(codec),
    {
        let mut init_params = InitializeParams {
            codec: codec,
            preset: preset,
            encode_width: width,
            encode_height: height,
            enable_ptd: 1,
            tuning_info: tuning_info.into(),
            // synchronous mode costs orders of magnitude more latency; the
            // ring is built around completion signals
            enable_encode_async: 1,
            enable_output_in_vidmem: 0,
            buffer_format: if params_require_buffer_format {
                *texture_format
            } else {
                NV_ENC_BUFFER_FORMAT::NV_ENC_BUFFER_FORMAT_UNDEFINED
            },
            frame_rate_num: 0,
            frame_rate_den: 0,
            dar_width: 0,
            dar_height: 0,
        };

        // needs the encoded size already in place
        extra_options.modify_init_params(&mut init_params);

        let encoder_config = build_encode_config(
            preset_config,
            texture_format,
            codec,
            profile,
            extra_options,
        );

        EncodeParams { init: init_params, config: encoder_config }
    }

    /// Retarget the average bitrate (and the VBV window, if given). The
    /// external reconfigure call then takes the updated record.
    pub fn set_average_bitrate(&mut self, bitrate: u32, vbv_buffer_size: Option<u32>)
        ensures
            *final(self) == (EncodeParams {
                config: EncodeConfig {
                    rc_params: RateControlParams {
                        average_bitrate: bitrate,
                        max_bitrate: bitrate,
                        vbv_buffer_size: match vbv_buffer_size {
                            Some(v) => v,
                            None => old(self).config.rc_params.vbv_buffer_size,
                        },
                        vbv_initial_delay: match vbv_buffer_size {
                            Some(v) => v,
                            None => old(self).config.rc_params.vbv_initial_delay,
                        },
                        ..old(self).config.rc_params
                    },
                    ..old(self).config
                },
                ..*old(self)
            }),
    {
        self.config.rc_params.average_bitrate = bitrate;
        self.config.rc_params.max_bitrate = bitrate;

        if let Some(vbv_buffer_size) = vbv_buffer_size {
            self.config.rc_params.vbv_buffer_size = vbv_buffer_size;
            self.config.rc_params.vbv_initial_delay = vbv_buffer_size;
        }
    }

    /// Width the session encodes at.
    pub fn encode_width(&self) -> (r: u32)
        ensures
            r == self.init.encode_width,
    {
        self.init.encode_width
    }

    /// Height the session encodes at.
    pub fn encode_height(&self) -> (r: u32)
        ensures
            r == self.init.encode_height,
    {
        self.init.encode_height
    }
}

/// What `build_encode_config` does to the hardware's preset defaults: the
/// profile is pinned (the preset lookup would have wiped it), the extra
/// options are applied, the chroma/bit-depth indications follow the texture
/// format, and the SEI/AUD emissions are turned off as is right for desktop
/// duplication capture.
pub open spec fn spec_built_config(
    preset_config: EncodeConfig,
    texture_format: NV_ENC_BUFFER_FORMAT,
    profile: CodecProfile,
    extra_options: ExtraOptions,
) -> EncodeConfig {
    let chroma = if texture_format == NV_ENC_BUFFER_FORMAT::NV_ENC_BUFFER_FORMAT_YUV444
        || texture_format == NV_ENC_BUFFER_FORMAT::NV_ENC_BUFFER_FORMAT_YUV444_10BIT {
        3u32
    } else {
        1u32
    };
    let depth = if texture_format == NV_ENC_BUFFER_FORMAT::NV_ENC_BUFFER_FORMAT_YUV420_10BIT
        || texture_format == NV_ENC_BUFFER_FORMAT::NV_ENC_BUFFER_FORMAT_YUV444_10BIT {
        2u32
    } else {
        0u32
    };
    EncodeConfig {
        profile: profile,
        rc_params: RateControlParams {
            enable_aq: extra_options.spatial_aq_enabled,
            zero_reorder_delay: extra_options.zero_reorder_delay_enabled,
            multi_pass: multi_pass_sys_of(extra_options.multi_pass),
            ..preset_config.rc_params
        },
        codec_config: match preset_config.codec_config {
            CodecConfig::H264(h264) => CodecConfig::H264(
                H264Config {
                    disable_spspps: extra_options.inband_csd_disabled,
                    repeat_spspps: extra_options.csd_should_repeat,
                    enable_filler_data_insertion: 0u32,
                    chroma_format_idc: chroma,
                    output_buffering_period_sei: 0u32,
                    output_picture_timing_sei: 0u32,
                    output_aud: 0u32,
                    output_frame_packing_sei: 0u32,
                    output_recovery_point_sei: 0u32,
                    enable_scalability_info_sei: 0u32,
                    disable_svc_prefix_nalu: 1u32,
                    ..h264
                },
            ),
            CodecConfig::Hevc(hevc) => CodecConfig::Hevc(
                HevcConfig {
                    disable_spspps: extra_options.inband_csd_disabled,
                    repeat_spspps: extra_options.csd_should_repeat,
                    enable_filler_data_insertion: 0u32,
                    chroma_format_idc: chroma,
                    pixel_bit_depth_minus_8: depth,
                    output_buffering_period_sei: 0u32,
                    output_picture_timing_sei: 0u32,
                    output_aud: 0u32,
                    enable_alpha_layer_encoding: 0u32,
                    ..hevc
                },
            ),
        },
    }
}

/// Build the encode configuration for a session from the hardware's preset
/// defaults (`preset_config`, obtained by the external preset lookup for
/// this codec and preset).
pub fn build_encode_config(
    preset_config: EncodeConfig,
    texture_format: &NV_ENC_BUFFER_FORMAT,
    codec: Codec,
    profile: CodecProfile,
    extra_options: &ExtraOptions,
) -> (r: EncodeConfig)
    requires
        preset_config.codec_config.matches_codec(codec),
    ensures
        r == spec_built_config(preset_config, *texture_format, profile, *extra_options),
        r.codec_config.matches_codec(codec),
{
    let mut encode_config = preset_config;

    // the profile must be set after the preset lookup, which wiped it; a
    // zeroed selection means the encoder autoselects
    encode_config.profile = profile;

    extra_options.modify_encode_config(&mut encode_config);

    let nvenc_format = *texture_format;
    match &mut encode_config.codec_config {
        CodecConfig::H264(h264_config) => {
            extra_options.modify_h264_encode_config(h264_config);

            h264_config.chroma_format_idc = chroma_format_idc(&nvenc_format);

            // settings for optimal performance when encoding duplicated
            // desktop output (these win over the filler-data option)
            h264_config.enable_filler_data_insertion = 0;
            h264_config.output_buffering_period_sei = 0;
            h264_config.output_picture_timing_sei = 0;
            h264_config.output_aud = 0;
            h264_config.output_frame_packing_sei = 0;
            h264_config.output_recovery_point_sei = 0;
            h264_config.enable_scalability_info_sei = 0;
            h264_config.disable_svc_prefix_nalu = 1;
        },
        CodecConfig::Hevc(hevc_config) => {
            extra_options.modify_hevc_encode_config(hevc_config);

            hevc_config.chroma_format_idc = chroma_format_idc(&nvenc_format);
            hevc_config.pixel_bit_depth_minus_8 = pixel_bit_depth_minus_8(&nvenc_format);

            // same settings needed for duplicated desktop output
            hevc_config.enable_filler_data_insertion = 0;
            hevc_config.output_buffering_period_sei = 0;
            hevc_config.output_picture_timing_sei = 0;
            hevc_config.output_aud = 0;
            hevc_config.enable_alpha_layer_encoding = 0;
        },
    }

    encode_config
}

} // verus!
