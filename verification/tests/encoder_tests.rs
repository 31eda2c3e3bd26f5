use nvenc::config::build_encode_config;
use nvenc::config::chroma_format_idc;
use nvenc::config::pixel_bit_depth_minus_8;
use nvenc::config::CodecConfig;
use nvenc::config::HevcConfig;
use nvenc::sys::NVENCSTATUS;
use nvenc::sys::NV_ENC_BUFFER_FORMAT;
use nvenc::sys::NV_ENC_MULTI_PASS;
use nvenc::sys::NV_ENC_PIC_STRUCT;
use nvenc::sys::NV_ENC_TUNING_INFO;
use nvenc::sys::NVENCAPI_STRUCT_VERSION;
use nvenc::Codec;
use nvenc::CodecProfile;
use nvenc::DispatchRing;
use nvenc::EncodeConfig;
use nvenc::EncodePreset;
use nvenc::EncoderBuilder;
use nvenc::EncoderInput;
use nvenc::EncoderOutput;
use nvenc::EventObject;
use nvenc::ExtraOptions;
use nvenc::MultiPassSetting;
use nvenc::NvEncError;
use nvenc::RingError;
use nvenc::Slot;
use nvenc::TuningInfo;

fn accept(_i: usize) -> Result<(), NvEncError> {
    Ok(())
}

fn h264_preset_config() -> EncodeConfig {
    EncodeConfig {
        profile: CodecProfile::Autoselect,
        rc_params: nvenc::config::RateControlParams {
            average_bitrate: 5_000_000,
            max_bitrate: 8_000_000,
            vbv_buffer_size: 0,
            vbv_initial_delay: 0,
            enable_aq: 0,
            zero_reorder_delay: 0,
            multi_pass: NV_ENC_MULTI_PASS::NV_ENC_MULTI_PASS_DISABLED,
        },
        codec_config: nvenc::config::CodecConfig::H264(nvenc::config::H264Config {
            disable_spspps: 0,
            repeat_spspps: 0,
            enable_filler_data_insertion: 0,
            chroma_format_idc: 0,
            output_buffering_period_sei: 1,
            output_picture_timing_sei: 1,
            output_aud: 1,
            output_frame_packing_sei: 1,
            output_recovery_point_sei: 1,
            enable_scalability_info_sei: 1,
            disable_svc_prefix_nalu: 0,
        }),
    }
}

fn built_builder() -> EncoderBuilder {
    let mut builder = EncoderBuilder::new(0xB0).unwrap();
    builder
        .with_codec(Codec::H264, &vec![Codec::H264, Codec::Hevc])
        .unwrap();
    builder
        .with_encode_preset(EncodePreset::P4, &vec![EncodePreset::P1, EncodePreset::P4])
        .unwrap();
    builder
}

#[test]
fn struct_version_packs_the_fields() {
    assert_eq!(NVENCAPI_STRUCT_VERSION(1), 0x7001_000A);
    assert_eq!(NVENCAPI_STRUCT_VERSION(7), 0x7007_000A);
}

#[test]
fn version_support_threshold() {
    // the API version word is major << 4 | minor
    assert!(nvenc::is_version_supported(0xA0));
    assert!(nvenc::is_version_supported(0xB1));
    assert!(!nvenc::is_version_supported(0x90));
    assert!(EncoderBuilder::new(0x90).is_err());
    assert_eq!(
        EncoderBuilder::new(0x90).unwrap_err(),
        NvEncError::UnsupportedVersion
    );
}

#[test]
fn tuning_and_multipass_round_trip() {
    let tunings = [
        TuningInfo::Undefined,
        TuningInfo::HighQuality,
        TuningInfo::LowLatency,
        TuningInfo::UltraLowLatency,
        TuningInfo::Lossless,
    ];
    for t in tunings {
        assert_eq!(TuningInfo::from(t.into()), t);
    }
    assert_eq!(
        TuningInfo::into(TuningInfo::LowLatency),
        NV_ENC_TUNING_INFO::NV_ENC_TUNING_INFO_LOW_LATENCY
    );

    let passes = [
        MultiPassSetting::Disabled,
        MultiPassSetting::QuarterResolution,
        MultiPassSetting::FullResolution,
    ];
    for m in passes {
        assert_eq!(MultiPassSetting::from(m.into()), m);
    }
    assert_eq!(
        MultiPassSetting::into(MultiPassSetting::FullResolution),
        NV_ENC_MULTI_PASS::NV_ENC_TWO_PASS_FULL_RESOLUTION
    );
}

#[test]
fn chroma_and_bit_depth_follow_the_format() {
    let yuv444 = NV_ENC_BUFFER_FORMAT::NV_ENC_BUFFER_FORMAT_YUV444;
    let yuv444_10 = NV_ENC_BUFFER_FORMAT::NV_ENC_BUFFER_FORMAT_YUV444_10BIT;
    let yuv420_10 = NV_ENC_BUFFER_FORMAT::NV_ENC_BUFFER_FORMAT_YUV420_10BIT;
    let nv12 = NV_ENC_BUFFER_FORMAT::NV_ENC_BUFFER_FORMAT_NV12;
    let argb = NV_ENC_BUFFER_FORMAT::NV_ENC_BUFFER_FORMAT_ARGB;

    assert_eq!(chroma_format_idc(&yuv444), 3);
    assert_eq!(chroma_format_idc(&yuv444_10), 3);
    assert_eq!(chroma_format_idc(&yuv420_10), 1);
    assert_eq!(chroma_format_idc(&nv12), 1);
    assert_eq!(chroma_format_idc(&argb), 1);

    assert_eq!(pixel_bit_depth_minus_8(&yuv420_10), 2);
    assert_eq!(pixel_bit_depth_minus_8(&yuv444_10), 2);
    assert_eq!(pixel_bit_depth_minus_8(&nv12), 0);
    assert_eq!(pixel_bit_depth_minus_8(&yuv444), 0);
}

#[test]
fn builder_refuses_missing_selections() {
    let mut builder = EncoderBuilder::new(0xA0).unwrap();
    assert_eq!(
        builder.with_codec_profile(CodecProfile::H264High, &vec![CodecProfile::H264High]),
        Err(NvEncError::CodecNotSet)
    );
    assert_eq!(
        builder.with_encode_preset(EncodePreset::P4, &vec![EncodePreset::P4]),
        Err(NvEncError::CodecNotSet)
    );
    assert_eq!(
        builder.with_codec(Codec::Hevc, &vec![Codec::H264]),
        Err(NvEncError::UnsupportedCodec)
    );
    let err = match builder.clone().build(
        1920,
        1080,
        NV_ENC_BUFFER_FORMAT::NV_ENC_BUFFER_FORMAT_NV12,
        false,
        h264_preset_config(),
    ) {
        Err(e) => e,
        Ok(_) => panic!("build accepted a builder without a codec"),
    };
    assert_eq!(err, NvEncError::CodecNotSet);

    builder
        .with_codec(Codec::H264, &vec![Codec::H264])
        .unwrap();
    assert_eq!(
        builder.with_codec_profile(CodecProfile::HevcMain, &vec![CodecProfile::H264High]),
        Err(NvEncError::CodecProfileNotSupported)
    );
    // an unsupported preset is reported with the profile error, as ever
    assert_eq!(
        builder.with_encode_preset(EncodePreset::P7, &vec![EncodePreset::P4]),
        Err(NvEncError::CodecProfileNotSupported)
    );
    let err = match builder.build(
        1920,
        1080,
        NV_ENC_BUFFER_FORMAT::NV_ENC_BUFFER_FORMAT_NV12,
        false,
        h264_preset_config(),
    ) {
        Err(e) => e,
        Ok(_) => panic!("build accepted a builder without a preset"),
    };
    assert_eq!(err, NvEncError::EncodePresetNotSet);
}

#[test]
fn build_assembles_params_and_ring() {
    let mut builder = built_builder();
    builder
        .with_codec_profile(
            CodecProfile::H264High,
            &vec![CodecProfile::H264High, CodecProfile::H264Main],
        )
        .unwrap();
    builder.with_tuning_info(TuningInfo::LowLatency).unwrap();
    builder.spatial_aq(true).unwrap();
    builder.repeat_csd(true).unwrap();
    builder.inband_csd(false).unwrap();
    builder.set_multi_pass(MultiPassSetting::QuarterResolution).unwrap();

    let (input, _output, ring) = builder
        .build(
            1920,
            1080,
            NV_ENC_BUFFER_FORMAT::NV_ENC_BUFFER_FORMAT_NV12,
            false,
            h264_preset_config(),
        )
        .unwrap();

    assert_eq!(ring.capacity(), nvenc::BUFFER_SIZE);
    assert_eq!(ring.capacity(), 8);

    let init = input.encode_params.init;
    assert_eq!(init.codec, Codec::H264);
    assert_eq!(init.preset, EncodePreset::P4);
    assert_eq!(init.encode_width, 1920);
    assert_eq!(init.encode_height, 1080);
    assert_eq!(init.enable_ptd, 1);
    assert_eq!(init.enable_encode_async, 1);
    assert_eq!(init.enable_output_in_vidmem, 0);
    assert_eq!(
        init.tuning_info,
        NV_ENC_TUNING_INFO::NV_ENC_TUNING_INFO_LOW_LATENCY
    );
    // no explicit aspect ratio: reduced from 1920x1080 with gcd 120
    assert_eq!((init.dar_width, init.dar_height), (16, 9));
    // no filler data: the frame rate is left unset
    assert_eq!((init.frame_rate_num, init.frame_rate_den), (0, 0));

    let config = input.encode_params.config;
    assert_eq!(config.profile, CodecProfile::H264High);
    assert_eq!(config.rc_params.enable_aq, 1);
    assert_eq!(config.rc_params.zero_reorder_delay, 0);
    assert_eq!(
        config.rc_params.multi_pass,
        NV_ENC_MULTI_PASS::NV_ENC_TWO_PASS_QUARTER_RESOLUTION
    );
    // preset defaults that nothing overrode are kept
    assert_eq!(config.rc_params.average_bitrate, 5_000_000);
    match config.codec_config {
        nvenc::config::CodecConfig::H264(h264) => {
            assert_eq!(h264.disable_spspps, 1);
            assert_eq!(h264.repeat_spspps, 1);
            assert_eq!(h264.chroma_format_idc, 1);
            assert_eq!(h264.enable_filler_data_insertion, 0);
            assert_eq!(h264.output_buffering_period_sei, 0);
            assert_eq!(h264.output_picture_timing_sei, 0);
            assert_eq!(h264.output_aud, 0);
            assert_eq!(h264.output_frame_packing_sei, 0);
            assert_eq!(h264.output_recovery_point_sei, 0);
            assert_eq!(h264.enable_scalability_info_sei, 0);
            assert_eq!(h264.disable_svc_prefix_nalu, 1);
        }
        nvenc::config::CodecConfig::Hevc(_) => panic!("expected an H.264 configuration"),
    }

    let pic = input.encode_pic_params;
    assert_eq!(pic.input_width, 1920);
    assert_eq!(pic.input_height, 1080);
    assert_eq!(pic.input_pitch, 1920);
    assert_eq!(
        pic.buffer_format,
        NV_ENC_BUFFER_FORMAT::NV_ENC_BUFFER_FORMAT_NV12
    );
    assert_eq!(
        pic.picture_struct,
        NV_ENC_PIC_STRUCT::NV_ENC_PIC_STRUCT_FRAME
    );
    assert_eq!(pic.encode_pic_flags, 0);
}

#[test]
fn explicit_aspect_ratio_and_filler_frame_rate() {
    let mut builder = built_builder();
    builder.display_aspect_ratio(Some((4, 3))).unwrap();
    builder.filler_data_insertion(Some((60, 1))).unwrap();
    let (input, _output, _ring) = builder
        .build(
            640,
            480,
            NV_ENC_BUFFER_FORMAT::NV_ENC_BUFFER_FORMAT_NV12,
            false,
            h264_preset_config(),
        )
        .unwrap();
    let init = input.encode_params.init;
    assert_eq!((init.dar_width, init.dar_height), (4, 3));
    assert_eq!((init.frame_rate_num, init.frame_rate_den), (60, 1));
}

#[test]
fn force_idr_sets_and_encode_clears_the_flags() {
    let builder = built_builder();
    let (mut input, _output, mut ring) = builder
        .build(
            1280,
            720,
            NV_ENC_BUFFER_FORMAT::NV_ENC_BUFFER_FORMAT_NV12,
            false,
            h264_preset_config(),
        )
        .unwrap();

    input.force_idr_on_next();
    // force-IDR also asks for inline codec headers
    assert_eq!(input.encode_pic_params.encode_pic_flags, 0x2 | 0x4);

    let index = input.encode_frame(&mut ring, 42, 1000, accept).unwrap();
    assert_eq!(index, 0);
    assert_eq!(input.encode_pic_params.encode_pic_flags, 0);
    assert_eq!(input.encode_pic_params.input_timestamp, 1000);
}

#[test]
fn end_encode_submits_the_terminal_frame() {
    let builder = built_builder();
    let (mut input, output, mut ring) = builder
        .build(
            1280,
            720,
            NV_ENC_BUFFER_FORMAT::NV_ENC_BUFFER_FORMAT_NV12,
            false,
            h264_preset_config(),
        )
        .unwrap();

    input.encode_frame(&mut ring, 42, 1, accept).unwrap();
    input.end_encode(&mut ring, accept).unwrap();
    assert_eq!(input.encode_pic_params.encode_pic_flags, 0x8);

    let consume = |s: &Slot| -> Result<u64, NvEncError> { Ok(s.timestamp) };
    assert!(ring.set_completion(0, b"frame".to_vec()));
    assert!(ring.set_completion(1, Vec::new()));
    assert_eq!(output.wait_for_output(&mut ring, consume), Ok(1));
    assert_eq!(
        output.wait_for_output(&mut ring, consume),
        Err(RingError::Encoder(NvEncError::EndOfStream))
    );
}

#[test]
fn update_average_bitrate_retargets_rate_control() {
    let builder = built_builder();
    let (mut input, _output, _ring) = builder
        .build(
            1280,
            720,
            NV_ENC_BUFFER_FORMAT::NV_ENC_BUFFER_FORMAT_NV12,
            false,
            h264_preset_config(),
        )
        .unwrap();

    input.update_average_bitrate(2_000_000, Some(1_000_000));
    let rc = input.encode_params.config.rc_params;
    assert_eq!(rc.average_bitrate, 2_000_000);
    assert_eq!(rc.max_bitrate, 2_000_000);
    assert_eq!(rc.vbv_buffer_size, 1_000_000);
    assert_eq!(rc.vbv_initial_delay, 1_000_000);

    input.update_average_bitrate(3_000_000, None);
    let rc = input.encode_params.config.rc_params;
    assert_eq!(rc.average_bitrate, 3_000_000);
    assert_eq!(rc.vbv_buffer_size, 1_000_000);
}

#[test]
fn encode_params_getters_report_the_size() {
    let builder = built_builder();
    let (input, _output, _ring) = builder
        .build(
            800,
            600,
            NV_ENC_BUFFER_FORMAT::NV_ENC_BUFFER_FORMAT_NV12,
            false,
            h264_preset_config(),
        )
        .unwrap();
    assert_eq!(input.encode_params.encode_width(), 800);
    assert_eq!(input.encode_params.encode_height(), 600);
}

#[test]
fn hevc_config_gets_depth_and_chroma() {
    let preset = EncodeConfig {
        profile: CodecProfile::Autoselect,
        rc_params: h264_preset_config().rc_params,
        codec_config: CodecConfig::Hevc(HevcConfig {
            disable_spspps: 0,
            repeat_spspps: 0,
            enable_filler_data_insertion: 0,
            chroma_format_idc: 0,
            pixel_bit_depth_minus_8: 0,
            output_buffering_period_sei: 1,
            output_picture_timing_sei: 1,
            output_aud: 1,
            enable_alpha_layer_encoding: 1,
        }),
    };
    let opts = ExtraOptions::default();
    let built = build_encode_config(
        preset,
        &NV_ENC_BUFFER_FORMAT::NV_ENC_BUFFER_FORMAT_YUV444_10BIT,
        Codec::Hevc,
        CodecProfile::HevcMain10,
        &opts,
    );
    assert_eq!(built.profile, CodecProfile::HevcMain10);
    match built.codec_config {
        CodecConfig::Hevc(hevc) => {
            assert_eq!(hevc.chroma_format_idc, 3);
            assert_eq!(hevc.pixel_bit_depth_minus_8, 2);
            assert_eq!(hevc.output_aud, 0);
            assert_eq!(hevc.enable_alpha_layer_encoding, 0);
        }
        CodecConfig::H264(_) => panic!("expected an HEVC configuration"),
    }
}

#[test]
fn event_object_is_a_one_shot_signal() {
    let mut event = EventObject::new();
    assert!(!event.is_set());
    assert!(!event.try_wait());
    event.set();
    assert!(event.is_set());
    assert!(event.try_wait());
    // auto-reset: consumed by the wait
    assert!(!event.is_set());
    event.set();
    event.reset();
    assert!(!event.is_set());
}

#[test]
fn consumer_handle_delegates_to_the_ring() {
    let mut ring = DispatchRing::new(2);
    let output = EncoderOutput::new();
    let consume = |s: &Slot| -> Result<Vec<u8>, NvEncError> { Ok(s.bitstream.clone()) };
    assert_eq!(
        output.wait_for_output(&mut ring, consume),
        Err(RingError::WouldBlock)
    );
    ring.submit_frame(
        nvenc::FrameRequest {
            registered_input: 1,
            timestamp: 1,
            end_of_stream: false,
        },
        accept,
    )
    .unwrap();
    assert!(ring.set_completion(0, b"X".to_vec()));
    assert_eq!(
        output.wait_for_output(&mut ring, consume),
        Ok(b"X".to_vec())
    );
}

#[test]
fn status_enum_models_the_full_table() {
    // the status table starts at success and carries 25 error values
    assert_eq!(NVENCSTATUS::NV_ENC_SUCCESS as i32, 0);
    assert_eq!(NVENCSTATUS::NV_ENC_ERR_RESOURCE_NOT_MAPPED as i32, 25);
}
