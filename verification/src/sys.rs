//! Plain-value model of the vendor API surface that the encoder core reads
//! and writes: status codes, enumeration types, picture flags, and the API
//! version scheme. Opaque device pointers and the raw parameter records stay
//! with the external collaborator; only the fields the core's logic depends
//! on are represented here.

use vstd::prelude::*;

verus! {

/// Major version of the encode API this crate targets.
pub const NVENCAPI_MAJOR_VERSION: u32 = 10;

/// Minor version of the encode API this crate targets.
pub const NVENCAPI_MINOR_VERSION: u32 = 0;

/// Packed API version word: major in the low bits, minor in bits 24..32.
pub const NVENCAPI_VERSION: u32 = NVENCAPI_MAJOR_VERSION | (NVENCAPI_MINOR_VERSION << 24);

/// Version word for an API struct: the API version, the struct's own
/// revision in bits 16..28, and a fixed 0x7 marker in the top nibble.
#[allow(non_snake_case)]
pub fn NVENCAPI_STRUCT_VERSION(ver: u32) -> (r: u32)
    ensures
        r == (NVENCAPI_VERSION | (ver << 16) | (0x7u32 << 28)),
{
    NVENCAPI_VERSION | (ver << 16) | (0x7u32 << 28)
}

/// Status code returned by every call of the encode API.
/// `NV_ENC_SUCCESS` is the first value; every other value is an error.
#[allow(non_camel_case_types)]
#[derive(Debug, Copy, Clone, PartialEq, Eq, Structural)]
pub enum NVENCSTATUS {
    NV_ENC_SUCCESS,
    NV_ENC_ERR_NO_ENCODE_DEVICE,
    NV_ENC_ERR_UNSUPPORTED_DEVICE,
    NV_ENC_ERR_INVALID_ENCODERDEVICE,
    NV_ENC_ERR_INVALID_DEVICE,
    NV_ENC_ERR_DEVICE_NOT_EXIST,
    NV_ENC_ERR_INVALID_PTR,
    NV_ENC_ERR_INVALID_EVENT,
    NV_ENC_ERR_INVALID_PARAM,
    NV_ENC_ERR_INVALID_CALL,
    NV_ENC_ERR_OUT_OF_MEMORY,
    NV_ENC_ERR_ENCODER_NOT_INITIALIZED,
    NV_ENC_ERR_UNSUPPORTED_PARAM,
    NV_ENC_ERR_LOCK_BUSY,
    NV_ENC_ERR_NOT_ENOUGH_BUFFER,
    NV_ENC_ERR_INVALID_VERSION,
    NV_ENC_ERR_MAP_FAILED,
    NV_ENC_ERR_NEED_MORE_INPUT,
    NV_ENC_ERR_ENCODER_BUSY,
    NV_ENC_ERR_EVENT_NOT_REGISTERD,
    NV_ENC_ERR_GENERIC,
    NV_ENC_ERR_INCOMPATIBLE_CLIENT_KEY,
    NV_ENC_ERR_UNIMPLEMENTED,
    NV_ENC_ERR_RESOURCE_REGISTER_FAILED,
    NV_ENC_ERR_RESOURCE_NOT_REGISTERED,
    NV_ENC_ERR_RESOURCE_NOT_MAPPED,
}

/// Tuning target selected when an encode session is initialized.
#[allow(non_camel_case_types)]
#[derive(Debug, Copy, Clone, PartialEq, Eq, Structural)]
pub enum NV_ENC_TUNING_INFO {
    NV_ENC_TUNING_INFO_UNDEFINED,
    NV_ENC_TUNING_INFO_HIGH_QUALITY,
    NV_ENC_TUNING_INFO_LOW_LATENCY,
    NV_ENC_TUNING_INFO_ULTRA_LOW_LATENCY,
    NV_ENC_TUNING_INFO_LOSSLESS,
    NV_ENC_TUNING_INFO_COUNT,
}

/// Multi-pass rate-control mode.
#[allow(non_camel_case_types)]
#[derive(Debug, Copy, Clone, PartialEq, Eq, Structural)]
pub enum NV_ENC_MULTI_PASS {
    NV_ENC_MULTI_PASS_DISABLED,
    NV_ENC_TWO_PASS_QUARTER_RESOLUTION,
    NV_ENC_TWO_PASS_FULL_RESOLUTION,
}

/// Pixel layout of an input texture handed to the encoder.
#[allow(non_camel_case_types)]
#[derive(Debug, Copy, Clone, PartialEq, Eq, Structural)]
pub enum NV_ENC_BUFFER_FORMAT {
    NV_ENC_BUFFER_FORMAT_UNDEFINED,
    NV_ENC_BUFFER_FORMAT_NV12,
    NV_ENC_BUFFER_FORMAT_YV12,
    NV_ENC_BUFFER_FORMAT_IYUV,
    NV_ENC_BUFFER_FORMAT_YUV444,
    NV_ENC_BUFFER_FORMAT_YUV420_10BIT,
    NV_ENC_BUFFER_FORMAT_YUV444_10BIT,
    NV_ENC_BUFFER_FORMAT_ARGB,
    NV_ENC_BUFFER_FORMAT_ARGB10,
    NV_ENC_BUFFER_FORMAT_AYUV,
    NV_ENC_BUFFER_FORMAT_ABGR,
    NV_ENC_BUFFER_FORMAT_ABGR10,
}

/// Field/frame structure of a submitted picture.
#[allow(non_camel_case_types)]
#[derive(Debug, Copy, Clone, PartialEq, Eq, Structural)]
pub enum NV_ENC_PIC_STRUCT {
    NV_ENC_PIC_STRUCT_FRAME,
    NV_ENC_PIC_STRUCT_FIELD_TOP_BOTTOM,
    NV_ENC_PIC_STRUCT_FIELD_BOTTOM_TOP,
}

/// Picture flag: force the next picture to be an intra picture.
pub const NV_ENC_PIC_FLAG_FORCEINTRA: u32 = 0x1;

/// Picture flag: force the next picture to be an IDR picture.
pub const NV_ENC_PIC_FLAG_FORCEIDR: u32 = 0x2;

/// Picture flag: emit the sequence and picture headers with this picture.
pub const NV_ENC_PIC_FLAG_OUTPUT_SPSPPS: u32 = 0x4;

/// Picture flag: this submission closes the stream and carries no picture.
pub const NV_ENC_PIC_FLAG_EOS: u32 = 0x8;

} // verus!
