//! Error values surfaced by the encoder core, and their correspondence with
//! the vendor status codes.

use vstd::prelude::*;

use crate::sys::NVENCSTATUS;

verus! {

/// Every way an encoder operation can fail, including the distinguished
/// `EndOfStream` condition that the consumer observes on the terminal
/// submission.
#[derive(Debug, Clone, Copy, PartialEq, Eq, Structural)]
pub enum NvEncError {
    /// A vendor API call returned a non-success status.
    Sys(NonZeroNvencStatus),

    LibraryNotSigned,
    LibraryLoadingFailed,
    GetMaxSupportedVersionLoadingFailed,
    CreateInstanceLoadingFailed,
    UnsupportedVersion,
    MalformedFunctionList,

    UnsupportedCodec,
    CodecNotSet,
    CodecProfileNotSupported,
    EncodePresetNotSet,

    TextureBufferCreationFailed,

    EventObjectCreationFailed,
    EventObjectWaitError,
    EventObjectWaitTimeout,

    /// The producer has signaled end of stream; no further output follows.
    EndOfStream,
}

/// The non-success values of [`NVENCSTATUS`], i.e. every status but
/// `NV_ENC_SUCCESS`.
#[allow(non_camel_case_types)]
#[derive(Debug, Copy, Clone, PartialEq, Eq, Hash, Structural)]
pub enum NonZeroNvencStatus {
    NV_ENC_ERR_NO_ENCODE_DEVICE,
    NV_ENC_ERR_UNSUPPORTED_DEVICE,
    NV_ENC_ERR_INVALID_ENCODERDEVICE,
    NV_ENC_ERR_INVALID_DEVICE,
    NV_ENC_ERR_DEVICE_NOT_EXIST,
    NV_ENC_ERR_INVALID_PTR,
    NV_ENC_ERR_INVALID_EVENT,
    NV_ENC_ERR_INVALID_PARAM,
    NV_ENC_ERR_INVALID_CALL,
    NV_ENC_ERR_OUT_OF_MEMORY,
    NV_ENC_ERR_ENCODER_NOT_INITIALIZED,
    NV_ENC_ERR_UNSUPPORTED_PARAM,
    NV_ENC_ERR_LOCK_BUSY,
    NV_ENC_ERR_NOT_ENOUGH_BUFFER,
    NV_ENC_ERR_INVALID_VERSION,
    NV_ENC_ERR_MAP_FAILED,
    NV_ENC_ERR_NEED_MORE_INPUT,
    NV_ENC_ERR_ENCODER_BUSY,
    NV_ENC_ERR_EVENT_NOT_REGISTERD,
    NV_ENC_ERR_GENERIC,
    NV_ENC_ERR_INCOMPATIBLE_CLIENT_KEY,
    NV_ENC_ERR_UNIMPLEMENTED,
    NV_ENC_ERR_RESOURCE_REGISTER_FAILED,
    NV_ENC_ERR_RESOURCE_NOT_REGISTERED,
    NV_ENC_ERR_RESOURCE_NOT_MAPPED,
}

/// The status code a given non-success value stands for.
pub open spec fn status_of(e: NonZeroNvencStatus) -> NVENCSTATUS {
    match e {
        NonZeroNvencStatus::NV_ENC_ERR_NO_ENCODE_DEVICE => NVENCSTATUS::NV_ENC_ERR_NO_ENCODE_DEVICE,
        NonZeroNvencStatus::NV_ENC_ERR_UNSUPPORTED_DEVICE => NVENCSTATUS::NV_ENC_ERR_UNSUPPORTED_DEVICE,
        NonZeroNvencStatus::NV_ENC_ERR_INVALID_ENCODERDEVICE => NVENCSTATUS::NV_ENC_ERR_INVALID_ENCODERDEVICE,
        NonZeroNvencStatus::NV_ENC_ERR_INVALID_DEVICE => NVENCSTATUS::NV_ENC_ERR_INVALID_DEVICE,
        NonZeroNvencStatus::NV_ENC_ERR_DEVICE_NOT_EXIST => NVENCSTATUS::NV_ENC_ERR_DEVICE_NOT_EXIST,
        NonZeroNvencStatus::NV_ENC_ERR_INVALID_PTR => NVENCSTATUS::NV_ENC_ERR_INVALID_PTR,
        NonZeroNvencStatus::NV_ENC_ERR_INVALID_EVENT => NVENCSTATUS::NV_ENC_ERR_INVALID_EVENT,
        NonZeroNvencStatus::NV_ENC_ERR_INVALID_PARAM => NVENCSTATUS::NV_ENC_ERR_INVALID_PARAM,
        NonZeroNvencStatus::NV_ENC_ERR_INVALID_CALL => NVENCSTATUS::NV_ENC_ERR_INVALID_CALL,
        NonZeroNvencStatus::NV_ENC_ERR_OUT_OF_MEMORY => NVENCSTATUS::NV_ENC_ERR_OUT_OF_MEMORY,
        NonZeroNvencStatus::NV_ENC_ERR_ENCODER_NOT_INITIALIZED => NVENCSTATUS::NV_ENC_ERR_ENCODER_NOT_INITIALIZED,
        NonZeroNvencStatus::NV_ENC_ERR_UNSUPPORTED_PARAM => NVENCSTATUS::NV_ENC_ERR_UNSUPPORTED_PARAM,
        NonZeroNvencStatus::NV_ENC_ERR_LOCK_BUSY => NVENCSTATUS::NV_ENC_ERR_LOCK_BUSY,
        NonZeroNvencStatus::NV_ENC_ERR_NOT_ENOUGH_BUFFER => NVENCSTATUS::NV_ENC_ERR_NOT_ENOUGH_BUFFER,
        NonZeroNvencStatus::NV_ENC_ERR_INVALID_VERSION => NVENCSTATUS::NV_ENC_ERR_INVALID_VERSION,
        NonZeroNvencStatus::NV_ENC_ERR_MAP_FAILED => NVENCSTATUS::NV_ENC_ERR_MAP_FAILED,
        NonZeroNvencStatus::NV_ENC_ERR_NEED_MORE_INPUT => NVENCSTATUS::NV_ENC_ERR_NEED_MORE_INPUT,
        NonZeroNvencStatus::NV_ENC_ERR_ENCODER_BUSY => NVENCSTATUS::NV_ENC_ERR_ENCODER_BUSY,
        NonZeroNvencStatus::NV_ENC_ERR_EVENT_NOT_REGISTERD => NVENCSTATUS::NV_ENC_ERR_EVENT_NOT_REGISTERD,
        NonZeroNvencStatus::NV_ENC_ERR_GENERIC => NVENCSTATUS::NV_ENC_ERR_GENERIC,
        NonZeroNvencStatus::NV_ENC_ERR_INCOMPATIBLE_CLIENT_KEY => NVENCSTATUS::NV_ENC_ERR_INCOMPATIBLE_CLIENT_KEY,
        NonZeroNvencStatus::NV_ENC_ERR_UNIMPLEMENTED => NVENCSTATUS::NV_ENC_ERR_UNIMPLEMENTED,
        NonZeroNvencStatus::NV_ENC_ERR_RESOURCE_REGISTER_FAILED => NVENCSTATUS::NV_ENC_ERR_RESOURCE_REGISTER_FAILED,
        NonZeroNvencStatus::NV_ENC_ERR_RESOURCE_NOT_REGISTERED => NVENCSTATUS::NV_ENC_ERR_RESOURCE_NOT_REGISTERED,
        NonZeroNvencStatus::NV_ENC_ERR_RESOURCE_NOT_MAPPED => NVENCSTATUS::NV_ENC_ERR_RESOURCE_NOT_MAPPED,
    }
}

/// The non-success value a given status code stands for, or `None` for
/// `NV_ENC_SUCCESS`.
pub open spec fn error_of(status: NVENCSTATUS) -> Option<NonZeroNvencStatus> {
    match status {
        NVENCSTATUS::NV_ENC_SUCCESS => None,
        NVENCSTATUS::NV_ENC_ERR_NO_ENCODE_DEVICE => Some(NonZeroNvencStatus::NV_ENC_ERR_NO_ENCODE_DEVICE),
        NVENCSTATUS::NV_ENC_ERR_UNSUPPORTED_DEVICE => Some(NonZeroNvencStatus::NV_ENC_ERR_UNSUPPORTED_DEVICE),
        NVENCSTATUS::NV_ENC_ERR_INVALID_ENCODERDEVICE => Some(NonZeroNvencStatus::NV_ENC_ERR_INVALID_ENCODERDEVICE),
        NVENCSTATUS::NV_ENC_ERR_INVALID_DEVICE => Some(NonZeroNvencStatus::NV_ENC_ERR_INVALID_DEVICE),
        NVENCSTATUS::NV_ENC_ERR_DEVICE_NOT_EXIST => Some(NonZeroNvencStatus::NV_ENC_ERR_DEVICE_NOT_EXIST),
        NVENCSTATUS::NV_ENC_ERR_INVALID_PTR => Some(NonZeroNvencStatus::NV_ENC_ERR_INVALID_PTR),
        NVENCSTATUS::NV_ENC_ERR_INVALID_EVENT => Some(NonZeroNvencStatus::NV_ENC_ERR_INVALID_EVENT),
        NVENCSTATUS::NV_ENC_ERR_INVALID_PARAM => Some(NonZeroNvencStatus::NV_ENC_ERR_INVALID_PARAM),
        NVENCSTATUS::NV_ENC_ERR_INVALID_CALL => Some(NonZeroNvencStatus::NV_ENC_ERR_INVALID_CALL),
        NVENCSTATUS::NV_ENC_ERR_OUT_OF_MEMORY => Some(NonZeroNvencStatus::NV_ENC_ERR_OUT_OF_MEMORY),
        NVENCSTATUS::NV_ENC_ERR_ENCODER_NOT_INITIALIZED => Some(NonZeroNvencStatus::NV_ENC_ERR_ENCODER_NOT_INITIALIZED),
        NVENCSTATUS::NV_ENC_ERR_UNSUPPORTED_PARAM => Some(NonZeroNvencStatus::NV_ENC_ERR_UNSUPPORTED_PARAM),
        NVENCSTATUS::NV_ENC_ERR_LOCK_BUSY => Some(NonZeroNvencStatus::NV_ENC_ERR_LOCK_BUSY),
        NVENCSTATUS::NV_ENC_ERR_NOT_ENOUGH_BUFFER => Some(NonZeroNvencStatus::NV_ENC_ERR_NOT_ENOUGH_BUFFER),
        NVENCSTATUS::NV_ENC_ERR_INVALID_VERSION => Some(NonZeroNvencStatus::NV_ENC_ERR_INVALID_VERSION),
        NVENCSTATUS::NV_ENC_ERR_MAP_FAILED => Some(NonZeroNvencStatus::NV_ENC_ERR_MAP_FAILED),
        NVENCSTATUS::NV_ENC_ERR_NEED_MORE_INPUT => Some(NonZeroNvencStatus::NV_ENC_ERR_NEED_MORE_INPUT),
        NVENCSTATUS::NV_ENC_ERR_ENCODER_BUSY => Some(NonZeroNvencStatus::NV_ENC_ERR_ENCODER_BUSY),
        NVENCSTATUS::NV_ENC_ERR_EVENT_NOT_REGISTERD => Some(NonZeroNvencStatus::NV_ENC_ERR_EVENT_NOT_REGISTERD),
        NVENCSTATUS::NV_ENC_ERR_GENERIC => Some(NonZeroNvencStatus::NV_ENC_ERR_GENERIC),
        NVENCSTATUS::NV_ENC_ERR_INCOMPATIBLE_CLIENT_KEY => Some(NonZeroNvencStatus::NV_ENC_ERR_INCOMPATIBLE_CLIENT_KEY),
        NVENCSTATUS::NV_ENC_ERR_UNIMPLEMENTED => Some(NonZeroNvencStatus::NV_ENC_ERR_UNIMPLEMENTED),
        NVENCSTATUS::NV_ENC_ERR_RESOURCE_REGISTER_FAILED => Some(NonZeroNvencStatus::NV_ENC_ERR_RESOURCE_REGISTER_FAILED),
        NVENCSTATUS::NV_ENC_ERR_RESOURCE_NOT_REGISTERED => Some(NonZeroNvencStatus::NV_ENC_ERR_RESOURCE_NOT_REGISTERED),
        NVENCSTATUS::NV_ENC_ERR_RESOURCE_NOT_MAPPED => Some(NonZeroNvencStatus::NV_ENC_ERR_RESOURCE_NOT_MAPPED),
    }
}

/// The two tables above are inverse to one another.
pub proof fn lemma_status_tables_inverse()
    ensures
        forall|e: NonZeroNvencStatus| #[trigger] error_of(status_of(e)) == Some(e),
        forall|s: NVENCSTATUS|
            s != NVENCSTATUS::NV_ENC_SUCCESS ==> #[trigger] error_of(s) is Some
                && status_of(error_of(s)->Some_0) == s,
        forall|s: NVENCSTATUS| s == NVENCSTATUS::NV_ENC_SUCCESS <==> #[trigger] error_of(s) is None,
{
}

impl NvEncError {
    /// Create a `NvEncError` from a `NVENCSTATUS`. Returns `None` if `status` is
    /// NVENCSTATUS::NV_ENC_SUCCESS.
    #[inline]
    pub fn from_nvenc_status(status: NVENCSTATUS) -> (r: Option<Self>)
        ensures
            r == (match error_of(status) {
                Some(e) => Some(NvEncError::Sys(e)),
                None => None::<NvEncError>,
            }),
    {
        match NonZeroNvencStatus::from_nvenc_status(status) {
            Some(status) => Some(NvEncError::Sys(status)),
            None => None,
        }
    }

    /// Try to convert `NvEncError` into a `NVENCSTATUS`.
    #[inline]
    pub fn into_nvenc_status(self) -> (r: Option<NVENCSTATUS>)
        ensures
            r == (match self {
                NvEncError::Sys(e) => Some(status_of(e)),
                _ => None::<NVENCSTATUS>,
            }),
    {
        match self {
            NvEncError::Sys(status) => Some(status.into_nvenc_status()),
            _ => None,
        }
    }
}

impl NonZeroNvencStatus {
    /// Create a `NonZeroNvencStatus` from a `NVENCSTATUS`. Returns `None` if `status` is
    /// NVENCSTATUS::NV_ENC_SUCCESS.
    #[inline]
    pub fn from_nvenc_status(status: NVENCSTATUS) -> (r: Option<NonZeroNvencStatus>)
        ensures
            r == error_of(status),
    {
        match status {
            NVENCSTATUS::NV_ENC_SUCCESS => None,
            NVENCSTATUS::NV_ENC_ERR_NO_ENCODE_DEVICE => Some(NonZeroNvencStatus::NV_ENC_ERR_NO_ENCODE_DEVICE),
            NVENCSTATUS::NV_ENC_ERR_UNSUPPORTED_DEVICE => Some(NonZeroNvencStatus::NV_ENC_ERR_UNSUPPORTED_DEVICE),
            NVENCSTATUS::NV_ENC_ERR_INVALID_ENCODERDEVICE => Some(NonZeroNvencStatus::NV_ENC_ERR_INVALID_ENCODERDEVICE),
            NVENCSTATUS::NV_ENC_ERR_INVALID_DEVICE => Some(NonZeroNvencStatus::NV_ENC_ERR_INVALID_DEVICE),
            NVENCSTATUS::NV_ENC_ERR_DEVICE_NOT_EXIST => Some(NonZeroNvencStatus::NV_ENC_ERR_DEVICE_NOT_EXIST),
            NVENCSTATUS::NV_ENC_ERR_INVALID_PTR => Some(NonZeroNvencStatus::NV_ENC_ERR_INVALID_PTR),
            NVENCSTATUS::NV_ENC_ERR_INVALID_EVENT => Some(NonZeroNvencStatus::NV_ENC_ERR_INVALID_EVENT),
            NVENCSTATUS::NV_ENC_ERR_INVALID_PARAM => Some(NonZeroNvencStatus::NV_ENC_ERR_INVALID_PARAM),
            NVENCSTATUS::NV_ENC_ERR_INVALID_CALL => Some(NonZeroNvencStatus::NV_ENC_ERR_INVALID_CALL),
            NVENCSTATUS::NV_ENC_ERR_OUT_OF_MEMORY => Some(NonZeroNvencStatus::NV_ENC_ERR_OUT_OF_MEMORY),
            NVENCSTATUS::NV_ENC_ERR_ENCODER_NOT_INITIALIZED => Some(NonZeroNvencStatus::NV_ENC_ERR_ENCODER_NOT_INITIALIZED),
            NVENCSTATUS::NV_ENC_ERR_UNSUPPORTED_PARAM => Some(NonZeroNvencStatus::NV_ENC_ERR_UNSUPPORTED_PARAM),
            NVENCSTATUS::NV_ENC_ERR_LOCK_BUSY => Some(NonZeroNvencStatus::NV_ENC_ERR_LOCK_BUSY),
            NVENCSTATUS::NV_ENC_ERR_NOT_ENOUGH_BUFFER => Some(NonZeroNvencStatus::NV_ENC_ERR_NOT_ENOUGH_BUFFER),
            NVENCSTATUS::NV_ENC_ERR_INVALID_VERSION => Some(NonZeroNvencStatus::NV_ENC_ERR_INVALID_VERSION),
            NVENCSTATUS::NV_ENC_ERR_MAP_FAILED => Some(NonZeroNvencStatus::NV_ENC_ERR_MAP_FAILED),
            NVENCSTATUS::NV_ENC_ERR_NEED_MORE_INPUT => Some(NonZeroNvencStatus::NV_ENC_ERR_NEED_MORE_INPUT),
            NVENCSTATUS::NV_ENC_ERR_ENCODER_BUSY => Some(NonZeroNvencStatus::NV_ENC_ERR_ENCODER_BUSY),
            NVENCSTATUS::NV_ENC_ERR_EVENT_NOT_REGISTERD => Some(NonZeroNvencStatus::NV_ENC_ERR_EVENT_NOT_REGISTERD),
            NVENCSTATUS::NV_ENC_ERR_GENERIC => Some(NonZeroNvencStatus::NV_ENC_ERR_GENERIC),
            NVENCSTATUS::NV_ENC_ERR_INCOMPATIBLE_CLIENT_KEY => Some(NonZeroNvencStatus::NV_ENC_ERR_INCOMPATIBLE_CLIENT_KEY),
            NVENCSTATUS::NV_ENC_ERR_UNIMPLEMENTED => Some(NonZeroNvencStatus::NV_ENC_ERR_UNIMPLEMENTED),
            NVENCSTATUS::NV_ENC_ERR_RESOURCE_REGISTER_FAILED => Some(NonZeroNvencStatus::NV_ENC_ERR_RESOURCE_REGISTER_FAILED),
            NVENCSTATUS::NV_ENC_ERR_RESOURCE_NOT_REGISTERED => Some(NonZeroNvencStatus::NV_ENC_ERR_RESOURCE_NOT_REGISTERED),
            NVENCSTATUS::NV_ENC_ERR_RESOURCE_NOT_MAPPED => Some(NonZeroNvencStatus::NV_ENC_ERR_RESOURCE_NOT_MAPPED),
        }
    }

    /// Convert `NonZeroNvencStatus` back into the `NVENCSTATUS` it stands for.
    #[inline]
    pub fn into_nvenc_status(self) -> (r: NVENCSTATUS)
        ensures
            r == status_of(self),
    {
        match self {
            NonZeroNvencStatus::NV_ENC_ERR_NO_ENCODE_DEVICE => NVENCSTATUS::NV_ENC_ERR_NO_ENCODE_DEVICE,
            NonZeroNvencStatus::NV_ENC_ERR_UNSUPPORTED_DEVICE => NVENCSTATUS::NV_ENC_ERR_UNSUPPORTED_DEVICE,
            NonZeroNvencStatus::NV_ENC_ERR_INVALID_ENCODERDEVICE => NVENCSTATUS::NV_ENC_ERR_INVALID_ENCODERDEVICE,
            NonZeroNvencStatus::NV_ENC_ERR_INVALID_DEVICE => NVENCSTATUS::NV_ENC_ERR_INVALID_DEVICE,
            NonZeroNvencStatus::NV_ENC_ERR_DEVICE_NOT_EXIST => NVENCSTATUS::NV_ENC_ERR_DEVICE_NOT_EXIST,
            NonZeroNvencStatus::NV_ENC_ERR_INVALID_PTR => NVENCSTATUS::NV_ENC_ERR_INVALID_PTR,
            NonZeroNvencStatus::NV_ENC_ERR_INVALID_EVENT => NVENCSTATUS::NV_ENC_ERR_INVALID_EVENT,
            NonZeroNvencStatus::NV_ENC_ERR_INVALID_PARAM => NVENCSTATUS::NV_ENC_ERR_INVALID_PARAM,
            NonZeroNvencStatus::NV_ENC_ERR_INVALID_CALL => NVENCSTATUS::NV_ENC_ERR_INVALID_CALL,
            NonZeroNvencStatus::NV_ENC_ERR_OUT_OF_MEMORY => NVENCSTATUS::NV_ENC_ERR_OUT_OF_MEMORY,
            NonZeroNvencStatus::NV_ENC_ERR_ENCODER_NOT_INITIALIZED => NVENCSTATUS::NV_ENC_ERR_ENCODER_NOT_INITIALIZED,
            NonZeroNvencStatus::NV_ENC_ERR_UNSUPPORTED_PARAM => NVENCSTATUS::NV_ENC_ERR_UNSUPPORTED_PARAM,
            NonZeroNvencStatus::NV_ENC_ERR_LOCK_BUSY => NVENCSTATUS::NV_ENC_ERR_LOCK_BUSY,
            NonZeroNvencStatus::NV_ENC_ERR_NOT_ENOUGH_BUFFER => NVENCSTATUS::NV_ENC_ERR_NOT_ENOUGH_BUFFER,
            NonZeroNvencStatus::NV_ENC_ERR_INVALID_VERSION => NVENCSTATUS::NV_ENC_ERR_INVALID_VERSION,
            NonZeroNvencStatus::NV_ENC_ERR_MAP_FAILED => NVENCSTATUS::NV_ENC_ERR_MAP_FAILED,
            NonZeroNvencStatus::NV_ENC_ERR_NEED_MORE_INPUT => NVENCSTATUS::NV_ENC_ERR_NEED_MORE_INPUT,
            NonZeroNvencStatus::NV_ENC_ERR_ENCODER_BUSY => NVENCSTATUS::NV_ENC_ERR_ENCODER_BUSY,
            NonZeroNvencStatus::NV_ENC_ERR_EVENT_NOT_REGISTERD => NVENCSTATUS::NV_ENC_ERR_EVENT_NOT_REGISTERD,
            NonZeroNvencStatus::NV_ENC_ERR_GENERIC => NVENCSTATUS::NV_ENC_ERR_GENERIC,
            NonZeroNvencStatus::NV_ENC_ERR_INCOMPATIBLE_CLIENT_KEY => NVENCSTATUS::NV_ENC_ERR_INCOMPATIBLE_CLIENT_KEY,
            NonZeroNvencStatus::NV_ENC_ERR_UNIMPLEMENTED => NVENCSTATUS::NV_ENC_ERR_UNIMPLEMENTED,
            NonZeroNvencStatus::NV_ENC_ERR_RESOURCE_REGISTER_FAILED => NVENCSTATUS::NV_ENC_ERR_RESOURCE_REGISTER_FAILED,
            NonZeroNvencStatus::NV_ENC_ERR_RESOURCE_NOT_REGISTERED => NVENCSTATUS::NV_ENC_ERR_RESOURCE_NOT_REGISTERED,
            NonZeroNvencStatus::NV_ENC_ERR_RESOURCE_NOT_MAPPED => NVENCSTATUS::NV_ENC_ERR_RESOURCE_NOT_MAPPED,
        }
    }
}

} // verus!
