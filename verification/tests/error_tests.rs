use nvenc::sys::NVENCSTATUS;
use nvenc::NonZeroNvencStatus;
use nvenc::NvEncError;

#[test]
fn equiv_to_nvencstatus() {
    let pairs = [
        (
            NonZeroNvencStatus::NV_ENC_ERR_NO_ENCODE_DEVICE,
            NVENCSTATUS::NV_ENC_ERR_NO_ENCODE_DEVICE,
        ),
        (
            NonZeroNvencStatus::NV_ENC_ERR_UNSUPPORTED_DEVICE,
            NVENCSTATUS::NV_ENC_ERR_UNSUPPORTED_DEVICE,
        ),
        (
            NonZeroNvencStatus::NV_ENC_ERR_INVALID_ENCODERDEVICE,
            NVENCSTATUS::NV_ENC_ERR_INVALID_ENCODERDEVICE,
        ),
        (
            NonZeroNvencStatus::NV_ENC_ERR_INVALID_DEVICE,
            NVENCSTATUS::NV_ENC_ERR_INVALID_DEVICE,
        ),
        (
            NonZeroNvencStatus::NV_ENC_ERR_DEVICE_NOT_EXIST,
            NVENCSTATUS::NV_ENC_ERR_DEVICE_NOT_EXIST,
        ),
        (
            NonZeroNvencStatus::NV_ENC_ERR_INVALID_PTR,
            NVENCSTATUS::NV_ENC_ERR_INVALID_PTR,
        ),
        (
            NonZeroNvencStatus::NV_ENC_ERR_INVALID_EVENT,
            NVENCSTATUS::NV_ENC_ERR_INVALID_EVENT,
        ),
        (
            NonZeroNvencStatus::NV_ENC_ERR_INVALID_PARAM,
            NVENCSTATUS::NV_ENC_ERR_INVALID_PARAM,
        ),
        (
            NonZeroNvencStatus::NV_ENC_ERR_INVALID_CALL,
            NVENCSTATUS::NV_ENC_ERR_INVALID_CALL,
        ),
        (
            NonZeroNvencStatus::NV_ENC_ERR_OUT_OF_MEMORY,
            NVENCSTATUS::NV_ENC_ERR_OUT_OF_MEMORY,
        ),
        (
            NonZeroNvencStatus::NV_ENC_ERR_ENCODER_NOT_INITIALIZED,
            NVENCSTATUS::NV_ENC_ERR_ENCODER_NOT_INITIALIZED,
        ),
        (
            NonZeroNvencStatus::NV_ENC_ERR_UNSUPPORTED_PARAM,
            NVENCSTATUS::NV_ENC_ERR_UNSUPPORTED_PARAM,
        ),
        (
            NonZeroNvencStatus::NV_ENC_ERR_LOCK_BUSY,
            NVENCSTATUS::NV_ENC_ERR_LOCK_BUSY,
        ),
        (
            NonZeroNvencStatus::NV_ENC_ERR_NOT_ENOUGH_BUFFER,
            NVENCSTATUS::NV_ENC_ERR_NOT_ENOUGH_BUFFER,
        ),
        (
            NonZeroNvencStatus::NV_ENC_ERR_INVALID_VERSION,
            NVENCSTATUS::NV_ENC_ERR_INVALID_VERSION,
        ),
        (
            NonZeroNvencStatus::NV_ENC_ERR_MAP_FAILED,
            NVENCSTATUS::NV_ENC_ERR_MAP_FAILED,
        ),
        (
            NonZeroNvencStatus::NV_ENC_ERR_NEED_MORE_INPUT,
            NVENCSTATUS::NV_ENC_ERR_NEED_MORE_INPUT,
        ),
        (
            NonZeroNvencStatus::NV_ENC_ERR_ENCODER_BUSY,
            NVENCSTATUS::NV_ENC_ERR_ENCODER_BUSY,
        ),
        (
            NonZeroNvencStatus::NV_ENC_ERR_EVENT_NOT_REGISTERD,
            NVENCSTATUS::NV_ENC_ERR_EVENT_NOT_REGISTERD,
        ),
        (
            NonZeroNvencStatus::NV_ENC_ERR_GENERIC,
            NVENCSTATUS::NV_ENC_ERR_GENERIC,
        ),
        (
            NonZeroNvencStatus::NV_ENC_ERR_INCOMPATIBLE_CLIENT_KEY,
            NVENCSTATUS::NV_ENC_ERR_INCOMPATIBLE_CLIENT_KEY,
        ),
        (
            NonZeroNvencStatus::NV_ENC_ERR_UNIMPLEMENTED,
            NVENCSTATUS::NV_ENC_ERR_UNIMPLEMENTED,
        ),
        (
            NonZeroNvencStatus::NV_ENC_ERR_RESOURCE_REGISTER_FAILED,
            NVENCSTATUS::NV_ENC_ERR_RESOURCE_REGISTER_FAILED,
        ),
        (
            NonZeroNvencStatus::NV_ENC_ERR_RESOURCE_NOT_REGISTERED,
            NVENCSTATUS::NV_ENC_ERR_RESOURCE_NOT_REGISTERED,
        ),
        (
            NonZeroNvencStatus::NV_ENC_ERR_RESOURCE_NOT_MAPPED,
            NVENCSTATUS::NV_ENC_ERR_RESOURCE_NOT_MAPPED,
        ),
    ];

    for (a, b) in pairs {
        assert_eq!(a.into_nvenc_status(), b);
    }
    for (a, b) in pairs {
        assert_eq!(a, NonZeroNvencStatus::from_nvenc_status(b).unwrap());
    }
}

#[test]
fn nv_enc_success_is_zero() {
    let status = NVENCSTATUS::NV_ENC_SUCCESS;
    assert_eq!(status as i32, 0);
}

#[test]
fn error_same_size() {
    assert_eq!(
        std::mem::size_of::<NVENCSTATUS>(),
        std::mem::size_of::<NvEncError>()
    );
}

#[test]
fn option_error_same_size() {
    assert_eq!(
        std::mem::size_of::<Option<NvEncError>>(),
        std::mem::size_of::<NvEncError>()
    );
}

#[test]
fn success_maps_to_no_error() {
    assert!(NvEncError::from_nvenc_status(NVENCSTATUS::NV_ENC_SUCCESS).is_none());
    assert!(NonZeroNvencStatus::from_nvenc_status(NVENCSTATUS::NV_ENC_SUCCESS).is_none());
}

#[test]
fn sys_error_round_trips_through_nvenc_error() {
    let err = NvEncError::from_nvenc_status(NVENCSTATUS::NV_ENC_ERR_LOCK_BUSY).unwrap();
    assert_eq!(
        err,
        NvEncError::Sys(NonZeroNvencStatus::NV_ENC_ERR_LOCK_BUSY)
    );
    assert_eq!(
        err.into_nvenc_status(),
        Some(NVENCSTATUS::NV_ENC_ERR_LOCK_BUSY)
    );
}

#[test]
fn non_sys_error_has_no_status() {
    assert_eq!(NvEncError::EndOfStream.into_nvenc_status(), None);
    assert_eq!(NvEncError::CodecNotSet.into_nvenc_status(), None);
}
