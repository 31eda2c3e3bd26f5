//! The producer half of an encoding session: it keeps the per-picture
//! submission record, binds each frame into the dispatch ring, and issues the
//! terminal end-of-stream submission. The dispatch ring itself is shared with
//! the consumer half and is owned by the embedder next to the two handles.

use vstd::prelude::*;

use crate::config::EncodeParams;
use crate::error::NvEncError;
use crate::ring::DispatchRing;
use crate::ring::FrameRequest;
use crate::ring::FrameTag;
use crate::ring::RingError;
use crate::sys::NV_ENC_BUFFER_FORMAT;
use crate::sys::NV_ENC_PIC_FLAG_EOS;
use crate::sys::NV_ENC_PIC_FLAG_FORCEIDR;
use crate::sys::NV_ENC_PIC_FLAG_OUTPUT_SPSPPS;
use crate::sys::NV_ENC_PIC_STRUCT;

verus! {

/// The per-picture submission record: what is told to the encoder with each
/// submitted frame. The per-slot handles (input, output, completion signal)
/// are bound by the ring; this record carries what is common to the session
/// plus the per-frame flags and timestamp.
#[derive(Debug, Copy, Clone, PartialEq, Eq, Structural)]
pub struct PicParams {
    pub input_width: u32,
    pub input_height: u32,
    pub input_pitch: u32,
    pub buffer_format: NV_ENC_BUFFER_FORMAT,
    pub picture_struct: NV_ENC_PIC_STRUCT,
    /// Picture flags, good for exactly one frame.
    pub encode_pic_flags: u32,
    /// Timestamp of the frame being submitted (used to invalidate frames).
    pub input_timestamp: u64,
}

/// Exclusive producer handle of an encoding session.
#[derive(Debug, Copy, Clone, PartialEq, Eq, Structural)]
pub struct EncoderInput {
    pub encode_params: EncodeParams,
    pub encode_pic_params: PicParams,
}

impl EncoderInput {
    /// Producer handle for a session with the given parameters; pictures are
    /// whole frames of the session's size in the given texture format.
    pub fn new(encode_params: EncodeParams, texture_format: NV_ENC_BUFFER_FORMAT) -> (r:
        EncoderInput)
        ensures
            r.encode_params == encode_params,
            r.encode_pic_params == (PicParams {
                input_width: encode_params.init.encode_width,
                input_height: encode_params.init.encode_height,
                input_pitch: encode_params.init.encode_width,
                buffer_format: texture_format,
                picture_struct: NV_ENC_PIC_STRUCT::NV_ENC_PIC_STRUCT_FRAME,
                encode_pic_flags: 0u32,
                input_timestamp: 0u64,
            }),
    {
        let width = encode_params.encode_width();
        let height = encode_params.encode_height();
        let encode_pic_params = PicParams {
            input_width: width,
            input_height: height,
            input_pitch: width,
            buffer_format: texture_format,
            picture_struct: NV_ENC_PIC_STRUCT::NV_ENC_PIC_STRUCT_FRAME,
            encode_pic_flags: 0,
            input_timestamp: 0,
        };
        EncoderInput { encode_params, encode_pic_params }
    }

    /// Retarget the average bitrate (and VBV window). The external
    /// reconfigure call then takes the updated parameters.
    pub fn update_average_bitrate(&mut self, bitrate: u32, vbv_buffer_size: Option<u32>)
        ensures
            final(self).encode_pic_params == old(self).encode_pic_params,
            final(self).encode_params.init == old(self).encode_params.init,
            final(self).encode_params.config.rc_params.average_bitrate == bitrate,
            final(self).encode_params.config.rc_params.max_bitrate == bitrate,
            final(self).encode_params.config.rc_params.vbv_buffer_size == (
            match vbv_buffer_size {
                Some(v) => v,
                None => old(self).encode_params.config.rc_params.vbv_buffer_size,
            }),
            final(self).encode_params.config.rc_params.vbv_initial_delay == (
            match vbv_buffer_size {
                Some(v) => v,
                None => old(self).encode_params.config.rc_params.vbv_initial_delay,
            }),
            final(self).encode_params.config.profile == old(self).encode_params.config.profile,
            final(self).encode_params.config.codec_config == old(
                self,
            ).encode_params.config.codec_config,
            final(self).encode_params.config.rc_params.enable_aq == old(
                self,
            ).encode_params.config.rc_params.enable_aq,
            final(self).encode_params.config.rc_params.zero_reorder_delay == old(
                self,
            ).encode_params.config.rc_params.zero_reorder_delay,
            final(self).encode_params.config.rc_params.multi_pass == old(
                self,
            ).encode_params.config.rc_params.multi_pass,
    {
        self.encode_params.set_average_bitrate(bitrate, vbv_buffer_size);
    }

    /// Submit one frame: the registered input resource and its timestamp go
    /// into the ring's next slot, the external call `submit` hands the work
    /// to the hardware, and on acceptance the slot index is published for the
    /// consumer. The picture flags are good for one frame only, so they are
    /// reset after a successful submission. Under backpressure (`capacity`
    /// frames outstanding) nothing changes and `WouldBlock` is returned.
    pub fn encode_frame<F: Fn(usize) -> Result<(), NvEncError>>(
        &mut self,
        ring: &mut DispatchRing,
        registered_input: u64,
        timestamp: u64,
        submit: F,
    ) -> (r: Result<usize, RingError>)
        requires
            old(ring).wf(),
            forall|i: usize| (i as int) < old(ring).capacity_spec() ==> call_requires(submit, (i,)),
        ensures
            final(ring).wf(),
            final(ring).slots@.len() == old(ring).slots@.len(),
            final(ring).delivered@ == old(ring).delivered@,
            final(self).encode_params == old(self).encode_params,
            final(self).encode_pic_params.input_timestamp == timestamp,
            match r {
                Ok(i) => {
                    &&& final(ring).submitted@ == old(ring).submitted@.push(
                        FrameTag { end_of_stream: false, timestamp: timestamp },
                    )
                    &&& i as int == old(ring).submitted@.len() as int % old(ring).capacity_spec()
                    &&& final(self).encode_pic_params == (PicParams {
                        encode_pic_flags: 0u32,
                        input_timestamp: timestamp,
                        ..old(self).encode_pic_params
                    })
                },
                Err(RingError::WouldBlock) => {
                    &&& old(ring).in_flight_spec() == old(ring).capacity_spec()
                    &&& *final(ring) == *old(ring)
                    &&& final(self).encode_pic_params == (PicParams {
                        input_timestamp: timestamp,
                        ..old(self).encode_pic_params
                    })
                },
                Err(RingError::Stalled) => old(ring).stalled && *final(ring) == *old(ring),
                Err(RingError::Encoder(e)) => {
                    &&& call_ensures(submit, (old(ring).next_write,), Err::<(), NvEncError>(e))
                    &&& final(ring).submitted@ == old(ring).submitted@
                    &&& final(self).encode_pic_params == (PicParams {
                        input_timestamp: timestamp,
                        ..old(self).encode_pic_params
                    })
                },
                Err(RingError::CapacityViolation) => false,
            },
    {
        // used for invalidation of frames
        self.encode_pic_params.input_timestamp = timestamp;

        let request = FrameRequest { registered_input, timestamp, end_of_stream: false };
        let res = ring.submit_frame(request, submit);

        match res {
            Ok(index) => {
                // the flags are only good for one frame
                self.encode_pic_params.encode_pic_flags = 0;
                Ok(index)
            },
            Err(e) => Err(e),
        }
    }

    /// Force the next frame to be encoded as an IDR picture and also emit
    /// the codec parameters (SPS/PPS) inline in the bitstream.
    #[inline]
    pub fn force_idr_on_next(&mut self)
        ensures
            *final(self) == (EncoderInput {
                encode_pic_params: PicParams {
                    encode_pic_flags: NV_ENC_PIC_FLAG_FORCEIDR | NV_ENC_PIC_FLAG_OUTPUT_SPSPPS,
                    ..old(self).encode_pic_params
                },
                ..*old(self)
            }),
    {
        self.encode_pic_params.encode_pic_flags = NV_ENC_PIC_FLAG_FORCEIDR
            | NV_ENC_PIC_FLAG_OUTPUT_SPSPPS;
    }

    /// Issue the terminal end-of-stream submission: no picture is attached,
    /// the end-of-stream picture flag is set, and the consumer will observe
    /// the distinguished `EndOfStream` condition for this slot. Dropping the
    /// producer should end in a call to this, so the consumer never hangs.
    pub fn end_encode<F: Fn(usize) -> Result<(), NvEncError>>(
        &mut self,
        ring: &mut DispatchRing,
        submit: F,
    ) -> (r: Result<usize, RingError>)
        requires
            old(ring).wf(),
            forall|i: usize| (i as int) < old(ring).capacity_spec() ==> call_requires(submit, (i,)),
        ensures
            final(ring).wf(),
            final(ring).slots@.len() == old(ring).slots@.len(),
            final(ring).delivered@ == old(ring).delivered@,
            final(self).encode_params == old(self).encode_params,
            final(self).encode_pic_params == (PicParams {
                encode_pic_flags: NV_ENC_PIC_FLAG_EOS,
                ..old(self).encode_pic_params
            }),
            match r {
                Ok(i) => {
                    &&& final(ring).submitted@ == old(ring).submitted@.push(
                        FrameTag { end_of_stream: true, timestamp: 0u64 },
                    )
                    &&& i as int == old(ring).submitted@.len() as int % old(ring).capacity_spec()
                },
                Err(RingError::WouldBlock) => {
                    &&& old(ring).in_flight_spec() == old(ring).capacity_spec()
                    &&& *final(ring) == *old(ring)
                },
                Err(RingError::Stalled) => old(ring).stalled && *final(ring) == *old(ring),
                Err(RingError::Encoder(e)) => {
                    &&& call_ensures(submit, (old(ring).next_write,), Err::<(), NvEncError>(e))
                    &&& final(ring).submitted@ == old(ring).submitted@
                },
                Err(RingError::CapacityViolation) => false,
            },
    {
        self.encode_pic_params.encode_pic_flags = NV_ENC_PIC_FLAG_EOS;
        let request = FrameRequest { registered_input: 0, timestamp: 0, end_of_stream: true };
        ring.submit_frame(request, submit)
    }
}

} // verus!
