//! Core of a hardware video-encoder session: a bounded, ordered
//! producer/consumer dispatch ring that hands frames to an asynchronous
//! encoding device and returns compressed output in submission order.
//!
//! The hardware itself (submission, buffer locking, completion events) is an
//! external collaborator; this crate verifies the handoff protocol, the slot
//! lifecycle, and the configuration records that surround it.

pub mod sys;

pub use error::NvEncError;
pub use error::NonZeroNvencStatus;
pub use settings::Codec;
pub use settings::CodecProfile;
pub use settings::EncodePreset;
pub use settings::MultiPassSetting;
pub use settings::TuningInfo;

pub use ring::DispatchRing;
pub use ring::FrameRequest;
pub use ring::FrameTag;
pub use ring::RingError;
pub use ring::Slot;
pub use ring::SlotStage;

pub use builder::BUFFER_SIZE;
pub use builder::EncoderBuilder;
pub use config::EncodeConfig;
pub use config::EncodeParams;
pub use config::ExtraOptions;

pub use builder::is_version_supported;
pub use encoder_input::EncoderInput;
pub use encoder_input::PicParams;
pub use encoder_output::EncoderOutput;
pub use event::EventObject;

pub mod builder;
pub mod config;
pub mod encoder_input;
pub mod encoder_output;
pub mod error;
pub mod event;
pub mod ring;
pub mod settings;
pub mod util;
