//! Decoder capability resolution and fallback-chain inspection.
//!
//! For each codec family there is a fixed, preference-ordered catalog of
//! decoder elements. Given which of them are present on the system, the
//! library picks the element to build a pipeline with, and it tells, for
//! display, which entry of the catalog a pipeline that already runs is using.

pub mod availability;
pub mod backend;
pub mod chain;
pub mod definitions;
pub mod resolver;
pub mod text;

pub use crate::availability::AvailabilityCache;
pub use crate::backend::PipelineBackend;
pub use crate::chain::{
    build_chain_from_defs, build_decoder_chain, DecoderStatus, FallbackState, FormatChain,
};
pub use crate::definitions::{h264_decoders, h265_decoders, mjpeg_decoders, Codec, DecoderDef};
pub use crate::resolver::{find_available_decoder, select_decoder};
